//! Experience model: thresholds, levels and the progression state derived
//! from an amount of accumulated experience.

use vstd::prelude::*;

verus! {

/// The maximum level an actor can attain.
pub const LEVEL_CAP: i32 = 1000;

/// How much experience separates two consecutive levels.
pub const EXPERIENCE_PER_LEVEL: i32 = 100;

/// The experience threshold of level 1.
pub const BASE_EXPERIENCE: i32 = 50;

/// A fraction `numerator / denominator`; the denominator is at least 1
/// wherever this library produces one.
#[derive(Clone, Copy, Debug, PartialEq, Eq, Structural)]
pub struct Ratio {
    pub numerator: i32,
    pub denominator: i32,
}

/// The progression state that results from one change of experience.
#[derive(Clone, Copy, Debug, PartialEq, Eq, Structural)]
pub struct LevelResponse {
    /// The level, clamped at `LEVEL_CAP`.
    pub level: i32,
    /// The total accumulated experience.
    pub experience: i32,
    /// The experience still missing for the next level; zero at the cap.
    pub experience_to_next_level: i32,
    /// How many levels this change gained; never negative.
    pub levels_gained: i32,
    /// How far the actor is from `level` to `level + 1`; one at the cap.
    pub progress_percentage: Ratio,
}

/// The experience needed to reach `level`.
pub open spec fn spec_xp_for_level(level: int) -> int {
    if level <= 1 {
        BASE_EXPERIENCE as int
    } else {
        BASE_EXPERIENCE + (level - 1) * EXPERIENCE_PER_LEVEL
    }
}

/// The level that `xp` experience amounts to, without the cap.
pub open spec fn spec_level_from_xp(xp: int) -> int {
    if xp < BASE_EXPERIENCE {
        1
    } else {
        1 + (xp - BASE_EXPERIENCE) / (EXPERIENCE_PER_LEVEL as int)
    }
}

/// The level that `xp` experience amounts to, clamped at `LEVEL_CAP`.
pub open spec fn spec_capped_level(xp: int) -> int {
    if spec_level_from_xp(xp) >= LEVEL_CAP {
        LEVEL_CAP as int
    } else {
        spec_level_from_xp(xp)
    }
}

/// The experience missing from `xp` to the next level; zero at the cap.
pub open spec fn spec_experience_to_next_level(xp: int) -> int {
    let next = spec_xp_for_level(spec_capped_level(xp) + 1);
    if spec_capped_level(xp) >= LEVEL_CAP || next <= xp {
        0
    } else {
        next - xp
    }
}

/// The part of the current level's span that `xp` has covered, as the
/// numerator and the denominator of a fraction; `1 / 1` at the cap.
pub open spec fn spec_progress(xp: int) -> (int, int) {
    let level = spec_capped_level(xp);
    let current = spec_xp_for_level(level);
    let span = spec_xp_for_level(level + 1) - current;
    if level >= LEVEL_CAP {
        (1, 1)
    } else {
        (if xp <= current { 0 } else { xp - current }, if span <= 1 { 1 } else { span })
    }
}

/// The number of levels gained by going from `old_xp` to `new_xp`; a loss
/// of levels counts as zero.
pub open spec fn spec_levels_gained(old_xp: int, new_xp: int) -> int {
    let gained = spec_capped_level(new_xp) - spec_level_from_xp(old_xp);
    if gained <= 0 { 0 } else { gained }
}

/// Whether every field of the progression state at `xp` fits its machine
/// type.
pub open spec fn spec_experience_fits(xp: int) -> bool {
    i32::MIN <= xp <= i32::MAX && spec_experience_to_next_level(xp) <= i32::MAX
}

/// The progression state after `gained` is added to `current`.
pub open spec fn spec_calculate_experience(current: int, gained: int) -> LevelResponse {
    let xp = current + gained;
    LevelResponse {
        level: spec_capped_level(xp) as i32,
        experience: xp as i32,
        experience_to_next_level: spec_experience_to_next_level(xp) as i32,
        levels_gained: spec_levels_gained(current, xp) as i32,
        progress_percentage: Ratio {
            numerator: spec_progress(xp).0 as i32,
            denominator: spec_progress(xp).1 as i32,
        },
    }
}

/// Returns the experience required to reach `level`.
pub fn xp_for_level(level: i32) -> (xp: i32)
    requires
        spec_xp_for_level(level as int) <= i32::MAX,
    ensures
        xp == spec_xp_for_level(level as int),
{
    if level <= 1 {
        BASE_EXPERIENCE
    } else {
        BASE_EXPERIENCE + (level - 1) * EXPERIENCE_PER_LEVEL
    }
}

/// Returns the level that a total of `xp` experience amounts to, without
/// clamping it to `LEVEL_CAP`.
pub fn get_level_from_xp(xp: i32) -> (level: i32)
    ensures
        level == spec_level_from_xp(xp as int),
        1 <= level,
{
    if xp < BASE_EXPERIENCE {
        return 1;
    }
    1 + (xp - BASE_EXPERIENCE) / EXPERIENCE_PER_LEVEL
}

/// Computes the progression state after `gained_experience` is added to
/// `current_experience`. No floor is applied to the sum.
pub fn calculate_experience(current_experience: i32, gained_experience: i32) -> (response:
    LevelResponse)
    requires
        spec_experience_fits(current_experience + gained_experience),
    ensures
        response == spec_calculate_experience(current_experience as int, gained_experience as int),
        response.experience == current_experience + gained_experience,
        1 <= response.level <= LEVEL_CAP,
        0 <= response.levels_gained,
        0 <= response.experience_to_next_level,
        0 <= response.progress_percentage.numerator <= response.progress_percentage.denominator,
        1 <= response.progress_percentage.denominator,
        spec_level_from_xp(current_experience + gained_experience) >= LEVEL_CAP ==> {
            &&& response.level == LEVEL_CAP
            &&& response.experience_to_next_level == 0
            &&& response.progress_percentage == (Ratio { numerator: 1, denominator: 1 })
        },
{
    let new_experience: i32 = current_experience + gained_experience;
    let old_level: i32 = get_level_from_xp(current_experience);
    let new_level: i32 = get_level_from_xp(new_experience);
    let level: i32 = if new_level >= LEVEL_CAP { LEVEL_CAP } else { new_level };

    let (experience_to_next_level, progress_percentage) = if level >= LEVEL_CAP {
        (0, Ratio { numerator: 1, denominator: 1 })
    } else {
        let next_level_xp: i32 = xp_for_level(level + 1);
        let current_level_xp: i32 = xp_for_level(level);
        let missing: i32 = if next_level_xp <= new_experience {
            0
        } else {
            next_level_xp - new_experience
        };
        let covered: i32 = if new_experience <= current_level_xp {
            0
        } else {
            new_experience - current_level_xp
        };
        let span: i32 = next_level_xp - current_level_xp;
        (missing, Ratio { numerator: covered, denominator: if span <= 1 { 1 } else { span } })
    };

    let levels_gained: i32 = if level <= old_level { 0 } else { level - old_level };

    LevelResponse {
        level,
        experience: new_experience,
        experience_to_next_level,
        levels_gained,
        progress_percentage,
    }
}

/// Threshold round trip: the threshold of the level that `xp` amounts to
/// amounts to that same level.
pub proof fn lemma_threshold_round_trip(xp: int)
    ensures
        spec_level_from_xp(spec_xp_for_level(spec_level_from_xp(xp))) == spec_level_from_xp(xp),
{
    let level = spec_level_from_xp(xp);
    if level > 1 {
        assert(((level - 1) * 100) / 100 == level - 1) by (nonlinear_arith);
    }
}

/// From the base threshold on, the level of `xp` is the one whose threshold
/// `xp` has reached while it has not reached the next one; below the base
/// threshold the level is 1.
pub proof fn lemma_level_brackets_experience(xp: int)
    ensures
        1 <= spec_level_from_xp(xp),
        xp < spec_xp_for_level(spec_level_from_xp(xp) + 1),
        xp >= BASE_EXPERIENCE ==> spec_xp_for_level(spec_level_from_xp(xp)) <= xp,
        xp < BASE_EXPERIENCE ==> spec_level_from_xp(xp) == 1,
{
}

/// The level never decreases when experience grows.
pub proof fn lemma_level_is_monotonic(low: int, high: int)
    requires
        low <= high,
    ensures
        spec_level_from_xp(low) <= spec_level_from_xp(high),
        spec_capped_level(low) <= spec_capped_level(high),
{
}

} // verus!
