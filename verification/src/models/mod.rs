//! The records that the progression engine keeps for each actor and for
//! each event that it has processed.

pub mod character;
pub mod ledger;

use crate::events::AppBskyEventRecord;
use vstd::prelude::*;

verus! {

/// One entry of the ledger: a processed event and the experience that it
/// awarded.
pub struct EventTracker {
    /// The identity of the actor.
    pub user_id: String,
    /// The collection of the record.
    pub event_type: AppBskyEventRecord,
    /// The key of the record; the ledger holds one entry for each.
    pub event_id: String,
    /// Free pairs of a name and a value.
    pub event_data: Vec<(String, String)>,
    /// The experience that was awarded; nothing where the entry was written
    /// before awards were recorded.
    pub xp: Option<i32>,
    /// The time of the event in microseconds.
    pub event_at: u64,
}

impl EventTracker {
    /// The recorded award, where there is one, is not negative.
    pub open spec fn wf(&self) -> bool {
        self.xp matches Some(xp) ==> 0 <= xp
    }
}

/// The counter that accumulates the experience of one actor.
pub struct CharacterExperience {
    /// The identity of the actor.
    pub user_id: String,
    /// The accumulated experience.
    pub current_experience: i64,
}

/// What a counter that stands at `counter` reads as: its lower thirty-two
/// bits as a signed number, and zero where that number is negative. A
/// counter between zero and the largest such number reads as itself.
pub open spec fn spec_experience_read(counter: i64) -> int {
    let experience = counter as i32;
    if experience < 0 {
        0
    } else {
        experience as int
    }
}

impl CharacterExperience {
    /// Returns the experience that the counter reads as.
    pub fn get_experience(&self) -> (experience: i32)
        ensures
            experience == spec_experience_read(self.current_experience),
            0 <= experience,
            0 <= self.current_experience <= i32::MAX ==> experience == self.current_experience,
    {
        let exp: i32 = #[verifier::truncate]
        (self.current_experience as i32);
        if exp < 0 {
            0
        } else {
            exp
        }
    }

    /// Adds `experience_points` to the counter.
    pub fn increment_current_experience(&mut self, experience_points: i64)
        requires
            i64::MIN <= old(self).current_experience + experience_points <= i64::MAX,
        ensures
            final(self).current_experience == old(self).current_experience + experience_points,
            final(self).user_id == old(self).user_id,
    {
        self.current_experience = self.current_experience + experience_points;
    }
}

} // verus!
