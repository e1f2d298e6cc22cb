use bsky_rpg::leveling::{
    calculate_experience, get_level_from_xp, xp_for_level, Ratio, BASE_EXPERIENCE,
    EXPERIENCE_PER_LEVEL, LEVEL_CAP,
};

#[test]
fn constants_have_their_values() {
    assert_eq!(LEVEL_CAP, 1000);
    assert_eq!(EXPERIENCE_PER_LEVEL, 100);
    assert_eq!(BASE_EXPERIENCE, 50);
}

#[test]
fn threshold_of_each_level() {
    assert_eq!(xp_for_level(-3), 50);
    assert_eq!(xp_for_level(0), 50);
    assert_eq!(xp_for_level(1), 50);
    assert_eq!(xp_for_level(2), 150);
    assert_eq!(xp_for_level(10), 950);
    assert_eq!(xp_for_level(1000), 99_950);
    assert_eq!(xp_for_level(21_474_836), 2_147_483_550);
}

#[test]
fn level_of_an_amount_of_experience() {
    assert_eq!(get_level_from_xp(-10), 1);
    assert_eq!(get_level_from_xp(0), 1);
    assert_eq!(get_level_from_xp(49), 1);
    assert_eq!(get_level_from_xp(50), 1);
    assert_eq!(get_level_from_xp(149), 1);
    assert_eq!(get_level_from_xp(150), 2);
    assert_eq!(get_level_from_xp(249), 2);
    assert_eq!(get_level_from_xp(250), 3);
    assert_eq!(get_level_from_xp(99_950), 1000);
    assert_eq!(get_level_from_xp(100_050), 1001);
    assert_eq!(get_level_from_xp(i32::MAX), 21_474_836);
}

#[test]
fn threshold_round_trip_is_stable() {
    let mut xp = 0;
    while xp <= 120_000 {
        let level = get_level_from_xp(xp);
        assert_eq!(get_level_from_xp(xp_for_level(level)), level);
        xp += 7;
    }
}

#[test]
fn thirty_experience_from_nothing() {
    let response = calculate_experience(0, 30);
    assert_eq!(response.level, 1);
    assert_eq!(response.experience, 30);
    assert_eq!(response.levels_gained, 0);
    assert_eq!(response.experience_to_next_level, 120);
    assert_eq!(response.progress_percentage, Ratio { numerator: 0, denominator: 100 });
}

#[test]
fn progress_within_a_level() {
    let response = calculate_experience(100, 160);
    assert_eq!(response.level, 3);
    assert_eq!(response.experience, 260);
    assert_eq!(response.levels_gained, 2);
    assert_eq!(response.experience_to_next_level, 90);
    assert_eq!(response.progress_percentage, Ratio { numerator: 10, denominator: 100 });
    let progress = response.progress_percentage.numerator as f64
        / response.progress_percentage.denominator as f64;
    assert_eq!(progress, 0.1);
}

#[test]
fn exactly_at_a_threshold() {
    let response = calculate_experience(0, 150);
    assert_eq!(response.level, 2);
    assert_eq!(response.levels_gained, 1);
    assert_eq!(response.experience_to_next_level, 100);
    assert_eq!(response.progress_percentage, Ratio { numerator: 0, denominator: 100 });
}

#[test]
fn at_the_cap_nothing_is_missing() {
    let response = calculate_experience(0, 99_950);
    assert_eq!(response.level, 1000);
    assert_eq!(response.experience, 99_950);
    assert_eq!(response.experience_to_next_level, 0);
    assert_eq!(response.progress_percentage, Ratio { numerator: 1, denominator: 1 });
    assert_eq!(response.levels_gained, 999);
}

#[test]
fn beyond_the_cap_the_level_is_clamped() {
    let response = calculate_experience(99_000, 1_000_000);
    assert_eq!(response.level, 1000);
    assert_eq!(response.experience, 1_099_000);
    assert_eq!(response.experience_to_next_level, 0);
    assert_eq!(response.progress_percentage, Ratio { numerator: 1, denominator: 1 });
    assert_eq!(response.levels_gained, 10);
}

#[test]
fn just_below_the_cap() {
    let response = calculate_experience(0, 99_949);
    assert_eq!(response.level, 999);
    assert_eq!(response.experience_to_next_level, 1);
    assert_eq!(response.progress_percentage, Ratio { numerator: 99, denominator: 100 });
}

#[test]
fn a_loss_of_levels_is_no_gain() {
    let response = calculate_experience(260, -200);
    assert_eq!(response.level, 1);
    assert_eq!(response.experience, 60);
    assert_eq!(response.levels_gained, 0);
    assert_eq!(response.experience_to_next_level, 90);
    assert_eq!(response.progress_percentage, Ratio { numerator: 10, denominator: 100 });
}

#[test]
fn negative_experience_is_not_floored() {
    let response = calculate_experience(10, -30);
    assert_eq!(response.level, 1);
    assert_eq!(response.experience, -20);
    assert_eq!(response.experience_to_next_level, 170);
    assert_eq!(response.progress_percentage, Ratio { numerator: 0, denominator: 100 });
}
