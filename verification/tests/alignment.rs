use bsky_rpg::events::create::services::SpellCheckService;
use bsky_rpg::models::character::{
    Alignment, Ethical, EthicalAxis, Moral, MoralAxis, Sentiment, SentimentPolarity,
    UserAlignment,
};

fn positive(score_micros: u32) -> Sentiment {
    Sentiment { polarity: SentimentPolarity::Positive, score_micros }
}

fn negative(score_micros: u32) -> Sentiment {
    Sentiment { polarity: SentimentPolarity::Negative, score_micros }
}

fn scores(alignment: &UserAlignment) -> [i32; 6] {
    let moral = alignment.moral();
    let ethical = alignment.ethical();
    [
        moral.good(),
        moral.neutral(),
        moral.evil(),
        ethical.lawful(),
        ethical.neutral(),
        ethical.chaotic(),
    ]
}

#[test]
fn a_new_alignment_is_true_neutral() {
    let alignment = UserAlignment::new();
    assert_eq!(scores(&alignment), [0, 0, 0, 0, 0, 0]);
    assert_eq!(alignment.current_align(), Alignment::TrueNeutral);
    assert_eq!(alignment.current_align().to_string(), "true neutral");
}

#[test]
fn the_default_label_is_true_neutral() {
    assert_eq!(Alignment::default(), Alignment::TrueNeutral);
}

#[test]
fn points_are_a_hundred_times_the_score_rounded() {
    assert_eq!(positive(0).points(), 0);
    assert_eq!(positive(4_999).points(), 0);
    assert_eq!(positive(5_000).points(), 1);
    assert_eq!(positive(554_999).points(), 55);
    assert_eq!(positive(555_000).points(), 56);
    assert_eq!(positive(900_000).points(), 90);
    assert_eq!(positive(994_999).points(), 99);
    assert_eq!(positive(995_000).points(), 100);
    assert_eq!(negative(1_000_000).points(), 100);
}

#[test]
fn a_score_is_strong_above_seven_tenths() {
    assert!(!positive(0).is_strong());
    assert!(!positive(700_000).is_strong());
    assert!(positive(700_001).is_strong());
    assert!(negative(1_000_000).is_strong());
}

#[test]
fn a_positive_text_raises_good_and_wears_down_evil() {
    let mut moral = MoralAxis::new(10, 40, 30);
    moral.apply_sentiment(positive(600_000));
    assert_eq!((moral.good(), moral.neutral(), moral.evil()), (70, 40, 15));
}

#[test]
fn a_strongly_positive_text_also_wears_down_neutral() {
    let mut moral = MoralAxis::new(0, 50, 5);
    moral.apply_sentiment(positive(800_000));
    assert_eq!((moral.good(), moral.neutral(), moral.evil()), (80, 37, 0));
}

#[test]
fn a_negative_text_mirrors_a_positive_one() {
    let mut moral = MoralAxis::new(30, 40, 10);
    moral.apply_sentiment(negative(600_000));
    assert_eq!((moral.good(), moral.neutral(), moral.evil()), (15, 40, 70));
    let mut moral = MoralAxis::new(5, 50, 0);
    moral.apply_sentiment(negative(800_000));
    assert_eq!((moral.good(), moral.neutral(), moral.evil()), (0, 37, 80));
}

#[test]
fn scores_never_fall_below_zero() {
    let mut moral = MoralAxis::new(3, 2, 0);
    moral.apply_sentiment(negative(1_000_000));
    assert_eq!((moral.good(), moral.neutral(), moral.evil()), (0, 0, 100));
    let mut ethical = EthicalAxis::new(1, 1, 1);
    ethical.apply_mistakes(25);
    assert_eq!((ethical.lawful(), ethical.neutral(), ethical.chaotic()), (0, 0, 41));
}

#[test]
fn negative_scores_count_as_zero() {
    let moral = MoralAxis::new(-5, 7, -1);
    assert_eq!((moral.good(), moral.neutral(), moral.evil()), (0, 7, 0));
    let ethical = EthicalAxis::new(4, -2, -9);
    assert_eq!((ethical.lawful(), ethical.neutral(), ethical.chaotic()), (4, 0, 0));
}

#[test]
fn few_mistakes_are_lawful() {
    for mistakes in [0usize, 1, 6] {
        let mut ethical = EthicalAxis::new(20, 10, 5);
        ethical.apply_mistakes(mistakes);
        assert_eq!((ethical.lawful(), ethical.neutral(), ethical.chaotic()), (35, 10, 2));
    }
}

#[test]
fn some_mistakes_are_chaotic() {
    for mistakes in [7usize, 8, 9] {
        let mut ethical = EthicalAxis::new(20, 10, 5);
        ethical.apply_mistakes(mistakes);
        assert_eq!((ethical.lawful(), ethical.neutral(), ethical.chaotic()), (12, 6, 30));
    }
}

#[test]
fn many_mistakes_are_very_chaotic() {
    for mistakes in [10usize, 11, 500] {
        let mut ethical = EthicalAxis::new(30, 25, 5);
        ethical.apply_mistakes(mistakes);
        assert_eq!((ethical.lawful(), ethical.neutral(), ethical.chaotic()), (10, 15, 45));
    }
}

#[test]
fn a_side_must_strictly_exceed_both_others() {
    assert_eq!(MoralAxis::new(0, 0, 0).leaning(), Moral::Neutral);
    assert_eq!(MoralAxis::new(5, 5, 5).leaning(), Moral::Neutral);
    assert_eq!(MoralAxis::new(5, 0, 5).leaning(), Moral::Neutral);
    assert_eq!(MoralAxis::new(5, 5, 0).leaning(), Moral::Neutral);
    assert_eq!(MoralAxis::new(6, 5, 5).leaning(), Moral::Good);
    assert_eq!(MoralAxis::new(5, 5, 6).leaning(), Moral::Evil);
    assert_eq!(MoralAxis::new(5, 9, 6).leaning(), Moral::Neutral);
    assert_eq!(EthicalAxis::new(0, 0, 0).leaning(), Ethical::Neutral);
    assert_eq!(EthicalAxis::new(3, 3, 3).leaning(), Ethical::Neutral);
    assert_eq!(EthicalAxis::new(4, 3, 3).leaning(), Ethical::Lawful);
    assert_eq!(EthicalAxis::new(3, 3, 4).leaning(), Ethical::Chaotic);
    assert_eq!(EthicalAxis::new(4, 0, 4).leaning(), Ethical::Neutral);
}

#[test]
fn equal_scores_give_a_neutral_moral_component() {
    for value in [0, 1, 77] {
        let alignment =
            UserAlignment::from_axes(MoralAxis::new(value, value, value), EthicalAxis::new(9, 0, 0));
        assert_eq!(alignment.current_align(), Alignment::LawfulNeutral);
        let alignment =
            UserAlignment::from_axes(MoralAxis::new(value, value, value), EthicalAxis::new(0, 0, 9));
        assert_eq!(alignment.current_align(), Alignment::ChaoticNeutral);
        let alignment =
            UserAlignment::from_axes(MoralAxis::new(value, value, value), EthicalAxis::new(4, 4, 4));
        assert_eq!(alignment.current_align(), Alignment::TrueNeutral);
    }
}

#[test]
fn the_nine_labels_of_the_two_leanings() {
    let lawful = EthicalAxis::new(1, 0, 0);
    let neutral = EthicalAxis::new(0, 0, 0);
    let chaotic = EthicalAxis::new(0, 0, 1);
    let good = MoralAxis::new(1, 0, 0);
    let middle = MoralAxis::new(0, 0, 0);
    let evil = MoralAxis::new(0, 0, 1);
    let label = |moral: MoralAxis, ethical: EthicalAxis| {
        UserAlignment::from_axes(moral, ethical).current_align().to_string()
    };
    assert_eq!(label(good, lawful), "lawful good");
    assert_eq!(label(good, neutral), "neutral good");
    assert_eq!(label(good, chaotic), "chaotic good");
    assert_eq!(label(middle, lawful), "lawful neutral");
    assert_eq!(label(middle, neutral), "true neutral");
    assert_eq!(label(middle, chaotic), "chaotic neutral");
    assert_eq!(label(evil, lawful), "lawful evil");
    assert_eq!(label(evil, neutral), "neutral evil");
    assert_eq!(label(evil, chaotic), "chaotic evil");
    assert_eq!(Alignment::of_leanings(Ethical::Lawful, Moral::Good), Alignment::LawfulGood);
    assert_eq!(Alignment::of_leanings(Ethical::Chaotic, Moral::Evil), Alignment::ChaoticEvil);
}

#[test]
fn a_label_is_read_back_from_its_text() {
    let labels = [
        Alignment::LawfulGood,
        Alignment::NeutralGood,
        Alignment::ChaoticGood,
        Alignment::LawfulNeutral,
        Alignment::TrueNeutral,
        Alignment::ChaoticNeutral,
        Alignment::LawfulEvil,
        Alignment::NeutralEvil,
        Alignment::ChaoticEvil,
    ];
    for label in labels {
        assert_eq!(Alignment::from_label(label.to_string().as_str()), Some(label));
    }
    assert_eq!(Alignment::from_label("lawful"), None);
    assert_eq!(Alignment::from_label(""), None);
    assert_eq!(Alignment::from_label("Lawful Good"), None);
    assert_eq!(Alignment::from_label("true neutral "), None);
}

#[test]
fn signals_of_a_text_move_both_axes_and_the_label() {
    let mut alignment = UserAlignment::new();
    alignment.apply_text_signals(positive(900_000), 2);
    assert_eq!(scores(&alignment), [90, 0, 0, 15, 0, 0]);
    assert_eq!(alignment.current_align(), Alignment::LawfulGood);
    alignment.apply_text_signals(negative(500_000), 12);
    assert_eq!(scores(&alignment), [78, 0, 50, 0, 0, 40]);
    assert_eq!(alignment.current_align(), Alignment::ChaoticGood);
    alignment.apply_text_signals(negative(600_000), 8);
    assert_eq!(scores(&alignment), [63, 0, 110, 0, 0, 65]);
    assert_eq!(alignment.current_align(), Alignment::ChaoticEvil);
}

#[test]
fn deriving_the_label_again_changes_nothing() {
    let mut alignment = UserAlignment::new();
    alignment.apply_text_signals(positive(900_000), 2);
    let again = UserAlignment::from_axes(alignment.moral(), alignment.ethical());
    assert_eq!(again, alignment);
    assert_eq!(UserAlignment::from_axes(again.moral(), again.ethical()), alignment);
}

#[test]
fn room_for_a_text_ends_near_the_largest_score() {
    let roomy = UserAlignment::from_axes(
        MoralAxis::new(i32::MAX - 100, 0, 0),
        EthicalAxis::new(i32::MAX - 15, 0, i32::MAX - 40),
    );
    assert!(roomy.has_room_for_text(positive(1_000_000)));
    let full = UserAlignment::from_axes(MoralAxis::new(i32::MAX - 99, 0, 0), EthicalAxis::new(0, 0, 0));
    assert!(!full.has_room_for_text(positive(1_000_000)));
    assert!(full.has_room_for_text(negative(1_000_000)));
    let full = UserAlignment::from_axes(MoralAxis::new(0, 0, 0), EthicalAxis::new(0, 0, i32::MAX - 39));
    assert!(!full.has_room_for_text(positive(0)));
}

#[test]
fn without_a_text_the_alignment_stays() {
    let mut service = SpellCheckService::new();
    let mut alignment = UserAlignment::new();
    alignment.apply_text_signals(positive(900_000), 2);
    let before = alignment;
    alignment.update_alignment_from_text(None, negative(1_000_000), &mut service);
    assert_eq!(alignment, before);
}

#[test]
fn a_clean_text_is_lawful() {
    let mut service = SpellCheckService::new();
    let mut alignment = UserAlignment::new();
    let text = "This is a simple sentence.".to_string();
    alignment.update_alignment_from_text(Some(&text), positive(900_000), &mut service);
    assert_eq!(scores(&alignment), [90, 0, 0, 15, 0, 0]);
    assert_eq!(alignment.current_align(), Alignment::LawfulGood);
}

#[test]
fn a_misspelled_text_is_very_chaotic() {
    let mut service = SpellCheckService::new();
    let mut alignment = UserAlignment::new();
    let text = "qzxv blorft snarfle wumpet drazzle kloompf vrexil tromble queef zibbet \
                glarnok pliffle shrunkit"
        .to_string();
    alignment.update_alignment_from_text(Some(&text), negative(300_000), &mut service);
    assert_eq!(scores(&alignment), [0, 0, 30, 0, 0, 40]);
    assert_eq!(alignment.current_align(), Alignment::ChaoticEvil);
}

#[test]
fn a_text_that_the_spell_checker_cannot_take_leaves_the_alignment() {
    let mut service = SpellCheckService::new();
    let mut alignment = UserAlignment::new();
    alignment.apply_text_signals(positive(900_000), 2);
    let before = alignment;
    let text = "5 cats".to_string();
    alignment.update_alignment_from_text(Some(&text), negative(1_000_000), &mut service);
    assert_eq!(alignment, before);
    let text = "Yesterday we all love South America and Europe.".to_string();
    alignment.update_alignment_from_text(Some(&text), negative(1_000_000), &mut service);
    assert_eq!(alignment, before);
}
