use bsky_rpg::events::create::services::{is_checkable, to_chars, SpellCheckService};

#[test]
fn clean_text_has_few_objections() {
    let mut service = SpellCheckService::new();
    let lints = service.check("This is a simple sentence.".to_string());
    assert!(lints.len() <= 6);
}

#[test]
fn misspelled_text_has_many_objections() {
    let mut service = SpellCheckService::new();
    let text = "qzxv blorft snarfle wumpet drazzle kloompf vrexil tromble queef zibbet \
                glarnok pliffle shrunkit";
    let lints = service.check(text.to_string());
    assert!(lints.len() >= 10);
}

#[test]
fn the_characters_of_a_text() {
    assert_eq!(to_chars(""), Vec::<char>::new());
    assert_eq!(to_chars("héllo"), vec!['h', 'é', 'l', 'l', 'o']);
}

#[test]
fn a_text_that_begins_with_a_digit_is_not_taken() {
    assert!(!is_checkable("5 cats"));
    assert!(!is_checkable("7/10"));
    assert!(!is_checkable("2024 was a good year"));
    assert!(is_checkable("We have 5 cats"));
    assert!(is_checkable(""));
    assert!(is_checkable(" 5 cats"));
}

#[test]
fn a_text_that_names_a_proper_noun_is_not_taken() {
    assert!(!is_checkable("Yesterday we all love South America and Europe."));
    assert!(!is_checkable("we went to north  korea"));
    assert!(!is_checkable("the UNITED\nstates"));
    assert!(!is_checkable("happy mothers' day"));
    assert!(!is_checkable("it is Black\tFriday again"));
    assert!(!is_checkable("I use Google Chrome and it is fast"));
    assert!(!is_checkable("an apple a day"));
    assert!(is_checkable("southamerica"));
    assert!(is_checkable("South, America"));
    assert!(is_checkable("the south of america"));
    assert!(is_checkable("apple"));
    assert!(is_checkable("apples are good"));
    assert!(is_checkable("a day in may"));
}

#[test]
fn mistakes_are_counted_where_the_text_is_taken() {
    let mut service = SpellCheckService::new();
    assert_eq!(service.count_mistakes(&"5 cats".to_string()), None);
    assert_eq!(
        service.count_mistakes(&"Yesterday we all love South America and Europe.".to_string()),
        None
    );
    assert_eq!(service.count_mistakes(&"This is a simple sentence.".to_string()), Some(0));
    let text = "qzxv blorft snarfle wumpet drazzle kloompf vrexil tromble queef zibbet \
                glarnok pliffle shrunkit";
    let mistakes = service.count_mistakes(&text.to_string()).unwrap();
    assert!(mistakes >= 10);
    assert_eq!(service.count_mistakes(&text.to_string()), Some(mistakes));
    assert_eq!(service.check(text.to_string()).len(), mistakes);
}
