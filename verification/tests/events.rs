use bsky_rpg::events::create::create_post::{all_described, CreatePostEvent};
use bsky_rpg::events::create::like_post::LikePostEvent;
use bsky_rpg::events::create::repost::RepostEvent;
use bsky_rpg::events::create::{select_event_handler, EventHandler};
use bsky_rpg::events::dto::NewEventDTO;
use bsky_rpg::events::{
    events_handler, same_text, AppBskyEventRecord, CommitData, CommitEvent, CommitInfo,
    CreateEventPayload, EventInfo, Image, Record, Routed,
};

fn info() -> EventInfo {
    EventInfo { did: "did:plc:alice".to_string(), time_us: 1_700_000_000_000_000 }
}

fn commit_info(collection: &str) -> CommitInfo {
    CommitInfo { rkey: "3kabc".to_string(), collection: collection.to_string() }
}

fn image(alt: &str) -> Image {
    Image { alt: alt.to_string() }
}

fn dto() -> NewEventDTO {
    NewEventDTO::from_payload(&CreateEventPayload::new(
        info(),
        CommitData { info: commit_info("app.bsky.feed.like"), record: Record::Like },
    ))
    .unwrap()
}

#[test]
fn texts_are_compared_by_their_characters() {
    assert!(same_text("abc", "abc"));
    assert!(same_text("", ""));
    assert!(!same_text("abc", "abd"));
    assert!(!same_text("abc", "ab"));
}

#[test]
fn a_collection_is_read_from_its_name() {
    assert_eq!(
        AppBskyEventRecord::from_string("app.bsky.feed.post"),
        Some(AppBskyEventRecord::Post)
    );
    assert_eq!(
        AppBskyEventRecord::from_string("app.bsky.feed.like"),
        Some(AppBskyEventRecord::Like)
    );
    assert_eq!(
        AppBskyEventRecord::from_string("app.bsky.feed.repost"),
        Some(AppBskyEventRecord::Repost)
    );
}

#[test]
fn an_unknown_collection_is_no_collection() {
    assert_eq!(AppBskyEventRecord::from_string("app.bsky.graph.follow"), None);
    assert_eq!(AppBskyEventRecord::from_string(""), None);
    assert_eq!(AppBskyEventRecord::from_string("app.bsky.feed.posts"), None);
    assert_eq!(AppBskyEventRecord::from_string("App.Bsky.Feed.Post"), None);
}

#[test]
fn a_payload_of_an_unknown_collection_keeps_no_facts() {
    let payload = CreateEventPayload::new(
        info(),
        CommitData { info: commit_info("app.bsky.graph.follow"), record: Record::Like },
    );
    assert!(NewEventDTO::from_payload(&payload).is_none());
}

#[test]
fn a_collection_gives_its_name() {
    assert_eq!(AppBskyEventRecord::Post.to_string(), "app.bsky.feed.post");
    assert_eq!(AppBskyEventRecord::Like.to_string(), "app.bsky.feed.like");
    assert_eq!(AppBskyEventRecord::Repost.to_string(), "app.bsky.feed.repost");
    for kind in [AppBskyEventRecord::Post, AppBskyEventRecord::Like, AppBskyEventRecord::Repost] {
        assert_eq!(AppBskyEventRecord::from_string(kind.to_string().as_str()), Some(kind));
    }
}

#[test]
fn a_creation_goes_to_the_handler_of_created_content() {
    let commit = CommitData { info: commit_info("app.bsky.feed.like"), record: Record::Like };
    match events_handler(CommitEvent::Create { info: info(), commit }) {
        Routed::Created(payload) => {
            assert_eq!(payload.event_info.did, "did:plc:alice");
            assert_eq!(payload.event_info.time_us, 1_700_000_000_000_000);
            assert_eq!(payload.commit_data.info.rkey, "3kabc");
            assert!(matches!(payload.commit_data.record, Record::Like));
        }
        _ => panic!("a creation is routed to the handler of created content"),
    }
}

#[test]
fn a_deletion_goes_to_the_handler_of_deleted_content() {
    let routed =
        events_handler(CommitEvent::Delete { info: info(), commit: commit_info("app.bsky.feed.post") });
    match routed {
        Routed::Deleted { info, commit } => {
            assert_eq!(info.did, "did:plc:alice");
            assert_eq!(commit.rkey, "3kabc");
            assert_eq!(commit.collection, "app.bsky.feed.post");
        }
        _ => panic!("a deletion is routed to the handler of deleted content"),
    }
}

#[test]
fn an_update_goes_nowhere() {
    let commit = CommitData { info: commit_info("app.bsky.feed.like"), record: Record::Like };
    assert!(matches!(events_handler(CommitEvent::Update { info: info(), commit }), Routed::Ignored));
}

#[test]
fn the_facts_kept_of_a_payload() {
    let payload = CreateEventPayload::new(
        info(),
        CommitData { info: commit_info("app.bsky.feed.repost"), record: Record::Repost },
    );
    let event = NewEventDTO::from_payload(&payload).unwrap();
    assert_eq!(event.user_did, "did:plc:alice");
    assert_eq!(event.event_type, AppBskyEventRecord::Repost);
    assert_eq!(event.event_id, "3kabc");
    assert!(event.context.is_empty());
    assert_eq!(event.posted_at, 1_700_000_000_000_000);
}

#[test]
fn a_new_post_event_is_empty() {
    let event = CreatePostEvent::new();
    assert_eq!(event.text, "");
    assert_eq!(event.length, 0);
    assert!(!event.has_image);
    assert!(!event.image_has_alt_text);
    assert_eq!(event.calculate_exp(), 0);
}

#[test]
fn a_post_with_a_described_image_is_worth_its_length_and_both_bonuses() {
    let mut event = CreatePostEvent::new();
    event.handle(Record::Post { text: "a".repeat(42), images: Some(vec![image("a cat")]) });
    assert_eq!(event.text, "a".repeat(42));
    assert_eq!(event.length, 42);
    assert!(event.has_image);
    assert!(event.image_has_alt_text);
    assert_eq!(event.calculate_exp(), 192);
}

#[test]
fn a_post_without_images_is_worth_its_length() {
    let mut event = CreatePostEvent::new();
    event.handle(Record::Post { text: "a".repeat(42), images: None });
    assert!(!event.has_image);
    assert!(!event.image_has_alt_text);
    assert_eq!(event.calculate_exp(), 42);
}

#[test]
fn one_image_without_a_description_forfeits_the_second_bonus() {
    let mut event = CreatePostEvent::new();
    event.handle(Record::Post {
        text: "a".repeat(42),
        images: Some(vec![image("a cat"), image(""), image("a dog")]),
    });
    assert!(event.has_image);
    assert!(!event.image_has_alt_text);
    assert_eq!(event.calculate_exp(), 142);
}

#[test]
fn the_length_of_a_text_is_counted_in_bytes() {
    let mut event = CreatePostEvent::new();
    event.handle(Record::Post { text: "héllo".to_string(), images: None });
    assert_eq!(event.length, 6);
    assert_eq!(event.calculate_exp(), 6);
}

#[test]
fn a_record_of_another_kind_leaves_the_post_event_alone() {
    let mut event = CreatePostEvent::new();
    event.handle(Record::Post { text: "hello".to_string(), images: Some(vec![image("x")]) });
    event.handle(Record::Like);
    event.handle(Record::Other);
    assert_eq!(event.text, "hello");
    assert_eq!(event.length, 5);
    assert!(event.has_image);
    assert!(event.image_has_alt_text);
}

#[test]
fn every_image_must_be_described() {
    assert!(all_described(&vec![]));
    assert!(all_described(&vec![image("a")]));
    assert!(!all_described(&vec![image("")]));
    assert!(!all_described(&vec![image("a"), image("")]));
    assert!(!all_described(&vec![image(""), image("a")]));
}

#[test]
fn a_like_is_worth_ten() {
    assert_eq!(LikePostEvent::new().calculate_exp(&dto()), 10);
    assert_eq!(EventHandler::Like(LikePostEvent::new()).calculate_exp(&dto()), 10);
}

#[test]
fn a_repost_is_worth_ten() {
    assert_eq!(RepostEvent::new().calculate_exp(&dto()), 10);
    assert_eq!(EventHandler::Repost(RepostEvent::new()).calculate_exp(&dto()), 10);
}

#[test]
fn each_kind_of_record_gets_its_handler() {
    assert!(matches!(select_event_handler(Record::Like), Some(EventHandler::Like(_))));
    assert!(matches!(select_event_handler(Record::Repost), Some(EventHandler::Repost(_))));
    assert!(select_event_handler(Record::Other).is_none());
    let handler = select_event_handler(Record::Post {
        text: "a".repeat(42),
        images: Some(vec![image("a cat")]),
    });
    match handler {
        Some(EventHandler::Post(post)) => {
            assert_eq!(post.length, 42);
            assert!(post.has_image);
            assert!(post.image_has_alt_text);
        }
        _ => panic!("a post gets the handler of posts"),
    }
}

#[test]
fn the_experience_of_a_handler_fits_up_to_the_longest_post() {
    let mut post = CreatePostEvent::new();
    post.length = 2_147_483_497;
    post.has_image = true;
    post.image_has_alt_text = true;
    let handler = EventHandler::Post(post);
    assert!(handler.check_fits());
    assert_eq!(handler.calculate_exp(&dto()), i32::MAX);
    let mut post = CreatePostEvent::new();
    post.length = 2_147_483_498;
    assert!(!EventHandler::Post(post).check_fits());
    assert!(EventHandler::Like(LikePostEvent::new()).check_fits());
}
