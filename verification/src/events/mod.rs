//! What happens when an actor creates or deletes content: the records that
//! arrive from the stream and where each of them is routed.

pub mod create;
pub mod delete;
pub mod dto;
pub mod guarantees;

use vstd::prelude::*;

verus! {

/// How many events are handled at the same time at most.
pub const MAX_IN_FLIGHT_EVENTS: usize = 100;

/// Whether two texts hold the same characters.
pub fn same_text(left: &str, right: &str) -> (same: bool)
    ensures
        same == (left@ == right@),
{
    left.to_owned() == right.to_owned()
}

/// The three collections of records that award experience.
#[derive(Clone, Copy, Debug, PartialEq, Eq, Structural)]
pub enum AppBskyEventRecord {
    Post,
    Like,
    Repost,
}

impl AppBskyEventRecord {
    /// The name of the collection.
    pub open spec fn collection(self) -> Seq<char> {
        match self {
            AppBskyEventRecord::Post => "app.bsky.feed.post"@,
            AppBskyEventRecord::Like => "app.bsky.feed.like"@,
            AppBskyEventRecord::Repost => "app.bsky.feed.repost"@,
        }
    }

    /// The collection that a name stands for; a name that is none of the
    /// three stands for no collection.
    pub open spec fn spec_from_string(record: Seq<char>) -> Option<AppBskyEventRecord> {
        if record == AppBskyEventRecord::Post.collection() {
            Some(AppBskyEventRecord::Post)
        } else if record == AppBskyEventRecord::Like.collection() {
            Some(AppBskyEventRecord::Like)
        } else if record == AppBskyEventRecord::Repost.collection() {
            Some(AppBskyEventRecord::Repost)
        } else {
            None
        }
    }

    /// Reads a collection from its name; a name that is none of the three
    /// gives nothing, and what it names is dropped.
    pub fn from_string(record: &str) -> (kind: Option<AppBskyEventRecord>)
        ensures
            kind == AppBskyEventRecord::spec_from_string(record@),
    {
        if same_text(record, "app.bsky.feed.post") {
            Some(AppBskyEventRecord::Post)
        } else if same_text(record, "app.bsky.feed.like") {
            Some(AppBskyEventRecord::Like)
        } else if same_text(record, "app.bsky.feed.repost") {
            Some(AppBskyEventRecord::Repost)
        } else {
            None
        }
    }

    /// Returns the name of the collection.
    pub fn to_string(self) -> (name: String)
        ensures
            name@ == self.collection(),
    {
        match self {
            AppBskyEventRecord::Post => "app.bsky.feed.post".to_owned(),
            AppBskyEventRecord::Like => "app.bsky.feed.like".to_owned(),
            AppBskyEventRecord::Repost => "app.bsky.feed.repost".to_owned(),
        }
    }

    /// Reading the name of a collection gives the collection back.
    pub proof fn lemma_name_round_trip(self)
        ensures
            AppBskyEventRecord::spec_from_string(self.collection()) == Some(self),
    {
        reveal_strlit("app.bsky.feed.post");
        reveal_strlit("app.bsky.feed.like");
        reveal_strlit("app.bsky.feed.repost");
        let post = AppBskyEventRecord::Post.collection();
        let like = AppBskyEventRecord::Like.collection();
        let repost = AppBskyEventRecord::Repost.collection();
        assert(post[14] != like[14]);
        assert(post.len() != repost.len());
        assert(like.len() != repost.len());
    }
}

/// One image attached to a post.
pub struct Image {
    /// The text that describes the image; empty where there is none.
    pub alt: String,
}

/// The payload of a commit, as far as progression reads it.
pub enum Record {
    /// A post with its text and, where images are attached, the images.
    Post { text: String, images: Option<Vec<Image>> },
    Like,
    Repost,
    /// A record of any other kind.
    Other,
}

/// Who committed, and when.
pub struct EventInfo {
    /// The identity of the actor.
    pub did: String,
    /// The time of the commit in microseconds.
    pub time_us: u64,
}

/// Which record a commit touches.
pub struct CommitInfo {
    /// The key of the record within its collection.
    pub rkey: String,
    /// The name of the collection.
    pub collection: String,
}

/// A commit that carries a record.
pub struct CommitData {
    pub info: CommitInfo,
    pub record: Record,
}

/// One event of the stream.
#[allow(inconsistent_fields)]
pub enum CommitEvent {
    Create { info: EventInfo, commit: CommitData },
    Update { info: EventInfo, commit: CommitData },
    Delete { info: EventInfo, commit: CommitInfo },
}

/// A created record with its author.
pub struct CreateEventPayload {
    pub event_info: EventInfo,
    pub commit_data: CommitData,
}

impl CreateEventPayload {
    pub fn new(event_info: EventInfo, commit_data: CommitData) -> (payload: CreateEventPayload)
        ensures
            payload.event_info == event_info,
            payload.commit_data == commit_data,
    {
        CreateEventPayload { event_info, commit_data }
    }
}

/// Where an event of the stream goes.
pub enum Routed {
    /// To the handler of created content.
    Created(CreateEventPayload),
    /// To the handler of deleted content.
    Deleted { info: EventInfo, commit: CommitInfo },
    /// Nowhere: updates are not handled.
    Ignored,
}

/// Where `commit` goes: a creation to the handler of created content, a
/// deletion to the handler of deleted content, an update nowhere.
pub open spec fn spec_route(commit: CommitEvent) -> Routed {
    match commit {
        CommitEvent::Create { info, commit } => Routed::Created(
            CreateEventPayload { event_info: info, commit_data: commit },
        ),
        CommitEvent::Delete { info, commit } => Routed::Deleted { info, commit },
        CommitEvent::Update { .. } => Routed::Ignored,
    }
}

/// Routes one event of the stream.
pub fn events_handler(commit: CommitEvent) -> (routed: Routed)
    ensures
        routed == spec_route(commit),
{
    match commit {
        CommitEvent::Create { info: user_info, commit } => {
            let payload = CreateEventPayload::new(user_info, commit);
            Routed::Created(payload)
        },
        CommitEvent::Delete { info, commit } => Routed::Deleted { info, commit },
        CommitEvent::Update { .. } => Routed::Ignored,
    }
}

} // verus!
