//! The facts of a created record that its handler and the ledger need.

use crate::events::{AppBskyEventRecord, CreateEventPayload};
use vstd::prelude::*;

verus! {

/// A created record, reduced to what is kept of it.
pub struct NewEventDTO {
    /// The identity of the actor.
    pub user_did: String,
    /// The collection of the record.
    pub event_type: AppBskyEventRecord,
    /// The key of the record, by which the ledger knows the event.
    pub event_id: String,
    /// Free pairs of a name and a value that are stored with the event.
    pub context: Vec<(String, String)>,
    /// The time of the commit in microseconds.
    pub posted_at: u64,
}

impl NewEventDTO {
    /// Whether these are the facts that are kept of `payload`: who
    /// committed, to which collection, under which key and when, with an
    /// empty context.
    pub open spec fn describes(&self, payload: CreateEventPayload) -> bool {
        &&& self.user_did == payload.event_info.did
        &&& Some(self.event_type) == AppBskyEventRecord::spec_from_string(
            payload.commit_data.info.collection@,
        )
        &&& self.event_id == payload.commit_data.info.rkey
        &&& self.context@.len() == 0
        &&& self.posted_at == payload.event_info.time_us
    }

    /// Reduces a payload to the facts that are kept of it; a payload whose
    /// collection is none of the three that award experience gives nothing.
    pub fn from_payload(payload: &CreateEventPayload) -> (event: Option<NewEventDTO>)
        ensures
            match event {
                Some(event) => event.describes(*payload),
                None => AppBskyEventRecord::spec_from_string(payload.commit_data.info.collection@)
                    is None,
            },
    {
        match AppBskyEventRecord::from_string(payload.commit_data.info.collection.as_str()) {
            Some(event_type) => Some(
                NewEventDTO {
                    user_did: payload.event_info.did.clone(),
                    event_type,
                    event_id: payload.commit_data.info.rkey.clone(),
                    context: Vec::new(),
                    posted_at: payload.event_info.time_us,
                },
            ),
            None => None,
        }
    }
}

} // verus!
