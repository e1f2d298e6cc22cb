//! The handler of reposts.

use crate::events::dto::NewEventDTO;
use vstd::prelude::*;

verus! {

/// The experience that a repost earns.
pub const REPOST_EXPERIENCE: i32 = 10;

/// What a repost is worth.
pub struct RepostEvent {}

impl RepostEvent {
    pub fn new() -> (event: RepostEvent)
        ensures
            event == (RepostEvent {  }),
    {
        RepostEvent {  }
    }

    /// Returns the experience that a repost earns, whatever is reposted.
    pub fn calculate_exp(&self, _payload: &NewEventDTO) -> (exp: i32)
        ensures
            exp == REPOST_EXPERIENCE,
    {
        REPOST_EXPERIENCE
    }
}

} // verus!
