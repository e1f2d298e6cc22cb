//! The handler of likes.

use crate::events::dto::NewEventDTO;
use vstd::prelude::*;

verus! {

/// The experience that a like earns.
pub const LIKE_EXPERIENCE: i32 = 10;

/// What a like is worth.
pub struct LikePostEvent {}

impl LikePostEvent {
    pub fn new() -> (event: LikePostEvent)
        ensures
            event == (LikePostEvent {  }),
    {
        LikePostEvent {  }
    }

    /// Returns the experience that a like earns, whatever is liked.
    pub fn calculate_exp(&self, _payload: &NewEventDTO) -> (exp: i32)
        ensures
            exp == LIKE_EXPERIENCE,
    {
        LIKE_EXPERIENCE
    }
}

} // verus!
