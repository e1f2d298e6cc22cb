//! Progression engine for watched actors of a content network: experience
//! and levels, a two-axis alignment, and the decisions taken when content is
//! created or deleted.

pub mod events;
pub mod leveling;
pub mod models;
