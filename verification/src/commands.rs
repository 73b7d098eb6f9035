//! What each command decides, given what the caller has fetched.

pub mod misc;
pub mod moderation;
