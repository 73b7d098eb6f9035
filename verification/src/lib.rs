//! Core rules of a chat-moderation bot: channel permission overwrites,
//! message purging, confirmation of destructive actions.

pub mod batch;
pub mod colour;
pub mod commands;
pub mod confirm;
pub mod duration;
pub mod error;
pub mod filter;
pub mod overwrite;
pub mod permissions;
pub mod roster;
pub mod text;
