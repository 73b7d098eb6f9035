//! The moderation commands.

pub mod channel;
pub mod purge;
pub mod role;
pub mod user;

pub use self::channel::{lock, unlock, unviewlock, viewlock};
pub use self::role::role;
pub use self::user::{ban, kick, timeout, unban, untimeout};
