//! Timezone lookup for a chat bot: suggestions while the user types, resolution of
//! the confirmed text against the timezone database, sealed per-user records, and
//! the rules of the event loop that drives it all.

pub mod catalog;
pub mod commands;
pub mod dispatch;
pub mod interaction;
pub mod search;
pub mod store;
