//! The commands that take text exactly as the user sent it.

pub mod set_timezone;
