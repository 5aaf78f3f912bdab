//! What callers send, after the transport has decoded it.

pub mod spells;
pub mod users;
