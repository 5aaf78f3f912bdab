//! The rows of the two tables, and what is handed to the store to make or
//! change one.

pub mod spells;
pub mod users;
