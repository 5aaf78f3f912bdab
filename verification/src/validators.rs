//! The rules that submitted spell fields must meet before anything is
//! stored.

pub mod spells;
