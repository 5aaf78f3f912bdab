//! The shapes in which spells leave the catalog. They hide the internal
//! ids and the owner.

pub mod spells;
