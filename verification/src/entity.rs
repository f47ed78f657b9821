//! The records that the catalog stores.

pub mod game;
