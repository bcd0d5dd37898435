//! Decoding of Thunderbolt/USB4 router adapter link states from register snapshots.

pub mod field;
pub mod register;
pub mod adapter;
pub mod resolve;
