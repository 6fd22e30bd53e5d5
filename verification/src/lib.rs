//! The verified logic of a Hop node's binding surface.
pub mod base58;
pub mod bytes;
pub mod cabi;
pub mod digits;
pub mod error;
pub mod hps;
pub mod journeys;
pub mod laws;
pub mod mesh;
pub mod messages;
pub mod node;
pub mod reach;
pub mod records;
pub mod reply;
pub mod services;
pub mod step;
pub mod store_open;
pub mod text;
pub mod topics;
pub mod vecs;
