//! Core of a storage-backed proof-of-replication scheme: layered replication
//! that turns raw sector data into a provable replica with public
//! commitments, the inverse extraction path, and a content-addressed cache
//! for circuit parameter sets with a derived identifier, deterministic
//! layout, and at-most-once generation under concurrency.

pub mod error;
pub mod mix;
pub mod graph;
pub mod bytes;
pub mod merkle;
pub mod params;
pub mod layers;
pub mod replicate;
pub mod ident;
pub mod types;
pub mod rng;
pub mod store;
pub mod warmer;
