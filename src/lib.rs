//! A single-shot byte-processing engine: an ordered chain of byte
//! transformations (identity, cyclic XOR, Base64) assembled from a resolved
//! configuration, with a size bound checked around the chain.

pub mod codec;
pub mod config;
pub mod error;
pub mod modules;
pub mod pipeline;
pub mod processor;
pub mod registry;
