//! Wire models and backend selection for the compute-backend IPC layer.
//!
//! Verified here: the neuromodulator snapshot and its decoding from the four
//! packet scores, the batch metadata record, and the backend selector.

pub mod models;
pub mod trait_def;

pub use models::{BatchMetadata, NeuromodulatorSnapshot};
pub use trait_def::{BackendFactory, BackendType};
