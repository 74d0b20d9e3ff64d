//! Data types that flow over the compute backend IPC wire.
//!
//! The neuromodulator snapshot is generic in the type of its four scores; the
//! wire format carries them as little-endian `f32`, and that instantiation,
//! with serde's derives, stands in the application layer.

use std::collections::HashMap;
use vstd::prelude::*;

verus! {

/// Four-score snapshot decoded from the remote compute's 88-byte generic packet.
///
/// Wire format (bytes 72..88 of the generic packet), one score each:
/// ```text
/// [72..76]  dopamine       reward / learning-rate gate
/// [76..80]  cortisol       stress / inhibition
/// [80..84]  acetylcholine  focus / signal-to-noise
/// [84..88]  tempo          clock-driven timing scale
/// ```
#[derive(Debug, Clone)]
pub struct NeuromodulatorSnapshot<S> {
    /// Tick counter from the remote compute (monotonically increasing).
    pub tick: i64,
    /// Dopamine level (reward / STDP learning-rate gate). Range [0, 1].
    pub dopamine: S,
    /// Cortisol level (thermal/power stress inhibition). Range [0, 1].
    pub cortisol: S,
    /// Acetylcholine level (focus / signal-to-noise ratio). Range [0, 1].
    pub acetylcholine: S,
    /// Tempo scale (clock-driven timing; nominal is one). Range [0.5, 2.0].
    pub tempo: S,
}

impl<S: Copy> NeuromodulatorSnapshot<S> {
    /// Parse from the 4 generic scores in bytes `[72..88]` of a generic packet:
    /// the scores in packet order are dopamine, cortisol, acetylcholine, tempo.
    pub fn from_scores(tick: i64, scores: &[S; 4]) -> (r: Self)
        ensures
            r.tick == tick,
            r.dopamine == scores[0],
            r.cortisol == scores[1],
            r.acetylcholine == scores[2],
            r.tempo == scores[3],
    {
        NeuromodulatorSnapshot {
            tick,
            dopamine: scores[0],
            cortisol: scores[1],
            acetylcholine: scores[2],
            tempo: scores[3],
        }
    }
}

/// Optional batch metadata for debugging and monitoring.
#[derive(Debug, Clone, PartialEq)]
pub struct BatchMetadata {
    /// Processing latency in nanoseconds.
    pub processing_latency_ns: Option<u64>,
    /// Source identifier (for example, "encoder", "compute_layer_2").
    pub source: Option<String>,
    /// Additional metadata fields.
    pub custom: HashMap<String, String>,
}

impl Default for BatchMetadata {
    /// Empty metadata: no latency, no source and no custom fields.
    fn default() -> (r: Self)
        ensures
            r.processing_latency_ns is None,
            r.source is None,
            r.custom@ == Map::<String, String>::empty(),
    {
        BatchMetadata { processing_latency_ns: None, source: None, custom: HashMap::new() }
    }
}

} // verus!
