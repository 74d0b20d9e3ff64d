use corpus_ipc::trait_def::BackendFactory;
use corpus_ipc::{BackendType, BatchMetadata, NeuromodulatorSnapshot};
use std::collections::HashMap;

#[test]
fn backend_type_default_is_rust() {
    assert!(matches!(BackendType::default(), BackendType::Rust));
}

#[test]
fn backend_type_is_copy() {
    let a = BackendType::Rust;
    let b = a;
    assert!(matches!(a, BackendType::Rust));
    assert!(matches!(b, BackendType::Rust));
    assert_eq!(format!("{:?}", b), "Rust");
}

#[test]
fn backend_factory_is_a_unit_namespace() {
    let factory = BackendFactory;
    assert_eq!(std::mem::size_of_val(&factory), 0);
}

#[test]
fn from_scores_places_scores_in_packet_order() {
    let s = NeuromodulatorSnapshot::from_scores(42, &[0.25f32, 0.5, 0.75, 1.5]);
    assert_eq!(s.tick, 42);
    assert_eq!(s.dopamine, 0.25f32);
    assert_eq!(s.cortisol, 0.5f32);
    assert_eq!(s.acetylcholine, 0.75f32);
    assert_eq!(s.tempo, 1.5f32);
}

#[test]
fn from_scores_keeps_negative_tick_and_order() {
    let s = NeuromodulatorSnapshot::from_scores(-7, &[4u32, 3, 2, 1]);
    assert_eq!(s.tick, -7);
    assert_eq!((s.dopamine, s.cortisol, s.acetylcholine, s.tempo), (4, 3, 2, 1));
    let c = s.clone();
    assert_eq!(c.tempo, 1);
}

#[test]
fn batch_metadata_default_is_empty() {
    let m = BatchMetadata::default();
    assert_eq!(m.processing_latency_ns, None);
    assert_eq!(m.source, None);
    assert!(m.custom.is_empty());
}

#[test]
fn batch_metadata_clone_and_eq() {
    let mut custom = HashMap::new();
    custom.insert("layer".to_string(), "compute_layer_2".to_string());
    let m = BatchMetadata {
        processing_latency_ns: Some(1_500),
        source: Some("encoder".to_string()),
        custom,
    };
    let c = m.clone();
    assert_eq!(c, m);
    assert_eq!(c.processing_latency_ns, Some(1_500));
    assert_eq!(c.source.as_deref(), Some("encoder"));
    assert_eq!(c.custom.get("layer").map(|s| s.as_str()), Some("compute_layer_2"));
    assert_ne!(c, BatchMetadata::default());
}
