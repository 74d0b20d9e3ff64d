//! Backend selection.
//!
//! [`BackendType`] chooses the concrete backend implementation at runtime.
//! [`BackendFactory`] is an empty namespace kept for API compatibility: the
//! backend implementations that its constructor builds are not part of this
//! crate, so that constructor stands outside the library.

use vstd::prelude::*;

verus! {

/// Backend implementation selector.
///
/// `Rust` is the pure-Rust native backend; it is always available and is the
/// selector's default.
#[derive(Debug, Clone, Copy)]
pub enum BackendType {
    /// Pure-Rust native backend (always available, no external deps).
    Rust,
}

impl Default for BackendType {
    /// The default selector is the native `Rust` backend.
    fn default() -> (r: Self)
        ensures
            r == BackendType::Rust,
    {
        BackendType::Rust
    }
}

/// Empty namespace kept for API compatibility; it holds no constructor here,
/// since the backend implementations it would build are not part of this crate.
pub struct BackendFactory;

} // verus!
