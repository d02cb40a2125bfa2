//! The configuration snapshot and its shared, atomically swapped handle.

use vstd::prelude::*;

use crate::types::SocketAddress;

verus! {

/// An immutable bundle of the operational parameters: the upstream forwarder
/// addresses, in order, and whether filtering is enabled. A running daemon
/// replaces the whole snapshot on reconfiguration, never a single field.
#[derive(Clone, Debug)]
pub struct ConfigSnapshot {
    pub forwarders: Vec<SocketAddress>,
    pub is_filtering: bool,
}

/// A cheaply shareable handle to the current configuration snapshot.
///
/// Relies on `arc_swap::ArcSwap` (behind `std::sync::Arc` for sharing): the
/// handle holds an atomic pointer to an immutable snapshot. `load` reads the
/// pointer once and returns the whole snapshot it pointed at; `store` swaps
/// the pointer to a new whole snapshot. No operation mutates a snapshot in
/// place, so a reader never sees fields of two different snapshots mixed.
/// `ArcSwapAny`'s generic bounds are traits of `arc_swap`, which keeps the
/// type itself from being declared here; the handle therefore hides it in an
/// opaque struct.
#[verifier::external_body]
pub struct ConfigHandle {
    inner: std::sync::Arc<arc_swap::ArcSwap<ConfigSnapshot>>,
}

impl ConfigHandle {
    /// Creates a handle holding `initial` as the current snapshot.
    ///
    /// Relies on `arc_swap::ArcSwap::from_pointee`.
    #[verifier::external_body]
    pub fn new(initial: ConfigSnapshot) -> (r: ConfigHandle) {
        ConfigHandle { inner: std::sync::Arc::new(arc_swap::ArcSwap::from_pointee(initial)) }
    }

    /// Returns another handle to the same current snapshot, so that many
    /// concurrent requests can read it without contention.
    ///
    /// Relies on `std::sync::Arc::clone`.
    #[verifier::external_body]
    pub fn share(&self) -> (r: ConfigHandle) {
        ConfigHandle { inner: std::sync::Arc::clone(&self.inner) }
    }

    /// Returns the snapshot current at the instant of the call, as one whole
    /// value. A concurrent `store` does not affect the returned value.
    ///
    /// Relies on `arc_swap::ArcSwapAny::load_full`: a single atomic read of
    /// the snapshot pointer. Which snapshot is current depends on concurrent
    /// stores, so nothing more is promised of the value; every caller in the
    /// library handles any snapshot.
    #[verifier::external_body]
    pub fn load(&self) -> (r: ConfigSnapshot) {
        self.inner.load_full().as_ref().clone()
    }

    /// Replaces the current snapshot wholesale.
    ///
    /// Relies on `arc_swap::ArcSwapAny::store`: a single atomic swap of the
    /// snapshot pointer. Readers already holding a loaded snapshot keep it.
    #[verifier::external_body]
    pub fn store(&self, snapshot: ConfigSnapshot) {
        self.inner.store(std::sync::Arc::new(snapshot));
    }
}

} // verus!
