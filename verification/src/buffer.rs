//! Identifiers for device-managed pixel buffers.
//!
//! A buffer object is allocated and owned by the device; this crate only ever
//! names one, to attach it as a hardware cursor image.

use vstd::prelude::*;

verus! {

/// An opaque identifier for a device-managed buffer object.
///
/// The identifier is assigned by the device at allocation time; the client
/// only round-trips it.  Holding an `Id` confers no ownership of the buffer.
#[derive(Clone, Copy, Debug, PartialEq, Eq)]
pub struct Id(u32);

impl Id {
    /// The raw identifier this `Id` stands for.
    pub closed spec fn raw_view(&self) -> u32 {
        self.0
    }

    /// Wraps a raw buffer-object identifier, unchanged and unchecked.
    pub fn from_raw(raw: u32) -> (id: Id)
        ensures
            id.raw_view() == raw,
    {
        Id(raw)
    }

    /// Returns the raw identifier, unchanged.
    pub fn as_raw(&self) -> (raw: u32)
        ensures
            raw == self.raw_view(),
    {
        self.0
    }
}

} // verus!
