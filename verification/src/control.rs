//! The control plane: typed resource handles and the device channel.
//!
//! Every display resource lives kernel-side and is named by a raw unsigned
//! identifier.  [`ResourceHandle`] gives each resource category a typed,
//! copyable wrapper around that identifier, with lossless conversions in both
//! directions and no client-side validation — only the device can judge an
//! identifier.  [`Device`] abstracts the open control channel that the
//! fixed-layout request records are exchanged over.

use vstd::prelude::*;

pub mod connector;
pub mod crtc;
pub mod framebuffer;
pub mod records;

verus! {

use crate::control::records::{CrtcRecord, Cursor2Record, CursorRecord, ModeRecord};

/// The raw identifier the device assigns to each of its resources.
pub type RawHandle = u32;

/// Object-type tag under which the device files CRTC properties.
pub const OBJECT_TYPE_CRTC: u32 = 0xcccc_cccc;

/// Object-type tag under which the device files connector properties.
pub const OBJECT_TYPE_CONNECTOR: u32 = 0xc0c0_c0c0;

/// Object-type tag under which the device files framebuffer properties.
pub const OBJECT_TYPE_FRAMEBUFFER: u32 = 0xfbfb_fbfb;

/// A typed, copyable wrapper around a raw resource identifier.
///
/// Both conversions are total and lossless: no validation happens at
/// construction, because only the device can tell a live identifier from a
/// stale one, and 0 is the conventional "null/unset" value.  A handle carries
/// no state of its own and confers no ownership of the kernel-side resource.
pub trait ResourceHandle: Sized {
    /// The raw identifier this handle stands for.
    spec fn raw_view(&self) -> RawHandle;

    /// Wraps a raw identifier, unchanged and unchecked.
    fn from_raw(raw: RawHandle) -> (handle: Self)
        ensures
            handle.raw_view() == raw,
    ;

    /// Returns the raw identifier, unchanged.
    fn as_raw(&self) -> (raw: RawHandle)
        ensures
            raw == self.raw_view(),
    ;
}

/// The compile-time association between a handle type and the object-type
/// tag the device expects property queries for that resource category to be
/// filed under.
pub trait LoadProperties: ResourceHandle {
    /// The tag of this resource category.
    spec fn object_type_view() -> u32;

    /// Returns the tag of this resource category.
    fn object_type() -> (tag: u32)
        ensures
            tag == Self::object_type_view(),
    ;
}

/// A display-timing descriptor a caller asks a CRTC to drive.
///
/// It wraps the wire-form timing block unchanged; the mode-set call copies
/// the block into its request record verbatim.
#[derive(Clone, Copy, Debug, PartialEq, Eq)]
pub struct Mode {
    /// The wire-form timing block.
    pub record: ModeRecord,
}

/// An open control channel to a display device.
///
/// Implementations own the device file descriptor and perform one blocking
/// request/response exchange per call, returning the device's verdict
/// unchanged.  This crate never implements the trait itself: it builds the
/// records, hands them over, and passes the verdict through.  Nothing is
/// assumed about a verdict — the device alone decides, and two identical
/// exchanges may be answered differently.
pub trait Device {
    /// Exchanges a state query: the device fills the output fields of
    /// `record` (position, framebuffer, gamma-table length) on success.
    fn get_crtc(&self, record: &mut CrtcRecord) -> Result<(), crate::Error>;

    /// Exchanges a mode-set commit.  The connector list travels beside the
    /// record as a borrowed slice — the safe form of the kernel's
    /// address-and-count pair — and the record's count must match it, so the
    /// device never reads past the borrowed storage.
    fn set_crtc(&self, record: &CrtcRecord, connectors: &[connector::Handle]) -> Result<
        (),
        crate::Error,
    >
        requires
            record.count_connectors as nat == connectors@.len(),
    ;

    /// Exchanges a cursor request (image attach or move).
    fn cursor(&self, record: &CursorRecord) -> Result<(), crate::Error>;

    /// Exchanges an extended cursor request (image attach with hotspot).
    fn cursor2(&self, record: &Cursor2Record) -> Result<(), crate::Error>;
}

} // verus!
