//! Typed control-plane client for a display mode-setting device.
//!
//! A kernel-style display controller exposes its resources (CRTCs, connectors,
//! framebuffers) as raw unsigned identifiers and accepts fixed-layout request
//! records over an ioctl-like channel.  This crate wraps those identifiers in
//! typed handles, builds the request records for reading a CRTC's state and
//! for committing a new one (mode, framebuffer, connector set, hardware
//! cursor), and proves that every emitted record carries exactly the fields
//! the caller supplied.  The channel itself is abstracted as the
//! [`control::Device`] trait; implementations own the file descriptor and
//! perform the actual exchange.

use vstd::prelude::*;

pub mod buffer;
pub mod control;

verus! {

/// The one failure category of this crate: a device exchange was rejected.
///
/// The channel reports an errno-style code; it is carried through unchanged
/// and never interpreted or classified further.
#[derive(Clone, Copy, Debug, PartialEq, Eq)]
pub struct Error {
    /// The errno-style code the device channel reported.
    pub errno: i32,
}

} // verus!
