//! Handles for connectors: the device's physical or logical output ports.
//!
//! A mode-set names the connectors a CRTC is to drive; this crate never
//! queries or mutates a connector itself.

use vstd::prelude::*;

verus! {

use crate::control::{LoadProperties, RawHandle, ResourceHandle, OBJECT_TYPE_CONNECTOR};

/// A typed handle to one connector.
#[derive(Clone, Copy, Debug, PartialEq, Eq)]
pub struct Handle(RawHandle);

/// The handle that stands for the given raw identifier.
pub closed spec fn handle_of_raw(raw: RawHandle) -> Handle {
    Handle(raw)
}

impl ResourceHandle for Handle {
    closed spec fn raw_view(&self) -> RawHandle {
        self.0
    }

    fn from_raw(raw: RawHandle) -> (handle: Self) {
        Handle(raw)
    }

    fn as_raw(&self) -> (raw: RawHandle) {
        self.0
    }
}

impl LoadProperties for Handle {
    open spec fn object_type_view() -> u32 {
        OBJECT_TYPE_CONNECTOR
    }

    fn object_type() -> (tag: u32) {
        OBJECT_TYPE_CONNECTOR
    }
}

/// Wrapping a raw identifier and reading it back returns the identifier
/// unchanged, for every identifier.
pub proof fn lemma_raw_round_trip(raw: RawHandle)
    ensures
        handle_of_raw(raw).raw_view() == raw,
{
}

/// A connector handle is nothing but its identifier: equal identifiers give
/// equal handles.
pub proof fn lemma_handle_determined(handle: Handle)
    ensures
        handle_of_raw(handle.raw_view()) == handle,
{
}

} // verus!
