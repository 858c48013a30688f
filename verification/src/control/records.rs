//! The fixed-layout request records exchanged with the device.
//!
//! Each control operation is one record handed to the channel.  The kernel
//! side defines the layout; here every field is a plain machine integer, so
//! a contract can pin each one exactly.  A record starts zeroed and only the
//! fields the operation needs are filled in — an omitted field is a signal
//! ("no timing change", "no image"), not garbage.

use vstd::prelude::*;

verus! {

/// Operation flag of a cursor record: attach the named buffer object as the
/// cursor image.
pub const CURSOR_FLAG_IMAGE: u32 = 0x01;

/// Operation flag of a cursor record: move the existing cursor image.
pub const CURSOR_FLAG_MOVE: u32 = 0x02;

/// A display-timing block: resolution and sync timings for one mode.
///
/// This is the wire form of a mode; the state-query and mode-set records
/// embed one.  A zeroed block together with a cleared `mode_valid` flag means
/// "leave timing unset for this call".
#[derive(Clone, Copy, Debug, PartialEq, Eq)]
pub struct ModeRecord {
    /// Pixel clock in kHz.
    pub clock: u32,
    /// Visible horizontal resolution.
    pub hdisplay: u16,
    /// Horizontal sync start.
    pub hsync_start: u16,
    /// Horizontal sync end.
    pub hsync_end: u16,
    /// Total horizontal line length.
    pub htotal: u16,
    /// Horizontal skew.
    pub hskew: u16,
    /// Visible vertical resolution.
    pub vdisplay: u16,
    /// Vertical sync start.
    pub vsync_start: u16,
    /// Vertical sync end.
    pub vsync_end: u16,
    /// Total vertical frame length.
    pub vtotal: u16,
    /// Vertical scan repetition.
    pub vscan: u16,
    /// Nominal refresh rate in Hz.
    pub vrefresh: u32,
    /// Timing flags (sync polarity, interlace, and the like).
    pub flags: u32,
    /// Mode-type flags (preferred, driver-generated, and the like).
    pub type_flags: u32,
}

/// The all-zero timing block: what a record carries when no mode is supplied.
pub open spec fn zero_mode_record() -> ModeRecord {
    ModeRecord {
        clock: 0,
        hdisplay: 0,
        hsync_start: 0,
        hsync_end: 0,
        htotal: 0,
        hskew: 0,
        vdisplay: 0,
        vsync_start: 0,
        vsync_end: 0,
        vtotal: 0,
        vscan: 0,
        vrefresh: 0,
        flags: 0,
        type_flags: 0,
    }
}

impl ModeRecord {
    /// A timing block with every field zero.
    pub fn zeroed() -> (record: ModeRecord)
        ensures
            record == zero_mode_record(),
    {
        ModeRecord {
            clock: 0,
            hdisplay: 0,
            hsync_start: 0,
            hsync_end: 0,
            htotal: 0,
            hskew: 0,
            vdisplay: 0,
            vsync_start: 0,
            vsync_end: 0,
            vtotal: 0,
            vscan: 0,
            vrefresh: 0,
            flags: 0,
            type_flags: 0,
        }
    }
}

/// The CRTC state record, used both to query state and to commit a mode-set.
///
/// On a query the device fills `x`, `y`, `fb_id` and `gamma_size`; on a
/// mode-set the client fills every input field.  The kernel record also
/// carries the connector list as an address-and-count pair; in this safe
/// client the address is the borrowed slice handed to
/// [`Device::set_crtc`](super::Device::set_crtc) alongside the record, and
/// only the count is stored here.
#[derive(Clone, Copy, Debug, PartialEq, Eq)]
pub struct CrtcRecord {
    /// How many connector identifiers accompany the record.
    pub count_connectors: u32,
    /// The target CRTC's raw identifier.
    pub crtc_id: u32,
    /// Raw identifier of the framebuffer to scan out, or 0 for none.
    pub fb_id: u32,
    /// Horizontal offset into the framebuffer's pixel data.
    pub x: u32,
    /// Vertical offset into the framebuffer's pixel data.
    pub y: u32,
    /// Length of the CRTC's gamma lookup table (output of a query).
    pub gamma_size: u32,
    /// 1 when `mode` carries a timing block to apply, 0 when timing is to be
    /// left unset for this call.
    pub mode_valid: u32,
    /// The timing block; all zero whenever `mode_valid` is 0.
    pub mode: ModeRecord,
}

/// The all-zero CRTC record that every exchange starts from.
pub open spec fn zero_crtc_record() -> CrtcRecord {
    CrtcRecord {
        count_connectors: 0,
        crtc_id: 0,
        fb_id: 0,
        x: 0,
        y: 0,
        gamma_size: 0,
        mode_valid: 0,
        mode: zero_mode_record(),
    }
}

impl CrtcRecord {
    /// A CRTC record with every field zero.
    pub fn zeroed() -> (record: CrtcRecord)
        ensures
            record == zero_crtc_record(),
    {
        CrtcRecord {
            count_connectors: 0,
            crtc_id: 0,
            fb_id: 0,
            x: 0,
            y: 0,
            gamma_size: 0,
            mode_valid: 0,
            mode: ModeRecord::zeroed(),
        }
    }
}

/// The cursor record shared by the image-attach and move operations.
///
/// `flags` selects the operation: with [`CURSOR_FLAG_IMAGE`] the record
/// carries a buffer object and its dimensions, with [`CURSOR_FLAG_MOVE`] it
/// carries a target position.  There are no hotspot fields in this layout;
/// an image attached through it anchors at its top-left pixel.
#[derive(Clone, Copy, Debug, PartialEq, Eq)]
pub struct CursorRecord {
    /// The operation flag: [`CURSOR_FLAG_IMAGE`] or [`CURSOR_FLAG_MOVE`].
    pub flags: u32,
    /// The target CRTC's raw identifier.
    pub crtc_id: u32,
    /// Signed horizontal target position (move only).
    pub x: i32,
    /// Signed vertical target position (move only).
    pub y: i32,
    /// Cursor image width in pixels (image-attach only).
    pub width: u32,
    /// Cursor image height in pixels (image-attach only).
    pub height: u32,
    /// Raw buffer-object identifier of the image (image-attach only).
    pub handle: u32,
}

/// The all-zero cursor record that every cursor exchange starts from.
pub open spec fn zero_cursor_record() -> CursorRecord {
    CursorRecord { flags: 0, crtc_id: 0, x: 0, y: 0, width: 0, height: 0, handle: 0 }
}

impl CursorRecord {
    /// A cursor record with every field zero.
    pub fn zeroed() -> (record: CursorRecord)
        ensures
            record == zero_cursor_record(),
    {
        CursorRecord { flags: 0, crtc_id: 0, x: 0, y: 0, width: 0, height: 0, handle: 0 }
    }
}

/// The extended cursor record: an image attach that also names the hotspot,
/// the pixel within the image that sits on the reported cursor position.
#[derive(Clone, Copy, Debug, PartialEq, Eq)]
pub struct Cursor2Record {
    /// The operation flag; [`CURSOR_FLAG_IMAGE`] for this record.
    pub flags: u32,
    /// The target CRTC's raw identifier.
    pub crtc_id: u32,
    /// Signed horizontal target position (unused on an image attach).
    pub x: i32,
    /// Signed vertical target position (unused on an image attach).
    pub y: i32,
    /// Cursor image width in pixels.
    pub width: u32,
    /// Cursor image height in pixels.
    pub height: u32,
    /// Raw buffer-object identifier of the image.
    pub handle: u32,
    /// Signed horizontal hotspot offset within the image.
    pub hot_x: i32,
    /// Signed vertical hotspot offset within the image.
    pub hot_y: i32,
}

} // verus!
