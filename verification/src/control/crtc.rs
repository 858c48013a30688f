//! The CRTC: the display controller that scans framebuffer pixel data out to
//! a connector.
//!
//! A CRTC can only drive connectors whose encoder chain it supports — a
//! hardware limit the device enforces, not this crate.  Each CRTC also owns a
//! built-in hardware cursor plane, driven by the cursor operations below.
//!
//! Every operation here is one synchronous exchange: a request record is
//! built field by field (the builders below carry exact contracts for each
//! field), handed to the [`Device`] channel beside any borrowed data, and the
//! device's verdict is returned unchanged.  The device applies a commit
//! atomically or rejects it; no partial state is ever surfaced here.

use vstd::prelude::*;

verus! {

use crate::buffer;
use crate::control::records::{
    CrtcRecord, Cursor2Record, CursorRecord, zero_mode_record, CURSOR_FLAG_IMAGE,
    CURSOR_FLAG_MOVE,
};
use crate::control::{
    connector, framebuffer, Device, LoadProperties, Mode, RawHandle, ResourceHandle,
    OBJECT_TYPE_CRTC,
};
use crate::Error;
use vstd::string::StringExecFns;

/// A typed handle to one CRTC.
///
/// Every CRTC the device exposes has a unique handle, obtained from resource
/// enumeration.  The handle is a value: copying it copies nothing kernel-side,
/// and it stays meaningful only as long as the device keeps the resource.
#[derive(Clone, Copy, Debug, PartialEq, Eq)]
pub struct Handle(RawHandle);

/// The handle that stands for the given raw identifier.
pub closed spec fn handle_of_raw(raw: RawHandle) -> Handle {
    Handle(raw)
}

impl ResourceHandle for Handle {
    closed spec fn raw_view(&self) -> RawHandle {
        self.0
    }

    fn from_raw(raw: RawHandle) -> (handle: Self) {
        Handle(raw)
    }

    fn as_raw(&self) -> (raw: RawHandle) {
        self.0
    }
}

impl LoadProperties for Handle {
    open spec fn object_type_view() -> u32 {
        OBJECT_TYPE_CRTC
    }

    fn object_type() -> (tag: u32) {
        OBJECT_TYPE_CRTC
    }
}

/// Wrapping a raw identifier and reading it back returns the identifier
/// unchanged, for every identifier.
pub proof fn lemma_raw_round_trip(raw: RawHandle)
    ensures
        handle_of_raw(raw).raw_view() == raw,
{
}

/// A CRTC handle is nothing but its identifier: equal identifiers give equal
/// handles.
pub proof fn lemma_handle_determined(handle: Handle)
    ensures
        handle_of_raw(handle.raw_view()) == handle,
{
}

/// The character for one decimal digit.
pub open spec fn digit_char(d: nat) -> char {
    if d == 0 {
        '0'
    } else if d == 1 {
        '1'
    } else if d == 2 {
        '2'
    } else if d == 3 {
        '3'
    } else if d == 4 {
        '4'
    } else if d == 5 {
        '5'
    } else if d == 6 {
        '6'
    } else if d == 7 {
        '7'
    } else if d == 8 {
        '8'
    } else {
        '9'
    }
}

/// The decimal rendering of `n`, most significant digit first, no leading
/// zeros (a lone `'0'` for zero).
pub open spec fn decimal_of(n: nat) -> Seq<char>
    decreases n,
{
    if n < 10 {
        seq![digit_char(n)]
    } else {
        decimal_of(n / 10).push(digit_char(n % 10))
    }
}

/// The one-character string for a decimal digit.
fn digit_str(d: u32) -> (s: &'static str)
    requires
        d < 10,
    ensures
        s@ == seq![digit_char(d as nat)],
{
    proof {
        reveal_strlit("0");
        reveal_strlit("1");
        reveal_strlit("2");
        reveal_strlit("3");
        reveal_strlit("4");
        reveal_strlit("5");
        reveal_strlit("6");
        reveal_strlit("7");
        reveal_strlit("8");
        reveal_strlit("9");
    }
    let s = match d {
        0 => "0",
        1 => "1",
        2 => "2",
        3 => "3",
        4 => "4",
        5 => "5",
        6 => "6",
        7 => "7",
        8 => "8",
        _ => "9",
    };
    proof {
        assert(s@ =~= seq![digit_char(d as nat)]);
    }
    s
}

/// Appends the decimal rendering of `n` to `out`.
fn push_decimal(n: u32, out: &mut String)
    ensures
        final(out)@ == old(out)@ + decimal_of(n as nat),
    decreases n,
{
    if n >= 10 {
        push_decimal(n / 10, out);
    }
    out.append(digit_str(n % 10));
    proof {
        if n < 10 {
            assert(out@ =~= old(out)@ + decimal_of(n as nat));
        } else {
            assert(decimal_of(n as nat) == decimal_of((n / 10) as nat).push(
                digit_char((n % 10) as nat),
            ));
            assert(out@ =~= old(out)@ + decimal_of(n as nat));
        }
    }
}

/// The tagged identifier string a CRTC handle renders as.
pub open spec fn description_of(handle: Handle) -> Seq<char> {
    "crtc::Handle("@ + decimal_of(handle.raw_view() as nat) + ")"@
}

impl Handle {
    /// Renders the handle as a tagged identifier string, such as
    /// `crtc::Handle(5)` for the handle with raw identifier 5.
    pub fn describe(&self) -> (rendered: String)
        ensures
            rendered@ == description_of(*self),
    {
        let mut rendered = String::new();
        rendered.append("crtc::Handle(");
        push_decimal(self.as_raw(), &mut rendered);
        rendered.append(")");
        proof {
            assert(rendered@ =~= description_of(*self));
        }
        rendered
    }
}

/// An immutable snapshot of one CRTC's state at the instant of a query.
///
/// A snapshot is never refreshed: staleness is the caller's concern.  The
/// attached framebuffer may be the identifier-0 sentinel when none is
/// attached.
#[derive(Clone, Copy, Debug, PartialEq, Eq)]
pub struct Info {
    /// The CRTC the snapshot describes.
    pub handle: Handle,
    /// The scanout offset into the framebuffer at query time.
    pub position: (u32, u32),
    /// The framebuffer attached at query time.
    pub fb: framebuffer::Handle,
    /// The length of the CRTC's gamma lookup table.
    pub gamma_length: u32,
}

/// The snapshot that a query reply determines: every field of an [`Info`] is
/// read off the handle that was queried and the record the device returned.
pub open spec fn info_of_record(handle: Handle, record: CrtcRecord) -> Info {
    Info {
        handle: handle,
        position: (record.x, record.y),
        fb: framebuffer::handle_of_raw(record.fb_id),
        gamma_length: record.gamma_size,
    }
}

/// Snapshot immutability: a snapshot is a pure function of the queried handle
/// and the device's reply, with no hidden state.  Two loads whose exchanges
/// are answered with the same record — in particular two loads in immediate
/// succession with nothing mutating the CRTC in between — yield snapshots
/// identical in every field.
pub proof fn lemma_snapshot_immutable(handle: Handle, first: CrtcRecord, second: CrtcRecord)
    requires
        first == second,
    ensures
        info_of_record(handle, first) == info_of_record(handle, second),
{
}

/// Builds the state-query request: zeroed but for the resource identifier,
/// which routes the query to the right CRTC.
pub fn get_request(handle: Handle) -> (record: CrtcRecord)
    ensures
        record.crtc_id == handle.raw_view(),
        record.fb_id == 0,
        record.x == 0,
        record.y == 0,
        record.gamma_size == 0,
        record.count_connectors == 0,
        record.mode_valid == 0,
        record.mode == zero_mode_record(),
{
    let mut record = CrtcRecord::zeroed();
    record.crtc_id = handle.as_raw();
    record
}

impl Info {
    /// Maps a query reply into a snapshot.  Total over replies: whatever
    /// record the device answered with, the snapshot copies its output
    /// fields — position from x/y, framebuffer from the returned identifier,
    /// gamma length from the returned table size — and nothing else.
    pub fn from_record(handle: Handle, record: &CrtcRecord) -> (info: Info)
        ensures
            info == info_of_record(handle, *record),
    {
        let fb = framebuffer::Handle::from_raw(record.fb_id);
        proof {
            framebuffer::lemma_handle_determined(fb);
        }
        Info {
            handle: handle,
            position: (record.x, record.y),
            fb: fb,
            gamma_length: record.gamma_size,
        }
    }

    /// Settles a query exchange: for every verdict the device can hand back,
    /// says exactly what the caller receives.  An accepted exchange yields
    /// the full snapshot the reply determines; a rejected one yields the
    /// device's error unchanged, and no partial snapshot exists.
    pub fn from_reply(handle: Handle, record: &CrtcRecord, verdict: Result<(), Error>) -> (loaded:
        Result<Info, Error>)
        ensures
            match verdict {
                Ok(()) => loaded == Ok::<Info, Error>(info_of_record(handle, *record)),
                Err(e) => loaded == Err::<Info, Error>(e),
            },
    {
        match verdict {
            Ok(()) => Ok(Info::from_record(handle, record)),
            Err(e) => Err(e),
        }
    }

    /// Queries the device for the CRTC's current state.
    ///
    /// One exchange: the emitted request is the one [`get_request`] states,
    /// and the verdict is settled as [`Info::from_reply`] states — the full
    /// reply mapped into a snapshot, or the device's error unchanged.
    /// Success is the device's decision alone: an unknown identifier, a
    /// permission check or an I/O failure all surface here as the channel's
    /// error.
    pub fn load_from_device<T: Device>(device: &T, handle: Handle) -> (loaded: Result<Info, Error>)
        ensures
            match loaded {
                Ok(info) => info.handle == handle,
                Err(_) => true,
            },
    {
        let mut record = get_request(handle);
        let verdict = device.get_crtc(&mut record);
        Info::from_reply(handle, &record, verdict)
    }

    /// The CRTC this snapshot describes.
    pub fn handle(&self) -> (handle: Handle)
        ensures
            handle == self.handle,
    {
        self.handle
    }
}

/// Builds the mode-set request record.
///
/// Every input field is pinned: the target CRTC, the framebuffer to scan out,
/// the scanout position, and the connector count.  An omitted mode is a
/// signal, not a default: the validity flag stays 0 and the timing block
/// stays all-zero, instructing the device to leave timing unset for this
/// call.  A supplied mode sets the flag to 1 and copies the timing block
/// verbatim.
pub fn set_request(
    handle: Handle,
    fb: framebuffer::Handle,
    connector_count: u32,
    position: (u32, u32),
    mode: Option<Mode>,
) -> (record: CrtcRecord)
    ensures
        record.crtc_id == handle.raw_view(),
        record.fb_id == fb.raw_view(),
        record.x == position.0,
        record.y == position.1,
        record.count_connectors == connector_count,
        record.gamma_size == 0,
        match mode {
            Some(m) => record.mode_valid == 1 && record.mode == m.record,
            None => record.mode_valid == 0 && record.mode == zero_mode_record(),
        },
{
    let mut record = CrtcRecord::zeroed();
    record.x = position.0;
    record.y = position.1;
    record.crtc_id = handle.as_raw();
    record.fb_id = fb.as_raw();
    record.count_connectors = connector_count;
    match mode {
        Some(m) => {
            record.mode = m.record;
            record.mode_valid = 1;
        },
        None => {},
    }
    record
}

/// Commits a full mode-set: attaches `fb` to the CRTC's built-in plane,
/// re-specifies the attached connector set as exactly `connectors` (order
/// kept, prior attachments replaced), sets the scanout `position`, and
/// applies `mode`'s timing when one is supplied.
///
/// The device applies all of it atomically or rejects all of it; the verdict
/// is returned unchanged.  The emitted record is the one
/// [`set_request`] states, with the connector count equal to the slice's
/// length, and the slice itself travels beside the record for exactly the
/// duration of the exchange.  An empty slice with no mode is the valid
/// "detach from all output" request.
pub fn set<T: Device>(
    device: &T,
    handle: Handle,
    fb: framebuffer::Handle,
    connectors: &[connector::Handle],
    position: (u32, u32),
    mode: Option<Mode>,
) -> Result<(), Error>
    requires
        connectors@.len() <= 0xffff_ffff,
{
    let count: u32 = connectors.len() as u32;
    let record = set_request(handle, fb, count, position, mode);
    device.set_crtc(&record, connectors)
}

/// The operation a cursor record is built for: the two record shapes differ
/// only in which fields the flag selects.
#[derive(Clone, Copy, Debug)]
pub enum CursorOp {
    /// Attach a buffer object as the cursor image, with its pixel dimensions.
    AttachImage { bo: buffer::Id, dimensions: (u32, u32) },
    /// Move the existing cursor image to a signed target position.
    MoveTo { to: (i32, i32) },
}

/// Builds the cursor request record for either operation.
///
/// An image attach carries the image-attach flag, the buffer object and its
/// dimensions, and no position; a move carries the move flag and the signed
/// target position, with the buffer-object and dimension fields left at
/// zero — a move never names an image.
pub fn cursor_request(handle: Handle, op: CursorOp) -> (record: CursorRecord)
    ensures
        record.crtc_id == handle.raw_view(),
        match op {
            CursorOp::AttachImage { bo, dimensions } => record.flags == CURSOR_FLAG_IMAGE
                && record.handle == bo.raw_view()
                && record.width == dimensions.0
                && record.height == dimensions.1
                && record.x == 0
                && record.y == 0,
            CursorOp::MoveTo { to } => record.flags == CURSOR_FLAG_MOVE
                && record.x == to.0
                && record.y == to.1
                && record.handle == 0
                && record.width == 0
                && record.height == 0,
        },
{
    let mut record = CursorRecord::zeroed();
    record.crtc_id = handle.as_raw();
    match op {
        CursorOp::AttachImage { bo, dimensions } => {
            record.flags = CURSOR_FLAG_IMAGE;
            record.width = dimensions.0;
            record.height = dimensions.1;
            record.handle = bo.as_raw();
        },
        CursorOp::MoveTo { to } => {
            record.flags = CURSOR_FLAG_MOVE;
            record.x = to.0;
            record.y = to.1;
        },
    }
    record
}

/// Builds the extended cursor request: the image attach of
/// [`cursor_request`], plus the signed hotspot that names the image's visual
/// anchor pixel.  Only this record shape has hotspot fields at all.
pub fn cursor2_request(
    handle: Handle,
    bo: buffer::Id,
    dimensions: (u32, u32),
    hotspot: (i32, i32),
) -> (record: Cursor2Record)
    ensures
        record.flags == CURSOR_FLAG_IMAGE,
        record.crtc_id == handle.raw_view(),
        record.width == dimensions.0,
        record.height == dimensions.1,
        record.handle == bo.raw_view(),
        record.hot_x == hotspot.0,
        record.hot_y == hotspot.1,
        record.x == 0,
        record.y == 0,
{
    let base = cursor_request(handle, CursorOp::AttachImage { bo, dimensions });
    Cursor2Record {
        flags: base.flags,
        crtc_id: base.crtc_id,
        x: base.x,
        y: base.y,
        width: base.width,
        height: base.height,
        handle: base.handle,
        hot_x: hotspot.0,
        hot_y: hotspot.1,
    }
}

/// Attaches `bo` as the CRTC's hardware cursor image at the cursor's current
/// position, anchored at the image's top-left pixel.  One exchange of the
/// record [`cursor_request`] states for an image attach; the device's verdict
/// is returned unchanged.
pub fn set_cursor<T: Device>(
    device: &T,
    handle: Handle,
    bo: buffer::Id,
    dimensions: (u32, u32),
) -> Result<(), Error> {
    let record = cursor_request(handle, CursorOp::AttachImage { bo, dimensions });
    device.cursor(&record)
}

/// Attaches `bo` as the CRTC's hardware cursor image with an explicit
/// hotspot, for images whose visual anchor is not their top-left pixel.  One
/// exchange of the record [`cursor2_request`] states; the device's verdict is
/// returned unchanged.
pub fn set_cursor2<T: Device>(
    device: &T,
    handle: Handle,
    bo: buffer::Id,
    dimensions: (u32, u32),
    hotspot: (i32, i32),
) -> Result<(), Error> {
    let record = cursor2_request(handle, bo, dimensions, hotspot);
    device.cursor2(&record)
}

/// Repositions the CRTC's existing cursor image without naming one: one
/// exchange of the record [`cursor_request`] states for a move, with the
/// device's verdict returned unchanged.  What a move means before any image
/// was ever attached is the device's decision, not this crate's.
pub fn move_cursor<T: Device>(device: &T, handle: Handle, to: (i32, i32)) -> Result<(), Error> {
    let record = cursor_request(handle, CursorOp::MoveTo { to });
    device.cursor(&record)
}

} // verus!
