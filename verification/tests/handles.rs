//! Handle round-trips, equality, and object-type tags.

use drm_control::buffer;
use drm_control::control::{connector, crtc, framebuffer};
use drm_control::control::{LoadProperties, ResourceHandle};
use drm_control::control::{OBJECT_TYPE_CONNECTOR, OBJECT_TYPE_CRTC, OBJECT_TYPE_FRAMEBUFFER};

#[test]
fn crtc_handle_raw_round_trip() {
    for raw in [0u32, 1, 5, 0xffff_ffff] {
        assert_eq!(crtc::Handle::from_raw(raw).as_raw(), raw);
    }
}

#[test]
fn connector_handle_raw_round_trip() {
    for raw in [0u32, 2, 3, 0xffff_ffff] {
        assert_eq!(connector::Handle::from_raw(raw).as_raw(), raw);
    }
}

#[test]
fn framebuffer_handle_raw_round_trip() {
    for raw in [0u32, 9, 0xffff_ffff] {
        assert_eq!(framebuffer::Handle::from_raw(raw).as_raw(), raw);
    }
}

#[test]
fn buffer_id_raw_round_trip() {
    for raw in [0u32, 11, 0xffff_ffff] {
        assert_eq!(buffer::Id::from_raw(raw).as_raw(), raw);
    }
}

#[test]
fn handle_equality_is_by_identifier() {
    assert_eq!(crtc::Handle::from_raw(5), crtc::Handle::from_raw(5));
    assert_ne!(crtc::Handle::from_raw(5), crtc::Handle::from_raw(6));
    assert_eq!(framebuffer::Handle::from_raw(0), framebuffer::Handle::from_raw(0));
}

#[test]
fn handles_are_copyable() {
    let a = crtc::Handle::from_raw(5);
    let b = a;
    assert_eq!(a.as_raw(), b.as_raw());
}

#[test]
fn describe_renders_tagged_identifier() {
    assert_eq!(crtc::Handle::from_raw(5).describe().as_str(), "crtc::Handle(5)");
    assert_eq!(crtc::Handle::from_raw(0).describe().as_str(), "crtc::Handle(0)");
    assert_eq!(crtc::Handle::from_raw(12345).describe().as_str(), "crtc::Handle(12345)");
    assert_eq!(
        crtc::Handle::from_raw(4_294_967_295).describe().as_str(),
        "crtc::Handle(4294967295)"
    );
}

#[test]
fn object_type_tags_are_distinct_per_category() {
    assert_eq!(crtc::Handle::object_type(), OBJECT_TYPE_CRTC);
    assert_eq!(connector::Handle::object_type(), OBJECT_TYPE_CONNECTOR);
    assert_eq!(framebuffer::Handle::object_type(), OBJECT_TYPE_FRAMEBUFFER);
    assert_ne!(OBJECT_TYPE_CRTC, OBJECT_TYPE_CONNECTOR);
    assert_ne!(OBJECT_TYPE_CRTC, OBJECT_TYPE_FRAMEBUFFER);
    assert_ne!(OBJECT_TYPE_CONNECTOR, OBJECT_TYPE_FRAMEBUFFER);
}
