use wayland_core::byte_order::ByteOrder;
use wayland_core::error::ConnectionError;
use wayland_core::protocol::{
    done_event, global_event, Global, Interface, CALLBACK_DATA, DISPLAY_ID, WL_CALLBACK_DONE,
    WL_DISPLAY_GET_REGISTRY, WL_DISPLAY_SYNC, WL_REGISTRY_BIND, WL_REGISTRY_GLOBAL,
};

#[test]
fn ids_and_opcodes() {
    assert_eq!(DISPLAY_ID, 1);
    assert_eq!(WL_DISPLAY_SYNC, 0);
    assert_eq!(WL_DISPLAY_GET_REGISTRY, 1);
    assert_eq!(WL_REGISTRY_BIND, 0);
    assert_eq!(WL_REGISTRY_GLOBAL, 0);
    assert_eq!(WL_CALLBACK_DONE, 0);
    assert_eq!(CALLBACK_DATA, 0);
}

#[test]
fn interface_names() {
    assert_eq!(Interface::Display.name(), "wl_display");
    assert_eq!(Interface::Registry.name(), "wl_registry");
    assert_eq!(Interface::Callback.name(), "wl_callback");
}

#[test]
fn globals_in_their_order() {
    assert_eq!(Global::all(), [Global::Compositor, Global::WmBase, Global::Shm]);
}

#[test]
fn globals_have_fixed_triples() {
    let triples: Vec<(u32, &str, u32)> =
        Global::all().iter().map(|g| (g.name(), g.interface(), g.version())).collect();
    assert_eq!(triples, vec![(1, "wl_compositor", 4), (2, "xdg_wm_base", 3), (3, "wl_shm", 1)]);
}

#[test]
fn global_event_for_wl_shm_little_endian() {
    let msg = global_event(ByteOrder::LittleEndian, 2, 3, "wl_shm", 1);
    let expected: Vec<u8> = vec![
        2, 0, 0, 0, 0, 0, 24, 0, 3, 0, 0, 0, b'w', b'l', b'_', b's', b'h', b'm', 0, 0, 1, 0, 0, 0,
    ];
    assert_eq!(msg, expected);
}

#[test]
fn global_event_for_wl_shm_big_endian() {
    let msg = global_event(ByteOrder::BigEndian, 2, 3, "wl_shm", 1);
    let expected: Vec<u8> = vec![
        0, 0, 0, 2, 0, 24, 0, 0, 0, 0, 0, 3, b'w', b'l', b'_', b's', b'h', b'm', 0, 0, 0, 0, 0, 1,
    ];
    assert_eq!(msg, expected);
}

#[test]
fn global_event_for_wl_compositor_in_native_order() {
    let msg = global_event(ByteOrder::native(), 5, 1, "wl_compositor", 4);
    let mut expected = Vec::new();
    expected.extend_from_slice(&5u32.to_ne_bytes());
    expected.extend_from_slice(&(32u32 << 16).to_ne_bytes());
    expected.extend_from_slice(&1u32.to_ne_bytes());
    expected.extend_from_slice(b"wl_compositor\0\0\0");
    expected.extend_from_slice(&4u32.to_ne_bytes());
    assert_eq!(msg.len(), 32);
    assert_eq!(msg, expected);
}

#[test]
fn global_event_with_the_longest_interface() {
    let interface = "i".repeat(65515);
    let msg = global_event(ByteOrder::BigEndian, 1, 2, &interface, 3);
    assert_eq!(msg.len(), 65532);
    assert_eq!(&msg[..12], &[0, 0, 0, 1, 0xFF, 0xFC, 0, 0, 0, 0, 0, 2]);
    assert_eq!(&msg[12..12 + 65515], interface.as_bytes());
    assert_eq!(&msg[12 + 65515..], &[0, 0, 0, 0, 3]);
}

#[test]
fn done_event_is_twelve_bytes() {
    assert_eq!(done_event(ByteOrder::LittleEndian, 42), vec![42, 0, 0, 0, 0, 0, 12, 0, 0, 0, 0, 0]);
    assert_eq!(done_event(ByteOrder::BigEndian, 42), vec![0, 0, 0, 42, 0, 12, 0, 0, 0, 0, 0, 0]);
}

#[test]
fn every_error_has_its_message() {
    assert_eq!(ConnectionError::SizeBelowHeader.message(), "message size is smaller than the header");
    assert_eq!(ConnectionError::TruncatedHeader.message(), "stream ended inside a message header");
    assert_eq!(ConnectionError::TruncatedBody.message(), "stream ended inside a message body");
    assert_eq!(ConnectionError::MissingNewId.message(), "request carries no new id");
    assert_eq!(ConnectionError::Io.message(), "stream failure");
    assert_eq!(ConnectionError::Closed.message(), "connection is closed");
}
