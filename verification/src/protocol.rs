//! The objects, requests and events of the start-up handshake.

use crate::byte_order::ByteOrder;
use crate::codec::{encode_event, event_bytes, pad_string, padded, padded_len, MAX_INTERFACE_LEN};
use vstd::prelude::*;
use vstd::string::StringSliceAdditionalSpecFns;

verus! {

/// Id of the display object, which every connection starts with.
pub const DISPLAY_ID: u32 = 1;

/// Opcode of the request `wl_display.sync`.
pub const WL_DISPLAY_SYNC: u16 = 0;

/// Opcode of the request `wl_display.get_registry`.
pub const WL_DISPLAY_GET_REGISTRY: u16 = 1;

/// Opcode of the request `wl_registry.bind`.
pub const WL_REGISTRY_BIND: u16 = 0;

/// Opcode of the event `wl_registry.global`.
pub const WL_REGISTRY_GLOBAL: u16 = 0;

/// Opcode of the event `wl_callback.done`.
pub const WL_CALLBACK_DONE: u16 = 0;

/// The word that every `wl_callback.done` event carries.
pub const CALLBACK_DATA: u32 = 0;

/// The interfaces whose objects a connection can hold.
#[derive(Clone, Copy, Debug, PartialEq, Eq, Structural)]
pub enum Interface {
    /// `wl_display`
    Display,
    /// `wl_registry`
    Registry,
    /// `wl_callback`
    Callback,
}

impl Interface {
    /// The interface's name in the protocol.
    pub open spec fn spec_name(self) -> &'static str {
        match self {
            Interface::Display => "wl_display",
            Interface::Registry => "wl_registry",
            Interface::Callback => "wl_callback",
        }
    }

    /// The interface's name in the protocol.
    pub fn name(self) -> (text: &'static str)
        ensures
            text@ == self.spec_name()@,
    {
        match self {
            Interface::Display => "wl_display",
            Interface::Registry => "wl_registry",
            Interface::Callback => "wl_callback",
        }
    }
}

/// The globals that the registry advertises.
#[derive(Clone, Copy, Debug, PartialEq, Eq, Structural)]
pub enum Global {
    /// `wl_compositor`, version 4, under the name 1.
    Compositor,
    /// `xdg_wm_base`, version 3, under the name 2.
    WmBase,
    /// `wl_shm`, version 1, under the name 3.
    Shm,
}

impl Global {
    /// The globals in the order in which they are advertised.
    pub open spec fn advertised() -> Seq<Global> {
        seq![Global::Compositor, Global::WmBase, Global::Shm]
    }

    /// The number under which the registry lists the global.
    pub open spec fn spec_name(self) -> u32 {
        match self {
            Global::Compositor => 1,
            Global::WmBase => 2,
            Global::Shm => 3,
        }
    }

    /// The name of the global's interface.
    pub open spec fn spec_interface(self) -> &'static str {
        match self {
            Global::Compositor => "wl_compositor",
            Global::WmBase => "xdg_wm_base",
            Global::Shm => "wl_shm",
        }
    }

    /// The version of the interface that is offered.
    pub open spec fn spec_version(self) -> u32 {
        match self {
            Global::Compositor => 4,
            Global::WmBase => 3,
            Global::Shm => 1,
        }
    }

    /// The `wl_registry.global` event that advertises the global on the
    /// registry `registry_id`.
    pub open spec fn event(self, order: ByteOrder, registry_id: u32) -> Seq<u8> {
        global_event_bytes(
            order,
            registry_id,
            self.spec_name(),
            self.spec_interface().spec_bytes(),
            self.spec_version(),
        )
    }

    /// The globals in the order in which they are advertised.
    pub fn all() -> (globals: [Global; 3])
        ensures
            globals@ == Global::advertised(),
    {
        let globals: [Global; 3] = [Global::Compositor, Global::WmBase, Global::Shm];
        assert(globals@ =~= Global::advertised());
        globals
    }

    /// The number under which the registry lists the global.
    pub fn name(self) -> (name: u32)
        ensures
            name == self.spec_name(),
    {
        match self {
            Global::Compositor => 1,
            Global::WmBase => 2,
            Global::Shm => 3,
        }
    }

    /// The name of the global's interface.
    pub fn interface(self) -> (text: &'static str)
        ensures
            text@ == self.spec_interface()@,
    {
        match self {
            Global::Compositor => "wl_compositor",
            Global::WmBase => "xdg_wm_base",
            Global::Shm => "wl_shm",
        }
    }

    /// The version of the interface that is offered.
    pub fn version(self) -> (version: u32)
        ensures
            version == self.spec_version(),
    {
        match self {
            Global::Compositor => 4,
            Global::WmBase => 3,
            Global::Shm => 1,
        }
    }

    /// The interface names are plain ASCII of 13, 11 and 6 bytes.
    pub proof fn lemma_interface_len(self)
        ensures
            self.spec_interface().is_ascii(),
            self.spec_interface().spec_bytes().len() == match self {
                Global::Compositor => 13nat,
                Global::WmBase => 11nat,
                Global::Shm => 6nat,
            },
    {
        reveal_strlit("wl_compositor");
        reveal_strlit("xdg_wm_base");
        reveal_strlit("wl_shm");
        let text = self.spec_interface();
        assert(vstd::string::is_ascii(text));
        vstd::string::is_ascii_spec_bytes(text);
    }
}

/// The body of a `wl_registry.global` event: the global's number, its
/// interface as a padded string, and its version.
pub open spec fn global_payload(order: ByteOrder, name: u32, interface: Seq<u8>, version: u32) -> Seq<u8> {
    order.word_bytes(name) + padded(interface) + order.word_bytes(version)
}

/// The bytes of a `wl_registry.global` event sent on the registry `registry_id`.
pub open spec fn global_event_bytes(
    order: ByteOrder,
    registry_id: u32,
    name: u32,
    interface: Seq<u8>,
    version: u32,
) -> Seq<u8> {
    event_bytes(order, registry_id, WL_REGISTRY_GLOBAL, global_payload(order, name, interface, version))
}

/// The bytes of the `wl_callback.done` event for the callback `callback_id`.
pub open spec fn done_event_bytes(order: ByteOrder, callback_id: u32) -> Seq<u8> {
    event_bytes(order, callback_id, WL_CALLBACK_DONE, order.word_bytes(CALLBACK_DATA))
}

/// Encodes the `wl_registry.global` event that tells the client of one global.
pub fn global_event(order: ByteOrder, registry_id: u32, name: u32, interface: &str, version: u32) -> (msg:
    Vec<u8>)
    requires
        interface.spec_bytes().len() <= MAX_INTERFACE_LEN,
    ensures
        msg@ == global_event_bytes(order, registry_id, name, interface.spec_bytes(), version),
{
    let mut payload: Vec<u8> = Vec::new();
    order.write_word(name, &mut payload);
    let mut text: Vec<u8> = pad_string(interface);
    payload.append(&mut text);
    order.write_word(version, &mut payload);
    assert(payload@ =~= global_payload(order, name, interface.spec_bytes(), version));
    encode_event(order, registry_id, WL_REGISTRY_GLOBAL, payload.as_slice())
}

/// Encodes the `wl_callback.done` event that answers a `sync`.
pub fn done_event(order: ByteOrder, callback_id: u32) -> (msg: Vec<u8>)
    ensures
        msg@ == done_event_bytes(order, callback_id),
        msg@.len() == 12,
{
    let mut payload: Vec<u8> = Vec::new();
    order.write_word(CALLBACK_DATA, &mut payload);
    encode_event(order, callback_id, WL_CALLBACK_DONE, payload.as_slice())
}

} // verus!
