//! The cancel gesture: which key press asks for a shutdown, and which one
//! asks for the shutdown of every instance of the supervisor.

use vstd::prelude::*;
use crate::process::{killall_command, killall_words};

verus! {

/// The name under which instances of the supervisor run.
pub const SUPERVISOR_NAME: &'static str = "waystt-wrapper";

/// The signal, as the bulk-signal facility takes it, that asks the other
/// instances of the supervisor to shut down.
pub const PEER_SIGNAL: &'static str = "-USR1";

/// The modifier keys that were held while a key was pressed.
#[derive(Clone, Copy, Debug, PartialEq, Eq, Structural)]
pub struct Modifiers {
    /// The control key.
    pub control: bool,
    /// The alt key.
    pub alt: bool,
}

/// The key that was pressed, as far as the supervisor tells keys apart.
#[derive(Clone, Copy, Debug, PartialEq, Eq, Structural)]
pub enum Key {
    /// The escape key.
    Escape,
    /// Any other key.
    Other,
}

/// Whether the surface hands a key press on to other handlers.
#[derive(Clone, Copy, Debug, PartialEq, Eq, Structural)]
pub enum Propagation {
    /// The key press is not the supervisor's: others may handle it.
    Proceed,
    /// The key press was the cancel gesture: it goes no further.
    Stop,
}

/// What a key press asks of the supervisor.
#[derive(Clone, Copy, Debug, PartialEq, Eq, Structural)]
pub struct KeyResponse {
    /// Whether the key press is handed on.
    pub propagation: Propagation,
    /// Whether the other instances of the supervisor are to be signalled
    /// first.
    pub broadcast: bool,
    /// Whether the child is to be shut down.
    pub cancel: bool,
}

impl Modifiers {
    /// No modifier key held.
    pub fn empty() -> (m: Modifiers)
        ensures
            m == (Modifiers { control: false, alt: false }),
    {
        Modifiers { control: false, alt: false }
    }

    /// Whether the modifiers qualify the cancel gesture as the global one:
    /// control and alt are both held.
    pub open spec fn panic_combo(self) -> bool {
        self.control && self.alt
    }

    /// Whether the modifiers qualify the cancel gesture as the global one.
    pub fn is_panic_combo(self) -> (r: bool)
        ensures
            r == self.panic_combo(),
    {
        self.control && self.alt
    }
}

/// The command line that asks every instance of the supervisor to shut
/// down: the bulk-signal program with the peer signal and the supervisor's
/// name.
pub fn peer_broadcast_command() -> (words: Vec<String>)
    ensures
        words.deep_view() == killall_words(SUPERVISOR_NAME@, Some(PEER_SIGNAL@)),
{
    killall_command(SUPERVISOR_NAME, Some(PEER_SIGNAL))
}

/// The response to a key press: escape is the cancel gesture and goes no
/// further; with control and alt held it also asks for the broadcast to the
/// other instances. Any other key is handed on untouched.
pub open spec fn key_response(key: Key, modifiers: Modifiers) -> KeyResponse {
    match key {
        Key::Escape => KeyResponse {
            propagation: Propagation::Stop,
            broadcast: modifiers.panic_combo(),
            cancel: true,
        },
        Key::Other => KeyResponse {
            propagation: Propagation::Proceed,
            broadcast: false,
            cancel: false,
        },
    }
}

/// The response to a press of the escape key with `modifiers` held.
pub fn handle_escape_press(modifiers: Modifiers) -> (r: KeyResponse)
    ensures
        r == key_response(Key::Escape, modifiers),
{
    KeyResponse {
        propagation: Propagation::Stop,
        broadcast: modifiers.is_panic_combo(),
        cancel: true,
    }
}

/// The response to a press of `key` with `modifiers` held.
pub fn on_key_pressed(key: Key, modifiers: Modifiers) -> (r: KeyResponse)
    ensures
        r == key_response(key, modifiers),
{
    match key {
        Key::Escape => handle_escape_press(modifiers),
        Key::Other => KeyResponse {
            propagation: Propagation::Proceed,
            broadcast: false,
            cancel: false,
        },
    }
}

} // verus!
