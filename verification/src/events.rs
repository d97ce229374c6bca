//! Plain-data model of the terminal event queue.
//!
//! The queue itself — a background poller that reads the terminal and
//! forwards what it saw over a channel — is input/output plumbing and lives
//! outside the verified core. What is verified here is the data it carries
//! and the two decisions it makes on every cycle: which events a poll result
//! turns into, and what the consumer receives when the channel has nothing
//! left to give.

use vstd::prelude::*;

verus! {

/// A key press, as plain data.
#[derive(Clone, Copy, Debug, PartialEq, Eq, Structural)]
pub enum Key {
    /// The enter key.
    Enter,
    /// The tabulation key.
    Tab,
    /// The backspace key.
    Backspace,
    /// The escape key.
    Esc,
    /// The left arrow key.
    Left,
    /// The right arrow key.
    Right,
    /// The up arrow key.
    Up,
    /// The down arrow key.
    Down,
    /// The delete key.
    Delete,
    /// The home key.
    Home,
    /// The end key.
    End,
    /// The page-up key.
    PageUp,
    /// The page-down key.
    PageDown,
    /// A printable character.
    Char(char),
    /// A character pressed together with control.
    Ctrl(char),
    /// A character pressed together with alt.
    Alt(char),
    /// Any key this model does not name.
    Unknown,
}

/// Input events
#[derive(Clone, Copy, Debug, PartialEq, Eq, Structural)]
pub enum InputEvent {
    /// An input event occurred.
    Input(Key),
    /// An tick event occurred.
    Tick,
}

/// The events one poller cycle forwards, in order: the key that was read, if
/// any, and then always a tick.
pub fn poll_cycle(key: Option<Key>) -> (r: Vec<InputEvent>)
    ensures
        r@ == match key {
            Some(k) => seq![InputEvent::Input(k), InputEvent::Tick],
            None => seq![InputEvent::Tick],
        },
{
    let mut out: Vec<InputEvent> = Vec::new();
    match key {
        Some(k) => {
            out.push(InputEvent::Input(k));
            out.push(InputEvent::Tick);
            assert(out@ =~= seq![InputEvent::Input(k), InputEvent::Tick]);
        }
        None => {
            out.push(InputEvent::Tick);
            assert(out@ =~= seq![InputEvent::Tick]);
        }
    }
    out
}

/// What the consumer's read yields: the received event, or a tick once the
/// channel can deliver nothing more.
pub fn next_or_tick(received: Option<InputEvent>) -> (r: InputEvent)
    ensures
        r == match received {
            Some(e) => e,
            None => InputEvent::Tick,
        },
{
    match received {
        Some(e) => e,
        None => InputEvent::Tick,
    }
}

} // verus!
