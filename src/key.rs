//! Key events and the decisions of the key reader, which waits for the
//! next key press and passes over every other kind of terminal event.

use vstd::prelude::*;

verus! {

/// How long one wait for a terminal event lasts, in milliseconds, before
/// the reader waits again.
pub const POLL_INTERVAL_MS: u64 = 500;

/// The key of a key event.
#[derive(Debug, Clone, Copy, PartialEq, Eq, Structural)]
pub enum KeyCode {
    /// A key that types a character.
    Char(char),
    /// A named key (arrows, function keys, Enter and the like).
    Other,
}

/// The modifier keys held during a key event.
#[derive(Debug, Clone, Copy, PartialEq, Eq, Structural)]
pub enum Modifiers {
    /// No modifier.
    Plain,
    /// Control alone.
    Control,
    /// Any other set of modifiers.
    Other,
}

/// A key event: the key and the modifiers held with it.
#[derive(Debug, Clone, Copy, PartialEq, Eq, Structural)]
pub struct KeyPress {
    pub code: KeyCode,
    pub modifiers: Modifiers,
}

/// A terminal event, as far as the editor tells them apart.
#[derive(Debug, Clone, Copy, PartialEq, Eq, Structural)]
pub enum Event {
    Key(KeyPress),
    /// A resize, a mouse or a focus event, or any other that is no key.
    Other,
}

/// What one wait for an event came to.
#[derive(Debug, Clone, Copy, PartialEq, Eq, Structural)]
pub enum Polled {
    /// The wait ran out with no event.
    Timeout,
    /// An event was there, and this is the one that was read.
    Ready(Event),
}

/// What the reader does next.
#[derive(Debug, Clone, Copy, PartialEq, Eq, Structural)]
pub enum ReadStep {
    /// Wait for an event again.
    Poll,
    /// Hand this key event to the editor.
    Deliver(KeyPress),
}

#[derive(Debug, Clone, Copy)]
pub struct Reader;

impl Reader {
    /// The reader's decision after one wait: a key event is delivered;
    /// after a timeout, or an event that is no key, it waits again.
    pub fn next_step(&self, polled: Polled) -> (r: ReadStep)
        ensures
            r == (match polled {
                Polled::Ready(Event::Key(k)) => ReadStep::Deliver(k),
                _ => ReadStep::Poll,
            }),
    {
        match polled {
            Polled::Ready(Event::Key(k)) => ReadStep::Deliver(k),
            _ => ReadStep::Poll,
        }
    }
}

} // verus!
