//! The byte sources that the keyboard device polls: an interactive
//! terminal keyboard and a pre-read file image. Both yield at most one
//! byte per poll and never block.

use vstd::prelude::*;
use crossterm::event::{Event, KeyCode};

verus! {

/// One key report from the interactive terminal, reduced to the cases the
/// simulator distinguishes.
#[derive(Debug, Copy, Clone, PartialEq, Eq, Structural)]
pub enum KeyInput {
    Character(u8),
    Escape,
    ArrowLeft,
    ArrowRight,
    ArrowUp,
    ArrowDown,
    Other,
}

/// What one non-blocking poll of a byte source produced.
#[derive(Debug, Copy, Clone, PartialEq, Eq, Structural)]
pub enum ReadOutcome {
    /// One byte was available and has been consumed.
    Byte(u8),
    /// No byte is available right now, but more may come.
    Empty,
    /// The source will never yield another byte.
    Exhausted,
    /// The user asked to stop the machine.
    Cancelled,
}

/// Where the program's input comes from: the interactive keyboard, or the
/// contents of a file together with a cursor over the bytes already
/// consumed.
pub enum Reader {
    Keyboard,
    InFile(Vec<u8>, usize),
}

/// Relies on crossterm::event::poll with a zero timeout: reports whether a
/// terminal event can be read without blocking. A failed poll reads as no
/// event.
#[verifier::external_body]
fn key_event_available() -> (r: bool) {
    match crossterm::event::poll(std::time::Duration::from_millis(0)) {
        Ok(ready) => ready,
        Err(_) => false,
    }
}

/// Relies on crossterm::event::read: returns the pending terminal event,
/// reduced variant by variant to the keys the simulator reacts to. Only
/// called once a poll has reported an event, so it does not block.
#[verifier::external_body]
fn read_key_event() -> (r: KeyInput) {
    match crossterm::event::read() {
        Ok(Event::Key(k)) => match k.code {
            KeyCode::Char(c) => KeyInput::Character(c as u8),
            KeyCode::Esc => KeyInput::Escape,
            KeyCode::Left => KeyInput::ArrowLeft,
            KeyCode::Right => KeyInput::ArrowRight,
            KeyCode::Up => KeyInput::ArrowUp,
            KeyCode::Down => KeyInput::ArrowDown,
            _ => KeyInput::Other,
        },
        _ => KeyInput::Other,
    }
}

/// What one polled key yields: the pressed character's own byte, the
/// bytes of a, w, s and d for the four arrow keys, a cancellation for the
/// designated cancel key (escape), and nothing for any other event.
pub open spec fn key_outcome_spec(k: KeyInput) -> ReadOutcome {
    match k {
        KeyInput::Character(c) => ReadOutcome::Byte(c),
        KeyInput::Escape => ReadOutcome::Cancelled,
        KeyInput::ArrowLeft => ReadOutcome::Byte(0x61),
        KeyInput::ArrowUp => ReadOutcome::Byte(0x77),
        KeyInput::ArrowDown => ReadOutcome::Byte(0x73),
        KeyInput::ArrowRight => ReadOutcome::Byte(0x64),
        KeyInput::Other => ReadOutcome::Empty,
    }
}

/// Turn one polled key into the byte, cancellation or nothing that the
/// keyboard yields for it.
pub fn key_outcome(k: KeyInput) -> (r: ReadOutcome)
    ensures
        r == key_outcome_spec(k),
{
    match k {
        KeyInput::Character(c) => ReadOutcome::Byte(c),
        KeyInput::Escape => ReadOutcome::Cancelled,
        KeyInput::ArrowLeft => ReadOutcome::Byte(0x61),
        KeyInput::ArrowUp => ReadOutcome::Byte(0x77),
        KeyInput::ArrowDown => ReadOutcome::Byte(0x73),
        KeyInput::ArrowRight => ReadOutcome::Byte(0x64),
        KeyInput::Other => ReadOutcome::Empty,
    }
}

/// How one poll changes a reader and what it yields. A file-backed reader
/// is deterministic: it hands out its bytes in order, one per poll, and is
/// exhausted once the cursor passes the end. The keyboard keeps no state
/// here; what it yields is `key_outcome_spec` of some polled key, so a
/// byte, a cancellation or nothing, and never exhaustion.
pub open spec fn read_rel(pre: Reader, post: Reader, r: ReadOutcome) -> bool {
    match pre {
        Reader::InFile(bytes, pos) => {
            if (pos as int) < bytes@.len() {
                &&& r == ReadOutcome::Byte(bytes@[pos as int])
                &&& post matches Reader::InFile(b2, p2) && b2@ == bytes@ && p2 == pos + 1
            } else {
                &&& r == ReadOutcome::Exhausted
                &&& post == pre
            }
        },
        Reader::Keyboard => {
            &&& post == pre
            &&& !(r matches ReadOutcome::Exhausted)
            &&& exists|k: KeyInput| r == #[trigger] key_outcome_spec(k)
        },
    }
}

impl Reader {
    /// A reader over the given file contents, starting at the first byte.
    pub fn from_bytes(bytes: Vec<u8>) -> (r: Reader)
        ensures
            r matches Reader::InFile(b, p) && b@ == bytes@ && p == 0usize,
    {
        Reader::InFile(bytes, 0)
    }

    /// Poll for one byte without blocking. The keyboard maps the arrow
    /// keys to the letters a/w/s/d, reports a press of the escape key as a
    /// cancellation, and yields nothing for any other event; a file hands
    /// out its next unconsumed byte, or reports exhaustion.
    pub fn read(&mut self) -> (r: ReadOutcome)
        ensures
            read_rel(*old(self), *final(self), r),
    {
        match self {
            Reader::Keyboard => {
                if key_event_available() {
                    let key = read_key_event();
                    key_outcome(key)
                } else {
                    proof {
                        assert(ReadOutcome::Empty == key_outcome_spec(KeyInput::Other));
                    }
                    ReadOutcome::Empty
                }
            },
            Reader::InFile(bytes, pos) => {
                if *pos < bytes.len() {
                    let b = bytes[*pos];
                    *pos = *pos + 1;
                    ReadOutcome::Byte(b)
                } else {
                    ReadOutcome::Exhausted
                }
            },
        }
    }
}

} // verus!
