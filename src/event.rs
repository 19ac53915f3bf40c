use vstd::prelude::*;

use crate::model::Message;

verus! {

/// The key of a keyboard event, as far as the viewer tells keys apart.
#[derive(Debug, Clone, Copy, PartialEq, Eq, Structural)]
pub enum KeyCode {
    Char(char),
    Other,
}

/// Whether a key went down, repeated or came up.
#[derive(Debug, Clone, Copy, PartialEq, Eq, Structural)]
pub enum KeyEventKind {
    Press,
    Repeat,
    Release,
}

/// A keyboard event.
#[derive(Debug, Clone, Copy, PartialEq, Eq, Structural)]
pub struct KeyEvent {
    pub code: KeyCode,
    pub kind: KeyEventKind,
}

/// An input event: a key, or anything else the terminal reports.
#[derive(Debug, Clone, Copy, PartialEq, Eq, Structural)]
pub enum Event {
    Key(KeyEvent),
    Other,
}

/// The fixed key table: `j` scrolls down, `k` scrolls up, `m` changes the
/// time window and `q` quits; no other key means anything.
pub open spec fn key_message(code: KeyCode) -> Option<Message> {
    match code {
        KeyCode::Char('j') => Some(Message::ScrollDown),
        KeyCode::Char('k') => Some(Message::ScrollUp),
        KeyCode::Char('m') => Some(Message::ChangeTimeRange),
        KeyCode::Char('q') => Some(Message::Quit),
        _ => None,
    }
}

/// The message that a key stands for, by the key table.
pub fn handle_key(key: KeyEvent) -> (r: Option<Message>)
    ensures
        r == key_message(key.code),
{
    match key.code {
        KeyCode::Char('j') => Some(Message::ScrollDown),
        KeyCode::Char('k') => Some(Message::ScrollUp),
        KeyCode::Char('m') => Some(Message::ChangeTimeRange),
        KeyCode::Char('q') => Some(Message::Quit),
        _ => None,
    }
}

/// The message for the outcome of one bounded wait for input: nothing when
/// the wait timed out (`None`) or brought anything but a key press, else the
/// pressed key's message.
pub fn translate_event(polled: Option<Event>) -> (r: Option<Message>)
    ensures
        r == match polled {
            Some(Event::Key(k)) => if k.kind == KeyEventKind::Press {
                key_message(k.code)
            } else {
                None
            },
            _ => None,
        },
{
    match polled {
        Some(Event::Key(key)) => {
            if key.kind == KeyEventKind::Press {
                handle_key(key)
            } else {
                None
            }
        },
        _ => None,
    }
}

} // verus!
