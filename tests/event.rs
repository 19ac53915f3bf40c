use spotify_top::event::{handle_key, translate_event, Event, KeyCode, KeyEvent, KeyEventKind};
use spotify_top::model::Message;

fn press(c: char) -> KeyEvent {
    KeyEvent {
        code: KeyCode::Char(c),
        kind: KeyEventKind::Press,
    }
}

#[test]
fn key_table() {
    assert_eq!(handle_key(press('j')), Some(Message::ScrollDown));
    assert_eq!(handle_key(press('k')), Some(Message::ScrollUp));
    assert_eq!(handle_key(press('m')), Some(Message::ChangeTimeRange));
    assert_eq!(handle_key(press('q')), Some(Message::Quit));
    assert_eq!(handle_key(press('x')), None);
    assert_eq!(handle_key(press('Q')), None);
    assert_eq!(
        handle_key(KeyEvent {
            code: KeyCode::Other,
            kind: KeyEventKind::Press
        }),
        None
    );
}

#[test]
fn timeout_gives_nothing() {
    assert_eq!(translate_event(None), None);
}

#[test]
fn only_presses_are_translated() {
    assert_eq!(
        translate_event(Some(Event::Key(press('q')))),
        Some(Message::Quit)
    );
    for kind in [KeyEventKind::Release, KeyEventKind::Repeat] {
        let key = KeyEvent {
            code: KeyCode::Char('q'),
            kind,
        };
        assert_eq!(translate_event(Some(Event::Key(key))), None);
    }
    assert_eq!(translate_event(Some(Event::Other)), None);
}
