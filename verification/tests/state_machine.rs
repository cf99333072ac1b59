use counter_tui::event::{Event, KeyCode, KeyEvent, KeyEventKind};
use counter_tui::state::{App, AppError, COUNTER_MAX, COUNTER_MIN};

#[test]
fn handle_key_event() {
    let mut app = App::default();
    app.handle_key_event(KeyEvent::press(KeyCode::Right)).unwrap();
    assert_eq!(app.counter, 1);

    app.handle_key_event(KeyEvent::press(KeyCode::Left)).unwrap();
    assert_eq!(app.counter, 0);

    let mut app = App::default();
    app.handle_key_event(KeyEvent::press(KeyCode::Char('q'))).unwrap();
    assert_eq!(app.exit, true);
}

#[test]
fn handle_key_event_overflow() {
    let mut app = App::default();
    assert!(app.handle_key_event(KeyEvent::press(KeyCode::Right)).is_ok());
    assert!(app.handle_key_event(KeyEvent::press(KeyCode::Right)).is_ok());
    assert_eq!(
        app.handle_key_event(KeyEvent::press(KeyCode::Right))
            .unwrap_err()
            .message(),
        "counter overflow"
    );
}

#[test]
fn handle_key_event_underflow() {
    let mut app = App::default();
    let err = app.handle_key_event(KeyEvent::press(KeyCode::Left)).unwrap_err();
    assert_eq!(err, AppError::CounterUnderflow);
    assert_eq!(err.message(), "counter underflow");
    assert_eq!(app.counter, 0);
    assert_eq!(app.exit, false);
}

#[test]
fn scenario_increment_to_overflow() {
    // (0,false) -> increment -> increment -> (2,false) -> increment
    // fails with overflow and the state stays (2,false).
    let mut app = App::new();
    assert!(app.increment_counter().is_ok());
    assert!(app.increment_counter().is_ok());
    assert_eq!((app.counter, app.exit), (2, false));
    assert_eq!(app.increment_counter(), Err(AppError::CounterOverflow));
    assert_eq!((app.counter, app.exit), (2, false));
}

#[test]
fn scenario_decrement_underflow() {
    // (0,false) -> decrement fails with underflow and the state stays
    // (0,false); the failure is recoverable, not a crash.
    let mut app = App::new();
    assert_eq!(app.decrement_counter(), Err(AppError::CounterUnderflow));
    assert_eq!((app.counter, app.exit), (0, false));
    // the machine keeps working afterwards
    assert!(app.increment_counter().is_ok());
    assert_eq!((app.counter, app.exit), (1, false));
}

#[test]
fn scenario_quit_key() {
    // (1,false) -> quit key -> (1,true).
    let mut app = App { counter: 1, exit: false };
    let ev = Event::Key(KeyEvent::press(KeyCode::Char('q')));
    assert!(app.handle_event(ev).is_ok());
    assert_eq!((app.counter, app.exit), (1, true));
}

#[test]
fn counter_stays_in_range() {
    // Any sequence of increments and decrements keeps the committed
    // counter inside [COUNTER_MIN, COUNTER_MAX].
    let mut app = App::new();
    let script = [
        KeyCode::Left,
        KeyCode::Right,
        KeyCode::Right,
        KeyCode::Right,
        KeyCode::Right,
        KeyCode::Left,
        KeyCode::Left,
        KeyCode::Left,
        KeyCode::Right,
    ];
    for code in script {
        let _ = app.handle_key_event(KeyEvent::press(code));
        assert!(COUNTER_MIN <= app.counter && app.counter <= COUNTER_MAX);
    }
}

#[test]
fn quit_is_monotonic() {
    // Once the termination flag is set, every later event is a no-op
    // and never resets the flag.
    let mut app = App { counter: 2, exit: false };
    app.handle_event(Event::Key(KeyEvent::press(KeyCode::Char('q')))).unwrap();
    assert!(app.exit);
    let later = [
        Event::Key(KeyEvent::press(KeyCode::Right)),
        Event::Key(KeyEvent::press(KeyCode::Left)),
        Event::Key(KeyEvent::press(KeyCode::Char('q'))),
        Event::Other,
    ];
    for ev in later {
        assert!(app.handle_event(ev).is_ok());
        assert_eq!((app.counter, app.exit), (2, true));
    }
}

#[test]
fn repeat_and_release_are_filtered() {
    // Only a genuine press triggers a transition: repeat and release
    // variants of the same keys change nothing.
    let mut app = App { counter: 1, exit: false };
    for kind in [KeyEventKind::Repeat, KeyEventKind::Release] {
        for code in [KeyCode::Right, KeyCode::Left, KeyCode::Char('q')] {
            let ev = Event::Key(KeyEvent { code, kind });
            assert!(app.handle_event(ev).is_ok());
            assert_eq!((app.counter, app.exit), (1, false));
        }
    }
    // other (non-key) events are ignored too
    assert!(app.handle_event(Event::Other).is_ok());
    assert_eq!((app.counter, app.exit), (1, false));
}

#[test]
fn other_keys_are_noops() {
    let mut app = App { counter: 1, exit: false };
    assert!(app.handle_key_event(KeyEvent::press(KeyCode::Char('x'))).is_ok());
    assert!(app.handle_key_event(KeyEvent::press(KeyCode::Other)).is_ok());
    assert_eq!((app.counter, app.exit), (1, false));
}
