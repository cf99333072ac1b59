use counter_tui::event::{Event, KeyCode, KeyEvent};
use counter_tui::session::{run_lifecycle, BackendError, BackendResponse, Session, TermOp};
use counter_tui::state::App;

fn press(code: KeyCode) -> BackendResponse {
    BackendResponse::Ready(Event::Key(KeyEvent::press(code)))
}

#[test]
fn restore_is_idempotent() {
    // Restore never fails and always ends in normal mode, whatever
    // came before and however often it is repeated.
    let mut s = Session::new();
    s.restore();
    s.restore();
    assert_eq!(
        s.log,
        vec![TermOp::LeaveAlt, TermOp::DisableRaw, TermOp::LeaveAlt, TermOp::DisableRaw]
    );

    let mut s = Session::new();
    s.enter();
    s.restore();
    s.restore();
    assert_eq!(
        s.log,
        vec![
            TermOp::EnterAlt,
            TermOp::EnableRaw,
            TermOp::LeaveAlt,
            TermOp::DisableRaw,
            TermOp::LeaveAlt,
            TermOp::DisableRaw,
        ]
    );
}

#[test]
fn fatal_report_restores_first() {
    // A fatal backend failure mid-loop, in interactive mode: the
    // restore operations must come before the diagnostic.
    let mut s = Session::new();
    s.enter();
    let mut app = App { counter: 1, exit: false };
    let inputs = vec![BackendResponse::Timeout, BackendResponse::Failure];
    let r = app.run(&mut s, &inputs);
    assert_eq!(r, Err(BackendError));
    assert_eq!(
        s.log,
        vec![
            TermOp::EnterAlt,
            TermOp::EnableRaw,
            TermOp::Draw,
            TermOp::Draw,
            TermOp::LeaveAlt,
            TermOp::DisableRaw,
            TermOp::Diagnostic,
        ]
    );
    let diag = s.log.iter().position(|op| *op == TermOp::Diagnostic).unwrap();
    let leave = s.log.iter().rposition(|op| *op == TermOp::LeaveAlt).unwrap();
    let disable = s.log.iter().rposition(|op| *op == TermOp::DisableRaw).unwrap();
    assert!(leave < diag && disable < diag);
}

#[test]
fn loop_quits_within_one_iteration() {
    // (1,false), a quit key, then further responses: the quit is
    // observed at the next loop top, nothing more is drawn or
    // dispatched, and the run ends gracefully.
    let mut s = Session::new();
    let mut app = App { counter: 1, exit: false };
    let inputs = vec![press(KeyCode::Char('q')), press(KeyCode::Right), BackendResponse::Failure];
    let r = app.run(&mut s, &inputs);
    assert_eq!(r, Ok(()));
    assert_eq!((app.counter, app.exit), (1, true));
    assert_eq!(s.log, vec![TermOp::Draw]);
}

#[test]
fn loop_recovers_from_domain_errors() {
    // An overflow and an underflow inside the run are recoverable:
    // the loop keeps drawing and dispatching, and ends gracefully on
    // the quit key with the state intact.
    let mut s = Session::new();
    let mut app = App::new();
    let inputs = vec![
        press(KeyCode::Left),  // underflow, recovered
        press(KeyCode::Right),
        press(KeyCode::Right),
        press(KeyCode::Right), // overflow, recovered
        press(KeyCode::Char('q')),
    ];
    let r = app.run(&mut s, &inputs);
    assert_eq!(r, Ok(()));
    assert_eq!((app.counter, app.exit), (2, true));
    assert_eq!(s.log, vec![TermOp::Draw; 5]);
}

#[test]
fn loop_continues_on_timeout() {
    // A poll timeout draws a frame and changes no state.
    let mut s = Session::new();
    let mut app = App { counter: 2, exit: false };
    let inputs = vec![BackendResponse::Timeout, BackendResponse::Timeout];
    let r = app.run(&mut s, &inputs);
    assert_eq!(r, Ok(()));
    assert_eq!((app.counter, app.exit), (2, false));
    assert_eq!(s.log, vec![TermOp::Draw, TermOp::Draw]);
}

#[test]
fn lifecycle_restores_on_graceful_exit() {
    let mut app = App::new();
    let inputs = vec![press(KeyCode::Right), press(KeyCode::Char('q'))];
    let (session, result) = run_lifecycle(&mut app, &inputs);
    assert_eq!(result, Ok(()));
    assert_eq!((app.counter, app.exit), (1, true));
    assert_eq!(
        session.log,
        vec![
            TermOp::EnterAlt,
            TermOp::EnableRaw,
            TermOp::Draw,
            TermOp::Draw,
            TermOp::LeaveAlt,
            TermOp::DisableRaw,
        ]
    );
}

#[test]
fn lifecycle_restores_on_fatal_failure() {
    let mut app = App::new();
    let inputs = vec![BackendResponse::Failure];
    let (session, result) = run_lifecycle(&mut app, &inputs);
    assert_eq!(result, Err(BackendError));
    // restore ran before the diagnostic; the final restore of the
    // graceful path is harmlessly repeated afterwards
    assert_eq!(
        session.log,
        vec![
            TermOp::EnterAlt,
            TermOp::EnableRaw,
            TermOp::Draw,
            TermOp::LeaveAlt,
            TermOp::DisableRaw,
            TermOp::Diagnostic,
            TermOp::LeaveAlt,
            TermOp::DisableRaw,
        ]
    );
}

#[test]
fn loop_on_exited_state_does_nothing() {
    let mut s = Session::new();
    let mut app = App { counter: 0, exit: true };
    let inputs = vec![press(KeyCode::Right)];
    let r = app.run(&mut s, &inputs);
    assert_eq!(r, Ok(()));
    assert_eq!((app.counter, app.exit), (0, true));
    assert!(s.log.is_empty());
}
