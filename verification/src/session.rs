//! The terminal session and the render/event loop.
//!
//! A full-screen program switches the terminal into an interactive
//! mode (alternate screen plus raw input) and must switch it back on
//! every exit path — normal return, propagated error, or crash —
//! before any diagnostic text is printed, or the diagnostic is
//! corrupted by leftover raw-mode state.
//!
//! `Session` models that lifecycle as a log of the operations handed
//! to the backend.  The unverified shell performs each logged
//! operation on the real terminal in order, so the log order is the
//! order of the real side effects.  The session's invariant is the
//! heart of the model: a diagnostic is only ever logged while the
//! terminal is back in normal mode.
//!
//! `App::run` is the loop itself, driven by a script of backend
//! responses: each iteration renders a frame, submits it, and then
//! dispatches the next response — an input event, a poll timeout, or
//! a fatal backend failure, which restores the terminal and reports
//! before the loop aborts.

use vstd::prelude::*;

use crate::event::Event;
use crate::render::RenderedFrame;
use crate::state::{step, wf, App};

verus! {

/// One operation handed to the terminal backend.
#[derive(Clone, Copy, Debug, PartialEq, Eq, Structural)]
pub enum TermOp {
    /// Enter the alternate screen.
    EnterAlt,
    /// Enable raw input mode.
    EnableRaw,
    /// Leave the alternate screen.
    LeaveAlt,
    /// Disable raw input mode.
    DisableRaw,
    /// Submit one rendered frame.
    Draw,
    /// Print fatal diagnostic text.
    Diagnostic,
}

/// Whether the alternate screen is active once every operation in
/// `ops` has been performed: the last enter or leave wins.
pub open spec fn alt_after(ops: Seq<TermOp>) -> bool
    decreases ops.len(),
{
    if ops.len() == 0 {
        false
    } else {
        match ops.last() {
            TermOp::EnterAlt => true,
            TermOp::LeaveAlt => false,
            _ => alt_after(ops.drop_last()),
        }
    }
}

/// Whether raw input mode is active once every operation in `ops`
/// has been performed.
pub open spec fn raw_after(ops: Seq<TermOp>) -> bool
    decreases ops.len(),
{
    if ops.len() == 0 {
        false
    } else {
        match ops.last() {
            TermOp::EnableRaw => true,
            TermOp::DisableRaw => false,
            _ => raw_after(ops.drop_last()),
        }
    }
}

/// The terminal is in its normal shell mode: neither the alternate
/// screen nor raw input is active.
pub open spec fn normal_after(ops: Seq<TermOp>) -> bool {
    !alt_after(ops) && !raw_after(ops)
}

/// The terminal is in interactive mode: alternate screen and raw
/// input both active.
pub open spec fn interactive_after(ops: Seq<TermOp>) -> bool {
    alt_after(ops) && raw_after(ops)
}

/// The operations a restore performs, in order.
pub open spec fn restore_ops() -> Seq<TermOp> {
    seq![TermOp::LeaveAlt, TermOp::DisableRaw]
}

/// Every diagnostic is printed while the terminal is in normal mode:
/// whatever was logged before it left the terminal restored.
pub open spec fn diagnostics_clean(ops: Seq<TermOp>) -> bool {
    forall|i: int|
        0 <= i < ops.len() && #[trigger] ops[i] == TermOp::Diagnostic ==> normal_after(
            ops.take(i),
        )
}

/// A prefix of the log is unchanged by appending to the log.
proof fn lemma_take_of_append(a: Seq<TermOp>, b: Seq<TermOp>, i: int)
    requires
        0 <= i <= a.len(),
    ensures
        (a + b).take(i) == a.take(i),
{
    assert((a + b).take(i) =~= a.take(i));
}

/// After a restore the terminal is in normal mode, whatever came
/// before.
proof fn lemma_restore_normalizes(ops: Seq<TermOp>)
    ensures
        normal_after(ops + restore_ops()),
{
    let e = ops + restore_ops();
    assert(e.last() == TermOp::DisableRaw);
    assert(e.drop_last() =~= ops + seq![TermOp::LeaveAlt]);
    assert((ops + seq![TermOp::LeaveAlt]).last() == TermOp::LeaveAlt);
    assert(!raw_after(e));
    assert(!alt_after(ops + seq![TermOp::LeaveAlt]));
    assert(!alt_after(e));
}

/// After an enter the terminal is in interactive mode.
proof fn lemma_enter_interactive(ops: Seq<TermOp>)
    ensures
        interactive_after(ops + seq![TermOp::EnterAlt, TermOp::EnableRaw]),
{
    let e = ops + seq![TermOp::EnterAlt, TermOp::EnableRaw];
    assert(e.last() == TermOp::EnableRaw);
    assert(e.drop_last() =~= ops + seq![TermOp::EnterAlt]);
    assert((ops + seq![TermOp::EnterAlt]).last() == TermOp::EnterAlt);
    assert(raw_after(e));
    assert(alt_after(ops + seq![TermOp::EnterAlt]));
    assert(alt_after(e));
}

/// Drawing a frame does not change the terminal mode.
proof fn lemma_draw_keeps_mode(ops: Seq<TermOp>)
    ensures
        alt_after(ops + seq![TermOp::Draw]) == alt_after(ops),
        raw_after(ops + seq![TermOp::Draw]) == raw_after(ops),
{
    let e = ops + seq![TermOp::Draw];
    assert(e.last() == TermOp::Draw);
    assert(e.drop_last() =~= ops);
}

/// Appending operations that print nothing keeps the log clean.
proof fn lemma_clean_append_silent(a: Seq<TermOp>, b: Seq<TermOp>)
    requires
        diagnostics_clean(a),
        forall|j: int| 0 <= j < b.len() ==> b[j] != TermOp::Diagnostic,
    ensures
        diagnostics_clean(a + b),
{
    let c = a + b;
    assert forall|i: int| 0 <= i < c.len() && #[trigger] c[i] == TermOp::Diagnostic implies normal_after(
        c.take(i),
    ) by {
        if i < a.len() {
            assert(c[i] == a[i]);
            lemma_take_of_append(a, b, i);
        } else {
            assert(c[i] == b[i - a.len()]);
        }
    }
}

/// Appending a diagnostic to a restored log keeps the log clean.
proof fn lemma_clean_append_diagnostic(a: Seq<TermOp>)
    requires
        diagnostics_clean(a),
        normal_after(a),
    ensures
        diagnostics_clean(a + seq![TermOp::Diagnostic]),
{
    let c = a + seq![TermOp::Diagnostic];
    assert forall|i: int| 0 <= i < c.len() && #[trigger] c[i] == TermOp::Diagnostic implies normal_after(
        c.take(i),
    ) by {
        if i < a.len() {
            assert(c[i] == a[i]);
            lemma_take_of_append(a, seq![TermOp::Diagnostic], i);
        } else {
            assert(c.take(i) =~= a);
        }
    }
}

/// The terminal session guard: the sole owner of the terminal mode.
/// The log records every operation handed to the backend, oldest
/// first; the unverified shell performs them in this order.
pub struct Session {
    pub log: Vec<TermOp>,
}

impl Session {
    /// Every diagnostic in the log was printed with the terminal in
    /// normal mode.  Constructors establish this and every method
    /// preserves it.
    pub open spec fn wf(self) -> bool {
        diagnostics_clean(self.log@)
    }

    /// Whether the log leaves the terminal in normal shell mode.
    pub open spec fn normal(self) -> bool {
        normal_after(self.log@)
    }

    /// Whether the log leaves the terminal in interactive mode.
    pub open spec fn interactive(self) -> bool {
        interactive_after(self.log@)
    }

    /// A fresh session: nothing performed yet, terminal in normal
    /// mode.
    pub fn new() -> (r: Session)
        ensures
            r.log@ == Seq::<TermOp>::empty(),
            r.wf(),
            r.normal(),
    {
        Session { log: Vec::new() }
    }

    /// Switch the terminal into interactive mode.  At most one enter
    /// is ever in effect: entering requires the terminal to be in
    /// normal mode.
    pub fn enter(&mut self)
        requires
            old(self).wf(),
            old(self).normal(),
        ensures
            final(self).log@ == old(self).log@ + seq![TermOp::EnterAlt, TermOp::EnableRaw],
            final(self).wf(),
            final(self).interactive(),
    {
        let ghost l0 = self.log@;
        self.log.push(TermOp::EnterAlt);
        self.log.push(TermOp::EnableRaw);
        proof {
            assert(self.log@ =~= l0 + seq![TermOp::EnterAlt, TermOp::EnableRaw]);
            lemma_enter_interactive(l0);
            lemma_clean_append_silent(l0, seq![TermOp::EnterAlt, TermOp::EnableRaw]);
        }
    }

    /// Switch the terminal back to normal mode.  Callable in any
    /// mode, any number of times, and never fails: a redundant
    /// restore is a harmlessly repeated operation, and after the last
    /// call the terminal is always in normal mode.  This is what a
    /// fatal-error context calls when no further application logic
    /// can safely run.
    pub fn restore(&mut self)
        requires
            old(self).wf(),
        ensures
            final(self).log@ == old(self).log@ + restore_ops(),
            final(self).wf(),
            final(self).normal(),
    {
        let ghost l0 = self.log@;
        self.log.push(TermOp::LeaveAlt);
        self.log.push(TermOp::DisableRaw);
        proof {
            assert(self.log@ =~= l0 + restore_ops());
            lemma_restore_normalizes(l0);
            lemma_clean_append_silent(l0, restore_ops());
        }
    }

    /// Submit one rendered frame to the backend.  The terminal mode
    /// is untouched.
    pub fn draw(&mut self, _frame: &RenderedFrame)
        requires
            old(self).wf(),
        ensures
            final(self).log@ == old(self).log@ + seq![TermOp::Draw],
            final(self).wf(),
            alt_after(final(self).log@) == alt_after(old(self).log@),
            raw_after(final(self).log@) == raw_after(old(self).log@),
    {
        let ghost l0 = self.log@;
        self.log.push(TermOp::Draw);
        proof {
            assert(self.log@ =~= l0 + seq![TermOp::Draw]);
            lemma_draw_keeps_mode(l0);
            lemma_clean_append_silent(l0, seq![TermOp::Draw]);
        }
    }

    /// Handle a fatal condition: first restore the terminal, then —
    /// and only then — print the diagnostic.  This is the cleanup
    /// that the process-wide fault handlers run exactly once before
    /// any fatal report, so the report is never interleaved with raw
    /// terminal bytes.
    pub fn report_fatal(&mut self)
        requires
            old(self).wf(),
        ensures
            final(self).log@ == old(self).log@ + restore_ops() + seq![TermOp::Diagnostic],
            final(self).wf(),
            final(self).normal(),
    {
        let ghost l0 = self.log@;
        self.restore();
        let ghost l1 = self.log@;
        self.log.push(TermOp::Diagnostic);
        proof {
            assert(self.log@ =~= l1 + seq![TermOp::Diagnostic]);
            lemma_clean_append_diagnostic(l1);
            let e = l1 + seq![TermOp::Diagnostic];
            assert(e.last() == TermOp::Diagnostic);
            assert(e.drop_last() =~= l1);
        }
    }
}

/// Idempotent restore: whatever was performed before — never
/// entered, entered, drawn, or already restored any number of times —
/// one more restore leaves the terminal in normal mode.
pub proof fn lemma_restore_idempotent(ops: Seq<TermOp>)
    ensures
        normal_after(ops + restore_ops()),
{
    lemma_restore_normalizes(ops);
}

/// Fault-path restoration order: in a well-formed session log, every
/// diagnostic was printed after the terminal was back in normal mode.
pub proof fn lemma_diagnostic_only_when_normal(ops: Seq<TermOp>, i: int)
    requires
        diagnostics_clean(ops),
        0 <= i < ops.len(),
        ops[i] == TermOp::Diagnostic,
    ensures
        normal_after(ops.take(i)),
{
}

/// What the backend hands back when the loop waits for input after a
/// draw: a decoded event, a poll timeout with no event ready, or a
/// fatal backend failure.
#[derive(Clone, Copy, Debug, PartialEq, Eq, Structural)]
pub enum BackendResponse {
    /// An input event was ready within the bound.
    Ready(Event),
    /// The bounded wait elapsed with no event; the loop goes on
    /// without a state change.
    Timeout,
    /// The backend failed fatally; the session cannot continue.
    Failure,
}

/// A fatal terminal failure, reported by the loop after the terminal
/// has been restored.
#[derive(Clone, Copy, Debug, PartialEq, Eq, Structural)]
pub struct BackendError;

/// What the loop does with a state and a script of backend
/// responses: the final state, whether it ended gracefully, and the
/// operations handed to the backend along the way.
///
/// Each iteration first checks the termination flag, then draws one
/// frame and consumes one response.  A timeout changes nothing; an
/// event is dispatched to the state machine, a failed transition
/// being recoverable; a backend failure restores the terminal,
/// prints the diagnostic, and aborts.  The loop also stops, cleanly,
/// when the script is exhausted.
pub open spec fn loop_outcome(s: App, inputs: Seq<BackendResponse>) -> (App, bool, Seq<TermOp>)
    decreases inputs.len(),
{
    if s.exit || inputs.len() == 0 {
        (s, true, Seq::<TermOp>::empty())
    } else {
        match inputs[0] {
            BackendResponse::Timeout => {
                let rest = loop_outcome(s, inputs.drop_first());
                (rest.0, rest.1, seq![TermOp::Draw] + rest.2)
            },
            BackendResponse::Ready(ev) => {
                let rest = loop_outcome(step(s, ev).0, inputs.drop_first());
                (rest.0, rest.1, seq![TermOp::Draw] + rest.2)
            },
            BackendResponse::Failure => {
                (s, false, seq![TermOp::Draw] + restore_ops() + seq![TermOp::Diagnostic])
            },
        }
    }
}

impl App {
    /// The render/event loop.  Frames and responses strictly
    /// alternate: each iteration renders the current state, submits
    /// the frame, and consumes one backend response.  The loop
    /// returns success once the termination flag is observed (or the
    /// script ends); on a backend failure it restores the terminal,
    /// logs the diagnostic, and returns the error.  Domain-validation
    /// failures of single transitions are recoverable: the state is
    /// unchanged and the loop keeps running.
    pub fn run(&mut self, session: &mut Session, inputs: &Vec<BackendResponse>) -> (r: Result<
        (),
        BackendError,
    >)
        requires
            old(session).wf(),
        ensures
            *final(self) == loop_outcome(*old(self), inputs@).0,
            (r is Ok) == loop_outcome(*old(self), inputs@).1,
            final(session).log@ == old(session).log@ + loop_outcome(*old(self), inputs@).2,
            final(session).wf(),
    {
        let ghost s0 = *self;
        let ghost log0 = session.log@;
        let mut i: usize = 0;
        let mut failed: bool = false;
        proof {
            assert(inputs@.skip(0) =~= inputs@);
        }
        while !failed && i < inputs.len() && !self.exit
            invariant
                i <= inputs.len(),
                session.wf(),
                !failed ==> {
                    &&& loop_outcome(s0, inputs@).0 == loop_outcome(*self, inputs@.skip(i as int)).0
                    &&& loop_outcome(s0, inputs@).1 == loop_outcome(*self, inputs@.skip(i as int)).1
                    &&& log0 + loop_outcome(s0, inputs@).2 == session.log@ + loop_outcome(
                        *self,
                        inputs@.skip(i as int),
                    ).2
                },
                failed ==> {
                    &&& loop_outcome(s0, inputs@).0 == *self
                    &&& !loop_outcome(s0, inputs@).1
                    &&& session.log@ == log0 + loop_outcome(s0, inputs@).2
                },
            decreases inputs.len() - i,
        {
            let ghost s_here = *self;
            let ghost rest = inputs@.skip(i as int);
            proof {
                assert(rest[0] == inputs@[i as int]);
                assert(rest.drop_first() =~= inputs@.skip(i as int + 1));
            }
            let frame = self.render_frame();
            session.draw(&frame);
            let resp = inputs[i];
            i = i + 1;
            match resp {
                BackendResponse::Timeout => {
                    proof {
                        let inner = loop_outcome(s_here, rest.drop_first());
                        assert(loop_outcome(s_here, rest).2 =~= seq![TermOp::Draw] + inner.2);
                        assert(log0 + loop_outcome(s0, inputs@).2 =~= session.log@ + inner.2);
                    }
                },
                BackendResponse::Ready(ev) => {
                    let _reported = self.handle_event(ev);
                    proof {
                        let inner = loop_outcome(step(s_here, ev).0, rest.drop_first());
                        assert(loop_outcome(s_here, rest).2 =~= seq![TermOp::Draw] + inner.2);
                        assert(log0 + loop_outcome(s0, inputs@).2 =~= session.log@ + inner.2);
                    }
                },
                BackendResponse::Failure => {
                    session.report_fatal();
                    failed = true;
                    proof {
                        assert(loop_outcome(s_here, rest).2 =~= seq![TermOp::Draw] + restore_ops()
                            + seq![TermOp::Diagnostic]);
                        assert(session.log@ =~= log0 + loop_outcome(s0, inputs@).2);
                    }
                },
            }
        }
        proof {
            if !failed {
                if !self.exit {
                    assert(inputs@.skip(i as int) =~= Seq::<BackendResponse>::empty());
                }
                assert(loop_outcome(*self, inputs@.skip(i as int)).2 == Seq::<TermOp>::empty());
                assert(log0 + loop_outcome(s0, inputs@).2 =~= session.log@);
            }
        }
        if failed {
            Err(BackendError)
        } else {
            Ok(())
        }
    }
}

/// The whole interactive lifetime: enter interactive mode, run the
/// loop, restore.  Whatever the run does — graceful quit, exhausted
/// script, or fatal backend failure — the terminal ends in normal
/// mode, restoration having run on this exit path too, and every
/// diagnostic in the log was printed after a restore.  A redundant
/// final restore after a fatal report is a harmlessly repeated
/// operation.
pub fn run_lifecycle(app: &mut App, inputs: &Vec<BackendResponse>) -> (r: (
    Session,
    Result<(), BackendError>,
))
    ensures
        *final(app) == loop_outcome(*old(app), inputs@).0,
        (r.1 is Ok) == loop_outcome(*old(app), inputs@).1,
        r.0.log@ == seq![TermOp::EnterAlt, TermOp::EnableRaw] + loop_outcome(*old(app), inputs@).2
            + restore_ops(),
        r.0.wf(),
        r.0.normal(),
{
    let mut session = Session::new();
    session.enter();
    let result = app.run(&mut session, inputs);
    session.restore();
    proof {
        assert(session.log@ =~= seq![TermOp::EnterAlt, TermOp::EnableRaw] + loop_outcome(
            *old(app),
            inputs@,
        ).2 + restore_ops());
    }
    (session, result)
}

/// Quit is observed within one iteration: once the termination flag
/// is set, the loop applies no further transition, performs nothing
/// further, and ends gracefully at once.
pub proof fn lemma_quit_stops_loop(s: App, inputs: Seq<BackendResponse>)
    requires
        s.exit,
    ensures
        loop_outcome(s, inputs) == (s, true, Seq::<TermOp>::empty()),
{
}

/// The bounded counter invariant holds across whole runs: from a
/// well-formed state, the state after any script of backend
/// responses is well formed.
pub proof fn lemma_loop_preserves_bounds(s: App, inputs: Seq<BackendResponse>)
    requires
        wf(s),
    ensures
        wf(loop_outcome(s, inputs).0),
    decreases inputs.len(),
{
    if s.exit || inputs.len() == 0 {
    } else {
        match inputs[0] {
            BackendResponse::Timeout => {
                lemma_loop_preserves_bounds(s, inputs.drop_first());
            },
            BackendResponse::Ready(ev) => {
                crate::state::lemma_step_preserves_bounds(s, ev);
                lemma_loop_preserves_bounds(step(s, ev).0, inputs.drop_first());
            },
            BackendResponse::Failure => {
            },
        }
    }
}

/// The termination flag is monotonic across whole runs: once set, no
/// script resets it.
pub proof fn lemma_loop_exit_monotone(s: App, inputs: Seq<BackendResponse>)
    requires
        s.exit,
    ensures
        loop_outcome(s, inputs).0.exit,
{
}

} // verus!
