//! The session that holds the terminal: it is entered step by step, every
//! step that was taken is undone in reverse when a later one fails or when
//! the session is released, and so the terminal is never left half
//! acquired.

use vstd::prelude::*;
use vstd::string::*;
use crate::infrastructure::error::GroundhogError;

verus! {

/// One call to the terminal.
#[derive(Debug, Clone, Copy, PartialEq, Eq, Structural)]
pub enum TerminalOp {
    /// Switch the input to raw mode.
    EnableRawMode,
    /// Switch to the alternate screen, with the pointer captured.
    EnterAlternateScreen,
    /// Set up the backend that draws.
    CreateBackend,
    /// Make the text cursor visible again.
    ShowCursor,
    /// Switch back to the primary screen, and let the pointer go.
    LeaveAlternateScreen,
    /// Switch the input back to line-buffered mode.
    DisableRawMode,
}

/// How much of the terminal the session holds.
#[derive(Debug, Clone, Copy, PartialEq, Eq, Structural)]
pub enum SessionState {
    Inactive,
    RawModeEntered,
    AlternateScreenEntered,
    Active,
}

/// What the session is doing.
#[derive(Debug, Clone, Copy, PartialEq, Eq, Structural)]
pub enum SessionPhase {
    /// Taking the steps of setup.
    Entering,
    /// Undoing the steps taken, after one of setup failed.
    Unwinding,
    /// Holding the terminal.
    Entered,
    /// Undoing the steps of setup on release.
    Releasing,
    /// Done: nothing is held.
    Closed,
}

/// The steps of setup, in their order.
pub open spec fn setup_ops() -> Seq<TerminalOp> {
    seq![TerminalOp::EnableRawMode, TerminalOp::EnterAlternateScreen, TerminalOp::CreateBackend]
}

/// The call that undoes a step of setup.
pub open spec fn undo_of(op: TerminalOp) -> TerminalOp {
    match op {
        TerminalOp::EnableRawMode => TerminalOp::DisableRawMode,
        TerminalOp::EnterAlternateScreen => TerminalOp::LeaveAlternateScreen,
        _ => TerminalOp::ShowCursor,
    }
}

/// The calls that undo the first `held` steps of setup: the undoing of
/// each, the last step first.
pub open spec fn teardown_ops(held: int) -> Seq<TerminalOp>
    recommends
        0 <= held <= 3,
{
    Seq::new(held as nat, |i: int| undo_of(setup_ops()[held - 1 - i]))
}

/// The session that holds the terminal.
#[derive(Debug)]
pub struct TerminalSession {
    phase: SessionPhase,
    held: u8,
    failure: Option<String>,
}

/// What a `TerminalSession` holds.
pub struct SessionView {
    /// What the session is doing.
    pub phase: SessionPhase,
    /// How many steps of setup are taken and not undone.
    pub held: int,
    /// The message of the first call that failed and counts: a step of
    /// setup, or a call of the release.
    pub failure: Option<Seq<char>>,
}

/// A run of the session over a record: the session it ended in, and the
/// calls it made.
pub struct SessionTrace {
    pub session: SessionView,
    pub ops: Seq<TerminalOp>,
}

impl View for TerminalSession {
    type V = SessionView;

    closed spec fn view(&self) -> SessionView {
        SessionView {
            phase: self.phase,
            held: self.held as int,
            failure: match self.failure {
                Some(message) => Some(message@),
                None => None,
            },
        }
    }
}

impl SessionView {
    /// The session that has taken no step yet.
    pub open spec fn fresh() -> SessionView {
        SessionView { phase: SessionPhase::Entering, held: 0, failure: None }
    }

    /// What holds of every session: it holds at most the three steps of
    /// setup; while entering, one is still to take and none has failed;
    /// once entered it holds all three and none has failed; it unwinds
    /// only after a failure; once closed it holds nothing.
    pub open spec fn well_formed(self) -> bool {
        &&& 0 <= self.held <= 3
        &&& self.phase is Entering ==> self.held < 3 && self.failure is None
        &&& self.phase is Entered ==> self.held == 3 && self.failure is None
        &&& self.phase is Unwinding ==> 0 < self.held < 3 && self.failure is Some
        &&& self.phase is Releasing ==> 0 < self.held
        &&& self.phase is Closed ==> self.held == 0
    }

    /// How much of the terminal the session holds.
    pub open spec fn state(self) -> SessionState {
        if self.held <= 0 {
            SessionState::Inactive
        } else if self.held == 1 {
            SessionState::RawModeEntered
        } else if self.held == 2 {
            SessionState::AlternateScreenEntered
        } else {
            SessionState::Active
        }
    }

    /// The call that the session asks for: while it enters, the next step
    /// of setup; while it unwinds or releases, the undoing of the last
    /// step it holds; none while it holds the terminal or is closed.
    pub open spec fn pending_op(self) -> Option<TerminalOp> {
        match self.phase {
            SessionPhase::Entering => Some(setup_ops()[self.held]),
            SessionPhase::Unwinding | SessionPhase::Releasing => Some(
                undo_of(setup_ops()[self.held - 1]),
            ),
            _ => None,
        }
    }

    /// The session after the outcome of the call it asked for. A step of
    /// setup that succeeded is held, and with the third the session is
    /// entered; one that failed is the failure of the session, which then
    /// unwinds what it holds, or is closed if it holds nothing. A call
    /// that undoes a step lets go of that step whatever its outcome, and
    /// closes the session when it was the last; its failure is kept if it
    /// is the first of a release. Where no call was asked for, nothing
    /// changes.
    pub open spec fn recorded(self, outcome: Result<(), String>) -> SessionView {
        match self.phase {
            SessionPhase::Entering => match outcome {
                Ok(_) => SessionView {
                    held: self.held + 1,
                    phase: if self.held == 2 {
                        SessionPhase::Entered
                    } else {
                        SessionPhase::Entering
                    },
                    ..self
                },
                Err(message) => SessionView {
                    failure: Some(message@),
                    phase: if self.held == 0 {
                        SessionPhase::Closed
                    } else {
                        SessionPhase::Unwinding
                    },
                    ..self
                },
            },
            SessionPhase::Unwinding => SessionView {
                held: self.held - 1,
                phase: if self.held == 1 {
                    SessionPhase::Closed
                } else {
                    SessionPhase::Unwinding
                },
                ..self
            },
            SessionPhase::Releasing => SessionView {
                held: self.held - 1,
                phase: if self.held == 1 {
                    SessionPhase::Closed
                } else {
                    SessionPhase::Releasing
                },
                failure: match (self.failure, outcome) {
                    (None, Err(message)) => Some(message@),
                    (kept, _) => kept,
                },
            },
            _ => self,
        }
    }

    /// The session after the release has begun: one that holds anything
    /// undoes it, step by step; one that holds nothing is closed.
    pub open spec fn released(self) -> SessionView {
        SessionView {
            phase: if self.held == 0 {
                SessionPhase::Closed
            } else if self.phase is Unwinding {
                SessionPhase::Unwinding
            } else {
                SessionPhase::Releasing
            },
            ..self
        }
    }

    /// How many calls the session can still ask for, at most.
    pub open spec fn calls_left(self) -> int {
        match self.phase {
            SessionPhase::Entering => 6 - self.held,
            SessionPhase::Unwinding | SessionPhase::Releasing => self.held,
            _ => 0,
        }
    }

    /// The outcome that the record holds for the call number `at`; a call
    /// that the record does not reach succeeds.
    pub open spec fn outcome_at(outcomes: Seq<Result<(), String>>, at: int) -> Result<(), String> {
        if 0 <= at < outcomes.len() {
            outcomes[at]
        } else {
            Ok(())
        }
    }

    /// The run of the session over the record from call number `at` on:
    /// as long as the session asks for a call, the call is made and its
    /// outcome taken from the record.
    pub open spec fn driven(self, outcomes: Seq<Result<(), String>>, at: int) -> SessionTrace
        recommends
            self.well_formed(),
        decreases self.calls_left(),
        when self.well_formed()
    {
        match self.pending_op() {
            None => SessionTrace { session: self, ops: Seq::empty() },
            Some(op) => {
                let rest = self.recorded(SessionView::outcome_at(outcomes, at)).driven(
                    outcomes,
                    at + 1,
                );
                SessionTrace { ops: seq![op] + rest.ops, ..rest }
            },
        }
    }

    /// The first of the three steps of setup that fails by the record.
    pub open spec fn failed_step(outcomes: Seq<Result<(), String>>) -> Option<int> {
        if SessionView::outcome_at(outcomes, 0) is Err {
            Some(0)
        } else if SessionView::outcome_at(outcomes, 1) is Err {
            Some(1)
        } else if SessionView::outcome_at(outcomes, 2) is Err {
            Some(2)
        } else {
            None
        }
    }
}

impl TerminalSession {
    /// A session that has taken no step yet.
    pub fn new() -> (session: Self)
        ensures
            session@ == SessionView::fresh(),
    {
        Self { phase: SessionPhase::Entering, held: 0, failure: None }
    }

    /// Returns how much of the terminal the session holds.
    pub fn state(&self) -> (state: SessionState)
        ensures
            state == self@.state(),
    {
        if self.held == 0 {
            SessionState::Inactive
        } else if self.held == 1 {
            SessionState::RawModeEntered
        } else if self.held == 2 {
            SessionState::AlternateScreenEntered
        } else {
            SessionState::Active
        }
    }

    /// Whether the session holds the terminal, all steps taken.
    pub fn is_active(&self) -> (active: bool)
        ensures
            active == (self@.phase is Entered),
    {
        match self.phase {
            SessionPhase::Entered => true,
            _ => false,
        }
    }

    /// Returns the call to make now, if there is one.
    pub fn next_op(&self) -> (op: Option<TerminalOp>)
        requires
            self@.well_formed(),
        ensures
            op == self@.pending_op(),
    {
        match self.phase {
            SessionPhase::Entering => Some(setup_op(self.held)),
            SessionPhase::Unwinding | SessionPhase::Releasing => Some(teardown_op(self.held)),
            _ => None,
        }
    }

    /// Takes the outcome of the call that `next_op` asked for.
    pub fn record(&mut self, outcome: Result<(), String>)
        requires
            old(self)@.well_formed(),
        ensures
            final(self)@ == old(self)@.recorded(outcome),
            final(self)@.well_formed(),
    {
        match self.phase {
            SessionPhase::Entering => match outcome {
                Ok(_) => {
                    self.held = self.held + 1;
                    if self.held == 3 {
                        self.phase = SessionPhase::Entered;
                    }
                },
                Err(message) => {
                    self.failure = Some(message);
                    if self.held == 0 {
                        self.phase = SessionPhase::Closed;
                    } else {
                        self.phase = SessionPhase::Unwinding;
                    }
                },
            },
            SessionPhase::Unwinding => {
                self.held = self.held - 1;
                if self.held == 0 {
                    self.phase = SessionPhase::Closed;
                }
            },
            SessionPhase::Releasing => {
                if let Err(message) = outcome {
                    if self.failure.is_none() {
                        self.failure = Some(message);
                    }
                }
                self.held = self.held - 1;
                if self.held == 0 {
                    self.phase = SessionPhase::Closed;
                }
            },
            _ => {},
        }
    }

    /// Begins the release of the terminal.
    pub fn release(&mut self)
        requires
            old(self)@.well_formed(),
        ensures
            final(self)@ == old(self)@.released(),
            final(self)@.well_formed(),
    {
        if self.held == 0 {
            self.phase = SessionPhase::Closed;
        } else {
            match self.phase {
                SessionPhase::Unwinding => {},
                _ => {
                    self.phase = SessionPhase::Releasing;
                },
            }
        }
    }

    /// Returns the result of the session so far: the terminal error of its
    /// failure, if it has one.
    pub fn result(&self) -> (result: Result<(), GroundhogError>)
        ensures
            match self@.failure {
                Some(message) => result matches Err(GroundhogError::TUIError(detail)) && detail@
                    == message,
                None => result is Ok,
            },
    {
        match &self.failure {
            Some(message) => Err(GroundhogError::TUIError(message.clone())),
            None => Ok(()),
        }
    }

    /// Runs the session over a record of how its calls went: as long as
    /// the session asks for a call, the call counts as made, and its
    /// outcome is the next of `outcomes`, or success where the record has
    /// ended. Returns the calls in the order in which they were made.
    pub fn drive(&mut self, outcomes: &Vec<Result<(), String>>) -> (ops: Vec<TerminalOp>)
        requires
            old(self)@.well_formed(),
        ensures
            final(self)@ == old(self)@.driven(outcomes@, 0).session,
            ops@ == old(self)@.driven(outcomes@, 0).ops,
            final(self)@.well_formed(),
            final(self)@.pending_op() is None,
    {
        let mut ops: Vec<TerminalOp> = Vec::new();
        let mut at: usize = 0;
        let mut pending = self.next_op();
        while pending.is_some()
            invariant
                self@.well_formed(),
                pending == self@.pending_op(),
                at == ops.len(),
                at + self@.calls_left() <= 6,
                old(self)@.well_formed(),
                old(self)@.driven(outcomes@, 0).session == self@.driven(outcomes@, at as int).session,
                old(self)@.driven(outcomes@, 0).ops == ops@ + self@.driven(
                    outcomes@,
                    at as int,
                ).ops,
            decreases self@.calls_left(),
        {
            let op = pending.unwrap();
            let outcome = outcome_at(outcomes, at);
            proof {
                let rest = self@.recorded(outcome).driven(outcomes@, at + 1);
                assert(self@.driven(outcomes@, at as int).ops == seq![op] + rest.ops);
                assert(ops@ + (seq![op] + rest.ops) =~= ops@.push(op) + rest.ops);
            }
            ops.push(op);
            self.record(outcome);
            at = at + 1;
            pending = self.next_op();
        }
        assert(ops@ + Seq::<TerminalOp>::empty() =~= ops@);
        ops
    }
}

/// Copies the outcome that the record holds for the call number `at`.
fn outcome_at(outcomes: &Vec<Result<(), String>>, at: usize) -> (outcome: Result<(), String>)
    ensures
        outcome == SessionView::outcome_at(outcomes@, at as int),
{
    if at < outcomes.len() {
        match &outcomes[at] {
            Ok(done) => Ok(*done),
            Err(message) => Err(message.clone()),
        }
    } else {
        Ok(())
    }
}

/// The step of setup that follows when `held` steps are taken.
fn setup_op(held: u8) -> (op: TerminalOp)
    requires
        held < 3,
    ensures
        op == setup_ops()[held as int],
{
    if held == 0 {
        TerminalOp::EnableRawMode
    } else if held == 1 {
        TerminalOp::EnterAlternateScreen
    } else {
        TerminalOp::CreateBackend
    }
}

/// The call that undoes the last of `held` steps of setup.
fn teardown_op(held: u8) -> (op: TerminalOp)
    requires
        0 < held <= 3,
    ensures
        op == undo_of(setup_ops()[held - 1]),
{
    if held == 1 {
        TerminalOp::DisableRawMode
    } else if held == 2 {
        TerminalOp::LeaveAlternateScreen
    } else {
        TerminalOp::ShowCursor
    }
}

impl SessionView {
    /// The message with which the step `step` of setup failed.
    pub open spec fn failure_of(outcomes: Seq<Result<(), String>>, step: int) -> Seq<char>
        recommends
            SessionView::outcome_at(outcomes, step) is Err,
    {
        match SessionView::outcome_at(outcomes, step) {
            Err(message) => message@,
            Ok(_) => Seq::empty(),
        }
    }

    /// Entering takes all or nothing. Where no step of setup fails, the
    /// three steps are made in order and the session holds the terminal.
    /// Where one fails, the steps up to it are made, then every step that
    /// had succeeded is undone, the last first; the session ends closed,
    /// holding nothing, with the message of the failed step. How the
    /// undoing calls went changes none of this.
    pub proof fn entering_takes_all_or_nothing(outcomes: Seq<Result<(), String>>)
        ensures
            match SessionView::failed_step(outcomes) {
                None => SessionView::fresh().driven(outcomes, 0) == (SessionTrace {
                    session: SessionView {
                        phase: SessionPhase::Entered,
                        held: 3,
                        failure: None,
                    },
                    ops: setup_ops(),
                }),
                Some(step) => SessionView::fresh().driven(outcomes, 0) == (SessionTrace {
                    session: SessionView {
                        phase: SessionPhase::Closed,
                        held: 0,
                        failure: Some(SessionView::failure_of(outcomes, step)),
                    },
                    ops: setup_ops().take(step + 1) + teardown_ops(step),
                }),
            },
    {
        reveal_with_fuel(SessionView::driven, 6);
        let trace = SessionView::fresh().driven(outcomes, 0);
        match SessionView::failed_step(outcomes) {
            None => {
                assert(trace.ops =~= setup_ops());
            },
            Some(step) => {
                assert(trace.ops =~= setup_ops().take(step + 1) + teardown_ops(step));
            },
        }
    }

    /// Releasing lets go of everything: whatever the session holds is
    /// undone, the last step first, and the session ends closed, holding
    /// nothing, also where an undoing call fails.
    pub proof fn releasing_undoes_every_step(self, outcomes: Seq<Result<(), String>>)
        requires
            self.well_formed(),
        ensures
            self.released().driven(outcomes, 0).ops == teardown_ops(self.held),
            self.released().driven(outcomes, 0).session.phase is Closed,
            self.released().driven(outcomes, 0).session.held == 0,
            self.failure is Some ==> self.released().driven(outcomes, 0).session.failure
                == self.failure,
    {
        reveal_with_fuel(SessionView::driven, 4);
        assert(self.released().driven(outcomes, 0).ops =~= teardown_ops(self.held));
    }

    /// A session that asks for no call holds the whole terminal or nothing
    /// of it.
    pub proof fn settled_session_is_active_or_inactive(self)
        requires
            self.well_formed(),
            self.pending_op() is None,
        ensures
            self.state() == SessionState::Active || self.state() == SessionState::Inactive,
            self.state() == SessionState::Active <==> self.phase is Entered,
    {
    }

    /// A run of the session preserves what holds of every session, and
    /// ends with no call asked for.
    pub proof fn driven_session_is_settled(self, outcomes: Seq<Result<(), String>>, at: int)
        requires
            self.well_formed(),
        ensures
            self.driven(outcomes, at).session.well_formed(),
            self.driven(outcomes, at).session.pending_op() is None,
        decreases self.calls_left(),
    {
        if self.pending_op() is Some {
            self.recorded(SessionView::outcome_at(outcomes, at)).driven_session_is_settled(
                outcomes,
                at + 1,
            );
        }
    }
}

} // verus!
