//! The state of the interactive mode, how events change it, and the loop
//! that draws it and waits for the next event until it is told to quit.

use vstd::prelude::*;
use vstd::string::*;
use crate::infrastructure::error::GroundhogError;
use crate::infrastructure::text::{decimal, decimal_string};
use crate::tui::event::{Event, EventHandler, Input, Key, Polled};
use crate::tui::session::{setup_ops, teardown_ops, SessionView, TerminalOp, TerminalSession};

verus! {

/// The state that the interactive mode shows.
pub struct App {
    /// Whether the mode is to end.
    pub should_quit: bool,
    /// The message on display.
    pub message: String,
    /// How often the counter was raised since it was last reset.
    pub counter: u32,
}

/// What an `App` holds.
pub struct AppView {
    pub should_quit: bool,
    pub message: Seq<char>,
    pub counter: u32,
}

impl View for App {
    type V = AppView;

    open spec fn view(&self) -> AppView {
        AppView { should_quit: self.should_quit, message: self.message@, counter: self.counter }
    }
}

/// What the driver of the loop reports: that it starts, how drawing went,
/// or how the poll of the terminal ended.
#[derive(Debug)]
pub enum LoopInput {
    Started,
    Drawn(Result<(), String>),
    Polled(Polled),
}

/// What the driver of the loop does next.
#[derive(Debug)]
pub enum LoopAction {
    /// Draw the state.
    Draw,
    /// Poll the terminal for one tick.
    Poll,
    /// Leave the loop with this result.
    Exit(Result<(), GroundhogError>),
}

/// One iteration of the loop as recorded: how drawing went, and how the
/// poll that followed it ended.
#[derive(Debug)]
pub struct Turn {
    pub drawn: Result<(), String>,
    pub polled: Polled,
}

/// How a run of the loop ended.
pub enum LoopEnd {
    /// The quit flag was set.
    Quit,
    /// Drawing or polling failed with this message.
    Failed(Seq<char>),
    /// The record ended before the loop did.
    Pending,
}

/// A run of the loop: the state it ended in, how often it drew (a draw
/// that failed counts), and how it ended.
pub struct LoopTrace {
    pub state: AppView,
    pub draws: nat,
    pub end: LoopEnd,
}

/// What a run of the loop over a record reports.
#[derive(Debug)]
pub struct LoopReport {
    /// How often the state was drawn; a draw that failed counts.
    pub draws: usize,
    /// The result of the loop; `None` where the record ended before the
    /// loop did.
    pub result: Option<Result<(), GroundhogError>>,
}

impl App {
    /// The state in which the interactive mode starts.
    pub open spec fn initial() -> AppView {
        AppView { should_quit: false, message: "Hello, Groundhog! 🐹"@, counter: 0 }
    }

    /// Whether `event` raises the counter.
    pub open spec fn raises_counter(event: Event) -> bool {
        event == Event::Key(Key::Char(' '))
    }

    /// The state after `event`: `q` sets the quit flag; the space bar
    /// raises the counter by one and shows it; `r` resets the counter and
    /// says so; every other event leaves the state as it is.
    pub open spec fn after(state: AppView, event: Event) -> AppView {
        match event {
            Event::Key(Key::Char(key)) => if key == 'q' {
                AppView { should_quit: true, ..state }
            } else if key == ' ' {
                AppView {
                    counter: (state.counter + 1) as u32,
                    message: "Counter: "@ + decimal((state.counter + 1) as nat)
                        + " (Press 'q' to quit, Space to increment)"@,
                    ..state
                }
            } else if key == 'r' {
                AppView { counter: 0, message: "Counter reset! 🐹"@, ..state }
            } else {
                state
            },
            _ => state,
        }
    }

    /// Whether `action` and the state `after` are what follows when the
    /// driver reports `input` in the state `before`: at the start the
    /// state is drawn; after a draw the terminal is polled; after a poll
    /// its event is applied, and the loop ends if the quit flag is set and
    /// draws again if not; a failed draw or poll ends the loop at once
    /// with a terminal error.
    pub open spec fn is_step(
        before: AppView,
        input: LoopInput,
        after: AppView,
        action: LoopAction,
    ) -> bool {
        match input {
            LoopInput::Started => after == before && action is Draw,
            LoopInput::Drawn(Ok(_)) => after == before && action is Poll,
            LoopInput::Drawn(Err(message)) => after == before && App::is_failure(action, message@),
            LoopInput::Polled(Polled::Failed(message)) => after == before && App::is_failure(
                action,
                message@,
            ),
            LoopInput::Polled(polled) => after == App::after(
                before,
                EventHandler::event_of(polled),
            ) && if after.should_quit {
                action matches LoopAction::Exit(Ok(_))
            } else {
                action is Draw
            },
        }
    }

    /// Whether `action` leaves the loop with a terminal error of this
    /// message.
    pub open spec fn is_failure(action: LoopAction, message: Seq<char>) -> bool {
        action matches LoopAction::Exit(Err(GroundhogError::TUIError(detail))) && detail@
            == message
    }

    /// The run of the loop from `state` over the turns from `at` on: each
    /// turn draws once; a failed draw or poll ends the run with the state
    /// unchanged; else the event of the poll is applied, and the run ends
    /// if the quit flag is set; no turn after the end is looked at.
    pub open spec fn replay_from(state: AppView, turns: Seq<Turn>, at: int) -> LoopTrace
        decreases turns.len() - at,
    {
        if at < 0 || at >= turns.len() {
            LoopTrace { state, draws: 0, end: LoopEnd::Pending }
        } else {
            match (turns[at].drawn, turns[at].polled) {
                (Err(message), _) => LoopTrace { state, draws: 1, end: LoopEnd::Failed(message@) },
                (_, Polled::Failed(message)) => LoopTrace {
                    state,
                    draws: 1,
                    end: LoopEnd::Failed(message@),
                },
                (_, polled) => {
                    let next = App::after(state, EventHandler::event_of(polled));
                    if next.should_quit {
                        LoopTrace { state: next, draws: 1, end: LoopEnd::Quit }
                    } else {
                        let rest = App::replay_from(next, turns, at + 1);
                        LoopTrace { draws: rest.draws + 1, ..rest }
                    }
                },
            }
        }
    }

    /// The run of the loop from `state` over all of `turns`.
    pub open spec fn replay(state: AppView, turns: Seq<Turn>) -> LoopTrace {
        App::replay_from(state, turns, 0)
    }

    /// Whether the counter stays within its type during the run from
    /// `state` over the turns from `at` on.
    pub open spec fn counter_fits(state: AppView, turns: Seq<Turn>, at: int) -> bool
        decreases turns.len() - at,
    {
        if at < 0 || at >= turns.len() {
            true
        } else {
            match (turns[at].drawn, turns[at].polled) {
                (Err(_), _) => true,
                (_, Polled::Failed(_)) => true,
                (_, polled) => {
                    let event = EventHandler::event_of(polled);
                    let next = App::after(state, event);
                    &&& App::raises_counter(event) ==> state.counter < u32::MAX
                    &&& next.should_quit || App::counter_fits(next, turns, at + 1)
                },
            }
        }
    }

    /// Whether `result` reports the end `end` of a run.
    pub open spec fn is_result(end: LoopEnd, result: Option<Result<(), GroundhogError>>) -> bool {
        match end {
            LoopEnd::Quit => result matches Some(Ok(_)),
            LoopEnd::Failed(message) => result matches Some(
                Err(GroundhogError::TUIError(detail)),
            ) && detail@ == message,
            LoopEnd::Pending => result is None,
        }
    }

    /// The state in which the interactive mode starts.
    pub fn new() -> (app: Self)
        ensures
            app@ == App::initial(),
    {
        Self {
            should_quit: false,
            message: String::from_str("Hello, Groundhog! 🐹"),
            counter: 0,
        }
    }

    /// Applies `event` to the state.
    pub fn handle_event(&mut self, event: Event)
        requires
            App::raises_counter(event) ==> old(self).counter < u32::MAX,
        ensures
            final(self)@ == App::after(old(self)@, event),
    {
        match event {
            Event::Key(Key::Char(key)) => {
                if key == 'q' {
                    self.should_quit = true;
                } else if key == ' ' {
                    self.counter = self.counter + 1;
                    let number = decimal_string(self.counter as u64);
                    let mut message = String::from_str("Counter: ");
                    message.append(number.as_str());
                    message.append(" (Press 'q' to quit, Space to increment)");
                    self.message = message;
                } else if key == 'r' {
                    self.counter = 0;
                    self.message = String::from_str("Counter reset! 🐹");
                }
            },
            _ => {},
        }
    }

    /// Takes what the driver of the loop reports, changes the state by it
    /// and says what the driver does next.
    pub fn next_action(&mut self, input: LoopInput) -> (action: LoopAction)
        requires
            input matches LoopInput::Polled(polled) && !(polled is Failed) && App::raises_counter(
                EventHandler::event_of(polled),
            ) ==> old(self).counter < u32::MAX,
        ensures
            App::is_step(old(self)@, input, final(self)@, action),
    {
        match input {
            LoopInput::Started => LoopAction::Draw,
            LoopInput::Drawn(Ok(_)) => LoopAction::Poll,
            LoopInput::Drawn(Err(message)) => LoopAction::Exit(
                Err(GroundhogError::TUIError(message)),
            ),
            LoopInput::Polled(polled) => {
                match EventHandler::decode(polled) {
                    Err(error) => LoopAction::Exit(Err(error)),
                    Ok(event) => {
                        self.handle_event(event);
                        if self.should_quit {
                            LoopAction::Exit(Ok(()))
                        } else {
                            LoopAction::Draw
                        }
                    },
                }
            },
        }
    }
}

impl Turn {
    /// What the driver reports after the draw of this turn.
    fn drawn_input(&self) -> (input: LoopInput)
        ensures
            input == LoopInput::Drawn(self.drawn),
    {
        match &self.drawn {
            Ok(done) => LoopInput::Drawn(Ok(*done)),
            Err(message) => LoopInput::Drawn(Err(message.clone())),
        }
    }

    /// What the driver reports after the poll of this turn.
    fn polled_input(&self) -> (input: LoopInput)
        ensures
            input == LoopInput::Polled(self.polled),
    {
        match &self.polled {
            Polled::Idle => LoopInput::Polled(Polled::Idle),
            Polled::Ready(input) => LoopInput::Polled(Polled::Ready(*input)),
            Polled::Failed(message) => LoopInput::Polled(Polled::Failed(message.clone())),
        }
    }
}

impl App {
    /// Runs the loop over a record of its turns: draws, takes the event of
    /// the poll and applies it, turn by turn, until the quit flag is set,
    /// a draw or a poll fails, or the record ends.
    pub fn run_loop(&mut self, turns: &Vec<Turn>) -> (report: LoopReport)
        requires
            App::counter_fits(old(self)@, turns@, 0),
        ensures
            final(self)@ == App::replay(old(self)@, turns@).state,
            report.draws == App::replay(old(self)@, turns@).draws,
            App::is_result(App::replay(old(self)@, turns@).end, report.result),
    {
        let mut at: usize = 0;
        while at < turns.len()
            invariant
                at <= turns.len(),
                App::counter_fits(self@, turns@, at as int),
                App::replay(old(self)@, turns@).state == App::replay_from(
                    self@,
                    turns@,
                    at as int,
                ).state,
                App::replay(old(self)@, turns@).end == App::replay_from(
                    self@,
                    turns@,
                    at as int,
                ).end,
                App::replay(old(self)@, turns@).draws == at + App::replay_from(
                    self@,
                    turns@,
                    at as int,
                ).draws,
            decreases turns.len() - at,
        {
            let turn = &turns[at];
            if let LoopAction::Exit(result) = self.next_action(turn.drawn_input()) {
                return LoopReport { draws: at + 1, result: Some(result) };
            }
            if let LoopAction::Exit(result) = self.next_action(turn.polled_input()) {
                return LoopReport { draws: at + 1, result: Some(result) };
            }
            at = at + 1;
        }
        LoopReport { draws: at, result: None }
    }
}

impl Turn {
    /// Whether the turn draws, polls without failure, and its event is
    /// none of the three keys that change the state.
    pub open spec fn is_passive(&self) -> bool {
        &&& self.drawn is Ok
        &&& !(self.polled is Failed)
        &&& App::is_passive(EventHandler::event_of(self.polled))
    }

    /// Whether the turn draws and its poll delivers the key `q`.
    pub open spec fn is_quit(&self) -> bool {
        &&& self.drawn is Ok
        &&& self.polled == Polled::Ready(Input::Key(Key::Char('q')))
    }
}

impl App {
    /// Whether `event` is none of the three keys that change the state.
    pub open spec fn is_passive(event: Event) -> bool {
        &&& event != Event::Key(Key::Char('q'))
        &&& event != Event::Key(Key::Char(' '))
        &&& event != Event::Key(Key::Char('r'))
    }

    /// Ticks, resizes, pointer events and all keys but `q`, the space bar
    /// and `r` leave the state as it is.
    pub proof fn passive_events_change_nothing(state: AppView, event: Event)
        requires
            App::is_passive(event),
        ensures
            App::after(state, event) == state,
    {
    }

    /// An event changes the counter by at most one step up, and never
    /// clears the quit flag.
    pub proof fn events_move_counter_by_one(state: AppView, event: Event)
        requires
            App::raises_counter(event) ==> state.counter < u32::MAX,
        ensures
            App::after(state, event).counter <= state.counter + 1,
            state.should_quit ==> App::after(state, event).should_quit,
    {
    }

    /// A run draws once per turn it takes, and takes no turn after its
    /// end: the record is used up exactly where the run is still pending.
    pub proof fn run_draws_once_per_turn(state: AppView, turns: Seq<Turn>, at: int)
        requires
            0 <= at <= turns.len(),
        ensures
            App::replay_from(state, turns, at).draws <= turns.len() - at,
            App::replay_from(state, turns, at).end is Pending ==> App::replay_from(
                state,
                turns,
                at,
            ).draws == turns.len() - at,
            !(App::replay_from(state, turns, at).end is Pending) ==> App::replay_from(
                state,
                turns,
                at,
            ).draws >= 1,
        decreases turns.len() - at,
    {
        if at < turns.len() {
            let next = App::after(state, EventHandler::event_of(turns[at].polled));
            App::run_draws_once_per_turn(next, turns, at + 1);
        }
    }

    /// Whether `other` reaches up to `to` and has the turns of `turns`
    /// from `from` up to, and without, `to`.
    pub open spec fn same_turns(turns: Seq<Turn>, other: Seq<Turn>, from: int, to: int) -> bool {
        &&& to <= other.len()
        &&& forall|i: int| from <= i < to ==> #[trigger] other[i] == turns[i]
    }

    /// What follows the end of a run has no part in it: a record that
    /// agrees with `turns` on the turns that the run took gives the same
    /// run.
    pub proof fn run_ignores_turns_after_its_end(
        state: AppView,
        turns: Seq<Turn>,
        other: Seq<Turn>,
        at: int,
    )
        requires
            0 <= at <= turns.len(),
            !(App::replay_from(state, turns, at).end is Pending),
            App::same_turns(turns, other, at, at + App::replay_from(state, turns, at).draws),
        ensures
            App::replay_from(state, other, at) == App::replay_from(state, turns, at),
        decreases turns.len() - at,
    {
        App::run_draws_once_per_turn(state, turns, at);
        if at < turns.len() {
            assert(other[at] == turns[at]);
            let next = App::after(state, EventHandler::event_of(turns[at].polled));
            if turns[at].drawn is Ok && !(turns[at].polled is Failed) && !next.should_quit {
                let rest = App::replay_from(next, turns, at + 1);
                assert(App::replay_from(state, turns, at).draws == rest.draws + 1);

                App::run_ignores_turns_after_its_end(next, turns, other, at + 1);
            }
        }
    }

    /// Passive turns followed by the quit key: the run ends by quitting
    /// at that turn, has drawn once for each turn up to it, and has
    /// changed nothing of the state but the quit flag.
    pub proof fn passive_turns_then_quit(state: AppView, turns: Seq<Turn>, at: int, last: int)
        requires
            0 <= at <= last < turns.len(),
            !state.should_quit,
            forall|i: int| at <= i < last ==> turns[i].is_passive(),
            turns[last].is_quit(),
        ensures
            App::replay_from(state, turns, at) == (LoopTrace {
                state: AppView { should_quit: true, ..state },
                draws: (last - at + 1) as nat,
                end: LoopEnd::Quit,
            }),
        decreases last - at,
    {
        if at < last {
            assert(turns[at].is_passive());
            App::passive_turns_then_quit(state, turns, at + 1, last);
        }
    }

    /// The counter stays within its type where it can still be raised
    /// once for every turn of the record.
    pub proof fn counter_fits_short_records(state: AppView, turns: Seq<Turn>, at: int)
        requires
            0 <= at <= turns.len(),
            state.counter + (turns.len() - at) <= u32::MAX,
        ensures
            App::counter_fits(state, turns, at),
        decreases turns.len() - at,
    {
        if at < turns.len() {
            let event = EventHandler::event_of(turns[at].polled);
            App::events_move_counter_by_one(state, event);
            App::counter_fits_short_records(App::after(state, event), turns, at + 1);
        }
    }
}

/// A whole interactive session as recorded: how the calls of setup and of
/// unwinding went, the turns of the loop, and how the calls of the release
/// went.
#[derive(Debug)]
pub struct SessionRecord {
    pub setup: Vec<Result<(), String>>,
    pub turns: Vec<Turn>,
    pub teardown: Vec<Result<(), String>>,
}

/// A whole interactive session: the state it ended in, the calls to the
/// terminal in their order, how often it drew, and how it ended.
pub struct RunTrace {
    pub state: AppView,
    pub ops: Seq<TerminalOp>,
    pub draws: nat,
    pub end: LoopEnd,
}

/// What a whole interactive session over a record reports.
#[derive(Debug)]
pub struct RunReport {
    /// The calls to the terminal, in the order in which they were made.
    pub ops: Vec<TerminalOp>,
    /// How often the state was drawn; a draw that failed counts.
    pub draws: usize,
    /// The result of the session; `None` where the record ended before the
    /// loop did.
    pub result: Option<Result<(), GroundhogError>>,
}

impl App {
    /// The interactive session from `state` over a record. The terminal
    /// is entered; where that fails, the session ends with the failure of
    /// setup and the loop does not run. Else the loop runs, and when it
    /// has ended the terminal is released, whether the loop failed or
    /// not; a failure of the release is the result, before that of the
    /// loop. Where the record ends before the loop does, the terminal is
    /// still held.
    pub open spec fn session_trace(
        state: AppView,
        setup: Seq<Result<(), String>>,
        turns: Seq<Turn>,
        teardown: Seq<Result<(), String>>,
    ) -> RunTrace {
        let entered = SessionView::fresh().driven(setup, 0);
        let run = App::replay(state, turns);
        let left = entered.session.released().driven(teardown, 0);
        match entered.session.failure {
            Some(message) => RunTrace {
                state,
                ops: entered.ops,
                draws: 0,
                end: LoopEnd::Failed(message),
            },
            None => if run.end is Pending {
                RunTrace { state: run.state, ops: entered.ops, draws: run.draws, end: run.end }
            } else {
                RunTrace {
                    state: run.state,
                    ops: entered.ops + left.ops,
                    draws: run.draws,
                    end: match left.session.failure {
                        Some(message) => LoopEnd::Failed(message),
                        None => run.end,
                    },
                }
            },
        }
    }

    /// Runs a whole interactive session over its record: enters the
    /// terminal, runs the loop, and releases the terminal.
    pub fn run(&mut self, record: &SessionRecord) -> (report: RunReport)
        requires
            SessionView::failed_step(record.setup@) is None ==> App::counter_fits(
                old(self)@,
                record.turns@,
                0,
            ),
        ensures
            final(self)@ == App::session_trace(
                old(self)@,
                record.setup@,
                record.turns@,
                record.teardown@,
            ).state,
            report.ops@ == App::session_trace(
                old(self)@,
                record.setup@,
                record.turns@,
                record.teardown@,
            ).ops,
            report.draws == App::session_trace(
                old(self)@,
                record.setup@,
                record.turns@,
                record.teardown@,
            ).draws,
            App::is_result(
                App::session_trace(
                    old(self)@,
                    record.setup@,
                    record.turns@,
                    record.teardown@,
                ).end,
                report.result,
            ),
    {
        let mut session = TerminalSession::new();
        proof {
            SessionView::entering_takes_all_or_nothing(record.setup@);
        }
        let mut ops = session.drive(&record.setup);
        if let Err(error) = session.result() {
            return RunReport { ops, draws: 0, result: Some(Err(error)) };
        }
        let looped = self.run_loop(&record.turns);
        match looped.result {
            None => RunReport { ops, draws: looped.draws, result: None },
            Some(result) => {
                session.release();
                let mut undone = session.drive(&record.teardown);
                ops.append(&mut undone);
                let released = session.result();
                match released {
                    Err(error) => RunReport { ops, draws: looped.draws, result: Some(Err(error)) },
                    Ok(_) => RunReport { ops, draws: looped.draws, result: Some(result) },
                }
            },
        }
    }

    /// However a session ends, the terminal is given back: the calls of
    /// a session that has ended are the steps of setup up to the first
    /// that failed, or all three, followed by the undoing of every step
    /// that had succeeded, the last first.
    pub proof fn ended_session_restores_terminal(
        state: AppView,
        setup: Seq<Result<(), String>>,
        turns: Seq<Turn>,
        teardown: Seq<Result<(), String>>,
    )
        requires
            !(App::session_trace(state, setup, turns, teardown).end is Pending),
        ensures
            App::session_trace(state, setup, turns, teardown).ops == match SessionView::failed_step(
                setup,
            ) {
                Some(step) => setup_ops().take(step + 1) + teardown_ops(step),
                None => setup_ops() + teardown_ops(3),
            },
    {
        SessionView::entering_takes_all_or_nothing(setup);
        let entered = SessionView::fresh().driven(setup, 0);
        if entered.session.phase is Entered {
            entered.session.releasing_undoes_every_step(teardown);
        }
    }

    /// A session whose setup fails neither draws nor polls nor changes the
    /// state, whatever its turns hold: it makes the steps of setup up to
    /// the one that failed, undoes every step that had succeeded, the last
    /// first, and ends with the failure of setup.
    pub proof fn failed_setup_skips_the_loop(
        state: AppView,
        setup: Seq<Result<(), String>>,
        turns: Seq<Turn>,
        teardown: Seq<Result<(), String>>,
    )
        requires
            SessionView::failed_step(setup) is Some,
        ensures
            App::session_trace(state, setup, turns, teardown).state == state,
            App::session_trace(state, setup, turns, teardown).draws == 0,
            App::session_trace(state, setup, turns, teardown).end == LoopEnd::Failed(
                SessionView::failure_of(setup, SessionView::failed_step(setup).unwrap()),
            ),
            App::session_trace(state, setup, turns, teardown).ops == setup_ops().take(
                SessionView::failed_step(setup).unwrap() + 1,
            ) + teardown_ops(SessionView::failed_step(setup).unwrap()),
    {
        SessionView::entering_takes_all_or_nothing(setup);
    }
}

} // verus!
