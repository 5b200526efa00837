//! The controller of the watch-mode session. It owns all the state of a
//! session and decides, for each thing that happens (a key, a file change,
//! the end of a test run), what the state becomes. The caller performs the
//! work that the controller cannot do itself: running the tests, sleeping,
//! reading the keyboard and drawing.

use crate::exercise::{outcome_view, Exercise, OutcomeView, TestOutcome};
use crate::input::{Command, POLL_TIMEOUT_MS};
use crate::progress::{
    all_done, count_done, done_count, find_next_incomplete, first_incomplete, is_next_incomplete,
    lemma_done_count_full, lemma_done_count_update, lemma_next_incomplete, next_incomplete,
};
use crate::render::{
    advance_text, complete_text, full_redraw, lemma_complete_crlf_only, lemma_passed_crlf_only,
    lemma_screen_crlf_only, lemma_testing_crlf_only, passed_text, render_advance,
    render_complete, render_passed, render_testing, screen_text, testing_text,
};
use crate::text::{crlf_only, lemma_crlf_only_concat, lemma_raw_line_crlf_only};
use vstd::prelude::*;

verus! {

/// How long the notice of an automatic move stays on screen before the next
/// test starts, in milliseconds.
pub const ADVANCE_PAUSE_MS: u64 = 800;

/// Where the session stands.
#[derive(Debug, Clone, Copy, PartialEq, Eq, Structural)]
pub enum Phase {
    /// A retest of the current exercise is owed and has not begun.
    AwaitingRetest,
    /// The test of the current exercise is running. Nothing else is served
    /// until it returns.
    Retesting,
    /// The last run failed; its output is on display and the session waits
    /// for a key or a file change.
    ShowingFailure,
    /// The last run passed and another exercise is left to do: the notice
    /// of the move to it is on display for a moment.
    ShowingPass,
    /// Every exercise has passed. Only a key that quits means anything now.
    AllComplete,
    /// The session is over.
    Quitting,
}

/// The state of a session as specifications see it.
pub struct SessionModel {
    /// For each exercise, whether it has passed during this session or at
    /// the start of it.
    pub done: Seq<bool>,
    /// The exercise that the session is looking at.
    pub current: int,
    pub phase: Phase,
    /// Whether the hint of the current exercise is shown.
    pub show_hint: bool,
    /// Whether the list of exercises is shown.
    pub show_list: bool,
    /// The outcome of the last test run of the exercise on display, if there
    /// was one. It is dropped when the session turns to another exercise.
    pub outcome: Option<OutcomeView>,
    /// The exercise that passed last: the one that the screens after a pass
    /// are about.
    pub passed_last: int,
}

/// What can happen to a session.
pub enum Event {
    /// The test run that was owed has been started.
    RetestBegun,
    /// The test run has returned.
    TestFinished(OutcomeView),
    /// The pause after a pass is over.
    PauseElapsed,
    /// The user has given a command.
    Key(Command),
    /// The watcher reports that a file has changed.
    FileChanged,
}

/// What the caller is to do after a command.
#[derive(Debug, Clone, Copy, PartialEq, Eq, Structural)]
pub enum Reaction {
    /// Nothing: the command means nothing in this phase.
    Ignore,
    /// Draw the screen again; no test is to be run.
    Redraw,
    /// A retest is owed now.
    Retest,
    /// Leave the session.
    Quit,
}

/// What the session needs from its caller next.
#[derive(Debug, Clone, Copy, PartialEq, Eq, Structural)]
pub enum Action {
    /// Take up the retest that is owed: test the exercise at `index` and
    /// hand the outcome in. Nothing else is served until the test returns.
    RunTest { index: usize },
    /// Hand in the outcome of the test that is running.
    AwaitOutcome,
    /// Leave the notice of the move on screen for `millis` milliseconds,
    /// then say that the pause is over.
    Pause { millis: u64 },
    /// Wait up to `millis` milliseconds for a key, then look whether the
    /// watcher has reported a change.
    WaitForInput { millis: u64 },
    /// Wait up to `millis` milliseconds for a key. File changes and all
    /// keys but those that quit mean nothing any more.
    WaitForQuit { millis: u64 },
    /// Put the terminal back into its normal mode and end.
    Exit,
}

impl SessionModel {
    /// What the session needs from its caller next: a test run as soon as
    /// one is owed, the pause after a pass, a look at keyboard and watcher
    /// while a failure is shown, and the end once the user has quit.
    pub open spec fn action(self) -> Action {
        match self.phase {
            Phase::AwaitingRetest => Action::RunTest { index: self.current as usize },
            Phase::Retesting => Action::AwaitOutcome,
            Phase::ShowingPass => Action::Pause { millis: ADVANCE_PAUSE_MS },
            Phase::ShowingFailure => Action::WaitForInput { millis: POLL_TIMEOUT_MS },
            Phase::AllComplete => Action::WaitForQuit { millis: POLL_TIMEOUT_MS },
            Phase::Quitting => Action::Exit,
        }
    }

    /// What holds of every session: there is at least one exercise, the
    /// current one and the one that passed last are among them, and the
    /// session is complete only if every exercise is done.
    pub open spec fn valid(self) -> bool {
        &&& self.done.len() > 0
        &&& 0 <= self.current < self.done.len()
        &&& 0 <= self.passed_last < self.done.len()
        &&& self.phase == Phase::AllComplete ==> all_done(self.done)
    }

    /// Whether a retest is owed. However many keys and file changes ask for
    /// one, it is owed once.
    pub open spec fn retest_owed(self) -> bool {
        self.phase == Phase::AwaitingRetest
    }

    /// Whether the session serves keys and file changes in full.
    pub open spec fn interactive(self) -> bool {
        self.phase == Phase::AwaitingRetest || self.phase == Phase::ShowingFailure
    }

    /// The session at its start, given which exercises passed the first
    /// quiet probe and the first exercise that did not.
    pub open spec fn initial(probe: Seq<bool>, first: int) -> SessionModel {
        SessionModel {
            done: probe,
            current: first,
            phase: Phase::AwaitingRetest,
            show_hint: false,
            show_list: false,
            outcome: None,
            passed_last: first,
        }
    }

    /// The start of the test run that was owed: both toggles are cleared.
    pub open spec fn begin_retest(self) -> SessionModel {
        if self.phase == Phase::AwaitingRetest {
            SessionModel { phase: Phase::Retesting, show_hint: false, show_list: false, ..self }
        } else {
            self
        }
    }

    /// The return of the test run. A failure is put on display and changes
    /// nothing else. A pass marks the current exercise as done; the session
    /// then moves to the nearest exercise that is not done, forward with
    /// wraparound, or is complete if there is none.
    pub open spec fn finish_retest(self, outcome: OutcomeView) -> SessionModel {
        if self.phase != Phase::Retesting {
            self
        } else if outcome.passed {
            let done = self.done.update(self.current, true);
            match next_incomplete(done, self.current) {
                Some(next) => SessionModel {
                    done,
                    current: next,
                    phase: Phase::ShowingPass,
                    outcome: Some(outcome),
                    passed_last: self.current,
                    ..self
                },
                None => SessionModel {
                    done,
                    phase: Phase::AllComplete,
                    outcome: Some(outcome),
                    passed_last: self.current,
                    ..self
                },
            }
        } else {
            SessionModel { phase: Phase::ShowingFailure, outcome: Some(outcome), ..self }
        }
    }

    /// The end of the pause after a pass: the retest of the exercise that
    /// the session has moved to is owed, and the outcome of the exercise
    /// that passed is dropped with its banner.
    pub open spec fn pause_elapsed(self) -> SessionModel {
        if self.phase == Phase::ShowingPass {
            SessionModel { phase: Phase::AwaitingRetest, outcome: None, ..self }
        } else {
            self
        }
    }

    /// The exercise after the current one, the first following the last.
    pub open spec fn next_index(self) -> int {
        (self.current + 1) % (self.done.len() as int)
    }

    /// The exercise before the current one, the last preceding the first.
    pub open spec fn previous_index(self) -> int {
        if self.current > 0 {
            self.current - 1
        } else {
            self.done.len() - 1
        }
    }

    /// A command of the user. While the session is interactive, quitting
    /// ends it, a toggle flips its flag and nothing else, moving selects a
    /// neighbour, clears both toggles, drops the outcome of the exercise
    /// that is left and owes a retest, and a retest is owed on request. Once every exercise has passed only quitting is
    /// honoured. In every other phase commands are not served.
    pub open spec fn command(self, cmd: Command) -> SessionModel {
        if self.phase == Phase::AllComplete {
            if cmd == Command::Quit {
                SessionModel { phase: Phase::Quitting, ..self }
            } else {
                self
            }
        } else if self.interactive() {
            match cmd {
                Command::Quit => SessionModel { phase: Phase::Quitting, ..self },
                Command::ToggleHint => SessionModel { show_hint: !self.show_hint, ..self },
                Command::ToggleList => SessionModel { show_list: !self.show_list, ..self },
                Command::Next => SessionModel {
                    current: self.next_index(),
                    phase: Phase::AwaitingRetest,
                    show_hint: false,
                    show_list: false,
                    outcome: None,
                    ..self
                },
                Command::Previous => SessionModel {
                    current: self.previous_index(),
                    phase: Phase::AwaitingRetest,
                    show_hint: false,
                    show_list: false,
                    outcome: None,
                    ..self
                },
                Command::Retest => SessionModel { phase: Phase::AwaitingRetest, ..self },
            }
        } else {
            self
        }
    }

    /// What the caller is to do after `cmd` was given in this state.
    pub open spec fn reaction(self, cmd: Command) -> Reaction {
        if self.phase == Phase::AllComplete {
            if cmd == Command::Quit {
                Reaction::Quit
            } else {
                Reaction::Ignore
            }
        } else if self.interactive() {
            match cmd {
                Command::Quit => Reaction::Quit,
                Command::ToggleHint => Reaction::Redraw,
                Command::ToggleList => Reaction::Redraw,
                Command::Next => Reaction::Retest,
                Command::Previous => Reaction::Retest,
                Command::Retest => Reaction::Retest,
            }
        } else {
            Reaction::Ignore
        }
    }

    /// A change on disk, as the watcher reports it after its quiet window:
    /// while the session is interactive a retest of the current exercise is
    /// owed, as if the user had asked for one.
    pub open spec fn file_changed(self) -> SessionModel {
        if self.interactive() {
            SessionModel { phase: Phase::AwaitingRetest, ..self }
        } else {
            self
        }
    }

    /// What the screen shows in this state, for the registry `exercises`:
    /// the idle screen while the session is interactive, the note on the
    /// running test, the banner of the pass with the notice of the move or
    /// with the completion banner, and nothing once the session is over.
    pub open spec fn screen(self, exercises: Seq<Exercise>) -> Seq<char> {
        let done_n = done_count(self.done);
        match self.phase {
            Phase::AwaitingRetest | Phase::ShowingFailure => screen_text(
                exercises,
                self.current,
                done_n,
                self.outcome,
                self.show_hint,
                self.show_list,
                self.done,
            ),
            Phase::Retesting => testing_text(exercises, self.current, done_n),
            Phase::ShowingPass => passed_text(exercises, self.passed_last, done_n) + advance_text(
                exercises[self.current].name@,
            ),
            Phase::AllComplete => passed_text(exercises, self.passed_last, done_n) + complete_text(
                self.done.len(),
            ),
            Phase::Quitting => Seq::empty(),
        }
    }

    /// The state after one event.
    pub open spec fn step(self, event: Event) -> SessionModel {
        match event {
            Event::RetestBegun => self.begin_retest(),
            Event::TestFinished(outcome) => self.finish_retest(outcome),
            Event::PauseElapsed => self.pause_elapsed(),
            Event::Key(cmd) => self.command(cmd),
            Event::FileChanged => self.file_changed(),
        }
    }

    /// The state after a sequence of events, in order.
    pub open spec fn run(self, events: Seq<Event>) -> SessionModel
        decreases events.len(),
    {
        if events.len() == 0 {
            self
        } else {
            self.run(events.drop_last()).step(events.last())
        }
    }
}

/// A copy of `done` in which the exercise at `index` is done.
fn marked_done(done: &Vec<bool>, index: usize) -> (r: Vec<bool>)
    requires
        index < done.len(),
    ensures
        r@ == done@.update(index as int, true),
{
    let mut r: Vec<bool> = Vec::new();
    let mut i: usize = 0;
    while i < done.len()
        invariant
            i <= done.len(),
            index < done.len(),
            r.len() == i,
            forall|j: int| 0 <= j < i ==> r@[j] == (j == index || done@[j]),
        decreases done.len() - i,
    {
        r.push(i == index || done[i]);
        i += 1;
    }
    r
}

/// How the session starts, after every exercise has been probed once.
pub enum Startup {
    /// Every exercise passes already: there is nothing to watch, and the
    /// interactive session is never entered.
    AllComplete { total: usize },
    /// The session begins at the first exercise that does not pass, with a
    /// retest owed.
    Interactive(Session),
}

/// A watch-mode session.
pub struct Session {
    done: Vec<bool>,
    current: usize,
    phase: Phase,
    show_hint: bool,
    show_list: bool,
    outcome: Option<TestOutcome>,
    passed_last: usize,
}

impl View for Session {
    type V = SessionModel;

    closed spec fn view(&self) -> SessionModel {
        SessionModel {
            done: self.done@,
            current: self.current as int,
            phase: self.phase,
            show_hint: self.show_hint,
            show_list: self.show_list,
            outcome: outcome_view(self.outcome),
            passed_last: self.passed_last as int,
        }
    }
}

impl Session {
    #[verifier::type_invariant]
    spec fn well_formed(self) -> bool {
        self@.valid()
    }

    /// Starts a session from the results of the first quiet probe, one per
    /// exercise in registry order.
    pub fn start(probe: Vec<bool>) -> (r: Startup)
        ensures
            match r {
                Startup::AllComplete { total } => all_done(probe@) && total == probe.len(),
                Startup::Interactive(s) => {
                    &&& !all_done(probe@)
                    &&& s@.valid()
                    &&& 0 <= s@.current < probe.len()
                    &&& !probe[s@.current]
                    &&& forall|j: int| 0 <= j < s@.current ==> probe[j]
                    &&& s@ == SessionModel::initial(probe@, s@.current)
                },
            },
    {
        match first_incomplete(probe.as_slice()) {
            None => Startup::AllComplete { total: probe.len() },
            Some(first) => Startup::Interactive(
                Session {
                    done: probe,
                    current: first,
                    phase: Phase::AwaitingRetest,
                    show_hint: false,
                    show_list: false,
                    outcome: None,
                    passed_last: first,
                },
            ),
        }
    }

    /// The phase of the session.
    pub fn phase(&self) -> (p: Phase)
        ensures
            p == self@.phase,
    {
        self.phase
    }

    /// The exercise that the session is looking at.
    pub fn current(&self) -> (i: usize)
        ensures
            i == self@.current,
            i < self@.done.len(),
    {
        proof {
            use_type_invariant(self);
        }
        self.current
    }

    /// The exercise that passed last.
    pub fn passed_last(&self) -> (i: usize)
        ensures
            i == self@.passed_last,
            i < self@.done.len(),
    {
        proof {
            use_type_invariant(self);
        }
        self.passed_last
    }

    /// The number of exercises.
    pub fn total(&self) -> (n: usize)
        ensures
            n == self@.done.len(),
            n > 0,
    {
        proof {
            use_type_invariant(self);
        }
        self.done.len()
    }

    /// Which exercises are done.
    pub fn done(&self) -> (d: &[bool])
        ensures
            d@ == self@.done,
    {
        self.done.as_slice()
    }

    /// Whether the exercise at `index` is done. None is beyond the last.
    pub fn is_done(&self, index: usize) -> (d: bool)
        ensures
            d == (index < self@.done.len() && self@.done[index as int]),
    {
        index < self.done.len() && self.done[index]
    }

    /// How many exercises are done.
    pub fn done_total(&self) -> (n: usize)
        ensures
            n == done_count(self@.done),
            n <= self@.done.len(),
    {
        count_done(self.done.as_slice())
    }

    /// Whether the hint is switched on.
    pub fn show_hint(&self) -> (b: bool)
        ensures
            b == self@.show_hint,
    {
        self.show_hint
    }

    /// Whether the list is switched on.
    pub fn show_list(&self) -> (b: bool)
        ensures
            b == self@.show_list,
    {
        self.show_list
    }

    /// The outcome of the last test run of the exercise on display.
    pub fn last_outcome(&self) -> (o: &Option<TestOutcome>)
        ensures
            outcome_view(*o) == self@.outcome,
    {
        &self.outcome
    }

    /// What the session needs from its caller next.
    pub fn next_action(&self) -> (action: Action)
        ensures
            action == self@.action(),
    {
        proof {
            use_type_invariant(self);
        }
        match self.phase {
            Phase::AwaitingRetest => Action::RunTest { index: self.current },
            Phase::Retesting => Action::AwaitOutcome,
            Phase::ShowingPass => Action::Pause { millis: ADVANCE_PAUSE_MS },
            Phase::ShowingFailure => Action::WaitForInput { millis: POLL_TIMEOUT_MS },
            Phase::AllComplete => Action::WaitForQuit { millis: POLL_TIMEOUT_MS },
            Phase::Quitting => Action::Exit,
        }
    }

    /// Whether a retest is owed.
    pub fn retest_owed(&self) -> (b: bool)
        ensures
            b == self@.retest_owed(),
    {
        self.phase == Phase::AwaitingRetest
    }

    /// Draws the screen of the session in its present state. It is to be
    /// written to the terminal after the screen has been cleared and the
    /// cursor sent home.
    pub fn screen(&self, exercises: &[Exercise]) -> (text: String)
        requires
            exercises.len() == self@.done.len(),
        ensures
            text@ == self@.screen(exercises@),
            crlf_only(text@),
    {
        proof {
            use_type_invariant(self);
        }
        let done_n = count_done(self.done.as_slice());
        let mut text = String::new();
        match self.phase {
            Phase::AwaitingRetest | Phase::ShowingFailure => {
                full_redraw(
                    &mut text,
                    exercises,
                    self.current,
                    done_n,
                    &self.outcome,
                    self.show_hint,
                    self.show_list,
                    self.done.as_slice(),
                );
            },
            Phase::Retesting => {
                render_testing(&mut text, exercises, self.current, done_n);
            },
            Phase::ShowingPass => {
                render_passed(&mut text, exercises, self.passed_last, done_n);
                render_advance(&mut text, exercises[self.current].name.as_str());
            },
            Phase::AllComplete => {
                render_passed(&mut text, exercises, self.passed_last, done_n);
                render_complete(&mut text, self.done.len());
            },
            Phase::Quitting => {},
        }
        proof {
            lemma_session_screen_crlf_only(self@, exercises@);
        }
        text
    }

    /// Takes up the retest that is owed and gives the exercise to test.
    /// Without a retest owed nothing changes.
    pub fn begin_retest(&mut self) -> (index: usize)
        ensures
            final(self)@ == old(self)@.begin_retest(),
            final(self)@.valid(),
            index == old(self)@.current,
            index < old(self)@.done.len(),
    {
        proof {
            use_type_invariant(&*self);
        }
        if self.phase == Phase::AwaitingRetest {
            self.show_hint = false;
            self.show_list = false;
            self.phase = Phase::Retesting;
        }
        self.current
    }

    /// Takes in the outcome of the test run of the current exercise.
    /// Outside a test run nothing changes.
    pub fn finish_retest(&mut self, outcome: TestOutcome)
        ensures
            final(self)@ == old(self)@.finish_retest(outcome@),
            final(self)@.valid(),
    {
        proof {
            use_type_invariant(&*self);
        }
        if self.phase != Phase::Retesting {
            return ;
        }
        if outcome.passed {
            let tested = self.current;
            self.done = marked_done(&self.done, tested);
            let next = find_next_incomplete(self.done.as_slice(), tested);
            self.passed_last = tested;
            self.outcome = Some(outcome);
            match next {
                Some(idx) => {
                    self.current = idx;
                    self.phase = Phase::ShowingPass;
                },
                None => {
                    self.phase = Phase::AllComplete;
                },
            }
        } else {
            self.outcome = Some(outcome);
            self.phase = Phase::ShowingFailure;
        }
    }

    /// Ends the pause after a pass. Outside that pause nothing changes.
    pub fn pause_elapsed(&mut self)
        ensures
            final(self)@ == old(self)@.pause_elapsed(),
            final(self)@.valid(),
    {
        proof {
            use_type_invariant(&*self);
        }
        if self.phase == Phase::ShowingPass {
            self.outcome = None;
            self.phase = Phase::AwaitingRetest;
        }
    }

    /// Serves one command of the user and says what the caller is to do.
    pub fn handle_command(&mut self, cmd: Command) -> (reaction: Reaction)
        ensures
            final(self)@ == old(self)@.command(cmd),
            final(self)@.valid(),
            reaction == old(self)@.reaction(cmd),
    {
        proof {
            use_type_invariant(&*self);
        }
        match self.phase {
            Phase::AllComplete => {
                match cmd {
                    Command::Quit => {
                        self.phase = Phase::Quitting;
                        Reaction::Quit
                    },
                    _ => Reaction::Ignore,
                }
            },
            Phase::AwaitingRetest | Phase::ShowingFailure => {
                match cmd {
                    Command::Quit => {
                        self.phase = Phase::Quitting;
                        Reaction::Quit
                    },
                    Command::ToggleHint => {
                        self.show_hint = !self.show_hint;
                        Reaction::Redraw
                    },
                    Command::ToggleList => {
                        self.show_list = !self.show_list;
                        Reaction::Redraw
                    },
                    Command::Next => {
                        let n = self.done.len();
                        let next = if self.current + 1 < n {
                            self.current + 1
                        } else {
                            0
                        };
                        assert(next == old(self)@.next_index()) by {
                            if self.current + 1 < n {
                                vstd::arithmetic::div_mod::lemma_small_mod(
                                    (self.current + 1) as nat,
                                    n as nat,
                                );
                            } else {
                                vstd::arithmetic::div_mod::lemma_mod_self_0(n as int);
                            }
                        }
                        self.current = next;
                        self.show_hint = false;
                        self.show_list = false;
                        self.outcome = None;
                        self.phase = Phase::AwaitingRetest;
                        Reaction::Retest
                    },
                    Command::Previous => {
                        let previous = if self.current > 0 {
                            self.current - 1
                        } else {
                            self.done.len() - 1
                        };
                        self.current = previous;
                        self.show_hint = false;
                        self.show_list = false;
                        self.outcome = None;
                        self.phase = Phase::AwaitingRetest;
                        Reaction::Retest
                    },
                    Command::Retest => {
                        self.phase = Phase::AwaitingRetest;
                        Reaction::Retest
                    },
                }
            },
            _ => Reaction::Ignore,
        }
    }

    /// Takes in the watcher's report of a change on disk.
    pub fn file_changed(&mut self)
        ensures
            final(self)@ == old(self)@.file_changed(),
            final(self)@.valid(),
    {
        proof {
            use_type_invariant(&*self);
        }
        match self.phase {
            Phase::AwaitingRetest | Phase::ShowingFailure => {
                self.phase = Phase::AwaitingRetest;
            },
            _ => {},
        }
    }
}

/// Whatever happens to a session, it stays a session: the current exercise
/// is one of the exercises, and a complete session has every exercise done.
pub proof fn lemma_step_keeps_valid(m: SessionModel, event: Event)
    requires
        m.valid(),
    ensures
        m.step(event).valid(),
        m.step(event).done.len() == m.done.len(),
{
    match event {
        Event::TestFinished(outcome) => {
            if m.phase == Phase::Retesting && outcome.passed {
                lemma_next_incomplete(m.done.update(m.current, true), m.current);
            }
        },
        Event::Key(cmd) => {
            let n = m.done.len() as int;
            if m.current + 1 < n {
                vstd::arithmetic::div_mod::lemma_small_mod((m.current + 1) as nat, n as nat);
            } else {
                vstd::arithmetic::div_mod::lemma_mod_self_0(n);
            }
        },
        _ => {},
    }
}

/// An exercise that is done stays done, whatever happens next.
pub proof fn lemma_done_stays_done(m: SessionModel, event: Event, i: int)
    requires
        m.valid(),
        0 <= i < m.done.len(),
        m.done[i],
    ensures
        m.step(event).done.len() == m.done.len(),
        m.step(event).done[i],
{
}

/// An exercise that is done stays done for the rest of the session: after
/// any sequence of events.
pub proof fn lemma_done_stays_done_for_good(m: SessionModel, events: Seq<Event>, i: int)
    requires
        m.valid(),
        0 <= i < m.done.len(),
        m.done[i],
    ensures
        m.run(events).valid(),
        m.run(events).done.len() == m.done.len(),
        m.run(events).done[i],
    decreases events.len(),
{
    if events.len() > 0 {
        let before = m.run(events.drop_last());
        lemma_done_stays_done_for_good(m, events.drop_last(), i);
        lemma_step_keeps_valid(before, events.last());
        lemma_done_stays_done(before, events.last(), i);
    }
}

/// After a pass the tested exercise is done, and the session moves to the
/// nearest exercise that is not done, going forward from the tested one and
/// from the last exercise on to the first. If there is none, the session is
/// complete.
pub proof fn lemma_pass_moves_on(m: SessionModel, outcome: OutcomeView)
    requires
        m.valid(),
        m.phase == Phase::Retesting,
        outcome.passed,
    ensures
        ({
            let after = m.finish_retest(outcome);
            &&& after.done == m.done.update(m.current, true)
            &&& after.passed_last == m.current
            &&& if all_done(after.done) {
                after.phase == Phase::AllComplete && after.current == m.current
            } else {
                after.phase == Phase::ShowingPass && is_next_incomplete(
                    after.done,
                    m.current,
                    after.current,
                )
            }
        }),
{
    lemma_next_incomplete(m.done.update(m.current, true), m.current);
}

/// A pass raises the number of done exercises by one, unless the exercise
/// was done before. In a complete session the number is that of all
/// exercises, so that the progress bar is full.
pub proof fn lemma_pass_counts(m: SessionModel, outcome: OutcomeView)
    requires
        m.valid(),
        m.phase == Phase::Retesting,
        outcome.passed,
    ensures
        done_count(m.finish_retest(outcome).done) == done_count(m.done) + if m.done[m.current] {
            0nat
        } else {
            1nat
        },
        m.finish_retest(outcome).phase == Phase::AllComplete ==> done_count(
            m.finish_retest(outcome).done,
        ) == m.done.len(),
{
    lemma_pass_moves_on(m, outcome);
    lemma_done_count_update(m.done, m.current);
    lemma_done_count_full(m.finish_retest(outcome).done);
}

/// After a failure the outcome is on display and nothing else has changed:
/// the current exercise is the same, and so is what is done.
pub proof fn lemma_failure_changes_no_progress(m: SessionModel, outcome: OutcomeView)
    requires
        m.phase == Phase::Retesting,
        !outcome.passed,
    ensures
        m.finish_retest(outcome) == (SessionModel {
            phase: Phase::ShowingFailure,
            outcome: Some(outcome),
            ..m
        }),
{
}

/// A complete session ignores everything but the command to quit.
pub proof fn lemma_complete_ignores_all_but_quit(m: SessionModel, event: Event)
    requires
        m.phase == Phase::AllComplete,
    ensures
        event != Event::Key(Command::Quit) ==> m.step(event) == m,
        event == Event::Key(Command::Quit) ==> m.step(event) == (SessionModel {
            phase: Phase::Quitting,
            ..m
        }),
{
}

/// A session that is over stays as it is.
pub proof fn lemma_quitting_is_final(m: SessionModel, event: Event)
    requires
        m.phase == Phase::Quitting,
    ensures
        m.step(event) == m,
{
}

/// Once complete, a session stays complete until it is over, and nothing
/// else of it changes, whatever happens.
pub proof fn lemma_complete_stays_complete(m: SessionModel, events: Seq<Event>)
    requires
        m.phase == Phase::AllComplete,
    ensures
        m.run(events) == m || m.run(events) == (SessionModel { phase: Phase::Quitting, ..m }),
    decreases events.len(),
{
    if events.len() > 0 {
        let before = m.run(events.drop_last());
        lemma_complete_stays_complete(m, events.drop_last());
        if before == m {
            lemma_complete_ignores_all_but_quit(before, events.last());
        } else {
            lemma_quitting_is_final(before, events.last());
        }
    }
}

/// A toggle touches its flag only: what is done, the current exercise, the
/// phase and the last outcome stay as they are, and no retest is owed that
/// was not owed before.
pub proof fn lemma_toggle_changes_no_progress(m: SessionModel, hint: bool)
    ensures
        ({
            let after = m.command(
                if hint {
                    Command::ToggleHint
                } else {
                    Command::ToggleList
                },
            );
            &&& after.done == m.done
            &&& after.current == m.current
            &&& after.phase == m.phase
            &&& after.outcome == m.outcome
            &&& after.passed_last == m.passed_last
        }),
{
}

/// Toggling the hint twice in a row gives back the state before, and with
/// it the very screen that stood before.
pub proof fn lemma_toggle_hint_twice(m: SessionModel, exercises: Seq<Exercise>)
    ensures
        m.command(Command::ToggleHint).command(Command::ToggleHint) == m,
        m.command(Command::ToggleHint).command(Command::ToggleHint).screen(exercises) == m.screen(
            exercises,
        ),
{
}

/// Toggling the list twice in a row gives back the state before, and with
/// it the very screen that stood before: the same outcome is shown again,
/// and no test has been run for it.
pub proof fn lemma_toggle_list_twice(m: SessionModel, exercises: Seq<Exercise>)
    ensures
        m.command(Command::ToggleList).command(Command::ToggleList) == m,
        m.command(Command::ToggleList).command(Command::ToggleList).screen(exercises) == m.screen(
            exercises,
        ),
{
}

/// While the list is shown, the screen holds neither the outcome nor the
/// hint: the list takes their place.
pub proof fn lemma_list_hides_outcome_and_hint(
    m: SessionModel,
    exercises: Seq<Exercise>,
    other: SessionModel,
)
    requires
        m.interactive(),
        m.show_list,
        other == (SessionModel { outcome: other.outcome, show_hint: other.show_hint, ..m }),
    ensures
        m.screen(exercises) == other.screen(exercises),
{
}

/// The state after `n` reports of a change on disk in a row.
pub open spec fn after_file_changes(m: SessionModel, n: nat) -> SessionModel
    decreases n,
{
    if n == 0 {
        m
    } else {
        after_file_changes(m, (n - 1) as nat).file_changed()
    }
}

/// A retest is owed or it is not; it is never owed twice. Any number of
/// reports of a change, and a command to retest among them, leave the
/// session as one report does.
pub proof fn lemma_retest_is_owed_once(m: SessionModel, n: nat)
    requires
        n >= 1,
    ensures
        after_file_changes(m, n) == m.file_changed(),
        m.file_changed().file_changed() == m.file_changed(),
        m.interactive() ==> m.file_changed() == m.command(Command::Retest),
        m.interactive() ==> m.file_changed().retest_owed(),
        m.file_changed().current == m.current,
        m.file_changed().done == m.done,
    decreases n,
{
    if n > 1 {
        lemma_retest_is_owed_once(m, (n - 1) as nat);
    } else {
        assert(after_file_changes(m, 0) == m);
    }
}

/// Every screen of a session ends each of its lines as a raw terminal needs
/// it: no line feed without a carriage return before it.
pub proof fn lemma_session_screen_crlf_only(m: SessionModel, exercises: Seq<Exercise>)
    ensures
        crlf_only(m.screen(exercises)),
{
    let done_n = done_count(m.done);
    match m.phase {
        Phase::AwaitingRetest | Phase::ShowingFailure => {
            lemma_screen_crlf_only(
                exercises,
                m.current,
                done_n,
                m.outcome,
                m.show_hint,
                m.show_list,
                m.done,
            );
        },
        Phase::Retesting => {
            lemma_testing_crlf_only(exercises, m.current, done_n);
        },
        Phase::ShowingPass => {
            lemma_passed_crlf_only(exercises, m.passed_last, done_n);
            lemma_raw_line_crlf_only(
                "\n  ➡  Auto-jump: "@ + crate::style::CYAN@ + exercises[m.current].name@
                    + crate::style::RESET@,
            );
            lemma_crlf_only_concat(
                passed_text(exercises, m.passed_last, done_n),
                advance_text(exercises[m.current].name@),
            );
        },
        Phase::AllComplete => {
            lemma_passed_crlf_only(exercises, m.passed_last, done_n);
            lemma_complete_crlf_only(m.done.len());
            lemma_crlf_only_concat(
                passed_text(exercises, m.passed_last, done_n),
                complete_text(m.done.len()),
            );
        },
        Phase::Quitting => {},
    }
}

} // verus!
