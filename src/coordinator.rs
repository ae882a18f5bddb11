use vstd::prelude::*;
use crate::engine::{find_a_fix, first_fix, Recipe};

verus! {

/// A key press, as far as the loop cares.
#[derive(Clone, Copy, Debug, PartialEq, Eq, Structural)]
pub enum Key {
    Char(char),
    Other,
}

/// What the input sampler hands to the loop.
#[derive(Clone, Copy, Debug, PartialEq, Eq, Structural)]
pub enum Event {
    Input(Key),
    Tick,
}

/// When the clipboard is rewritten: on the `r` key, or on every tick.
#[derive(Clone, Copy, Debug, PartialEq, Eq, Structural)]
pub enum Mode {
    Manual,
    Timer,
}

/// The outcome of the last action, as shown to the user.
#[derive(Clone, Copy, Debug, PartialEq, Eq, Structural)]
pub enum Status {
    Waiting,
    Replaced,
    NoMatch,
    ClipboardFailed,
}

/// Whether the loop goes on; `Quitting` is final.
#[derive(Clone, Copy, Debug, PartialEq, Eq, Structural)]
pub enum Phase {
    Running,
    Quitting,
}

/// What the driver must do after an event.
#[derive(Clone, Copy, Debug, PartialEq, Eq, Structural)]
pub enum Action {
    Nothing,
    Rewrite,
    Teardown,
}

/// How a clipboard rewrite went.
#[derive(Clone, Copy, Debug, PartialEq, Eq, Structural)]
pub enum Outcome {
    Replaced,
    NoFix,
    ClipboardFailed,
}

/// What a rewrite should do with the clipboard text it read.
#[derive(Clone, Debug)]
pub enum Plan {
    Write(String),
    NoFix,
    ReadFailed,
}

/// The state of the foreground loop.
#[derive(Clone, Copy, Debug, PartialEq, Eq, Structural)]
pub struct Coordinator {
    pub mode: Mode,
    pub status: Status,
    pub phase: Phase,
}

/// The next state and the action that `event` brings about in state `c`.
pub open spec fn step(c: Coordinator, event: Event) -> (Coordinator, Action) {
    match c.phase {
        Phase::Quitting => (c, Action::Nothing),
        Phase::Running => match event {
            Event::Input(Key::Char('q')) => (Coordinator { phase: Phase::Quitting, ..c }, Action::Teardown),
            Event::Input(Key::Char('r')) => if c.mode == Mode::Manual {
                (c, Action::Rewrite)
            } else {
                (c, Action::Nothing)
            },
            Event::Input(_) => (c, Action::Nothing),
            Event::Tick => match c.mode {
                Mode::Manual => (Coordinator { status: Status::Waiting, ..c }, Action::Nothing),
                Mode::Timer => (c, Action::Rewrite),
            },
        },
    }
}

/// The state after a rewrite with `outcome` was performed in state `c`.
pub open spec fn after_rewrite(c: Coordinator, outcome: Outcome) -> Coordinator {
    match c.mode {
        Mode::Timer => c,
        Mode::Manual => Coordinator {
            status: match outcome {
                Outcome::Replaced => Status::Replaced,
                Outcome::NoFix => Status::NoMatch,
                Outcome::ClipboardFailed => Status::ClipboardFailed,
            },
            ..c
        },
    }
}

impl Coordinator {
    pub fn new(mode: Mode) -> (r: Coordinator)
        ensures
            r.mode == mode,
            r.status == Status::Waiting,
            r.phase == Phase::Running,
    {
        Coordinator { mode, status: Status::Waiting, phase: Phase::Running }
    }

    /// Takes one event: updates the state and says what the driver must do.
    pub fn handle_event(&mut self, event: Event) -> (a: Action)
        ensures
            (*final(self), a) == step(*old(self), event),
    {
        if let Phase::Quitting = self.phase {
            return Action::Nothing;
        }
        match event {
            Event::Input(Key::Char(c)) => {
                if c == 'q' {
                    self.phase = Phase::Quitting;
                    Action::Teardown
                } else if c == 'r' {
                    if let Mode::Manual = self.mode {
                        Action::Rewrite
                    } else {
                        Action::Nothing
                    }
                } else {
                    Action::Nothing
                }
            },
            Event::Input(Key::Other) => Action::Nothing,
            Event::Tick => match self.mode {
                Mode::Manual => {
                    self.status = Status::Waiting;
                    Action::Nothing
                },
                Mode::Timer => Action::Rewrite,
            },
        }
    }

    /// Records how a rewrite went; the loop keeps running whatever it was.
    pub fn record_outcome(&mut self, outcome: Outcome)
        ensures
            *final(self) == after_rewrite(*old(self), outcome),
    {
        if let Mode::Manual = self.mode {
            self.status = match outcome {
                Outcome::Replaced => Status::Replaced,
                Outcome::NoFix => Status::NoMatch,
                Outcome::ClipboardFailed => Status::ClipboardFailed,
            };
        }
    }

    /// The status line that the user sees.
    pub fn message(&self) -> (r: String)
        ensures
            r@ == status_message(self.status),
    {
        match self.status {
            Status::Waiting => "Waiting...".to_owned(),
            Status::Replaced => "Replaced!".to_owned(),
            Status::NoMatch => "No match.".to_owned(),
            Status::ClipboardFailed => "Clipboard unavailable.".to_owned(),
        }
    }
}

/// The text shown for each status.
pub open spec fn status_message(s: Status) -> Seq<char> {
    match s {
        Status::Waiting => "Waiting..."@,
        Status::Replaced => "Replaced!"@,
        Status::NoMatch => "No match."@,
        Status::ClipboardFailed => "Clipboard unavailable."@,
    }
}

/// Decides a rewrite from what was read from the clipboard (`None` when the
/// read failed): write the first fix back, or leave the clipboard alone.
pub fn plan_rewrite(clipboard: Option<String>, recipes: Vec<Recipe>) -> (r: Plan)
    ensures
        clipboard is None ==> r is ReadFailed,
        clipboard matches Some(text) ==> match first_fix(text@, recipes@) {
            Some(out) => r matches Plan::Write(w) && w@ == out,
            None => r is NoFix,
        },
{
    match clipboard {
        None => Plan::ReadFailed,
        Some(text) => match find_a_fix(text.as_str(), recipes) {
            Some(fixed) => Plan::Write(fixed),
            None => Plan::NoFix,
        },
    }
}

/// Quitting: in a running loop the `q` key always leads to `Quitting` and
/// one teardown, whatever the status; once quitting, no event asks for a
/// teardown again.
pub proof fn lemma_quit_tears_down_once(c: Coordinator, later: Event)
    ensures
        c.phase == Phase::Running ==> step(c, Event::Input(Key::Char('q'))).0.phase
            == Phase::Quitting && step(c, Event::Input(Key::Char('q'))).1 == Action::Teardown,
        step(step(c, Event::Input(Key::Char('q'))).0, later).1 != Action::Teardown,
{
}

/// A failed clipboard read does not stop the loop: the plan is a read
/// failure, recording it keeps the loop running, and the next event is
/// handled as in any running state.
pub proof fn lemma_clipboard_failure_recoverable(c: Coordinator, next: Event)
    requires
        c.phase == Phase::Running,
    ensures
        after_rewrite(c, Outcome::ClipboardFailed).phase == Phase::Running,
        c.mode == Mode::Manual ==> after_rewrite(c, Outcome::ClipboardFailed).status
            == Status::ClipboardFailed,
        step(after_rewrite(c, Outcome::ClipboardFailed), next).1 == step(c, next).1,
{
}

} // verus!
