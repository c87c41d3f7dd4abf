//! The bounded trial of a mode: switch to it, wait for the timeout, and go
//! back to the fallback mode whatever the switch reported.
//!
//! The machine decides; its caller performs each action and reports the
//! event that ends it.
use vstd::prelude::*;
use vstd::string::*;
use crate::text::{views, text_of, parse_u64, parse_decimal};
use crate::mode::{CvtMode, switch_mode, switch_args};

verus! {

/// The timeout, in seconds, that stands in for a missing or unusable one.
pub const DEFAULT_TIMEOUT: u64 = 10;

/// Whether a timeout was given and cannot be used: it is no decimal number,
/// or it is zero.
pub open spec fn timeout_unusable(t: Option<Seq<char>>) -> bool {
    match t {
        Some(s) => match parse_decimal(s) {
            Some(v) => v == 0,
            None => true,
        },
        None => false,
    }
}

/// The timeout in force: the given one where it is a positive decimal
/// number, the default otherwise.
pub open spec fn timeout_of(t: Option<Seq<char>>) -> u64 {
    match t {
        Some(s) => match parse_decimal(s) {
            Some(v) => if v > 0 {
                v
            } else {
                DEFAULT_TIMEOUT
            },
            None => DEFAULT_TIMEOUT,
        },
        None => DEFAULT_TIMEOUT,
    }
}

/// The timeout in force for a trial, and whether the given one had to be
/// replaced by the default (which calls for a warning, never for a failure).
pub fn coerce_timeout(t: Option<&str>) -> (r: (u64, bool))
    ensures
        r.0 == timeout_of(text_of(t)),
        r.1 == timeout_unusable(text_of(t)),
        r.0 > 0,
{
    match t {
        Some(s) => match parse_u64(s) {
            Some(v) => if v > 0 {
                (v, false)
            } else {
                (DEFAULT_TIMEOUT, true)
            },
            None => (DEFAULT_TIMEOUT, true),
        },
        None => (DEFAULT_TIMEOUT, false),
    }
}

/// Where a trial stands.
#[derive(Debug, Clone, Copy, PartialEq, Eq, Structural)]
pub enum Phase {
    /// Nothing has been done yet.
    Idle,
    /// The switch to the target mode is under way, the timer runs.
    Switching,
    /// The switch has returned; the timer still runs.
    Active,
    /// The switch back to the fallback mode is under way.
    Reverting,
    /// The trial is over.
    Finished,
}

/// What the caller reports to the machine.
#[derive(Debug, Clone, Copy, PartialEq, Eq, Structural)]
pub enum Event {
    /// The trial is to begin.
    Start,
    /// The switch to the target mode returned, with or without success.
    SwitchReturned { ok: bool },
    /// The timeout has elapsed.
    TimerElapsed,
    /// The switch to the fallback mode returned, with or without success.
    RevertReturned { ok: bool },
}

/// What the machine asks of its caller.
#[derive(Debug, Clone, Copy, PartialEq, Eq, Structural)]
pub enum Action {
    /// Nothing: the event does not belong to the current phase.
    Nothing,
    /// Start a timer of that many seconds, then switch the output to the
    /// target mode.
    SwitchToTarget { secs: u64 },
    /// Wait until the timer has run out.
    AwaitTimer,
    /// Switch the output to the fallback mode.
    RevertToFallback,
    /// The trial is over; `ok` says whether both switches succeeded.
    Finish { ok: bool },
}

/// The part of a trial that changes: its phase, and whether the switch to
/// the target mode succeeded.
#[derive(Debug, Clone, Copy, PartialEq, Eq, Structural)]
pub struct Progress {
    pub phase: Phase,
    pub switch_ok: bool,
}

/// The progress of a trial that has not begun.
pub open spec fn initial() -> Progress {
    Progress { phase: Phase::Idle, switch_ok: true }
}

/// The machine's rule: the progress after an event, and the action it calls
/// for. An event that does not belong to the phase changes nothing.
pub open spec fn next(p: Progress, secs: u64, ev: Event) -> (Progress, Action) {
    match (p.phase, ev) {
        (Phase::Idle, Event::Start) => (
            Progress { phase: Phase::Switching, switch_ok: p.switch_ok },
            Action::SwitchToTarget { secs },
        ),
        (Phase::Switching, Event::SwitchReturned { ok }) => (
            Progress { phase: Phase::Active, switch_ok: ok },
            Action::AwaitTimer,
        ),
        (Phase::Active, Event::TimerElapsed) => (
            Progress { phase: Phase::Reverting, switch_ok: p.switch_ok },
            Action::RevertToFallback,
        ),
        (Phase::Reverting, Event::RevertReturned { ok }) => (
            Progress { phase: Phase::Finished, switch_ok: p.switch_ok },
            Action::Finish { ok: p.switch_ok && ok },
        ),
        _ => (p, Action::Nothing),
    }
}

/// The progress after a run of events.
pub open spec fn progress_after(p: Progress, secs: u64, events: Seq<Event>) -> Progress
    decreases events.len(),
{
    if events.len() == 0 {
        p
    } else {
        progress_after(next(p, secs, events[0]).0, secs, events.skip(1))
    }
}

/// The actions that a run of events calls for, one for each event.
pub open spec fn actions_of(p: Progress, secs: u64, events: Seq<Event>) -> Seq<Action>
    decreases events.len(),
{
    if events.len() == 0 {
        Seq::<Action>::empty()
    } else {
        seq![next(p, secs, events[0]).1] + actions_of(
            next(p, secs, events[0]).0,
            secs,
            events.skip(1),
        )
    }
}

/// How many of the actions are switches to the fallback mode.
pub open spec fn reverts_in(actions: Seq<Action>) -> nat
    decreases actions.len(),
{
    if actions.len() == 0 {
        0
    } else if actions[0] == Action::RevertToFallback {
        1 + reverts_in(actions.skip(1))
    } else {
        reverts_in(actions.skip(1))
    }
}

/// How many switches to the fallback mode a trial in this phase has behind it.
pub open spec fn reverts_behind(p: Progress) -> nat {
    match p.phase {
        Phase::Reverting | Phase::Finished => 1,
        _ => 0,
    }
}

/// A trial under way: the modes and the output it is about, the timeout in
/// force, and its progress.
#[derive(Debug)]
pub struct TestRun {
    pub target: String,
    pub fallback: String,
    pub display: String,
    pub timeout: u64,
    pub progress: Progress,
}

/// Sets up the trial of `mode` on `display`, with `default_mode` to go back
/// to, and the timeout coerced from `t`.
pub fn test_mode(mode: &CvtMode, default_mode: &CvtMode, display: &str, t: Option<&str>) -> (run:
    TestRun)
    ensures
        run.target@ == mode.name@,
        run.fallback@ == default_mode.name@,
        run.display@ == display@,
        run.timeout == timeout_of(text_of(t)),
        run.progress == initial(),
{
    TestRun {
        target: mode.name.clone(),
        fallback: default_mode.name.clone(),
        display: String::from_str(display),
        timeout: coerce_timeout(t).0,
        progress: Progress { phase: Phase::Idle, switch_ok: true },
    }
}

impl TestRun {
    /// Takes an event in and says what is to be done next.
    pub fn step(&mut self, ev: Event) -> (action: Action)
        ensures
            (final(self).progress, action) == next(old(self).progress, old(self).timeout, ev),
            final(self).target == old(self).target,
            final(self).fallback == old(self).fallback,
            final(self).display == old(self).display,
            final(self).timeout == old(self).timeout,
    {
        let p = self.progress;
        match (p.phase, ev) {
            (Phase::Idle, Event::Start) => {
                self.progress = Progress { phase: Phase::Switching, switch_ok: p.switch_ok };
                Action::SwitchToTarget { secs: self.timeout }
            },
            (Phase::Switching, Event::SwitchReturned { ok }) => {
                self.progress = Progress { phase: Phase::Active, switch_ok: ok };
                Action::AwaitTimer
            },
            (Phase::Active, Event::TimerElapsed) => {
                self.progress = Progress { phase: Phase::Reverting, switch_ok: p.switch_ok };
                Action::RevertToFallback
            },
            (Phase::Reverting, Event::RevertReturned { ok }) => {
                self.progress = Progress { phase: Phase::Finished, switch_ok: p.switch_ok };
                Action::Finish { ok: p.switch_ok && ok }
            },
            _ => Action::Nothing,
        }
    }

    /// Whether the trial is over.
    pub fn is_finished(&self) -> (done: bool)
        ensures
            done == (self.progress.phase == Phase::Finished),
    {
        match self.progress.phase {
            Phase::Finished => true,
            _ => false,
        }
    }

    /// The arguments for the display tool that carry an action out: a switch
    /// of the output to the target mode or to the fallback mode. The other
    /// actions call for no command.
    pub fn command(&self, action: Action) -> (args: Option<Vec<String>>)
        ensures
            match action {
                Action::SwitchToTarget { secs } => args is Some && views(args.unwrap()@)
                    == switch_args(self.target@, self.display@),
                Action::RevertToFallback => args is Some && views(args.unwrap()@)
                    == switch_args(self.fallback@, self.display@),
                _ => args is None,
            },
    {
        match action {
            Action::SwitchToTarget { secs } => Some(
                switch_mode(self.target.as_str(), self.display.as_str()),
            ),
            Action::RevertToFallback => Some(
                switch_mode(self.fallback.as_str(), self.display.as_str()),
            ),
            _ => None,
        }
    }
}

/// Counting the switches to the fallback mode over a run of events: those
/// behind the trial before, and those the run calls for, are those behind it
/// after.
pub proof fn lemma_reverts_counted(p: Progress, secs: u64, events: Seq<Event>)
    ensures
        reverts_behind(p) + reverts_in(actions_of(p, secs, events)) == reverts_behind(
            progress_after(p, secs, events),
        ),
    decreases events.len(),
{
    if events.len() > 0 {
        let step = next(p, secs, events[0]);
        let rest = actions_of(step.0, secs, events.skip(1));
        lemma_reverts_counted(step.0, secs, events.skip(1));
        assert(actions_of(p, secs, events).skip(1) =~= rest);
        assert(actions_of(p, secs, events)[0] == step.1);
    }
}

/// Whatever events arrive and whatever the switches report, a trial that
/// starts fresh switches to the fallback mode exactly once if the timeout
/// has elapsed (it is reverting or finished), and not at all before.
pub proof fn lemma_revert_exactly_once(secs: u64, events: Seq<Event>)
    ensures
        reverts_in(actions_of(initial(), secs, events)) == match progress_after(
            initial(),
            secs,
            events,
        ).phase {
            Phase::Reverting | Phase::Finished => 1nat,
            _ => 0nat,
        },
{
    lemma_reverts_counted(initial(), secs, events);
}

/// The trial that runs its course: the target mode is switched to once, the
/// timer is awaited, the fallback mode is switched to once, also where the
/// first switch failed, and the trial ends.
pub proof fn lemma_full_run(secs: u64, switch_ok: bool, revert_ok: bool)
    ensures
        actions_of(
            initial(),
            secs,
            seq![
                Event::Start,
                Event::SwitchReturned { ok: switch_ok },
                Event::TimerElapsed,
                Event::RevertReturned { ok: revert_ok },
            ],
        ) == seq![
            Action::SwitchToTarget { secs },
            Action::AwaitTimer,
            Action::RevertToFallback,
            Action::Finish { ok: switch_ok && revert_ok },
        ],
{
    let all = seq![
        Event::Start,
        Event::SwitchReturned { ok: switch_ok },
        Event::TimerElapsed,
        Event::RevertReturned { ok: revert_ok },
    ];
    let after_start = all.skip(1);
    let after_switch = after_start.skip(1);
    let after_timer = after_switch.skip(1);
    let none_left = after_timer.skip(1);
    let started = next(initial(), secs, all[0]).0;
    let switched = next(started, secs, after_start[0]).0;
    let elapsed = next(switched, secs, after_switch[0]).0;
    let reverted = next(elapsed, secs, after_timer[0]).0;
    assert(none_left.len() == 0);
    assert(actions_of(reverted, secs, none_left) =~= Seq::<Action>::empty());
    assert(actions_of(elapsed, secs, after_timer) =~= seq![Action::Finish { ok: switch_ok && revert_ok }]);
    assert(actions_of(switched, secs, after_switch) =~= seq![
        Action::RevertToFallback,
        Action::Finish { ok: switch_ok && revert_ok },
    ]);
    assert(actions_of(started, secs, after_start) =~= seq![
        Action::AwaitTimer,
        Action::RevertToFallback,
        Action::Finish { ok: switch_ok && revert_ok },
    ]);
    assert(actions_of(initial(), secs, all) =~= seq![
        Action::SwitchToTarget { secs },
        Action::AwaitTimer,
        Action::RevertToFallback,
        Action::Finish { ok: switch_ok && revert_ok },
    ]);
}

} // verus!
