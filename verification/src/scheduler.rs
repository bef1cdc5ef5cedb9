//! The recurring scan: when a tick of the timer starts a scan, and when not.
//!
//! The scheduler owns no timer. Whoever runs it hands it what happened (the
//! timer fired, a scan ended, a stop was asked for) and does what it answers.
//! A scan that is still running when the timer fires again is not joined by
//! a second one: that tick is skipped.

use crate::text::{decimal_text, push_decimal, push_str, string_of};
use vstd::prelude::*;

verus! {

/// The seconds between two ticks of the recurring scan.
pub const SCAN_EVERY_SECONDS: u32 = 5;

/// What the scheduler is doing.
#[derive(Clone, Copy, Debug, PartialEq, Eq, Structural)]
pub enum Phase {
    /// It waits for the next tick.
    Idle,
    /// A scan is running.
    Running,
    /// It was stopped, and starts no scan any more.
    Stopped,
}

/// What happened.
#[derive(Clone, Copy, Debug, PartialEq, Eq, Structural)]
pub enum Event {
    /// The timer fired.
    Tick,
    /// The scan that was running ended; `failed` tells whether with a failure.
    Finished { failed: bool },
    /// A stop was asked for.
    Stop,
}

/// What is to be done about an event.
#[derive(Clone, Copy, Debug, PartialEq, Eq, Structural)]
pub enum Action {
    /// Start a scan.
    Run,
    /// Start none: the scan of an earlier tick is still running.
    Skip,
    /// Do nothing.
    Nothing,
}

/// The phase after an event.
pub open spec fn next_phase(phase: Phase, event: Event) -> Phase {
    match (phase, event) {
        (Phase::Stopped, _) => Phase::Stopped,
        (_, Event::Stop) => Phase::Stopped,
        (Phase::Idle, Event::Tick) => Phase::Running,
        (Phase::Running, Event::Tick) => Phase::Running,
        (Phase::Idle, Event::Finished { .. }) => Phase::Idle,
        (Phase::Running, Event::Finished { .. }) => Phase::Idle,
    }
}

/// The action on an event. A scan starts on a tick that finds the scheduler
/// idle, and on nothing else.
pub open spec fn action_on(phase: Phase, event: Event) -> Action {
    match (phase, event) {
        (Phase::Idle, Event::Tick) => Action::Run,
        (Phase::Running, Event::Tick) => Action::Skip,
        _ => Action::Nothing,
    }
}

/// The phase after the events of `events`, one after the other.
pub open spec fn phase_after(phase: Phase, events: Seq<Event>) -> Phase
    decreases events.len(),
{
    if events.len() == 0 {
        phase
    } else {
        next_phase(phase_after(phase, events.drop_last()), events.last())
    }
}

/// The action on the last of `events`, which come one after the other.
pub open spec fn last_action(phase: Phase, events: Seq<Event>) -> Action
    recommends
        events.len() > 0,
{
    action_on(phase_after(phase, events.drop_last()), events.last())
}

/// Once stopped, the scheduler stays stopped and starts no scan, whatever
/// happens.
pub proof fn lemma_stopped_for_good(events: Seq<Event>)
    ensures
        phase_after(Phase::Stopped, events) == Phase::Stopped,
        events.len() > 0 ==> last_action(Phase::Stopped, events) == Action::Nothing,
    decreases events.len(),
{
    if events.len() > 0 {
        lemma_stopped_for_good(events.drop_last());
    }
}

/// A scan that fails does not hold up the next one: when a scan has ended,
/// with a failure or without, the next tick starts a scan.
pub proof fn lemma_failure_is_contained(failed: bool)
    ensures
        next_phase(Phase::Running, Event::Finished { failed }) == Phase::Idle,
        action_on(next_phase(Phase::Running, Event::Finished { failed }), Event::Tick)
            == Action::Run,
{
}

/// The action on the event at the position `at` of `events`.
pub open spec fn action_at(phase: Phase, events: Seq<Event>, at: int) -> Action
    recommends
        0 <= at < events.len(),
{
    last_action(phase, events.subrange(0, at + 1))
}

/// From the tick that starts a scan until that scan has ended, the
/// scheduler is running or stopped.
pub proof fn lemma_busy_until_finished(phase: Phase, events: Seq<Event>, started: int, until: int)
    requires
        0 <= started < until <= events.len(),
        action_at(phase, events, started) == Action::Run,
        forall|k: int| started < k < until ==> !(#[trigger] events[k] is Finished),
    ensures
        phase_after(phase, events.subrange(0, until)) != Phase::Idle,
    decreases until - started,
{
    let upto = events.subrange(0, until);
    assert(upto.drop_last() =~= events.subrange(0, until - 1));
    assert(upto.last() == events[until - 1]);
    if until - 1 > started {
        lemma_busy_until_finished(phase, events, started, until - 1);
    } else {
        assert(events.subrange(0, started + 1).drop_last() =~= events.subrange(0, started));
    }
}

/// No two scans run at once: between two ticks that each start a scan, the
/// scan of the first has ended.
pub proof fn lemma_no_overlap(phase: Phase, events: Seq<Event>, first: int, second: int)
    requires
        0 <= first < second < events.len(),
        action_at(phase, events, first) == Action::Run,
        action_at(phase, events, second) == Action::Run,
    ensures
        exists|k: int| first < k < second && #[trigger] events[k] is Finished,
{
    if !(exists|k: int| first < k < second && #[trigger] events[k] is Finished) {
        lemma_busy_until_finished(phase, events, first, second);
        assert(events.subrange(0, second + 1).drop_last() =~= events.subrange(0, second));
    }
}

/// The scheduler of the recurring scan.
#[derive(Debug)]
pub struct Scheduler {
    phase: Phase,
}

impl View for Scheduler {
    type V = Phase;

    closed spec fn view(&self) -> Phase {
        self.phase
    }
}

impl Scheduler {
    /// A scheduler that waits for its first tick.
    pub fn start() -> (scheduler: Scheduler)
        ensures
            scheduler@ == Phase::Idle,
    {
        Scheduler { phase: Phase::Idle }
    }

    /// What the scheduler is doing.
    pub fn phase(&self) -> (phase: Phase)
        ensures
            phase == self@,
    {
        self.phase
    }

    /// Takes an event and tells what is to be done about it.
    pub fn handle(&mut self, event: Event) -> (action: Action)
        ensures
            action == action_on(old(self)@, event),
            final(self)@ == next_phase(old(self)@, event),
    {
        match (self.phase, event) {
            (Phase::Stopped, _) => Action::Nothing,
            (_, Event::Stop) => {
                self.phase = Phase::Stopped;
                Action::Nothing
            },
            (Phase::Idle, Event::Tick) => {
                self.phase = Phase::Running;
                Action::Run
            },
            (Phase::Running, Event::Tick) => Action::Skip,
            (_, Event::Finished { .. }) => {
                self.phase = Phase::Idle;
                Action::Nothing
            },
        }
    }

    /// Stops the scheduler: no tick starts a scan from now on. A scan that
    /// is running is not cut off.
    pub fn stop(&mut self)
        ensures
            final(self)@ == Phase::Stopped,
            final(self)@ == next_phase(old(self)@, Event::Stop),
    {
        self.phase = Phase::Stopped;
    }
}

/// The cadence "every `seconds` seconds" as an expression of six fields, the
/// first of which counts seconds.
pub open spec fn cadence_text(seconds: int) -> Seq<char> {
    "*/"@ + decimal_text(seconds) + " * * * * *"@
}

/// The expression for the cadence "every `seconds` seconds". There is one for
/// 1 to 59 seconds, and none for any other number.
pub fn cron_expression(seconds: u32) -> (expression: Option<String>)
    ensures
        expression is Some <==> 1 <= seconds <= 59,
        expression matches Some(text) ==> text@ == cadence_text(seconds as int),
{
    if seconds < 1 || seconds > 59 {
        return None;
    }
    let mut text: Vec<char> = Vec::new();
    push_str(&mut text, "*/");
    push_decimal(&mut text, seconds as i64);
    push_str(&mut text, " * * * * *");
    assert(text@ =~= cadence_text(seconds as int));
    Some(string_of(&text))
}

} // verus!
