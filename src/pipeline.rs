use vstd::prelude::*;

use crate::classify::MissionType;

verus! {

/// Where a run stands. `Idle` means no run is active: it is the single-flight
/// guard. A stage that fails ends the run at once, reporting `Status::Error`
/// and releasing the guard, so the failed state is never held.
#[derive(Debug, Clone, Copy, PartialEq, Eq, Structural)]
pub enum Phase {
    Idle,
    Capturing,
    Cropping,
    Recognizing,
    Classifying,
    Persisting,
}

/// The status signal shown to the user.
#[derive(Debug, Clone, Copy, PartialEq, Eq, Structural)]
pub enum Status {
    Capturing,
    Cropping,
    Recognizing,
    Detected,
    NotDetected,
    Error,
}

impl Status {
    /// The signal's name on the status channel.
    pub fn as_text(&self) -> (r: String)
        ensures
            r@ == status_name(*self),
    {
        match self {
            Status::Capturing => String::from_str("capturing"),
            Status::Cropping => String::from_str("cropping"),
            Status::Recognizing => String::from_str("recognizing"),
            Status::Detected => String::from_str("detected"),
            Status::NotDetected => String::from_str("not-detected"),
            Status::Error => String::from_str("error"),
        }
    }
}

pub open spec fn status_name(s: Status) -> Seq<char> {
    match s {
        Status::Capturing => "capturing"@,
        Status::Cropping => "cropping"@,
        Status::Recognizing => "recognizing"@,
        Status::Detected => "detected"@,
        Status::NotDetected => "not-detected"@,
        Status::Error => "error"@,
    }
}

/// What happened: a trigger fired, or the current stage finished.
#[derive(Debug, Clone, Copy, PartialEq, Eq, Structural)]
pub enum Event {
    Trigger,
    StageDone,
    StageFailed,
    Classified { summary_detected: bool, mission_type: MissionType },
}

/// How the orchestrator answered an event.
#[derive(Debug, Clone, Copy, PartialEq, Eq, Structural)]
pub enum Reaction {
    /// The event does not apply now; nothing changed. A trigger during a
    /// run gets this answer.
    Ignored,
    /// The run moved on without a status to show.
    Advanced,
    /// The run moved on; show this status.
    Report(Status),
}

/// A classification worth a record: the summary was seen and the mission
/// type is known.
pub open spec fn worth_recording(summary_detected: bool, mission_type: MissionType) -> bool {
    summary_detected && mission_type != MissionType::Unknown
}

/// One transition of the orchestrator.
pub open spec fn step(phase: Phase, event: Event) -> (Phase, Reaction) {
    match (phase, event) {
        (Phase::Idle, Event::Trigger) => (Phase::Capturing, Reaction::Report(Status::Capturing)),
        (Phase::Idle, _) => (Phase::Idle, Reaction::Ignored),
        (_, Event::Trigger) => (phase, Reaction::Ignored),
        (_, Event::StageFailed) => (Phase::Idle, Reaction::Report(Status::Error)),
        (Phase::Capturing, Event::StageDone) => (Phase::Cropping, Reaction::Report(Status::Cropping)),
        (Phase::Cropping, Event::StageDone) => (Phase::Recognizing, Reaction::Report(Status::Recognizing)),
        (Phase::Recognizing, Event::StageDone) => (Phase::Classifying, Reaction::Advanced),
        (Phase::Classifying, Event::Classified { summary_detected, mission_type }) =>
            if worth_recording(summary_detected, mission_type) {
                (Phase::Persisting, Reaction::Advanced)
            } else {
                (Phase::Idle, Reaction::Report(Status::NotDetected))
            },
        (Phase::Persisting, Event::StageDone) => (Phase::Idle, Reaction::Report(Status::Detected)),
        _ => (phase, Reaction::Ignored),
    }
}

/// The phase after `events`, starting from `phase`, and how many runs ended
/// on the way.
pub open spec fn replay(phase: Phase, events: Seq<Event>) -> (Phase, nat)
    decreases events.len(),
{
    if events.len() == 0 {
        (phase, 0)
    } else {
        let (p, n) = replay(phase, events.drop_last());
        let q = step(p, events.last()).0;
        (q, if p != Phase::Idle && q == Phase::Idle { n + 1 } else { n })
    }
}

/// The single-flight orchestrator of capture runs.
pub struct Orchestrator {
    phase: Phase,
}

impl Orchestrator {
    pub closed spec fn spec_phase(&self) -> Phase {
        self.phase
    }

    /// An orchestrator with no run active.
    pub fn new() -> (r: Self)
        ensures
            r.spec_phase() == Phase::Idle,
    {
        Orchestrator { phase: Phase::Idle }
    }

    pub fn phase(&self) -> (r: Phase)
        ensures
            r == self.spec_phase(),
    {
        self.phase
    }

    /// Whether a run is active, that is, whether the guard is held.
    pub fn is_running(&self) -> (r: bool)
        ensures
            r == (self.spec_phase() != Phase::Idle),
    {
        match self.phase {
            Phase::Idle => false,
            _ => true,
        }
    }

    /// Applies one event. A trigger starts a run only from `Idle`: the test
    /// and the change are one step.
    pub fn handle(&mut self, event: Event) -> (r: Reaction)
        ensures
            (final(self).spec_phase(), r) == step(old(self).spec_phase(), event),
    {
        let (next, reaction) = match (self.phase, event) {
            (Phase::Idle, Event::Trigger) => (Phase::Capturing, Reaction::Report(Status::Capturing)),
            (Phase::Idle, _) => (Phase::Idle, Reaction::Ignored),
            (_, Event::Trigger) => (self.phase, Reaction::Ignored),
            (_, Event::StageFailed) => (Phase::Idle, Reaction::Report(Status::Error)),
            (Phase::Capturing, Event::StageDone) => (Phase::Cropping, Reaction::Report(Status::Cropping)),
            (Phase::Cropping, Event::StageDone) => (Phase::Recognizing, Reaction::Report(Status::Recognizing)),
            (Phase::Recognizing, Event::StageDone) => (Phase::Classifying, Reaction::Advanced),
            (Phase::Classifying, Event::Classified { summary_detected, mission_type }) => {
                let known = match mission_type {
                    MissionType::Unknown => false,
                    _ => true,
                };
                if summary_detected && known {
                    (Phase::Persisting, Reaction::Advanced)
                } else {
                    (Phase::Idle, Reaction::Report(Status::NotDetected))
                }
            },
            (Phase::Persisting, Event::StageDone) => (Phase::Idle, Reaction::Report(Status::Detected)),
            _ => (self.phase, Reaction::Ignored),
        };
        self.phase = next;
        reaction
    }
}

/// A trigger that fires while a run is active is rejected and changes nothing.
pub proof fn lemma_trigger_during_run_rejected(phase: Phase)
    requires
        phase != Phase::Idle,
    ensures
        step(phase, Event::Trigger) == (phase, Reaction::Ignored),
{
}

/// Single flight: a trigger fired at any point where a run is active can be
/// dropped from the event sequence without changing where the orchestrator
/// ends up or how many runs complete.
pub proof fn lemma_trigger_during_run_absorbed(phase: Phase, events: Seq<Event>, i: int)
    requires
        0 <= i <= events.len(),
        replay(phase, events.take(i)).0 != Phase::Idle,
    ensures
        replay(phase, events.insert(i, Event::Trigger)) == replay(phase, events),
    decreases events.len(),
{
    let with = events.insert(i, Event::Trigger);
    if i == events.len() {
        assert(events.take(i) =~= events);
        assert(with.drop_last() =~= events);
    } else {
        let shorter = events.drop_last();
        assert(shorter.take(i) =~= events.take(i));
        lemma_trigger_during_run_absorbed(phase, shorter, i);
        assert(with.drop_last() =~= shorter.insert(i, Event::Trigger));
        assert(with.last() == events.last());
    }
}

/// Whatever stage of a run fails, the run ends: the guard is released and an
/// error status is reported.
pub proof fn lemma_failure_releases_guard(phase: Phase)
    requires
        phase != Phase::Idle,
    ensures
        step(phase, Event::StageFailed) == (Phase::Idle, Reaction::Report(Status::Error)),
{
}

/// After any sequence of events that leaves a run active, a failure brings
/// the orchestrator back to `Idle` and counts the run as ended.
pub proof fn lemma_failure_ends_run(phase: Phase, events: Seq<Event>)
    requires
        replay(phase, events).0 != Phase::Idle,
    ensures
        replay(phase, events.push(Event::StageFailed)) == (Phase::Idle, replay(phase, events).1 + 1),
{
    assert(events.push(Event::StageFailed).drop_last() =~= events);
}

} // verus!
