//! The dispatch scheduler: which step of delivery comes next.
//!
//! The scheduler does no work of its own. It names an action, the caller
//! performs it and reports what happened, and the scheduler names the next
//! one. A run connects once and then repeats ticks: pause, wait until the
//! transport takes a write, send.

use crate::cot::CotEventKind;
use vstd::prelude::*;

verus! {

/// The synthetic scenarios that can be played.
#[derive(Clone, Copy, Debug, PartialEq, Eq)]
pub enum Scenario {
    /// A friendly unit that reports its own track.
    Status,
    /// An unknown unit that is detected again and again.
    Detect,
    /// An unknown unit of which a picture is sent.
    Image,
}

impl Scenario {
    /// The scenario that a mode selector names. `fake` is another name for
    /// `status`; any other word names none.
    pub open spec fn named(selector: Seq<char>) -> Option<Scenario> {
        if selector == "status"@ || selector == "fake"@ {
            Some(Scenario::Status)
        } else if selector == "detect"@ {
            Some(Scenario::Detect)
        } else if selector == "image"@ {
            Some(Scenario::Image)
        } else {
            None
        }
    }

    /// The scenario that `selector` names, if it names one.
    pub fn from_selector(selector: &str) -> (scenario: Option<Scenario>)
        ensures
            scenario == Self::named(selector@),
    {
        let word = String::from_str(selector);
        if word == String::from_str("status") || word == String::from_str("fake") {
            Some(Scenario::Status)
        } else if word == String::from_str("detect") {
            Some(Scenario::Detect)
        } else if word == String::from_str("image") {
            Some(Scenario::Image)
        } else {
            None
        }
    }

    /// The pause between two ticks of the scenario, in milliseconds.
    pub open spec fn cadence(self) -> u64 {
        match self {
            Scenario::Status => 2000,
            Scenario::Detect => 1000,
            Scenario::Image => 10000,
        }
    }

    /// The pause between two ticks of the scenario, in milliseconds.
    pub fn cadence_ms(&self) -> (ms: u64)
        ensures
            ms == self.cadence(),
    {
        match self {
            Scenario::Status => 2000,
            Scenario::Detect => 1000,
            Scenario::Image => 10000,
        }
    }

    /// The kind of event that the scenario sends. Only the image scenario
    /// makes use of `image`, the picture in base64.
    pub fn event_kind(&self, image: String) -> (kind: CotEventKind)
        ensures
            kind == (match *self {
                Scenario::Status => CotEventKind::FriendlyTrack,
                Scenario::Detect => CotEventKind::UnknownDetection,
                Scenario::Image => CotEventKind::UnknownImageAttachment { payload: image },
            }),
    {
        match self {
            Scenario::Status => CotEventKind::FriendlyTrack,
            Scenario::Detect => CotEventKind::UnknownDetection,
            Scenario::Image => CotEventKind::UnknownImageAttachment { payload: image },
        }
    }
}

/// Why a run has ended.
#[derive(Clone, Copy, Debug, PartialEq, Eq)]
pub enum FatalReason {
    /// A connection could not be opened.
    ConnectFailed,
    /// The transport failed while the run waited for it to take a write.
    TransportLost,
    /// The position source has stopped for good.
    SourceFailed,
}

/// Where a run stands.
#[derive(Clone, Copy, Debug, PartialEq, Eq)]
pub enum Phase {
    /// The transport is being opened.
    Connecting,
    /// The transport is open and the pause before the next tick runs.
    Ready,
    /// The tick has begun: the run waits until the transport takes a write.
    Waiting,
    /// A sample is being obtained, encoded and written.
    Sending,
    /// The run has ended.
    Fatal(FatalReason),
}

/// What the caller reports back.
#[derive(Clone, Copy, Debug, PartialEq, Eq)]
pub enum Event {
    Connected,
    ConnectFailed,
    /// The pause is over.
    TickDue,
    /// The transport takes a write.
    Writable,
    /// Waiting for the transport ended in an error.
    ReadinessFailed,
    /// A document was written whole.
    Sent,
    /// The source had no sample for this tick.
    Skipped,
    /// Writing the document failed; the document is lost.
    WriteFailed,
    /// The source has stopped for good.
    SourceFailed,
}

/// What the caller is to do next.
#[derive(Clone, Copy, Debug, PartialEq, Eq)]
pub enum Action {
    /// Open the transport, then report `Connected` or `ConnectFailed`.
    Connect,
    /// Let `ms` milliseconds pass, then report `TickDue`.
    Pause { ms: u64 },
    /// Block until the transport takes a write, then report `Writable` or
    /// `ReadinessFailed`.
    AwaitWritable,
    /// Obtain the next sample, encode it and write the document, then
    /// report `Sent`, `Skipped`, `WriteFailed` or `SourceFailed`.
    Send,
    /// End the run.
    Halt(FatalReason),
}

/// The phase and the action that follow when `event` is reported in
/// `phase`, on a run that pauses `cadence_ms` milliseconds between ticks;
/// `None` where the event answers no action of that phase.
pub open spec fn transition(phase: Phase, cadence_ms: u64, event: Event) -> Option<
    (Phase, Action),
> {
    match (phase, event) {
        (Phase::Fatal(reason), _) => Some((phase, Action::Halt(reason))),
        (Phase::Connecting, Event::Connected) => Some((Phase::Ready, Action::Pause { ms: 0 })),
        (Phase::Connecting, Event::ConnectFailed) => Some(
            (Phase::Fatal(FatalReason::ConnectFailed), Action::Halt(FatalReason::ConnectFailed)),
        ),
        (Phase::Ready, Event::TickDue) => Some((Phase::Waiting, Action::AwaitWritable)),
        (Phase::Waiting, Event::Writable) => Some((Phase::Sending, Action::Send)),
        (Phase::Waiting, Event::ReadinessFailed) => Some(
            (Phase::Fatal(FatalReason::TransportLost), Action::Halt(FatalReason::TransportLost)),
        ),
        (Phase::Sending, Event::Sent) | (Phase::Sending, Event::Skipped) | (
            Phase::Sending,
            Event::WriteFailed,
        ) => Some((Phase::Ready, Action::Pause { ms: cadence_ms })),
        (Phase::Sending, Event::SourceFailed) => Some(
            (Phase::Fatal(FatalReason::SourceFailed), Action::Halt(FatalReason::SourceFailed)),
        ),
        _ => None,
    }
}

/// The scheduler of one run.
#[derive(Clone, Copy, Debug, PartialEq, Eq)]
pub struct Scheduler {
    pub phase: Phase,
    pub cadence_ms: u64,
}

impl Scheduler {
    /// The scheduler of a run that has not connected yet, and the action
    /// that opens the run. A run that is driven by its source, with no
    /// pause between ticks, has a cadence of 0.
    pub fn new(cadence_ms: u64) -> (opening: (Scheduler, Action))
        ensures
            opening.0 == (Scheduler { phase: Phase::Connecting, cadence_ms }),
            opening.1 == Action::Connect,
    {
        (Scheduler { phase: Phase::Connecting, cadence_ms }, Action::Connect)
    }

    /// Takes the report of what the last action came to and names the
    /// next action. An event that answers no action of the current phase
    /// is refused with `None` and changes nothing.
    pub fn step(&mut self, event: Event) -> (action: Option<Action>)
        ensures
            final(self).cadence_ms == old(self).cadence_ms,
            match transition(old(self).phase, old(self).cadence_ms, event) {
                Some((phase, next)) => final(self).phase == phase && action == Some(next),
                None => final(self).phase == old(self).phase && action is None,
            },
    {
        let (phase, action) = match (self.phase, event) {
            (Phase::Fatal(reason), _) => (self.phase, Action::Halt(reason)),
            (Phase::Connecting, Event::Connected) => (Phase::Ready, Action::Pause { ms: 0 }),
            (Phase::Connecting, Event::ConnectFailed) => (
                Phase::Fatal(FatalReason::ConnectFailed),
                Action::Halt(FatalReason::ConnectFailed),
            ),
            (Phase::Ready, Event::TickDue) => (Phase::Waiting, Action::AwaitWritable),
            (Phase::Waiting, Event::Writable) => (Phase::Sending, Action::Send),
            (Phase::Waiting, Event::ReadinessFailed) => (
                Phase::Fatal(FatalReason::TransportLost),
                Action::Halt(FatalReason::TransportLost),
            ),
            (Phase::Sending, Event::Sent) | (Phase::Sending, Event::Skipped) | (
                Phase::Sending,
                Event::WriteFailed,
            ) => (Phase::Ready, Action::Pause { ms: self.cadence_ms }),
            (Phase::Sending, Event::SourceFailed) => (
                Phase::Fatal(FatalReason::SourceFailed),
                Action::Halt(FatalReason::SourceFailed),
            ),
            _ => {
                return None;
            },
        };
        self.phase = phase;
        Some(action)
    }
}

/// Back-pressure is never bypassed: the only way into `Sending` is the
/// report, made while waiting, that the transport takes a write.
pub proof fn sending_follows_writable(phase: Phase, cadence_ms: u64, event: Event)
    requires
        transition(phase, cadence_ms, event) matches Some((next, _)) && next is Sending,
    ensures
        phase is Waiting,
        event is Writable,
{
}

/// A write that failed costs the document and nothing else: the run goes
/// on as after a write that succeeded.
pub proof fn write_failure_is_survived(cadence_ms: u64)
    ensures
        transition(Phase::Sending, cadence_ms, Event::WriteFailed) == transition(
            Phase::Sending,
            cadence_ms,
            Event::Sent,
        ),
        transition(Phase::Sending, cadence_ms, Event::Skipped) == transition(
            Phase::Sending,
            cadence_ms,
            Event::Sent,
        ),
        transition(Phase::Sending, cadence_ms, Event::Sent) == Some(
            (Phase::Ready, Action::Pause { ms: cadence_ms }),
        ),
{
}

/// A run ends only when a connection cannot be opened, the transport
/// fails while the run waits for it, or the source stops; and a run that
/// has ended stays ended, for the reason for which it ended.
pub proof fn runs_end_for_cause(phase: Phase, cadence_ms: u64, event: Event)
    ensures
        phase matches Phase::Fatal(reason) ==> transition(phase, cadence_ms, event) == Some(
            (phase, Action::Halt(reason)),
        ),
        phase !is Fatal ==> (transition(phase, cadence_ms, event) matches Some((next, _))
            ==> next is Fatal ==> (event is ConnectFailed || event is ReadinessFailed
            || event is SourceFailed)),
{
}

} // verus!
