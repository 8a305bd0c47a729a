use cot_bridge::cot::CotEventKind;
use cot_bridge::dispatch::{Action, Event, FatalReason, Phase, Scenario, Scheduler};

const EVENTS: [Event; 9] = [
    Event::Connected,
    Event::ConnectFailed,
    Event::TickDue,
    Event::Writable,
    Event::ReadinessFailed,
    Event::Sent,
    Event::Skipped,
    Event::WriteFailed,
    Event::SourceFailed,
];

fn in_phase(phase: Phase) -> Scheduler {
    Scheduler { phase, cadence_ms: 2000 }
}

#[test]
fn selectors_name_scenarios() {
    assert_eq!(Scenario::from_selector("status"), Some(Scenario::Status));
    assert_eq!(Scenario::from_selector("fake"), Some(Scenario::Status));
    assert_eq!(Scenario::from_selector("detect"), Some(Scenario::Detect));
    assert_eq!(Scenario::from_selector("image"), Some(Scenario::Image));
}

#[test]
fn other_words_name_no_scenario() {
    for word in ["help", "", "gps", "Status", "status ", "images", "detec"] {
        assert_eq!(Scenario::from_selector(word), None);
    }
}

#[test]
fn each_scenario_has_its_cadence() {
    assert_eq!(Scenario::Status.cadence_ms(), 2000);
    assert_eq!(Scenario::Detect.cadence_ms(), 1000);
    assert_eq!(Scenario::Image.cadence_ms(), 10000);
}

#[test]
fn each_scenario_has_its_kind_of_event() {
    assert_eq!(Scenario::Status.event_kind("QUJD".to_string()), CotEventKind::FriendlyTrack);
    assert_eq!(Scenario::Detect.event_kind("QUJD".to_string()), CotEventKind::UnknownDetection);
    assert_eq!(
        Scenario::Image.event_kind("QUJD".to_string()),
        CotEventKind::UnknownImageAttachment { payload: "QUJD".to_string() }
    );
}

#[test]
fn a_run_opens_by_connecting() {
    let (scheduler, action) = Scheduler::new(1000);
    assert_eq!(scheduler, Scheduler { phase: Phase::Connecting, cadence_ms: 1000 });
    assert_eq!(action, Action::Connect);
}

#[test]
fn a_run_connects_and_then_repeats_ticks() {
    let (mut scheduler, _) = Scheduler::new(2000);
    assert_eq!(scheduler.step(Event::Connected), Some(Action::Pause { ms: 0 }));
    assert_eq!(scheduler.phase, Phase::Ready);
    for outcome in [Event::Sent, Event::Skipped, Event::WriteFailed, Event::Sent] {
        assert_eq!(scheduler.step(Event::TickDue), Some(Action::AwaitWritable));
        assert_eq!(scheduler.phase, Phase::Waiting);
        assert_eq!(scheduler.step(Event::Writable), Some(Action::Send));
        assert_eq!(scheduler.phase, Phase::Sending);
        assert_eq!(scheduler.step(outcome), Some(Action::Pause { ms: 2000 }));
        assert_eq!(scheduler.phase, Phase::Ready);
    }
    assert_eq!(scheduler.cadence_ms, 2000);
}

#[test]
fn a_run_driven_by_its_source_does_not_pause() {
    let (mut scheduler, _) = Scheduler::new(0);
    scheduler.step(Event::Connected);
    scheduler.step(Event::TickDue);
    scheduler.step(Event::Writable);
    assert_eq!(scheduler.step(Event::Skipped), Some(Action::Pause { ms: 0 }));
}

#[test]
fn a_failed_connection_ends_the_run() {
    let (mut scheduler, _) = Scheduler::new(2000);
    assert_eq!(
        scheduler.step(Event::ConnectFailed),
        Some(Action::Halt(FatalReason::ConnectFailed))
    );
    assert_eq!(scheduler.phase, Phase::Fatal(FatalReason::ConnectFailed));
}

#[test]
fn a_transport_that_fails_while_waited_for_ends_the_run() {
    let mut scheduler = in_phase(Phase::Waiting);
    assert_eq!(
        scheduler.step(Event::ReadinessFailed),
        Some(Action::Halt(FatalReason::TransportLost))
    );
    assert_eq!(scheduler.phase, Phase::Fatal(FatalReason::TransportLost));
}

#[test]
fn a_source_that_stops_ends_the_run() {
    let mut scheduler = in_phase(Phase::Sending);
    assert_eq!(
        scheduler.step(Event::SourceFailed),
        Some(Action::Halt(FatalReason::SourceFailed))
    );
    assert_eq!(scheduler.phase, Phase::Fatal(FatalReason::SourceFailed));
}

#[test]
fn a_failed_write_is_survived() {
    let mut scheduler = in_phase(Phase::Sending);
    assert_eq!(scheduler.step(Event::WriteFailed), Some(Action::Pause { ms: 2000 }));
    assert_eq!(scheduler.phase, Phase::Ready);
}

#[test]
fn a_run_that_has_ended_stays_ended() {
    for reason in [
        FatalReason::ConnectFailed,
        FatalReason::TransportLost,
        FatalReason::SourceFailed,
    ] {
        for event in EVENTS {
            let mut scheduler = in_phase(Phase::Fatal(reason));
            assert_eq!(scheduler.step(event), Some(Action::Halt(reason)));
            assert_eq!(scheduler.phase, Phase::Fatal(reason));
        }
    }
}

#[test]
fn sending_is_reached_only_by_a_writable_transport() {
    for phase in [Phase::Connecting, Phase::Ready, Phase::Waiting, Phase::Sending] {
        for event in EVENTS {
            let mut scheduler = in_phase(phase);
            scheduler.step(event);
            if scheduler.phase == Phase::Sending && phase != Phase::Sending {
                assert_eq!(phase, Phase::Waiting);
                assert_eq!(event, Event::Writable);
            }
            if phase == Phase::Sending && scheduler.phase == Phase::Sending {
                assert!(!matches!(event, Event::Sent | Event::Skipped | Event::WriteFailed));
            }
        }
    }
}

#[test]
fn an_event_out_of_turn_is_refused() {
    let answered = [
        (Phase::Connecting, Event::Connected),
        (Phase::Connecting, Event::ConnectFailed),
        (Phase::Ready, Event::TickDue),
        (Phase::Waiting, Event::Writable),
        (Phase::Waiting, Event::ReadinessFailed),
        (Phase::Sending, Event::Sent),
        (Phase::Sending, Event::Skipped),
        (Phase::Sending, Event::WriteFailed),
        (Phase::Sending, Event::SourceFailed),
    ];
    for phase in [Phase::Connecting, Phase::Ready, Phase::Waiting, Phase::Sending] {
        for event in EVENTS {
            let mut scheduler = in_phase(phase);
            let action = scheduler.step(event);
            if answered.contains(&(phase, event)) {
                assert!(action.is_some());
            } else {
                assert_eq!(action, None);
                assert_eq!(scheduler, in_phase(phase));
            }
        }
    }
}
