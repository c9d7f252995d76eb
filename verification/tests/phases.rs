use web_service::phase::{step, ServiceEvent, ServicePhase};

#[test]
fn happy_path_runs_to_stopped() {
    let p = ServicePhase::Idle;
    let p = step(p, ServiceEvent::StartRequested);
    assert_eq!(p, ServicePhase::Starting);
    let p = step(p, ServiceEvent::BindSucceeded);
    assert_eq!(p, ServicePhase::Running);
    let p = step(p, ServiceEvent::ShutdownObserved);
    assert_eq!(p, ServicePhase::Draining);
    let p = step(p, ServiceEvent::DrainFinished);
    assert_eq!(p, ServicePhase::Stopped);
}

#[test]
fn loop_failure_ends_like_shutdown() {
    let p = step(ServicePhase::Running, ServiceEvent::LoopFailed);
    assert_eq!(p, ServicePhase::Draining);
    assert_eq!(step(p, ServiceEvent::DrainFinished), ServicePhase::Stopped);
}

#[test]
fn inapplicable_events_change_nothing() {
    assert_eq!(step(ServicePhase::Idle, ServiceEvent::DrainFinished), ServicePhase::Idle);
    assert_eq!(step(ServicePhase::Starting, ServiceEvent::ShutdownObserved), ServicePhase::Starting);
    assert_eq!(step(ServicePhase::Running, ServiceEvent::StartRequested), ServicePhase::Running);
    assert_eq!(step(ServicePhase::Draining, ServiceEvent::BindSucceeded), ServicePhase::Draining);
}

#[test]
fn stopped_is_terminal() {
    let events = [
        ServiceEvent::StartRequested,
        ServiceEvent::BindSucceeded,
        ServiceEvent::ShutdownObserved,
        ServiceEvent::LoopFailed,
        ServiceEvent::DrainFinished,
    ];
    for e in events {
        assert_eq!(step(ServicePhase::Stopped, e), ServicePhase::Stopped);
    }
}

#[test]
fn draining_never_accepts_again() {
    // from the draining phase, whatever happens, the service is never
    // running (the only phase that accepts new connections) again
    let events = [
        ServiceEvent::StartRequested,
        ServiceEvent::BindSucceeded,
        ServiceEvent::ShutdownObserved,
        ServiceEvent::LoopFailed,
    ];
    for e in events {
        assert_eq!(step(ServicePhase::Draining, e), ServicePhase::Draining);
    }
    assert_eq!(step(ServicePhase::Draining, ServiceEvent::DrainFinished), ServicePhase::Stopped);
}
