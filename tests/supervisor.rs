use monitoring_core::supervisor::{Command, Failure, RunEvent, Supervisor};

#[test]
fn connect_failure_aborts_before_any_publisher() {
    // ten temperature readings wanted, no broker reachable
    let mut s = Supervisor::new(1, 1);
    assert_eq!(s.command(), Command::Connect { stream: 0 });
    let c = s.handle(RunEvent::ConnectFailed);
    assert_eq!(c, Command::Abort(Failure::Connection { stream: 0 }));
    assert_eq!(s.exit_status(), 1);
    assert_eq!(s.publishers_started, 0);
    assert_eq!(s.handle(RunEvent::Started), Command::Abort(Failure::Connection { stream: 0 }));
    assert_eq!(s.publishers_started, 0);
    assert!(!s.started);
}

#[test]
fn second_connection_failure_is_reported_with_its_index() {
    let mut s = Supervisor::new(2, 2);
    assert_eq!(s.handle(RunEvent::Connected), Command::Connect { stream: 1 });
    assert_eq!(s.handle(RunEvent::ConnectFailed), Command::Abort(Failure::Connection { stream: 1 }));
    assert_eq!(s.publishers_started, 0);
}

#[test]
fn first_failure_wins() {
    let mut s = Supervisor::new(2, 2);
    s.handle(RunEvent::Connected);
    s.handle(RunEvent::Connected);
    assert_eq!(s.command(), Command::Start);
    assert_eq!(s.handle(RunEvent::Started), Command::Await);
    assert_eq!(s.publishers_started, 2);
    let c = s.handle(RunEvent::UnitFailed(Failure::Publish { stream: 1 }));
    assert_eq!(c, Command::Abort(Failure::Publish { stream: 1 }));
    let c = s.handle(RunEvent::UnitFailed(Failure::Connection { stream: 0 }));
    assert_eq!(c, Command::Abort(Failure::Publish { stream: 1 }));
    assert_eq!(s.handle(RunEvent::PublisherDone), Command::Abort(Failure::Publish { stream: 1 }));
    assert_eq!(s.exit_status(), 1);
}

#[test]
fn run_succeeds_when_every_publisher_is_done() {
    let mut s = Supervisor::new(2, 2);
    s.handle(RunEvent::Connected);
    s.handle(RunEvent::Connected);
    s.handle(RunEvent::Started);
    assert_eq!(s.handle(RunEvent::PublisherDone), Command::Await);
    assert_eq!(s.handle(RunEvent::PublisherDone), Command::Succeed);
    assert_eq!(s.exit_status(), 0);
    // extra completions change nothing
    assert_eq!(s.handle(RunEvent::PublisherDone), Command::Succeed);
    assert_eq!(s.publishers_done, 2);
}

#[test]
fn start_is_ignored_before_every_connection_is_up() {
    let mut s = Supervisor::new(2, 2);
    s.handle(RunEvent::Connected);
    assert_eq!(s.handle(RunEvent::Started), Command::Connect { stream: 1 });
    assert!(!s.started);
    assert_eq!(s.publishers_started, 0);
}
