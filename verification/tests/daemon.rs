use tsusu::daemon::{
    source_from_token, token_of, Action, Daemon, DaemonError, Event, Phase, Source, Stage,
};

fn started() -> Daemon {
    Daemon::new()
        .step(Event::Completed)
        .step(Event::Completed)
        .step(Event::Completed)
        .step(Event::Completed)
}

#[test]
fn startup_runs_in_order() {
    let daemon = Daemon::new();
    assert_eq!(daemon.phase(), Phase::Starting);
    assert_eq!(daemon.action(), Action::CreateRuntimeDir);
    assert!(!daemon.holds_pid() && !daemon.holds_socket());

    let daemon = daemon.step(Event::Completed);
    assert_eq!(daemon.action(), Action::AcquirePid);
    assert!(!daemon.holds_pid());

    let daemon = daemon.step(Event::Completed);
    assert_eq!(daemon.action(), Action::BindSocket);
    assert!(daemon.holds_pid() && !daemon.holds_socket());

    let daemon = daemon.step(Event::Completed);
    assert_eq!(daemon.action(), Action::RegisterSources);
    assert_eq!(daemon.phase(), Phase::Starting);
    assert!(daemon.holds_pid() && daemon.holds_socket());

    let daemon = daemon.step(Event::Completed);
    assert_eq!(daemon.action(), Action::Wait);
    assert_eq!(daemon.phase(), Phase::Running);
    assert_eq!(daemon.failure(), None);
}

#[test]
fn existing_runtime_dir_is_no_failure() {
    let daemon = Daemon::new().step(Event::AlreadyExists);
    assert_eq!(daemon.action(), Action::AcquirePid);
    assert_eq!(daemon.failure(), None);
}

#[test]
fn runtime_dir_failure_stops_at_once() {
    let daemon = Daemon::new().step(Event::Failed);
    assert_eq!(daemon.phase(), Phase::Stopped);
    assert_eq!(daemon.action(), Action::Exit(1));
    assert_eq!(daemon.failure(), Some(DaemonError::Io));
}

#[test]
fn pid_marker_failure_stops_at_once() {
    let daemon = Daemon::new().step(Event::Completed).step(Event::Failed);
    assert_eq!(daemon.phase(), Phase::Stopped);
    assert_eq!(daemon.action(), Action::Exit(1));
    assert_eq!(daemon.failure(), Some(DaemonError::Io));
    assert!(!daemon.holds_pid());
}

#[test]
fn bind_failure_releases_the_pid_marker_and_exits_non_zero() {
    let daemon = Daemon::new().step(Event::Completed).step(Event::Completed);
    for refusal in [Event::Failed, Event::AlreadyExists] {
        let daemon = Daemon::new().step(Event::Completed).step(Event::Completed).step(refusal);
        assert_eq!(daemon.failure(), Some(DaemonError::Bind));
        assert_eq!(daemon.action(), Action::ReleasePid);
        assert!(!daemon.holds_socket());
        let daemon = daemon.step(Event::Completed);
        assert_eq!(daemon.phase(), Phase::Stopped);
        assert_eq!(daemon.action(), Action::Exit(1));
        assert!(!daemon.holds_pid());
    }
    assert_eq!(daemon.action(), Action::BindSocket);
}

#[test]
fn registration_failure_gives_up_socket_then_marker() {
    let daemon = Daemon::new()
        .step(Event::Completed)
        .step(Event::Completed)
        .step(Event::Completed)
        .step(Event::Failed);
    assert_eq!(daemon.failure(), Some(DaemonError::Io));
    assert_eq!(daemon.action(), Action::CloseSocket);
    let daemon = daemon.step(Event::Completed);
    assert_eq!(daemon.action(), Action::ReleasePid);
    let daemon = daemon.step(Event::Completed);
    assert_eq!(daemon.action(), Action::Exit(1));
}

#[test]
fn signal_shuts_down_socket_first_then_marker_then_exit_zero() {
    let daemon = started().step(Event::Woke(vec![Source::Signal]));
    assert_eq!(daemon.phase(), Phase::Stopping);
    assert_eq!(daemon.action(), Action::CloseSocket);
    assert!(daemon.holds_pid() && daemon.holds_socket());

    let daemon = daemon.step(Event::Completed);
    assert_eq!(daemon.phase(), Phase::Stopping);
    assert_eq!(daemon.action(), Action::ReleasePid);
    assert!(daemon.holds_pid() && !daemon.holds_socket());

    let daemon = daemon.step(Event::Completed);
    assert_eq!(daemon.phase(), Phase::Stopped);
    assert_eq!(daemon.stage(), Stage::Stopped);
    assert_eq!(daemon.action(), Action::Exit(0));
    assert!(!daemon.holds_pid() && !daemon.holds_socket());
    assert_eq!(daemon.failure(), None);
}

#[test]
fn cleanup_is_best_effort() {
    let daemon = started().step(Event::Woke(vec![Source::Signal]));
    let daemon = daemon.step(Event::Failed);
    assert_eq!(daemon.action(), Action::ReleasePid);
    let daemon = daemon.step(Event::Failed);
    assert_eq!(daemon.action(), Action::Exit(0));
    assert_eq!(daemon.failure(), None);
}

#[test]
fn stopped_daemon_ignores_everything() {
    let mut daemon = started()
        .step(Event::Woke(vec![Source::Signal]))
        .step(Event::Completed)
        .step(Event::Completed);
    for _ in 0..3 {
        daemon = daemon.step(Event::Woke(vec![Source::Signal, Source::Listener]));
        assert_eq!(daemon.action(), Action::Exit(0));
        daemon = daemon.step(Event::Failed);
        assert_eq!(daemon.action(), Action::Exit(0));
        daemon = daemon.step(Event::Accepted);
        assert_eq!(daemon.phase(), Phase::Stopped);
        assert!(!daemon.holds_pid() && !daemon.holds_socket());
    }
}

#[test]
fn ready_listener_is_accepted_from_until_nothing_is_pending() {
    let daemon = started().step(Event::Woke(vec![Source::Listener]));
    assert_eq!(daemon.action(), Action::Accept);
    let daemon = daemon.step(Event::Accepted);
    assert_eq!(daemon.action(), Action::Serve);
    let daemon = daemon.step(Event::Completed);
    assert_eq!(daemon.action(), Action::Accept);
    let daemon = daemon.step(Event::Accepted);
    assert_eq!(daemon.action(), Action::Serve);
    let daemon = daemon.step(Event::Failed);
    assert_eq!(daemon.action(), Action::Accept);
    assert_eq!(daemon.phase(), Phase::Running);
    let daemon = daemon.step(Event::NoConnection);
    assert_eq!(daemon.action(), Action::Wait);
    assert_eq!(daemon.phase(), Phase::Running);
}

#[test]
fn failed_accept_changes_nothing() {
    let daemon = started().step(Event::Woke(vec![Source::Listener])).step(Event::Failed);
    assert_eq!(daemon.action(), Action::Wait);
    assert_eq!(daemon.phase(), Phase::Running);
    assert_eq!(daemon.failure(), None);
}

#[test]
fn empty_wake_waits_again() {
    let daemon = started().step(Event::Woke(vec![]));
    assert_eq!(daemon.action(), Action::Wait);
}

#[test]
fn all_ready_sources_are_drained_before_the_next_wait() {
    let daemon = started().step(Event::Woke(vec![Source::Listener, Source::Listener]));
    assert_eq!(daemon.action(), Action::Accept);
    let daemon = daemon.step(Event::NoConnection);
    assert_eq!(daemon.action(), Action::Accept);
    let daemon = daemon.step(Event::Accepted).step(Event::Completed);
    assert_eq!(daemon.action(), Action::Accept);
    let daemon = daemon.step(Event::NoConnection);
    assert_eq!(daemon.action(), Action::Wait);
}

#[test]
fn signal_after_listener_stops_once_the_listener_is_drained() {
    let daemon = started().step(Event::Woke(vec![Source::Listener, Source::Signal]));
    assert_eq!(daemon.action(), Action::Accept);
    let daemon = daemon.step(Event::Accepted).step(Event::Completed);
    assert_eq!(daemon.phase(), Phase::Running);
    let daemon = daemon.step(Event::NoConnection);
    assert_eq!(daemon.phase(), Phase::Stopping);
    assert_eq!(daemon.action(), Action::CloseSocket);
}

#[test]
fn nothing_is_served_after_a_signal() {
    let daemon = started().step(Event::Woke(vec![Source::Signal, Source::Listener]));
    assert_eq!(daemon.action(), Action::CloseSocket);
    let daemon = daemon.step(Event::Accepted);
    assert_eq!(daemon.action(), Action::ReleasePid);
    let daemon = daemon.step(Event::Accepted);
    assert_eq!(daemon.action(), Action::Exit(0));
}

#[test]
fn multiplexer_failure_shuts_down_with_failure() {
    let daemon = started().step(Event::Failed);
    assert_eq!(daemon.failure(), Some(DaemonError::Io));
    assert_eq!(daemon.action(), Action::CloseSocket);
    let daemon = daemon.step(Event::Completed).step(Event::Completed);
    assert_eq!(daemon.action(), Action::Exit(1));
}

#[test]
fn socket_is_never_held_without_the_marker() {
    let scripts: Vec<Vec<Event>> = vec![
        vec![Event::Completed, Event::Completed, Event::Completed, Event::Completed],
        vec![Event::Completed, Event::Completed, Event::Failed, Event::Failed],
        vec![Event::AlreadyExists, Event::Completed, Event::Completed, Event::Failed,
             Event::NoConnection, Event::Accepted],
        vec![Event::Completed, Event::Completed, Event::Completed, Event::Completed,
             Event::Woke(vec![Source::Listener, Source::Signal]), Event::Accepted,
             Event::Completed, Event::NoConnection, Event::Completed, Event::Completed],
    ];
    for script in scripts {
        let mut daemon = Daemon::new();
        for event in script {
            daemon = daemon.step(event);
            assert!(daemon.holds_pid() || !daemon.holds_socket());
            if daemon.phase() == Phase::Stopped {
                assert!(!daemon.holds_pid() && !daemon.holds_socket());
            }
        }
    }
}

#[test]
fn tokens_name_the_two_sources() {
    assert_eq!(token_of(Source::Listener), 0);
    assert_eq!(token_of(Source::Signal), 1);
    assert_eq!(source_from_token(0), Some(Source::Listener));
    assert_eq!(source_from_token(1), Some(Source::Signal));
    assert_eq!(source_from_token(2), None);
    assert_eq!(source_from_token(usize::MAX), None);
}
