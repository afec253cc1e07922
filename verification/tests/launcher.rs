use tsusu::launcher::{
    ClientLauncher, ConnectError, LaunchAction, LaunchEvent, LaunchStage, BACKOFF_MILLIS,
    DEFAULT_MAX_ATTEMPTS,
};

fn run_without_daemon(max_attempts: u32) -> (u32, u32, u64, LaunchAction) {
    let mut launcher = ClientLauncher::new(max_attempts);
    let mut connects = 0;
    let mut spawns = 0;
    let mut slept = 0;
    loop {
        match launcher.action() {
            LaunchAction::Connect => {
                connects += 1;
                launcher = launcher.step(LaunchEvent::ConnectFailed);
            }
            LaunchAction::SpawnAndSleep(millis) => {
                spawns += 1;
                slept += millis;
                launcher = launcher.step(LaunchEvent::BackoffElapsed);
            }
            last => return (connects, spawns, slept, last),
        }
    }
}

#[test]
fn four_attempts_against_a_socket_that_never_accepts() {
    let (connects, spawns, slept, last) = run_without_daemon(4);
    assert_eq!(connects, 4);
    assert_eq!(spawns, 4);
    assert_eq!(slept, 2000);
    assert_eq!(last, LaunchAction::GiveUp(ConnectError::SpawnExhausted));
}

#[test]
fn attempts_are_bounded_for_every_bound() {
    for max_attempts in [0u32, 1, 2, 3, 7, 50] {
        let (connects, spawns, slept, last) = run_without_daemon(max_attempts);
        assert_eq!(connects, max_attempts);
        assert_eq!(spawns, max_attempts);
        assert_eq!(slept, u64::from(max_attempts) * BACKOFF_MILLIS);
        assert_eq!(last, LaunchAction::GiveUp(ConnectError::SpawnExhausted));
    }
}

#[test]
fn backoff_is_half_a_second_and_default_is_four_attempts() {
    assert_eq!(BACKOFF_MILLIS, 500);
    assert_eq!(DEFAULT_MAX_ATTEMPTS, 4);
    let launcher = ClientLauncher::default();
    assert_eq!(launcher.max_attempts(), 4);
    assert_eq!(launcher.attempts(), 0);
    assert_eq!(launcher.action(), LaunchAction::Connect);
}

#[test]
fn connects_at_once_when_a_daemon_listens() {
    let launcher = ClientLauncher::new(4);
    assert_eq!(launcher.action(), LaunchAction::Connect);
    assert_eq!(launcher.attempts(), 0);
    let launcher = launcher.step(LaunchEvent::Connected);
    assert_eq!(launcher.stage(), LaunchStage::Connected);
    assert_eq!(launcher.action(), LaunchAction::Proceed);
    assert_eq!(launcher.attempts(), 1);
}

#[test]
fn connects_after_a_daemon_was_started() {
    let launcher = ClientLauncher::new(4).step(LaunchEvent::ConnectFailed);
    assert_eq!(launcher.action(), LaunchAction::SpawnAndSleep(500));
    assert_eq!(launcher.attempts(), 1);
    let launcher = launcher.step(LaunchEvent::BackoffElapsed);
    assert_eq!(launcher.action(), LaunchAction::Connect);
    assert_eq!(launcher.attempts(), 1);
    let launcher = launcher.step(LaunchEvent::Connected);
    assert_eq!(launcher.action(), LaunchAction::Proceed);
    assert_eq!(launcher.attempts(), 2);
}

#[test]
fn last_attempt_may_still_succeed() {
    let mut launcher = ClientLauncher::new(4);
    for _ in 0..3 {
        launcher = launcher.step(LaunchEvent::ConnectFailed).step(LaunchEvent::BackoffElapsed);
    }
    assert_eq!(launcher.attempts(), 3);
    assert_eq!(launcher.action(), LaunchAction::Connect);
    let launcher = launcher.step(LaunchEvent::Connected);
    assert_eq!(launcher.action(), LaunchAction::Proceed);
    assert_eq!(launcher.attempts(), 4);
}

#[test]
fn counter_rises_with_each_attempt_and_reads_the_bound_when_exhausted() {
    let mut launcher = ClientLauncher::new(4);
    for made in 0..4 {
        assert_eq!(launcher.attempts(), made);
        assert_eq!(launcher.action(), LaunchAction::Connect);
        launcher = launcher.step(LaunchEvent::ConnectFailed);
        assert_eq!(launcher.attempts(), made + 1);
        launcher = launcher.step(LaunchEvent::BackoffElapsed);
        assert_eq!(launcher.attempts(), made + 1);
    }
    assert_eq!(launcher.stage(), LaunchStage::Exhausted);
    assert_eq!(launcher.attempts(), 4);
    let launcher = launcher.step(LaunchEvent::Connected);
    assert_eq!(launcher.attempts(), 4);
}

#[test]
fn finished_launcher_stays_finished() {
    let connected = ClientLauncher::new(2).step(LaunchEvent::Connected);
    let connected = connected.step(LaunchEvent::ConnectFailed).step(LaunchEvent::BackoffElapsed);
    assert_eq!(connected.action(), LaunchAction::Proceed);
    let exhausted = ClientLauncher::new(0);
    assert_eq!(exhausted.stage(), LaunchStage::Exhausted);
    assert_eq!(exhausted.attempts(), 0);
    let exhausted = exhausted.step(LaunchEvent::Connected);
    assert_eq!(exhausted.action(), LaunchAction::GiveUp(ConnectError::SpawnExhausted));
}

#[test]
fn a_new_launcher_starts_counting_afresh() {
    let (connects, _, _, _) = run_without_daemon(4);
    assert_eq!(connects, 4);
    let launcher = ClientLauncher::new(4);
    assert_eq!(launcher.attempts(), 0);
    assert_eq!(launcher.stage(), LaunchStage::Connecting);
}

#[test]
fn launcher_with_the_largest_bound_does_not_overflow() {
    let mut launcher = ClientLauncher::new(u32::MAX);
    for _ in 0..1000 {
        launcher = launcher.step(LaunchEvent::ConnectFailed).step(LaunchEvent::BackoffElapsed);
    }
    assert_eq!(launcher.attempts(), 1000);
    assert_eq!(launcher.action(), LaunchAction::Connect);
}
