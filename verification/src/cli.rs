//! What the program is asked to do, and what it reports after a stop.

use vstd::prelude::*;

verus! {

/// What one invocation of the program is to do.
#[derive(Clone, Copy, Debug, PartialEq, Eq, Structural)]
pub enum Mode {
    /// Run as the daemon. Only a client that starts a daemon asks for it.
    Daemon,
    /// List what the daemon manages.
    List,
    /// Print help.
    Help,
    /// Stop the running daemon.
    Stop,
}

/// What came of sending the termination signal to a process.
#[derive(Clone, Copy, Debug, PartialEq, Eq, Structural)]
pub enum Delivery {
    /// The signal was sent.
    Delivered,
    /// There is no process with that id.
    NoSuchProcess,
    /// The signal could not be sent for another reason.
    Refused,
}

/// What a stop has achieved.
#[derive(Clone, Copy, Debug, PartialEq, Eq, Structural)]
pub enum StopOutcome {
    /// The daemon with this process id was told to stop.
    Stopped(u32),
    /// No daemon was running.
    NotRunning,
    /// A daemon may be running, but it could not be told to stop.
    Failed,
}

/// The mode that the first argument of the program asks for, if it asks
/// for one. Without an argument the program prints help.
pub open spec fn mode_of(arg: Option<Seq<char>>) -> Option<Mode> {
    match arg {
        None => Some(Mode::Help),
        Some(word) => if word == "_daemon"@ {
            Some(Mode::Daemon)
        } else if word == "help"@ {
            Some(Mode::Help)
        } else if word == "list"@ {
            Some(Mode::List)
        } else if word == "stop"@ {
            Some(Mode::Stop)
        } else {
            None
        },
    }
}

/// What a stop has achieved. A marker that names a process that is gone
/// is a stale one: the daemon is not running, which is no failure.
pub open spec fn stop_outcome_of(pid: u32, delivery: Delivery) -> StopOutcome {
    match delivery {
        Delivery::Delivered => StopOutcome::Stopped(pid),
        Delivery::NoSuchProcess => StopOutcome::NotRunning,
        Delivery::Refused => StopOutcome::Failed,
    }
}

/// The argument by which a client tells the program that it starts to run
/// as the daemon. It is no command for users.
pub fn daemon_directive() -> (word: &'static str)
    ensures
        word@ == "_daemon"@,
{
    "_daemon"
}

fn same_word(arg: &str, word: &str) -> (same: bool)
    ensures
        same == (arg@ == word@),
{
    String::from_str(arg) == String::from_str(word)
}

/// Reads the mode from the first argument of the program, `None` if there
/// is no argument. An argument that is no known command gives no mode.
pub fn parse_mode(arg: Option<&str>) -> (mode: Option<Mode>)
    ensures
        mode == mode_of(
            match arg {
                Some(word) => Some(word@),
                None => None,
            },
        ),
{
    match arg {
        None => Some(Mode::Help),
        Some(word) => {
            if same_word(word, daemon_directive()) {
                Some(Mode::Daemon)
            } else if same_word(word, "help") {
                Some(Mode::Help)
            } else if same_word(word, "list") {
                Some(Mode::List)
            } else if same_word(word, "stop") {
                Some(Mode::Stop)
            } else {
                None
            }
        },
    }
}

/// What to report after the termination signal was sent to the process
/// that the PID marker names: the process id of the daemon that was
/// stopped, that no daemon was running, or that the stop failed.
pub fn stop_outcome(pid: u32, delivery: Delivery) -> (outcome: StopOutcome)
    ensures
        outcome == stop_outcome_of(pid, delivery),
{
    match delivery {
        Delivery::Delivered => StopOutcome::Stopped(pid),
        Delivery::NoSuchProcess => StopOutcome::NotRunning,
        Delivery::Refused => StopOutcome::Failed,
    }
}

/// The four commands are told apart: each word gives its own mode.
pub proof fn lemma_modes_distinct()
    ensures
        mode_of(Some("_daemon"@)) == Some(Mode::Daemon),
        mode_of(Some("help"@)) == Some(Mode::Help),
        mode_of(Some("list"@)) == Some(Mode::List),
        mode_of(Some("stop"@)) == Some(Mode::Stop),
{
    reveal_strlit("_daemon");
    reveal_strlit("help");
    reveal_strlit("list");
    reveal_strlit("stop");
    assert("help"@[0] != "_daemon"@[0]);
    assert("list"@[0] != "_daemon"@[0]);
    assert("list"@[0] != "help"@[0]);
    assert("stop"@[0] != "_daemon"@[0]);
    assert("stop"@[0] != "help"@[0]);
    assert("stop"@[0] != "list"@[0]);
}

} // verus!
