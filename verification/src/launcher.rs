//! How a client reaches the daemon: connect, and if nobody listens start a
//! daemon, wait a moment and try again, a bounded number of times.
//!
//! The launcher connects, starts and sleeps through its caller:
//! [`ClientLauncher::action`] names what is to be done next and
//! [`ClientLauncher::step`] takes what came of it.

use vstd::prelude::*;

verus! {

/// How many times a client tries to connect unless told otherwise.
pub const DEFAULT_MAX_ATTEMPTS: u32 = 4;

/// How long a client waits after starting a daemon, in milliseconds.
pub const BACKOFF_MILLIS: u64 = 500;

/// Why a client could not reach the daemon.
#[derive(Clone, Copy, Debug, PartialEq, Eq, Structural)]
pub enum ConnectError {
    /// Every attempt failed, though a daemon was started after each.
    SpawnExhausted,
}

#[derive(Clone, Copy, Debug, PartialEq, Eq, Structural)]
pub enum LaunchStage {
    /// An attempt to connect is under way.
    Connecting,
    /// The last attempt failed; a daemon is being started.
    BackingOff,
    /// An attempt succeeded.
    Connected,
    /// All attempts failed.
    Exhausted,
}

/// What the caller is to do next.
#[derive(Clone, Copy, Debug, PartialEq, Eq, Structural)]
pub enum LaunchAction {
    /// Try to connect to the control socket.
    Connect,
    /// Start a daemon in the background, then sleep for so many
    /// milliseconds.
    SpawnAndSleep(u64),
    /// Use the connection of the last attempt.
    Proceed,
    /// Give up with this error.
    GiveUp(ConnectError),
}

/// What came of the last action.
#[derive(Clone, Copy, Debug, PartialEq, Eq, Structural)]
pub enum LaunchEvent {
    /// The attempt to connect succeeded.
    Connected,
    /// The attempt to connect failed.
    ConnectFailed,
    /// A daemon was started and the pause is over.
    BackoffElapsed,
}

/// The launcher as the proofs see it.
pub struct LauncherState {
    pub stage: LaunchStage,
    /// How many attempts to connect have been made.
    pub attempts: nat,
    /// How many attempts may be made.
    pub max_attempts: nat,
}

/// The connect-or-start retry loop of one client invocation.
#[derive(Debug)]
pub struct ClientLauncher {
    stage: LaunchStage,
    attempts: u32,
    max_attempts: u32,
}

/// Turns to another attempt if one is left, and gives up if none is.
pub open spec fn next_attempt(s: LauncherState) -> LauncherState {
    if s.attempts < s.max_attempts {
        LauncherState { stage: LaunchStage::Connecting, ..s }
    } else {
        LauncherState { stage: LaunchStage::Exhausted, ..s }
    }
}

/// A launcher that may make `max_attempts` attempts and has made none.
pub open spec fn begin(max_attempts: nat) -> LauncherState {
    next_attempt(LauncherState { stage: LaunchStage::BackingOff, attempts: 0, max_attempts })
}

/// The state that follows `s` when `event` is reported. Each attempt to
/// connect counts, whatever came of it. An attempt that is not reported
/// as connected has failed; after a failed attempt the next report,
/// whatever it says, ends the pause.
pub open spec fn launch_step(s: LauncherState, event: LaunchEvent) -> LauncherState {
    match s.stage {
        LaunchStage::Connecting => if event == LaunchEvent::Connected {
            LauncherState { stage: LaunchStage::Connected, attempts: s.attempts + 1, ..s }
        } else {
            LauncherState { stage: LaunchStage::BackingOff, attempts: s.attempts + 1, ..s }
        },
        LaunchStage::BackingOff => next_attempt(s),
        LaunchStage::Connected | LaunchStage::Exhausted => s,
    }
}

/// The action that a state asks for.
pub open spec fn launch_action(s: LauncherState) -> LaunchAction {
    match s.stage {
        LaunchStage::Connecting => LaunchAction::Connect,
        LaunchStage::BackingOff => LaunchAction::SpawnAndSleep(BACKOFF_MILLIS),
        LaunchStage::Connected => LaunchAction::Proceed,
        LaunchStage::Exhausted => LaunchAction::GiveUp(ConnectError::SpawnExhausted),
    }
}

/// The state after `rounds` attempts that each failed and were each
/// followed by a pause.
pub open spec fn after_failed_rounds(s: LauncherState, rounds: nat) -> LauncherState
    decreases rounds,
{
    if rounds == 0 {
        s
    } else {
        launch_step(
            launch_step(
                after_failed_rounds(s, (rounds - 1) as nat),
                LaunchEvent::ConnectFailed,
            ),
            LaunchEvent::BackoffElapsed,
        )
    }
}

/// The state after a sequence of events, reported one after the other.
pub open spec fn launch_run(s: LauncherState, events: Seq<LaunchEvent>) -> LauncherState
    decreases events.len(),
{
    if events.len() == 0 {
        s
    } else {
        launch_step(launch_run(s, events.drop_last()), events.last())
    }
}

impl LauncherState {
    /// The launcher has come to an end: connected, or out of attempts.
    pub open spec fn finished(self) -> bool {
        self.stage == LaunchStage::Connected || self.stage == LaunchStage::Exhausted
    }

    /// What holds of a launcher at every moment: it never makes more
    /// attempts than it may. While it connects it has an attempt left, it
    /// pauses or proceeds only after an attempt, and it gives up only when
    /// it has made every attempt that it may.
    pub open spec fn inv(self) -> bool {
        &&& self.attempts <= self.max_attempts
        &&& match self.stage {
            LaunchStage::Connecting => self.attempts < self.max_attempts,
            LaunchStage::BackingOff | LaunchStage::Connected => self.attempts >= 1,
            LaunchStage::Exhausted => self.attempts == self.max_attempts,
        }
    }

    /// An upper bound on the reports that the launcher still takes before
    /// it comes to an end.
    pub open spec fn steps_left(self) -> nat {
        match self.stage {
            LaunchStage::Connecting => (2 * (self.max_attempts - self.attempts)) as nat,
            LaunchStage::BackingOff => (2 * (self.max_attempts - self.attempts) + 1) as nat,
            LaunchStage::Connected | LaunchStage::Exhausted => 0,
        }
    }
}

impl View for ClientLauncher {
    type V = LauncherState;

    closed spec fn view(&self) -> LauncherState {
        LauncherState {
            stage: self.stage,
            attempts: self.attempts as nat,
            max_attempts: self.max_attempts as nat,
        }
    }
}

impl ClientLauncher {
    #[verifier::type_invariant]
    spec fn wf(self) -> bool {
        self@.inv()
    }

    /// A launcher for one client invocation. It has made no attempt: it
    /// asks for the first one, or gives up at once if it may make none.
    pub fn new(max_attempts: u32) -> (launcher: ClientLauncher)
        ensures
            launcher@ == begin(max_attempts as nat),
            launcher@.attempts == 0,
            launcher@.inv(),
    {
        if max_attempts > 0 {
            ClientLauncher { stage: LaunchStage::Connecting, attempts: 0, max_attempts }
        } else {
            ClientLauncher { stage: LaunchStage::Exhausted, attempts: 0, max_attempts }
        }
    }

    /// Takes the result of the action that the launcher asked for and
    /// moves on.
    pub fn step(self, event: LaunchEvent) -> (next: ClientLauncher)
        ensures
            next@ == launch_step(self@, event),
            next@.inv(),
    {
        proof {
            use_type_invariant(&self);
        }
        match self.stage {
            LaunchStage::Connecting => {
                let stage = match event {
                    LaunchEvent::Connected => LaunchStage::Connected,
                    _ => LaunchStage::BackingOff,
                };
                ClientLauncher {
                    stage,
                    attempts: self.attempts + 1,
                    max_attempts: self.max_attempts,
                }
            },
            LaunchStage::BackingOff => {
                if self.attempts < self.max_attempts {
                    ClientLauncher {
                        stage: LaunchStage::Connecting,
                        attempts: self.attempts,
                        max_attempts: self.max_attempts,
                    }
                } else {
                    ClientLauncher {
                        stage: LaunchStage::Exhausted,
                        attempts: self.attempts,
                        max_attempts: self.max_attempts,
                    }
                }
            },
            LaunchStage::Connected | LaunchStage::Exhausted => self,
        }
    }

    /// The action whose result the launcher awaits.
    pub fn action(&self) -> (action: LaunchAction)
        ensures
            action == launch_action(self@),
    {
        match self.stage {
            LaunchStage::Connecting => LaunchAction::Connect,
            LaunchStage::BackingOff => LaunchAction::SpawnAndSleep(BACKOFF_MILLIS),
            LaunchStage::Connected => LaunchAction::Proceed,
            LaunchStage::Exhausted => LaunchAction::GiveUp(ConnectError::SpawnExhausted),
        }
    }

    pub fn stage(&self) -> (stage: LaunchStage)
        ensures
            stage == self@.stage,
    {
        self.stage
    }

    /// How many attempts to connect have been made: none by a new
    /// launcher, one more with each attempt that is reported.
    pub fn attempts(&self) -> (attempts: u32)
        ensures
            attempts == self@.attempts,
            attempts <= self@.max_attempts,
    {
        proof {
            use_type_invariant(self);
        }
        self.attempts
    }

    pub fn max_attempts(&self) -> (max_attempts: u32)
        ensures
            max_attempts == self@.max_attempts,
    {
        self.max_attempts
    }
}

impl Default for ClientLauncher {
    fn default() -> (launcher: ClientLauncher)
        ensures
            launcher@ == begin(DEFAULT_MAX_ATTEMPTS as nat),
            launcher@.attempts == 0,
    {
        ClientLauncher::new(DEFAULT_MAX_ATTEMPTS)
    }
}

/// The invariant holds of a new launcher, every step keeps it, and the
/// bound on the attempts never changes.
pub proof fn lemma_launch_step_keeps_inv(s: LauncherState, event: LaunchEvent, max_attempts: nat)
    requires
        s.inv(),
    ensures
        begin(max_attempts).inv(),
        launch_step(s, event).inv(),
        launch_step(s, event).max_attempts == s.max_attempts,
        launch_step(s, event).attempts >= s.attempts,
{
}

/// When no attempt ever succeeds, a launcher that may make `max_attempts`
/// attempts makes exactly that many, starts a daemon and pauses after each
/// of them, and then gives up: after fewer failed rounds it is connecting
/// again, after `max_attempts` of them it is exhausted. Its count is the
/// number of the rounds.
pub proof fn lemma_exhausted_after_max_failures(max_attempts: nat, rounds: nat)
    requires
        rounds <= max_attempts,
    ensures
        after_failed_rounds(begin(max_attempts), rounds) == (if rounds < max_attempts {
            LauncherState {
                stage: LaunchStage::Connecting,
                attempts: rounds,
                max_attempts,
            }
        } else {
            LauncherState { stage: LaunchStage::Exhausted, attempts: max_attempts, max_attempts }
        }),
        rounds < max_attempts ==> launch_action(
            launch_step(
                after_failed_rounds(begin(max_attempts), rounds),
                LaunchEvent::ConnectFailed,
            ),
        ) == LaunchAction::SpawnAndSleep(BACKOFF_MILLIS),
    decreases rounds,
{
    if rounds > 0 {
        lemma_exhausted_after_max_failures(max_attempts, (rounds - 1) as nat);
    }
}

/// The count starts at nothing and rises by one with each attempt to
/// connect, and with nothing else. A launcher that connects at its k-th
/// attempt, after k - 1 failed rounds, counts k.
pub proof fn lemma_counts_attempts(s: LauncherState, event: LaunchEvent, max_attempts: nat, k: nat)
    requires
        1 <= k <= max_attempts,
    ensures
        begin(max_attempts).attempts == 0,
        launch_step(s, event).attempts == if s.stage == LaunchStage::Connecting {
            s.attempts + 1
        } else {
            s.attempts
        },
        launch_step(
            after_failed_rounds(begin(max_attempts), (k - 1) as nat),
            LaunchEvent::Connected,
        ) == (LauncherState { stage: LaunchStage::Connected, attempts: k, max_attempts }),
{
    lemma_exhausted_after_max_failures(max_attempts, (k - 1) as nat);
}

/// Every report brings a launcher that is at work closer to its end.
pub proof fn lemma_launch_step_progress(s: LauncherState, event: LaunchEvent)
    requires
        s.inv(),
    ensures
        s.finished() <==> s.steps_left() == 0,
        s.finished() ==> launch_step(s, event) == s,
        !s.finished() ==> launch_step(s, event).steps_left() < s.steps_left(),
{
}

/// A launcher never hangs: whatever is reported to it, after twice as
/// many reports as it may make attempts it has come to an end, and it has
/// made no more attempts than it may.
pub proof fn lemma_launch_terminates(max_attempts: nat, events: Seq<LaunchEvent>)
    ensures
        launch_run(begin(max_attempts), events).inv(),
        launch_run(begin(max_attempts), events).max_attempts == max_attempts,
        launch_run(begin(max_attempts), events).steps_left() + events.len() <= 2 * max_attempts
            || launch_run(begin(max_attempts), events).finished(),
        events.len() >= 2 * max_attempts ==> launch_run(begin(max_attempts), events).finished(),
    decreases events.len(),
{
    if events.len() > 0 {
        let before = launch_run(begin(max_attempts), events.drop_last());
        lemma_launch_terminates(max_attempts, events.drop_last());
        lemma_launch_step_keeps_inv(before, events.last(), max_attempts);
        lemma_launch_step_progress(before, events.last());
        lemma_launch_step_progress(launch_step(before, events.last()), events.last());
    } else {
        lemma_launch_step_keeps_inv(begin(max_attempts), LaunchEvent::Connected, max_attempts);
        lemma_launch_step_progress(begin(max_attempts), LaunchEvent::Connected);
    }
}

} // verus!
