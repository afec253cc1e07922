//! The daemon's event loop as a state machine.
//!
//! The daemon is single-threaded. It starts by creating its runtime
//! directory, writing the PID marker, binding the control socket and
//! registering the socket and the signal channel with the readiness
//! multiplexer. It then waits on the multiplexer, serves every connection
//! that a wake announces, and on a termination signal closes the socket,
//! releases the PID marker and exits.
//!
//! The machine performs none of this itself. [`Daemon::action`] names what
//! is to be done next and [`Daemon::step`] takes what came of it.

use vstd::prelude::*;

verus! {

/// The four phases of the daemon's life.
#[derive(Clone, Copy, Debug, PartialEq, Eq, Structural)]
pub enum Phase {
    Starting,
    Running,
    Stopping,
    Stopped,
}

/// Where exactly the daemon stands: the action whose result it awaits.
#[derive(Clone, Copy, Debug, PartialEq, Eq, Structural)]
pub enum Stage {
    CreatingDir,
    AcquiringPid,
    Binding,
    Registering,
    Waiting,
    Accepting,
    Serving,
    ClosingSocket,
    ReleasingPid,
    Stopped,
}

/// An event source registered with the multiplexer.
#[derive(Clone, Copy, Debug, PartialEq, Eq, Structural)]
pub enum Source {
    /// The control socket: a client is waiting to be accepted.
    Listener,
    /// The signal channel: a termination signal has arrived.
    Signal,
}

/// A failure that ends the daemon.
#[derive(Clone, Copy, Debug, PartialEq, Eq, Structural)]
pub enum DaemonError {
    /// The runtime directory, the PID marker or the multiplexer failed.
    Io,
    /// The control socket could not be bound: another daemon may own it.
    Bind,
}

/// What the caller is to do next.
#[derive(Clone, Copy, Debug, PartialEq, Eq, Structural)]
pub enum Action {
    /// Create the runtime directory.
    CreateRuntimeDir,
    /// Write the PID marker.
    AcquirePid,
    /// Bind the control socket.
    BindSocket,
    /// Register the socket and the signal channel with the multiplexer.
    RegisterSources,
    /// Block until a source is ready.
    Wait,
    /// Accept one pending connection, without blocking.
    Accept,
    /// Serve the connection that was accepted, then drop it.
    Serve,
    /// Stop listening and remove the socket path.
    CloseSocket,
    /// Remove the PID marker.
    ReleasePid,
    /// Leave the process with this exit code.
    Exit(i32),
}

/// What came of the last action.
#[derive(Debug)]
pub enum Event {
    /// The action succeeded.
    Completed,
    /// The action failed because what it was to create exists already.
    AlreadyExists,
    /// The action failed for any other reason.
    Failed,
    /// The multiplexer woke with these sources ready, in this order.
    Woke(Vec<Source>),
    /// A connection was accepted.
    Accepted,
    /// No connection was pending, or the one that was could not be accepted.
    NoConnection,
}

/// The daemon as the proofs see it.
pub struct DaemonState {
    pub stage: Stage,
    /// The PID marker of this daemon is on disk.
    pub pid_held: bool,
    /// The control socket is bound.
    pub socket_bound: bool,
    /// The failure that ended the daemon, if one did.
    pub failure: Option<DaemonError>,
    /// The sources of the last wake that have not been turned to yet.
    pub pending: Seq<Source>,
}

/// The daemon's event loop.
pub struct Daemon {
    stage: Stage,
    pid_held: bool,
    socket_bound: bool,
    failure: Option<DaemonError>,
    ready: Vec<Source>,
    handled: usize,
}

/// The token under which a source is registered.
pub open spec fn token_of_source(source: Source) -> usize {
    match source {
        Source::Listener => 0,
        Source::Signal => 1,
    }
}

/// The source registered under a token, if there is one.
pub open spec fn source_of_token(token: usize) -> Option<Source> {
    if token == 0 {
        Some(Source::Listener)
    } else if token == 1 {
        Some(Source::Signal)
    } else {
        None
    }
}

pub open spec fn phase_of(stage: Stage) -> Phase {
    match stage {
        Stage::CreatingDir | Stage::AcquiringPid | Stage::Binding | Stage::Registering =>
            Phase::Starting,
        Stage::Waiting | Stage::Accepting | Stage::Serving => Phase::Running,
        Stage::ClosingSocket | Stage::ReleasingPid => Phase::Stopping,
        Stage::Stopped => Phase::Stopped,
    }
}

/// A daemon that has done nothing yet.
pub open spec fn initial() -> DaemonState {
    DaemonState {
        stage: Stage::CreatingDir,
        pid_held: false,
        socket_bound: false,
        failure: None,
        pending: Seq::empty(),
    }
}

/// Gives up what is held: first the socket, then the PID marker. With
/// nothing left the daemon has stopped. What was pending is forgotten.
pub open spec fn unwind(s: DaemonState) -> DaemonState {
    DaemonState {
        stage: if s.socket_bound {
            Stage::ClosingSocket
        } else if s.pid_held {
            Stage::ReleasingPid
        } else {
            Stage::Stopped
        },
        pending: Seq::empty(),
        ..s
    }
}

/// Records a failure and begins to give up what is held.
pub open spec fn fail(s: DaemonState, error: DaemonError) -> DaemonState {
    unwind(DaemonState { failure: Some(error), ..s })
}

/// Turns to the next pending source: a ready listener is accepted from, a
/// signal begins the shutdown, and with nothing pending the daemon waits
/// again.
pub open spec fn dispatch(s: DaemonState) -> DaemonState {
    if s.pending.len() == 0 {
        DaemonState { stage: Stage::Waiting, ..s }
    } else if s.pending[0] == Source::Listener {
        DaemonState { stage: Stage::Accepting, pending: s.pending.drop_first(), ..s }
    } else {
        unwind(s)
    }
}

/// The state that follows `s` when `event` is reported.
pub open spec fn step_spec(s: DaemonState, event: Event) -> DaemonState {
    match s.stage {
        Stage::CreatingDir => if event is Completed || event is AlreadyExists {
            DaemonState { stage: Stage::AcquiringPid, ..s }
        } else {
            fail(s, DaemonError::Io)
        },
        Stage::AcquiringPid => if event is Completed {
            DaemonState { stage: Stage::Binding, pid_held: true, ..s }
        } else {
            fail(s, DaemonError::Io)
        },
        Stage::Binding => if event is Completed {
            DaemonState { stage: Stage::Registering, socket_bound: true, ..s }
        } else {
            fail(s, DaemonError::Bind)
        },
        Stage::Registering => if event is Completed {
            DaemonState { stage: Stage::Waiting, ..s }
        } else {
            fail(s, DaemonError::Io)
        },
        Stage::Waiting => match event {
            Event::Woke(ready) => dispatch(DaemonState { pending: ready@, ..s }),
            _ => fail(s, DaemonError::Io),
        },
        Stage::Accepting => if event is Accepted {
            DaemonState { stage: Stage::Serving, ..s }
        } else {
            dispatch(s)
        },
        Stage::Serving => DaemonState { stage: Stage::Accepting, ..s },
        Stage::ClosingSocket => unwind(DaemonState { socket_bound: false, ..s }),
        Stage::ReleasingPid => unwind(DaemonState { pid_held: false, ..s }),
        Stage::Stopped => s,
    }
}

/// The action that a state asks for.
pub open spec fn action_of(s: DaemonState) -> Action {
    match s.stage {
        Stage::CreatingDir => Action::CreateRuntimeDir,
        Stage::AcquiringPid => Action::AcquirePid,
        Stage::Binding => Action::BindSocket,
        Stage::Registering => Action::RegisterSources,
        Stage::Waiting => Action::Wait,
        Stage::Accepting => Action::Accept,
        Stage::Serving => Action::Serve,
        Stage::ClosingSocket => Action::CloseSocket,
        Stage::ReleasingPid => Action::ReleasePid,
        Stage::Stopped => Action::Exit(exit_code_of(s.failure)),
    }
}

/// 0 after a shutdown on request, 1 after a failure.
pub open spec fn exit_code_of(failure: Option<DaemonError>) -> i32 {
    if failure is None {
        0
    } else {
        1
    }
}

/// The state after a sequence of events, reported one after the other.
pub open spec fn run(s: DaemonState, events: Seq<Event>) -> DaemonState
    decreases events.len(),
{
    if events.len() == 0 {
        s
    } else {
        step_spec(run(s, events.drop_last()), events.last())
    }
}

impl DaemonState {
    /// What holds of the daemon at every moment of its life.
    ///
    /// The stage tells what is held: the PID marker from the moment it is
    /// written until it is released, the socket from the moment it is bound
    /// until it is closed, and the socket never without the marker. A
    /// daemon that has stopped holds nothing. A failure is on record only
    /// once the daemon is stopping, and sources are pending only while a
    /// listener is being served.
    pub open spec fn inv(self) -> bool {
        &&& match self.stage {
            Stage::CreatingDir | Stage::AcquiringPid | Stage::Stopped => !self.pid_held
                && !self.socket_bound,
            Stage::Binding | Stage::ReleasingPid => self.pid_held && !self.socket_bound,
            Stage::Registering | Stage::Waiting | Stage::Accepting | Stage::Serving
            | Stage::ClosingSocket => self.pid_held && self.socket_bound,
        }
        &&& self.failure is Some ==> phase_of(self.stage) == Phase::Stopping || phase_of(
            self.stage,
        ) == Phase::Stopped
        &&& self.pending.len() > 0 ==> self.stage == Stage::Accepting || self.stage
            == Stage::Serving
    }
}

impl View for Daemon {
    type V = DaemonState;

    closed spec fn view(&self) -> DaemonState {
        DaemonState {
            stage: self.stage,
            pid_held: self.pid_held,
            socket_bound: self.socket_bound,
            failure: self.failure,
            pending: if self.handled <= self.ready@.len() {
                self.ready@.skip(self.handled as int)
            } else {
                Seq::empty()
            },
        }
    }
}

/// The token under which a source is registered with the multiplexer.
pub fn token_of(source: Source) -> (token: usize)
    ensures
        token == token_of_source(source),
{
    match source {
        Source::Listener => 0,
        Source::Signal => 1,
    }
}

/// The source that a token of the multiplexer names. Only the tokens of
/// the two registered sources name one.
pub fn source_from_token(token: usize) -> (source: Option<Source>)
    ensures
        source == source_of_token(token),
{
    if token == 0 {
        Some(Source::Listener)
    } else if token == 1 {
        Some(Source::Signal)
    } else {
        None
    }
}

impl Daemon {
    /// A daemon that is about to start: it asks for its runtime directory.
    pub fn new() -> (daemon: Daemon)
        ensures
            daemon@ == initial(),
            daemon@.inv(),
    {
        let daemon = Daemon {
            stage: Stage::CreatingDir,
            pid_held: false,
            socket_bound: false,
            failure: None,
            ready: Vec::new(),
            handled: 0,
        };
        assert(daemon@.pending =~= Seq::empty());
        daemon
    }

    fn unwind(self) -> (next: Daemon)
        ensures
            next@ == unwind(self@),
    {
        let stage = if self.socket_bound {
            Stage::ClosingSocket
        } else if self.pid_held {
            Stage::ReleasingPid
        } else {
            Stage::Stopped
        };
        let next = Daemon {
            stage,
            pid_held: self.pid_held,
            socket_bound: self.socket_bound,
            failure: self.failure,
            ready: Vec::new(),
            handled: 0,
        };
        assert(next@.pending =~= Seq::empty());
        next
    }

    fn fail(self, error: DaemonError) -> (next: Daemon)
        ensures
            next@ == fail(self@, error),
    {
        let failed = Daemon {
            stage: self.stage,
            pid_held: self.pid_held,
            socket_bound: self.socket_bound,
            failure: Some(error),
            ready: self.ready,
            handled: self.handled,
        };
        failed.unwind()
    }

    fn dispatch(self) -> (next: Daemon)
        ensures
            next@ == dispatch(self@),
    {
        if self.handled >= self.ready.len() {
            self.at(Stage::Waiting)
        } else if self.ready[self.handled] == Source::Listener {
            let next = Daemon {
                stage: Stage::Accepting,
                pid_held: self.pid_held,
                socket_bound: self.socket_bound,
                failure: self.failure,
                ready: self.ready,
                handled: self.handled + 1,
            };
            assert(next@.pending =~= self@.pending.drop_first());
            next
        } else {
            self.unwind()
        }
    }

    fn at(self, stage: Stage) -> (next: Daemon)
        ensures
            next@ == (DaemonState { stage, ..self@ }),
    {
        Daemon {
            stage,
            pid_held: self.pid_held,
            socket_bound: self.socket_bound,
            failure: self.failure,
            ready: self.ready,
            handled: self.handled,
        }
    }

    /// Takes the result of the action that the daemon asked for and moves
    /// on. Every event is accepted in every stage: one that reports no
    /// success of the pending action counts as its failure.
    pub fn step(self, event: Event) -> (next: Daemon)
        ensures
            next@ == step_spec(self@, event),
            self@.inv() ==> next@.inv(),
    {
        match self.stage {
            Stage::CreatingDir => match event {
                Event::Completed | Event::AlreadyExists => self.at(Stage::AcquiringPid),
                _ => self.fail(DaemonError::Io),
            },
            Stage::AcquiringPid => match event {
                Event::Completed => Daemon {
                    stage: Stage::Binding,
                    pid_held: true,
                    socket_bound: self.socket_bound,
                    failure: self.failure,
                    ready: self.ready,
                    handled: self.handled,
                },
                _ => self.fail(DaemonError::Io),
            },
            Stage::Binding => match event {
                Event::Completed => Daemon {
                    stage: Stage::Registering,
                    pid_held: self.pid_held,
                    socket_bound: true,
                    failure: self.failure,
                    ready: self.ready,
                    handled: self.handled,
                },
                _ => self.fail(DaemonError::Bind),
            },
            Stage::Registering => match event {
                Event::Completed => self.at(Stage::Waiting),
                _ => self.fail(DaemonError::Io),
            },
            Stage::Waiting => match event {
                Event::Woke(ready) => {
                    let woken = Daemon {
                        stage: self.stage,
                        pid_held: self.pid_held,
                        socket_bound: self.socket_bound,
                        failure: self.failure,
                        ready,
                        handled: 0,
                    };
                    assert(woken@.pending =~= ready@);
                    woken.dispatch()
                },
                _ => self.fail(DaemonError::Io),
            },
            Stage::Accepting => match event {
                Event::Accepted => self.at(Stage::Serving),
                _ => self.dispatch(),
            },
            Stage::Serving => self.at(Stage::Accepting),
            Stage::ClosingSocket => {
                let closed = Daemon {
                    stage: self.stage,
                    pid_held: self.pid_held,
                    socket_bound: false,
                    failure: self.failure,
                    ready: self.ready,
                    handled: self.handled,
                };
                closed.unwind()
            },
            Stage::ReleasingPid => {
                let released = Daemon {
                    stage: self.stage,
                    pid_held: false,
                    socket_bound: self.socket_bound,
                    failure: self.failure,
                    ready: self.ready,
                    handled: self.handled,
                };
                released.unwind()
            },
            Stage::Stopped => self,
        }
    }

    /// The action whose result the daemon awaits.
    pub fn action(&self) -> (action: Action)
        ensures
            action == action_of(self@),
    {
        match self.stage {
            Stage::CreatingDir => Action::CreateRuntimeDir,
            Stage::AcquiringPid => Action::AcquirePid,
            Stage::Binding => Action::BindSocket,
            Stage::Registering => Action::RegisterSources,
            Stage::Waiting => Action::Wait,
            Stage::Accepting => Action::Accept,
            Stage::Serving => Action::Serve,
            Stage::ClosingSocket => Action::CloseSocket,
            Stage::ReleasingPid => Action::ReleasePid,
            Stage::Stopped => Action::Exit(
                match self.failure {
                    None => 0,
                    Some(_) => 1,
                },
            ),
        }
    }

    pub fn stage(&self) -> (stage: Stage)
        ensures
            stage == self@.stage,
    {
        self.stage
    }

    pub fn phase(&self) -> (phase: Phase)
        ensures
            phase == phase_of(self@.stage),
    {
        match self.stage {
            Stage::CreatingDir | Stage::AcquiringPid | Stage::Binding | Stage::Registering =>
                Phase::Starting,
            Stage::Waiting | Stage::Accepting | Stage::Serving => Phase::Running,
            Stage::ClosingSocket | Stage::ReleasingPid => Phase::Stopping,
            Stage::Stopped => Phase::Stopped,
        }
    }

    /// Whether this daemon's PID marker is on disk.
    pub fn holds_pid(&self) -> (held: bool)
        ensures
            held == self@.pid_held,
    {
        self.pid_held
    }

    /// Whether the control socket is bound.
    pub fn holds_socket(&self) -> (bound: bool)
        ensures
            bound == self@.socket_bound,
    {
        self.socket_bound
    }

    /// The failure that is ending the daemon, or has ended it.
    pub fn failure(&self) -> (failure: Option<DaemonError>)
        ensures
            failure == self@.failure,
    {
        self.failure
    }
}

/// The invariant holds of a fresh daemon, and every step keeps it.
pub proof fn lemma_step_keeps_inv(s: DaemonState, event: Event)
    requires
        s.inv(),
    ensures
        initial().inv(),
        step_spec(s, event).inv(),
{
}

/// Whatever is reported to the daemon, in whatever order, the invariant
/// holds: the socket is never bound without the PID marker on disk, and a
/// daemon that has stopped has given up both.
pub proof fn lemma_run_keeps_inv(events: Seq<Event>)
    ensures
        run(initial(), events).inv(),
        run(initial(), events).socket_bound ==> run(initial(), events).pid_held,
        run(initial(), events).stage == Stage::Stopped ==> !run(initial(), events).pid_held
            && !run(initial(), events).socket_bound,
    decreases events.len(),
{
    if events.len() > 0 {
        lemma_run_keeps_inv(events.drop_last());
        lemma_step_keeps_inv(run(initial(), events.drop_last()), events.last());
    }
}

/// A daemon that has stopped stays as it is, whatever is reported to it:
/// it asks for nothing but to exit, and asking it to shut down again
/// changes nothing.
pub proof fn lemma_stopped_is_final(s: DaemonState, event: Event)
    requires
        s.stage == Stage::Stopped,
    ensures
        step_spec(s, event) == s,
        action_of(s) == Action::Exit(exit_code_of(s.failure)),
{
}

/// A shutdown takes two steps, whatever comes of them: the socket is
/// closed, then the PID marker is released, then the daemon has stopped
/// with nothing held. If no failure was on record it exits with code 0.
pub proof fn lemma_shutdown_completes(s: DaemonState, first: Event, second: Event)
    requires
        s.inv(),
        s.stage == Stage::ClosingSocket,
    ensures
        action_of(s) == Action::CloseSocket,
        action_of(step_spec(s, first)) == Action::ReleasePid,
        !step_spec(s, first).socket_bound && step_spec(s, first).pid_held,
        step_spec(step_spec(s, first), second).stage == Stage::Stopped,
        action_of(step_spec(step_spec(s, first), second)) == Action::Exit(
            exit_code_of(s.failure),
        ),
{
}

/// A running daemon leaves the running phase only to shut down, and only
/// for one of two reasons: the next ready source is the signal channel, or
/// the multiplexer failed. Accepting and serving connections, with or
/// without success, never ends it.
pub proof fn lemma_running_ends_on_signal_or_fault(s: DaemonState, event: Event)
    requires
        s.inv(),
        phase_of(s.stage) == Phase::Running,
        phase_of(step_spec(s, event).stage) != Phase::Running,
    ensures
        step_spec(s, event).stage == Stage::ClosingSocket,
        match s.stage {
            Stage::Waiting => match event {
                Event::Woke(ready) => ready@.len() > 0 && ready@[0] == Source::Signal
                    && step_spec(s, event).failure is None,
                _ => step_spec(s, event).failure == Some(DaemonError::Io),
            },
            _ => s.stage == Stage::Accepting && !(event is Accepted) && s.pending.len() > 0
                && s.pending[0] == Source::Signal && step_spec(s, event).failure is None,
        },
{
}

/// The daemon accepts only from a listener that the multiplexer reported
/// ready: it turns to accepting from a wake that names the listener, from
/// a connection just served, or from a listener that has run dry when the
/// same wake named the listener once more.
pub proof fn lemma_accepts_only_when_ready(s: DaemonState, event: Event)
    requires
        s.inv(),
        step_spec(s, event).stage == Stage::Accepting,
    ensures
        match s.stage {
            Stage::Waiting => event matches Event::Woke(ready) && ready@.len() > 0 && ready@[0]
                == Source::Listener,
            Stage::Accepting => !(event is Accepted) && s.pending.len() > 0 && s.pending[0]
                == Source::Listener,
            _ => s.stage == Stage::Serving,
        },
{
}

/// A failure while starting never lets the daemon run: it gives up what
/// it holds and stops with a failure on record, so with a non-zero exit
/// code. A socket that cannot be bound is reported as such.
pub proof fn lemma_failed_start_never_runs(s: DaemonState, event: Event)
    requires
        s.inv(),
        phase_of(s.stage) == Phase::Starting,
        !(event is Completed),
        !(s.stage == Stage::CreatingDir && event is AlreadyExists),
    ensures
        step_spec(s, event) == fail(
            s,
            if s.stage == Stage::Binding {
                DaemonError::Bind
            } else {
                DaemonError::Io
            },
        ),
        phase_of(step_spec(s, event).stage) == Phase::Stopping || phase_of(
            step_spec(s, event).stage,
        ) == Phase::Stopped,
        exit_code_of(step_spec(s, event).failure) == 1,
{
}

} // verus!
