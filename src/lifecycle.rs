//! The server's lifecycle: its states, the events that move it between
//! them, and which operations each state allows.
use vstd::prelude::*;

verus! {

/// Where a supervised server stands.
#[derive(Clone, Copy, Debug, PartialEq, Eq, Structural)]
pub enum ServerState {
    Uninstalled,
    Installed,
    Initialized,
    Starting,
    Running,
    Stopping,
    Stopped,
    Failed,
}

/// What happened to the server, as the supervisor observes it.
#[derive(Clone, Copy, Debug, PartialEq, Eq, Structural)]
pub enum Event {
    /// The installation is in place.
    InstallFinished,
    /// The initializer ran against the data directory, or the directory was
    /// already initialized.
    InitializerFinished { success: bool },
    /// A start was asked for.
    StartRequested,
    /// The readiness probe succeeded.
    ServerReady,
    /// The readiness deadline passed.
    StartupTimedOut,
    /// The configured port was taken.
    PortTaken,
    /// A stop was asked for.
    StopRequested,
    /// The server process exited.
    ServerExited,
}

/// The failures of the engine.
#[derive(Clone, Copy, Debug, PartialEq, Eq, Structural)]
pub enum EngineError {
    VersionNotFound,
    UnsupportedPlatform,
    IndexUnavailable,
    ChecksumMismatch,
    DownloadError,
    ExtractionError,
    LockTimeout,
    InitializationFailed,
    StartupTimeout,
    PortInUse,
    ProcessExitedUnexpectedly,
    NotRunning,
    ExtensionNotFound,
    IOError,
}

/// The state that `event` leads to from `state`, or `None` where the event
/// cannot happen in that state.
pub open spec fn next_state(state: ServerState, event: Event) -> Option<ServerState> {
    match (state, event) {
        (ServerState::Uninstalled, Event::InstallFinished) => Some(ServerState::Installed),
        (ServerState::Installed, Event::InstallFinished) => Some(ServerState::Installed),
        (ServerState::Uninstalled, Event::InitializerFinished { success }) |
        (ServerState::Installed, Event::InitializerFinished { success }) => if success {
            Some(ServerState::Initialized)
        } else {
            Some(ServerState::Failed)
        },
        (ServerState::Initialized, Event::StartRequested) => Some(ServerState::Starting),
        (ServerState::Stopped, Event::StartRequested) => Some(ServerState::Starting),
        (ServerState::Starting, Event::ServerReady) => Some(ServerState::Running),
        (ServerState::Starting, Event::StartupTimedOut) => Some(ServerState::Failed),
        (ServerState::Starting, Event::PortTaken) => Some(ServerState::Failed),
        (ServerState::Starting, Event::ServerExited) => Some(ServerState::Failed),
        (ServerState::Running, Event::StopRequested) => Some(ServerState::Stopping),
        (ServerState::Running, Event::ServerExited) => Some(ServerState::Failed),
        (ServerState::Stopping, Event::ServerExited) => Some(ServerState::Stopped),
        _ => None,
    }
}

/// The failure that the caller sees when `event` ends in `Failed`.
pub open spec fn failure_of(event: Event) -> EngineError {
    match event {
        Event::InitializerFinished { .. } => EngineError::InitializationFailed,
        Event::StartupTimedOut => EngineError::StartupTimeout,
        Event::PortTaken => EngineError::PortInUse,
        _ => EngineError::ProcessExitedUnexpectedly,
    }
}

/// The state after a sequence of events, or `None` once one of them cannot
/// happen.
pub open spec fn run_events(state: ServerState, events: Seq<Event>) -> Option<ServerState>
    decreases events.len(),
{
    if events.len() == 0 {
        Some(state)
    } else {
        match run_events(state, events.drop_last()) {
            Some(s) => next_state(s, events.last()),
            None => None,
        }
    }
}

/// The supervisor's record of one server's state.
#[derive(Debug)]
pub struct Supervisor {
    pub state: ServerState,
}

impl Supervisor {
    /// A supervisor for a server that is not installed yet.
    pub fn new() -> (r: Self)
        ensures
            r.state == ServerState::Uninstalled,
    {
        Supervisor { state: ServerState::Uninstalled }
    }

    /// Records `event`. Where the event cannot happen in the current state
    /// the state stays and `false` is returned.
    pub fn observe(&mut self, event: Event) -> (accepted: bool)
        ensures
            accepted == next_state(old(self).state, event).is_some(),
            accepted ==> final(self).state == next_state(old(self).state, event).unwrap(),
            !accepted ==> final(self).state == old(self).state,
    {
        match transition(self.state, event) {
            Some(s) => {
                self.state = s;
                true
            },
            None => false,
        }
    }

    /// Checks that an administrative operation such as creating a database
    /// may go ahead: only a running server accepts one.
    pub fn check_running(&self) -> (r: Result<(), EngineError>)
        ensures
            r is Ok <==> self.state == ServerState::Running,
            r is Err ==> r == Err::<(), EngineError>(EngineError::NotRunning),
    {
        match self.state {
            ServerState::Running => Ok(()),
            _ => Err(EngineError::NotRunning),
        }
    }

    /// Asks to create the database `name`: hands the name back, for the SQL
    /// client to create it, when the server is running.
    pub fn create_database(&self, name: &str) -> (r: Result<String, EngineError>)
        ensures
            r is Ok <==> self.state == ServerState::Running,
            r is Ok ==> r->Ok_0@ == name@,
            r is Err ==> r == Err::<String, EngineError>(EngineError::NotRunning),
    {
        match self.check_running() {
            Ok(()) => Ok(name.to_string()),
            Err(e) => Err(e),
        }
    }
}

/// The state that `event` leads to from `state`, or `None` where the event
/// cannot happen in that state.
pub fn transition(state: ServerState, event: Event) -> (r: Option<ServerState>)
    ensures
        r == next_state(state, event),
{
    match (state, event) {
        (ServerState::Uninstalled, Event::InstallFinished) => Some(ServerState::Installed),
        (ServerState::Installed, Event::InstallFinished) => Some(ServerState::Installed),
        (ServerState::Uninstalled, Event::InitializerFinished { success }) |
        (ServerState::Installed, Event::InitializerFinished { success }) => if success {
            Some(ServerState::Initialized)
        } else {
            Some(ServerState::Failed)
        },
        (ServerState::Initialized, Event::StartRequested) => Some(ServerState::Starting),
        (ServerState::Stopped, Event::StartRequested) => Some(ServerState::Starting),
        (ServerState::Starting, Event::ServerReady) => Some(ServerState::Running),
        (ServerState::Starting, Event::StartupTimedOut) => Some(ServerState::Failed),
        (ServerState::Starting, Event::PortTaken) => Some(ServerState::Failed),
        (ServerState::Starting, Event::ServerExited) => Some(ServerState::Failed),
        (ServerState::Running, Event::StopRequested) => Some(ServerState::Stopping),
        (ServerState::Running, Event::ServerExited) => Some(ServerState::Failed),
        (ServerState::Stopping, Event::ServerExited) => Some(ServerState::Stopped),
        _ => None,
    }
}

/// The failure that the caller sees when `event` ends in `Failed`.
pub fn failure_for(event: Event) -> (r: EngineError)
    ensures
        r == failure_of(event),
{
    match event {
        Event::InitializerFinished { .. } => EngineError::InitializationFailed,
        Event::StartupTimedOut => EngineError::StartupTimeout,
        Event::PortTaken => EngineError::PortInUse,
        _ => EngineError::ProcessExitedUnexpectedly,
    }
}

/// What the readiness poll does next.
#[derive(Clone, Copy, Debug, PartialEq, Eq, Structural)]
pub enum ProbeAction {
    /// The server accepts connections.
    Ready,
    /// Wait one interval and probe again.
    Retry,
    /// The startup deadline has passed.
    GiveUp,
}

/// After a probe that `succeeded` or not, `elapsed_ms` into a startup that
/// may take `timeout_ms`: done on success, given up once the deadline has
/// passed, another probe otherwise.
pub fn next_probe(succeeded: bool, elapsed_ms: u64, timeout_ms: u64) -> (r: ProbeAction)
    ensures
        succeeded ==> r == ProbeAction::Ready,
        !succeeded && elapsed_ms >= timeout_ms ==> r == ProbeAction::GiveUp,
        !succeeded && elapsed_ms < timeout_ms ==> r == ProbeAction::Retry,
{
    if succeeded {
        ProbeAction::Ready
    } else if elapsed_ms >= timeout_ms {
        ProbeAction::GiveUp
    } else {
        ProbeAction::Retry
    }
}

/// What a stop does next.
#[derive(Clone, Copy, Debug, PartialEq, Eq, Structural)]
pub enum StopAction {
    /// The server process has exited.
    Stopped,
    /// Keep waiting for the graceful shutdown.
    Wait,
    /// Terminate the process by force.
    Terminate,
}

/// After checking whether the server `exited`, `elapsed_ms` into a
/// graceful shutdown allowed `timeout_ms`: done once it exited, escalated
/// to termination once the timeout has passed, waiting otherwise.
pub fn next_stop(exited: bool, elapsed_ms: u64, timeout_ms: u64) -> (r: StopAction)
    ensures
        exited ==> r == StopAction::Stopped,
        !exited && elapsed_ms >= timeout_ms ==> r == StopAction::Terminate,
        !exited && elapsed_ms < timeout_ms ==> r == StopAction::Wait,
{
    if exited {
        StopAction::Stopped
    } else if elapsed_ms >= timeout_ms {
        StopAction::Terminate
    } else {
        StopAction::Wait
    }
}

/// Until the readiness probe has succeeded once, the server is not
/// running: from a fresh supervisor, any events without a successful probe
/// leave a state in which creating a database fails with `NotRunning`.
pub proof fn lemma_not_running_before_ready(events: Seq<Event>)
    requires
        forall|i: int| 0 <= i < events.len() ==> events[i] != Event::ServerReady,
    ensures
        run_events(ServerState::Uninstalled, events) != Some(ServerState::Running),
    decreases events.len(),
{
    if events.len() > 0 {
        lemma_not_running_before_ready(events.drop_last());
    }
}

} // verus!
