use vstd::prelude::*;

verus! {

/// The fixed description of the process that a supervisor launches.
pub struct LaunchConfig {
    pub command: String,
    pub args: Vec<String>,
    pub current_dir: String,
}

impl LaunchConfig {
    pub fn new(command: String, args: Vec<String>, current_dir: String) -> (r: LaunchConfig)
        ensures
            r.command@ == command@,
            r.args@ == args@,
            r.current_dir@ == current_dir@,
    {
        LaunchConfig { command, args, current_dir }
    }
}

/// What a successful `start` reports.
#[derive(Debug, Clone, Copy, PartialEq, Eq, Structural)]
pub enum StartOutcome {
    /// A new process was spawned and is now held by the supervisor.
    Started,
    /// A handle was already held; nothing was spawned.
    AlreadyRunning,
}

/// What a successful `stop` reports.
#[derive(Debug, Clone, Copy, PartialEq, Eq, Structural)]
pub enum StopOutcome {
    /// The held process was asked to terminate and the request was accepted.
    Stopped,
    /// No handle was held; nothing was done.
    NotRunning,
}

/// The two recoverable failures, each with the operating system's description.
#[derive(Debug, PartialEq, Eq)]
pub enum SupervisorError {
    SpawnFailure(String),
    TerminationFailure(String),
}

pub open spec fn started_text() -> Seq<char> {
    "Server started successfully"@
}

pub open spec fn already_running_text() -> Seq<char> {
    "Server already running"@
}

pub open spec fn stopped_text() -> Seq<char> {
    "Server stopped successfully"@
}

pub open spec fn not_running_text() -> Seq<char> {
    "Server not running"@
}

pub open spec fn spawn_failure_prefix() -> Seq<char> {
    "Failed to start Python server: "@
}

pub open spec fn termination_failure_prefix() -> Seq<char> {
    "Failed to stop server: "@
}

impl StartOutcome {
    pub open spec fn message_spec(self) -> Seq<char> {
        match self {
            StartOutcome::Started => started_text(),
            StartOutcome::AlreadyRunning => already_running_text(),
        }
    }

    /// The human-readable text of this outcome.
    pub fn message(&self) -> (r: String)
        ensures
            r@ == self.message_spec(),
    {
        match self {
            StartOutcome::Started => String::from_str("Server started successfully"),
            StartOutcome::AlreadyRunning => String::from_str("Server already running"),
        }
    }
}

impl StopOutcome {
    pub open spec fn message_spec(self) -> Seq<char> {
        match self {
            StopOutcome::Stopped => stopped_text(),
            StopOutcome::NotRunning => not_running_text(),
        }
    }

    /// The human-readable text of this outcome.
    pub fn message(&self) -> (r: String)
        ensures
            r@ == self.message_spec(),
    {
        match self {
            StopOutcome::Stopped => String::from_str("Server stopped successfully"),
            StopOutcome::NotRunning => String::from_str("Server not running"),
        }
    }
}

impl SupervisorError {
    pub open spec fn message_spec(self) -> Seq<char> {
        match self {
            SupervisorError::SpawnFailure(cause) => spawn_failure_prefix() + cause@,
            SupervisorError::TerminationFailure(cause) => termination_failure_prefix() + cause@,
        }
    }

    /// The human-readable text of this failure: a fixed prefix, then the cause.
    pub fn message(&self) -> (r: String)
        ensures
            r@ == self.message_spec(),
    {
        match self {
            SupervisorError::SpawnFailure(cause) => {
                String::from_str("Failed to start Python server: ").concat(cause.as_str())
            },
            SupervisorError::TerminationFailure(cause) => {
                String::from_str("Failed to stop server: ").concat(cause.as_str())
            },
        }
    }
}

/// The slot after an empty supervisor's spawn attempt came back with `spawned`.
pub open spec fn slot_after_spawn<H>(spawned: Result<H, String>) -> Option<H> {
    match spawned {
        Ok(h) => Some(h),
        Err(_) => None,
    }
}

/// What `start` reports after an empty supervisor's spawn attempt came back with `spawned`.
pub open spec fn spawn_reply<H>(spawned: Result<H, String>) -> Result<StartOutcome, SupervisorError> {
    match spawned {
        Ok(_) => Ok(StartOutcome::Started),
        Err(cause) => Err(SupervisorError::SpawnFailure(cause)),
    }
}

/// The slot after a `start` call on `slot`, were a spawn to come back with `spawned`.
/// An occupied slot never spawns, so `spawned` matters only when `slot` is empty.
pub open spec fn slot_after_start<H>(slot: Option<H>, spawned: Result<H, String>) -> Option<H> {
    match slot {
        Some(_) => slot,
        None => slot_after_spawn(spawned),
    }
}

/// What a `start` call on `slot` reports, were a spawn to come back with `spawned`.
pub open spec fn start_reply<H>(slot: Option<H>, spawned: Result<H, String>) -> Result<
    StartOutcome,
    SupervisorError,
> {
    match slot {
        Some(_) => Ok(StartOutcome::AlreadyRunning),
        None => spawn_reply(spawned),
    }
}

/// Whether a `start` call on `slot` makes a spawn attempt.
pub open spec fn start_spawns<H>(slot: Option<H>) -> bool {
    slot is None
}

/// What `stop` reports once the termination request on a taken handle came back with `killed`.
pub open spec fn kill_reply(killed: Result<(), String>) -> Result<StopOutcome, SupervisorError> {
    match killed {
        Ok(_) => Ok(StopOutcome::Stopped),
        Err(cause) => Err(SupervisorError::TerminationFailure(cause)),
    }
}

/// Owns at most one handle to a launched process, and the configuration to launch it.
///
/// `start` and `stop` take `&mut self`, so each one's check-then-act step is a single
/// exclusive critical section; a caller that shares the supervisor between threads
/// puts it behind one lock and holds that lock for the whole call.
pub struct ProcessSupervisor<H> {
    config: LaunchConfig,
    slot: Option<H>,
}

impl<H> ProcessSupervisor<H> {
    /// The stored handle, if any.
    pub closed spec fn handle(&self) -> Option<H> {
        self.slot
    }

    /// The launch configuration fixed at construction.
    pub closed spec fn launch_config(&self) -> LaunchConfig {
        self.config
    }

    /// A supervisor that holds no handle yet.
    pub fn new(config: LaunchConfig) -> (r: Self)
        ensures
            r.handle() is None,
            r.launch_config() == config,
    {
        ProcessSupervisor { config, slot: None }
    }

    pub fn config(&self) -> (r: &LaunchConfig)
        ensures
            *r == self.launch_config(),
    {
        &self.config
    }

    /// Whether a handle is stored (not whether the process is still alive).
    pub fn is_running(&self) -> (r: bool)
        ensures
            r == (self.handle() is Some),
    {
        self.slot.is_some()
    }

    /// Launches the configured process through `spawn`, unless a handle is already held.
    ///
    /// With a handle held, `spawn` is not called and the result is `AlreadyRunning`.
    /// Otherwise `spawn` gets the configuration; a handle it returns is stored, and an
    /// error it returns comes back as `SpawnFailure` with the slot left empty.
    pub fn start<F>(&mut self, spawn: F) -> (r: Result<StartOutcome, SupervisorError>)
        where
            F: FnOnce(&LaunchConfig) -> Result<H, String>,
        requires
            start_spawns(old(self).handle()) ==> spawn.requires((&old(self).launch_config(),)),
        ensures
            final(self).launch_config() == old(self).launch_config(),
            !start_spawns(old(self).handle()) ==> {
                &&& final(self).handle() == old(self).handle()
                &&& r == Ok::<StartOutcome, SupervisorError>(StartOutcome::AlreadyRunning)
            },
            start_spawns(old(self).handle()) ==> exists|spawned: Result<H, String>|
                {
                    &&& #[trigger] spawn.ensures((&old(self).launch_config(),), spawned)
                    &&& final(self).handle() == slot_after_start(old(self).handle(), spawned)
                    &&& r == start_reply(old(self).handle(), spawned)
                },
    {
        if self.slot.is_some() {
            return Ok(StartOutcome::AlreadyRunning);
        }
        let spawned = spawn(&self.config);
        self.store_spawned(spawned)
    }

    /// Records what an empty supervisor's spawn attempt came back with.
    fn store_spawned(&mut self, spawned: Result<H, String>) -> (r: Result<
        StartOutcome,
        SupervisorError,
    >)
        requires
            old(self).slot is None,
        ensures
            final(self).config == old(self).config,
            final(self).slot == slot_after_spawn(spawned),
            r == spawn_reply(spawned),
    {
        match spawned {
            Ok(h) => {
                self.slot = Some(h);
                Ok(StartOutcome::Started)
            },
            Err(cause) => Err(SupervisorError::SpawnFailure(cause)),
        }
    }

    /// Takes the stored handle out and asks `kill` to terminate its process.
    ///
    /// The slot is empty afterwards whatever `kill` returns. With no handle held,
    /// `kill` is not called and the result is `NotRunning`.
    pub fn stop<F>(&mut self, kill: F) -> (r: Result<StopOutcome, SupervisorError>)
        where
            F: FnOnce(H) -> Result<(), String>,
        requires
            forall|h: H| old(self).handle() == Some(h) ==> #[trigger] kill.requires((h,)),
        ensures
            final(self).launch_config() == old(self).launch_config(),
            final(self).handle() is None,
            old(self).handle() is None ==> r == Ok::<StopOutcome, SupervisorError>(
                StopOutcome::NotRunning,
            ),
            old(self).handle() is Some ==> exists|killed: Result<(), String>|
                {
                    &&& #[trigger] kill.ensures((old(self).handle()->0,), killed)
                    &&& r == kill_reply(killed)
                },
    {
        match self.slot.take() {
            Some(h) => {
                let killed = kill(h);
                Self::report_kill(killed)
            },
            None => Ok(StopOutcome::NotRunning),
        }
    }

    fn report_kill(killed: Result<(), String>) -> (r: Result<StopOutcome, SupervisorError>)
        ensures
            r == kill_reply(killed),
    {
        match killed {
            Ok(()) => Ok(StopOutcome::Stopped),
            Err(cause) => Err(SupervisorError::TerminationFailure(cause)),
        }
    }
}

} // verus!
