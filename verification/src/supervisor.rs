//! The process supervisor: owns the lifecycle of the single backend
//! child process. The operating-system work — probing for the runtime,
//! spawning, killing, reaping — happens outside; each call here takes
//! the observed outcome of that work and performs the one legal state
//! transition, so that "is there a live process" has a single source of
//! truth that can never go stale.

use vstd::prelude::*;

verus! {

/// Lifecycle of the supervised child process.
pub enum ProcessState {
    NotStarted,
    Running,
    Exited(Option<i32>),
}

/// Why a start was refused.
pub enum StartError {
    /// A process is already live; starting is rejected, not queued.
    AlreadyRunning,
    /// The backend runtime could not be located.
    NodeUnavailable,
    /// The backend entry script does not exist.
    ScriptMissing,
    /// The spawn itself failed, with the reported reason.
    SpawnFailed(String),
}

/// What the operating system said when asked to spawn.
pub enum SpawnOutcome {
    Spawned,
    Failed(String),
}

/// What a non-blocking wait on the live process observed.
pub enum PollOutcome {
    StillRunning,
    Exited(Option<i32>),
    PollFailed(String),
}

/// A start succeeds exactly when no process is live, the runtime and the
/// script are present, and the spawn itself succeeded.
pub open spec fn spec_start_ok(
    state: ProcessState,
    node_available: bool,
    script_exists: bool,
    spawn: SpawnOutcome,
) -> bool {
    &&& !(state is Running)
    &&& node_available
    &&& script_exists
    &&& spawn is Spawned
}

/// The state after a liveness poll: an observed exit invalidates the
/// handle; anything else leaves the state alone.
pub open spec fn spec_state_after_poll(state: ProcessState, poll: Option<PollOutcome>) -> ProcessState {
    if state is Running && (poll matches Some(PollOutcome::Exited(c))) {
        ProcessState::Exited(poll->Some_0->Exited_0)
    } else {
        state
    }
}

/// What a liveness poll reports: live, and the poll did not observe an
/// exit or fail.
pub open spec fn spec_poll_reports_running(state: ProcessState, poll: Option<PollOutcome>) -> bool {
    state is Running && (poll matches Some(PollOutcome::StillRunning))
}

/// The state after a whole sequence of liveness polls.
pub open spec fn spec_state_after_polls(state: ProcessState, polls: Seq<PollOutcome>) -> ProcessState
    decreases polls.len(),
{
    if polls.len() == 0 {
        state
    } else {
        spec_state_after_polls(
            spec_state_after_poll(state, Some(polls.first())),
            polls.drop_first(),
        )
    }
}

/// The supervisor: the process lifecycle plus the launch configuration
/// injected into the backend (entry script and port).
pub struct NodeBridge {
    pub state: ProcessState,
    pub script_path: String,
    pub port: u16,
}

impl NodeBridge {
    /// A supervisor with no process started.
    pub fn new(script_path: String, port: u16) -> (r: NodeBridge)
        ensures
            r.state is NotStarted,
            r.script_path@ == script_path@,
            r.port == port,
    {
        NodeBridge { state: ProcessState::NotStarted, script_path, port }
    }

    /// Records a start attempt. The probe and spawn outcomes are
    /// observed outside and handed in; the refusals are checked in the
    /// order the work would be done, and a refused start leaves the
    /// supervisor exactly as it was — in particular, an `AlreadyRunning`
    /// refusal does not disturb the live process.
    pub fn start(
        &mut self,
        node_available: bool,
        script_exists: bool,
        spawn: SpawnOutcome,
    ) -> (r: Result<(), StartError>)
        ensures
            final(self).script_path == old(self).script_path,
            final(self).port == old(self).port,
            r is Ok <==> spec_start_ok(old(self).state, node_available, script_exists, spawn),
            r is Ok ==> final(self).state is Running,
            r is Err ==> final(self).state == old(self).state,
            old(self).state is Running ==> (r matches Err(StartError::AlreadyRunning)),
            !(old(self).state is Running) && !node_available ==> (r matches Err(
                StartError::NodeUnavailable,
            )),
            !(old(self).state is Running) && node_available && !script_exists ==> (r matches Err(
                StartError::ScriptMissing,
            )),
            !(old(self).state is Running) && node_available && script_exists && spawn is Failed
                ==> (r matches Err(StartError::SpawnFailed(e)) && spawn matches
                SpawnOutcome::Failed(m) && e@ == m@),
    {
        match &self.state {
            ProcessState::Running => Err(StartError::AlreadyRunning),
            _ => {
                if !node_available {
                    Err(StartError::NodeUnavailable)
                } else if !script_exists {
                    Err(StartError::ScriptMissing)
                } else {
                    match spawn {
                        SpawnOutcome::Spawned => {
                            self.state = ProcessState::Running;
                            Ok(())
                        },
                        SpawnOutcome::Failed(m) => Err(StartError::SpawnFailed(m)),
                    }
                }
            },
        }
    }

    /// Records a stop. Idempotent, and never fails the caller: a live
    /// process is marked exited (the caller terminates and reaps it,
    /// logging but swallowing any failure), anything else is a no-op.
    pub fn stop(&mut self) -> (r: Result<(), String>)
        ensures
            r is Ok,
            final(self).script_path == old(self).script_path,
            final(self).port == old(self).port,
            old(self).state is Running ==> final(self).state == ProcessState::Exited(
                None::<i32>,
            ),
            !(old(self).state is Running) ==> final(self).state == old(self).state,
            !(final(self).state is Running),
    {
        match &self.state {
            ProcessState::Running => {
                self.state = ProcessState::Exited(None);
                Ok(())
            },
            _ => Ok(()),
        }
    }

    /// Reports liveness from a fresh poll of the process, observed
    /// outside and handed in (`None` exactly when no process is live,
    /// so there was nothing to poll). An observed exit clears the
    /// handle as a side effect; a failed poll reports not-running but
    /// keeps the handle, as the next poll may still succeed.
    pub fn is_running(&mut self, poll: Option<PollOutcome>) -> (r: bool)
        requires
            old(self).state is Running ==> poll is Some,
        ensures
            final(self).script_path == old(self).script_path,
            final(self).port == old(self).port,
            r == spec_poll_reports_running(old(self).state, poll),
            final(self).state == spec_state_after_poll(old(self).state, poll),
    {
        match &self.state {
            ProcessState::Running => {
                match poll {
                    Some(PollOutcome::StillRunning) => true,
                    Some(PollOutcome::Exited(c)) => {
                        self.state = ProcessState::Exited(c);
                        false
                    },
                    Some(PollOutcome::PollFailed(_)) => false,
                    None => false,
                }
            },
            _ => false,
        }
    }

    /// The port the backend was configured to serve on.
    pub fn get_port(&self) -> (r: u16)
        ensures
            r == self.port,
    {
        self.port
    }
}

/// The message a refused start reports to the caller.
pub fn start_error_message(e: &StartError) -> (r: String)
    ensures
        match e {
            StartError::AlreadyRunning => r@ == "node process is already running"@,
            StartError::NodeUnavailable => r@
                == "node runtime is unavailable; install the backend runtime"@,
            StartError::ScriptMissing => r@ == "backend entry script does not exist"@,
            StartError::SpawnFailed(m) => r@ == "failed to start node process: "@ + m@,
        },
{
    match e {
        StartError::AlreadyRunning => "node process is already running".to_owned(),
        StartError::NodeUnavailable => {
            "node runtime is unavailable; install the backend runtime".to_owned()
        },
        StartError::ScriptMissing => "backend entry script does not exist".to_owned(),
        StartError::SpawnFailed(m) => String::from_str("failed to start node process: ").concat(
            m.as_str(),
        ),
    }
}

/// Once a process is live, it stays live through every poll that does
/// not observe an exit: liveness reports stay true until a stop or an
/// externally observed exit, and nothing else.
pub proof fn lemma_live_until_stop_or_exit(state: ProcessState, polls: Seq<PollOutcome>)
    requires
        state is Running,
        forall|i: int| 0 <= i < polls.len() ==> !(#[trigger] polls[i] is Exited),
    ensures
        spec_state_after_polls(state, polls) is Running,
        polls.len() > 0 && polls.last() is StillRunning ==> spec_poll_reports_running(
            spec_state_after_polls(state, polls.drop_last()),
            Some(polls.last()),
        ),
    decreases polls.len(),
{
    if polls.len() > 0 {
        lemma_live_until_stop_or_exit(
            spec_state_after_poll(state, Some(polls.first())),
            polls.drop_first(),
        );
        if polls.len() > 1 {
            assert(polls.drop_last().first() == polls.first());
            assert(polls.drop_last().drop_first() =~= polls.drop_first().drop_last());
            lemma_live_until_stop_or_exit(
                spec_state_after_poll(state, Some(polls.first())),
                polls.drop_first().drop_last(),
            );
        }
    }
}

/// A second start without an intervening stop or observed exit can
/// never succeed: with a process live, no combination of probe and
/// spawn outcomes makes a start acceptable (it is refused as
/// `AlreadyRunning`, and the refusal leaves the supervisor untouched).
pub proof fn lemma_second_start_refused(
    state: ProcessState,
    node_available: bool,
    script_exists: bool,
    spawn: SpawnOutcome,
)
    requires
        state is Running,
    ensures
        !spec_start_ok(state, node_available, script_exists, spawn),
{
}

} // verus!
