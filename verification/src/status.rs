//! The status summaries the UI can query at any time: application
//! information, backend process/health status, and the host bridge's
//! status surface, each as the JSON document the UI receives. The
//! liveness and health observations are made outside and handed in;
//! turning them into the right summary is decided and proved here.

use vstd::prelude::*;

use crate::config::{AppConfigModel, ConfigManager};
use crate::envelope::{obj2, obj4, obj5};
use crate::health::{spec_classify, HealthStatus, ProbeOutcome};
use crate::host::{HostBridge, HostBridgeStatus};
use crate::json::{JsonModel, JsonVal};

verus! {

/// The application-information document.
pub open spec fn spec_app_info(version: Seq<char>) -> JsonModel {
    JsonModel::Obj(
        seq![
            ("name"@, JsonModel::Str("Cline Desktop"@)),
            ("version"@, JsonModel::Str(version)),
            ("grpc_port"@, JsonModel::Int(26040int)),
            ("status"@, JsonModel::Str("running"@)),
        ],
    )
}

/// Describes the application: its name, the given package version, the
/// advertised backend port, and that it is running.
pub fn get_app_info(version: &String) -> (r: JsonVal)
    ensures
        r@ == spec_app_info(version@),
{
    obj4(
        "name",
        JsonVal::Str("Cline Desktop".to_owned()),
        "version",
        JsonVal::Str(version.clone()),
        "grpc_port",
        JsonVal::Int(26040),
        "status",
        JsonVal::Str("running".to_owned()),
    )
}

/// The backend is healthy only when its process is live and a fresh
/// probe of its endpoint was healthy; without a live process no probe
/// is made and the backend counts as unhealthy.
pub open spec fn spec_grpc_healthy(process_running: bool, probe: Option<ProbeOutcome>) -> bool {
    process_running && (probe matches Some(p) && spec_classify(p) is Healthy)
}

/// The process/health status document.
pub open spec fn spec_grpc_status(
    process_running: bool,
    healthy: bool,
    port: u16,
    host: Seq<char>,
) -> JsonModel {
    JsonModel::Obj(
        seq![
            ("process_running"@, JsonModel::Bool(process_running)),
            ("grpc_healthy"@, JsonModel::Bool(healthy)),
            ("port"@, JsonModel::Int(port as int)),
            ("host"@, JsonModel::Str(host)),
        ],
    )
}

/// Summarises the backend for the UI: whether the process is live,
/// whether its endpoint answered healthily (`probe` is the fresh
/// observation, made only while the process is live), and where it
/// listens.
pub fn check_grpc_status(
    process_running: bool,
    probe: Option<ProbeOutcome>,
    port: u16,
    host: &String,
) -> (r: JsonVal)
    requires
        process_running ==> probe is Some,
    ensures
        r@ == spec_grpc_status(
            process_running,
            spec_grpc_healthy(process_running, probe),
            port,
            host@,
        ),
{
    let healthy = grpc_healthy(process_running, probe);
    obj4(
        "process_running",
        JsonVal::Bool(process_running),
        "grpc_healthy",
        JsonVal::Bool(healthy),
        "port",
        JsonVal::Int(port as i64),
        "host",
        JsonVal::Str(host.clone()),
    )
}

/// Executable form of `spec_grpc_healthy`.
pub fn grpc_healthy(process_running: bool, probe: Option<ProbeOutcome>) -> (r: bool)
    ensures
        r == spec_grpc_healthy(process_running, probe),
{
    if !process_running {
        false
    } else {
        match probe {
            Some(p) => matches!(crate::health::check_grpc_health(p), HealthStatus::Healthy),
            None => false,
        }
    }
}

/// The three-way connection summary: its label and its message.
pub open spec fn spec_connection_message(process_running: bool, healthy: bool) -> Seq<char> {
    if healthy {
        "grpc service connected"@
    } else if process_running {
        "grpc process running but service not ready"@
    } else {
        "grpc service not running"@
    }
}

/// The connection-status document.
pub open spec fn spec_grpc_service_status(
    process_running: bool,
    healthy: bool,
    port: u16,
) -> JsonModel {
    JsonModel::Obj(
        seq![
            (
                "status"@,
                JsonModel::Str(if healthy { "connected"@ } else { "disconnected"@ }),
            ),
            ("message"@, JsonModel::Str(spec_connection_message(process_running, healthy))),
            ("process_running"@, JsonModel::Bool(process_running)),
            ("grpc_healthy"@, JsonModel::Bool(healthy)),
            ("port"@, JsonModel::Int(port as int)),
        ],
    )
}

/// Summarises the connection for the UI: connected exactly when a
/// fresh probe of the live process's endpoint was healthy, with a
/// message that distinguishes a dead process from one still binding
/// its socket.
pub fn get_grpc_service_status(
    process_running: bool,
    probe: Option<ProbeOutcome>,
    port: u16,
) -> (r: JsonVal)
    requires
        process_running ==> probe is Some,
    ensures
        r@ == spec_grpc_service_status(
            process_running,
            spec_grpc_healthy(process_running, probe),
            port,
        ),
{
    let healthy = grpc_healthy(process_running, probe);
    let label = if healthy {
        "connected"
    } else {
        "disconnected"
    };
    let message = if healthy {
        "grpc service connected"
    } else if process_running {
        "grpc process running but service not ready"
    } else {
        "grpc service not running"
    };
    obj5(
        "status",
        JsonVal::Str(label.to_owned()),
        "message",
        JsonVal::Str(message.to_owned()),
        "process_running",
        JsonVal::Bool(process_running),
        "grpc_healthy",
        JsonVal::Bool(healthy),
        "port",
        JsonVal::Int(port as i64),
    )
}

/// The host-bridge status document: its label and its message.
pub open spec fn spec_host_bridge_status(status: crate::host::StatusModel) -> JsonModel {
    match status {
        crate::host::StatusModel::Initializing => JsonModel::Obj(
            seq![
                ("status"@, JsonModel::Str("initializing"@)),
                ("message"@, JsonModel::Str("host bridge is initializing"@)),
            ],
        ),
        crate::host::StatusModel::Ready => JsonModel::Obj(
            seq![
                ("status"@, JsonModel::Str("ready"@)),
                ("message"@, JsonModel::Str("host bridge is ready"@)),
            ],
        ),
        crate::host::StatusModel::Error(m) => JsonModel::Obj(
            seq![("status"@, JsonModel::Str("error"@)), ("message"@, JsonModel::Str(m))],
        ),
    }
}

/// Renders the host bridge's status for the UI.
pub fn get_host_bridge_status(status: &HostBridgeStatus) -> (r: JsonVal)
    ensures
        r@ == spec_host_bridge_status(status@),
{
    match status {
        HostBridgeStatus::Initializing => obj2(
            "status",
            JsonVal::Str("initializing".to_owned()),
            "message",
            JsonVal::Str("host bridge is initializing".to_owned()),
        ),
        HostBridgeStatus::Ready => obj2(
            "status",
            JsonVal::Str("ready".to_owned()),
            "message",
            JsonVal::Str("host bridge is ready".to_owned()),
        ),
        HostBridgeStatus::Error(m) => obj2(
            "status",
            JsonVal::Str("error".to_owned()),
            "message",
            JsonVal::Str(m.clone()),
        ),
    }
}

/// Starts the backend service and waits for it to become ready: the
/// manual start command. The probe and spawn outcomes, the liveness
/// poll, and the health probes the wait would observe are all handed
/// in by the caller. Already-running and launch failures are refused
/// with their messages; a backend that does not become healthy within
/// the timeout is reported as such, though its process stays live.
pub fn start_grpc_service(
    bridge: &mut crate::supervisor::NodeBridge,
    poll: Option<crate::supervisor::PollOutcome>,
    node_available: bool,
    script_exists: bool,
    spawn: crate::supervisor::SpawnOutcome,
    probes: &Vec<ProbeOutcome>,
    timeout_secs: u64,
) -> (r: Result<String, String>)
    requires
        old(bridge).state is Running ==> poll is Some,
        probes@.len() >= 2 * timeout_secs,
    ensures
        final(bridge).script_path == old(bridge).script_path,
        final(bridge).port == old(bridge).port,
        ({
            let polled = crate::supervisor::spec_state_after_poll(old(bridge).state, poll);
            if crate::supervisor::spec_poll_reports_running(old(bridge).state, poll) {
                (r matches Err(m) && m@ == "grpc service is already running"@)
                    && final(bridge).state == polled
            } else if !crate::supervisor::spec_start_ok(
                polled,
                node_available,
                script_exists,
                spawn,
            ) {
                r is Err && final(bridge).state == polled
            } else if exists|i: int|
                0 <= i < 2 * timeout_secs && spec_classify(probes@[i]) is Healthy {
                (r matches Ok(m) && m@ == "grpc service started"@)
                    && final(bridge).state is Running
            } else {
                (r matches Err(m) && m@ == "grpc service startup timed out"@)
                    && final(bridge).state is Running
            }
        }),
{
    if bridge.is_running(poll) {
        return Err("grpc service is already running".to_owned());
    }
    match bridge.start(node_available, script_exists, spawn) {
        Ok(_) => (),
        Err(e) => {
            return Err(crate::supervisor::start_error_message(&e));
        },
    }
    let report = crate::health::wait_for_grpc_ready(probes, timeout_secs);
    if report.ready {
        Ok("grpc service started".to_owned())
    } else {
        Err("grpc service startup timed out".to_owned())
    }
}

/// Stops the backend service: the manual stop command. Idempotent and
/// always confirms, as shutdown must be unconditionally progressable.
pub fn stop_grpc_service(bridge: &mut crate::supervisor::NodeBridge) -> (r: Result<String, String>)
    ensures
        r matches Ok(m) && m@ == "grpc service stopped"@,
        !(final(bridge).state is Running),
        final(bridge).script_path == old(bridge).script_path,
        final(bridge).port == old(bridge).port,
{
    match bridge.stop() {
        Ok(_) => (),
        Err(e) => {
            return Err(e);
        },
    }
    Ok("grpc service stopped".to_owned())
}

/// Runs a terminal command through the host collaborator: refused with
/// an error while the backend is not healthy, so commands only reach
/// the collaborator with a live backend behind them.
pub fn execute_terminal_command(
    command: &String,
    cwd: Option<&String>,
    grpc_healthy: bool,
    host_bridge: &HostBridge,
) -> (r: Result<String, String>)
    ensures
        grpc_healthy ==> (r matches Ok(out) && out@ == "simulated output of '"@ + command@
            + "'\ncompleted successfully"@),
        !grpc_healthy ==> (r matches Err(e) && e@ == "grpc service not running or unhealthy"@),
{
    match execute_command_gate(grpc_healthy) {
        Ok(_) => (),
        Err(e) => {
            return Err(e);
        },
    }
    host_bridge.execute_command(command, cwd)
}

/// Points both the host collaborator and the configuration at another
/// workspace directory and confirms it; the caller persists the
/// configuration afterwards.
pub fn set_workspace_directory(
    host_bridge: &mut HostBridge,
    config_manager: &mut ConfigManager,
    path: String,
) -> (r: Result<String, String>)
    ensures
        r matches Ok(msg) && msg@ == "workspace directory set to: "@ + path@,
        final(host_bridge).workspace_dir@ == path@,
        final(host_bridge).status == old(host_bridge).status,
        final(config_manager).config_path == old(config_manager).config_path,
        final(config_manager).config@ == (AppConfigModel {
            workspace_dir: Some(path@),
            ..old(config_manager).config@
        }),
{
    let message = String::from_str("workspace directory set to: ").concat(path.as_str());
    match host_bridge.set_workspace_dir(path.clone()) {
        Ok(_) => (),
        Err(e) => {
            return Err(e);
        },
    }
    config_manager.set_workspace_dir(Some(path));
    Ok(message)
}

/// The terminal-command gate: a command is run only while the backend
/// is healthy; otherwise the caller is refused with this error.
pub fn execute_command_gate(grpc_healthy: bool) -> (r: Result<(), String>)
    ensures
        r is Ok <==> grpc_healthy,
        r matches Err(e) ==> e@ == "grpc service not running or unhealthy"@,
{
    if grpc_healthy {
        Ok(())
    } else {
        Err("grpc service not running or unhealthy".to_owned())
    }
}

} // verus!
