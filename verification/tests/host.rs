use cline_desktop::host::{HostBridge, HostBridgeStatus};
use cline_desktop::json::JsonVal;
use cline_desktop::memhost::MemHost;
use cline_desktop::status::{
    check_grpc_status, execute_command_gate, execute_terminal_command, get_app_info,
    get_grpc_service_status, get_host_bridge_status, set_workspace_directory,
};
use cline_desktop::config::ConfigManager;
use cline_desktop::health::ProbeOutcome;

fn str_of(v: &JsonVal) -> String {
    v.as_str().expect("not a string").to_string()
}

fn field<'a>(v: &'a JsonVal, key: &str) -> &'a JsonVal {
    v.get(key).expect("missing field")
}

#[test]
fn host_bridge_lifecycle() {
    let mut hb = HostBridge::new("/ws".to_string());
    assert!(matches!(hb.get_status(), HostBridgeStatus::Initializing));
    assert!(hb.initialize().is_ok());
    assert!(matches!(hb.get_status(), HostBridgeStatus::Ready));
    hb.record_error("backend gone".to_string());
    match hb.get_status() {
        HostBridgeStatus::Error(m) => assert_eq!(m, "backend gone"),
        _ => panic!("expected an error status"),
    }
    // The error is terminal: neither a new error nor initialize clears it.
    hb.record_error("later".to_string());
    assert!(matches!(hb.get_status(), HostBridgeStatus::Error(m) if m == "backend gone"));
    assert!(hb.initialize().is_err());
}

#[test]
fn simulated_operations_fabricate_replies() {
    let hb = HostBridge::new("/ws".to_string());
    assert_eq!(
        hb.read_file(&"/ws/a.txt".to_string()).unwrap(),
        "simulated content of /ws/a.txt"
    );
    assert!(hb.write_file(&"x".to_string(), &"y".to_string()).is_ok());
    let listing = hb.list_directory(&"/ws".to_string()).unwrap();
    assert_eq!(
        listing,
        vec![
            "/ws/mock-file-1.txt".to_string(),
            "/ws/mock-file-2.js".to_string(),
            "/ws/mock-dir".to_string()
        ]
    );
    assert!(hb.file_exists(&"anything".to_string()));
    assert!(hb.directory_exists(&"anything".to_string()));
    assert_eq!(
        hb.execute_command(&"make test".to_string(), None).unwrap(),
        "simulated output of 'make test'\ncompleted successfully"
    );
    assert!(hb.show_message(&"hi".to_string(), &"info".to_string()).is_ok());
    assert_eq!(
        hb.show_diff(&"a".to_string(), &"b".to_string(), &"t".to_string()).unwrap(),
        "simulated-diff-id-12345"
    );
}

#[test]
fn resolve_path_honours_absolute_paths() {
    let hb = HostBridge::new("/ws".to_string());
    assert_eq!(hb.resolve_path(&"/etc/passwd".to_string()), "/etc/passwd");
    assert_eq!(hb.resolve_path(&"notes.txt".to_string()), "/ws/notes.txt");
    assert_eq!(hb.resolve_path(&"".to_string()), "/ws/");
}

#[test]
fn memhost_round_trips_written_content() {
    let mut mh = MemHost::new();
    let path = "/data/notes.txt".to_string();
    let content = "line one\nline two".to_string();
    assert!(mh.write_file(&path, &content).is_ok());
    assert_eq!(mh.read_file(&path).unwrap(), content);
}

#[test]
fn memhost_round_trips_edge_case_contents() {
    let mut mh = MemHost::new();
    for content in ["", "\u{0}adjacent\u{1}", "αβγ — ≠ ascii", "\\0 literal"] {
        let path = "/f".to_string();
        mh.write_file(&path, &content.to_string()).unwrap();
        assert_eq!(mh.read_file(&path).unwrap(), content);
    }
}

#[test]
fn memhost_reports_missing_files() {
    let mh = MemHost::new();
    match mh.read_file(&"/nope".to_string()) {
        Err(e) => assert_eq!(e, "file not found: /nope"),
        Ok(_) => panic!("expected a missing-file error"),
    }
    assert!(!mh.file_exists(&"/nope".to_string()));
}

#[test]
fn memhost_latest_write_wins() {
    let mut mh = MemHost::new();
    let path = "/f".to_string();
    mh.write_file(&path, &"first".to_string()).unwrap();
    mh.write_file(&path, &"second".to_string()).unwrap();
    assert_eq!(mh.read_file(&path).unwrap(), "second");
    assert!(mh.file_exists(&path));
}

#[test]
fn app_info_document() {
    let info = get_app_info(&"0.1.0".to_string());
    assert_eq!(str_of(field(&info, "name")), "Cline Desktop");
    assert_eq!(str_of(field(&info, "version")), "0.1.0");
    assert!(matches!(field(&info, "grpc_port"), JsonVal::Int(26040)));
    assert_eq!(str_of(field(&info, "status")), "running");
}

#[test]
fn grpc_status_document() {
    let s = check_grpc_status(true, Some(ProbeOutcome::Response(200)), 26040, &"127.0.0.1".to_string());
    assert_eq!(field(&s, "process_running").as_bool(), Some(true));
    assert_eq!(field(&s, "grpc_healthy").as_bool(), Some(true));
    assert!(matches!(field(&s, "port"), JsonVal::Int(26040)));
    assert_eq!(str_of(field(&s, "host")), "127.0.0.1");

    let s = check_grpc_status(false, None, 26040, &"127.0.0.1".to_string());
    assert_eq!(field(&s, "process_running").as_bool(), Some(false));
    assert_eq!(field(&s, "grpc_healthy").as_bool(), Some(false));
}

#[test]
fn service_status_distinguishes_three_states() {
    let s = get_grpc_service_status(true, Some(ProbeOutcome::Response(200)), 26040);
    assert_eq!(str_of(field(&s, "status")), "connected");
    assert_eq!(str_of(field(&s, "message")), "grpc service connected");

    let s = get_grpc_service_status(true, Some(ProbeOutcome::TransportFailure), 26040);
    assert_eq!(str_of(field(&s, "status")), "disconnected");
    assert_eq!(
        str_of(field(&s, "message")),
        "grpc process running but service not ready"
    );

    let s = get_grpc_service_status(false, None, 26040);
    assert_eq!(str_of(field(&s, "status")), "disconnected");
    assert_eq!(str_of(field(&s, "message")), "grpc service not running");
}

#[test]
fn host_bridge_status_document() {
    let s = get_host_bridge_status(&HostBridgeStatus::Initializing);
    assert_eq!(str_of(field(&s, "status")), "initializing");
    let s = get_host_bridge_status(&HostBridgeStatus::Ready);
    assert_eq!(str_of(field(&s, "status")), "ready");
    assert_eq!(str_of(field(&s, "message")), "host bridge is ready");
    let s = get_host_bridge_status(&HostBridgeStatus::Error("boom".to_string()));
    assert_eq!(str_of(field(&s, "status")), "error");
    assert_eq!(str_of(field(&s, "message")), "boom");
}

#[test]
fn command_gate_follows_health() {
    assert!(execute_command_gate(true).is_ok());
    match execute_command_gate(false) {
        Err(e) => assert_eq!(e, "grpc service not running or unhealthy"),
        Ok(_) => panic!("an unhealthy backend must refuse commands"),
    }
}

#[test]
fn workspace_directory_command_updates_both_surfaces() {
    let mut hb = HostBridge::new("/old".to_string());
    let mut cm = ConfigManager::new("p".to_string(), None);
    let msg = set_workspace_directory(&mut hb, &mut cm, "/new/place".to_string()).unwrap();
    assert_eq!(msg, "workspace directory set to: /new/place");
    assert_eq!(hb.workspace_dir, "/new/place");
    assert_eq!(cm.get_config().workspace_dir.as_deref(), Some("/new/place"));
}

#[test]
fn terminal_command_runs_only_when_healthy() {
    let hb = HostBridge::new("/ws".to_string());
    let out = execute_terminal_command(&"pwd".to_string(), None, true, &hb).unwrap();
    assert_eq!(out, "simulated output of 'pwd'\ncompleted successfully");
    let err = execute_terminal_command(&"pwd".to_string(), None, false, &hb).unwrap_err();
    assert_eq!(err, "grpc service not running or unhealthy");
}
