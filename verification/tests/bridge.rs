use cline_desktop::bridge::{Bridge, DispatchError, HostOp};
use cline_desktop::envelope::{encode_outbound, parse_inbound, GrpcResponse, Inbound, Outbound};
use cline_desktop::host::{HostBridge, HostBridgeStatus};
use cline_desktop::json::JsonVal;
use cline_desktop::webview::{handle_webview_message, perform_host_op};

fn obj(fields: Vec<(&str, JsonVal)>) -> JsonVal {
    JsonVal::Obj(fields.into_iter().map(|(k, v)| (k.to_string(), v)).collect())
}

fn text(x: &str) -> JsonVal {
    JsonVal::Str(x.to_string())
}

fn grpc_request(request_id: &str, service: &str, method: &str, is_streaming: bool) -> JsonVal {
    obj(vec![
        ("type", text("grpc_request")),
        (
            "grpc_request",
            obj(vec![
                ("request_id", text(request_id)),
                ("service", text(service)),
                ("method", text(method)),
                ("is_streaming", JsonVal::Bool(is_streaming)),
            ]),
        ),
    ])
}

fn field<'a>(v: &'a JsonVal, key: &str) -> &'a JsonVal {
    v.get(key).expect("missing field")
}

fn str_of(v: &JsonVal) -> String {
    v.as_str().expect("not a string").to_string()
}

#[test]
fn parse_reads_a_grpc_request() {
    let msg = grpc_request("req-1", "cline.StateService", "getLatestState", false);
    match parse_inbound(&msg) {
        Some(Inbound::Grpc(r)) => {
            assert_eq!(r.request_id, "req-1");
            assert_eq!(r.service, "cline.StateService");
            assert_eq!(r.method, "getLatestState");
            assert!(!r.is_streaming);
        }
        _ => panic!("expected a grpc request"),
    }
}

#[test]
fn parse_defaults_missing_request_fields() {
    let msg = obj(vec![("type", text("grpc_request")), ("grpc_request", obj(vec![]))]);
    match parse_inbound(&msg) {
        Some(Inbound::Grpc(r)) => {
            assert_eq!(r.request_id, "");
            assert_eq!(r.service, "");
            assert_eq!(r.method, "");
            assert!(!r.is_streaming);
        }
        _ => panic!("expected a grpc request"),
    }
}

#[test]
fn parse_drops_messages_without_type() {
    assert!(parse_inbound(&obj(vec![("id", text("7"))])).is_none());
    assert!(parse_inbound(&JsonVal::Null).is_none());
    assert!(parse_inbound(&obj(vec![("type", JsonVal::Int(3))])).is_none());
}

#[test]
fn parse_drops_operations_missing_required_fields() {
    assert!(parse_inbound(&obj(vec![("type", text("readFile"))])).is_none());
    assert!(parse_inbound(&obj(vec![("type", text("executeCommand"))])).is_none());
    let write_without_content =
        obj(vec![("type", text("writeFile")), ("path", text("/tmp/x"))]);
    assert!(parse_inbound(&write_without_content).is_none());
    // grpc_request without its sub-object is dropped too.
    assert!(parse_inbound(&obj(vec![("type", text("grpc_request"))])).is_none());
}

#[test]
fn parse_keeps_unknown_types_for_an_error_reply() {
    let msg = obj(vec![("type", text("bogus")), ("id", JsonVal::Int(9))]);
    match parse_inbound(&msg) {
        Some(Inbound::Unknown { id, msg_type }) => {
            assert_eq!(msg_type, "bogus");
            assert!(matches!(id, JsonVal::Int(9)));
        }
        _ => panic!("expected an unknown-type message"),
    }
}

#[test]
fn unregistered_pair_gets_one_final_empty_reply() {
    let mut bridge = Bridge::new();
    let msg = parse_inbound(&grpc_request("req-9", "no.Service", "noMethod", false)).unwrap();
    let d = bridge.dispatch(&HostBridgeStatus::Ready, msg).unwrap();
    assert!(d.action.is_none());
    assert_eq!(d.emits.len(), 1);
    match &d.emits[0] {
        Outbound::Grpc(g) => {
            assert_eq!(g.request_id, "req-9");
            assert!(!g.is_streaming);
            match &g.message {
                JsonVal::Obj(fields) => assert!(fields.is_empty()),
                _ => panic!("expected an empty object payload"),
            }
        }
        _ => panic!("expected a grpc response"),
    }
}

#[test]
fn latest_state_answers_with_the_state_snapshot() {
    let mut bridge = Bridge::new();
    let msg =
        parse_inbound(&grpc_request("req-2", "cline.StateService", "getLatestState", false))
            .unwrap();
    let d = bridge.dispatch(&HostBridgeStatus::Ready, msg).unwrap();
    assert_eq!(d.emits.len(), 1);
    match &d.emits[0] {
        Outbound::Grpc(g) => {
            assert_eq!(g.request_id, "req-2");
            assert!(!g.is_streaming);
            assert_eq!(str_of(field(&g.message, "version")), "1.0.0");
            assert_eq!(str_of(field(&g.message, "mode")), "standalone");
            let settings = field(&g.message, "settings");
            assert_eq!(str_of(field(settings, "theme")), "dark");
            assert_eq!(field(settings, "autoApprove").as_bool(), Some(false));
        }
        _ => panic!("expected a grpc response"),
    }
}

#[test]
fn streaming_subscription_opens_a_stream_and_cancel_closes_it() {
    let mut bridge = Bridge::new();
    let subscribe = parse_inbound(&grpc_request(
        "sub-1",
        "cline.AccountService",
        "subscribeToAuthStatusUpdate",
        true,
    ))
    .unwrap();
    let d = bridge.dispatch(&HostBridgeStatus::Ready, subscribe).unwrap();
    assert_eq!(d.emits.len(), 1);
    match &d.emits[0] {
        Outbound::Grpc(g) => {
            assert!(g.is_streaming);
            assert_eq!(field(&g.message, "isAuthenticated").as_bool(), Some(false));
            assert!(matches!(field(&g.message, "user"), JsonVal::Null));
        }
        _ => panic!("expected a grpc response"),
    }
    assert_eq!(bridge.open_streams.len(), 1);
    assert_eq!(bridge.open_streams[0], "sub-1");

    let cancel = obj(vec![
        ("type", text("grpc_request_cancel")),
        ("grpc_request_cancel", obj(vec![("request_id", text("sub-1"))])),
    ]);
    let msg = parse_inbound(&cancel).unwrap();
    let d = bridge.dispatch(&HostBridgeStatus::Ready, msg).unwrap();
    assert!(d.emits.is_empty());
    assert!(bridge.open_streams.is_empty());
}

#[test]
fn non_streaming_subscription_gets_one_final_reply() {
    let mut bridge = Bridge::new();
    let subscribe = parse_inbound(&grpc_request(
        "sub-2",
        "cline.AccountService",
        "subscribeToAuthStatusUpdate",
        false,
    ))
    .unwrap();
    let d = bridge.dispatch(&HostBridgeStatus::Ready, subscribe).unwrap();
    // Exactly one final reply, carrying the auth snapshot; no stream opens.
    assert_eq!(d.emits.len(), 1);
    match &d.emits[0] {
        Outbound::Grpc(g) => {
            assert_eq!(g.request_id, "sub-2");
            assert!(!g.is_streaming);
            assert_eq!(field(&g.message, "isAuthenticated").as_bool(), Some(false));
        }
        _ => panic!("expected a grpc response"),
    }
    assert!(bridge.open_streams.is_empty());
}

#[test]
fn cancel_for_a_completed_request_is_a_no_op() {
    let mut bridge = Bridge::new();
    // Complete a plain request first; it leaves no stream open.
    let req = parse_inbound(&grpc_request("done-1", "x.Service", "y", false)).unwrap();
    bridge.dispatch(&HostBridgeStatus::Ready, req).unwrap();
    let cancel = obj(vec![
        ("type", text("grpc_request_cancel")),
        ("grpc_request_cancel", obj(vec![("request_id", text("done-1"))])),
    ]);
    let msg = parse_inbound(&cancel).unwrap();
    let d = bridge.dispatch(&HostBridgeStatus::Ready, msg).expect("cancel must not error");
    assert!(d.emits.is_empty());
    assert!(d.action.is_none());
    assert!(bridge.open_streams.is_empty());
}

#[test]
fn distinct_request_ids_answer_under_their_own_ids() {
    let mut bridge = Bridge::new();
    let first = parse_inbound(&grpc_request("id-a", "s.A", "m", false)).unwrap();
    let second = parse_inbound(&grpc_request("id-b", "s.B", "m", false)).unwrap();
    let da = bridge.dispatch(&HostBridgeStatus::Ready, first).unwrap();
    let db = bridge.dispatch(&HostBridgeStatus::Ready, second).unwrap();
    assert_eq!(da.emits.len(), 1);
    assert_eq!(db.emits.len(), 1);
    let ida = match &da.emits[0] {
        Outbound::Grpc(g) => g.request_id.clone(),
        _ => panic!(),
    };
    let idb = match &db.emits[0] {
        Outbound::Grpc(g) => g.request_id.clone(),
        _ => panic!(),
    };
    assert_eq!(ida, "id-a");
    assert_eq!(idb, "id-b");
    assert_ne!(ida, idb);
}

#[test]
fn dispatch_is_refused_unless_ready() {
    let mut bridge = Bridge::new();
    let msg = parse_inbound(&grpc_request("r", "s", "m", false)).unwrap();
    let r = bridge.dispatch(&HostBridgeStatus::Initializing, msg);
    assert!(matches!(r, Err(DispatchError::NotReady)));
    let msg = parse_inbound(&grpc_request("r", "s", "m", false)).unwrap();
    let r = bridge.dispatch(&HostBridgeStatus::Error("down".to_string()), msg);
    assert!(matches!(r, Err(DispatchError::NotReady)));
}

#[test]
fn simple_operations_become_host_actions() {
    let mut bridge = Bridge::new();
    let msg = obj(vec![
        ("type", text("executeCommand")),
        ("id", JsonVal::Int(4)),
        ("command", text("ls")),
        ("cwd", text("/tmp")),
    ]);
    let parsed = parse_inbound(&msg).unwrap();
    let d = bridge.dispatch(&HostBridgeStatus::Ready, parsed).unwrap();
    assert!(d.emits.is_empty());
    match d.action {
        Some(HostOp::Execute { command, cwd, .. }) => {
            assert_eq!(command, "ls");
            assert_eq!(cwd.as_deref(), Some("/tmp"));
        }
        _ => panic!("expected an execute action"),
    }
}

#[test]
fn unknown_type_is_answered_with_an_error_envelope() {
    let mut bridge = Bridge::new();
    let msg = obj(vec![("type", text("bogus")), ("id", text("q"))]);
    let parsed = parse_inbound(&msg).unwrap();
    let d = bridge.dispatch(&HostBridgeStatus::Ready, parsed).unwrap();
    assert_eq!(d.emits.len(), 1);
    match &d.emits[0] {
        Outbound::UnknownType { error, .. } => {
            assert_eq!(error, "unknown message type: bogus");
        }
        _ => panic!("expected an unknown-type reply"),
    }
}

#[test]
fn encode_wraps_a_grpc_response() {
    let out = Outbound::Grpc(GrpcResponse {
        request_id: "req-7".to_string(),
        message: JsonVal::Obj(Vec::new()),
        is_streaming: false,
    });
    let wire = encode_outbound(out);
    assert_eq!(str_of(field(&wire, "type")), "grpc_response");
    let inner = field(&wire, "grpc_response");
    assert_eq!(str_of(field(inner, "request_id")), "req-7");
    assert_eq!(field(inner, "is_streaming").as_bool(), Some(false));
}

#[test]
fn encode_wraps_a_file_list() {
    let out = Outbound::FileList {
        id: JsonVal::Int(1),
        files: vec!["a.txt".to_string(), "b.txt".to_string()],
    };
    let wire = encode_outbound(out);
    assert_eq!(str_of(field(&wire, "type")), "fileList");
    match field(&wire, "files") {
        JsonVal::Arr(items) => {
            assert_eq!(items.len(), 2);
            assert_eq!(items[0].as_str(), Some("a.txt"));
            assert_eq!(items[1].as_str(), Some("b.txt"));
        }
        _ => panic!("expected an array of files"),
    }
}

fn ready_host() -> (HostBridge, HostBridgeStatus) {
    let mut host = HostBridge::new("/workspace".to_string());
    host.initialize().unwrap();
    let status = host.get_status();
    (host, status)
}

fn handle_end_to_end(
    bridge: &mut Bridge,
    host: &HostBridge,
    status: &HostBridgeStatus,
    healthy: bool,
    msg: &JsonVal,
) -> Vec<JsonVal> {
    let outcome = handle_webview_message(bridge, status, msg).unwrap();
    let mut replies = outcome.replies;
    if let Some(op) = outcome.action {
        replies.push(perform_host_op(op, healthy, host));
    }
    replies
}

#[test]
fn handle_answers_read_file_end_to_end() {
    let mut bridge = Bridge::new();
    let (host, status) = ready_host();
    let msg = obj(vec![
        ("type", text("readFile")),
        ("id", JsonVal::Int(11)),
        ("path", text("/workspace/a.txt")),
    ]);
    let replies = handle_end_to_end(&mut bridge, &host, &status, false, &msg);
    assert_eq!(replies.len(), 1);
    assert_eq!(str_of(field(&replies[0], "type")), "fileContent");
    assert_eq!(
        str_of(field(&replies[0], "content")),
        "simulated content of /workspace/a.txt"
    );
    assert!(matches!(field(&replies[0], "id"), JsonVal::Int(11)));
}

#[test]
fn handle_gates_commands_on_health() {
    let mut bridge = Bridge::new();
    let (host, status) = ready_host();
    let msg = obj(vec![
        ("type", text("executeCommand")),
        ("id", text("c1")),
        ("command", text("echo hi")),
    ]);
    // Unhealthy backend: the command is refused as an error envelope.
    let replies = handle_end_to_end(&mut bridge, &host, &status, false, &msg);
    assert_eq!(replies.len(), 1);
    assert_eq!(str_of(field(&replies[0], "type")), "commandError");
    assert_eq!(
        str_of(field(&replies[0], "error")),
        "grpc service not running or unhealthy"
    );
    // Healthy backend: the command runs against the collaborator.
    let replies = handle_end_to_end(&mut bridge, &host, &status, true, &msg);
    assert_eq!(replies.len(), 1);
    assert_eq!(str_of(field(&replies[0], "type")), "commandResult");
    assert_eq!(
        str_of(field(&replies[0], "result")),
        "simulated output of 'echo hi'\ncompleted successfully"
    );
}

#[test]
fn handle_lists_the_workspace_by_default() {
    let mut bridge = Bridge::new();
    let (host, status) = ready_host();
    let msg = obj(vec![("type", text("listFiles")), ("id", JsonVal::Int(2))]);
    let replies = handle_end_to_end(&mut bridge, &host, &status, false, &msg);
    assert_eq!(replies.len(), 1);
    assert_eq!(str_of(field(&replies[0], "type")), "fileList");
    match field(&replies[0], "files") {
        JsonVal::Arr(items) => {
            assert_eq!(items.len(), 3);
            assert_eq!(items[0].as_str(), Some("./mock-file-1.txt"));
        }
        _ => panic!("expected an array of files"),
    }
}

#[test]
fn handle_answers_write_file() {
    let mut bridge = Bridge::new();
    let (host, status) = ready_host();
    let msg = obj(vec![
        ("type", text("writeFile")),
        ("id", text("w1")),
        ("path", text("notes.txt")),
        ("content", text("hello")),
    ]);
    let replies = handle_end_to_end(&mut bridge, &host, &status, false, &msg);
    assert_eq!(replies.len(), 1);
    assert_eq!(str_of(field(&replies[0], "type")), "writeResult");
    assert_eq!(str_of(field(&replies[0], "result")), "file written successfully");
}

#[test]
fn handle_drops_unparseable_messages_silently() {
    let mut bridge = Bridge::new();
    let (host, status) = ready_host();
    let msg = obj(vec![("id", text("no-type"))]);
    let replies = handle_end_to_end(&mut bridge, &host, &status, false, &msg);
    assert!(replies.is_empty());
}

#[test]
fn handle_is_refused_while_initializing() {
    let mut bridge = Bridge::new();
    let host = HostBridge::new("/workspace".to_string());
    let status = host.get_status();
    let msg = grpc_request("r", "s", "m", false);
    let r = handle_webview_message(&mut bridge, &status, &msg);
    assert!(matches!(r, Err(DispatchError::NotReady)));
}
