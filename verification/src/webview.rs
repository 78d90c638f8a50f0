//! The end-to-end message handler: takes one inbound JSON document from
//! the UI, applies the envelope grammar, routes it through the bridge,
//! and returns the wire-form replies to emit, together with the simple
//! operation, if any, still to be performed. Which collaborator fulfils
//! that operation is the caller's choice: it performs the action, hands
//! the outcome to the matching completion function, and encodes the
//! reply — failures become error-flavoured replies, never an error to
//! the caller. `perform_host_op` does exactly that against the
//! simulated collaborator, with the terminal command gated on a fresh
//! health observation.

use vstd::prelude::*;

use crate::bridge::{
    complete_execute, complete_list, complete_read, complete_write, spec_dispatch, Bridge,
    Dispatch, DispatchError, Handler, HostOp, HostOpModel,
};
use crate::envelope::{encode_outbound, parse_inbound, spec_parse, wire_model, OutboundModel};
use crate::host::{HostBridge, HostBridgeStatus};
use crate::json::{JsonModel, JsonVal};

verus! {

/// The reply the simulated collaborator's fulfilment of one host
/// action produces, given whether the backend was healthy when a
/// terminal command asked to run.
pub open spec fn spec_op_reply(op: HostOpModel, healthy: bool) -> OutboundModel {
    match op {
        HostOpModel::Execute { id, command, cwd } => if healthy {
            OutboundModel::CommandResult {
                id,
                result: "simulated output of '"@ + command + "'\ncompleted successfully"@,
            }
        } else {
            OutboundModel::CommandError {
                id,
                error: "grpc service not running or unhealthy"@,
            }
        },
        HostOpModel::Read { id, path } => OutboundModel::FileContent {
            id,
            content: "simulated content of "@ + path,
        },
        HostOpModel::Write { id, path, content } => OutboundModel::WriteResult {
            id,
            result: "file written successfully"@,
        },
        HostOpModel::List { id, path } => {
            let target = match path {
                Some(p) => p,
                None => "."@,
            };
            OutboundModel::FileList {
                id,
                files: seq![
                    target + "/mock-file-1.txt"@,
                    target + "/mock-file-2.js"@,
                    target + "/mock-dir"@,
                ],
            }
        },
    }
}

/// What one UI message produces before any collaborator is consulted:
/// the wire-form replies to emit at once, the host action left to
/// perform, and the open streams afterwards. A message the grammar
/// drops produces nothing and changes nothing.
pub open spec fn spec_handle(
    table: Seq<(Seq<char>, Seq<char>, Handler)>,
    streams: Seq<Seq<char>>,
    m: JsonModel,
) -> (Seq<JsonModel>, Option<HostOpModel>, Seq<Seq<char>>) {
    match spec_parse(m) {
        None => (Seq::empty(), None, streams),
        Some(inbound) => {
            let (emits, action, streams_after) = spec_dispatch(table, streams, inbound);
            (emits.map_values(|o: OutboundModel| wire_model(o)), action, streams_after)
        },
    }
}

/// What handling one UI message leaves the caller: replies ready to
/// emit, and at most one operation for whichever host collaborator is
/// in effect.
pub struct HandleOutcome {
    pub replies: Vec<JsonVal>,
    pub action: Option<HostOp>,
}

/// Handles one UI message up to the collaborator boundary. Refused
/// while the status surface is not ready; otherwise the replies, the
/// pending action and the streams left open are exactly `spec_handle`
/// of the message.
pub fn handle_webview_message(
    bridge: &mut Bridge,
    status: &HostBridgeStatus,
    msg: &JsonVal,
) -> (r: Result<HandleOutcome, DispatchError>)
    ensures
        final(bridge).handlers == old(bridge).handlers,
        r is Err <==> !(status@ is Ready),
        r is Err ==> *final(bridge) == *old(bridge),
        r matches Ok(out) ==> ({
            let (wire, action, streams_after) = spec_handle(
                old(bridge).table(),
                old(bridge).streams(),
                msg@,
            );
            &&& out.replies@.map_values(|v: JsonVal| v@) == wire
            &&& match out.action {
                Some(op) => action == Some(op@),
                None => action is None,
            }
            &&& final(bridge).streams() == streams_after
        }),
{
    let ghost table0 = bridge.table();
    let ghost streams0 = bridge.streams();
    let parsed = match parse_inbound(msg) {
        Some(inbound) => inbound,
        None => {
            match status {
                HostBridgeStatus::Ready => {
                    let replies: Vec<JsonVal> = Vec::new();
                    proof {
                        assert(replies@.map_values(|v: JsonVal| v@) =~= Seq::<JsonModel>::empty());
                    }
                    return Ok(HandleOutcome { replies, action: None });
                },
                _ => {
                    return Err(DispatchError::NotReady);
                },
            }
        },
    };
    let dispatched = match bridge.dispatch(status, parsed) {
        Ok(d) => d,
        Err(e) => {
            return Err(e);
        },
    };
    let Dispatch { emits, action } = dispatched;
    let ghost emits0 = emits@;
    let mut replies: Vec<JsonVal> = Vec::new();
    let mut emit_iter = emits;
    let n0 = emit_iter.len();
    let mut i: usize = 0;
    proof {
        assert(emits0.skip(0) =~= emits0);
    }
    loop
        invariant
            emits0.len() == n0,
            i <= emits0.len(),
            emit_iter@ == emits0.skip(i as int),
            replies@.len() == i,
            forall|j: int|
                0 <= j < i ==> (#[trigger] replies@[j])@ == wire_model(emits0[j]@),
        ensures
            replies@.len() == emits0.len(),
            forall|j: int|
                0 <= j < emits0.len() ==> (#[trigger] replies@[j])@ == wire_model(emits0[j]@),
        decreases emits0.len() - i,
    {
        if emit_iter.len() == 0 {
            break ;
        }
        proof {
            assert(emits0.skip(i as int)[0] == emits0[i as int]);
            assert(emits0.skip(i as int).remove(0) =~= emits0.skip(i as int + 1));
        }
        let out = emit_iter.remove(0);
        replies.push(encode_outbound(out));
        i = i + 1;
    }
    proof {
        assert(replies@.map_values(|v: JsonVal| v@) =~= spec_handle(table0, streams0, msg@).0);
    }
    Ok(HandleOutcome { replies, action })
}

/// Fulfils one pending host action against the simulated collaborator
/// and renders its reply in wire form. `healthy` is a fresh health
/// observation: a terminal command runs only while the backend is
/// healthy and is otherwise answered with the refusing error reply.
/// Any other collaborator stands in by performing the action itself
/// and handing the outcome to the matching completion function.
pub fn perform_host_op(op: HostOp, healthy: bool, host: &HostBridge) -> (r: JsonVal)
    ensures
        r@ == wire_model(spec_op_reply(op@, healthy)),
{
    let reply = match op {
        HostOp::Execute { id, command, cwd } => {
            let outcome = if healthy {
                let cwd_ref = match &cwd {
                    Some(c) => Some(c),
                    None => None,
                };
                host.execute_command(&command, cwd_ref)
            } else {
                Err("grpc service not running or unhealthy".to_owned())
            };
            complete_execute(id, outcome)
        },
        HostOp::Read { id, path } => complete_read(id, host.read_file(&path)),
        HostOp::Write { id, path, content } => complete_write(id, host.write_file(&path, &content)),
        HostOp::List { id, path } => {
            let target = match path {
                Some(p) => p,
                None => ".".to_owned(),
            };
            complete_list(id, host.list_directory(&target))
        },
    };
    encode_outbound(reply)
}

} // verus!
