//! The message bridge: routes each inbound envelope to its handler and
//! produces the correlated outbound envelopes. Remote-procedure requests
//! are resolved against a static table keyed by (service, method) built
//! at initialization; unregistered pairs fall through to a default
//! handler that acknowledges the request with an empty, final reply.
//! Simple operations (terminal, filesystem) are not answered here: the
//! dispatcher hands back an action for the host collaborator, and the
//! completion functions turn the collaborator's outcome into a reply,
//! success and failure alike — an operation is never left unanswered.

use vstd::prelude::*;

use crate::envelope::{
    GrpcResponse, GrpcResponseModel, Inbound, InboundModel, Outbound, OutboundModel,
};
use crate::host::HostBridgeStatus;
use crate::json::{json_model_fields, lemma_json_model_fields, JsonModel, JsonVal};

verus! {

/// The handlers the remote-procedure catalog implements.
#[derive(Clone, Copy, PartialEq, Eq, Structural)]
pub enum Handler {
    LatestState,
    InitializeWebview,
    AuthStatusSubscribe,
}

/// The dispatch table: a (service, method) key resolves to a handler.
pub struct HandlerTable {
    pub entries: Vec<(String, String, Handler)>,
}

/// First handler bound to (service, method), if any.
pub open spec fn spec_table_lookup(
    entries: Seq<(Seq<char>, Seq<char>, Handler)>,
    service: Seq<char>,
    method: Seq<char>,
) -> Option<Handler>
    decreases entries.len(),
{
    if entries.len() == 0 {
        None
    } else if entries[0].0 == service && entries[0].1 == method {
        Some(entries[0].2)
    } else {
        spec_table_lookup(entries.drop_first(), service, method)
    }
}

impl HandlerTable {
    /// Mathematical shape of the table.
    pub open spec fn model(self) -> Seq<(Seq<char>, Seq<char>, Handler)> {
        self.entries@.map_values(|e: (String, String, Handler)| (e.0@, e.1@, e.2))
    }

    /// The catalog the bridge serves.
    pub open spec fn standard_model() -> Seq<(Seq<char>, Seq<char>, Handler)> {
        seq![
            ("cline.StateService"@, "getLatestState"@, Handler::LatestState),
            ("cline.UiService"@, "initializeWebview"@, Handler::InitializeWebview),
            ("cline.AccountService"@, "subscribeToAuthStatusUpdate"@, Handler::AuthStatusSubscribe),
        ]
    }

    /// Builds the catalog the bridge serves.
    pub fn standard() -> (r: HandlerTable)
        ensures
            r.model() == HandlerTable::standard_model(),
    {
        let mut entries: Vec<(String, String, Handler)> = Vec::new();
        entries.push(
            ("cline.StateService".to_owned(), "getLatestState".to_owned(), Handler::LatestState),
        );
        entries.push(
            (
                "cline.UiService".to_owned(),
                "initializeWebview".to_owned(),
                Handler::InitializeWebview,
            ),
        );
        entries.push(
            (
                "cline.AccountService".to_owned(),
                "subscribeToAuthStatusUpdate".to_owned(),
                Handler::AuthStatusSubscribe,
            ),
        );
        let r = HandlerTable { entries };
        proof {
            assert(r.model() =~= HandlerTable::standard_model());
        }
        r
    }

    /// Resolves a (service, method) key to its handler, if registered.
    pub fn lookup(&self, service: &String, method: &String) -> (r: Option<Handler>)
        ensures
            r == spec_table_lookup(self.model(), service@, method@),
    {
        let ghost all = self.model();
        proof {
            assert(all.skip(0) =~= all);
        }
        let mut i: usize = 0;
        loop
            invariant
                i <= self.entries@.len(),
                all == self.model(),
                all.len() == self.entries@.len(),
                spec_table_lookup(all, service@, method@) == spec_table_lookup(
                    all.skip(i as int),
                    service@,
                    method@,
                ),
            decreases self.entries@.len() - i,
        {
            if i >= self.entries.len() {
                proof {
                    assert(all.skip(i as int) =~= Seq::<(Seq<char>, Seq<char>, Handler)>::empty());
                }
                return None;
            }
            proof {
                assert(all.skip(i as int).drop_first() =~= all.skip(i as int + 1));
                assert(all.skip(i as int)[0] == all[i as int]);
            }
            let entry = &self.entries[i];
            if entry.0 == *service && entry.1 == *method {
                return Some(entry.2);
            }
            i = i + 1;
        }
    }
}

/// An action for the host collaborator, carrying the correlation value
/// to echo when the outcome comes back.
pub enum HostOp {
    Execute { id: JsonVal, command: String, cwd: Option<String> },
    Read { id: JsonVal, path: String },
    Write { id: JsonVal, path: String, content: String },
    List { id: JsonVal, path: Option<String> },
}

/// Mathematical shape of a `HostOp`.
pub enum HostOpModel {
    Execute { id: JsonModel, command: Seq<char>, cwd: Option<Seq<char>> },
    Read { id: JsonModel, path: Seq<char> },
    Write { id: JsonModel, path: Seq<char>, content: Seq<char> },
    List { id: JsonModel, path: Option<Seq<char>> },
}

impl View for HostOp {
    type V = HostOpModel;

    open spec fn view(&self) -> HostOpModel {
        match self {
            HostOp::Execute { id, command, cwd } => HostOpModel::Execute {
                id: id@,
                command: command@,
                cwd: match cwd {
                    Some(c) => Some(c@),
                    None => None,
                },
            },
            HostOp::Read { id, path } => HostOpModel::Read { id: id@, path: path@ },
            HostOp::Write { id, path, content } => HostOpModel::Write {
                id: id@,
                path: path@,
                content: content@,
            },
            HostOp::List { id, path } => HostOpModel::List {
                id: id@,
                path: match path {
                    Some(p) => Some(p@),
                    None => None,
                },
            },
        }
    }
}

/// What one dispatch produced: replies to emit now, and at most one
/// action for the host collaborator.
pub struct Dispatch {
    pub emits: Vec<Outbound>,
    pub action: Option<HostOp>,
}

/// Why a dispatch was refused.
#[derive(Debug)]
pub enum DispatchError {
    /// The bridge only routes envelopes while the status surface is
    /// ready; the caller answers with its current status instead.
    NotReady,
}

/// Outbound messages, elementwise.
pub open spec fn outs_model(v: Seq<Outbound>) -> Seq<OutboundModel> {
    v.map_values(|o: Outbound| o@)
}

/// The payload `getLatestState` answers with.
pub open spec fn state_snapshot_model() -> JsonModel {
    JsonModel::Obj(
        seq![
            ("version"@, JsonModel::Str("1.0.0"@)),
            ("mode"@, JsonModel::Str("standalone"@)),
            (
                "settings"@,
                JsonModel::Obj(
                    seq![
                        ("theme"@, JsonModel::Str("dark"@)),
                        ("autoApprove"@, JsonModel::Bool(false)),
                    ],
                ),
            ),
        ],
    )
}

/// The initial payload a fresh auth-status subscription receives.
pub open spec fn auth_state_model() -> JsonModel {
    JsonModel::Obj(
        seq![("isAuthenticated"@, JsonModel::Bool(false)), ("user"@, JsonModel::Null)],
    )
}

/// A reply envelope under the request's correlation token.
pub open spec fn grpc_reply_model(
    request_id: Seq<char>,
    message: JsonModel,
    is_streaming: bool,
) -> OutboundModel {
    OutboundModel::Grpc(GrpcResponseModel { request_id, message, is_streaming })
}

/// What each handler emits for a request. The default (unregistered)
/// handler acknowledges with an empty payload and a final reply, so a
/// non-streaming request always receives exactly one final reply; the
/// auth-status subscription answers with the current snapshot, final
/// for a non-streaming request, non-final (stream left open) for a
/// streaming one. A streaming request to any other handler still gets
/// the handler's single final reply: the acknowledgement policy wins
/// over the request's streaming flag there.
pub open spec fn spec_grpc_emits(
    h: Option<Handler>,
    r: crate::envelope::GrpcRequestModel,
) -> Seq<OutboundModel> {
    match h {
        Some(Handler::LatestState) => seq![
            grpc_reply_model(r.request_id, state_snapshot_model(), false),
        ],
        Some(Handler::InitializeWebview) => seq![
            grpc_reply_model(r.request_id, JsonModel::Obj(Seq::empty()), false),
        ],
        Some(Handler::AuthStatusSubscribe) => if r.is_streaming {
            seq![grpc_reply_model(r.request_id, auth_state_model(), true)]
        } else {
            seq![grpc_reply_model(r.request_id, auth_state_model(), false)]
        },
        None => seq![grpc_reply_model(r.request_id, JsonModel::Obj(Seq::empty()), false)],
    }
}

/// The open streams after a request: a streaming subscription stays
/// open under its token until cancelled.
pub open spec fn spec_streams_after(
    h: Option<Handler>,
    r: crate::envelope::GrpcRequestModel,
    streams: Seq<Seq<char>>,
) -> Seq<Seq<char>> {
    if h == Some(Handler::AuthStatusSubscribe) && r.is_streaming {
        streams.push(r.request_id)
    } else {
        streams
    }
}

/// The open streams after a cancellation: the first stream under the
/// token is closed; cancelling a token with no open stream changes
/// nothing and raises no error.
pub open spec fn spec_cancel(s: Seq<Seq<char>>, id: Seq<char>) -> Seq<Seq<char>>
    decreases s.len(),
{
    if s.len() == 0 {
        s
    } else if s.first() == id {
        s.drop_first()
    } else {
        seq![s.first()] + spec_cancel(s.drop_first(), id)
    }
}

/// Cancelling a token that is not open leaves the streams unchanged.
pub proof fn lemma_cancel_absent(s: Seq<Seq<char>>, id: Seq<char>)
    requires
        forall|j: int| 0 <= j < s.len() ==> s[j] != id,
    ensures
        spec_cancel(s, id) == s,
    decreases s.len(),
{
    if s.len() > 0 {
        lemma_cancel_absent(s.drop_first(), id);
        assert(seq![s.first()] + s.drop_first() =~= s);
    }
}

/// Cancelling removes exactly the first open stream under the token.
pub proof fn lemma_cancel_removes_first(s: Seq<Seq<char>>, id: Seq<char>, idx: int)
    requires
        0 <= idx < s.len(),
        s[idx] == id,
        forall|j: int| 0 <= j < idx ==> s[j] != id,
    ensures
        spec_cancel(s, id) == s.remove(idx),
    decreases idx,
{
    if idx == 0 {
        assert(s.drop_first() =~= s.remove(0));
    } else {
        lemma_cancel_removes_first(s.drop_first(), id, idx - 1);
        assert(seq![s.first()] + s.drop_first().remove(idx - 1) =~= s.remove(idx));
    }
}

/// What one dispatch does, as a function of the table, the open streams
/// and the message: the replies, the host action, and the streams after.
pub open spec fn spec_dispatch(
    table: Seq<(Seq<char>, Seq<char>, Handler)>,
    streams: Seq<Seq<char>>,
    m: InboundModel,
) -> (Seq<OutboundModel>, Option<HostOpModel>, Seq<Seq<char>>) {
    match m {
        InboundModel::Grpc(r) => {
            let h = spec_table_lookup(table, r.service, r.method);
            (spec_grpc_emits(h, r), None, spec_streams_after(h, r, streams))
        },
        InboundModel::GrpcCancel { request_id } => (
            Seq::empty(),
            None,
            spec_cancel(streams, request_id),
        ),
        InboundModel::ExecuteCommand { id, command, cwd } => (
            Seq::empty(),
            Some(HostOpModel::Execute { id, command, cwd }),
            streams,
        ),
        InboundModel::ReadFile { id, path } => (
            Seq::empty(),
            Some(HostOpModel::Read { id, path }),
            streams,
        ),
        InboundModel::WriteFile { id, path, content } => (
            Seq::empty(),
            Some(HostOpModel::Write { id, path, content }),
            streams,
        ),
        InboundModel::ListFiles { id, path } => (
            Seq::empty(),
            Some(HostOpModel::List { id, path }),
            streams,
        ),
        InboundModel::Unknown { id, msg_type } => (
            seq![
                OutboundModel::UnknownType { id, error: "unknown message type: "@ + msg_type },
            ],
            None,
            streams,
        ),
    }
}

/// The message bridge: the dispatch table and the streams left open.
pub struct Bridge {
    pub handlers: HandlerTable,
    pub open_streams: Vec<String>,
}

impl Bridge {
    /// The correlation tokens of the streams left open.
    pub open spec fn streams(self) -> Seq<Seq<char>> {
        self.open_streams.deep_view()
    }

    /// The table's mathematical shape.
    pub open spec fn table(self) -> Seq<(Seq<char>, Seq<char>, Handler)> {
        self.handlers.model()
    }

    /// A bridge over the standard catalog, with no stream open.
    pub fn new() -> (r: Bridge)
        ensures
            r.table() == HandlerTable::standard_model(),
            r.streams() =~= Seq::<Seq<char>>::empty(),
    {
        Bridge { handlers: HandlerTable::standard(), open_streams: Vec::new() }
    }

    /// Builds the payload `getLatestState` answers with.
    fn state_snapshot() -> (r: JsonVal)
        ensures
            r@ == state_snapshot_model(),
    {
        let settings = crate::envelope::obj2(
            "theme",
            JsonVal::Str("dark".to_owned()),
            "autoApprove",
            JsonVal::Bool(false),
        );
        crate::envelope::obj3(
            "version",
            JsonVal::Str("1.0.0".to_owned()),
            "mode",
            JsonVal::Str("standalone".to_owned()),
            "settings",
            settings,
        )
    }

    /// Builds the initial auth-status payload.
    fn auth_state() -> (r: JsonVal)
        ensures
            r@ == auth_state_model(),
    {
        crate::envelope::obj2("isAuthenticated", JsonVal::Bool(false), "user", JsonVal::Null)
    }

    /// An empty JSON object: the default handler's payload.
    fn empty_payload() -> (r: JsonVal)
        ensures
            r@ == JsonModel::Obj(Seq::empty()),
    {
        let fields: Vec<(String, JsonVal)> = Vec::new();
        proof {
            lemma_json_model_fields(fields@);
            assert(json_model_fields(fields@) =~= Seq::<(Seq<char>, JsonModel)>::empty());
        }
        JsonVal::Obj(fields)
    }

    /// Closes the first open stream under the token, if one is open.
    #[verifier::loop_isolation(false)]
    fn cancel_stream(&mut self, request_id: &String)
        ensures
            final(self).handlers == old(self).handlers,
            final(self).streams() == spec_cancel(old(self).streams(), request_id@),
    {
        let ghost orig = *self;
        let ghost all = orig.streams();
        let mut i: usize = 0;
        loop
            invariant
                i <= self.open_streams@.len(),
                *self == orig,
                all == self.streams(),
                all.len() == self.open_streams@.len(),
                forall|j: int| 0 <= j < i ==> all[j] != request_id@,
            decreases self.open_streams@.len() - i,
        {
            if i >= self.open_streams.len() {
                proof {
                    lemma_cancel_absent(all, request_id@);
                }
                return ;
            }
            if self.open_streams[i] == *request_id {
                proof {
                    lemma_cancel_removes_first(all, request_id@, i as int);
                }
                self.open_streams.remove(i);
                proof {
                    assert(self.streams() =~= all.remove(i as int));
                }
                return ;
            }
            i = i + 1;
        }
    }

    /// Routes one inbound message. Refused unless the status surface is
    /// ready; otherwise the replies, the host action and the open
    /// streams afterwards are exactly `spec_dispatch` of the message.
    pub fn dispatch(&mut self, status: &HostBridgeStatus, msg: Inbound) -> (r: Result<
        Dispatch,
        DispatchError,
    >)
        ensures
            final(self).handlers == old(self).handlers,
            r is Err <==> !(status@ is Ready),
            r is Err ==> *final(self) == *old(self),
            r matches Ok(d) ==> ({
                let (emits, action, streams_after) = spec_dispatch(
                    old(self).table(),
                    old(self).streams(),
                    msg@,
                );
                &&& outs_model(d.emits@) == emits
                &&& match d.action {
                    Some(op) => action == Some(op@),
                    None => action is None,
                }
                &&& final(self).streams() == streams_after
            }),
    {
        let ghost table0 = self.table();
        let ghost streams0 = self.streams();
        let ghost msg0 = msg@;
        let ghost spec_result = spec_dispatch(table0, streams0, msg0);
        match status {
            HostBridgeStatus::Ready => (),
            _ => {
                return Err(DispatchError::NotReady);
            },
        }
        match msg {
            Inbound::Grpc(req) => {
                let handler = self.handlers.lookup(&req.service, &req.method);
                let mut emits: Vec<Outbound> = Vec::new();
                match handler {
                    Some(Handler::LatestState) => {
                        emits.push(
                            Outbound::Grpc(
                                GrpcResponse {
                                    request_id: req.request_id,
                                    message: Self::state_snapshot(),
                                    is_streaming: false,
                                },
                            ),
                        );
                    },
                    Some(Handler::InitializeWebview) => {
                        emits.push(
                            Outbound::Grpc(
                                GrpcResponse {
                                    request_id: req.request_id,
                                    message: Self::empty_payload(),
                                    is_streaming: false,
                                },
                            ),
                        );
                    },
                    Some(Handler::AuthStatusSubscribe) => {
                        if req.is_streaming {
                            self.open_streams.push(req.request_id.clone());
                            emits.push(
                                Outbound::Grpc(
                                    GrpcResponse {
                                        request_id: req.request_id,
                                        message: Self::auth_state(),
                                        is_streaming: true,
                                    },
                                ),
                            );
                            proof {
                                assert(self.streams() =~= streams0.push(req.request_id@));
                            }
                        } else {
                            emits.push(
                                Outbound::Grpc(
                                    GrpcResponse {
                                        request_id: req.request_id,
                                        message: Self::auth_state(),
                                        is_streaming: false,
                                    },
                                ),
                            );
                        }
                    },
                    None => {
                        emits.push(
                            Outbound::Grpc(
                                GrpcResponse {
                                    request_id: req.request_id,
                                    message: Self::empty_payload(),
                                    is_streaming: false,
                                },
                            ),
                        );
                    },
                }
                proof {
                    assert(outs_model(emits@) =~= spec_result.0);
                }
                Ok(Dispatch { emits, action: None })
            },
            Inbound::GrpcCancel { request_id } => {
                self.cancel_stream(&request_id);
                let emits: Vec<Outbound> = Vec::new();
                proof {
                    assert(outs_model(emits@) =~= spec_result.0);
                }
                Ok(Dispatch { emits, action: None })
            },
            Inbound::ExecuteCommand { id, command, cwd } => {
                let emits: Vec<Outbound> = Vec::new();
                proof {
                    assert(outs_model(emits@) =~= spec_result.0);
                }
                Ok(Dispatch { emits, action: Some(HostOp::Execute { id, command, cwd }) })
            },
            Inbound::ReadFile { id, path } => {
                let emits: Vec<Outbound> = Vec::new();
                proof {
                    assert(outs_model(emits@) =~= spec_result.0);
                }
                Ok(Dispatch { emits, action: Some(HostOp::Read { id, path }) })
            },
            Inbound::WriteFile { id, path, content } => {
                let emits: Vec<Outbound> = Vec::new();
                proof {
                    assert(outs_model(emits@) =~= spec_result.0);
                }
                Ok(Dispatch { emits, action: Some(HostOp::Write { id, path, content }) })
            },
            Inbound::ListFiles { id, path } => {
                let emits: Vec<Outbound> = Vec::new();
                proof {
                    assert(outs_model(emits@) =~= spec_result.0);
                }
                Ok(Dispatch { emits, action: Some(HostOp::List { id, path }) })
            },
            Inbound::Unknown { id, msg_type } => {
                let error = String::from_str("unknown message type: ").concat(msg_type.as_str());
                let mut emits: Vec<Outbound> = Vec::new();
                emits.push(Outbound::UnknownType { id, error });
                proof {
                    assert(outs_model(emits@) =~= spec_result.0);
                }
                Ok(Dispatch { emits, action: None })
            },
        }
    }
}

/// An unregistered (service, method) pair is answered by the default
/// handler: exactly one reply, final (no further replies follow), with
/// an empty payload and the request's own token echoed; no host action,
/// and the open streams untouched.
pub proof fn lemma_default_handler_reply(
    table: Seq<(Seq<char>, Seq<char>, Handler)>,
    streams: Seq<Seq<char>>,
    r: crate::envelope::GrpcRequestModel,
)
    requires
        spec_table_lookup(table, r.service, r.method) is None,
    ensures
        ({
            let (emits, action, streams_after) = spec_dispatch(
                table,
                streams,
                InboundModel::Grpc(r),
            );
            &&& emits == seq![
                grpc_reply_model(r.request_id, JsonModel::Obj(Seq::empty()), false),
            ]
            &&& action is None
            &&& streams_after == streams
        }),
{
}

/// Every reply a request produces echoes that request's own token —
/// never another's. Every non-streaming request, and every streaming
/// request outside the auth-status subscription, is answered with
/// exactly one final reply; only a streaming subscription leaves its
/// stream open, with one non-final reply. So the replies to requests
/// with distinct tokens never mix, and every exchange but an open
/// subscription ends with exactly one final reply.
pub proof fn lemma_replies_echo_token(
    table: Seq<(Seq<char>, Seq<char>, Handler)>,
    streams: Seq<Seq<char>>,
    r: crate::envelope::GrpcRequestModel,
)
    ensures
        ({
            let (emits, action, streams_after) = spec_dispatch(
                table,
                streams,
                InboundModel::Grpc(r),
            );
            &&& forall|i: int|
                0 <= i < emits.len() ==> (#[trigger] emits[i]) is Grpc
                    && emits[i]->Grpc_0.request_id == r.request_id
            &&& !r.is_streaming ==> emits.len() == 1 && !(emits[0]->Grpc_0.is_streaming)
            &&& spec_table_lookup(table, r.service, r.method) != Some(
                Handler::AuthStatusSubscribe,
            ) ==> emits.len() == 1 && !(emits[0]->Grpc_0.is_streaming)
            &&& r.is_streaming && spec_table_lookup(table, r.service, r.method) == Some(
                Handler::AuthStatusSubscribe,
            ) ==> emits.len() == 1 && emits[0]->Grpc_0.is_streaming
        }),
{
}

/// Requests under distinct tokens answer under distinct tokens: no
/// reply produced for the one ever carries the token of the other.
pub proof fn lemma_distinct_tokens_never_mix(
    table: Seq<(Seq<char>, Seq<char>, Handler)>,
    streams1: Seq<Seq<char>>,
    streams2: Seq<Seq<char>>,
    r1: crate::envelope::GrpcRequestModel,
    r2: crate::envelope::GrpcRequestModel,
)
    requires
        r1.request_id != r2.request_id,
    ensures
        ({
            let emits1 = spec_dispatch(table, streams1, InboundModel::Grpc(r1)).0;
            let emits2 = spec_dispatch(table, streams2, InboundModel::Grpc(r2)).0;
            forall|i: int, j: int|
                0 <= i < emits1.len() && 0 <= j < emits2.len() ==> (
                #[trigger] emits1[i])->Grpc_0.request_id != (#[trigger] emits2[j])->Grpc_0.request_id
        }),
{
    lemma_replies_echo_token(table, streams1, r1);
    lemma_replies_echo_token(table, streams2, r2);
}

/// Cancelling a token with no stream open under it — in particular one
/// whose request already completed — is a no-op: no reply, no host
/// action, no error, and the open streams exactly as they were.
pub proof fn lemma_cancel_completed_token(
    table: Seq<(Seq<char>, Seq<char>, Handler)>,
    streams: Seq<Seq<char>>,
    request_id: Seq<char>,
)
    requires
        forall|j: int| 0 <= j < streams.len() ==> #[trigger] streams[j] != request_id,
    ensures
        ({
            let (emits, action, streams_after) = spec_dispatch(
                table,
                streams,
                InboundModel::GrpcCancel { request_id },
            );
            &&& emits == Seq::<OutboundModel>::empty()
            &&& action is None
            &&& streams_after == streams
        }),
{
    lemma_cancel_absent(streams, request_id);
}

/// Turns the collaborator's outcome for a terminal command into the
/// reply that answers it: the output on success, the failure otherwise.
pub fn complete_execute(id: JsonVal, outcome: Result<String, String>) -> (r: Outbound)
    ensures
        r@ == match outcome {
            Ok(out) => OutboundModel::CommandResult { id: id@, result: out@ },
            Err(e) => OutboundModel::CommandError { id: id@, error: e@ },
        },
{
    match outcome {
        Ok(out) => Outbound::CommandResult { id, result: out },
        Err(e) => Outbound::CommandError { id, error: e },
    }
}

/// Turns the collaborator's outcome for a file read into its reply.
pub fn complete_read(id: JsonVal, outcome: Result<String, String>) -> (r: Outbound)
    ensures
        r@ == match outcome {
            Ok(content) => OutboundModel::FileContent { id: id@, content: content@ },
            Err(e) => OutboundModel::FileError { id: id@, error: e@ },
        },
{
    match outcome {
        Ok(content) => Outbound::FileContent { id, content },
        Err(e) => Outbound::FileError { id, error: e },
    }
}

/// Turns the collaborator's outcome for a file write into its reply.
pub fn complete_write(id: JsonVal, outcome: Result<(), String>) -> (r: Outbound)
    ensures
        r@ == match outcome {
            Ok(_) => OutboundModel::WriteResult {
                id: id@,
                result: "file written successfully"@,
            },
            Err(e) => OutboundModel::WriteError { id: id@, error: e@ },
        },
{
    match outcome {
        Ok(_) => Outbound::WriteResult { id, result: "file written successfully".to_owned() },
        Err(e) => Outbound::WriteError { id, error: e },
    }
}

/// Turns the collaborator's outcome for a directory listing into its reply.
pub fn complete_list(id: JsonVal, outcome: Result<Vec<String>, String>) -> (r: Outbound)
    ensures
        r@ == match outcome {
            Ok(files) => OutboundModel::FileList { id: id@, files: files.deep_view() },
            Err(e) => OutboundModel::ListError { id: id@, error: e@ },
        },
{
    match outcome {
        Ok(files) => Outbound::FileList { id, files },
        Err(e) => Outbound::ListError { id, error: e },
    }
}

} // verus!
