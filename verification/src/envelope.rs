//! The envelope grammar of the UI boundary: which inbound messages the
//! bridge recognises, and how each is read out of a JSON document.
//!
//! A message is a JSON object with a discriminating `type` field. A
//! message without a readable `type`, or missing a field its type
//! requires, is dropped (the parser returns `None`); a message whose
//! `type` is unrecognised is kept, so the bridge can answer it with a
//! structured error.

use vstd::prelude::*;

use crate::json::{json_model, spec_get, JsonModel, JsonVal};

verus! {

/// A remote-procedure request: correlation token, routing key and
/// streaming flag, exactly the fields the dispatcher reads.
pub struct GrpcRequest {
    pub request_id: String,
    pub service: String,
    pub method: String,
    pub is_streaming: bool,
}

/// Mathematical shape of a `GrpcRequest`.
pub struct GrpcRequestModel {
    pub request_id: Seq<char>,
    pub service: Seq<char>,
    pub method: Seq<char>,
    pub is_streaming: bool,
}

impl View for GrpcRequest {
    type V = GrpcRequestModel;

    open spec fn view(&self) -> GrpcRequestModel {
        GrpcRequestModel {
            request_id: self.request_id@,
            service: self.service@,
            method: self.method@,
            is_streaming: self.is_streaming,
        }
    }
}

/// An inbound message, after the envelope grammar has been applied.
/// `id` carries the caller's correlation value verbatim (`Null` when
/// the message had none), to be echoed in the reply.
pub enum Inbound {
    Grpc(GrpcRequest),
    GrpcCancel { request_id: String },
    ExecuteCommand { id: JsonVal, command: String, cwd: Option<String> },
    ReadFile { id: JsonVal, path: String },
    WriteFile { id: JsonVal, path: String, content: String },
    ListFiles { id: JsonVal, path: Option<String> },
    Unknown { id: JsonVal, msg_type: String },
}

/// Mathematical shape of an `Inbound`.
pub enum InboundModel {
    Grpc(GrpcRequestModel),
    GrpcCancel { request_id: Seq<char> },
    ExecuteCommand { id: JsonModel, command: Seq<char>, cwd: Option<Seq<char>> },
    ReadFile { id: JsonModel, path: Seq<char> },
    WriteFile { id: JsonModel, path: Seq<char>, content: Seq<char> },
    ListFiles { id: JsonModel, path: Option<Seq<char>> },
    Unknown { id: JsonModel, msg_type: Seq<char> },
}

impl View for Inbound {
    type V = InboundModel;

    open spec fn view(&self) -> InboundModel {
        match self {
            Inbound::Grpc(r) => InboundModel::Grpc(r@),
            Inbound::GrpcCancel { request_id } => InboundModel::GrpcCancel {
                request_id: request_id@,
            },
            Inbound::ExecuteCommand { id, command, cwd } => InboundModel::ExecuteCommand {
                id: id@,
                command: command@,
                cwd: match cwd {
                    Some(c) => Some(c@),
                    None => None,
                },
            },
            Inbound::ReadFile { id, path } => InboundModel::ReadFile { id: id@, path: path@ },
            Inbound::WriteFile { id, path, content } => InboundModel::WriteFile {
                id: id@,
                path: path@,
                content: content@,
            },
            Inbound::ListFiles { id, path } => InboundModel::ListFiles {
                id: id@,
                path: match path {
                    Some(p) => Some(p@),
                    None => None,
                },
            },
            Inbound::Unknown { id, msg_type } => InboundModel::Unknown {
                id: id@,
                msg_type: msg_type@,
            },
        }
    }
}

/// The string under `key`, if the field is there and is a string.
pub open spec fn str_field(m: JsonModel, key: Seq<char>) -> Option<Seq<char>> {
    match spec_get(m, key) {
        Some(JsonModel::Str(s)) => Some(s),
        _ => None,
    }
}

/// The string under `key`, the empty string when absent or not a string.
pub open spec fn str_field_or_empty(m: JsonModel, key: Seq<char>) -> Seq<char> {
    match str_field(m, key) {
        Some(s) => s,
        None => Seq::empty(),
    }
}

/// The boolean under `key`, `false` when absent or not a boolean.
pub open spec fn bool_field_or_false(m: JsonModel, key: Seq<char>) -> bool {
    match spec_get(m, key) {
        Some(JsonModel::Bool(b)) => b,
        _ => false,
    }
}

/// The caller's correlation value, `Null` when the message has none.
pub open spec fn id_field(m: JsonModel) -> JsonModel {
    match spec_get(m, "id"@) {
        Some(v) => v,
        None => JsonModel::Null,
    }
}

/// The envelope grammar. `None` means the message is dropped: it has no
/// readable `type`, or its type requires a field it lacks.
pub open spec fn spec_parse(m: JsonModel) -> Option<InboundModel> {
    match str_field(m, "type"@) {
        Some(t) => if t == "grpc_request"@ {
            match spec_get(m, "grpc_request"@) {
                Some(g) => Some(
                    InboundModel::Grpc(
                        GrpcRequestModel {
                            request_id: str_field_or_empty(g, "request_id"@),
                            service: str_field_or_empty(g, "service"@),
                            method: str_field_or_empty(g, "method"@),
                            is_streaming: bool_field_or_false(g, "is_streaming"@),
                        },
                    ),
                ),
                None => None,
            }
        } else if t == "grpc_request_cancel"@ {
            match spec_get(m, "grpc_request_cancel"@) {
                Some(g) => Some(
                    InboundModel::GrpcCancel { request_id: str_field_or_empty(g, "request_id"@) },
                ),
                None => None,
            }
        } else if t == "executeCommand"@ {
            match str_field(m, "command"@) {
                Some(c) => Some(
                    InboundModel::ExecuteCommand {
                        id: id_field(m),
                        command: c,
                        cwd: str_field(m, "cwd"@),
                    },
                ),
                None => None,
            }
        } else if t == "readFile"@ {
            match str_field(m, "path"@) {
                Some(p) => Some(InboundModel::ReadFile { id: id_field(m), path: p }),
                None => None,
            }
        } else if t == "writeFile"@ {
            match (str_field(m, "path"@), str_field(m, "content"@)) {
                (Some(p), Some(c)) => Some(
                    InboundModel::WriteFile { id: id_field(m), path: p, content: c },
                ),
                _ => None,
            }
        } else if t == "listFiles"@ {
            Some(InboundModel::ListFiles { id: id_field(m), path: str_field(m, "path"@) })
        } else {
            Some(InboundModel::Unknown { id: id_field(m), msg_type: t })
        },
        None => None,
    }
}

/// A remote-procedure reply: the echoed correlation token, the handler's
/// message, and whether further replies may follow under the same token.
pub struct GrpcResponse {
    pub request_id: String,
    pub message: JsonVal,
    pub is_streaming: bool,
}

/// Mathematical shape of a `GrpcResponse`.
pub struct GrpcResponseModel {
    pub request_id: Seq<char>,
    pub message: JsonModel,
    pub is_streaming: bool,
}

impl View for GrpcResponse {
    type V = GrpcResponseModel;

    open spec fn view(&self) -> GrpcResponseModel {
        GrpcResponseModel {
            request_id: self.request_id@,
            message: self.message@,
            is_streaming: self.is_streaming,
        }
    }
}

/// An outbound message. Success and failure of the simple operations are
/// distinct variants, so the UI can discriminate them structurally; the
/// caller's correlation value is echoed in `id`.
pub enum Outbound {
    Grpc(GrpcResponse),
    CommandResult { id: JsonVal, result: String },
    CommandError { id: JsonVal, error: String },
    FileContent { id: JsonVal, content: String },
    FileError { id: JsonVal, error: String },
    WriteResult { id: JsonVal, result: String },
    WriteError { id: JsonVal, error: String },
    FileList { id: JsonVal, files: Vec<String> },
    ListError { id: JsonVal, error: String },
    UnknownType { id: JsonVal, error: String },
}

/// Mathematical shape of an `Outbound`.
pub enum OutboundModel {
    Grpc(GrpcResponseModel),
    CommandResult { id: JsonModel, result: Seq<char> },
    CommandError { id: JsonModel, error: Seq<char> },
    FileContent { id: JsonModel, content: Seq<char> },
    FileError { id: JsonModel, error: Seq<char> },
    WriteResult { id: JsonModel, result: Seq<char> },
    WriteError { id: JsonModel, error: Seq<char> },
    FileList { id: JsonModel, files: Seq<Seq<char>> },
    ListError { id: JsonModel, error: Seq<char> },
    UnknownType { id: JsonModel, error: Seq<char> },
}

impl View for Outbound {
    type V = OutboundModel;

    open spec fn view(&self) -> OutboundModel {
        match self {
            Outbound::Grpc(g) => OutboundModel::Grpc(g@),
            Outbound::CommandResult { id, result } => OutboundModel::CommandResult {
                id: id@,
                result: result@,
            },
            Outbound::CommandError { id, error } => OutboundModel::CommandError {
                id: id@,
                error: error@,
            },
            Outbound::FileContent { id, content } => OutboundModel::FileContent {
                id: id@,
                content: content@,
            },
            Outbound::FileError { id, error } => OutboundModel::FileError {
                id: id@,
                error: error@,
            },
            Outbound::WriteResult { id, result } => OutboundModel::WriteResult {
                id: id@,
                result: result@,
            },
            Outbound::WriteError { id, error } => OutboundModel::WriteError {
                id: id@,
                error: error@,
            },
            Outbound::FileList { id, files } => OutboundModel::FileList {
                id: id@,
                files: files.deep_view(),
            },
            Outbound::ListError { id, error } => OutboundModel::ListError {
                id: id@,
                error: error@,
            },
            Outbound::UnknownType { id, error } => OutboundModel::UnknownType {
                id: id@,
                error: error@,
            },
        }
    }
}

/// The wire form of a simple-operation reply: `{type, id, <key>: <val>}`.
pub open spec fn simple_reply_model(
    t: Seq<char>,
    id: JsonModel,
    key: Seq<char>,
    val: JsonModel,
) -> JsonModel {
    JsonModel::Obj(seq![("type"@, JsonModel::Str(t)), ("id"@, id), (key, val)])
}

/// Strings as JSON string values, elementwise.
pub open spec fn str_items(files: Seq<Seq<char>>) -> Seq<JsonModel> {
    files.map_values(|s: Seq<char>| JsonModel::Str(s))
}

/// The wire form of every outbound message.
pub open spec fn wire_model(o: OutboundModel) -> JsonModel {
    match o {
        OutboundModel::Grpc(g) => JsonModel::Obj(
            seq![
                ("type"@, JsonModel::Str("grpc_response"@)),
                (
                    "grpc_response"@,
                    JsonModel::Obj(
                        seq![
                            ("request_id"@, JsonModel::Str(g.request_id)),
                            ("message"@, g.message),
                            ("is_streaming"@, JsonModel::Bool(g.is_streaming)),
                        ],
                    ),
                ),
            ],
        ),
        OutboundModel::CommandResult { id, result } => simple_reply_model(
            "commandResult"@,
            id,
            "result"@,
            JsonModel::Str(result),
        ),
        OutboundModel::CommandError { id, error } => simple_reply_model(
            "commandError"@,
            id,
            "error"@,
            JsonModel::Str(error),
        ),
        OutboundModel::FileContent { id, content } => simple_reply_model(
            "fileContent"@,
            id,
            "content"@,
            JsonModel::Str(content),
        ),
        OutboundModel::FileError { id, error } => simple_reply_model(
            "fileError"@,
            id,
            "error"@,
            JsonModel::Str(error),
        ),
        OutboundModel::WriteResult { id, result } => simple_reply_model(
            "writeResult"@,
            id,
            "result"@,
            JsonModel::Str(result),
        ),
        OutboundModel::WriteError { id, error } => simple_reply_model(
            "writeError"@,
            id,
            "error"@,
            JsonModel::Str(error),
        ),
        OutboundModel::FileList { id, files } => simple_reply_model(
            "fileList"@,
            id,
            "files"@,
            JsonModel::Arr(str_items(files)),
        ),
        OutboundModel::ListError { id, error } => simple_reply_model(
            "listError"@,
            id,
            "error"@,
            JsonModel::Str(error),
        ),
        OutboundModel::UnknownType { id, error } => simple_reply_model(
            "error"@,
            id,
            "error"@,
            JsonModel::Str(error),
        ),
    }
}

/// Builds a two-field JSON object.
pub(crate) fn obj2(k1: &str, v1: JsonVal, k2: &str, v2: JsonVal) -> (r: JsonVal)
    ensures
        r@ == JsonModel::Obj(seq![(k1@, v1@), (k2@, v2@)]),
{
    let ghost target = seq![(k1@, v1@), (k2@, v2@)];
    let mut fields: Vec<(String, JsonVal)> = Vec::new();
    fields.push((k1.to_owned(), v1));
    fields.push((k2.to_owned(), v2));
    proof {
        crate::json::lemma_json_model_fields(fields@);
        assert(crate::json::json_model_fields(fields@) =~= target);
    }
    JsonVal::Obj(fields)
}

/// Builds a three-field JSON object.
pub(crate) fn obj3(k1: &str, v1: JsonVal, k2: &str, v2: JsonVal, k3: &str, v3: JsonVal) -> (r: JsonVal)
    ensures
        r@ == JsonModel::Obj(seq![(k1@, v1@), (k2@, v2@), (k3@, v3@)]),
{
    let ghost target = seq![(k1@, v1@), (k2@, v2@), (k3@, v3@)];
    let mut fields: Vec<(String, JsonVal)> = Vec::new();
    fields.push((k1.to_owned(), v1));
    fields.push((k2.to_owned(), v2));
    fields.push((k3.to_owned(), v3));
    proof {
        crate::json::lemma_json_model_fields(fields@);
        assert(crate::json::json_model_fields(fields@) =~= target);
    }
    JsonVal::Obj(fields)
}

/// Builds a four-field JSON object.
pub(crate) fn obj4(
    k1: &str,
    v1: JsonVal,
    k2: &str,
    v2: JsonVal,
    k3: &str,
    v3: JsonVal,
    k4: &str,
    v4: JsonVal,
) -> (r: JsonVal)
    ensures
        r@ == JsonModel::Obj(seq![(k1@, v1@), (k2@, v2@), (k3@, v3@), (k4@, v4@)]),
{
    let ghost target = seq![(k1@, v1@), (k2@, v2@), (k3@, v3@), (k4@, v4@)];
    let mut fields: Vec<(String, JsonVal)> = Vec::new();
    fields.push((k1.to_owned(), v1));
    fields.push((k2.to_owned(), v2));
    fields.push((k3.to_owned(), v3));
    fields.push((k4.to_owned(), v4));
    proof {
        crate::json::lemma_json_model_fields(fields@);
        assert(crate::json::json_model_fields(fields@) =~= target);
    }
    JsonVal::Obj(fields)
}

/// Builds a five-field JSON object.
pub(crate) fn obj5(
    k1: &str,
    v1: JsonVal,
    k2: &str,
    v2: JsonVal,
    k3: &str,
    v3: JsonVal,
    k4: &str,
    v4: JsonVal,
    k5: &str,
    v5: JsonVal,
) -> (r: JsonVal)
    ensures
        r@ == JsonModel::Obj(seq![(k1@, v1@), (k2@, v2@), (k3@, v3@), (k4@, v4@), (k5@, v5@)]),
{
    let ghost target = seq![(k1@, v1@), (k2@, v2@), (k3@, v3@), (k4@, v4@), (k5@, v5@)];
    let mut fields: Vec<(String, JsonVal)> = Vec::new();
    fields.push((k1.to_owned(), v1));
    fields.push((k2.to_owned(), v2));
    fields.push((k3.to_owned(), v3));
    fields.push((k4.to_owned(), v4));
    fields.push((k5.to_owned(), v5));
    proof {
        crate::json::lemma_json_model_fields(fields@);
        assert(crate::json::json_model_fields(fields@) =~= target);
    }
    JsonVal::Obj(fields)
}

/// Renders an outbound message in its wire form.
pub fn encode_outbound(o: Outbound) -> (r: JsonVal)
    ensures
        r@ == wire_model(o@),
{
    match o {
        Outbound::Grpc(g) => {
            let inner = obj3(
                "request_id",
                JsonVal::Str(g.request_id),
                "message",
                g.message,
                "is_streaming",
                JsonVal::Bool(g.is_streaming),
            );
            obj2("type", JsonVal::Str("grpc_response".to_owned()), "grpc_response", inner)
        },
        Outbound::CommandResult { id, result } => obj3(
            "type",
            JsonVal::Str("commandResult".to_owned()),
            "id",
            id,
            "result",
            JsonVal::Str(result),
        ),
        Outbound::CommandError { id, error } => obj3(
            "type",
            JsonVal::Str("commandError".to_owned()),
            "id",
            id,
            "error",
            JsonVal::Str(error),
        ),
        Outbound::FileContent { id, content } => obj3(
            "type",
            JsonVal::Str("fileContent".to_owned()),
            "id",
            id,
            "content",
            JsonVal::Str(content),
        ),
        Outbound::FileError { id, error } => obj3(
            "type",
            JsonVal::Str("fileError".to_owned()),
            "id",
            id,
            "error",
            JsonVal::Str(error),
        ),
        Outbound::WriteResult { id, result } => obj3(
            "type",
            JsonVal::Str("writeResult".to_owned()),
            "id",
            id,
            "result",
            JsonVal::Str(result),
        ),
        Outbound::WriteError { id, error } => obj3(
            "type",
            JsonVal::Str("writeError".to_owned()),
            "id",
            id,
            "error",
            JsonVal::Str(error),
        ),
        Outbound::FileList { id, files } => {
            let ghost files_model = files.deep_view();
            let mut items: Vec<JsonVal> = Vec::new();
            let mut i: usize = 0;
            while i < files.len()
                invariant
                    i <= files@.len(),
                    files_model == files.deep_view(),
                    items@.len() == i,
                    forall|j: int|
                        0 <= j < i ==> json_model(#[trigger] items@[j]) == JsonModel::Str(
                            files@[j]@,
                        ),
                decreases files@.len() - i,
            {
                items.push(JsonVal::Str(files[i].clone()));
                i = i + 1;
            }
            proof {
                crate::json::lemma_json_model_seq(items@);
                assert(crate::json::json_model_seq(items@) =~= str_items(files_model));
            }
            obj3(
                "type",
                JsonVal::Str("fileList".to_owned()),
                "id",
                id,
                "files",
                JsonVal::Arr(items),
            )
        },
        Outbound::ListError { id, error } => obj3(
            "type",
            JsonVal::Str("listError".to_owned()),
            "id",
            id,
            "error",
            JsonVal::Str(error),
        ),
        Outbound::UnknownType { id, error } => obj3(
            "type",
            JsonVal::Str("error".to_owned()),
            "id",
            id,
            "error",
            JsonVal::Str(error),
        ),
    }
}

/// Character-for-character equality of two string slices.
pub fn str_eq(a: &str, b: &str) -> (r: bool)
    ensures
        r == (a@ == b@),
{
    let a_owned: String = a.to_owned();
    let b_owned: String = b.to_owned();
    a_owned == b_owned
}

/// Executable form of `str_field`.
fn read_str_field(v: &JsonVal, key: &str) -> (r: Option<String>)
    ensures
        match r {
            Some(s) => str_field(v@, key@) == Some(s@),
            None => str_field(v@, key@) is None,
        },
{
    match v.get(key) {
        Some(f) => match f.as_str() {
            Some(s) => Some(s.to_owned()),
            None => None,
        },
        None => None,
    }
}

/// Executable form of `str_field_or_empty`.
fn read_str_field_or_empty(v: &JsonVal, key: &str) -> (r: String)
    ensures
        r@ == str_field_or_empty(v@, key@),
{
    match read_str_field(v, key) {
        Some(s) => s,
        None => String::new(),
    }
}

/// Executable form of `bool_field_or_false`.
fn read_bool_field_or_false(v: &JsonVal, key: &str) -> (r: bool)
    ensures
        r == bool_field_or_false(v@, key@),
{
    match v.get(key) {
        Some(f) => match f.as_bool() {
            Some(b) => b,
            None => false,
        },
        None => false,
    }
}

/// Executable form of `id_field`: a copy of the correlation value.
fn read_id_field(v: &JsonVal) -> (r: JsonVal)
    ensures
        r@ == id_field(v@),
{
    match v.get("id") {
        Some(f) => f.deep_clone(),
        None => JsonVal::Null,
    }
}

/// Applies the envelope grammar to an inbound JSON document.
pub fn parse_inbound(msg: &JsonVal) -> (r: Option<Inbound>)
    ensures
        match r {
            Some(i) => spec_parse(msg@) == Some(i@),
            None => spec_parse(msg@) is None,
        },
{
    let t_val = match msg.get("type") {
        Some(v) => v,
        None => {
            return None;
        },
    };
    let t = match t_val.as_str() {
        Some(s) => s,
        None => {
            return None;
        },
    };
    if str_eq(t, "grpc_request") {
        let g = match msg.get("grpc_request") {
            Some(v) => v,
            None => {
                return None;
            },
        };
        Some(
            Inbound::Grpc(
                GrpcRequest {
                    request_id: read_str_field_or_empty(g, "request_id"),
                    service: read_str_field_or_empty(g, "service"),
                    method: read_str_field_or_empty(g, "method"),
                    is_streaming: read_bool_field_or_false(g, "is_streaming"),
                },
            ),
        )
    } else if str_eq(t, "grpc_request_cancel") {
        let g = match msg.get("grpc_request_cancel") {
            Some(v) => v,
            None => {
                return None;
            },
        };
        Some(Inbound::GrpcCancel { request_id: read_str_field_or_empty(g, "request_id") })
    } else if str_eq(t, "executeCommand") {
        let command = match read_str_field(msg, "command") {
            Some(c) => c,
            None => {
                return None;
            },
        };
        Some(
            Inbound::ExecuteCommand {
                id: read_id_field(msg),
                command,
                cwd: read_str_field(msg, "cwd"),
            },
        )
    } else if str_eq(t, "readFile") {
        let path = match read_str_field(msg, "path") {
            Some(p) => p,
            None => {
                return None;
            },
        };
        Some(Inbound::ReadFile { id: read_id_field(msg), path })
    } else if str_eq(t, "writeFile") {
        let path = match read_str_field(msg, "path") {
            Some(p) => p,
            None => {
                return None;
            },
        };
        let content = match read_str_field(msg, "content") {
            Some(c) => c,
            None => {
                return None;
            },
        };
        Some(Inbound::WriteFile { id: read_id_field(msg), path, content })
    } else if str_eq(t, "listFiles") {
        Some(Inbound::ListFiles { id: read_id_field(msg), path: read_str_field(msg, "path") })
    } else {
        Some(Inbound::Unknown { id: read_id_field(msg), msg_type: t.to_owned() })
    }
}

} // verus!
