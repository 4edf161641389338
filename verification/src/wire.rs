//! The wire protocol: request and response message shapes and their text.
//!
//! Messages are JSON with camelCase field names. A request's `parameters` is
//! a flat object merging the image URIs with the procedure's own parameters.
//! A response's `status` discriminates between a `success` form carrying an
//! `output` object and an `error` form carrying an `error` object.

use crate::ids::id_str;
use crate::json::{ser_json, ser_num, ser_obj_prefix, ser_string, Json, JsonNum, JsonV};
use vstd::prelude::*;

verus! {

broadcast use crate::text::lemma_concat_assoc;

/// A request published to a tool queue.
#[derive(Debug)]
pub struct RequestMessage {
    /// Fresh id of this message; its text is the correlation key.
    pub message_id: u128,
    /// When the request was composed, ISO-8601 UTC.
    pub timestamp: String,
    /// The procedure the worker must apply.
    pub procedure: String,
    /// Flat object: the procedure's parameters plus the two image URIs.
    pub parameters: Vec<(String, Json)>,
}

/// The mathematical form of a request.
pub struct RequestV {
    pub message_id: u128,
    pub timestamp: Seq<char>,
    pub procedure: Seq<char>,
    pub parameters: Seq<(Seq<char>, JsonV)>,
}

impl View for RequestMessage {
    type V = RequestV;

    open spec fn view(&self) -> RequestV {
        RequestV {
            message_id: self.message_id,
            timestamp: self.timestamp@,
            procedure: self.procedure@,
            parameters: crate::json::jview_obj(self.parameters, self.parameters.len() as int),
        }
    }
}

/// Whether a response carries a produced output or a worker error.
#[derive(Debug)]
pub enum ResponseStatus {
    Success { output: OutputObject },
    Error { error: ErrorObject },
}

/// What a successful tool application produced.
#[derive(Debug)]
pub struct OutputObject {
    /// Discriminates the two output forms.
    pub kind: OutputType,
    /// Where the produced image was written; present iff `kind` is `Image`.
    pub image_uri: Option<String>,
    /// The produced text; present iff `kind` is `Text`.
    pub text: Option<String>,
}

/// The two forms a tool output can take.
#[derive(Debug, PartialEq, Eq, Structural, Clone, Copy)]
pub enum OutputType {
    Image,
    Text,
}

/// A worker-reported failure for one request.
#[derive(Debug)]
pub struct ErrorObject {
    /// One of the protocol's closed set of error codes.
    pub code: String,
    /// The worker's message for the failure.
    pub message: String,
}

/// Worker-reported facts about the processing of one request.
#[derive(Debug)]
pub struct Metadata {
    /// How long the worker took, in seconds, as a decimal.
    pub processing_time: JsonNum,
    /// The name of the worker service.
    pub microservice: String,
}

/// A response consumed from the results queue.
#[derive(Debug)]
pub struct ResponseMessage {
    /// Fresh id of this message.
    pub message_id: String,
    /// The text of the `message_id` of the request this answers.
    pub correlation_id: String,
    /// When the response was composed, ISO-8601 UTC.
    pub timestamp: String,
    /// Success with an output, or an error.
    pub status: ResponseStatus,
    /// Processing time and worker name.
    pub metadata: Metadata,
}

/// The mathematical form of an output object.
pub struct OutputV {
    pub kind: OutputType,
    pub image_uri: Option<Seq<char>>,
    pub text: Option<Seq<char>>,
}

/// The mathematical form of an error object.
pub struct ErrorV {
    pub code: Seq<char>,
    pub message: Seq<char>,
}

/// The mathematical form of a response status.
pub enum StatusV {
    Success(OutputV),
    Error(ErrorV),
}

/// The mathematical form of a response.
pub struct ResponseV {
    pub message_id: Seq<char>,
    pub correlation_id: Seq<char>,
    pub timestamp: Seq<char>,
    pub status: StatusV,
    pub processing_time: JsonNum,
    pub microservice: Seq<char>,
}

impl View for OutputObject {
    type V = OutputV;

    open spec fn view(&self) -> OutputV {
        OutputV {
            kind: self.kind,
            image_uri: match self.image_uri {
                Some(s) => Some(s@),
                None => None,
            },
            text: match self.text {
                Some(s) => Some(s@),
                None => None,
            },
        }
    }
}

impl View for ErrorObject {
    type V = ErrorV;

    open spec fn view(&self) -> ErrorV {
        ErrorV { code: self.code@, message: self.message@ }
    }
}

impl View for ResponseStatus {
    type V = StatusV;

    open spec fn view(&self) -> StatusV {
        match self {
            ResponseStatus::Success { output } => StatusV::Success(output@),
            ResponseStatus::Error { error } => StatusV::Error(error@),
        }
    }
}

impl View for ResponseMessage {
    type V = ResponseV;

    open spec fn view(&self) -> ResponseV {
        ResponseV {
            message_id: self.message_id@,
            correlation_id: self.correlation_id@,
            timestamp: self.timestamp@,
            status: self.status@,
            processing_time: self.metadata.processing_time,
            microservice: self.metadata.microservice@,
        }
    }
}

impl OutputObject {
    /// The discriminator matches the fields: an image output carries exactly
    /// an image URI, a text output exactly a text.
    pub open spec fn wf(self) -> bool {
        match self.kind {
            OutputType::Image => self.image_uri is Some && self.text is None,
            OutputType::Text => self.text is Some && self.image_uri is None,
        }
    }
}

impl ResponseMessage {
    /// The output object, when present, matches its discriminator, and the
    /// processing time is a canonical decimal.
    pub open spec fn wf(self) -> bool {
        &&& match self.status {
            ResponseStatus::Success { output } => output.wf(),
            ResponseStatus::Error { error: _ } => true,
        }
        &&& self.metadata.processing_time.wf()
        &&& !self.metadata.processing_time.neg
    }
}

/// The text of the output object of a well-formed success response.
pub open spec fn ser_output(o: OutputObject) -> Seq<char> {
    match o.kind {
        OutputType::Image => "{\"type\":\"image\",\"imageURI\":"@ + ser_string(
            (o.image_uri->Some_0)@,
        ) + "}"@,
        OutputType::Text => "{\"type\":\"text\",\"text\":"@ + ser_string((o.text->Some_0)@) + "}"@,
    }
}

/// The text of the status and payload part of a response.
pub open spec fn ser_status(s: ResponseStatus) -> Seq<char> {
    match s {
        ResponseStatus::Success { output } => "\"status\":\"success\",\"output\":"@ + ser_output(
            output,
        ),
        ResponseStatus::Error { error } => "\"status\":\"error\",\"error\":{\"code\":"@
            + ser_string(error.code@) + ",\"message\":"@ + ser_string(error.message@) + "}"@,
    }
}

/// The full text of a response message.
pub open spec fn ser_response(m: ResponseMessage) -> Seq<char> {
    "{\"messageId\":"@ + ser_string(m.message_id@) + ",\"correlationId\":"@ + ser_string(
        m.correlation_id@,
    ) + ",\"timestamp\":"@ + ser_string(m.timestamp@) + ","@ + ser_status(m.status)
        + ",\"metadata\":{\"processingTime\":"@ + ser_num(m.metadata.processing_time)
        + ",\"microservice\":"@ + ser_string(m.metadata.microservice@) + "}}"@
}

/// The full text of a request message. The `parameters` object is written
/// with its members in order.
pub open spec fn ser_request(m: RequestMessage) -> Seq<char> {
    "{\"messageId\":"@ + ser_string(id_str(m.message_id)) + ",\"timestamp\":"@ + ser_string(
        m.timestamp@,
    ) + ",\"procedure\":"@ + ser_string(m.procedure@) + ",\"parameters\":"@ + seq!['{']
        + ser_obj_prefix(m.parameters, m.parameters.len() as int) + seq!['}'] + "}"@
}

/// The response read from a parsed wire value: the three strings, the
/// status discriminator with its payload object, and the metadata.
pub open spec fn resp_from_jv(v: JsonV) -> Option<ResponseV> {
    match v {
        JsonV::Obj(ms) => match (
            crate::worker::obj_lookup(ms, "messageId"@),
            crate::worker::obj_lookup(ms, "correlationId"@),
            crate::worker::obj_lookup(ms, "timestamp"@),
            crate::worker::obj_lookup(ms, "status"@),
            crate::worker::obj_lookup(ms, "metadata"@),
        ) {
            (
                Some(JsonV::Str(message_id)),
                Some(JsonV::Str(correlation_id)),
                Some(JsonV::Str(timestamp)),
                Some(JsonV::Str(st)),
                Some(JsonV::Obj(meta)),
            ) => match (
                crate::worker::obj_lookup(meta, "processingTime"@),
                crate::worker::obj_lookup(meta, "microservice"@),
            ) {
                (Some(JsonV::Num(processing_time)), Some(JsonV::Str(microservice))) => {
                    match status_from_jv(ms, st) {
                        Some(status) => Some(
                            ResponseV {
                                message_id,
                                correlation_id,
                                timestamp,
                                status,
                                processing_time,
                                microservice,
                            },
                        ),
                        None => None,
                    }
                },
                _ => None,
            },
            _ => None,
        },
        _ => None,
    }
}

/// The status payload read from a response object, by its discriminator.
pub open spec fn status_from_jv(ms: Seq<(Seq<char>, JsonV)>, st: Seq<char>) -> Option<StatusV> {
    if st == "success"@ {
        match crate::worker::obj_lookup(ms, "output"@) {
            Some(JsonV::Obj(out)) => match output_from_jv(out) {
                Some(o) => Some(StatusV::Success(o)),
                None => None,
            },
            _ => None,
        }
    } else if st == "error"@ {
        match crate::worker::obj_lookup(ms, "error"@) {
            Some(JsonV::Obj(err)) => match (
                crate::worker::obj_lookup(err, "code"@),
                crate::worker::obj_lookup(err, "message"@),
            ) {
                (Some(JsonV::Str(code)), Some(JsonV::Str(message))) => Some(
                    StatusV::Error(ErrorV { code, message }),
                ),
                _ => None,
            },
            _ => None,
        }
    } else {
        None
    }
}

/// The output object read from a parsed wire value: the `type` field
/// discriminates, and each of the two payload fields is a string when
/// present.
pub open spec fn output_from_jv(out: Seq<(Seq<char>, JsonV)>) -> Option<OutputV> {
    let kind = match crate::worker::obj_lookup(out, "type"@) {
        Some(JsonV::Str(k)) => if k == "image"@ {
            Some(OutputType::Image)
        } else if k == "text"@ {
            Some(OutputType::Text)
        } else {
            None
        },
        _ => None,
    };
    match kind {
        Some(kind) => {
            let image_uri = match crate::worker::obj_lookup(out, "imageURI"@) {
                Some(JsonV::Str(u)) => Some(Some(u)),
                None => Some(None),
                Some(_) => None,
            };
            let text = match crate::worker::obj_lookup(out, "text"@) {
                Some(JsonV::Str(t)) => Some(Some(t)),
                None => Some(None),
                Some(_) => None,
            };
            match (image_uri, text) {
                (Some(image_uri), Some(text)) => Some(OutputV { kind, image_uri, text }),
                _ => None,
            }
        },
        None => None,
    }
}

/// Reads a response out of a parsed wire value, exactly as `resp_from_jv`
/// does.
pub fn response_from_json(j: &Json) -> (r: Option<ResponseMessage>)
    ensures
        match r {
            Some(m) => resp_from_jv(crate::json::jview(*j)) == Some(m@),
            None => resp_from_jv(crate::json::jview(*j)) is None,
        },
{
    let ms = match j {
        Json::Obj(ms) => ms,
        _ => {
            return None;
        },
    };
    let message_id = match crate::worker::lookup(ms, "messageId") {
        Some(Json::Str(s)) => s.clone(),
        _ => {
            return None;
        },
    };
    let correlation_id = match crate::worker::lookup(ms, "correlationId") {
        Some(Json::Str(s)) => s.clone(),
        _ => {
            return None;
        },
    };
    let timestamp = match crate::worker::lookup(ms, "timestamp") {
        Some(Json::Str(s)) => s.clone(),
        _ => {
            return None;
        },
    };
    let st = match crate::worker::lookup(ms, "status") {
        Some(Json::Str(s)) => s,
        _ => {
            return None;
        },
    };
    let meta = match crate::worker::lookup(ms, "metadata") {
        Some(Json::Obj(meta)) => meta,
        _ => {
            return None;
        },
    };
    let processing_time = match crate::worker::lookup(meta, "processingTime") {
        Some(Json::Num(n)) => *n,
        _ => {
            return None;
        },
    };
    let microservice = match crate::worker::lookup(meta, "microservice") {
        Some(Json::Str(s)) => s.clone(),
        _ => {
            return None;
        },
    };
    let status: ResponseStatus = if crate::text::str_eq(st.as_str(), "success") {
        let out = match crate::worker::lookup(ms, "output") {
            Some(Json::Obj(out)) => out,
            _ => {
                return None;
            },
        };
        let kind = match crate::worker::lookup(out, "type") {
            Some(Json::Str(k)) => {
                if crate::text::str_eq(k.as_str(), "image") {
                    OutputType::Image
                } else if crate::text::str_eq(k.as_str(), "text") {
                    OutputType::Text
                } else {
                    return None;
                }
            },
            _ => {
                return None;
            },
        };
        let image_uri = match crate::worker::lookup(out, "imageURI") {
            Some(Json::Str(u)) => Some(u.clone()),
            None => None,
            Some(_) => {
                return None;
            },
        };
        let text = match crate::worker::lookup(out, "text") {
            Some(Json::Str(t)) => Some(t.clone()),
            None => None,
            Some(_) => {
                return None;
            },
        };
        ResponseStatus::Success { output: OutputObject { kind, image_uri, text } }
    } else if crate::text::str_eq(st.as_str(), "error") {
        let err = match crate::worker::lookup(ms, "error") {
            Some(Json::Obj(err)) => err,
            _ => {
                return None;
            },
        };
        let code = match crate::worker::lookup(err, "code") {
            Some(Json::Str(s)) => s.clone(),
            _ => {
                return None;
            },
        };
        let message = match crate::worker::lookup(err, "message") {
            Some(Json::Str(s)) => s.clone(),
            _ => {
                return None;
            },
        };
        ResponseStatus::Error { error: ErrorObject { code, message } }
    } else {
        return None;
    };
    Some(
        ResponseMessage {
            message_id,
            correlation_id,
            timestamp,
            status,
            metadata: Metadata { processing_time, microservice },
        },
    )
}

/// Reads a response from its wire text: parse as JSON, then read the
/// fields by name, the discriminator deciding the payload.
pub fn parse_response(text: &str) -> (r: Option<ResponseMessage>)
    ensures
        match r {
            Some(m) => (match crate::json::spec_parse_json(text@) {
                Some(v) => resp_from_jv(v) == Some(m@),
                None => false,
            }),
            None => (match crate::json::spec_parse_json(text@) {
                Some(v) => resp_from_jv(v) is None,
                None => true,
            }),
        },
{
    match crate::json::parse_json(text) {
        Some(j) => response_from_json(&j),
        None => None,
    }
}

/// The members of the output object a response carries, as they are laid
/// out on the wire.
pub open spec fn output_members(o: OutputObject) -> Seq<(Seq<char>, JsonV)> {
    match o.kind {
        OutputType::Image => seq![
            ("type"@, JsonV::Str("image"@)),
            ("imageURI"@, JsonV::Str((o.image_uri->Some_0)@)),
        ],
        OutputType::Text => seq![
            ("type"@, JsonV::Str("text"@)),
            ("text"@, JsonV::Str((o.text->Some_0)@)),
        ],
    }
}

/// The wire value of a response, members in the order `serialize_response`
/// writes them.
pub open spec fn response_jv(m: ResponseMessage) -> JsonV {
    let meta = JsonV::Obj(
        seq![
            ("processingTime"@, JsonV::Num(m.metadata.processing_time)),
            ("microservice"@, JsonV::Str(m.metadata.microservice@)),
        ],
    );
    match m.status {
        ResponseStatus::Success { output } => JsonV::Obj(
            seq![
                ("messageId"@, JsonV::Str(m.message_id@)),
                ("correlationId"@, JsonV::Str(m.correlation_id@)),
                ("timestamp"@, JsonV::Str(m.timestamp@)),
                ("status"@, JsonV::Str("success"@)),
                ("output"@, JsonV::Obj(output_members(output))),
                ("metadata"@, meta),
            ],
        ),
        ResponseStatus::Error { error } => JsonV::Obj(
            seq![
                ("messageId"@, JsonV::Str(m.message_id@)),
                ("correlationId"@, JsonV::Str(m.correlation_id@)),
                ("timestamp"@, JsonV::Str(m.timestamp@)),
                ("status"@, JsonV::Str("error"@)),
                (
                    "error"@,
                    JsonV::Obj(
                        seq![
                            ("code"@, JsonV::Str(error.code@)),
                            ("message"@, JsonV::Str(error.message@)),
                        ],
                    ),
                ),
                ("metadata"@, meta),
            ],
        ),
    }
}

/// One step of a member lookup past a key that does not match.
proof fn lemma_lookup_step(ps: Seq<(Seq<char>, JsonV)>, key: Seq<char>)
    requires
        ps.len() > 0,
        ps[0].0 != key,
    ensures
        crate::worker::obj_lookup(ps, key) == crate::worker::obj_lookup(
            ps.subrange(1, ps.len() as int),
            key,
        ),
{
}

/// A well-formed response, written as its wire value and read back, yields
/// the same message: the status discriminator, the matching payload, and
/// every field survive the round trip.
pub proof fn lemma_response_round_trip(m: ResponseMessage)
    requires
        m.wf(),
    ensures
        resp_from_jv(response_jv(m)) == Some(m@),
{
    reveal_strlit("messageId");
    reveal_strlit("correlationId");
    reveal_strlit("timestamp");
    reveal_strlit("status");
    reveal_strlit("output");
    reveal_strlit("error");
    reveal_strlit("metadata");
    reveal_strlit("processingTime");
    reveal_strlit("microservice");
    reveal_strlit("type");
    reveal_strlit("text");
    reveal_strlit("imageURI");
    reveal_strlit("code");
    reveal_strlit("message");
    reveal_strlit("success");
    reveal_strlit("image");
    let ms = response_jv(m)->Obj_0;
    assert(ms.len() == 6);
    assert("messageId"@.len() == 9 && "correlationId"@.len() == 13 && "timestamp"@.len() == 9
        && "status"@.len() == 6 && "output"@.len() == 6 && "error"@.len() == 5
        && "metadata"@.len() == 8 && "processingTime"@.len() == 14 && "microservice"@.len() == 12
        && "type"@.len() == 4 && "text"@.len() == 4 && "imageURI"@.len() == 8
        && "code"@.len() == 4 && "message"@.len() == 7 && "success"@.len() == 7
        && "image"@.len() == 5);
    assert("messageId"@[0] == 'm' && "timestamp"@[0] == 't');
    assert("status"@[0] == 's' && "output"@[0] == 'o');
    assert("error"@[0] == 'e' && "success"@[0] == 's');
    assert("type"@[1] == 'y' && "text"@[1] == 'e');
    assert(crate::worker::obj_lookup(ms, "messageId"@) == Some(JsonV::Str(m.message_id@)));
    lemma_lookup_chain(ms, "correlationId"@, 1);
    assert(crate::worker::obj_lookup(ms, "correlationId"@) == Some(
        JsonV::Str(m.correlation_id@),
    ));
    lemma_lookup_chain(ms, "timestamp"@, 2);
    assert(crate::worker::obj_lookup(ms, "timestamp"@) == Some(JsonV::Str(m.timestamp@)));
    lemma_lookup_chain(ms, "status"@, 3);
    lemma_lookup_chain(ms, "metadata"@, 5);
    let meta = seq![
        ("processingTime"@, JsonV::Num(m.metadata.processing_time)),
        ("microservice"@, JsonV::Str(m.metadata.microservice@)),
    ];
    assert(crate::worker::obj_lookup(ms, "metadata"@) == Some(JsonV::Obj(meta)));
    assert(crate::worker::obj_lookup(meta, "processingTime"@) == Some(
        JsonV::Num(m.metadata.processing_time),
    ));
    lemma_lookup_chain(meta, "microservice"@, 1);
    match m.status {
        ResponseStatus::Success { output } => {
            assert(crate::worker::obj_lookup(ms, "status"@) == Some(JsonV::Str("success"@)));
            lemma_lookup_chain(ms, "output"@, 4);
            let out = output_members(output);
            assert(crate::worker::obj_lookup(ms, "output"@) == Some(JsonV::Obj(out)));
            assert(crate::worker::obj_lookup(out, "type"@) is Some);
            match output.kind {
                OutputType::Image => {
                    lemma_lookup_chain(out, "imageURI"@, 1);
                    assert("text"@[1] == 'e' && "type"@[1] == 'y');
                    assert(out[0].0 != "text"@ && out[1].0 != "text"@);
                    lemma_lookup_none(out, "text"@);
                    assert(output_from_jv(out) == Some(output@));
                },
                OutputType::Text => {
                    lemma_lookup_chain(out, "text"@, 1);
                    assert(out[0].0 != "imageURI"@ && out[1].0 != "imageURI"@);
                    lemma_lookup_none(out, "imageURI"@);
                    assert(output_from_jv(out) == Some(output@));
                },
            }
            assert(status_from_jv(ms, "success"@) == Some(StatusV::Success(output@)));
        },
        ResponseStatus::Error { error } => {
            assert(crate::worker::obj_lookup(ms, "status"@) == Some(JsonV::Str("error"@)));
            assert("error"@ != "success"@);
            lemma_lookup_chain(ms, "error"@, 4);
            let err = seq![
                ("code"@, JsonV::Str(error.code@)),
                ("message"@, JsonV::Str(error.message@)),
            ];
            assert(crate::worker::obj_lookup(ms, "error"@) == Some(JsonV::Obj(err)));
            assert(crate::worker::obj_lookup(err, "code"@) == Some(JsonV::Str(error.code@)));
            lemma_lookup_chain(err, "message"@, 1);
            assert(status_from_jv(ms, "error"@) == Some(StatusV::Error(error@)));
        },
    }
}

/// A lookup whose key first matches at position `hit` finds that member.
proof fn lemma_lookup_chain(ps: Seq<(Seq<char>, JsonV)>, key: Seq<char>, hit: int)
    requires
        0 <= hit < ps.len(),
        ps[hit].0 == key,
        forall|j: int| 0 <= j < hit ==> (#[trigger] ps[j]).0 != key,
    ensures
        crate::worker::obj_lookup(ps, key) == Some(ps[hit].1),
    decreases hit,
{
    if hit == 0 {
    } else {
        lemma_lookup_step(ps, key);
        let rest = ps.subrange(1, ps.len() as int);
        assert(rest[hit - 1] == ps[hit]);
        assert(forall|j: int| 0 <= j < hit - 1 ==> (#[trigger] rest[j]).0 == ps[j + 1].0);
        lemma_lookup_chain(rest, key, hit - 1);
    }
}

/// A lookup whose key matches no member finds nothing.
proof fn lemma_lookup_none(ps: Seq<(Seq<char>, JsonV)>, key: Seq<char>)
    requires
        forall|j: int| 0 <= j < ps.len() ==> (#[trigger] ps[j]).0 != key,
    ensures
        crate::worker::obj_lookup(ps, key) is None,
    decreases ps.len(),
{
    if ps.len() > 0 {
        let rest = ps.subrange(1, ps.len() as int);
        assert(forall|j: int| 0 <= j < rest.len() ==> (#[trigger] rest[j]).0 == ps[j + 1].0);
        lemma_lookup_none(rest, key);
    }
}

/// Serializes a response to its wire text.
#[verifier::rlimit(60)]
pub fn serialize_response(m: &ResponseMessage) -> (r: String)
    requires
        m.wf(),
    ensures
        r@ == ser_response(*m),
{
    let mut out: Vec<char> = Vec::new();
    crate::json::append_lit(&mut out, "{\"messageId\":");
    crate::json::write_json_string(&mut out, &m.message_id);
    crate::json::append_lit(&mut out, ",\"correlationId\":");
    crate::json::write_json_string(&mut out, &m.correlation_id);
    crate::json::append_lit(&mut out, ",\"timestamp\":");
    crate::json::write_json_string(&mut out, &m.timestamp);
    crate::json::append_lit(&mut out, ",");
    match &m.status {
        ResponseStatus::Success { output } => {
            match output.kind {
                OutputType::Image => {
                    crate::json::append_lit(&mut out, "\"status\":\"success\",\"output\":");
                    crate::json::append_lit(&mut out, "{\"type\":\"image\",\"imageURI\":");
                    match &output.image_uri {
                        Some(uri) => crate::json::write_json_string(&mut out, uri),
                        None => vstd::pervasive::unreached(),
                    }
                    crate::json::append_lit(&mut out, "}");
                },
                OutputType::Text => {
                    crate::json::append_lit(&mut out, "\"status\":\"success\",\"output\":");
                    crate::json::append_lit(&mut out, "{\"type\":\"text\",\"text\":");
                    match &output.text {
                        Some(text) => crate::json::write_json_string(&mut out, text),
                        None => vstd::pervasive::unreached(),
                    }
                    crate::json::append_lit(&mut out, "}");
                },
            }
        },
        ResponseStatus::Error { error } => {
            crate::json::append_lit(&mut out, "\"status\":\"error\",\"error\":{\"code\":");
            crate::json::write_json_string(&mut out, &error.code);
            crate::json::append_lit(&mut out, ",\"message\":");
            crate::json::write_json_string(&mut out, &error.message);
            crate::json::append_lit(&mut out, "}");
        },
    }
    crate::json::append_lit(&mut out, ",\"metadata\":{\"processingTime\":");
    crate::json::write_num(&mut out, &m.metadata.processing_time);
    crate::json::append_lit(&mut out, ",\"microservice\":");
    crate::json::write_json_string(&mut out, &m.metadata.microservice);
    crate::json::append_lit(&mut out, "}}");
    proof {
        assert(out@ =~= ser_response(*m));
    }
    crate::text::chars_to_string(&out)
}

/// Serializes a request to its wire text.
#[verifier::rlimit(60)]
pub fn serialize_request(m: &RequestMessage) -> (r: String)
    ensures
        r@ == ser_request(*m),
{
    let mut out: Vec<char> = Vec::new();
    crate::json::append_lit(&mut out, "{\"messageId\":");
    let id_text = crate::ids::id_to_string(m.message_id);
    crate::json::write_json_string(&mut out, &id_text);
    crate::json::append_lit(&mut out, ",\"timestamp\":");
    crate::json::write_json_string(&mut out, &m.timestamp);
    crate::json::append_lit(&mut out, ",\"procedure\":");
    crate::json::write_json_string(&mut out, &m.procedure);
    crate::json::append_lit(&mut out, ",\"parameters\":");
    crate::json::write_obj(&mut out, &m.parameters);
    crate::json::append_lit(&mut out, "}");
    proof {
        assert(out@ =~= ser_request(*m));
    }
    crate::text::chars_to_string(&out)
}

} // verus!
