//! The `/check` endpoint: what it answers before, between and after the
//! engine's two steps (parsing the model, resolving the check).

use vstd::prelude::*;
use std::collections::HashMap;
use crate::http::{Method, Reply, METHOD_NOT_ALLOWED};
use crate::json::{json_entries, json_object_insert, json_object_new, json_string, json_text, JsonObject};
use crate::tuple::{body_view, Tuple, TupleBody};

verus! {

/// The outcome of a check.
#[derive(Debug, PartialEq)]
pub enum CheckResult {
    Allowed,
    Denied,
    /// The check depends on conditions whose parameters were not all given.
    ConditionRequired(Vec<String>),
}

/// The body of a check request: the model in the DSL, the relationship asked
/// about, the condition context, and tuples that hold for this check only.
#[derive(Debug, PartialEq)]
pub struct CheckBody {
    pub model: String,
    pub object_type: String,
    pub object_id: String,
    pub relation: String,
    pub subject_type: String,
    pub subject_id: String,
    pub context: HashMap<String, serde_json::Value>,
    pub contextual_tuples: Vec<TupleBody>,
}

/// The request handed to the engine.
#[derive(Debug, PartialEq)]
pub struct CheckRequest {
    pub object_type: String,
    pub object_id: String,
    pub relation: String,
    pub subject_type: String,
    pub subject_id: String,
    pub context: HashMap<String, serde_json::Value>,
    pub contextual_tuples: Vec<Tuple>,
}


pub const INVALID_BODY: &'static str = "invalid JSON body: ";

pub const MODEL_PARSE_ERROR: &'static str = "model parse error: ";

pub const CHECK_EVENT: &'static str = "check";

pub const CHECK_ERROR_EVENT: &'static str = "check_error";

pub const TUPLE_FIELD: &'static str = "tuple";

pub const OUTCOME_FIELD: &'static str = "outcome";

pub const ERROR_FIELD: &'static str = "error";

pub const ALLOWED: &'static str = "Allowed";

pub const DENIED: &'static str = "Denied";

pub const CONDITION_REQUIRED: &'static str = "ConditionRequired";

/// `400 Bad Request` with `{"error": reason}`.
pub fn bad_request(reason: &str) -> (r: Reply)
    ensures
        r is JsonError,
        r->JsonError_status == 400,
        r->JsonError_message@ == reason@,
{
    Reply::JsonError { status: 400, message: String::from_str(reason) }
}

/// Only `POST` reaches the check; any other method gets `405 Method Not Allowed`.
pub fn check_method(method: &Method) -> (r: Option<Reply>)
    ensures
        r is None <==> method is Post,
        r matches Some(reply) ==> {
            &&& reply is Text
            &&& reply->Text_status == 405
            &&& reply->Text_message@ == METHOD_NOT_ALLOWED@
        },
{
    match method {
        Method::Post => None,
        _ => Some(Reply::text(405, METHOD_NOT_ALLOWED)),
    }
}

fn prefixed(prefix: &str, err: &str) -> (s: String)
    ensures
        s@ == prefix@ + err@,
{
    let mut s = String::from_str(prefix);
    s.append(err);
    s
}

/// The reply to a body that is not a valid check request: `400` with
/// `invalid JSON body: ` and the parser's message.
pub fn invalid_body(err: &str) -> (r: Reply)
    ensures
        r is JsonError,
        r->JsonError_status == 400,
        r->JsonError_message@ == INVALID_BODY@ + err@,
{
    let msg = prefixed(INVALID_BODY, err);
    bad_request(msg.as_str())
}

/// The reply to a model that does not parse: `400` with `model parse error: `
/// and the parser's message.
pub fn model_parse_error(err: &str) -> (r: Reply)
    ensures
        r is JsonError,
        r->JsonError_status == 400,
        r->JsonError_message@ == MODEL_PARSE_ERROR@ + err@,
{
    let msg = prefixed(MODEL_PARSE_ERROR, err);
    bad_request(msg.as_str())
}

/// The request for the engine: the relationship and context of the body, with
/// its contextual tuples as tuples in the same order.
pub fn check_request(body: CheckBody) -> (req: CheckRequest)
    ensures
        req.object_type == body.object_type,
        req.object_id == body.object_id,
        req.relation == body.relation,
        req.subject_type == body.subject_type,
        req.subject_id == body.subject_id,
        req.context == body.context,
        req.contextual_tuples@.len() == body.contextual_tuples@.len(),
        forall|i: int|
            0 <= i < body.contextual_tuples@.len() ==> #[trigger] req.contextual_tuples@[i]@
                == body_view(body.contextual_tuples@[i]),
{
    let contextual_tuples = crate::tuple::tuples_from_bodies(body.contextual_tuples);
    CheckRequest {
        object_type: body.object_type,
        object_id: body.object_id,
        relation: body.relation,
        subject_type: body.subject_type,
        subject_id: body.subject_id,
        context: body.context,
        contextual_tuples,
    }
}

/// `object_type:object_id#relation@subject_type:subject_id`.
pub open spec fn subject_text(
    object_type: Seq<char>,
    object_id: Seq<char>,
    relation: Seq<char>,
    subject_type: Seq<char>,
    subject_id: Seq<char>,
) -> Seq<char> {
    object_type + ":"@ + object_id + "#"@ + relation + "@"@ + subject_type + ":"@ + subject_id
}

/// The relationship of a request as one line of text, for the log.
pub fn log_subject(req: &CheckRequest) -> (s: String)
    ensures
        s@ == subject_text(
            req.object_type@,
            req.object_id@,
            req.relation@,
            req.subject_type@,
            req.subject_id@,
        ),
{
    let mut s = req.object_type.clone();
    s.append(":");
    s.append(req.object_id.as_str());
    s.append("#");
    s.append(req.relation.as_str());
    s.append("@");
    s.append(req.subject_type.as_str());
    s.append(":");
    s.append(req.subject_id.as_str());
    s
}

/// The name of an outcome in the log.
pub open spec fn outcome_text(r: CheckResult) -> Seq<char> {
    match r {
        CheckResult::Allowed => ALLOWED@,
        CheckResult::Denied => DENIED@,
        CheckResult::ConditionRequired(_) => CONDITION_REQUIRED@,
    }
}

/// The name of an outcome in the log.
pub fn outcome(r: &CheckResult) -> (s: &'static str)
    ensures
        s@ == outcome_text(*r),
{
    match r {
        CheckResult::Allowed => ALLOWED,
        CheckResult::Denied => DENIED,
        CheckResult::ConditionRequired(_) => CONDITION_REQUIRED,
    }
}

/// What a resolved check leaves: the log record to emit and the reply.
#[derive(Debug, PartialEq)]
pub struct CheckOutcome {
    pub log_kind: String,
    pub log_fields: JsonObject,
    pub reply: Reply,
}

/// A JSON object of two text entries.
fn two_texts(k1: &str, v1: String, k2: &str, v2: String) -> (m: JsonObject)
    ensures
        json_entries(m) == map![k1@ => json_text(v1@)].insert(k2@, json_text(v2@)),
{
    let mut m = json_object_new();
    let _ = json_object_insert(&mut m, String::from_str(k1), json_string(v1));
    let _ = json_object_insert(&mut m, String::from_str(k2), json_string(v2));
    assert(json_entries(m) =~= map![k1@ => json_text(v1@)].insert(k2@, json_text(v2@)));
    m
}

/// Ends a check with the engine's answer: an outcome is logged as `check` with
/// the subject and the outcome's name and answered with `200`; an engine error
/// is logged as `check_error` with the subject and the message and answered
/// with `500` and `{"error": message}`.
pub fn check_outcome(subject: String, result: Result<CheckResult, String>) -> (o: CheckOutcome)
    ensures
        result matches Ok(r) ==> {
            &&& o.log_kind@ == CHECK_EVENT@
            &&& json_entries(o.log_fields) == map![
                TUPLE_FIELD@ => json_text(subject@),
                OUTCOME_FIELD@ => json_text(outcome_text(r)),
            ]
            &&& o.reply == Reply::Decision(r)
        },
        result matches Err(e) ==> {
            &&& o.log_kind@ == CHECK_ERROR_EVENT@
            &&& json_entries(o.log_fields) == map![
                TUPLE_FIELD@ => json_text(subject@),
                ERROR_FIELD@ => json_text(e@),
            ]
            &&& o.reply is JsonError
            &&& o.reply->JsonError_status == 500
            &&& o.reply->JsonError_message@ == e@
        },
{
    match result {
        Ok(r) => {
            let name = String::from_str(outcome(&r));
            let fields = two_texts(TUPLE_FIELD, subject, OUTCOME_FIELD, name);
            let o = CheckOutcome {
                log_kind: String::from_str(CHECK_EVENT),
                log_fields: fields,
                reply: Reply::Decision(r),
            };
            assert(json_entries(o.log_fields) =~= map![
                TUPLE_FIELD@ => json_text(subject@),
                OUTCOME_FIELD@ => json_text(outcome_text(r)),
            ]);
            o
        },
        Err(e) => {
            let message = e.clone();
            let fields = two_texts(TUPLE_FIELD, subject, ERROR_FIELD, e);
            let o = CheckOutcome {
                log_kind: String::from_str(CHECK_ERROR_EVENT),
                log_fields: fields,
                reply: Reply::JsonError { status: 500, message },
            };
            assert(json_entries(o.log_fields) =~= map![
                TUPLE_FIELD@ => json_text(subject@),
                ERROR_FIELD@ => json_text(e@),
            ]);
            o
        },
    }
}


// The order of a check's steps: the method is tested first, then the body is
// read, then the model is parsed, then the check is resolved; each step can
// only follow the one before it, and a failing step answers at once.

/// A check whose method is `POST`, before its body is read.
#[derive(Debug, PartialEq)]
pub struct AwaitBody;

/// The first step of a check.
#[derive(Debug, PartialEq)]
pub enum CheckStart {
    /// Answer at once.
    Respond(Reply),
    /// Read the body, then continue with `AwaitBody::body_read`.
    ReadBody(AwaitBody),
}

/// Starts a check: only `POST` goes on, to read its body; any other method is
/// answered `405 Method Not Allowed` before the body is touched.
pub fn check_start(method: &Method) -> (s: CheckStart)
    ensures
        s is ReadBody <==> method is Post,
        s matches CheckStart::Respond(r) ==> {
            &&& r is Text
            &&& r->Text_status == 405
            &&& r->Text_message@ == METHOD_NOT_ALLOWED@
        },
{
    match check_method(method) {
        Some(r) => CheckStart::Respond(r),
        None => CheckStart::ReadBody(AwaitBody),
    }
}

/// A check whose body has been read, before its model is parsed.
#[derive(Debug, PartialEq)]
pub struct AwaitModel {
    pub body: CheckBody,
}

/// The step after the body has been read.
#[derive(Debug, PartialEq)]
pub enum BodyStep {
    /// Answer at once.
    Respond(Reply),
    /// Parse the model, then continue with `AwaitModel::model_parsed`.
    ParseModel(AwaitModel),
}

impl AwaitBody {
    /// Goes on with the body as it was read: a body that is not a valid check
    /// request is answered `400` with `invalid JSON body: ` and the reader's
    /// message; a valid one goes on to the parsing of its model.
    pub fn body_read(self, body: Result<CheckBody, String>) -> (s: BodyStep)
        ensures
            body matches Err(e) ==> {
                &&& s matches BodyStep::Respond(r)
                &&& r is JsonError
                &&& r->JsonError_status == 400
                &&& r->JsonError_message@ == INVALID_BODY@ + e@
            },
            body matches Ok(b) ==> s == BodyStep::ParseModel(AwaitModel { body: b }),
    {
        match body {
            Err(e) => BodyStep::Respond(invalid_body(e.as_str())),
            Ok(b) => BodyStep::ParseModel(AwaitModel { body: b }),
        }
    }
}

/// A check whose model has been parsed, before it is resolved.
#[derive(Debug, PartialEq)]
pub struct AwaitResolution {
    /// The relationship asked about, as the log shows it.
    pub subject: String,
}

/// The step after the model has been parsed.
#[derive(Debug, PartialEq)]
pub enum ModelStep {
    /// Answer at once.
    Respond(Reply),
    /// Resolve this request, then finish with `AwaitResolution::resolved`.
    Resolve(AwaitResolution, CheckRequest),
}

impl AwaitModel {
    /// The model source, for the engine's parser.
    pub fn model(&self) -> (m: &str)
        ensures
            m@ == self.body.model@,
    {
        self.body.model.as_str()
    }

    /// Goes on with the outcome of parsing the model: a model that does not
    /// parse is answered `400` with `model parse error: ` and the parser's
    /// message; otherwise the request for the engine is built from the body.
    pub fn model_parsed(self, parsed: Result<(), String>) -> (s: ModelStep)
        ensures
            parsed matches Err(e) ==> {
                &&& s matches ModelStep::Respond(r)
                &&& r is JsonError
                &&& r->JsonError_status == 400
                &&& r->JsonError_message@ == MODEL_PARSE_ERROR@ + e@
            },
            parsed is Ok ==> {
                &&& s matches ModelStep::Resolve(next, req)
                &&& req.object_type == self.body.object_type
                &&& req.object_id == self.body.object_id
                &&& req.relation == self.body.relation
                &&& req.subject_type == self.body.subject_type
                &&& req.subject_id == self.body.subject_id
                &&& req.context == self.body.context
                &&& req.contextual_tuples@.len() == self.body.contextual_tuples@.len()
                &&& forall|i: int|
                    0 <= i < self.body.contextual_tuples@.len() ==> #[trigger] req.contextual_tuples@[i]@
                        == body_view(self.body.contextual_tuples@[i])
                &&& next.subject@ == subject_text(
                    self.body.object_type@,
                    self.body.object_id@,
                    self.body.relation@,
                    self.body.subject_type@,
                    self.body.subject_id@,
                )
            },
    {
        match parsed {
            Err(e) => ModelStep::Respond(model_parse_error(e.as_str())),
            Ok(()) => {
                let req = check_request(self.body);
                let subject = log_subject(&req);
                ModelStep::Resolve(AwaitResolution { subject }, req)
            },
        }
    }
}

impl AwaitResolution {
    /// Finishes the check with the engine's answer, as `check_outcome` does for
    /// the subject: the log record to emit, then the reply.
    pub fn resolved(self, result: Result<CheckResult, String>) -> (o: CheckOutcome)
        ensures
            result matches Ok(r) ==> {
                &&& o.log_kind@ == CHECK_EVENT@
                &&& json_entries(o.log_fields) == map![
                    TUPLE_FIELD@ => json_text(self.subject@),
                    OUTCOME_FIELD@ => json_text(outcome_text(r)),
                ]
                &&& o.reply == Reply::Decision(r)
            },
            result matches Err(e) ==> {
                &&& o.log_kind@ == CHECK_ERROR_EVENT@
                &&& json_entries(o.log_fields) == map![
                    TUPLE_FIELD@ => json_text(self.subject@),
                    ERROR_FIELD@ => json_text(e@),
                ]
                &&& o.reply is JsonError
                &&& o.reply->JsonError_status == 500
                &&& o.reply->JsonError_message@ == e@
            },
    {
        check_outcome(self.subject, result)
    }
}

} // verus!
