//! The worker's HTTP surface: which route a path takes, what each request to
//! the tuple debugging route asks of the store, and the reply it gets.

use vstd::prelude::*;
use crate::check::CheckResult;
use crate::query::{filter_from_query, form_pairs, or_empty, query_filter};
use crate::tuple::{body_view, Tuple, TupleBody, TupleKey, TupleKeyView, TupleView};

verus! {

pub const HEALTH_PATH: &'static str = "/health";

pub const DEBUG_TUPLE_PATH: &'static str = "/debug/tuple";

pub const CHECK_PATH: &'static str = "/check";

pub const NOT_FOUND: &'static str = "Not Found";

pub const METHOD_NOT_ALLOWED: &'static str = "Method Not Allowed";

/// The request methods the worker tells apart.
#[derive(Debug, PartialEq)]
pub enum Method {
    Get,
    Post,
    Delete,
    Other,
}

/// A reply, before it is encoded.
#[derive(Debug, PartialEq)]
pub enum Reply {
    /// `200`, `{"ok": true}`.
    Health,
    /// `200`, the six fields of the tuple as a JSON object.
    TupleJson(Tuple),
    /// `200`, `{"deleted": true}`.
    Deleted,
    /// `200`, the outcome of a check as `{"result": ...}`.
    Decision(CheckResult),
    /// `{"error": message}` with the status.
    JsonError { status: u16, message: String },
    /// A plain-text error reply with the status.
    Text { status: u16, message: String },
}

/// The HTTP status of a reply.
pub open spec fn reply_status(r: Reply) -> u16 {
    match r {
        Reply::JsonError { status, .. } => status,
        Reply::Text { status, .. } => status,
        _ => 200,
    }
}

impl Reply {
    /// The HTTP status of the reply.
    pub fn status(&self) -> (s: u16)
        ensures
            s == reply_status(*self),
    {
        match self {
            Reply::JsonError { status, .. } => *status,
            Reply::Text { status, .. } => *status,
            _ => 200,
        }
    }

    /// A plain-text error reply.
    pub fn text(status: u16, message: &str) -> (r: Reply)
        ensures
            r is Text,
            r->Text_status == status,
            r->Text_message@ == message@,
    {
        Reply::Text { status, message: String::from_str(message) }
    }
}

/// Where a path leads: straight to a reply, to the tuple debugging route, or
/// to the check endpoint.
#[derive(Debug, PartialEq)]
pub enum Route {
    Respond(Reply),
    DebugTuple,
    Check,
}

/// Routes a request path: the health probe, the tuple debugging route, the
/// check endpoint, or `404 Not Found` for any other path.
pub fn route(path: &str) -> (r: Route)
    ensures
        path@ == HEALTH_PATH@ ==> r == Route::Respond(Reply::Health),
        path@ == DEBUG_TUPLE_PATH@ ==> r is DebugTuple,
        path@ == CHECK_PATH@ ==> r is Check,
        path@ != HEALTH_PATH@ && path@ != DEBUG_TUPLE_PATH@ && path@ != CHECK_PATH@ ==> {
            &&& r is Respond
            &&& r->Respond_0 is Text
            &&& r->Respond_0->Text_status == 404
            &&& r->Respond_0->Text_message@ == NOT_FOUND@
        },
{
    proof {
        reveal_strlit("/health");
        reveal_strlit("/debug/tuple");
        reveal_strlit("/check");
        assert(HEALTH_PATH@.len() == 7);
        assert(DEBUG_TUPLE_PATH@.len() == 12);
        assert(CHECK_PATH@.len() == 6);
    }
    let p = String::from_str(path);
    if p == String::from_str(HEALTH_PATH) {
        Route::Respond(Reply::Health)
    } else if p == String::from_str(DEBUG_TUPLE_PATH) {
        Route::DebugTuple
    } else if p == String::from_str(CHECK_PATH) {
        Route::Check
    } else {
        Route::Respond(Reply::text(404, NOT_FOUND))
    }
}

/// A request to the tuple debugging route, by method: a body for `POST`, the
/// query string (empty when the URL has none) for `GET` and `DELETE`.
#[derive(Debug, PartialEq)]
pub enum DebugRequest {
    Post(TupleBody),
    Get(String),
    Delete(String),
    Other,
}

/// What the tuple debugging route asks for next.
#[derive(Debug, PartialEq)]
pub enum DebugStep {
    /// Run a batch write, then reply with `on_success`.
    Write { writes: Vec<Tuple>, deletes: Vec<Tuple>, on_success: Reply },
    /// Look up the tuple with this key, and reply as `debug_read_reply` says.
    Read(TupleKey),
    /// Reply at once.
    Respond(Reply),
}

/// The key that a query string names (an absent column is the empty string).
pub open spec fn query_key(query: Seq<char>) -> TupleKeyView {
    let f = query_filter(form_pairs(query));
    (
        or_empty(f.object_type),
        or_empty(f.object_id),
        or_empty(f.relation),
        or_empty(f.subject_type),
        or_empty(f.subject_id),
    )
}

/// The tuple without condition that has the given key.
pub open spec fn unconditioned(k: TupleKeyView) -> TupleView {
    TupleView {
        object_type: k.0,
        object_id: k.1,
        relation: k.2,
        subject_type: k.3,
        subject_id: k.4,
        condition: None,
    }
}

fn key_of(k: &[String; 5]) -> (key: TupleKey)
    ensures
        key@ == (k@[0]@, k@[1]@, k@[2]@, k@[3]@, k@[4]@),
{
    TupleKey {
        object_type: k[0].clone(),
        object_id: k[1].clone(),
        relation: k[2].clone(),
        subject_type: k[3].clone(),
        subject_id: k[4].clone(),
    }
}

/// Decides a request to the tuple debugging route: `POST` writes the tuple of
/// its body and echoes it; `GET` looks up the tuple that the query names;
/// `DELETE` removes the tuple that the query names and answers that it did;
/// any other method gets `405 Method Not Allowed`.
pub fn debug_tuple(req: DebugRequest) -> (step: DebugStep)
    ensures
        req matches DebugRequest::Post(body) ==> {
            &&& step matches DebugStep::Write { writes, deletes, on_success }
            &&& writes@.len() == 1
            &&& writes@[0]@ == body_view(body)
            &&& deletes@.len() == 0
            &&& on_success matches Reply::TupleJson(t) && t@ == body_view(body)
        },
        req matches DebugRequest::Get(query) ==> {
            &&& step is Read
            &&& step->Read_0@ == query_key(query@)
        },
        req matches DebugRequest::Delete(query) ==> {
            &&& step matches DebugStep::Write { writes, deletes, on_success }
            &&& writes@.len() == 0
            &&& deletes@.len() == 1
            &&& deletes@[0]@ == unconditioned(query_key(query@))
            &&& on_success is Deleted
        },
        req is Other ==> {
            &&& step is Respond
            &&& step->Respond_0 is Text
            &&& step->Respond_0->Text_status == 405
            &&& step->Respond_0->Text_message@ == METHOD_NOT_ALLOWED@
        },
{
    match req {
        DebugRequest::Post(body) => {
            let t: Tuple = Tuple::from(body);
            let echo = t.duplicate();
            let writes = vec![t];
            DebugStep::Write { writes, deletes: Vec::new(), on_success: Reply::TupleJson(echo) }
        },
        DebugRequest::Get(query) => {
            let (_, k) = filter_from_query(query.as_str());
            DebugStep::Read(key_of(&k))
        },
        DebugRequest::Delete(query) => {
            let (_, k) = filter_from_query(query.as_str());
            let key = key_of(&k);
            let t = Tuple {
                object_type: key.object_type,
                object_id: key.object_id,
                relation: key.relation,
                subject_type: key.subject_type,
                subject_id: key.subject_id,
                condition: None,
            };
            DebugStep::Write { writes: Vec::new(), deletes: vec![t], on_success: Reply::Deleted }
        },
        DebugRequest::Other => DebugStep::Respond(Reply::text(405, METHOD_NOT_ALLOWED)),
    }
}

/// The reply to a lookup on the tuple debugging route: the tuple found, or
/// `404 Not Found`.
pub fn debug_read_reply(found: Option<Tuple>) -> (r: Reply)
    ensures
        found matches Some(t) ==> r == Reply::TupleJson(t),
        found is None ==> {
            &&& r is Text
            &&& r->Text_status == 404
            &&& r->Text_message@ == NOT_FOUND@
        },
{
    match found {
        Some(t) => Reply::TupleJson(t),
        None => Reply::text(404, NOT_FOUND),
    }
}

} // verus!
