use authz_worker::http::{debug_read_reply, debug_tuple, route, DebugRequest, DebugStep, Reply, Route};
use authz_worker::tuple::{Tuple, TupleBody, TupleKey};

fn text(status: u16, m: &str) -> Reply {
    Reply::Text { status, message: m.to_string() }
}

#[test]
fn routes() {
    assert_eq!(route("/health"), Route::Respond(Reply::Health));
    assert_eq!(route("/debug/tuple"), Route::DebugTuple);
    assert_eq!(route("/check"), Route::Check);
    assert_eq!(route("/check/"), Route::Respond(text(404, "Not Found")));
    assert_eq!(route("/health/"), Route::Respond(text(404, "Not Found")));
    assert_eq!(route(""), Route::Respond(text(404, "Not Found")));
}

#[test]
fn statuses() {
    assert_eq!(Reply::Health.status(), 200);
    assert_eq!(Reply::Deleted.status(), 200);
    assert_eq!(text(405, "x").status(), 405);
    assert_eq!(Reply::JsonError { status: 500, message: "e".into() }.status(), 500);
}

#[test]
fn post_writes_and_echoes_the_body() {
    let b = TupleBody {
        object_type: "doc".into(),
        object_id: "1".into(),
        relation: "viewer".into(),
        subject_type: "user".into(),
        subject_id: "gus".into(),
        condition: Some("c".into()),
    };
    let t = Tuple {
        object_type: "doc".into(),
        object_id: "1".into(),
        relation: "viewer".into(),
        subject_type: "user".into(),
        subject_id: "gus".into(),
        condition: Some("c".into()),
    };
    assert_eq!(
        debug_tuple(DebugRequest::Post(b)),
        DebugStep::Write {
            writes: vec![t.duplicate()],
            deletes: vec![],
            on_success: Reply::TupleJson(t)
        }
    );
}

#[test]
fn get_reads_the_named_key() {
    let step = debug_tuple(DebugRequest::Get(
        "object_type=doc&object_id=1&relation=viewer&subject_type=user&subject_id=gus".into(),
    ));
    assert_eq!(
        step,
        DebugStep::Read(TupleKey {
            object_type: "doc".into(),
            object_id: "1".into(),
            relation: "viewer".into(),
            subject_type: "user".into(),
            subject_id: "gus".into(),
        })
    );
}

#[test]
fn delete_removes_the_named_tuple() {
    let step = debug_tuple(DebugRequest::Delete("object_type=doc&subject_id=gus".into()));
    let t = Tuple {
        object_type: "doc".into(),
        object_id: "".into(),
        relation: "".into(),
        subject_type: "".into(),
        subject_id: "gus".into(),
        condition: None,
    };
    assert_eq!(
        step,
        DebugStep::Write { writes: vec![], deletes: vec![t], on_success: Reply::Deleted }
    );
}

#[test]
fn other_methods_are_refused() {
    assert_eq!(
        debug_tuple(DebugRequest::Other),
        DebugStep::Respond(text(405, "Method Not Allowed"))
    );
}

#[test]
fn read_reply() {
    assert_eq!(debug_read_reply(None), text(404, "Not Found"));
    let t = Tuple {
        object_type: "a".into(),
        object_id: "b".into(),
        relation: "c".into(),
        subject_type: "d".into(),
        subject_id: "e".into(),
        condition: None,
    };
    assert_eq!(debug_read_reply(Some(t.duplicate())), Reply::TupleJson(t));
}
