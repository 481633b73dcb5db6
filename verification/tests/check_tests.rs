use std::collections::HashMap;

use authz_worker::check::{
    bad_request, check_method, check_outcome, check_request, check_start, invalid_body,
    log_subject, model_parse_error, outcome, AwaitBody, AwaitResolution, BodyStep, CheckBody,
    CheckResult, CheckStart, ModelStep,
};
use authz_worker::http::{Method, Reply};
use authz_worker::tuple::TupleBody;

fn fields(entries: &[(&str, &str)]) -> serde_json::Map<String, serde_json::Value> {
    let mut m = serde_json::Map::new();
    for (k, v) in entries {
        m.insert(k.to_string(), serde_json::Value::String(v.to_string()));
    }
    m
}

fn err(status: u16, m: &str) -> Reply {
    Reply::JsonError { status, message: m.to_string() }
}

fn body() -> CheckBody {
    let mut context = HashMap::new();
    context.insert("ip".to_string(), serde_json::Value::String("10.0.0.1".into()));
    CheckBody {
        model: "model\n  schema 1.1".into(),
        object_type: "doc".into(),
        object_id: "1".into(),
        relation: "viewer".into(),
        subject_type: "user".into(),
        subject_id: "hal".into(),
        context,
        contextual_tuples: vec![TupleBody {
            object_type: "doc".into(),
            object_id: "1".into(),
            relation: "viewer".into(),
            subject_type: "user".into(),
            subject_id: "ida".into(),
            condition: None,
        }],
    }
}

#[test]
fn bad_request_is_400() {
    assert_eq!(bad_request("nope"), err(400, "nope"));
}

#[test]
fn only_post_is_checked() {
    assert_eq!(check_method(&Method::Post), None);
    for m in [Method::Get, Method::Delete, Method::Other] {
        assert_eq!(
            check_method(&m),
            Some(Reply::Text { status: 405, message: "Method Not Allowed".into() })
        );
    }
}

#[test]
fn parse_errors_are_400_with_prefix() {
    assert_eq!(invalid_body("EOF at line 1"), err(400, "invalid JSON body: EOF at line 1"));
    assert_eq!(model_parse_error("bad token"), err(400, "model parse error: bad token"));
}

#[test]
fn request_carries_body_fields() {
    let req = check_request(body());
    assert_eq!(req.object_type, "doc");
    assert_eq!(req.subject_id, "hal");
    assert_eq!(req.context.get("ip"), Some(&serde_json::Value::String("10.0.0.1".into())));
    assert_eq!(req.contextual_tuples.len(), 1);
    assert_eq!(req.contextual_tuples[0].subject_id, "ida");
    assert_eq!(log_subject(&req), "doc:1#viewer@user:hal");
}

#[test]
fn outcome_names() {
    assert_eq!(outcome(&CheckResult::Allowed), "Allowed");
    assert_eq!(outcome(&CheckResult::Denied), "Denied");
    assert_eq!(outcome(&CheckResult::ConditionRequired(vec!["ip".into()])), "ConditionRequired");
}

#[test]
fn resolved_check_is_logged_and_answered() {
    let o = check_outcome("doc:1#viewer@user:hal".into(), Ok(CheckResult::Denied));
    assert_eq!(o.log_kind, "check");
    assert_eq!(
        o.log_fields,
        fields(&[("tuple", "doc:1#viewer@user:hal"), ("outcome", "Denied")])
    );
    assert_eq!(o.reply, Reply::Decision(CheckResult::Denied));
    assert_eq!(o.reply.status(), 200);
}

#[test]
fn engine_error_is_logged_and_500() {
    let o = check_outcome("s".into(), Err("datastore error: down".into()));
    assert_eq!(o.log_kind, "check_error");
    assert_eq!(o.log_fields, fields(&[("tuple", "s"), ("error", "datastore error: down")]));
    assert_eq!(o.reply, err(500, "datastore error: down"));
}

#[test]
fn steps_run_in_order() {
    assert_eq!(
        check_start(&Method::Get),
        CheckStart::Respond(Reply::Text { status: 405, message: "Method Not Allowed".into() })
    );
    let waiting = match check_start(&Method::Post) {
        CheckStart::ReadBody(w) => w,
        other => panic!("unexpected {:?}", other),
    };
    let model = match waiting.body_read(Ok(body())) {
        BodyStep::ParseModel(m) => m,
        other => panic!("unexpected {:?}", other),
    };
    assert_eq!(model.model(), "model\n  schema 1.1");
    let (next, req) = match model.model_parsed(Ok(())) {
        ModelStep::Resolve(next, req) => (next, req),
        other => panic!("unexpected {:?}", other),
    };
    assert_eq!(next, AwaitResolution { subject: "doc:1#viewer@user:hal".into() });
    assert_eq!(req.contextual_tuples.len(), 1);
    let o = next.resolved(Ok(CheckResult::Allowed));
    assert_eq!(o.log_kind, "check");
    assert_eq!(o.log_fields, fields(&[("tuple", "doc:1#viewer@user:hal"), ("outcome", "Allowed")]));
    assert_eq!(o.reply, Reply::Decision(CheckResult::Allowed));
}

#[test]
fn failing_steps_answer_at_once() {
    assert_eq!(
        AwaitBody.body_read(Err("expected value".into())),
        BodyStep::Respond(err(400, "invalid JSON body: expected value"))
    );
    let model = match AwaitBody.body_read(Ok(body())) {
        BodyStep::ParseModel(m) => m,
        other => panic!("unexpected {:?}", other),
    };
    assert_eq!(
        model.model_parsed(Err("line 1: unknown type".into())),
        ModelStep::Respond(err(400, "model parse error: line 1: unknown type"))
    );
}
