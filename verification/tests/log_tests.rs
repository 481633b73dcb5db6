use authz_worker::log::event;
use serde_json::Value;

type JsonObject = serde_json::Map<String, Value>;

fn text(x: &str) -> Value {
    Value::String(x.to_string())
}

fn object(entries: &[(&str, Value)]) -> JsonObject {
    let mut m = JsonObject::new();
    for (k, v) in entries {
        m.insert(k.to_string(), v.clone());
    }
    m
}

#[test]
fn kind_goes_under_event_beside_the_fields() {
    let r = event(
        "check",
        Some(object(&[("tuple", text("t")), ("outcome", Value::Bool(true))])),
    );
    assert_eq!(
        r,
        object(&[
            ("event", text("check")),
            ("tuple", text("t")),
            ("outcome", Value::Bool(true)),
        ])
    );
    assert_eq!(r.len(), 3);
}

#[test]
fn fields_that_are_not_an_object_add_nothing() {
    assert_eq!(event("boot", None), object(&[("event", text("boot"))]));
    assert_eq!(event("boot", Some(JsonObject::new())), object(&[("event", text("boot"))]));
}

#[test]
fn a_field_named_event_replaces_the_kind() {
    let r = event("check", Some(object(&[("event", text("other")), ("n", Value::Null)])));
    assert_eq!(r, object(&[("event", text("other")), ("n", Value::Null)]));
    assert_eq!(r.get("event"), Some(&text("other")));
}

#[test]
fn nested_values_pass_through() {
    let inner = Value::Array(vec![text("a"), Value::Bool(false)]);
    let r = event("k", Some(object(&[("list", inner.clone())])));
    assert_eq!(r.get("list"), Some(&inner));
}
