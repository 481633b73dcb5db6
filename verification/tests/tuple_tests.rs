use authz_worker::tuple::{tuples_from_rows, Tuple, TupleBody, TupleKey, TupleRow};

fn s(x: &str) -> String {
    x.to_string()
}

fn body(cond: Option<&str>) -> TupleBody {
    TupleBody {
        object_type: s("doc"),
        object_id: s("readme"),
        relation: s("viewer"),
        subject_type: s("user"),
        subject_id: s("anne"),
        condition: cond.map(s),
    }
}

#[test]
fn tuple_from_body_keeps_every_field() {
    let t: Tuple = Tuple::from(body(Some("in_office")));
    assert_eq!(t.object_type, "doc");
    assert_eq!(t.object_id, "readme");
    assert_eq!(t.relation, "viewer");
    assert_eq!(t.subject_type, "user");
    assert_eq!(t.subject_id, "anne");
    assert_eq!(t.condition, Some(s("in_office")));
}

#[test]
fn tuple_from_row_keeps_absent_condition() {
    let r = TupleRow {
        object_type: s("folder"),
        object_id: s("x"),
        relation: s("owner"),
        subject_type: s("group"),
        subject_id: s("eng#member"),
        condition: None,
    };
    let t: Tuple = r.into();
    assert_eq!(t.object_type, "folder");
    assert_eq!(t.subject_id, "eng#member");
    assert_eq!(t.condition, None);
}

#[test]
fn rows_become_tuples_in_order() {
    let rows: Vec<TupleRow> = ["a", "b", "c"]
        .iter()
        .map(|id| TupleRow {
            object_type: s("doc"),
            object_id: s(id),
            relation: s("viewer"),
            subject_type: s("user"),
            subject_id: s("bob"),
            condition: None,
        })
        .collect();
    let ts = tuples_from_rows(rows);
    let ids: Vec<&str> = ts.iter().map(|t| t.object_id.as_str()).collect();
    assert_eq!(ids, vec!["a", "b", "c"]);
}

#[test]
fn no_rows_no_tuples() {
    assert!(tuples_from_rows(Vec::new()).is_empty());
}

#[test]
fn key_drops_the_condition() {
    let t: Tuple = Tuple::from(body(Some("c")));
    assert_eq!(
        t.key(),
        TupleKey {
            object_type: s("doc"),
            object_id: s("readme"),
            relation: s("viewer"),
            subject_type: s("user"),
            subject_id: s("anne"),
        }
    );
    assert_eq!(t.duplicate(), t);
}
