use authz_worker::sql::{Bind, DELETE_TUPLE, INSERT_TUPLE};
use authz_worker::store::{statements, write_plan, BatchLookup, LookupStep, WriteOp, WRITE_REVISION};
use authz_worker::tuple::{Tuple, TupleKey};

fn tuple(id: &str, cond: Option<&str>) -> Tuple {
    Tuple {
        object_type: "doc".into(),
        object_id: id.into(),
        relation: "viewer".into(),
        subject_type: "user".into(),
        subject_id: "eve".into(),
        condition: cond.map(|c| c.to_string()),
    }
}

fn key(relation: &str) -> TupleKey {
    TupleKey {
        object_type: "doc".into(),
        object_id: "1".into(),
        relation: relation.into(),
        subject_type: "user".into(),
        subject_id: "eve".into(),
    }
}

#[test]
fn deletes_run_before_inserts() {
    let writes = vec![tuple("w1", None), tuple("w2", Some("c"))];
    let deletes = vec![tuple("d1", Some("x"))];
    let ops = write_plan(&writes, &deletes, "T");
    assert_eq!(
        ops,
        vec![
            WriteOp::Delete(tuple("d1", None).key()),
            WriteOp::Insert(tuple("w1", None), "T".into()),
            WriteOp::Insert(tuple("w2", Some("c")), "T".into()),
        ]
    );
}

#[test]
fn written_and_deleted_tuple_ends_written() {
    let t = tuple("same", None);
    let ops = write_plan(&[t.duplicate()], &[t.duplicate()], "T");
    assert_eq!(ops.len(), 2);
    assert!(matches!(ops.last(), Some(WriteOp::Insert(_, _))));
}

#[test]
fn empty_batch_has_no_statements() {
    let ops = write_plan(&[], &[], "T");
    assert!(ops.is_empty());
    assert!(statements(&ops).is_empty());
    assert_eq!(WRITE_REVISION, "0");
}

#[test]
fn each_write_has_its_statement() {
    let ops = write_plan(&[tuple("w", None)], &[tuple("d", None)], "T");
    let sts = statements(&ops);
    assert_eq!(sts.len(), 2);
    assert_eq!(sts[0].sql, DELETE_TUPLE);
    assert_eq!(sts[0].binds.len(), 5);
    assert_eq!(sts[1].sql, INSERT_TUPLE);
    assert_eq!(sts[1].binds[5], Bind::Null);
    assert_eq!(sts[1].binds[6], Bind::Text("T".into()));
}

#[test]
fn batch_lookup_of_no_relations_finds_nothing() {
    let (_, step) = BatchLookup::begin("doc", "1", &[], "user", "eve");
    assert_eq!(step, LookupStep::Done(None));
}

#[test]
fn batch_lookup_answers_with_first_hit() {
    let rels = vec!["owner".to_string(), "editor".to_string(), "viewer".to_string()];
    let (mut b, step) = BatchLookup::begin("doc", "1", &rels, "user", "eve");
    assert_eq!(step, LookupStep::Lookup(key("owner")));
    let step = b.resume(None);
    assert_eq!(step, LookupStep::Lookup(key("editor")));
    let hit = tuple("1", None);
    let step = b.resume(Some(hit.duplicate()));
    assert_eq!(step, LookupStep::Done(Some(hit)));
}

#[test]
fn batch_lookup_misses_everywhere() {
    let rels = vec!["owner".to_string(), "viewer".to_string()];
    let (mut b, step) = BatchLookup::begin("doc", "1", &rels, "user", "eve");
    assert_eq!(step, LookupStep::Lookup(key("owner")));
    assert_eq!(b.resume(None), LookupStep::Lookup(key("viewer")));
    assert_eq!(b.resume(None), LookupStep::Done(None));
}
