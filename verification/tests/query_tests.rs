use authz_worker::query::{filter_from_pairs, filter_from_query};
use authz_worker::tuple::TupleFilter;

fn pairs(ps: &[(&str, &str)]) -> Vec<(String, String)> {
    ps.iter().map(|(k, v)| (k.to_string(), v.to_string())).collect()
}

#[test]
fn all_five_columns() {
    let (f, k) = filter_from_query(
        "subject_id=fay&object_type=doc&relation=viewer&object_id=7&subject_type=user",
    );
    assert_eq!(k, ["doc".to_string(), "7".into(), "viewer".into(), "user".into(), "fay".into()]);
    assert_eq!(f.object_type.as_deref(), Some("doc"));
    assert_eq!(f.object_id.as_deref(), Some("7"));
    assert_eq!(f.relation.as_deref(), Some("viewer"));
    assert_eq!(f.subject_type.as_deref(), Some("user"));
    assert_eq!(f.subject_id.as_deref(), Some("fay"));
}

#[test]
fn values_are_percent_decoded() {
    let (f, k) = filter_from_query("subject_id=group%23member&object_id=a+b");
    assert_eq!(f.subject_id.as_deref(), Some("group#member"));
    assert_eq!(k[1], "a b");
}

#[test]
fn later_pair_wins_and_others_are_ignored() {
    let (f, k) = filter_from_query("relation=owner&page=2&relation=editor");
    assert_eq!(f.relation.as_deref(), Some("editor"));
    assert_eq!(f.object_type, None);
    assert_eq!(k[2], "editor");
    assert_eq!(k[0], "");
    assert_eq!(k[4], "");
}

#[test]
fn empty_query() {
    let (f, k) = filter_from_query("");
    assert_eq!(f, TupleFilter::default());
    assert!(k.iter().all(|x| x.is_empty()));
}

#[test]
fn names_are_case_sensitive() {
    let (f, _) = filter_from_query("Object_Type=doc");
    assert_eq!(f.object_type, None);
}

#[test]
fn decoded_pairs_directly() {
    let (f, k) = filter_from_pairs(&pairs(&[("object_type", "a"), ("object_type", "b")]));
    assert_eq!(f.object_type.as_deref(), Some("b"));
    assert_eq!(k[0], "b");
}
