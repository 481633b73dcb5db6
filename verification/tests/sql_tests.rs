use authz_worker::sql::{
    delete_by_key, insert_tuple, select_filtered, select_starting_with_user, select_user_tuple,
    select_userset, Bind, DELETE_TUPLE, INSERT_TUPLE, SELECT_FILTERED, SELECT_STARTING_WITH_USER,
    SELECT_USERSET, SELECT_USER_TUPLE,
};
use authz_worker::tuple::{Tuple, TupleFilter, TupleKey};

fn t(x: &str) -> Bind {
    Bind::Text(x.to_string())
}

fn tuple(cond: Option<&str>) -> Tuple {
    Tuple {
        object_type: "doc".into(),
        object_id: "1".into(),
        relation: "editor".into(),
        subject_type: "user".into(),
        subject_id: "carl".into(),
        condition: cond.map(|c| c.to_string()),
    }
}

#[test]
fn point_select_binds_the_five_columns() {
    let st = select_user_tuple("doc", "1", "editor", "user", "carl");
    assert_eq!(st.sql, SELECT_USER_TUPLE);
    assert!(st.sql.ends_with("LIMIT 1"));
    assert_eq!(st.binds, vec![t("doc"), t("1"), t("editor"), t("user"), t("carl")]);
}

#[test]
fn userset_and_subject_selects() {
    let st = select_userset("doc", "1", "editor");
    assert_eq!(st.sql, SELECT_USERSET);
    assert_eq!(st.binds, vec![t("doc"), t("1"), t("editor")]);
    let st = select_starting_with_user("user", "carl");
    assert_eq!(st.sql, SELECT_STARTING_WITH_USER);
    assert_eq!(st.binds, vec![t("user"), t("carl")]);
}

#[test]
fn empty_filter_selects_everything() {
    let st = select_filtered(&TupleFilter::default());
    assert_eq!(
        st.sql,
        "SELECT object_type, object_id, relation, subject_type, subject_id, condition \
         FROM authz_tuple WHERE 1=1"
    );
    assert_eq!(st.sql, SELECT_FILTERED);
    assert!(st.binds.is_empty());
}

#[test]
fn filter_clauses_come_in_column_order() {
    let mut f = TupleFilter::default();
    f.subject_id = Some("dana".into());
    f.object_type = Some("doc".into());
    let st = select_filtered(&f);
    assert_eq!(
        st.sql,
        format!("{} AND object_type = ? AND subject_id = ?", SELECT_FILTERED)
    );
    assert_eq!(st.binds, vec![t("doc"), t("dana")]);
}

#[test]
fn full_filter_has_five_clauses() {
    let f = TupleFilter {
        object_type: Some("a".into()),
        object_id: Some("b".into()),
        relation: Some("c".into()),
        subject_type: Some("d".into()),
        subject_id: Some("e".into()),
    };
    let st = select_filtered(&f);
    assert_eq!(
        st.sql,
        format!(
            "{} AND object_type = ? AND object_id = ? AND relation = ? AND subject_type = ? AND subject_id = ?",
            SELECT_FILTERED
        )
    );
    assert_eq!(st.binds, vec![t("a"), t("b"), t("c"), t("d"), t("e")]);
}

#[test]
fn insert_binds_condition_and_stamp() {
    let st = insert_tuple(&tuple(Some("weekday")), "2024-01-02T03:04:05.000Z");
    assert_eq!(st.sql, INSERT_TUPLE);
    assert!(st.sql.starts_with("INSERT OR REPLACE INTO authz_tuple"));
    assert_eq!(
        st.binds,
        vec![
            t("doc"),
            t("1"),
            t("editor"),
            t("user"),
            t("carl"),
            t("weekday"),
            t("2024-01-02T03:04:05.000Z")
        ]
    );
}

#[test]
fn insert_without_condition_binds_null() {
    let st = insert_tuple(&tuple(None), "now");
    assert_eq!(st.binds[5], Bind::Null);
    assert_eq!(st.binds.len(), 7);
}

#[test]
fn delete_binds_the_key() {
    let k: TupleKey = tuple(Some("ignored")).key();
    let st = delete_by_key(&k);
    assert_eq!(st.sql, DELETE_TUPLE);
    assert_eq!(st.binds, vec![t("doc"), t("1"), t("editor"), t("user"), t("carl")]);
}
