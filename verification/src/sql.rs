//! The SQL statements run against the `authz_tuple` table, each with the
//! values bound to its `?` placeholders in order.

use vstd::prelude::*;
use crate::tuple::{Tuple, TupleFilter, TupleFilterView, TupleKey};

verus! {

pub const INSERT_TUPLE: &'static str = "INSERT OR REPLACE INTO authz_tuple \
    (object_type, object_id, relation, subject_type, subject_id, condition, created_at) \
    VALUES (?, ?, ?, ?, ?, ?, ?)";

pub const DELETE_TUPLE: &'static str = "DELETE FROM authz_tuple \
    WHERE object_type = ? AND object_id = ? AND relation = ? \
      AND subject_type = ? AND subject_id = ?";

pub const SELECT_USER_TUPLE: &'static str = "SELECT object_type, object_id, relation, \
       subject_type, subject_id, condition \
    FROM authz_tuple \
    WHERE object_type = ? AND object_id = ? AND relation = ? \
      AND subject_type = ? AND subject_id = ? \
    LIMIT 1";

pub const SELECT_USERSET: &'static str = "SELECT object_type, object_id, relation, \
       subject_type, subject_id, condition \
    FROM authz_tuple \
    WHERE object_type = ? AND object_id = ? AND relation = ?";

pub const SELECT_STARTING_WITH_USER: &'static str = "SELECT object_type, object_id, relation, \
       subject_type, subject_id, condition \
    FROM authz_tuple \
    WHERE subject_type = ? AND subject_id = ?";

/// Start of a filtered select; one clause is appended per constrained column.
pub const SELECT_FILTERED: &'static str =
    "SELECT object_type, object_id, relation, subject_type, subject_id, condition \
     FROM authz_tuple WHERE 1=1";

pub const AND_OBJECT_TYPE: &'static str = " AND object_type = ?";

pub const AND_OBJECT_ID: &'static str = " AND object_id = ?";

pub const AND_RELATION: &'static str = " AND relation = ?";

pub const AND_SUBJECT_TYPE: &'static str = " AND subject_type = ?";

pub const AND_SUBJECT_ID: &'static str = " AND subject_id = ?";

/// The view of a bound value.
pub enum BindView {
    Text(Seq<char>),
    Null,
}

/// A value bound to a placeholder: a string or SQL `NULL`.
#[derive(Debug, PartialEq)]
pub enum Bind {
    Text(String),
    Null,
}

impl View for Bind {
    type V = BindView;

    open spec fn view(&self) -> BindView {
        match self {
            Bind::Text(s) => BindView::Text(s@),
            Bind::Null => BindView::Null,
        }
    }
}

/// A statement's text and the values bound to its placeholders, in order.
#[derive(Debug, PartialEq)]
pub struct Statement {
    pub sql: String,
    pub binds: Vec<Bind>,
}

impl Statement {
    pub open spec fn binds_view(&self) -> Seq<BindView> {
        self.binds@.map_values(|b: Bind| b@)
    }
}

/// The binds of a statement that matches on the five identifying columns.
pub open spec fn key_binds(
    object_type: Seq<char>,
    object_id: Seq<char>,
    relation: Seq<char>,
    subject_type: Seq<char>,
    subject_id: Seq<char>,
) -> Seq<BindView> {
    seq![
        BindView::Text(object_type),
        BindView::Text(object_id),
        BindView::Text(relation),
        BindView::Text(subject_type),
        BindView::Text(subject_id),
    ]
}

/// The bind of an optional string: the text, or `NULL` when absent.
pub open spec fn optional_bind(v: Option<Seq<char>>) -> BindView {
    match v {
        Some(s) => BindView::Text(s),
        None => BindView::Null,
    }
}

fn text(s: &str) -> (b: Bind)
    ensures
        b@ == BindView::Text(s@),
{
    Bind::Text(String::from_str(s))
}

fn finish(sql: &str, binds: Vec<Bind>) -> (st: Statement)
    ensures
        st.sql@ == sql@,
        st.binds@ == binds@,
{
    Statement { sql: String::from_str(sql), binds }
}

/// Point lookup of the tuple with the given identifying columns.
pub fn select_user_tuple(
    object_type: &str,
    object_id: &str,
    relation: &str,
    subject_type: &str,
    subject_id: &str,
) -> (st: Statement)
    ensures
        st.sql@ == SELECT_USER_TUPLE@,
        st.binds_view() == key_binds(object_type@, object_id@, relation@, subject_type@, subject_id@),
{
    let binds = vec![
        text(object_type),
        text(object_id),
        text(relation),
        text(subject_type),
        text(subject_id),
    ];
    let st = finish(SELECT_USER_TUPLE, binds);
    assert(st.binds_view() =~= key_binds(
        object_type@,
        object_id@,
        relation@,
        subject_type@,
        subject_id@,
    ));
    st
}

/// All tuples on one relation of one object (the usersets and direct grants on it).
pub fn select_userset(object_type: &str, object_id: &str, relation: &str) -> (st: Statement)
    ensures
        st.sql@ == SELECT_USERSET@,
        st.binds_view() == seq![
            BindView::Text(object_type@),
            BindView::Text(object_id@),
            BindView::Text(relation@),
        ],
{
    let binds = vec![text(object_type), text(object_id), text(relation)];
    let st = finish(SELECT_USERSET, binds);
    assert(st.binds_view() =~= seq![
        BindView::Text(object_type@),
        BindView::Text(object_id@),
        BindView::Text(relation@),
    ]);
    st
}

/// All tuples whose subject is the given one.
pub fn select_starting_with_user(subject_type: &str, subject_id: &str) -> (st: Statement)
    ensures
        st.sql@ == SELECT_STARTING_WITH_USER@,
        st.binds_view() == seq![BindView::Text(subject_type@), BindView::Text(subject_id@)],
{
    let binds = vec![text(subject_type), text(subject_id)];
    let st = finish(SELECT_STARTING_WITH_USER, binds);
    assert(st.binds_view() =~= seq![BindView::Text(subject_type@), BindView::Text(subject_id@)]);
    st
}

/// The text a filter adds for one column: its clause when the column is constrained.
pub open spec fn clause_for(v: Option<Seq<char>>, clause: Seq<char>) -> Seq<char> {
    match v {
        Some(_) => clause,
        None => Seq::empty(),
    }
}

/// The binds a filter adds for one column: its value when the column is constrained.
pub open spec fn binds_for(v: Option<Seq<char>>) -> Seq<BindView> {
    match v {
        Some(s) => seq![BindView::Text(s)],
        None => Seq::empty(),
    }
}

/// The text of the filtered select: one clause per constrained column, in column order.
pub open spec fn filtered_sql(f: TupleFilterView) -> Seq<char> {
    SELECT_FILTERED@ + clause_for(f.object_type, AND_OBJECT_TYPE@) + clause_for(
        f.object_id,
        AND_OBJECT_ID@,
    ) + clause_for(f.relation, AND_RELATION@) + clause_for(f.subject_type, AND_SUBJECT_TYPE@)
        + clause_for(f.subject_id, AND_SUBJECT_ID@)
}

/// The binds of the filtered select: the constrained values, in column order.
pub open spec fn filtered_binds(f: TupleFilterView) -> Seq<BindView> {
    binds_for(f.object_type) + binds_for(f.object_id) + binds_for(f.relation) + binds_for(
        f.subject_type,
    ) + binds_for(f.subject_id)
}

fn add_constraint(sql: &mut String, binds: &mut Vec<Bind>, v: &Option<String>, clause: &str)
    ensures
        final(sql)@ == old(sql)@ + clause_for(v.deep_view(), clause@),
        final(binds)@.map_values(|b: Bind| b@) == old(binds)@.map_values(|b: Bind| b@) + binds_for(
            v.deep_view(),
        ),
{
    match v {
        Some(s) => {
            sql.append(clause);
            let b = text(s.as_str());
            binds.push(b);
            assert(binds@.map_values(|b: Bind| b@) =~= old(binds)@.map_values(|b: Bind| b@)
                + binds_for(v.deep_view()));
        },
        None => {
            assert(sql@ =~= old(sql)@ + clause_for(v.deep_view(), clause@));
            assert(binds@.map_values(|b: Bind| b@) =~= old(binds)@.map_values(|b: Bind| b@)
                + binds_for(v.deep_view()));
        },
    }
}

/// The select of every tuple that meets the filter.
pub fn select_filtered(filter: &TupleFilter) -> (st: Statement)
    ensures
        st.sql@ == filtered_sql(filter@),
        st.binds_view() == filtered_binds(filter@),
        filter_of_select(st.sql@, st.binds_view()) == Some(filter@),
{
    let mut sql = String::from_str(SELECT_FILTERED);
    let mut binds: Vec<Bind> = Vec::new();
    add_constraint(&mut sql, &mut binds, &filter.object_type, AND_OBJECT_TYPE);
    add_constraint(&mut sql, &mut binds, &filter.object_id, AND_OBJECT_ID);
    add_constraint(&mut sql, &mut binds, &filter.relation, AND_RELATION);
    add_constraint(&mut sql, &mut binds, &filter.subject_type, AND_SUBJECT_TYPE);
    add_constraint(&mut sql, &mut binds, &filter.subject_id, AND_SUBJECT_ID);
    let st = Statement { sql, binds };
    assert(st.sql@ =~= filtered_sql(filter@));
    assert(st.binds_view() =~= filtered_binds(filter@));
    proof {
        lemma_filtered_select_expresses_filter(filter@);
    }
    st
}

/// `s` begins with `p`.
pub open spec fn starts_with(s: Seq<char>, p: Seq<char>) -> bool {
    p.len() <= s.len() && s.take(p.len() as int) == p
}

/// Reads one optional clause off the front of `rest`: when `rest` begins with
/// `clause`, its column is constrained to the next bound text, and both are
/// consumed; otherwise the column is unconstrained and nothing is consumed.
pub open spec fn read_clause(rest: Seq<char>, binds: Seq<BindView>, clause: Seq<char>) -> (
    Option<Seq<char>>,
    Seq<char>,
    Seq<BindView>,
) {
    if starts_with(rest, clause) && binds.len() > 0 && binds[0] is Text {
        (Some(binds[0]->Text_0), rest.skip(clause.len() as int), binds.drop_first())
    } else {
        (None, rest, binds)
    }
}

/// The filter that a filtered select's text and binds express, read off them:
/// after the fixed start, each clause ` AND <column> = ?` constrains its column
/// to the next bound value, the columns in table order; `None` when the text or
/// the binds have any other shape.
pub open spec fn filter_of_select(sql: Seq<char>, binds: Seq<BindView>) -> Option<TupleFilterView> {
    if !starts_with(sql, SELECT_FILTERED@) {
        None
    } else {
        let r0 = sql.skip(SELECT_FILTERED@.len() as int);
        let (ot, r1, b1) = read_clause(r0, binds, AND_OBJECT_TYPE@);
        let (oid, r2, b2) = read_clause(r1, b1, AND_OBJECT_ID@);
        let (rel, r3, b3) = read_clause(r2, b2, AND_RELATION@);
        let (st, r4, b4) = read_clause(r3, b3, AND_SUBJECT_TYPE@);
        let (sid, r5, b5) = read_clause(r4, b4, AND_SUBJECT_ID@);
        if r5.len() == 0 && b5.len() == 0 {
            Some(
                TupleFilterView {
                    object_type: ot,
                    object_id: oid,
                    relation: rel,
                    subject_type: st,
                    subject_id: sid,
                },
            )
        } else {
            None
        }
    }
}

spec fn clause_at(i: int) -> Seq<char> {
    if i == 0 {
        AND_OBJECT_TYPE@
    } else if i == 1 {
        AND_OBJECT_ID@
    } else if i == 2 {
        AND_RELATION@
    } else if i == 3 {
        AND_SUBJECT_TYPE@
    } else {
        AND_SUBJECT_ID@
    }
}

spec fn column_at(f: TupleFilterView, i: int) -> Option<Seq<char>> {
    if i == 0 {
        f.object_type
    } else if i == 1 {
        f.object_id
    } else if i == 2 {
        f.relation
    } else if i == 3 {
        f.subject_type
    } else {
        f.subject_id
    }
}

spec fn text_from(f: TupleFilterView, i: int) -> Seq<char>
    decreases 5 - i,
{
    if i >= 5 {
        Seq::empty()
    } else {
        clause_for(column_at(f, i), clause_at(i)) + text_from(f, i + 1)
    }
}

spec fn binds_from(f: TupleFilterView, i: int) -> Seq<BindView>
    decreases 5 - i,
{
    if i >= 5 {
        Seq::empty()
    } else {
        binds_for(column_at(f, i)) + binds_from(f, i + 1)
    }
}

/// Where the clauses of columns `i` and `j` first differ.
spec fn clause_split(i: int, j: int) -> int {
    if i == 0 && j == 1 {
        12
    } else if i == 3 && j == 4 {
        13
    } else {
        5
    }
}

proof fn lemma_clause_texts(i: int, j: int)
    requires
        0 <= i < j < 5,
    ensures
        clause_at(i).len() >= 17,
        clause_at(j).len() >= 17,
        0 <= clause_split(i, j) < 17,
        clause_at(i)[clause_split(i, j)] != clause_at(j)[clause_split(i, j)],
{
    reveal_strlit(" AND object_type = ?");
    reveal_strlit(" AND object_id = ?");
    reveal_strlit(" AND relation = ?");
    reveal_strlit(" AND subject_type = ?");
    reveal_strlit(" AND subject_id = ?");
    assert(AND_OBJECT_TYPE@.len() == 20);
    assert(AND_OBJECT_ID@.len() == 18);
    assert(AND_RELATION@.len() == 17);
    assert(AND_SUBJECT_TYPE@.len() == 21);
    assert(AND_SUBJECT_ID@.len() == 19);
    assert(AND_OBJECT_TYPE@[5] == 'o');
    assert(AND_OBJECT_ID@[5] == 'o');
    assert(AND_RELATION@[5] == 'r');
    assert(AND_SUBJECT_TYPE@[5] == 's');
    assert(AND_SUBJECT_ID@[5] == 's');
    assert(AND_OBJECT_TYPE@[12] == 't');
    assert(AND_OBJECT_ID@[12] == 'i');
    assert(AND_SUBJECT_TYPE@[13] == 't');
    assert(AND_SUBJECT_ID@[13] == 'i');
}

/// The rest of a filtered select's text, from column `j` on, does not begin
/// with the clause of an earlier column `i`.
proof fn lemma_later_text(f: TupleFilterView, i: int, j: int)
    requires
        0 <= i < j <= 5,
    ensures
        !starts_with(text_from(f, j), clause_at(i)),
    decreases 5 - j,
{
    if j < 5 {
        lemma_clause_texts(i, j);
        if column_at(f, j) is Some {
            let t = text_from(f, j);
            let c = clause_at(j);
            assert(t == c + text_from(f, j + 1));
            let x = clause_split(i, j);
            if starts_with(t, clause_at(i)) {
                assert(t.take(clause_at(i).len() as int)[x] == clause_at(i)[x]);
                assert(t[x] == c[x]);
            }
        } else {
            assert(text_from(f, j) =~= text_from(f, j + 1));
            lemma_later_text(f, i, j + 1);
        }
    } else {
        reveal_strlit(" AND object_type = ?");
        reveal_strlit(" AND object_id = ?");
        reveal_strlit(" AND relation = ?");
        reveal_strlit(" AND subject_type = ?");
        reveal_strlit(" AND subject_id = ?");
        assert(AND_OBJECT_TYPE@.len() == 20);
        assert(AND_OBJECT_ID@.len() == 18);
        assert(AND_RELATION@.len() == 17);
        assert(AND_SUBJECT_TYPE@.len() == 21);
        assert(AND_SUBJECT_ID@.len() == 19);
        assert(clause_at(i).len() > 0);
        assert(text_from(f, j).len() == 0);
    }
}

proof fn lemma_read_step(f: TupleFilterView, i: int)
    requires
        0 <= i < 5,
    ensures
        read_clause(text_from(f, i), binds_from(f, i), clause_at(i)) == (
            column_at(f, i),
            text_from(f, i + 1),
            binds_from(f, i + 1),
        ),
{
    let t = text_from(f, i);
    let b = binds_from(f, i);
    let c = clause_at(i);
    match column_at(f, i) {
        Some(v) => {
            assert(t == c + text_from(f, i + 1));
            assert(t.take(c.len() as int) =~= c);
            assert(t.skip(c.len() as int) =~= text_from(f, i + 1));
            assert(b == seq![BindView::Text(v)] + binds_from(f, i + 1));
            assert(b[0] == BindView::Text(v));
            assert(b.drop_first() =~= binds_from(f, i + 1));
        },
        None => {
            assert(t =~= text_from(f, i + 1));
            assert(b =~= binds_from(f, i + 1));
            lemma_later_text(f, i, i + 1);
        },
    }
}

proof fn lemma_unfold_from(f: TupleFilterView)
    ensures
        text_from(f, 0) == clause_for(f.object_type, AND_OBJECT_TYPE@) + (clause_for(
            f.object_id,
            AND_OBJECT_ID@,
        ) + (clause_for(f.relation, AND_RELATION@) + (clause_for(f.subject_type, AND_SUBJECT_TYPE@)
            + (clause_for(f.subject_id, AND_SUBJECT_ID@) + Seq::<char>::empty())))),
        binds_from(f, 0) == binds_for(f.object_type) + (binds_for(f.object_id) + (binds_for(
            f.relation,
        ) + (binds_for(f.subject_type) + (binds_for(f.subject_id) + Seq::<BindView>::empty())))),
{
    assert(text_from(f, 5) == Seq::<char>::empty());
    assert(text_from(f, 4) == clause_for(f.subject_id, AND_SUBJECT_ID@) + text_from(f, 5));
    assert(text_from(f, 3) == clause_for(f.subject_type, AND_SUBJECT_TYPE@) + text_from(f, 4));
    assert(text_from(f, 2) == clause_for(f.relation, AND_RELATION@) + text_from(f, 3));
    assert(text_from(f, 1) == clause_for(f.object_id, AND_OBJECT_ID@) + text_from(f, 2));
    assert(text_from(f, 0) == clause_for(f.object_type, AND_OBJECT_TYPE@) + text_from(f, 1));
    assert(binds_from(f, 5) == Seq::<BindView>::empty());
    assert(binds_from(f, 4) == binds_for(f.subject_id) + binds_from(f, 5));
    assert(binds_from(f, 3) == binds_for(f.subject_type) + binds_from(f, 4));
    assert(binds_from(f, 2) == binds_for(f.relation) + binds_from(f, 3));
    assert(binds_from(f, 1) == binds_for(f.object_id) + binds_from(f, 2));
    assert(binds_from(f, 0) == binds_for(f.object_type) + binds_from(f, 1));
}

proof fn lemma_select_parts(f: TupleFilterView)
    ensures
        filtered_sql(f) == SELECT_FILTERED@ + text_from(f, 0),
        filtered_binds(f) == binds_from(f, 0),
{
    lemma_unfold_from(f);
    let a = clause_for(f.object_type, AND_OBJECT_TYPE@);
    let b = clause_for(f.object_id, AND_OBJECT_ID@);
    let c = clause_for(f.relation, AND_RELATION@);
    let d = clause_for(f.subject_type, AND_SUBJECT_TYPE@);
    let e = clause_for(f.subject_id, AND_SUBJECT_ID@);
    assert(a + (b + (c + (d + (e + Seq::<char>::empty())))) =~= a + b + c + d + e);
    assert(SELECT_FILTERED@ + (a + b + c + d + e) =~= SELECT_FILTERED@ + a + b + c + d + e);
    let ba = binds_for(f.object_type);
    let bb = binds_for(f.object_id);
    let bc = binds_for(f.relation);
    let bd = binds_for(f.subject_type);
    let be = binds_for(f.subject_id);
    assert(ba + (bb + (bc + (bd + (be + Seq::<BindView>::empty())))) =~= ba + bb + bc + bd + be);
}

/// Law: the text and binds of the filtered select of any filter express
/// exactly that filter: every constrained column has its clause and its value,
/// whatever the other columns are, and no unconstrained column has either.
pub proof fn lemma_filtered_select_expresses_filter(f: TupleFilterView)
    ensures
        filter_of_select(filtered_sql(f), filtered_binds(f)) == Some(f),
{
    let sql = filtered_sql(f);
    lemma_select_parts(f);
    let base = SELECT_FILTERED@;
    assert(sql.take(base.len() as int) =~= base);
    assert(sql.skip(base.len() as int) =~= text_from(f, 0));
    assert(starts_with(sql, base));
    lemma_read_step(f, 0);
    lemma_read_step(f, 1);
    lemma_read_step(f, 2);
    lemma_read_step(f, 3);
    lemma_read_step(f, 4);
    assert(text_from(f, 5).len() == 0);
    assert(binds_from(f, 5).len() == 0);
}

/// Removal of the tuple with the given identifying columns.
pub fn delete_by_key(key: &TupleKey) -> (st: Statement)
    ensures
        st.sql@ == DELETE_TUPLE@,
        st.binds_view() == key_binds(key@.0, key@.1, key@.2, key@.3, key@.4),
{
    let binds = vec![
        text(key.object_type.as_str()),
        text(key.object_id.as_str()),
        text(key.relation.as_str()),
        text(key.subject_type.as_str()),
        text(key.subject_id.as_str()),
    ];
    let st = finish(DELETE_TUPLE, binds);
    assert(st.binds_view() =~= key_binds(key@.0, key@.1, key@.2, key@.3, key@.4));
    st
}

/// Insertion of `t` stamped with `created_at`, replacing a row with the same identifying columns.
pub fn insert_tuple(t: &Tuple, created_at: &str) -> (st: Statement)
    ensures
        st.sql@ == INSERT_TUPLE@,
        st.binds_view() == key_binds(
            t@.object_type,
            t@.object_id,
            t@.relation,
            t@.subject_type,
            t@.subject_id,
        ).push(optional_bind(t@.condition)).push(BindView::Text(created_at@)),
{
    let condition = match &t.condition {
        Some(c) => text(c.as_str()),
        None => Bind::Null,
    };
    let binds = vec![
        text(t.object_type.as_str()),
        text(t.object_id.as_str()),
        text(t.relation.as_str()),
        text(t.subject_type.as_str()),
        text(t.subject_id.as_str()),
        condition,
        text(created_at),
    ];
    let st = finish(INSERT_TUPLE, binds);
    assert(st.binds_view() =~= key_binds(
        t@.object_type,
        t@.object_id,
        t@.relation,
        t@.subject_type,
        t@.subject_id,
    ).push(optional_bind(t@.condition)).push(BindView::Text(created_at@)));
    st
}

} // verus!
