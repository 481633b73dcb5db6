//! Writing and reading tuples: the ordered plan of a batch write, the
//! statements it becomes, the meaning of those statements on the table,
//! and the lookup of a tuple under the first matching relation of a list.

use vstd::prelude::*;
use crate::sql::{
    delete_by_key, filter_of_select, filtered_binds, filtered_sql, insert_tuple, key_binds, optional_bind, BindView, Statement,
    DELETE_TUPLE, INSERT_TUPLE,
};
use crate::tuple::{Tuple, TupleFilterView, TupleKey, TupleKeyView, TupleView};

verus! {

/// The view of one write: removal of a key, or insertion of a tuple with its creation stamp.
pub enum WriteOpView {
    Delete(TupleKeyView),
    Insert(TupleView, Seq<char>),
}

/// One write of a batch.
#[derive(Debug, PartialEq)]
pub enum WriteOp {
    Delete(TupleKey),
    Insert(Tuple, String),
}

impl View for WriteOp {
    type V = WriteOpView;

    open spec fn view(&self) -> WriteOpView {
        match self {
            WriteOp::Delete(k) => WriteOpView::Delete(k@),
            WriteOp::Insert(t, at) => WriteOpView::Insert(t@, at@),
        }
    }
}

pub open spec fn tuple_views(ts: Seq<Tuple>) -> Seq<TupleView> {
    ts.map_values(|t: Tuple| t@)
}

pub open spec fn op_views(ops: Seq<WriteOp>) -> Seq<WriteOpView> {
    ops.map_values(|o: WriteOp| o@)
}

/// The writes of a batch, in the order they run: every removal first, then every insertion.
pub open spec fn write_plan_view(
    writes: Seq<TupleView>,
    deletes: Seq<TupleView>,
    created_at: Seq<char>,
) -> Seq<WriteOpView> {
    deletes.map_values(|t: TupleView| WriteOpView::Delete(t.key())) + writes.map_values(
        |t: TupleView| WriteOpView::Insert(t, created_at),
    )
}

/// The statement text and binds of one write.
pub open spec fn op_statement(op: WriteOpView) -> (Seq<char>, Seq<BindView>) {
    match op {
        WriteOpView::Delete(k) => (DELETE_TUPLE@, key_binds(k.0, k.1, k.2, k.3, k.4)),
        WriteOpView::Insert(t, at) => (
            INSERT_TUPLE@,
            key_binds(t.object_type, t.object_id, t.relation, t.subject_type, t.subject_id).push(
                optional_bind(t.condition),
            ).push(BindView::Text(at)),
        ),
    }
}

/// Plans a batch that removes `deletes` and then inserts `writes`, stamped `created_at`.
pub fn write_plan(writes: &[Tuple], deletes: &[Tuple], created_at: &str) -> (ops: Vec<WriteOp>)
    ensures
        op_views(ops@) == write_plan_view(tuple_views(writes@), tuple_views(deletes@), created_at@),
{
    let mut ops: Vec<WriteOp> = Vec::new();
    let ghost dels = tuple_views(deletes@).map_values(|t: TupleView| WriteOpView::Delete(t.key()));
    let ghost ins = tuple_views(writes@).map_values(
        |t: TupleView| WriteOpView::Insert(t, created_at@),
    );
    let mut i: usize = 0;
    while i < deletes.len()
        invariant
            i <= deletes@.len(),
            dels.len() == deletes@.len(),
            op_views(ops@) == dels.take(i as int),
            dels == tuple_views(deletes@).map_values(|t: TupleView| WriteOpView::Delete(t.key())),
        decreases deletes@.len() - i,
    {
        let k = deletes[i].key();
        let ghost before = ops@;
        ops.push(WriteOp::Delete(k));
        assert(tuple_views(deletes@)[i as int] == deletes@[i as int]@);
        assert(dels[i as int] == WriteOpView::Delete(deletes@[i as int]@.key()));
        assert(ops@ == before.push(WriteOp::Delete(k)));
        assert(op_views(ops@) =~= op_views(before).push(WriteOpView::Delete(k@)));
        assert(op_views(ops@) =~= dels.take(i + 1));
        i = i + 1;
    }
    assert(dels.take(deletes@.len() as int) =~= dels);
    let mut j: usize = 0;
    while j < writes.len()
        invariant
            j <= writes@.len(),
            ins.len() == writes@.len(),
            op_views(ops@) == dels + ins.take(j as int),
            ins == tuple_views(writes@).map_values(
                |t: TupleView| WriteOpView::Insert(t, created_at@),
            ),
        decreases writes@.len() - j,
    {
        let t = writes[j].duplicate();
        let at = String::from_str(created_at);
        let ghost op = WriteOp::Insert(t, at);
        let ghost before = ops@;
        ops.push(WriteOp::Insert(t, at));
        assert(tuple_views(writes@)[j as int] == writes@[j as int]@);
        assert(ins[j as int] == WriteOpView::Insert(writes@[j as int]@, created_at@));
        assert(ops@ == before.push(op));
        assert(op_views(ops@) =~= op_views(before).push(op@));
        assert(op_views(ops@) =~= dels + ins.take(j + 1));
        j = j + 1;
    }
    assert(ins.take(writes@.len() as int) =~= ins);
    ops
}

impl WriteOp {
    /// The statement that carries out this write.
    pub fn statement(&self) -> (st: Statement)
        ensures
            (st.sql@, st.binds_view()) == op_statement(self@),
            forall|table: TableView| #[trigger]
                run_write(table, statement_view(st)) == apply_write(table, self@),
    {
        let st = match self {
            WriteOp::Delete(k) => delete_by_key(k),
            WriteOp::Insert(t, at) => insert_tuple(t, at.as_str()),
        };
        proof {
            assert forall|table: TableView| #[trigger]
                run_write(table, statement_view(st)) == apply_write(table, self@) by {
                lemma_write_statement_effect(table, self@);
            }
        }
        st
    }
}

/// The statements of a batch, one per write and in the same order.
pub fn statements(ops: &Vec<WriteOp>) -> (sts: Vec<Statement>)
    ensures
        sts@.len() == ops@.len(),
        forall|i: int|
            0 <= i < ops@.len() ==> (#[trigger] sts@[i].sql@, sts@[i].binds_view()) == op_statement(
                ops@[i]@,
            ),
        forall|table: TableView| #[trigger]
            run_writes(table, statement_views(sts@)) == apply_writes(table, op_views(ops@)),
{
    let mut sts: Vec<Statement> = Vec::new();
    let mut i: usize = 0;
    while i < ops.len()
        invariant
            i <= ops@.len(),
            sts@.len() == i,
            forall|j: int|
                0 <= j < i ==> (#[trigger] sts@[j].sql@, sts@[j].binds_view()) == op_statement(
                    ops@[j]@,
                ),
            forall|table: TableView| #[trigger]
                run_writes(table, statement_views(sts@)) == apply_writes(
                    table,
                    op_views(ops@.take(i as int)),
                ),
        decreases ops@.len() - i,
    {
        let st = ops[i].statement();
        let ghost before = sts@;
        sts.push(st);
        proof {
            assert(statement_views(sts@) =~= statement_views(before).push(statement_view(st)));
            assert(op_views(ops@.take(i + 1)) =~= op_views(ops@.take(i as int)).push(ops@[i as int]@));
            assert forall|table: TableView| #[trigger]
                run_writes(table, statement_views(sts@)) == apply_writes(
                    table,
                    op_views(ops@.take(i + 1)),
                ) by {
                let sv = statement_views(sts@);
                let ov = op_views(ops@.take(i + 1));
                assert(sv.drop_last() =~= statement_views(before));
                assert(ov.drop_last() =~= op_views(ops@.take(i as int)));
                assert(sv.last() == statement_view(st));
                assert(ov.last() == ops@[i as int]@);
                let mid = run_writes(table, statement_views(before));
                assert(mid == apply_writes(table, op_views(ops@.take(i as int))));
                assert(run_write(mid, statement_view(st)) == apply_write(mid, ops@[i as int]@));
                assert(run_writes(table, sv) == run_write(mid, statement_view(st)));
                assert(apply_writes(table, ov) == apply_write(mid, ops@[i as int]@));
            }
        }
        i = i + 1;
    }
    assert(ops@.take(ops@.len() as int) =~= ops@);
    sts
}


/// A stored row: the tuple and the stamp of its insertion.
pub struct StoredRow {
    pub tuple: TupleView,
    pub created_at: Seq<char>,
}

/// The table as the statements act on it: rows by their identifying columns,
/// which form the table's unique key (the `OR REPLACE` of an insertion replaces
/// the row with the same key, a removal and the point select match on it).
pub type TableView = Map<TupleKeyView, StoredRow>;

/// The row stored under a key, if any.
pub open spec fn row_at(table: TableView, k: TupleKeyView) -> Option<StoredRow> {
    if table.dom().contains(k) {
        Some(table[k])
    } else {
        None
    }
}

/// What the point select returns for a key: the tuple stored under it, if any.
pub open spec fn select_key(table: TableView, k: TupleKeyView) -> Option<TupleView> {
    match row_at(table, k) {
        Some(r) => Some(r.tuple),
        None => None,
    }
}

/// The effect of one write on the table.
pub open spec fn apply_write(table: TableView, op: WriteOpView) -> TableView {
    match op {
        WriteOpView::Delete(k) => table.remove(k),
        WriteOpView::Insert(t, at) => table.insert(t.key(), StoredRow { tuple: t, created_at: at }),
    }
}

/// The effect of writes run in order.
pub open spec fn apply_writes(table: TableView, ops: Seq<WriteOpView>) -> TableView
    decreases ops.len(),
{
    if ops.len() == 0 {
        table
    } else {
        apply_write(apply_writes(table, ops.drop_last()), ops.last())
    }
}

/// The last of `writes` with key `k`, if any.
pub open spec fn last_write(writes: Seq<TupleView>, k: TupleKeyView) -> Option<TupleView>
    decreases writes.len(),
{
    if writes.len() == 0 {
        None
    } else if writes.last().key() == k {
        Some(writes.last())
    } else {
        last_write(writes.drop_last(), k)
    }
}

/// Some tuple of `deletes` has key `k`.
pub open spec fn deletes_key(deletes: Seq<TupleView>, k: TupleKeyView) -> bool {
    exists|i: int| 0 <= i < deletes.len() && #[trigger] deletes[i].key() == k
}

/// The row under `k` after a batch that removes `deletes` and inserts `writes`:
/// the last insertion with that key wins; failing one, a removal leaves no row;
/// a key that the batch does not name keeps its row.
pub open spec fn batch_outcome(
    table: TableView,
    writes: Seq<TupleView>,
    deletes: Seq<TupleView>,
    created_at: Seq<char>,
    k: TupleKeyView,
) -> Option<StoredRow> {
    match last_write(writes, k) {
        Some(t) => Some(StoredRow { tuple: t, created_at }),
        None => if deletes_key(deletes, k) {
            None
        } else {
            row_at(table, k)
        },
    }
}

proof fn lemma_apply_concat(table: TableView, a: Seq<WriteOpView>, b: Seq<WriteOpView>)
    ensures
        apply_writes(table, a + b) == apply_writes(apply_writes(table, a), b),
    decreases b.len(),
{
    if b.len() == 0 {
        assert(a + b =~= a);
    } else {
        assert((a + b).drop_last() =~= a + b.drop_last());
        assert((a + b).last() == b.last());
        lemma_apply_concat(table, a, b.drop_last());
    }
}

proof fn lemma_apply_deletes(table: TableView, deletes: Seq<TupleView>, k: TupleKeyView)
    ensures
        row_at(
            apply_writes(table, deletes.map_values(|t: TupleView| WriteOpView::Delete(t.key()))),
            k,
        ) == if deletes_key(deletes, k) {
            None
        } else {
            row_at(table, k)
        },
    decreases deletes.len(),
{
    let ops = deletes.map_values(|t: TupleView| WriteOpView::Delete(t.key()));
    if deletes.len() == 0 {
    } else {
        let rest = deletes.drop_last();
        assert(ops.drop_last() =~= rest.map_values(|t: TupleView| WriteOpView::Delete(t.key())));
        lemma_apply_deletes(table, rest, k);
        assert(ops.last() == WriteOpView::Delete(deletes.last().key()));
        if deletes_key(deletes, k) {
            if deletes.last().key() != k {
                let i = choose|i: int| 0 <= i < deletes.len() && #[trigger] deletes[i].key() == k;
                assert(rest[i].key() == k);
            }
        } else {
            assert(deletes[deletes.len() - 1].key() != k);
            assert forall|i: int| 0 <= i < rest.len() implies #[trigger] rest[i].key() != k by {
                assert(deletes[i].key() != k);
            }
        }
    }
}

proof fn lemma_apply_inserts(
    table: TableView,
    writes: Seq<TupleView>,
    created_at: Seq<char>,
    k: TupleKeyView,
)
    ensures
        row_at(
            apply_writes(
                table,
                writes.map_values(|t: TupleView| WriteOpView::Insert(t, created_at)),
            ),
            k,
        ) == match last_write(writes, k) {
            Some(t) => Some(StoredRow { tuple: t, created_at }),
            None => row_at(table, k),
        },
    decreases writes.len(),
{
    let ops = writes.map_values(|t: TupleView| WriteOpView::Insert(t, created_at));
    if writes.len() > 0 {
        let rest = writes.drop_last();
        assert(ops.drop_last() =~= rest.map_values(
            |t: TupleView| WriteOpView::Insert(t, created_at),
        ));
        lemma_apply_inserts(table, rest, created_at, k);
        assert(ops.last() == WriteOpView::Insert(writes.last(), created_at));
    }
}

/// Law of a batch write: after the statements of a batch run in order on any
/// table, the row under every key is the one `batch_outcome` gives.
pub proof fn lemma_write_batch(
    table: TableView,
    writes: Seq<TupleView>,
    deletes: Seq<TupleView>,
    created_at: Seq<char>,
    k: TupleKeyView,
)
    ensures
        row_at(apply_writes(table, write_plan_view(writes, deletes, created_at)), k)
            == batch_outcome(table, writes, deletes, created_at, k),
{
    let dels = deletes.map_values(|t: TupleView| WriteOpView::Delete(t.key()));
    let ins = writes.map_values(|t: TupleView| WriteOpView::Insert(t, created_at));
    lemma_apply_concat(table, dels, ins);
    lemma_apply_deletes(table, deletes, k);
    lemma_apply_inserts(apply_writes(table, dels), writes, created_at, k);
}

/// Law: a tuple that has been written is read back by the point select on its key,
/// whatever the table held before.
pub proof fn lemma_read_your_write(table: TableView, t: TupleView, created_at: Seq<char>)
    ensures
        select_key(apply_writes(table, write_plan_view(seq![t], seq![], created_at)), t.key())
            == Some(t),
{
    lemma_write_batch(table, seq![t], seq![], created_at, t.key());
    reveal_with_fuel(last_write, 2);
}

/// Law: after a tuple has been removed, the point select on its key finds nothing,
/// whatever its condition and whatever the table held before.
pub proof fn lemma_delete_removes(table: TableView, t: TupleView)
    ensures
        forall|at: Seq<char>|
            select_key(
                #[trigger] apply_writes(table, write_plan_view(seq![], seq![t], at)),
                t.key(),
            ) is None,
{
    assert forall|at: Seq<char>|
        select_key(
            #[trigger] apply_writes(table, write_plan_view(seq![], seq![t], at)),
            t.key(),
        ) is None by {
        lemma_write_batch(table, seq![], seq![t], at, t.key());
        assert(seq![t][0].key() == t.key());
    }
}


/// A statement as its text and the values bound to it.
pub open spec fn statement_view(st: Statement) -> (Seq<char>, Seq<BindView>) {
    (st.sql@, st.binds_view())
}

pub open spec fn statement_views(sts: Seq<Statement>) -> Seq<(Seq<char>, Seq<BindView>)> {
    sts.map_values(|st: Statement| statement_view(st))
}

/// The text of a bound value; `NULL` has none.
pub open spec fn bound_text(b: BindView) -> Option<Seq<char>> {
    match b {
        BindView::Text(s) => Some(s),
        BindView::Null => None,
    }
}

/// What running a write statement does to the table, read off its text and
/// binds. The insertion names its columns `object_type, object_id, relation,
/// subject_type, subject_id, condition, created_at` and binds them in that
/// order (`NULL` for no condition), replacing the row with the same key; the
/// removal matches `object_type, object_id, relation, subject_type,
/// subject_id` in that order. Any other statement leaves the table as it is.
pub open spec fn run_write(table: TableView, st: (Seq<char>, Seq<BindView>)) -> TableView {
    let (sql, b) = st;
    if sql == INSERT_TUPLE@ && b.len() == 7 && b[0] is Text && b[1] is Text && b[2] is Text
        && b[3] is Text && b[4] is Text && b[6] is Text {
        let t = TupleView {
            object_type: b[0]->Text_0,
            object_id: b[1]->Text_0,
            relation: b[2]->Text_0,
            subject_type: b[3]->Text_0,
            subject_id: b[4]->Text_0,
            condition: bound_text(b[5]),
        };
        table.insert(
            (t.object_type, t.object_id, t.relation, t.subject_type, t.subject_id),
            StoredRow { tuple: t, created_at: b[6]->Text_0 },
        )
    } else if sql == DELETE_TUPLE@ && b.len() == 5 && b[0] is Text && b[1] is Text && b[2] is Text
        && b[3] is Text && b[4] is Text {
        table.remove((b[0]->Text_0, b[1]->Text_0, b[2]->Text_0, b[3]->Text_0, b[4]->Text_0))
    } else {
        table
    }
}

/// What running write statements in order does to the table.
pub open spec fn run_writes(table: TableView, sts: Seq<(Seq<char>, Seq<BindView>)>) -> TableView
    decreases sts.len(),
{
    if sts.len() == 0 {
        table
    } else {
        run_write(run_writes(table, sts.drop_last()), sts.last())
    }
}

/// Law: the statement of a write does to any table what the write means: an
/// insertion stores the tuple, condition and stamp included, under its key; a
/// removal takes away the row under its key and no other.
pub proof fn lemma_write_statement_effect(table: TableView, op: WriteOpView)
    ensures
        run_write(table, op_statement(op)) == apply_write(table, op),
{
    match op {
        WriteOpView::Delete(k) => {
            let b = op_statement(op).1;
            assert(b[0] == BindView::Text(k.0));
            assert(b[4] == BindView::Text(k.4));
        },
        WriteOpView::Insert(t, at) => {
            let b = op_statement(op).1;
            assert(b.len() == 7);
            assert(b[5] == optional_bind(t.condition));
            assert(b[6] == BindView::Text(at));
            assert(bound_text(b[5]) == t.condition);
        },
    }
}

/// Every row is stored under the key of its own tuple.
pub open spec fn table_wf(table: TableView) -> bool {
    forall|k: TupleKeyView| #[trigger] table.dom().contains(k) ==> table[k].tuple.key() == k
}

/// Law: writes keep every row under the key of its own tuple.
pub proof fn lemma_writes_keep_wf(table: TableView, ops: Seq<WriteOpView>)
    requires
        table_wf(table),
    ensures
        table_wf(apply_writes(table, ops)),
    decreases ops.len(),
{
    if ops.len() > 0 {
        lemma_writes_keep_wf(table, ops.drop_last());
    }
}

/// The tuples that a select with filter `f` returns: those of the rows that meet it.
pub open spec fn select_rows(table: TableView, f: TupleFilterView) -> Set<TupleView> {
    Set::new(
        |t: TupleView|
            exists|k: TupleKeyView| #[trigger] table.dom().contains(k) && table[k].tuple == t
                && f.matches(t),
    )
}

/// The tuples that running a filtered select returns, read off its text and
/// binds; a statement of another shape returns none.
pub open spec fn run_select(table: TableView, sql: Seq<char>, binds: Seq<BindView>) -> Set<
    TupleView,
> {
    match filter_of_select(sql, binds) {
        Some(f) => select_rows(table, f),
        None => Set::empty(),
    }
}

/// Law: the filtered select built for a filter returns, on any table, exactly
/// the tuples that meet the filter.
pub proof fn lemma_filtered_select_rows(table: TableView, f: TupleFilterView)
    ensures
        run_select(table, filtered_sql(f), filtered_binds(f)) == select_rows(table, f),
{
    crate::sql::lemma_filtered_select_expresses_filter(f);
}

/// The filter of the point select: all five identifying columns.
pub open spec fn key_filter(k: TupleKeyView) -> TupleFilterView {
    TupleFilterView {
        object_type: Some(k.0),
        object_id: Some(k.1),
        relation: Some(k.2),
        subject_type: Some(k.3),
        subject_id: Some(k.4),
    }
}

/// The filter of the userset select: the object and the relation.
pub open spec fn userset_filter(
    object_type: Seq<char>,
    object_id: Seq<char>,
    relation: Seq<char>,
) -> TupleFilterView {
    TupleFilterView {
        object_type: Some(object_type),
        object_id: Some(object_id),
        relation: Some(relation),
        subject_type: None,
        subject_id: None,
    }
}

/// The filter of the select by subject: the subject's type and id.
pub open spec fn subject_filter(subject_type: Seq<char>, subject_id: Seq<char>) -> TupleFilterView {
    TupleFilterView {
        object_type: None,
        object_id: None,
        relation: None,
        subject_type: Some(subject_type),
        subject_id: Some(subject_id),
    }
}

/// Law: the point, userset and subject selects bind exactly the values that
/// the filtered select binds for their filters, in the same order; each is the
/// filtered select of its filter.
pub proof fn lemma_selects_are_filtered(
    k: TupleKeyView,
    object_type: Seq<char>,
    object_id: Seq<char>,
    relation: Seq<char>,
    subject_type: Seq<char>,
    subject_id: Seq<char>,
)
    ensures
        filtered_binds(key_filter(k)) == key_binds(k.0, k.1, k.2, k.3, k.4),
        filtered_binds(userset_filter(object_type, object_id, relation)) == seq![
            BindView::Text(object_type),
            BindView::Text(object_id),
            BindView::Text(relation),
        ],
        filtered_binds(subject_filter(subject_type, subject_id)) == seq![
            BindView::Text(subject_type),
            BindView::Text(subject_id),
        ],
{
    assert(filtered_binds(key_filter(k)) =~= key_binds(k.0, k.1, k.2, k.3, k.4));
    assert(filtered_binds(userset_filter(object_type, object_id, relation)) =~= seq![
        BindView::Text(object_type),
        BindView::Text(object_id),
        BindView::Text(relation),
    ]);
    assert(filtered_binds(subject_filter(subject_type, subject_id)) =~= seq![
        BindView::Text(subject_type),
        BindView::Text(subject_id),
    ]);
}

/// Law: on a table whose rows stand under their own keys, the select with all
/// five columns finds exactly the tuple that the point select finds, if any.
pub proof fn lemma_point_select_is_filtered(table: TableView, k: TupleKeyView)
    requires
        table_wf(table),
    ensures
        select_rows(table, key_filter(k)) == match select_key(table, k) {
            Some(t) => set![t],
            None => Set::<TupleView>::empty(),
        },
{
    let rows = select_rows(table, key_filter(k));
    match select_key(table, k) {
        Some(t) => {
            assert(table.dom().contains(k) && table[k].tuple == t);
            assert(rows.contains(t));
            assert forall|u: TupleView| rows.contains(u) implies u == t by {
                let k2 = choose|k2: TupleKeyView| #[trigger] table.dom().contains(k2)
                    && table[k2].tuple == u && key_filter(k).matches(u);
                assert(u.key() == k);
                assert(table[k2].tuple.key() == k2);
            }
            assert(rows =~= set![t]);
        },
        None => {
            assert forall|u: TupleView| !rows.contains(u) by {
                if rows.contains(u) {
                    let k2 = choose|k2: TupleKeyView| #[trigger] table.dom().contains(k2)
                        && table[k2].tuple == u && key_filter(k).matches(u);
                    assert(table[k2].tuple.key() == k2);
                    assert(u.key() == k);
                }
            }
            assert(rows =~= Set::<TupleView>::empty());
        },
    }
}

/// A decimal digit.
pub open spec fn is_digit(c: char) -> bool {
    48 <= c as u32 <= 57
}

/// Every character of `s` in `[from, to)` is a decimal digit.
pub open spec fn digits(s: Seq<char>, from: int, to: int) -> bool {
    forall|i: int| from <= i < to ==> #[trigger] is_digit(s[i])
}

/// The simplified ISO 8601 layout `YYYY-MM-DDTHH:mm:ss.sssZ` (24 characters),
/// or `±YYYYYY-MM-DDTHH:mm:ss.sssZ` (27 characters) for years past 9999.
pub open spec fn iso_timestamp(s: Seq<char>) -> bool {
    let o: int = if s.len() == 27 {
        3
    } else {
        0
    };
    &&& s.len() == 24 || s.len() == 27
    &&& s.len() == 27 ==> (s[0] == '+' || s[0] == '-')
    &&& digits(s, if s.len() == 27 { 1 } else { 0 }, o + 4)
    &&& s[o + 4] == '-'
    &&& digits(s, o + 5, o + 7)
    &&& s[o + 7] == '-'
    &&& digits(s, o + 8, o + 10)
    &&& s[o + 10] == 'T'
    &&& digits(s, o + 11, o + 13)
    &&& s[o + 13] == ':'
    &&& digits(s, o + 14, o + 16)
    &&& s[o + 16] == ':'
    &&& digits(s, o + 17, o + 19)
    &&& s[o + 19] == '.'
    &&& digits(s, o + 20, o + 23)
    &&& s[o + 23] == 'Z'
}

/// `js_sys::Date::new_0().to_iso_string()`: the current time as text. js-sys documents
/// the result as the simplified ISO 8601 format, `YYYY-MM-DDTHH:mm:ss.sssZ` or
/// `±YYYYYY-MM-DDTHH:mm:ss.sssZ` (24 or 27 characters, always UTC); which instant it
/// gives is the clock's, and nothing is claimed of it.
#[verifier::external_body]
pub(crate) fn now_iso8601() -> (s: String)
    ensures
        iso_timestamp(s@),
{
    js_sys::Date::new_0().to_iso_string().into()
}

/// The revision token that a batch write reports.
pub const WRITE_REVISION: &'static str = "0";

/// A planned batch write: its stamp, its writes in order, their statements, and the
/// revision token reported once it has run.
#[derive(Debug, PartialEq)]
pub struct WriteBatch {
    pub created_at: String,
    pub ops: Vec<WriteOp>,
    pub statements: Vec<Statement>,
    pub revision: String,
}

/// Plans the batch that removes `deletes` and inserts `writes`, stamped with the
/// current time: every removal first, then every insertion, one statement each.
/// An empty batch has no statements and is not sent.
pub fn plan_write_tuples(writes: &[Tuple], deletes: &[Tuple]) -> (b: WriteBatch)
    ensures
        iso_timestamp(b.created_at@),
        op_views(b.ops@) == write_plan_view(
            tuple_views(writes@),
            tuple_views(deletes@),
            b.created_at@,
        ),
        b.statements@.len() == b.ops@.len(),
        b.statements@.len() == deletes@.len() + writes@.len(),
        forall|i: int|
            0 <= i < b.ops@.len() ==> (#[trigger] b.statements@[i].sql@, b.statements@[i].binds_view())
                == op_statement(b.ops@[i]@),
        forall|table: TableView| #[trigger]
            run_writes(table, statement_views(b.statements@)) == apply_writes(
                table,
                write_plan_view(tuple_views(writes@), tuple_views(deletes@), b.created_at@),
            ),
        b.revision@ == WRITE_REVISION@,
{
    let created_at = now_iso8601();
    let ops = write_plan(writes, deletes, created_at.as_str());
    proof {
        assert(op_views(ops@).len() == ops@.len());
    }
    let statements = statements(&ops);
    WriteBatch { created_at, ops, statements, revision: String::from_str(WRITE_REVISION) }
}

/// The step a batched lookup asks for next.
#[derive(Debug, PartialEq)]
pub enum LookupStep {
    /// Look up the tuple with this key, then resume with what was found.
    Lookup(TupleKey),
    /// The lookup is over, with this answer.
    Done(Option<Tuple>),
}

/// The view of an optional tuple.
pub open spec fn found_view(o: Option<Tuple>) -> Option<TupleView> {
    match o {
        Some(t) => Some(t@),
        None => None,
    }
}

/// The first tuple found, in order, if any.
pub open spec fn first_found(found: Seq<Option<TupleView>>) -> Option<TupleView>
    decreases found.len(),
{
    if found.len() == 0 {
        None
    } else if found[0] is Some {
        found[0]
    } else {
        first_found(found.drop_first())
    }
}

proof fn lemma_first_found_push(found: Seq<Option<TupleView>>, last: Option<TupleView>)
    requires
        forall|i: int| 0 <= i < found.len() ==> #[trigger] found[i] is None,
    ensures
        first_found(found.push(last)) == last,
    decreases found.len(),
{
    if found.len() == 0 {
        assert(found.push(last).drop_first() =~= Seq::<Option<TupleView>>::empty());
        reveal_with_fuel(first_found, 2);
    } else {
        assert(found.push(last).drop_first() =~= found.drop_first().push(last));
        assert(found.push(last)[0] == found[0]);
        assert(found[0] is None);
        assert forall|i: int| 0 <= i < found.drop_first().len() implies #[trigger] found.drop_first()[i]
            is None by {
            assert(found[i + 1] is None);
        }
        lemma_first_found_push(found.drop_first(), last);
    }
}

/// Looks up the tuple of one object and subject under each relation of a list in
/// turn, and answers with the first one found.
pub struct BatchLookup {
    pub object_type: String,
    pub object_id: String,
    pub relations: Vec<String>,
    pub subject_type: String,
    pub subject_id: String,
    /// How many lookups have been asked for.
    pub asked: usize,
    /// What the lookups answered so far found, in relation order.
    pub found: Ghost<Seq<Option<TupleView>>>,
}

impl BatchLookup {
    /// The key looked up under the `i`-th relation.
    pub open spec fn key_at(&self, i: int) -> TupleKeyView {
        (
            self.object_type@,
            self.object_id@,
            self.relations@[i]@,
            self.subject_type@,
            self.subject_id@,
        )
    }

    /// A lookup has been asked for and its result is awaited; every earlier one
    /// found nothing.
    pub open spec fn awaiting(&self) -> bool {
        &&& 1 <= self.asked <= self.relations@.len()
        &&& self.found@.len() == self.asked - 1
        &&& forall|i: int| 0 <= i < self.found@.len() ==> #[trigger] self.found@[i] is None
    }

    fn key_for(&self, i: usize) -> (k: TupleKey)
        requires
            i < self.relations@.len(),
        ensures
            k@ == self.key_at(i as int),
    {
        TupleKey {
            object_type: self.object_type.clone(),
            object_id: self.object_id.clone(),
            relation: self.relations[i].clone(),
            subject_type: self.subject_type.clone(),
            subject_id: self.subject_id.clone(),
        }
    }

    /// Starts the lookup: the first relation's key, or no answer for an empty list.
    pub fn begin(
        object_type: &str,
        object_id: &str,
        relations: &[String],
        subject_type: &str,
        subject_id: &str,
    ) -> (res: (BatchLookup, LookupStep))
        ensures
            res.0.object_type@ == object_type@,
            res.0.object_id@ == object_id@,
            res.0.relations@ == relations@,
            res.0.subject_type@ == subject_type@,
            res.0.subject_id@ == subject_id@,
            res.0.found@ == Seq::<Option<TupleView>>::empty(),
            relations@.len() == 0 ==> res.1 == LookupStep::Done(None),
            relations@.len() > 0 ==> {
                &&& res.0.asked == 1
                &&& res.0.awaiting()
                &&& res.1 is Lookup
                &&& res.1->Lookup_0@ == res.0.key_at(0)
            },
    {
        let mut rels: Vec<String> = Vec::new();
        let mut i: usize = 0;
        while i < relations.len()
            invariant
                i <= relations@.len(),
                rels@ == relations@.take(i as int),
            decreases relations@.len() - i,
        {
            rels.push(relations[i].clone());
            assert(rels@ =~= relations@.take(i + 1));
            i = i + 1;
        }
        assert(rels@ =~= relations@);
        let mut this = BatchLookup {
            object_type: String::from_str(object_type),
            object_id: String::from_str(object_id),
            relations: rels,
            subject_type: String::from_str(subject_type),
            subject_id: String::from_str(subject_id),
            asked: 0,
            found: Ghost(Seq::empty()),
        };
        if this.relations.len() == 0 {
            (this, LookupStep::Done(None))
        } else {
            let k = this.key_for(0);
            this.asked = 1;
            (this, LookupStep::Lookup(k))
        }
    }

    /// Resumes with the result of the awaited lookup: a tuple found is the answer;
    /// otherwise the next relation's key is looked up, and after the last relation
    /// there is no answer. Whenever it answers, the answer is the first tuple that
    /// the lookups, in relation order, found, and no answer means that every
    /// relation was looked up and found nothing.
    pub fn resume(&mut self, found: Option<Tuple>) -> (step: LookupStep)
        requires
            old(self).awaiting(),
        ensures
            final(self).object_type == old(self).object_type,
            final(self).object_id == old(self).object_id,
            final(self).relations == old(self).relations,
            final(self).subject_type == old(self).subject_type,
            final(self).subject_id == old(self).subject_id,
            final(self).found@ == old(self).found@.push(found_view(found)),
            found is Some ==> step == LookupStep::Done(found),
            found is None && old(self).asked < old(self).relations@.len() ==> {
                &&& step is Lookup
                &&& step->Lookup_0@ == old(self).key_at(old(self).asked as int)
                &&& final(self).asked == old(self).asked + 1
                &&& final(self).awaiting()
            },
            found is None && old(self).asked == old(self).relations@.len() ==> step
                == LookupStep::Done(None),
            step matches LookupStep::Done(answer) ==> {
                &&& found_view(answer) == first_found(final(self).found@)
                &&& answer is None ==> final(self).found@.len() == final(self).relations@.len()
            },
    {
        proof {
            lemma_first_found_push(self.found@, found_view(found));
        }
        let ghost seen = self.found@.push(found_view(found));
        match found {
            Some(t) => {
                self.found = Ghost(seen);
                LookupStep::Done(Some(t))
            },
            None => {
                self.found = Ghost(seen);
                if self.asked < self.relations.len() {
                    let k = self.key_for(self.asked);
                    self.asked = self.asked + 1;
                    LookupStep::Lookup(k)
                } else {
                    LookupStep::Done(None)
                }
            },
        }
    }
}

} // verus!
