//! Relationship tuples, the filters that select them, and the shapes in
//! which they arrive (request bodies) or come back (table rows).

use vstd::prelude::*;

verus! {

/// The five columns that identify a tuple in the table.
pub type TupleKeyView = (Seq<char>, Seq<char>, Seq<char>, Seq<char>, Seq<char>);

/// Mathematical view of a relationship tuple
/// `object_type:object_id#relation@subject_type:subject_id`,
/// with the name of the condition that guards it, if any.
pub struct TupleView {
    pub object_type: Seq<char>,
    pub object_id: Seq<char>,
    pub relation: Seq<char>,
    pub subject_type: Seq<char>,
    pub subject_id: Seq<char>,
    pub condition: Option<Seq<char>>,
}

impl TupleView {
    /// The identifying columns of the tuple (everything but the condition).
    pub open spec fn key(self) -> TupleKeyView {
        (self.object_type, self.object_id, self.relation, self.subject_type, self.subject_id)
    }
}

/// A relationship tuple.
#[derive(Debug, PartialEq)]
pub struct Tuple {
    pub object_type: String,
    pub object_id: String,
    pub relation: String,
    pub subject_type: String,
    pub subject_id: String,
    pub condition: Option<String>,
}

impl View for Tuple {
    type V = TupleView;

    open spec fn view(&self) -> TupleView {
        TupleView {
            object_type: self.object_type@,
            object_id: self.object_id@,
            relation: self.relation@,
            subject_type: self.subject_type@,
            subject_id: self.subject_id@,
            condition: self.condition.deep_view(),
        }
    }
}

impl Tuple {
    /// A copy of the tuple with the same view.
    pub fn duplicate(&self) -> (res: Tuple)
        ensures
            res@ == self@,
    {
        Tuple {
            object_type: self.object_type.clone(),
            object_id: self.object_id.clone(),
            relation: self.relation.clone(),
            subject_type: self.subject_type.clone(),
            subject_id: self.subject_id.clone(),
            condition: match &self.condition {
                Some(c) => Some(c.clone()),
                None => None,
            },
        }
    }
}

/// A tuple as it arrives in a JSON request body (`condition` may be absent).
#[derive(Debug, PartialEq)]
pub struct TupleBody {
    pub object_type: String,
    pub object_id: String,
    pub relation: String,
    pub subject_type: String,
    pub subject_id: String,
    pub condition: Option<String>,
}

/// The view of a request body: the tuple it describes.
pub open spec fn body_view(b: TupleBody) -> TupleView {
    TupleView {
        object_type: b.object_type@,
        object_id: b.object_id@,
        relation: b.relation@,
        subject_type: b.subject_type@,
        subject_id: b.subject_id@,
        condition: b.condition.deep_view(),
    }
}

impl From<TupleBody> for Tuple {
    fn from(b: TupleBody) -> (t: Tuple)
        ensures
            t.object_type == b.object_type,
            t.object_id == b.object_id,
            t.relation == b.relation,
            t.subject_type == b.subject_type,
            t.subject_id == b.subject_id,
            t.condition == b.condition,
    {
        Tuple {
            object_type: b.object_type,
            object_id: b.object_id,
            relation: b.relation,
            subject_type: b.subject_type,
            subject_id: b.subject_id,
            condition: b.condition,
        }
    }
}

impl vstd::std_specs::convert::FromSpecImpl<TupleBody> for Tuple {
    open spec fn obeys_from_spec() -> bool {
        true
    }

    open spec fn from_spec(b: TupleBody) -> Tuple {
        Tuple {
            object_type: b.object_type,
            object_id: b.object_id,
            relation: b.relation,
            subject_type: b.subject_type,
            subject_id: b.subject_id,
            condition: b.condition,
        }
    }
}


/// A tuple as it comes back from the table.
#[derive(Debug, PartialEq)]
pub struct TupleRow {
    pub object_type: String,
    pub object_id: String,
    pub relation: String,
    pub subject_type: String,
    pub subject_id: String,
    pub condition: Option<String>,
}

impl From<TupleRow> for Tuple {
    fn from(r: TupleRow) -> (t: Tuple)
        ensures
            t.object_type == r.object_type,
            t.object_id == r.object_id,
            t.relation == r.relation,
            t.subject_type == r.subject_type,
            t.subject_id == r.subject_id,
            t.condition == r.condition,
    {
        Tuple {
            object_type: r.object_type,
            object_id: r.object_id,
            relation: r.relation,
            subject_type: r.subject_type,
            subject_id: r.subject_id,
            condition: r.condition,
        }
    }
}

impl vstd::std_specs::convert::FromSpecImpl<TupleRow> for Tuple {
    open spec fn obeys_from_spec() -> bool {
        true
    }

    open spec fn from_spec(r: TupleRow) -> Tuple {
        Tuple {
            object_type: r.object_type,
            object_id: r.object_id,
            relation: r.relation,
            subject_type: r.subject_type,
            subject_id: r.subject_id,
            condition: r.condition,
        }
    }
}

/// The view of a row: the tuple it stores.
pub open spec fn row_view(r: TupleRow) -> TupleView {
    TupleView {
        object_type: r.object_type@,
        object_id: r.object_id@,
        relation: r.relation@,
        subject_type: r.subject_type@,
        subject_id: r.subject_id@,
        condition: r.condition.deep_view(),
    }
}

/// Law: the tuple made from a row holds the row's six columns, its condition
/// included; so does the tuple made from a request body.
pub proof fn lemma_tuple_from_row_and_body(r: TupleRow, b: TupleBody)
    ensures
        <Tuple as vstd::std_specs::convert::FromSpec<TupleRow>>::obeys_from_spec(),
        ({
            let t = <Tuple as vstd::std_specs::convert::FromSpec<TupleRow>>::from_spec(r);
            &&& t.object_type == r.object_type
            &&& t.object_id == r.object_id
            &&& t.relation == r.relation
            &&& t.subject_type == r.subject_type
            &&& t.subject_id == r.subject_id
            &&& t.condition == r.condition
            &&& t@.condition == r.condition.deep_view()
        }),
        <Tuple as vstd::std_specs::convert::FromSpec<TupleBody>>::obeys_from_spec(),
        ({
            let t = <Tuple as vstd::std_specs::convert::FromSpec<TupleBody>>::from_spec(b);
            &&& t.object_type == b.object_type
            &&& t.object_id == b.object_id
            &&& t.relation == b.relation
            &&& t.subject_type == b.subject_type
            &&& t.subject_id == b.subject_id
            &&& t.condition == b.condition
            &&& t@.condition == b.condition.deep_view()
        }),
{
}

/// Turns the rows of a result set into tuples, in the same order.
pub fn tuples_from_rows(rows: Vec<TupleRow>) -> (res: Vec<Tuple>)
    ensures
        res@.len() == rows@.len(),
        forall|i: int| 0 <= i < rows@.len() ==> #[trigger] res@[i]@ == row_view(rows@[i]),
        forall|i: int|
            0 <= i < rows@.len() ==> {
                &&& #[trigger] res@[i].object_type == rows@[i].object_type
                &&& res@[i].object_id == rows@[i].object_id
                &&& res@[i].relation == rows@[i].relation
                &&& res@[i].subject_type == rows@[i].subject_type
                &&& res@[i].subject_id == rows@[i].subject_id
                &&& res@[i].condition == rows@[i].condition
            },
{
    let mut res: Vec<Tuple> = Vec::new();
    let mut rest = rows;
    let ghost all = rest@;
    while rest.len() > 0
        invariant
            res@.len() + rest@.len() == all.len(),
            forall|i: int| 0 <= i < res@.len() ==> #[trigger] res@[i]@ == row_view(all[i]),
            forall|i: int|
                0 <= i < res@.len() ==> {
                    &&& #[trigger] res@[i].object_type == all[i].object_type
                    &&& res@[i].object_id == all[i].object_id
                    &&& res@[i].relation == all[i].relation
                    &&& res@[i].subject_type == all[i].subject_type
                    &&& res@[i].subject_id == all[i].subject_id
                    &&& res@[i].condition == all[i].condition
                },
            rest@ == all.skip(res@.len() as int),
        decreases rest@.len(),
    {
        let r = rest.remove(0);
        let t: Tuple = Tuple::from(r);
        res.push(t);
        assert(rest@ == all.skip(res@.len() as int));
    }
    res
}

/// Turns the tuples of request bodies into tuples, in the same order.
pub fn tuples_from_bodies(bodies: Vec<TupleBody>) -> (res: Vec<Tuple>)
    ensures
        res@.len() == bodies@.len(),
        forall|i: int| 0 <= i < bodies@.len() ==> #[trigger] res@[i]@ == body_view(bodies@[i]),
        forall|i: int|
            0 <= i < bodies@.len() ==> {
                &&& #[trigger] res@[i].object_type == bodies@[i].object_type
                &&& res@[i].object_id == bodies@[i].object_id
                &&& res@[i].relation == bodies@[i].relation
                &&& res@[i].subject_type == bodies@[i].subject_type
                &&& res@[i].subject_id == bodies@[i].subject_id
                &&& res@[i].condition == bodies@[i].condition
            },
{
    let mut res: Vec<Tuple> = Vec::new();
    let mut rest = bodies;
    let ghost all = rest@;
    while rest.len() > 0
        invariant
            res@.len() + rest@.len() == all.len(),
            forall|i: int| 0 <= i < res@.len() ==> #[trigger] res@[i]@ == body_view(all[i]),
            forall|i: int|
                0 <= i < res@.len() ==> {
                    &&& #[trigger] res@[i].object_type == all[i].object_type
                    &&& res@[i].object_id == all[i].object_id
                    &&& res@[i].relation == all[i].relation
                    &&& res@[i].subject_type == all[i].subject_type
                    &&& res@[i].subject_id == all[i].subject_id
                    &&& res@[i].condition == all[i].condition
                },
            rest@ == all.skip(res@.len() as int),
        decreases rest@.len(),
    {
        let b = rest.remove(0);
        let t: Tuple = Tuple::from(b);
        res.push(t);
        assert(rest@ == all.skip(res@.len() as int));
    }
    res
}

/// The five identifying columns of a tuple.
#[derive(Debug, PartialEq)]
pub struct TupleKey {
    pub object_type: String,
    pub object_id: String,
    pub relation: String,
    pub subject_type: String,
    pub subject_id: String,
}

impl View for TupleKey {
    type V = TupleKeyView;

    open spec fn view(&self) -> TupleKeyView {
        (self.object_type@, self.object_id@, self.relation@, self.subject_type@, self.subject_id@)
    }
}

impl Tuple {
    /// The identifying columns of the tuple.
    pub fn key(&self) -> (k: TupleKey)
        ensures
            k@ == self@.key(),
    {
        TupleKey {
            object_type: self.object_type.clone(),
            object_id: self.object_id.clone(),
            relation: self.relation.clone(),
            subject_type: self.subject_type.clone(),
            subject_id: self.subject_id.clone(),
        }
    }
}

/// The view of a filter: a value for each column it constrains.
pub struct TupleFilterView {
    pub object_type: Option<Seq<char>>,
    pub object_id: Option<Seq<char>>,
    pub relation: Option<Seq<char>>,
    pub subject_type: Option<Seq<char>>,
    pub subject_id: Option<Seq<char>>,
}

/// Selects the tuples whose columns equal every value that is present.
#[derive(Debug, PartialEq)]
pub struct TupleFilter {
    pub object_type: Option<String>,
    pub object_id: Option<String>,
    pub relation: Option<String>,
    pub subject_type: Option<String>,
    pub subject_id: Option<String>,
}

impl View for TupleFilter {
    type V = TupleFilterView;

    open spec fn view(&self) -> TupleFilterView {
        TupleFilterView {
            object_type: self.object_type.deep_view(),
            object_id: self.object_id.deep_view(),
            relation: self.relation.deep_view(),
            subject_type: self.subject_type.deep_view(),
            subject_id: self.subject_id.deep_view(),
        }
    }
}

/// A constraint of a filter holds of a column value.
pub open spec fn column_matches(constraint: Option<Seq<char>>, value: Seq<char>) -> bool {
    match constraint {
        Some(c) => c == value,
        None => true,
    }
}

impl TupleFilterView {
    /// The tuple meets every constraint of the filter.
    pub open spec fn matches(self, t: TupleView) -> bool {
        &&& column_matches(self.object_type, t.object_type)
        &&& column_matches(self.object_id, t.object_id)
        &&& column_matches(self.relation, t.relation)
        &&& column_matches(self.subject_type, t.subject_type)
        &&& column_matches(self.subject_id, t.subject_id)
    }
}

impl Default for TupleFilter {
    /// The filter that constrains nothing.
    fn default() -> (f: TupleFilter)
        ensures
            f@.object_type is None,
            f@.object_id is None,
            f@.relation is None,
            f@.subject_type is None,
            f@.subject_id is None,
    {
        TupleFilter {
            object_type: None,
            object_id: None,
            relation: None,
            subject_type: None,
            subject_id: None,
        }
    }
}

} // verus!
