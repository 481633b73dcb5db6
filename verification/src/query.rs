//! Reading a tuple filter and a tuple key out of the query string of a request.

use vstd::prelude::*;
use crate::tuple::{TupleFilter, TupleFilterView};

verus! {

pub const OBJECT_TYPE: &'static str = "object_type";

pub const OBJECT_ID: &'static str = "object_id";

pub const RELATION: &'static str = "relation";

pub const SUBJECT_TYPE: &'static str = "subject_type";

pub const SUBJECT_ID: &'static str = "subject_id";

/// The decoded `(name, value)` pairs of a query string, in order.
pub open spec fn pair_views(pairs: Seq<(String, String)>) -> Seq<(Seq<char>, Seq<char>)> {
    pairs.map_values(|p: (String, String)| (p.0@, p.1@))
}

/// The value of the last pair named `name`, if any (a later pair overrides an earlier one).
pub open spec fn last_value(pairs: Seq<(Seq<char>, Seq<char>)>, name: Seq<char>) -> Option<
    Seq<char>,
>
    decreases pairs.len(),
{
    if pairs.len() == 0 {
        None
    } else if pairs.last().0 == name {
        Some(pairs.last().1)
    } else {
        last_value(pairs.drop_last(), name)
    }
}

/// The filter a query string gives: each column constrained to the value of its
/// last pair; pairs with other names are ignored.
pub open spec fn query_filter(pairs: Seq<(Seq<char>, Seq<char>)>) -> TupleFilterView {
    TupleFilterView {
        object_type: last_value(pairs, OBJECT_TYPE@),
        object_id: last_value(pairs, OBJECT_ID@),
        relation: last_value(pairs, RELATION@),
        subject_type: last_value(pairs, SUBJECT_TYPE@),
        subject_id: last_value(pairs, SUBJECT_ID@),
    }
}

/// A value, or the empty string when absent.
pub open spec fn or_empty(v: Option<Seq<char>>) -> Seq<char> {
    match v {
        Some(s) => s,
        None => Seq::empty(),
    }
}

fn value_or_empty(v: &Option<String>) -> (s: String)
    ensures
        s@ == or_empty(v.deep_view()),
{
    match v {
        Some(x) => x.clone(),
        None => String::new(),
    }
}

/// The five column names are pairwise distinct.
proof fn lemma_names_distinct()
    ensures
        OBJECT_TYPE@ != OBJECT_ID@,
        OBJECT_TYPE@ != RELATION@,
        OBJECT_TYPE@ != SUBJECT_TYPE@,
        OBJECT_TYPE@ != SUBJECT_ID@,
        OBJECT_ID@ != RELATION@,
        OBJECT_ID@ != SUBJECT_TYPE@,
        OBJECT_ID@ != SUBJECT_ID@,
        RELATION@ != SUBJECT_TYPE@,
        RELATION@ != SUBJECT_ID@,
        SUBJECT_TYPE@ != SUBJECT_ID@,
{
        reveal_strlit("object_type");
        reveal_strlit("object_id");
        reveal_strlit("relation");
        reveal_strlit("subject_type");
        reveal_strlit("subject_id");
        assert(OBJECT_TYPE@.len() == 11);
        assert(OBJECT_ID@.len() == 9);
        assert(RELATION@.len() == 8);
        assert(SUBJECT_TYPE@.len() == 12);
        assert(SUBJECT_ID@.len() == 10);
        assert(OBJECT_TYPE@ != OBJECT_ID@ && OBJECT_TYPE@ != RELATION@ && OBJECT_TYPE@ != SUBJECT_TYPE@
            && OBJECT_TYPE@ != SUBJECT_ID@);
        assert(OBJECT_ID@ != RELATION@ && OBJECT_ID@ != SUBJECT_TYPE@ && OBJECT_ID@ != SUBJECT_ID@);
        assert(RELATION@ != SUBJECT_TYPE@ && RELATION@ != SUBJECT_ID@);
        assert(SUBJECT_TYPE@ != SUBJECT_ID@);
    }

/// Reads the filter of decoded query pairs, and the five key columns in the
/// order object type, object id, relation, subject type, subject id (the empty
/// string for a column that the pairs do not name).
pub fn filter_from_pairs(pairs: &Vec<(String, String)>) -> (res: (TupleFilter, [String; 5]))
    ensures
        res.0@ == query_filter(pair_views(pairs@)),
        res.1@[0]@ == or_empty(query_filter(pair_views(pairs@)).object_type),
        res.1@[1]@ == or_empty(query_filter(pair_views(pairs@)).object_id),
        res.1@[2]@ == or_empty(query_filter(pair_views(pairs@)).relation),
        res.1@[3]@ == or_empty(query_filter(pair_views(pairs@)).subject_type),
        res.1@[4]@ == or_empty(query_filter(pair_views(pairs@)).subject_id),
{
    let ghost pv = pair_views(pairs@);
    let n_object_type = String::from_str(OBJECT_TYPE);
    let n_object_id = String::from_str(OBJECT_ID);
    let n_relation = String::from_str(RELATION);
    let n_subject_type = String::from_str(SUBJECT_TYPE);
    let n_subject_id = String::from_str(SUBJECT_ID);
    let mut f = TupleFilter::default();
    let mut i: usize = 0;
    while i < pairs.len()
        invariant
            i <= pairs@.len(),
            pv == pair_views(pairs@),
            n_object_type@ == OBJECT_TYPE@,
            n_object_id@ == OBJECT_ID@,
            n_relation@ == RELATION@,
            n_subject_type@ == SUBJECT_TYPE@,
            n_subject_id@ == SUBJECT_ID@,
            f@ == query_filter(pv.take(i as int)),
        decreases pairs@.len() - i,
    {
        proof {
            lemma_names_distinct();
        }
        let (k, v) = &pairs[i];
        assert(pv[i as int] == (k@, v@));
        assert(pv.take(i + 1).drop_last() =~= pv.take(i as int));
        assert(pv.take(i + 1).last() == pv[i as int]);
        if *k == n_object_type {
            f.object_type = Some(v.clone());
        } else if *k == n_object_id {
            f.object_id = Some(v.clone());
        } else if *k == n_relation {
            f.relation = Some(v.clone());
        } else if *k == n_subject_type {
            f.subject_type = Some(v.clone());
        } else if *k == n_subject_id {
            f.subject_id = Some(v.clone());
        }
        assert(f@ == query_filter(pv.take(i + 1)));
        i = i + 1;
    }
    assert(pv.take(pairs@.len() as int) =~= pv);
    let keys = [
        value_or_empty(&f.object_type),
        value_or_empty(&f.object_id),
        value_or_empty(&f.relation),
        value_or_empty(&f.subject_type),
        value_or_empty(&f.subject_id),
    ];
    (f, keys)
}


/// The percent-decoded `(name, value)` pairs of a query string, in order.
pub uninterp spec fn form_pairs(query: Seq<char>) -> Seq<(Seq<char>, Seq<char>)>;

/// `form_urlencoded::parse` (as `url` re-exports it, the parser behind
/// `Url::query_pairs`): the percent-decoded pairs of an
/// `application/x-www-form-urlencoded` string, in order.
#[verifier::external_body]
pub(crate) fn decode_query(query: &str) -> (pairs: Vec<(String, String)>)
    ensures
        pair_views(pairs@) == form_pairs(query@),
{
    worker::url::form_urlencoded::parse(query.as_bytes()).map(
        |(k, v)| (k.into_owned(), v.into_owned()),
    ).collect()
}

/// Reads the filter of a query string, and the five key columns in the order
/// object type, object id, relation, subject type, subject id (the empty string
/// for a column that the query does not name).
pub fn filter_from_query(query: &str) -> (res: (TupleFilter, [String; 5]))
    ensures
        res.0@ == query_filter(form_pairs(query@)),
        res.1@[0]@ == or_empty(query_filter(form_pairs(query@)).object_type),
        res.1@[1]@ == or_empty(query_filter(form_pairs(query@)).object_id),
        res.1@[2]@ == or_empty(query_filter(form_pairs(query@)).relation),
        res.1@[3]@ == or_empty(query_filter(form_pairs(query@)).subject_type),
        res.1@[4]@ == or_empty(query_filter(form_pairs(query@)).subject_id),
{
    let pairs = decode_query(query);
    filter_from_pairs(&pairs)
}

} // verus!
