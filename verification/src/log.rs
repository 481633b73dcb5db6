//! Structured log records: one flat JSON object per event, whose top-level
//! keys are the event's kind (under `event`) and its fields.

use vstd::prelude::*;
use crate::json::{JsonObject, json_entries, json_object_insert, json_object_into_entries, json_object_new, json_string, json_text};

verus! {

/// The key under which a record names its kind.
pub const EVENT_KEY: &'static str = "event";

/// The entries of the fields of an event; fields that are not an object
/// (`None`) have none.
pub open spec fn field_entries(fields: Option<JsonObject>) -> Map<
    Seq<char>,
    serde_json::Value,
> {
    match fields {
        Some(m) => json_entries(m),
        None => Map::empty(),
    }
}

/// The record of an event: the kind under `event`, and every field, a field
/// with the key `event` replacing the kind.
pub open spec fn event_record(kind: Seq<char>, fields: Map<Seq<char>, serde_json::Value>) -> Map<
    Seq<char>,
    serde_json::Value,
> {
    map![EVENT_KEY@ => json_text(kind)].union_prefer_right(fields)
}

/// Builds the record of an event of kind `kind` with the fields of `fields`
/// (`None` when the fields given are not a JSON object).
pub fn event(kind: &str, fields: Option<JsonObject>) -> (record:
    JsonObject)
    ensures
        json_entries(record) == event_record(kind@, field_entries(fields)),
{
    let mut record = json_object_new();
    let _ = json_object_insert(
        &mut record,
        String::from_str(EVENT_KEY),
        json_string(String::from_str(kind)),
    );
    let ghost start = json_entries(record);
    assert(start =~= map![EVENT_KEY@ => json_text(kind@)]);
    match fields {
        None => {
            assert(event_record(kind@, field_entries(fields)) =~= start);
            record
        },
        Some(map) => {
            let ghost fm = json_entries(map);
            let entries = json_object_into_entries(map);
            let ghost es = entries@;
            let mut rest = entries;
            let ghost mut done: int = 0;
            while rest.len() > 0
                invariant
                    0 <= done <= es.len(),
                    rest@ == es.skip(done),
                    forall|i: int, j: int|
                        0 <= i < j < es.len() ==> #[trigger] es[i].0@ != #[trigger] es[j].0@,
                    forall|i: int|
                        0 <= i < es.len() ==> #[trigger] fm.dom().contains(es[i].0@) && fm[es[i].0@]
                            == es[i].1,
                    forall|k: Seq<char>|
                        #[trigger] json_entries(record).dom().contains(k) <==> (k == EVENT_KEY@
                            || exists|i: int| 0 <= i < done && #[trigger] es[i].0@ == k),
                    forall|i: int|
                        0 <= i < done ==> #[trigger] json_entries(record)[es[i].0@] == es[i].1,
                    (forall|i: int| 0 <= i < done ==> #[trigger] es[i].0@ != EVENT_KEY@)
                        ==> json_entries(record)[EVENT_KEY@] == json_text(kind@),
                decreases rest@.len(),
            {
                let ghost before = json_entries(record);
                let ghost old_rest = rest@;
                let (k, v) = rest.remove(0);
                assert(old_rest[0] == es[done]);
                assert(rest@ =~= es.skip(done + 1));
                let _ = json_object_insert(&mut record, k, v);
                assert(json_entries(record) == before.insert(es[done].0@, es[done].1));
                assert forall|k2: Seq<char>| #[trigger]
                    json_entries(record).dom().contains(k2) <==> (k2 == EVENT_KEY@ || exists|i: int|
                        0 <= i < done + 1 && #[trigger] es[i].0@ == k2) by {
                    if json_entries(record).dom().contains(k2) && k2 != EVENT_KEY@ && k2
                        != es[done].0@ {
                        assert(before.dom().contains(k2));
                    }
                    if k2 == es[done].0@ {
                        assert(json_entries(record).dom().contains(k2));
                    }
                }
                assert forall|i: int| 0 <= i < done + 1 implies #[trigger] json_entries(record)[es[
                    i
                ].0@] == es[i].1 by {
                    if i < done {
                        assert(es[i].0@ != es[done].0@);
                    }
                }
                proof {
                    done = done + 1;
                }
            }
            assert(json_entries(record) =~= event_record(kind@, fm)) by {
                assert forall|k: Seq<char>| #[trigger]
                    json_entries(record).dom().contains(k) <==> event_record(
                        kind@,
                        fm,
                    ).dom().contains(k) by {
                    if fm.dom().contains(k) {
                        let i = choose|i: int| 0 <= i < es.len() && #[trigger] es[i].0@ == k;
                    }
                    if exists|i: int| 0 <= i < done && #[trigger] es[i].0@ == k {
                        let i = choose|i: int| 0 <= i < done && #[trigger] es[i].0@ == k;
                        assert(fm.dom().contains(es[i].0@));
                    }
                }
                assert forall|k: Seq<char>| #[trigger]
                    json_entries(record).dom().contains(k) implies json_entries(record)[k]
                    == event_record(kind@, fm)[k] by {
                    if fm.dom().contains(k) {
                        let i = choose|i: int| 0 <= i < es.len() && #[trigger] es[i].0@ == k;
                        assert(json_entries(record)[es[i].0@] == es[i].1);
                    } else {
                        assert forall|i: int| 0 <= i < done implies #[trigger] es[i].0@
                            != EVENT_KEY@ by {
                            assert(fm.dom().contains(es[i].0@));
                        }
                    }
                }
            }
            record
        },
    }
}

} // verus!
