use vstd::prelude::*;

use crate::json::{array_member, str_member, JsonValue};
use crate::text::{contains, contains_text, lemma_empty_is_contained, lower_of, lowercase};

verus! {

/// The string member `key` of `item`, lower-cased, holds `q`. A missing or
/// non-string member does not match.
pub open spec fn field_matches(item: JsonValue, key: Seq<char>, q: Seq<char>) -> bool {
    match str_member(item, key) {
        Some(s) => contains_text(lower_of(s), q),
        None => false,
    }
}

/// `title`, `syntax` or `category` of `item` holds the lower-cased query `q`.
pub open spec fn item_matches(item: JsonValue, q: Seq<char>) -> bool {
    field_matches(item, "title"@, q) || field_matches(item, "syntax"@, q) || field_matches(
        item,
        "category"@,
        q,
    )
}

/// At least one of `title`, `syntax` and `category` of `item` is a string.
pub open spec fn has_text_field(item: JsonValue) -> bool {
    str_member(item, "title"@).is_some() || str_member(item, "syntax"@).is_some() || str_member(
        item,
        "category"@,
    ).is_some()
}

/// The items that match `q`, in their original order.
pub open spec fn matching(items: Seq<JsonValue>, q: Seq<char>) -> Seq<JsonValue>
    decreases items.len(),
{
    if items.len() == 0 {
        Seq::empty()
    } else {
        let rest = matching(items.drop_last(), q);
        if item_matches(items.last(), q) {
            rest.push(items.last())
        } else {
            rest
        }
    }
}

/// The items that have a string `title`, `syntax` or `category`, in order.
pub open spec fn text_items(items: Seq<JsonValue>) -> Seq<JsonValue>
    decreases items.len(),
{
    if items.len() == 0 {
        Seq::empty()
    } else {
        let rest = text_items(items.drop_last());
        if has_text_field(items.last()) {
            rest.push(items.last())
        } else {
            rest
        }
    }
}

/// The `results` array of a document; empty where it is missing or not an array.
pub open spec fn results_of(doc: JsonValue) -> Seq<JsonValue> {
    array_member(doc, "results"@)
}

/// The values that a sequence of references points at.
pub open spec fn derefs(s: Seq<&JsonValue>) -> Seq<JsonValue> {
    s.map_values(|x: &JsonValue| *x)
}

/// The items of a document that a search keeps, and how many there are.
pub struct SearchOutcome<'a> {
    pub results: Vec<&'a JsonValue>,
    pub count: usize,
}

impl<'a> SearchOutcome<'a> {
    /// The count is the number of results.
    pub open spec fn well_formed(&self) -> bool {
        self.count == self.results@.len()
    }

    /// The items found.
    pub open spec fn found(&self) -> Seq<JsonValue> {
        derefs(self.results@)
    }
}

fn field_matches_lowered(item: &JsonValue, key: &str, q_lower: &str) -> (r: bool)
    ensures
        r == field_matches(*item, key@, q_lower@),
{
    match item.get(key) {
        Some(v) => match v.as_str() {
            Some(s) => {
                let folded = lowercase(s.as_str());
                contains(folded.as_str(), q_lower)
            },
            None => false,
        },
        None => false,
    }
}

/// Whether an item matches a query that is already lower-case.
pub fn item_matches_lowered(item: &JsonValue, q_lower: &str) -> (r: bool)
    ensures
        r == item_matches(*item, q_lower@),
{
    field_matches_lowered(item, "title", q_lower) || field_matches_lowered(item, "syntax", q_lower)
        || field_matches_lowered(item, "category", q_lower)
}

/// The items of the document's `results` array that match a query that is
/// already lower-case, in their order there.
pub fn search_lowered<'a>(doc: &'a JsonValue, q_lower: &str) -> (r: SearchOutcome<'a>)
    ensures
        r.well_formed(),
        r.found() == matching(results_of(*doc), q_lower@),
{
    let mut out: Vec<&'a JsonValue> = Vec::new();
    let items_opt = match doc.get("results") {
        Some(v) => v.as_array(),
        None => None,
    };
    match items_opt {
        Some(items) => {
            let mut i: usize = 0;
            while i < items.len()
                invariant
                    i <= items@.len(),
                    results_of(*doc) == items@,
                    derefs(out@) == matching(items@.subrange(0, i as int), q_lower@),
                decreases items.len() - i,
            {
                let ghost pre = items@.subrange(0, i + 1);
                assert(pre.drop_last() =~= items@.subrange(0, i as int));
                assert(pre.last() == items@[i as int]);
                let item = &items[i];
                if item_matches_lowered(item, q_lower) {
                    let ghost before = out@;
                    out.push(item);
                    assert(derefs(out@) =~= derefs(before).push(*item));
                }
                i = i + 1;
            }
            assert(items@.subrange(0, items@.len() as int) =~= items@);
        },
        None => {
            assert(derefs(out@) =~= Seq::<JsonValue>::empty());
        },
    }
    let count = out.len();
    SearchOutcome { results: out, count }
}

/// With the empty query, exactly the items with a string `title`, `syntax` or
/// `category` match.
pub proof fn lemma_empty_query_keeps_text_items(items: Seq<JsonValue>)
    ensures
        matching(items, Seq::empty()) == text_items(items),
    decreases items.len(),
{
    if items.len() > 0 {
        lemma_empty_query_keeps_text_items(items.drop_last());
        let it = items.last();
        match str_member(it, "title"@) {
            Some(s) => lemma_empty_is_contained(lower_of(s)),
            None => {},
        }
        match str_member(it, "syntax"@) {
            Some(s) => lemma_empty_is_contained(lower_of(s)),
            None => {},
        }
        match str_member(it, "category"@) {
            Some(s) => lemma_empty_is_contained(lower_of(s)),
            None => {},
        }
        assert(item_matches(it, Seq::empty()) == has_text_field(it));
    }
}

proof fn lemma_matching_exact(items: Seq<JsonValue>, q: Seq<char>)
    ensures
        forall|k: int|
            0 <= k < matching(items, q).len() ==> #[trigger] item_matches(matching(items, q)[k], q),
        forall|k: int|
            0 <= k < items.len() && item_matches(items[k], q) ==> #[trigger] matching(
                items,
                q,
            ).contains(items[k]),
    decreases items.len(),
{
    if items.len() > 0 {
        let init = items.drop_last();
        lemma_matching_exact(init, q);
        let rest = matching(init, q);
        assert forall|k: int| 0 <= k < items.len() && item_matches(items[k], q) implies #[trigger] matching(
            items,
            q,
        ).contains(items[k]) by {
            if k < items.len() - 1 {
                assert(init[k] == items[k]);
                assert(rest.contains(init[k]));
                let j = choose|j: int| 0 <= j < rest.len() && rest[j] == init[k];
                if item_matches(items.last(), q) {
                    assert(rest.push(items.last())[j] == items[k]);
                }
            } else {
                assert(matching(items, q).last() == items[k]);
            }
        }
    }
}

/// Every item that a search keeps matches the query, and every item of the
/// document's `results` that it leaves out has no `title`, `syntax` or
/// `category` that holds the lower-cased query.
pub proof fn lemma_search_keeps_exactly_the_matches(doc: JsonValue, query: Seq<char>)
    ensures
        forall|k: int|
            0 <= k < matching(results_of(doc), lower_of(query)).len() ==> #[trigger] item_matches(
                matching(results_of(doc), lower_of(query))[k],
                lower_of(query),
            ),
        forall|k: int|
            0 <= k < results_of(doc).len() && !matching(results_of(doc), lower_of(query)).contains(
                #[trigger] results_of(doc)[k],
            ) ==> {
                &&& !field_matches(results_of(doc)[k], "title"@, lower_of(query))
                &&& !field_matches(results_of(doc)[k], "syntax"@, lower_of(query))
                &&& !field_matches(results_of(doc)[k], "category"@, lower_of(query))
            },
{
    lemma_matching_exact(results_of(doc), lower_of(query));
}

/// The items of the document's `results` array whose `title`, `syntax` or
/// `category` holds the query, ignoring case, in their order there.
pub fn search<'a>(doc: &'a JsonValue, query: &str) -> (r: SearchOutcome<'a>)
    ensures
        r.well_formed(),
        r.found() == matching(results_of(*doc), lower_of(query@)),
        query@.len() == 0 ==> r.found() == text_items(results_of(*doc)),
{
    let q_lower = lowercase(query);
    let r = search_lowered(doc, q_lower.as_str());
    proof {
        if query@.len() == 0 {
            assert(q_lower@ =~= Seq::<char>::empty());
            lemma_empty_query_keeps_text_items(results_of(*doc));
        }
    }
    r
}

} // verus!
