use vstd::prelude::*;

use crate::cache::CacheCell;
use crate::json::JsonValue;
use crate::query::{matching, results_of, search as search_document, SearchOutcome};
use crate::text::lower_of;

verus! {

/// The status sent while the cache is still empty.
pub const SERVICE_UNAVAILABLE: u16 = 503;

/// The refusal sent while the cache is still empty.
#[derive(Debug, PartialEq, Eq)]
pub struct Unavailable {
    pub status: u16,
    pub message: String,
}

impl Unavailable {
    /// Service unavailable, with the fixed explanation.
    pub open spec fn is_not_ready(&self) -> bool {
        self.status == SERVICE_UNAVAILABLE && self.message@ == "Cache not ready yet"@
    }
}

fn not_ready() -> (r: Unavailable)
    ensures
        r.is_not_ready(),
{
    Unavailable { status: SERVICE_UNAVAILABLE, message: String::from_str("Cache not ready yet") }
}

/// `/all`: the cached document as it is, or the refusal while there is none.
pub fn serve_all(cache: &CacheCell) -> (r: Result<&JsonValue, Unavailable>)
    ensures
        match r {
            Ok(d) => cache@ == Some(*d),
            Err(e) => cache@.is_none() && e.is_not_ready(),
        },
{
    match cache.read() {
        Some(d) => Ok(d),
        None => Err(not_ready()),
    }
}

/// `/search?q=...`: the search over the cached document, or the refusal while
/// there is none.
pub fn search<'a>(cache: &'a CacheCell, q: &str) -> (r: Result<SearchOutcome<'a>, Unavailable>)
    ensures
        match r {
            Ok(o) => {
                &&& cache@.is_some()
                &&& o.well_formed()
                &&& o.found() == matching(results_of(cache@.unwrap()), lower_of(q@))
            },
            Err(e) => cache@.is_none() && e.is_not_ready(),
        },
{
    match cache.read() {
        Some(d) => Ok(search_document(d, q)),
        None => Err(not_ready()),
    }
}

} // verus!
