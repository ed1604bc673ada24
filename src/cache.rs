use vstd::prelude::*;

use crate::json::JsonValue;

verus! {

/// A slot that starts empty and takes one document, once, for good.
pub struct CacheCell {
    slot: Option<JsonValue>,
}

impl View for CacheCell {
    type V = Option<JsonValue>;

    closed spec fn view(&self) -> Option<JsonValue> {
        self.slot
    }
}

impl CacheCell {
    /// An empty cell.
    pub fn new() -> (r: CacheCell)
        ensures
            r@.is_none(),
    {
        CacheCell { slot: None }
    }

    /// Whether a document has been stored.
    pub fn is_ready(&self) -> (r: bool)
        ensures
            r == self@.is_some(),
    {
        self.slot.is_some()
    }

    /// The stored document, if any.
    pub fn read(&self) -> (r: Option<&JsonValue>)
        ensures
            match r {
                Some(d) => self@ == Some(*d),
                None => self@.is_none(),
            },
    {
        match &self.slot {
            Some(d) => Some(d),
            None => None,
        }
    }

    /// Stores `doc` into an empty cell and says so; a cell that already holds a
    /// document keeps it. Either way the cell afterwards holds the prior value
    /// or the new document, nothing else.
    pub fn store(&mut self, doc: JsonValue) -> (stored: bool)
        ensures
            stored == old(self)@.is_none(),
            stored ==> final(self)@ == Some(doc),
            !stored ==> final(self)@ == old(self)@,
            final(self)@ == old(self)@ || final(self)@ == Some(doc),
    {
        if self.slot.is_none() {
            self.slot = Some(doc);
            true
        } else {
            false
        }
    }
}

} // verus!
