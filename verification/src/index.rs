//! The content index: an append-only, per-hub ledger of publish events.
//!
//! Entries are only ever appended, never rewritten or removed, so the
//! publish order of a hub can be reconstructed later.

use vstd::prelude::*;
use crate::addr::Address;
use crate::records::HubContent;
use crate::records::HubContentV;

verus! {

/// A content index entry together with the address it was created at.
pub struct ContentEntry {
    pub address: Address,
    pub record: HubContent,
}

#[verifier::ext_equal]
pub struct ContentEntryV {
    pub address: Seq<u8>,
    pub record: HubContentV,
}

impl View for ContentEntry {
    type V = ContentEntryV;

    open spec fn view(&self) -> ContentEntryV {
        ContentEntryV { address: self.address@, record: self.record@ }
    }
}

/// An entry exists at this address.
pub open spec fn has_content_addr(s: Seq<ContentEntryV>, a: Seq<u8>) -> bool {
    exists|i: int| 0 <= i < s.len() && (#[trigger] s[i]).address == a
}

/// The index is ordered by timestamp: an entry never carries an earlier
/// timestamp than one before it (ties broken by append order).
pub open spec fn content_sorted(s: Seq<ContentEntryV>) -> bool {
    forall|i: int, j: int|
        0 <= i <= j < s.len() ==> (#[trigger] s[i]).record.datetime
            <= (#[trigger] s[j]).record.datetime
}

/// The append-only content index.
pub struct ContentIndex {
    entries: Vec<ContentEntry>,
}

impl View for ContentIndex {
    type V = Seq<ContentEntryV>;

    closed spec fn view(&self) -> Seq<ContentEntryV> {
        self.entries@.map_values(|e: ContentEntry| e@)
    }
}

impl ContentIndex {
    pub fn new() -> (r: ContentIndex)
        ensures
            r@.len() == 0,
    {
        ContentIndex { entries: Vec::new() }
    }

    pub fn len(&self) -> (r: usize)
        ensures
            r == self@.len(),
    {
        self.entries.len()
    }

    pub fn entry_at(&self, i: usize) -> (r: &ContentEntry)
        requires
            i < self@.len(),
        ensures
            r@ == self@[i as int],
    {
        &self.entries[i]
    }

    /// Is an entry already stored at this address?
    pub fn contains_address(&self, a: &Address) -> (r: bool)
        ensures
            r == has_content_addr(self@, a@),
    {
        let mut i: usize = 0;
        while i < self.entries.len()
            invariant
                0 <= i <= self.entries.len(),
                forall|j: int| 0 <= j < i ==> (#[trigger] self@[j]).address != a@,
            decreases self.entries.len() - i,
        {
            if self.entries[i].address.equals(a) {
                proof {
                    assert(self@[i as int].address == a@);
                }
                return true;
            }
            i += 1;
        }
        false
    }

    /// Append one new entry. Nothing already indexed is touched: the new
    /// ledger is the old one with the entry at its end.
    pub fn append(&mut self, e: ContentEntry)
        ensures
            final(self)@ == old(self)@.push(e@),
    {
        let ghost before = self@;
        let ghost ev = e@;
        self.entries.push(e);
        proof {
            assert(self@ =~= before.push(ev));
        }
    }
}

} // verus!
