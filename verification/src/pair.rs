//! A bound header-and-entry unit: one committed chain record.

use vstd::prelude::*;
use crate::chain::SourceChain;
use crate::entry::{entry_digest, Entry, EntryView};
use crate::header::{header_view_for, Header, HeaderView};

verus! {

/// The mathematical value of a [`Pair`].
pub ghost struct PairView {
    pub header: HeaderView,
    pub entry: EntryView,
}

impl PairView {
    /// The binding invariant of a committed record: its header holds the
    /// digest of its own entry.
    pub open spec fn well_formed(self) -> bool {
        self.header.entry == entry_digest(self.entry.entry_type, self.entry.content)
    }
}

/// The views of an optional record, for contracts over `Option<Pair>`
/// results.
pub open spec fn view_of_opt(p: Option<Pair>) -> Option<PairView> {
    match p {
        Option::Some(q) => Option::Some(q@),
        Option::None => Option::None,
    }
}

/// One committed chain record: a header bound to the entry it was built
/// from. Immutable after construction.
pub struct Pair {
    header: Header,
    entry: Entry,
}

impl View for Pair {
    type V = PairView;

    closed spec fn view(&self) -> PairView {
        PairView { header: self.header@, entry: self.entry@ }
    }
}

impl Clone for Pair {
    fn clone(&self) -> (p: Self)
        ensures
            p == *self,
    {
        Pair { header: self.header.clone(), entry: self.entry.clone() }
    }
}

impl Pair {
    /// Builds the correctly linked header for `entry` against the chain's
    /// current state and bundles it with a copy of the entry. The returned
    /// record satisfies the binding invariant: its header holds the digest
    /// of its entry.
    pub fn new<C: SourceChain>(chain: &C, entry: &Entry) -> (p: Pair)
        ensures
            p@.header == header_view_for(chain.records(), entry@),
            p@.entry == entry@,
            p@.well_formed(),
    {
        Pair { header: Header::new(chain, entry), entry: entry.clone() }
    }

    /// Bundles an already built header with its entry. Only chain
    /// implementations use this, proving at the call that the header was
    /// built for this entry; the public construction path is [`Pair::new`].
    pub(crate) fn bind(header: Header, entry: Entry) -> (p: Pair)
        ensures
            p@.header == header@,
            p@.entry == entry@,
    {
        Pair { header, entry }
    }

    /// The record's header.
    pub fn header(&self) -> (h: Header)
        ensures
            h@ == self@.header,
    {
        self.header.clone()
    }

    /// The record's entry.
    pub fn entry(&self) -> (e: Entry)
        ensures
            e@ == self@.entry,
    {
        self.entry.clone()
    }
}

} // verus!
