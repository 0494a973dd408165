//! The chain contract: query the top record, query the top record of a
//! type, append a record.

use vstd::prelude::*;
use crate::entry::{Entry, EntryView};
use crate::header::{header_digest, header_view_for};
use crate::pair::{view_of_opt, Pair, PairView};

verus! {

/// The most recently appended record of a chain state, or `None` for an
/// empty chain.
pub open spec fn top_record(records: Seq<PairView>) -> Option<PairView> {
    if records.len() == 0 {
        Option::None
    } else {
        Option::Some(records.last())
    }
}

/// The most recently appended record whose entry carries the given type
/// tag, scanning from the newest record backward, or `None` when no record
/// of that type exists.
pub open spec fn top_of_type(records: Seq<PairView>, entry_type: Seq<char>) -> Option<PairView>
    decreases records.len(),
{
    if records.len() == 0 {
        Option::None
    } else if records.last().entry.entry_type == entry_type {
        Option::Some(records.last())
    } else {
        top_of_type(records.drop_last(), entry_type)
    }
}

/// The contract any chain store must satisfy to be substitutable: an
/// append-only sequence of committed records, queried through its top and
/// its top-of-type, and grown only by `push`.
pub trait SourceChain {
    /// The chain's committed records, oldest first.
    spec fn records(&self) -> Seq<PairView>;

    /// The most recently appended record, or `None` for an empty chain.
    /// A pure read: the chain is not changed.
    fn top(&self) -> (r: Option<Pair>)
        ensures
            view_of_opt(r) == top_record(self.records()),
    ;

    /// The most recently appended record whose entry carries the given type
    /// tag, or `None` when no such record exists. A pure read: the chain is
    /// not changed.
    fn top_type(&self, entry_type: &str) -> (r: Option<Pair>)
        ensures
            view_of_opt(r) == top_of_type(self.records(), entry_type@),
    ;

    /// Builds the correctly linked record for `entry` against the current
    /// chain state, appends it as the new top, and returns it. The returned
    /// record's header links to what was the top, and to what was the top of
    /// this entry's type, immediately before the append.
    fn push(&mut self, entry: &Entry) -> (r: Pair)
        ensures
            r@.header == header_view_for(old(self).records(), entry@),
            r@.entry == entry@,
            r@.well_formed(),
            final(self).records() == old(self).records().push(r@),
    ;
}

/// A chain state in which every record's header is exactly the header that
/// correct construction yields for its entry against the records before it.
/// This is the shape every chain grown only by `push` has.
pub open spec fn well_linked(records: Seq<PairView>) -> bool {
    forall|i: int|
        0 <= i < records.len() ==> #[trigger] records[i].header == header_view_for(
            records.take(i),
            records[i].entry,
        )
}

/// Law: an empty chain is well linked.
pub proof fn lemma_empty_well_linked()
    ensures
        well_linked(Seq::<PairView>::empty()),
{
}

/// Law: appending the correctly built record for any entry keeps a chain
/// well linked; so repeated appends, starting from the empty chain, produce
/// only well-linked histories.
pub proof fn lemma_push_preserves_well_linked(records: Seq<PairView>, e: EntryView)
    requires
        well_linked(records),
    ensures
        well_linked(records.push(PairView { header: header_view_for(records, e), entry: e })),
{
    let extended = records.push(PairView { header: header_view_for(records, e), entry: e });
    assert forall|i: int| 0 <= i < extended.len() implies #[trigger] extended[i].header
        == header_view_for(extended.take(i), extended[i].entry) by {
        if i < records.len() {
            assert(extended.take(i) =~= records.take(i));
        } else {
            assert(extended.take(i) =~= records);
        }
    }
}

/// Law: in a well-linked chain each record past the first holds the digest
/// of the header immediately before it, so the records form one strictly
/// ordered, digest-linked history.
pub proof fn lemma_well_linked_digest_chain(records: Seq<PairView>, i: int)
    requires
        well_linked(records),
        0 < i < records.len(),
    ensures
        records[i].header.next == Option::Some(header_digest(records[i - 1].header)),
{
    assert(records.take(i).last() == records[i - 1]);
}

} // verus!
