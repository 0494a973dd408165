//! The immutable record binding an entry to its chain position.

use vstd::prelude::*;
use std::collections::hash_map::DefaultHasher;
use std::hash::Hasher;
use crate::chain::{top_of_type, top_record, SourceChain};
use crate::digest::{digest_of, feed_opt_u64, feed_str, feed_u64, opt_u64_writes, str_writes,
    u64_writes};
use crate::entry::{entry_digest, Entry, EntryView};
use crate::pair::PairView;

verus! {

/// The mathematical value of a [`Header`]: its six fields.
pub ghost struct HeaderView {
    /// The type tag copied from the bound entry.
    pub entry_type: Seq<char>,
    /// Timestamp; a placeholder, always empty until a timestamp provider
    /// exists.
    pub time: Seq<char>,
    /// Digest of the immediately preceding header; `None` only for the
    /// first record on the chain.
    pub next: Option<u64>,
    /// Digest of the bound entry.
    pub entry: u64,
    /// Digest of the most recent preceding header of the same type; `None`
    /// only for the first record of its type.
    pub type_next: Option<u64>,
    /// Signature; a placeholder, always empty until a signer exists.
    pub signature: Seq<char>,
}

/// The transcript a header's digest is computed over: the six fields, in
/// fixed order.
pub open spec fn header_writes(h: HeaderView) -> Seq<Seq<u8>> {
    str_writes(h.entry_type) + str_writes(h.time) + opt_u64_writes(h.next) + u64_writes(h.entry)
        + opt_u64_writes(h.type_next) + str_writes(h.signature)
}

/// The digest identifying a header: a pure function of all six fields.
pub open spec fn header_digest(h: HeaderView) -> u64 {
    digest_of(header_writes(h))
}

/// The header value that correct construction yields for `e` against the
/// chain state `records`: the entry's type and digest, links to the digests
/// of the current top and current top-of-type headers, and empty
/// placeholder time and signature.
pub open spec fn header_view_for(records: Seq<PairView>, e: EntryView) -> HeaderView {
    HeaderView {
        entry_type: e.entry_type,
        time: Seq::<char>::empty(),
        next: match top_record(records) {
            Option::Some(p) => Option::Some(header_digest(p.header)),
            Option::None => Option::None,
        },
        entry: entry_digest(e.entry_type, e.content),
        type_next: match top_of_type(records, e.entry_type) {
            Option::Some(p) => Option::Some(header_digest(p.header)),
            Option::None => Option::None,
        },
        signature: Seq::<char>::empty(),
    }
}

/// An immutable record binding an entry to its chain position through two
/// digest links. A header is only as valid as the chain state it was built
/// against: appending to the chain stales any header built earlier and not
/// yet pushed, so the safe pattern is to construct a header, wrap it, and
/// push it onto the same unmodified chain in one motion.
pub struct Header {
    entry_type: String,
    time: String,
    next: Option<u64>,
    entry: u64,
    type_next: Option<u64>,
    signature: String,
}

impl View for Header {
    type V = HeaderView;

    closed spec fn view(&self) -> HeaderView {
        HeaderView {
            entry_type: self.entry_type@,
            time: self.time@,
            next: self.next,
            entry: self.entry,
            type_next: self.type_next,
            signature: self.signature@,
        }
    }
}

impl Clone for Header {
    fn clone(&self) -> (h: Self)
        ensures
            h == *self,
    {
        Header {
            entry_type: self.entry_type.clone(),
            time: self.time.clone(),
            next: self.next,
            entry: self.entry,
            type_next: self.type_next,
            signature: self.signature.clone(),
        }
    }
}

/// Two headers are equal when their digests are equal. This is a deliberate
/// content-digest equality contract, not field-by-field comparison: distinct
/// field values whose digests collide would compare equal, a risk this
/// design accepts.
impl PartialEq for Header {
    fn eq(&self, other: &Header) -> (r: bool) {
        self.hash() == other.hash()
    }
}

impl vstd::std_specs::cmp::PartialEqSpecImpl for Header {
    open spec fn obeys_eq_spec() -> bool {
        true
    }

    open spec fn eq_spec(&self, other: &Header) -> bool {
        header_digest(self@) == header_digest(other@)
    }
}

impl Header {
    /// Builds the header for `entry` against the chain's current state:
    /// `next` is the digest of the current top header, or `None` for an
    /// empty chain; `type_next` is the digest of the most recent header of
    /// this entry's type, or `None` when no such record exists; `entry` is
    /// the entry's digest. Never fails, whatever the chain state.
    ///
    /// The result is valid only against the exact chain state given here:
    /// push it before the chain changes.
    pub fn new<C: SourceChain>(chain: &C, entry: &Entry) -> (h: Header)
        ensures
            h@ == header_view_for(chain.records(), entry@),
    {
        let next: Option<u64> = match chain.top() {
            Option::Some(p) => Option::Some(p.header().hash()),
            Option::None => Option::None,
        };
        let entry_type = entry.entry_type();
        let type_next: Option<u64> = match chain.top_type(entry_type.as_str()) {
            Option::Some(p) => Option::Some(p.header().hash()),
            Option::None => Option::None,
        };
        Header::from_links(entry, next, type_next)
    }

    /// Assembles a header from already computed links. Only chain
    /// implementations use this, proving at the call that the links match
    /// their state; the public construction path is [`Header::new`].
    pub(crate) fn from_links(entry: &Entry, next: Option<u64>, type_next: Option<u64>) -> (h:
        Header)
        ensures
            h@.entry_type == entry@.entry_type,
            h@.time == Seq::<char>::empty(),
            h@.next == next,
            h@.entry == entry_digest(entry@.entry_type, entry@.content),
            h@.type_next == type_next,
            h@.signature == Seq::<char>::empty(),
    {
        Header {
            entry_type: entry.entry_type(),
            time: String::new(),
            next,
            entry: entry.hash(),
            type_next,
            signature: String::new(),
        }
    }

    /// The type tag of the bound entry.
    pub fn entry_type(&self) -> (t: String)
        ensures
            t@ == self@.entry_type,
    {
        self.entry_type.clone()
    }

    /// The timestamp: always empty until a timestamp provider exists.
    pub fn time(&self) -> (t: String)
        ensures
            t@ == self@.time,
    {
        self.time.clone()
    }

    /// The digest of the immediately preceding header, or `None` for the
    /// first record on the chain.
    pub fn next(&self) -> (n: Option<u64>)
        ensures
            n == self@.next,
    {
        self.next
    }

    /// The digest of the bound entry.
    pub fn entry(&self) -> (e: u64)
        ensures
            e == self@.entry,
    {
        self.entry
    }

    /// The digest of the most recent preceding header of the same type, or
    /// `None` for the first record of its type.
    pub fn type_next(&self) -> (n: Option<u64>)
        ensures
            n == self@.type_next,
    {
        self.type_next
    }

    /// The signature: always empty until a signer exists.
    pub fn signature(&self) -> (s: String)
        ensures
            s@ == self@.signature,
    {
        self.signature.clone()
    }

    /// The header's identifying digest, over all six fields in fixed order.
    /// A pure function of the header's value: repeated calls return the
    /// same digest.
    pub fn hash(&self) -> (r: u64)
        ensures
            r == header_digest(self@),
    {
        let mut hasher = DefaultHasher::new();
        feed_str(&mut hasher, self.entry_type.as_str());
        feed_str(&mut hasher, self.time.as_str());
        feed_opt_u64(&mut hasher, &self.next);
        feed_u64(&mut hasher, self.entry);
        feed_opt_u64(&mut hasher, &self.type_next);
        feed_str(&mut hasher, self.signature.as_str());
        proof {
            assert(hasher@ =~= header_writes(self@));
        }
        hasher.finish()
    }

    /// Whether the header is valid: always true, since construction itself
    /// enforces the only invariants that currently exist. Richer validation
    /// (signatures, timestamps) belongs to future collaborators.
    pub fn validate(&self) -> (r: bool)
        ensures
            r,
    {
        true
    }
}

/// Law: a header built against an empty chain is a genesis header: both of
/// its links are absent, whatever its entry.
pub proof fn lemma_empty_chain_header_links(records: Seq<PairView>, e: EntryView)
    requires
        records.len() == 0,
    ensures
        header_view_for(records, e).next is None,
        header_view_for(records, e).type_next is None,
{
}

/// Law: the header built for an entry holds that entry's digest, whatever
/// the chain state.
pub proof fn lemma_header_binds_entry(records: Seq<PairView>, e: EntryView)
    ensures
        header_view_for(records, e).entry == entry_digest(e.entry_type, e.content),
{
}

/// Law: consecutive appends are digest-linked. When a record for `e1` is
/// appended to any chain state and a header for `e2` is then built, that
/// header's `next` link is the first header's digest; so is its `type_next`
/// link when the two entries share a type, while for differing types its
/// `type_next` link is what it would have been before the append.
pub proof fn lemma_push_links(records: Seq<PairView>, e1: EntryView, e2: EntryView)
    ensures
        ({
            let h1 = header_view_for(records, e1);
            let extended = records.push(PairView { header: h1, entry: e1 });
            let h2 = header_view_for(extended, e2);
            &&& h2.next == Option::Some(header_digest(h1))
            &&& e2.entry_type == e1.entry_type ==> h2.type_next == Option::Some(
                header_digest(h1),
            )
            &&& e2.entry_type != e1.entry_type ==> h2.type_next == header_view_for(
                records,
                e2,
            ).type_next
        }),
{
    let h1 = header_view_for(records, e1);
    let p1 = PairView { header: h1, entry: e1 };
    let extended = records.push(p1);
    assert(extended.last() == p1);
    assert(extended.drop_last() =~= records);
}

/// Law: the chain state enters a header's identity. Against an empty chain
/// the previous-header link is absent; against any non-empty chain it is
/// present; so the two header values built for one same entry differ. (That
/// their digests differ cannot be concluded here: the digest function is
/// opaque, and a collision between the two values cannot be ruled out.)
pub proof fn lemma_chain_state_enters_header(e: EntryView, records: Seq<PairView>)
    requires
        records.len() > 0,
    ensures
        header_view_for(Seq::<PairView>::empty(), e) != header_view_for(records, e),
{
    assert(header_view_for(Seq::<PairView>::empty(), e).next is None);
    assert(header_view_for(records, e).next is Some);
}

} // verus!
