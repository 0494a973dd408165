//! The in-memory reference implementation of the chain contract.

use vstd::prelude::*;
use crate::chain::{top_of_type, SourceChain};
use crate::entry::Entry;
use crate::header::{header_view_for, Header};
use crate::pair::{Pair, PairView};

verus! {

/// An in-memory chain: an ordered, append-only sequence of committed
/// records, oldest first, exclusively owned by this value. Reads have no
/// side effects; the only mutation is the append done by `push`.
pub struct MemChain {
    pairs: Vec<Pair>,
}

impl MemChain {
    /// An empty chain.
    pub fn new() -> (c: MemChain)
        ensures
            c.records() == Seq::<PairView>::empty(),
    {
        let c = MemChain { pairs: Vec::new() };
        proof {
            assert(c.records() =~= Seq::<PairView>::empty());
        }
        c
    }
}

impl SourceChain for MemChain {
    closed spec fn records(&self) -> Seq<PairView> {
        self.pairs@.map_values(|p: Pair| p@)
    }

    fn top(&self) -> (r: Option<Pair>) {
        if self.pairs.len() == 0 {
            Option::None
        } else {
            let p = self.pairs[self.pairs.len() - 1].clone();
            proof {
                assert(p@ == self.records().last());
            }
            Option::Some(p)
        }
    }

    fn top_type(&self, entry_type: &str) -> (r: Option<Pair>) {
        let mut i: usize = self.pairs.len();
        proof {
            assert(self.records().take(self.pairs@.len() as int) =~= self.records());
        }
        while i > 0
            invariant
                i <= self.pairs@.len(),
                top_of_type(self.records(), entry_type@) == top_of_type(
                    self.records().take(i as int),
                    entry_type@,
                ),
            decreases i,
        {
            i = i - 1;
            let candidate = self.pairs[i].entry();
            let ghost scanned = self.records().take(i as int + 1);
            proof {
                assert(scanned.last() == self.records()[i as int]);
                assert(scanned.drop_last() =~= self.records().take(i as int));
            }
            if candidate.has_type(entry_type) {
                let found = self.pairs[i].clone();
                proof {
                    assert(top_of_type(scanned, entry_type@) == Option::Some(found@));
                }
                return Option::Some(found);
            }
        }
        Option::None
    }

    fn push(&mut self, entry: &Entry) -> (r: Pair) {
        let next: Option<u64> = match self.top() {
            Option::Some(p) => Option::Some(p.header().hash()),
            Option::None => Option::None,
        };
        let entry_type = entry.entry_type();
        let type_next: Option<u64> = match self.top_type(entry_type.as_str()) {
            Option::Some(p) => Option::Some(p.header().hash()),
            Option::None => Option::None,
        };
        let header = Header::from_links(entry, next, type_next);
        proof {
            assert(header@ == header_view_for(self.records(), entry@));
        }
        let pair = Pair::bind(header, entry.clone());
        let stored = pair.clone();
        self.pairs.push(stored);
        proof {
            assert(self.records() =~= old(self).records().push(pair@));
        }
        pair
    }
}

} // verus!
