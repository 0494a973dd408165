//! A typed, content-addressed payload unit.

use vstd::prelude::*;
use std::collections::hash_map::DefaultHasher;
use std::hash::Hasher;
use crate::digest::{digest_of, feed_str, str_writes};

verus! {

/// The mathematical value of an [`Entry`]: its two fields as character
/// sequences.
pub ghost struct EntryView {
    pub entry_type: Seq<char>,
    pub content: Seq<char>,
}

/// The digest identifying an entry: a pure function of its type tag and
/// its content, in that fixed order.
pub open spec fn entry_digest(entry_type: Seq<char>, content: Seq<char>) -> u64 {
    digest_of(str_writes(entry_type) + str_writes(content))
}

/// A typed payload unit. Immutable once constructed; any strings, empty ones
/// included, are a valid type tag and a valid content.
pub struct Entry {
    entry_type: String,
    content: String,
}

impl View for Entry {
    type V = EntryView;

    closed spec fn view(&self) -> EntryView {
        EntryView { entry_type: self.entry_type@, content: self.content@ }
    }
}

impl Clone for Entry {
    fn clone(&self) -> (e: Self)
        ensures
            e == *self,
    {
        Entry { entry_type: self.entry_type.clone(), content: self.content.clone() }
    }
}

impl Entry {
    /// Stores the two strings as given; no validation is needed, since every
    /// pair of strings is a valid entry.
    pub fn new(entry_type: &str, content: &str) -> (e: Entry)
        ensures
            e@.entry_type == entry_type@,
            e@.content == content@,
    {
        Entry { entry_type: entry_type.to_owned(), content: content.to_owned() }
    }

    /// The entry's type tag.
    pub fn entry_type(&self) -> (t: String)
        ensures
            t@ == self@.entry_type,
    {
        self.entry_type.clone()
    }

    /// The entry's payload.
    pub fn content(&self) -> (c: String)
        ensures
            c@ == self@.content,
    {
        self.content.clone()
    }

    /// Whether the entry carries the given type tag.
    pub fn has_type(&self, entry_type: &str) -> (r: bool)
        ensures
            r == (self@.entry_type == entry_type@),
    {
        self.entry_type == entry_type.to_owned()
    }

    /// The entry's content-addressing digest, over its type tag and its
    /// content. A pure function of the entry's value: repeated calls, and
    /// calls on an independently constructed equal entry, return the same
    /// digest.
    pub fn hash(&self) -> (h: u64)
        ensures
            h == entry_digest(self@.entry_type, self@.content),
    {
        let mut hasher = DefaultHasher::new();
        feed_str(&mut hasher, self.entry_type.as_str());
        feed_str(&mut hasher, self.content.as_str());
        proof {
            assert(hasher@ =~= str_writes(self@.entry_type) + str_writes(self@.content));
        }
        hasher.finish()
    }
}

/// Law: the entry digest is determined by the entry's two fields alone, so
/// two entries constructed with identical type and content have the same
/// digest, however and whenever each was built.
pub proof fn lemma_entry_digest_deterministic(e1: EntryView, e2: EntryView)
    requires
        e1.entry_type == e2.entry_type,
        e1.content == e2.content,
    ensures
        entry_digest(e1.entry_type, e1.content) == entry_digest(e2.entry_type, e2.content),
{
}

} // verus!
