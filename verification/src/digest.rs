//! The digesting scheme shared by entries and headers.
//!
//! A record's digest is computed by feeding its fields, as byte writes, to
//! `std::collections::hash_map::DefaultHasher`, whose behaviour vstd models
//! as a transcript of writes (`Seq<Seq<u8>>`) folded by an uninterpreted
//! `spec_finish`. The functions here fix the byte encoding of each field
//! kind: a string contributes its UTF-8 bytes followed by a `0xff`
//! terminator, a `u64` its eight little-endian bytes, and an optional `u64`
//! a discriminant word followed, when present, by the value itself. Because
//! the transcript is a pure function of the fields, equal fields always give
//! equal digests, in every process and on every run.

use vstd::prelude::*;
use vstd::bytes::{spec_u64_to_le_bytes, u64_to_le_bytes};
use vstd::std_specs::hash::DefaultHasherAdditionalSpecFns;
use vstd::utf8::encode_utf8;
use std::collections::hash_map::DefaultHasher;
use std::hash::Hasher;

verus! {

/// The writes contributed by one string field: its UTF-8 bytes, then a
/// single `0xff` byte, which no UTF-8 encoding contains, so that adjacent
/// string fields cannot run together.
pub open spec fn str_writes(s: Seq<char>) -> Seq<Seq<u8>> {
    seq![encode_utf8(s), seq![0xffu8]]
}

/// The write contributed by one `u64` field: its little-endian bytes.
pub open spec fn u64_writes(v: u64) -> Seq<Seq<u8>> {
    seq![spec_u64_to_le_bytes(v)]
}

/// The writes contributed by an optional link field: a discriminant word,
/// then, for a present link, the link value itself.
pub open spec fn opt_u64_writes(v: Option<u64>) -> Seq<Seq<u8>> {
    match v {
        Option::None => u64_writes(0),
        Option::Some(x) => u64_writes(1) + u64_writes(x),
    }
}

/// The digest of a whole transcript of writes.
pub open spec fn digest_of(writes: Seq<Seq<u8>>) -> u64 {
    DefaultHasher::spec_finish(writes)
}

/// Appends one string field to the hasher's transcript.
pub fn feed_str(hasher: &mut DefaultHasher, s: &str)
    ensures
        final(hasher)@ == old(hasher)@ + str_writes(s@),
{
    hasher.write(s.as_bytes());
    let mut terminator: Vec<u8> = Vec::new();
    terminator.push(0xffu8);
    hasher.write(terminator.as_slice());
    proof {
        assert(terminator@ =~= seq![0xffu8]);
        assert(hasher@ =~= old(hasher)@ + str_writes(s@));
    }
}

/// Appends one `u64` field to the hasher's transcript.
pub fn feed_u64(hasher: &mut DefaultHasher, v: u64)
    ensures
        final(hasher)@ == old(hasher)@ + u64_writes(v),
{
    let bytes = u64_to_le_bytes(v);
    hasher.write(bytes.as_slice());
    proof {
        assert(hasher@ =~= old(hasher)@ + u64_writes(v));
    }
}

/// Appends one optional link field to the hasher's transcript.
pub fn feed_opt_u64(hasher: &mut DefaultHasher, v: &Option<u64>)
    ensures
        final(hasher)@ == old(hasher)@ + opt_u64_writes(*v),
{
    match v {
        Option::None => {
            feed_u64(hasher, 0);
        },
        Option::Some(x) => {
            feed_u64(hasher, 1);
            feed_u64(hasher, *x);
            proof {
                assert(hasher@ =~= old(hasher)@ + opt_u64_writes(*v));
            }
        },
    }
}

} // verus!
