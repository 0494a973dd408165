//! An append-only, hash-linked personal ledger: a sequence of immutable,
//! content-addressed records, each bound by digest both to its immediate
//! predecessor and to the most recent earlier record of the same entry type.
//!
//! An [`entry::Entry`] is a typed payload; a [`header::Header`] fixes an
//! entry's place in the chain through its two links; a [`pair::Pair`] bundles
//! the two into one committed record; [`chain::SourceChain`] is the contract
//! any chain store satisfies, and [`memory::MemChain`] its in-memory
//! reference implementation.

pub mod digest;
pub mod entry;
pub mod header;
pub mod pair;
pub mod chain;
pub mod memory;
