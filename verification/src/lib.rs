//! kvapp: a verified core for a small HTTP front end to an embedded,
//! ordered key-value store.
//!
//! The library maps each HTTP request onto exactly one store operation and
//! pins down the response (status and body) that every outcome produces.
//! The store itself is an embedded engine (sled), reached only through
//! trusted wrappers whose contracts speak of the store's contents as a
//! mathematical map from keys to byte strings.

pub mod config;
pub mod handlers;
pub mod laws;
pub mod response;
pub mod router;
pub mod state;
pub mod store;

use vstd::prelude::*;

verus! {

/// The character is neither a quote, nor a backslash, nor a control
/// character, so it needs no escaping inside a JSON string literal.
pub open spec fn json_clean_char(c: char) -> bool {
    c != '"' && c != '\\' && (c as u32) >= 32
}

/// Every character of the sequence can stand inside a JSON string literal
/// as it is.
pub open spec fn json_clean(s: Seq<char>) -> bool {
    forall|i: int| 0 <= i < s.len() ==> json_clean_char(s[i])
}

} // verus!
