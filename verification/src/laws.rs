//! The service-level laws, stated over the store model that every
//! handler contract speaks of: the map of current records. Together
//! with the handlers' own contracts they pin down what any sequence of
//! requests observes once the engine answers (an engine failure is
//! always the canonical 500 and decides nothing about records).

use vstd::prelude::*;
use crate::handlers::{spec_delete_status, spec_get_status};
use crate::response::{index_json, index_json_pre};

verus! {

/// A key never written is absent, and a read and a delete of an absent
/// key each earn 404.
pub proof fn lemma_absent_key_not_found(m: Map<Seq<char>, Seq<u8>>, k: Seq<char>)
    requires
        !m.contains_key(k),
    ensures
        spec_get_status(m, k) == 404,
        spec_delete_status(m, k) == 404,
{
}

/// Round-trip fidelity: after a write of `v` under `k`, a read of `k`
/// earns 200 and observes exactly `v`, binary-exact.
pub proof fn lemma_put_then_get(m: Map<Seq<char>, Seq<u8>>, k: Seq<char>, v: Seq<u8>)
    ensures
        spec_get_status(m.insert(k, v), k) == 200,
        m.insert(k, v)[k] == v,
{
}

/// Delete is idempotent in its answer: once a delete has removed the
/// record, repeating it earns 404, not a second 200.
pub proof fn lemma_delete_idempotent(m: Map<Seq<char>, Seq<u8>>, k: Seq<char>)
    requires
        m.contains_key(k),
    ensures
        spec_delete_status(m, k) == 200,
        spec_delete_status(m.remove(k), k) == 404,
{
}

/// Overwrite: after writing `v1` and then `v2` under `k`, a read of
/// `k` observes `v2` only — no trace of `v1` remains under the key.
pub proof fn lemma_overwrite(
    m: Map<Seq<char>, Seq<u8>>,
    k: Seq<char>,
    v1: Seq<u8>,
    v2: Seq<u8>,
)
    ensures
        spec_get_status(m.insert(k, v1).insert(k, v2), k) == 200,
        m.insert(k, v1).insert(k, v2)[k] == v2,
        v1 != v2 ==> m.insert(k, v1).insert(k, v2)[k] != v1,
{
}

/// The service description carries the configured store nickname in
/// its body, regardless of store contents: the nickname stands
/// verbatim inside the index body.
pub proof fn lemma_index_body_contains_name(name: Seq<char>)
    ensures
        exists|i: int|
            0 <= i && i + name.len() <= index_json(name).len()
                && #[trigger] index_json(name).subrange(i, i + name.len()) == name,
{
    let p = index_json_pre();
    assert(index_json(name).subrange(p.len() as int, (p.len() + name.len()) as int) =~= name);
}

} // verus!
