//! The store's laws, stated over the mathematical map that the engines'
//! operations are specified against.
//!
//! `set` acts on the guarded map as `Map::insert` and `delete` as
//! `Map::remove`, per the contracts of [`crate::store::StoreMap`]; the
//! laws here speak that vocabulary. [`StoreOp`] describes one such
//! operation abstractly, so that laws about whole histories of
//! operations can be stated.

use vstd::prelude::*;

verus! {

/// One mutating store operation, described abstractly: what `set` and
/// `delete` do to the guarded map.
pub enum StoreOp {
    SetKey { key: Seq<char>, value: Seq<u8> },
    DeleteKey { key: Seq<char> },
}

/// The key an operation acts on.
pub open spec fn op_key(op: StoreOp) -> Seq<char> {
    match op {
        StoreOp::SetKey { key, value } => key,
        StoreOp::DeleteKey { key } => key,
    }
}

/// Whether an operation stores a value under `k`.
pub open spec fn op_sets(op: StoreOp, k: Seq<char>) -> bool {
    match op {
        StoreOp::SetKey { key, value } => key == k,
        StoreOp::DeleteKey { key } => false,
    }
}

/// The map after one operation.
pub open spec fn apply_op(m: Map<Seq<char>, Seq<u8>>, op: StoreOp) -> Map<Seq<char>, Seq<u8>> {
    match op {
        StoreOp::SetKey { key, value } => m.insert(key, value),
        StoreOp::DeleteKey { key } => m.remove(key),
    }
}

/// The map after a whole history of operations, applied in order.
pub open spec fn apply_ops(m: Map<Seq<char>, Seq<u8>>, ops: Seq<StoreOp>) -> Map<
    Seq<char>,
    Seq<u8>,
>
    decreases ops.len(),
{
    if ops.len() == 0 {
        m
    } else {
        apply_op(apply_ops(m, ops.drop_last()), ops.last())
    }
}

/// Idempotent overwrite: storing `v1` and then `v2` under one key
/// leaves the key holding `v2`, and the whole map is as if only `v2`
/// had ever been stored — `v1` is unrecoverable.
pub proof fn lemma_overwrite(m: Map<Seq<char>, Seq<u8>>, k: Seq<char>, v1: Seq<u8>, v2: Seq<u8>)
    ensures
        m.insert(k, v1).insert(k, v2).contains_key(k),
        m.insert(k, v1).insert(k, v2)[k] == v2,
        m.insert(k, v1).insert(k, v2) == m.insert(k, v2),
{
    assert(m.insert(k, v1).insert(k, v2) =~= m.insert(k, v2));
}

/// Delete removes: after storing `v` under `k`, the map holds `v` at
/// `k` (which is what the delete hands back), and after the removal the
/// key is absent, so a later lookup finds nothing.
pub proof fn lemma_delete_removes(m: Map<Seq<char>, Seq<u8>>, k: Seq<char>, v: Seq<u8>)
    ensures
        m.insert(k, v)[k] == v,
        !m.insert(k, v).remove(k).contains_key(k),
{
}

/// Delete on an absent key leaves the map unchanged.
pub proof fn lemma_delete_absent(m: Map<Seq<char>, Seq<u8>>, k: Seq<char>)
    requires
        !m.contains_key(k),
    ensures
        m.remove(k) == m,
{
    assert(m.remove(k) =~= m);
}

/// No cross-key interference: a history of operations none of which
/// acts on `k` leaves `k`'s binding exactly as it was — whether it is
/// present, and if so with which value.
pub proof fn lemma_no_cross_key_interference(
    m: Map<Seq<char>, Seq<u8>>,
    ops: Seq<StoreOp>,
    k: Seq<char>,
)
    requires
        forall|i: int| 0 <= i < ops.len() ==> op_key(#[trigger] ops[i]) != k,
    ensures
        apply_ops(m, ops).contains_key(k) == m.contains_key(k),
        m.contains_key(k) ==> apply_ops(m, ops)[k] == m[k],
    decreases ops.len(),
{
    if ops.len() > 0 {
        lemma_no_cross_key_interference(m, ops.drop_last(), k);
        assert(op_key(ops[ops.len() - 1]) != k);
    }
}

/// Absence: a key that no operation in the history ever set is absent
/// from a store that began empty, so a lookup of it finds nothing.
pub proof fn lemma_never_set_is_absent(ops: Seq<StoreOp>, k: Seq<char>)
    requires
        forall|i: int| 0 <= i < ops.len() ==> !op_sets(#[trigger] ops[i], k),
    ensures
        !apply_ops(Map::<Seq<char>, Seq<u8>>::empty(), ops).contains_key(k),
    decreases ops.len(),
{
    if ops.len() > 0 {
        lemma_never_set_is_absent(ops.drop_last(), k);
        assert(!op_sets(ops[ops.len() - 1], k));
    }
}

} // verus!
