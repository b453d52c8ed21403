//! The general laws of the store model, each proved once and for all over
//! the spec functions that the executable contracts use.

use vstd::prelude::*;
use crate::store::{
    created_next, created_rows, fetched, store_inv, upserted,
};

verus! {

/// Schema creation is idempotent: running it a second time, on the store
/// the first successful run left behind (whose table is then present),
/// changes neither the rows nor the auto-increment sequence.
pub proof fn lemma_create_table_idempotent(m: Map<Seq<char>, (int, int)>, next: int, ready: bool)
    ensures
        created_rows(created_rows(m, ready), true) == created_rows(m, ready),
        created_next(created_next(next, ready), true) == created_next(next, ready),
{
}

/// A first upsert of a name enters it with count 1 and a fresh id: the id
/// the auto-increment sequence holds, which no present record carries. All
/// other records are left as they were, and the store stays well formed for
/// every position the sequence can move on to.
pub proof fn lemma_upsert_new(m: Map<Seq<char>, (int, int)>, next: int, name: Seq<char>)
    requires
        !m.contains_key(name),
        store_inv(m, next),
    ensures
        upserted(m, next, name).contains_key(name),
        upserted(m, next, name)[name].0 == next,
        upserted(m, next, name)[name].1 == 1,
        forall|n: Seq<char>| #[trigger] m.contains_key(n) ==> m[n].0 != next,
        forall|n: Seq<char>| #[trigger] m.contains_key(n) ==> upserted(m, next, name)[n] == m[n],
        forall|later: int| next + 1 <= later ==> store_inv(upserted(m, next, name), later),
{
}

/// An upsert of a present name with count c keeps the record's id and
/// produces count c + 1. All other records are left as they were, and the
/// store stays well formed however far the sequence has moved on.
pub proof fn lemma_upsert_existing(m: Map<Seq<char>, (int, int)>, next: int, name: Seq<char>)
    requires
        m.contains_key(name),
        store_inv(m, next),
    ensures
        upserted(m, next, name).contains_key(name),
        upserted(m, next, name)[name].0 == m[name].0,
        upserted(m, next, name)[name].1 == m[name].1 + 1,
        forall|n: Seq<char>|
            #[trigger] m.contains_key(n) && n != name ==> upserted(m, next, name)[n] == m[n],
        forall|later: int| next <= later ==> store_inv(upserted(m, next, name), later),
{
}

/// Read-your-write consistency: a fetch of a name right after an upsert of
/// that name sees exactly the record the upsert left behind.
pub proof fn lemma_read_your_write(m: Map<Seq<char>, (int, int)>, next: int, name: Seq<char>)
    ensures
        fetched(upserted(m, next, name), name) == Some(upserted(m, next, name)[name]),
{
}

/// The rows after `k` upserts of one name, each applied to the rows the
/// previous one left. Only the first can insert, so only the first reads
/// the sequence.
pub open spec fn upserted_n(
    m: Map<Seq<char>, (int, int)>,
    next: int,
    name: Seq<char>,
    k: nat,
) -> Map<Seq<char>, (int, int)>
    decreases k,
{
    if k == 0 {
        m
    } else {
        upserted(upserted_n(m, next, name, (k - 1) as nat), next, name)
    }
}

/// No lost updates: k upserts of a name that was absent, in whatever
/// serialization the store's statement-level atomicity imposes on them,
/// leave the record with count exactly k, under the id the first of them
/// assigned.
pub proof fn lemma_upsert_counts(m: Map<Seq<char>, (int, int)>, next: int, name: Seq<char>, k: nat)
    requires
        !m.contains_key(name),
        k >= 1,
    ensures
        upserted_n(m, next, name, k).contains_key(name),
        upserted_n(m, next, name, k)[name].0 == next,
        upserted_n(m, next, name, k)[name].1 == k as int,
    decreases k,
{
    if k == 1 {
        assert(upserted_n(m, next, name, 0) == m);
        assert(upserted_n(m, next, name, 1) == upserted(m, next, name));
    } else {
        lemma_upsert_counts(m, next, name, (k - 1) as nat);
        let prev = upserted_n(m, next, name, (k - 1) as nat);
        assert(upserted_n(m, next, name, k) == upserted(prev, next, name));
        assert(upserted(prev, next, name)[name].1 == prev[name].1 + 1);
    }
}

} // verus!
