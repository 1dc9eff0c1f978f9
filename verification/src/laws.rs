//! The bridge-wide guarantees, stated and proved over the host-heap model.
//!
//! Each law is phrased over [`EnvModel`] transitions, the same spec
//! functions the executable contracts in [`crate::buffer`] and
//! [`crate::host`] are stated with, so it composes directly with those
//! contracts.

use vstd::prelude::*;

verus! {

use crate::host::EnvModel;
use crate::host::lemma_collect_one_wf;

/// Round-trip identity for the copy path: for every byte sequence, handing
/// it to the host by copy creates a buffer value whose bytes equal the
/// original, so ingesting that value (whose contract returns exactly the
/// value's bytes) yields bytes equal to the sequence that was transferred.
pub proof fn lemma_copy_round_trip(m: EnvModel, bytes: Seq<u8>)
    requires
        m.wf(),
    ensures
        ({
            let m2 = m.push_copy(bytes);
            let v = m.slots.len() as int;
            m2.is_buffer(v) && m2.slot_bytes(v) == bytes
        }),
{
}

/// Round-trip identity for the external path: handing a byte sequence to
/// the host without a copy creates a buffer value whose bytes equal the
/// original, so every ingestion of that value yields equal bytes.
pub proof fn lemma_external_round_trip(m: EnvModel, bytes: Seq<u8>)
    requires
        m.wf(),
    ensures
        ({
            let m2 = m.push_external(bytes);
            let v = m.slots.len() as int;
            m2.is_buffer(v) && m2.slot_bytes(v) == bytes
        }),
{
}

/// The reclamation callback of a token never fires more than once, in any
/// well-formed heap, over the whole life of the environment.
pub proof fn lemma_reclaim_at_most_once(m: EnvModel, t: int)
    requires
        m.wf(),
        0 <= t < m.reclaims.len(),
    ensures
        m.reclaims[t] <= 1,
{
}

/// Exactly-once reclamation: collecting an unreferenced external buffer
/// fires its reclamation callback for the first and only time — the
/// token's counter reaches exactly one, the value stops being a buffer
/// (so every later ingestion of it is rejected and the freed storage is
/// never read again), and a further collector visit changes nothing.
pub proof fn lemma_reclaim_exactly_once(m: EnvModel, i: int)
    requires
        m.wf(),
        m.is_external(i),
        m.refs_of(i) == 0,
    ensures
        ({
            let m1 = m.collect_one(i);
            &&& m1.reclaims[m.token_of(i) as int] == 1
            &&& !m1.is_buffer(i)
            &&& m1.collect_one(i) == m1
            &&& m1.wf()
        }),
{
    lemma_collect_one_wf(m, i);
}

/// Pinned durability: a buffer holding at least one strong-reference unit
/// survives any collector visit untouched — it stays a buffer, its bytes
/// and its reference count are unchanged — so a pinned handle reads the
/// same bytes after arbitrary collection pressure as at pin time.
pub proof fn lemma_pinned_durability(m: EnvModel, i: int, j: int)
    requires
        m.wf(),
        m.is_buffer(i),
        m.refs_of(i) >= 1,
    ensures
        ({
            let m1 = m.collect_one(j);
            &&& m1.is_buffer(i)
            &&& m1.slot_bytes(i) == m.slot_bytes(i)
            &&& m1.refs_of(i) == m.refs_of(i)
            &&& m1.wf()
        }),
{
    lemma_collect_one_wf(m, j);
}

/// Pin/release balance: taking one strong-reference unit on a buffer and
/// then giving it back returns the whole heap — bytes, reference counts
/// and reclamation counters — to exactly its pre-pin state.
pub proof fn lemma_pin_release_balance(m: EnvModel, i: int)
    requires
        m.wf(),
        m.is_buffer(i),
    ensures
        m.add_refs(i, 1).sub_refs(i, 1) == m,
{
    let m2 = m.add_refs(i, 1).sub_refs(i, 1);
    assert(m2.slots[i] == m.slots[i]);
    assert(m2.slots =~= m.slots);
    assert(m2 =~= m);
}

} // verus!
