//! The host environment capability and its mathematical model.
//!
//! Every boundary crossing goes through [`JsEnv`], an explicit capability
//! standing for the host runtime's value heap: buffer creation (external
//! and by copy), buffer-storage access, strong references, and garbage
//! collection with its reclamation callbacks. The capability is a faithful
//! in-process model of those obligations, so the transfer protocol around
//! it can be verified and exercised without a live runtime.
//!
//! The model, [`EnvModel`], records one [`SlotModel`] per host value ever
//! created plus a reclamation counter per external-transfer token. Host
//! values are never reused: a collected value keeps its slot, marked
//! `Collected`, so every handle stays meaningful for the life of the
//! environment.

use vstd::prelude::*;

verus! {

use crate::error::NjError;

/// Model of one host value: what it holds and how many strong-reference
/// units native code has taken out on it.
///
/// `ExternalBuf` carries the token that the host must hand back, exactly
/// once, to the reclamation callback when the value is collected.
pub enum SlotModel {
    /// A buffer whose bytes the host copied into its own storage.
    CopyBuf { bytes: Seq<u8>, refs: nat },
    /// A buffer backed by natively supplied storage; `token` is the
    /// reconstruction handle owed to the reclamation callback.
    ExternalBuf { bytes: Seq<u8>, token: nat, refs: nat },
    /// A host value that is not a buffer.
    Opaque,
    /// A value the host's collector has reclaimed.
    Collected,
}

/// Model of the whole host environment: the value heap, the reclamation
/// counter of every external-transfer token ever issued, and whether the
/// host's allocation primitives currently succeed.
#[verifier::ext_equal]
pub struct EnvModel {
    pub slots: Seq<SlotModel>,
    pub reclaims: Seq<nat>,
    pub alloc_ok: bool,
}

impl EnvModel {
    /// The empty host heap: no values, no tokens, allocation succeeding.
    pub open spec fn empty() -> EnvModel {
        EnvModel { slots: Seq::empty(), reclaims: Seq::empty(), alloc_ok: true }
    }

    pub open spec fn in_range(self, i: int) -> bool {
        0 <= i < self.slots.len()
    }

    /// The host value `i` is a live buffer (copied or external).
    pub open spec fn is_buffer(self, i: int) -> bool {
        self.in_range(i) && (self.slots[i] is CopyBuf || self.slots[i] is ExternalBuf)
    }

    /// The host value `i` is a live external-transfer buffer.
    pub open spec fn is_external(self, i: int) -> bool {
        self.in_range(i) && self.slots[i] is ExternalBuf
    }

    /// The host value `i` exists and has not been collected.
    pub open spec fn is_live(self, i: int) -> bool {
        self.in_range(i) && !(self.slots[i] is Collected)
    }

    /// The bytes of buffer `i`.
    pub open spec fn slot_bytes(self, i: int) -> Seq<u8>
        recommends
            self.is_buffer(i),
    {
        match self.slots[i] {
            SlotModel::CopyBuf { bytes, .. } => bytes,
            SlotModel::ExternalBuf { bytes, .. } => bytes,
            _ => Seq::empty(),
        }
    }

    /// The strong-reference units outstanding on value `i`.
    pub open spec fn refs_of(self, i: int) -> nat {
        match self.slots[i] {
            SlotModel::CopyBuf { refs, .. } => refs,
            SlotModel::ExternalBuf { refs, .. } => refs,
            _ => 0,
        }
    }

    /// The reclamation token of external buffer `i`.
    pub open spec fn token_of(self, i: int) -> nat
        recommends
            self.is_external(i),
    {
        match self.slots[i] {
            SlotModel::ExternalBuf { token, .. } => token,
            _ => 0,
        }
    }

    /// The heap after the host copies `bytes` into a fresh buffer value.
    pub open spec fn push_copy(self, bytes: Seq<u8>) -> EnvModel {
        EnvModel {
            slots: self.slots.push(SlotModel::CopyBuf { bytes, refs: 0 }),
            reclaims: self.reclaims,
            alloc_ok: self.alloc_ok,
        }
    }

    /// The heap after native code hands `bytes` over without a copy: a
    /// fresh external buffer value, plus a fresh reclamation token with a
    /// zero callback count.
    pub open spec fn push_external(self, bytes: Seq<u8>) -> EnvModel {
        EnvModel {
            slots: self.slots.push(
                SlotModel::ExternalBuf { bytes, token: self.reclaims.len(), refs: 0 },
            ),
            reclaims: self.reclaims.push(0),
            alloc_ok: self.alloc_ok,
        }
    }

    /// The heap after the host creates a fresh non-buffer value.
    pub open spec fn push_opaque(self) -> EnvModel {
        EnvModel {
            slots: self.slots.push(SlotModel::Opaque),
            reclaims: self.reclaims,
            alloc_ok: self.alloc_ok,
        }
    }

    /// The heap with `n` strong-reference units added to buffer `i`.
    pub open spec fn add_refs(self, i: int, n: nat) -> EnvModel
        recommends
            self.is_buffer(i),
    {
        let slot = match self.slots[i] {
            SlotModel::CopyBuf { bytes, refs } => SlotModel::CopyBuf { bytes, refs: refs + n },
            SlotModel::ExternalBuf { bytes, token, refs } => SlotModel::ExternalBuf {
                bytes,
                token,
                refs: refs + n,
            },
            s => s,
        };
        EnvModel { slots: self.slots.update(i, slot), reclaims: self.reclaims, alloc_ok: self.alloc_ok }
    }

    /// The heap with `n` strong-reference units removed from buffer `i`.
    pub open spec fn sub_refs(self, i: int, n: nat) -> EnvModel
        recommends
            self.is_buffer(i),
            n <= self.refs_of(i),
    {
        let slot = match self.slots[i] {
            SlotModel::CopyBuf { bytes, refs } => SlotModel::CopyBuf {
                bytes,
                refs: (refs - n) as nat,
            },
            SlotModel::ExternalBuf { bytes, token, refs } => SlotModel::ExternalBuf {
                bytes,
                token,
                refs: (refs - n) as nat,
            },
            s => s,
        };
        EnvModel { slots: self.slots.update(i, slot), reclaims: self.reclaims, alloc_ok: self.alloc_ok }
    }

    /// Whether a collection pass may reclaim value `i`: it is live and no
    /// strong reference protects it.
    pub open spec fn collectible(self, i: int) -> bool {
        self.is_live(i) && self.refs_of(i) == 0
    }

    /// The heap after the host's collector visits value `i`. A live,
    /// unreferenced value is reclaimed; reclaiming an external buffer
    /// fires the reclamation callback, counted on the buffer's token.
    /// Visiting a referenced or already collected value changes nothing.
    pub open spec fn collect_one(self, i: int) -> EnvModel {
        if self.collectible(i) {
            let slots = self.slots.update(i, SlotModel::Collected);
            if self.slots[i] is ExternalBuf {
                let t = self.token_of(i) as int;
                EnvModel {
                    slots,
                    reclaims: self.reclaims.update(t, (self.reclaims[t] + 1) as nat),
                    alloc_ok: self.alloc_ok,
                }
            } else {
                EnvModel { slots, reclaims: self.reclaims, alloc_ok: self.alloc_ok }
            }
        } else {
            self
        }
    }

    /// Among the first `k` host values, some live external buffer with
    /// token `t` is unprotected and will die in a full collector pass.
    pub open spec fn dying_external_before(self, k: int, t: int) -> bool {
        exists|i: int|
            0 <= i < k && #[trigger] self.is_external(i) && self.refs_of(i) == 0
                && self.token_of(i) == t
    }

    /// Some live external buffer with token `t` is unprotected and will
    /// die in a full collector pass.
    pub open spec fn dying_external_with(self, t: int) -> bool {
        self.dying_external_before(self.slots.len() as int, t)
    }

    /// Well-formedness of the host heap, the discipline that makes
    /// exactly-once reclamation provable:
    /// every live external buffer holds a token that was issued and whose
    /// callback has not yet fired; no callback ever fires twice on one
    /// token; and no two live external buffers share a token.
    pub open spec fn wf(self) -> bool {
        &&& forall|i: int|
            #[trigger] self.is_external(i) ==> self.token_of(i) < self.reclaims.len()
                && self.reclaims[self.token_of(i) as int] == 0
        &&& forall|t: int| 0 <= t < self.reclaims.len() ==> #[trigger] self.reclaims[t] <= 1
        &&& forall|i: int, j: int|
            #![trigger self.token_of(i), self.token_of(j)]
            self.is_external(i) && self.is_external(j) && i != j ==> self.token_of(i)
                != self.token_of(j)
    }
}

/// Copying bytes into a fresh host buffer keeps the heap well-formed.
pub proof fn lemma_push_copy_wf(m: EnvModel, bytes: Seq<u8>)
    requires
        m.wf(),
    ensures
        m.push_copy(bytes).wf(),
{
    let m2 = m.push_copy(bytes);
    assert forall|i: int| #[trigger] m2.is_external(i) implies m2.token_of(i)
        < m2.reclaims.len() && m2.reclaims[m2.token_of(i) as int] == 0 by {
        assert(m.is_external(i));
    }
    assert forall|i: int, j: int|
        #![trigger m2.token_of(i), m2.token_of(j)]
        m2.is_external(i) && m2.is_external(j) && i != j implies m2.token_of(i)
        != m2.token_of(j) by {
        assert(m.is_external(i));
        assert(m.is_external(j));
    }
}

/// Creating a fresh non-buffer host value keeps the heap well-formed.
pub proof fn lemma_push_opaque_wf(m: EnvModel)
    requires
        m.wf(),
    ensures
        m.push_opaque().wf(),
{
    let m2 = m.push_opaque();
    assert forall|i: int| #[trigger] m2.is_external(i) implies m2.token_of(i)
        < m2.reclaims.len() && m2.reclaims[m2.token_of(i) as int] == 0 by {
        assert(m.is_external(i));
    }
    assert forall|i: int, j: int|
        #![trigger m2.token_of(i), m2.token_of(j)]
        m2.is_external(i) && m2.is_external(j) && i != j implies m2.token_of(i)
        != m2.token_of(j) by {
        assert(m.is_external(i));
        assert(m.is_external(j));
    }
}

/// Handing bytes over as a fresh external buffer keeps the heap
/// well-formed: the new token is fresh, its callback count starts at zero,
/// and every older token is untouched.
pub proof fn lemma_push_external_wf(m: EnvModel, bytes: Seq<u8>)
    requires
        m.wf(),
    ensures
        m.push_external(bytes).wf(),
{
    let m2 = m.push_external(bytes);
    let n = m.slots.len() as int;
    assert forall|i: int| #[trigger] m2.is_external(i) implies m2.token_of(i)
        < m2.reclaims.len() && m2.reclaims[m2.token_of(i) as int] == 0 by {
        if i < n {
            assert(m.is_external(i));
        }
    }
    assert forall|i: int, j: int|
        #![trigger m2.token_of(i), m2.token_of(j)]
        m2.is_external(i) && m2.is_external(j) && i != j implies m2.token_of(i)
        != m2.token_of(j) by {
        if i < n && j < n {
            assert(m.is_external(i));
            assert(m.is_external(j));
        } else if i < n {
            assert(m.is_external(i));
        } else if j < n {
            assert(m.is_external(j));
        }
    }
}

/// Adding strong-reference units to a buffer keeps the heap well-formed:
/// no slot changes its variant, token, or bytes.
pub proof fn lemma_add_refs_wf(m: EnvModel, i: int, n: nat)
    requires
        m.wf(),
        m.is_buffer(i),
    ensures
        m.add_refs(i, n).wf(),
{
    let m2 = m.add_refs(i, n);
    assert forall|k: int| #[trigger] m2.is_external(k) implies m2.token_of(k)
        < m2.reclaims.len() && m2.reclaims[m2.token_of(k) as int] == 0 by {
        assert(m.is_external(k));
        assert(m2.token_of(k) == m.token_of(k));
    }
    assert forall|k: int, j: int|
        #![trigger m2.token_of(k), m2.token_of(j)]
        m2.is_external(k) && m2.is_external(j) && k != j implies m2.token_of(k)
        != m2.token_of(j) by {
        assert(m.is_external(k));
        assert(m.is_external(j));
        assert(m2.token_of(k) == m.token_of(k));
        assert(m2.token_of(j) == m.token_of(j));
    }
}

/// Removing strong-reference units from a buffer keeps the heap
/// well-formed, for the same reason as adding them.
pub proof fn lemma_sub_refs_wf(m: EnvModel, i: int, n: nat)
    requires
        m.wf(),
        m.is_buffer(i),
    ensures
        m.sub_refs(i, n).wf(),
{
    let m2 = m.sub_refs(i, n);
    assert forall|k: int| #[trigger] m2.is_external(k) implies m2.token_of(k)
        < m2.reclaims.len() && m2.reclaims[m2.token_of(k) as int] == 0 by {
        assert(m.is_external(k));
        assert(m2.token_of(k) == m.token_of(k));
    }
    assert forall|k: int, j: int|
        #![trigger m2.token_of(k), m2.token_of(j)]
        m2.is_external(k) && m2.is_external(j) && k != j implies m2.token_of(k)
        != m2.token_of(j) by {
        assert(m.is_external(k));
        assert(m.is_external(j));
        assert(m2.token_of(k) == m.token_of(k));
        assert(m2.token_of(j) == m.token_of(j));
    }
}

/// A collector visit keeps the heap well-formed. When it reclaims an
/// external buffer, the buffer's token had a zero callback count (the
/// buffer was live) and no other live buffer shares the token, so the
/// count moves from zero to one and every other token is untouched.
pub proof fn lemma_collect_one_wf(m: EnvModel, i: int)
    requires
        m.wf(),
    ensures
        m.collect_one(i).wf(),
{
    let m2 = m.collect_one(i);
    if m.collectible(i) {
        assert forall|k: int| #[trigger] m2.is_external(k) implies m2.token_of(k)
            < m2.reclaims.len() && m2.reclaims[m2.token_of(k) as int] == 0 by {
            assert(k != i);
            assert(m.is_external(k));
            assert(m2.token_of(k) == m.token_of(k));
            if m.slots[i] is ExternalBuf {
                assert(m.is_external(i));
                assert(m.token_of(k) != m.token_of(i));
            }
        }
        assert forall|t: int| 0 <= t < m2.reclaims.len() implies #[trigger] m2.reclaims[t]
            <= 1 by {
            if m.slots[i] is ExternalBuf {
                assert(m.is_external(i));
                assert(m.reclaims[m.token_of(i) as int] == 0);
            }
        }
        assert forall|k: int, j: int|
            #![trigger m2.token_of(k), m2.token_of(j)]
            m2.is_external(k) && m2.is_external(j) && k != j implies m2.token_of(k)
            != m2.token_of(j) by {
            assert(m.is_external(k));
            assert(m.is_external(j));
            assert(m2.token_of(k) == m.token_of(k));
            assert(m2.token_of(j) == m.token_of(j));
        }
    }
}

/// A handle to one host value. It stands for the `napi_value` the host
/// hands across the boundary: copyable, meaningful only together with the
/// environment that issued it.
#[derive(Debug, Clone, Copy)]
pub struct HostValue {
    idx: usize,
}

impl View for HostValue {
    type V = int;

    closed spec fn view(&self) -> int {
        self.idx as int
    }
}

/// A strong-reference token: proof that `count` reference units were taken
/// out on `value`, to be given back in exactly one release.
#[derive(Debug, Clone, Copy)]
pub struct RefToken {
    value: HostValue,
    count: u64,
}

impl RefToken {
    /// The host value the token protects.
    pub closed spec fn value_idx(self) -> int {
        self.value@
    }

    /// The reference units the token holds.
    pub closed spec fn count(self) -> nat {
        self.count as nat
    }

    /// The protected value, for release through the environment.
    pub fn value(&self) -> (v: HostValue)
        ensures
            v@ == self.value_idx(),
    {
        self.value
    }
}

/// One host value as the environment stores it.
enum Slot {
    CopyBuf { bytes: Vec<u8>, refs: u64 },
    ExternalBuf { bytes: Vec<u8>, token: usize, refs: u64 },
    Opaque,
    Collected,
}

impl View for Slot {
    type V = SlotModel;

    closed spec fn view(&self) -> SlotModel {
        match self {
            Slot::CopyBuf { bytes, refs } => SlotModel::CopyBuf {
                bytes: bytes@,
                refs: *refs as nat,
            },
            Slot::ExternalBuf { bytes, token, refs } => SlotModel::ExternalBuf {
                bytes: bytes@,
                token: *token as nat,
                refs: *refs as nat,
            },
            Slot::Opaque => SlotModel::Opaque,
            Slot::Collected => SlotModel::Collected,
        }
    }
}

/// The host environment capability: the one gate to the host's value heap.
///
/// Its methods are the boundary primitives the bridge consumes. The model
/// behind a value of this type is an [`EnvModel`]; every method states its
/// effect as a transition on that model and preserves [`EnvModel::wf`].
pub struct JsEnv {
    slots: Vec<Slot>,
    reclaims: Vec<u64>,
    alloc_ok: bool,
}

impl View for JsEnv {
    type V = EnvModel;

    closed spec fn view(&self) -> EnvModel {
        EnvModel {
            slots: self.slots@.map_values(|s: Slot| s@),
            reclaims: self.reclaims@.map_values(|c: u64| c as nat),
            alloc_ok: self.alloc_ok,
        }
    }
}

impl JsEnv {
    /// A fresh host environment with an empty heap.
    pub fn new() -> (env: JsEnv)
        ensures
            env@ == EnvModel::empty(),
            env@.wf(),
    {
        let env = JsEnv { slots: Vec::new(), reclaims: Vec::new(), alloc_ok: true };
        proof {
            assert(env@.slots =~= EnvModel::empty().slots);
            assert(env@.reclaims =~= EnvModel::empty().reclaims);
            assert(env@ =~= EnvModel::empty());
        }
        env
    }

    /// Make the host's allocation primitives succeed or fail, so callers
    /// can exercise the resource-exhaustion path of buffer creation.
    pub fn set_alloc_ok(&mut self, ok: bool)
        ensures
            final(self)@ == (EnvModel { alloc_ok: ok, ..old(self)@ }),
    {
        self.alloc_ok = ok;
        proof {
            assert(self@ =~= EnvModel { alloc_ok: ok, ..old(self)@ });
        }
    }

    /// `create_buffer_by_copy`: the host copies the given bytes into a
    /// fresh buffer value it owns from creation onward. The caller keeps
    /// its own sequence and remains free to drop it through ordinary
    /// ownership rules.
    pub fn create_buffer_by_copy(&mut self, bytes: &Vec<u8>) -> (r: Result<HostValue, NjError>)
        requires
            old(self)@.wf(),
        ensures
            final(self)@.wf(),
            old(self)@.alloc_ok ==> (r is Ok && r->Ok_0@ == old(self)@.slots.len() as int
                && final(self)@ == old(self)@.push_copy(bytes@)),
            !old(self)@.alloc_ok ==> (r is Err && r->Err_0 == NjError::HostAllocationFailure
                && final(self)@ == old(self)@),
    {
        if self.alloc_ok {
            let idx = self.slots.len();
            let copied = bytes.clone();
            self.slots.push(Slot::CopyBuf { bytes: copied, refs: 0 });
            proof {
                assert(self@.slots =~= old(self)@.push_copy(bytes@).slots);
                assert(self@ =~= old(self)@.push_copy(bytes@));
                lemma_push_copy_wf(old(self)@, bytes@);
            }
            Ok(HostValue { idx })
        } else {
            Err(NjError::HostAllocationFailure)
        }
    }

    /// `create_external_buffer`: native code gives `bytes` away without a
    /// copy; the host's fresh buffer value is backed by them, and a fresh
    /// reclamation token is issued whose callback the host owes exactly
    /// once, when the value is collected. On allocation failure the host
    /// keeps nothing, and the sequence native code had prepared is
    /// reconstructed and dropped synchronously, so nothing leaks.
    pub fn create_external_buffer(&mut self, bytes: Vec<u8>) -> (r: Result<HostValue, NjError>)
        requires
            old(self)@.wf(),
        ensures
            final(self)@.wf(),
            old(self)@.alloc_ok ==> (r is Ok && r->Ok_0@ == old(self)@.slots.len() as int
                && final(self)@ == old(self)@.push_external(bytes@)),
            !old(self)@.alloc_ok ==> (r is Err && r->Err_0 == NjError::HostAllocationFailure
                && final(self)@ == old(self)@),
    {
        if self.alloc_ok {
            let idx = self.slots.len();
            let token = self.reclaims.len();
            self.slots.push(Slot::ExternalBuf { bytes, refs: 0, token });
            self.reclaims.push(0);
            proof {
                assert(self@.slots =~= old(self)@.push_external(bytes@).slots);
                assert(self@.reclaims =~= old(self)@.push_external(bytes@).reclaims);
                assert(self@ =~= old(self)@.push_external(bytes@));
                lemma_push_external_wf(old(self)@, bytes@);
            }
            Ok(HostValue { idx })
        } else {
            Err(NjError::HostAllocationFailure)
        }
    }

    /// A fresh host value that is not a buffer (a number, a string, an
    /// object), as the host might pass to an ingestion entry point.
    pub fn create_opaque(&mut self) -> (v: HostValue)
        requires
            old(self)@.wf(),
        ensures
            final(self)@.wf(),
            v@ == old(self)@.slots.len() as int,
            final(self)@ == old(self)@.push_opaque(),
    {
        let idx = self.slots.len();
        self.slots.push(Slot::Opaque);
        proof {
            assert(self@.slots =~= old(self)@.push_opaque().slots);
            assert(self@ =~= old(self)@.push_opaque());
            lemma_push_opaque_wf(old(self)@);
        }
        HostValue { idx }
    }

    /// `is_buffer`: whether the host value is a live buffer.
    pub fn is_buffer(&self, v: HostValue) -> (r: bool)
        ensures
            r == self@.is_buffer(v@),
    {
        if v.idx < self.slots.len() {
            match &self.slots[v.idx] {
                Slot::CopyBuf { .. } => true,
                Slot::ExternalBuf { .. } => true,
                _ => false,
            }
        } else {
            false
        }
    }

    /// `get_buffer_storage`: a view of the bytes inside a host buffer
    /// value. The borrow is tied to the environment, so the view cannot
    /// outlive the call scope that produced it; a value that is not a
    /// buffer is rejected with `TypeMismatch`.
    pub fn get_buffer_storage<'a>(&'a self, v: HostValue) -> (r: Result<&'a Vec<u8>, NjError>)
        ensures
            self@.is_buffer(v@) ==> (r is Ok && r->Ok_0@ == self@.slot_bytes(v@)),
            !self@.is_buffer(v@) ==> (r is Err && r->Err_0 == NjError::TypeMismatch),
    {
        if v.idx < self.slots.len() {
            match &self.slots[v.idx] {
                Slot::CopyBuf { bytes, .. } => Ok(bytes),
                Slot::ExternalBuf { bytes, .. } => Ok(bytes),
                _ => Err(NjError::TypeMismatch),
            }
        } else {
            Err(NjError::TypeMismatch)
        }
    }

    /// `create_strong_reference`: take `count` reference units on a host
    /// buffer value, preventing its collection until they are given back.
    /// The returned token records the value and the units, and is the one
    /// thing `delete_strong_reference` accepts.
    pub fn create_strong_reference(&mut self, v: HostValue, count: u64) -> (r: Result<
        RefToken,
        NjError,
    >)
        requires
            old(self)@.wf(),
            old(self)@.is_buffer(v@) ==> old(self)@.refs_of(v@) + count <= u64::MAX,
        ensures
            final(self)@.wf(),
            old(self)@.is_buffer(v@) ==> (r is Ok && r->Ok_0.value_idx() == v@
                && r->Ok_0.count() == count as nat
                && final(self)@ == old(self)@.add_refs(v@, count as nat)),
            !old(self)@.is_buffer(v@) ==> (r is Err && r->Err_0 == NjError::TypeMismatch
                && final(self)@ == old(self)@),
    {
        if v.idx >= self.slots.len() {
            return Err(NjError::TypeMismatch);
        }
        let buf = match &self.slots[v.idx] {
            Slot::CopyBuf { .. } => true,
            Slot::ExternalBuf { .. } => true,
            _ => false,
        };
        if !buf {
            return Err(NjError::TypeMismatch);
        }
        let slot = &mut self.slots[v.idx];
        match slot {
            Slot::CopyBuf { refs, .. } => {
                *refs = *refs + count;
            },
            Slot::ExternalBuf { refs, .. } => {
                *refs = *refs + count;
            },
            _ => {
                proof {
                    assert(false);
                }
            },
        }
        proof {
            assert(self@.slots =~= old(self)@.add_refs(v@, count as nat).slots);
            assert(self@ =~= old(self)@.add_refs(v@, count as nat));
            lemma_add_refs_wf(old(self)@, v@, count as nat);
        }
        Ok(RefToken { value: v, count })
    }

    /// `delete_strong_reference`: give back the units a token holds. A
    /// token whose units are no longer outstanding — released before, or
    /// aimed at a value that is no longer a live buffer — means the
    /// native/host ownership model has diverged; the heap is left
    /// untouched and `EnvironmentConsistencyViolation` is reported.
    pub fn delete_strong_reference(&mut self, token: RefToken) -> (r: Result<(), NjError>)
        requires
            old(self)@.wf(),
        ensures
            final(self)@.wf(),
            (old(self)@.is_buffer(token.value_idx()) && token.count() <= old(self)@.refs_of(
                token.value_idx(),
            )) ==> (r is Ok && final(self)@ == old(self)@.sub_refs(
                token.value_idx(),
                token.count(),
            )),
            !(old(self)@.is_buffer(token.value_idx()) && token.count() <= old(self)@.refs_of(
                token.value_idx(),
            )) ==> (r is Err && r->Err_0 == NjError::EnvironmentConsistencyViolation
                && final(self)@ == old(self)@),
    {
        let v = token.value;
        if v.idx >= self.slots.len() {
            return Err(NjError::EnvironmentConsistencyViolation);
        }
        let (buf, cur): (bool, u64) = match &self.slots[v.idx] {
            Slot::CopyBuf { refs, .. } => (true, *refs),
            Slot::ExternalBuf { refs, .. } => (true, *refs),
            _ => (false, 0),
        };
        if !buf || token.count > cur {
            return Err(NjError::EnvironmentConsistencyViolation);
        }
        let slot = &mut self.slots[v.idx];
        match slot {
            Slot::CopyBuf { refs, .. } => {
                *refs = *refs - token.count;
            },
            Slot::ExternalBuf { refs, .. } => {
                *refs = *refs - token.count;
            },
            _ => {
                proof {
                    assert(false);
                }
            },
        }
        proof {
            assert(self@.slots =~= old(self)@.sub_refs(token.value_idx(), token.count()).slots);
            assert(self@ =~= old(self)@.sub_refs(token.value_idx(), token.count()));
            lemma_sub_refs_wf(old(self)@, token.value_idx(), token.count());
        }
        Ok(())
    }

    /// One visit of the host's collector to one value: a live value with
    /// no outstanding strong reference is reclaimed, and if it was an
    /// external-transfer buffer its reclamation callback fires — the one
    /// legal place the natively supplied storage is freed, counted on the
    /// buffer's token. A referenced or already collected value is left
    /// alone. Returns whether the value was reclaimed on this visit.
    pub fn collect_value(&mut self, v: HostValue) -> (collected: bool)
        requires
            old(self)@.wf(),
        ensures
            final(self)@.wf(),
            collected == old(self)@.collectible(v@),
            final(self)@ == old(self)@.collect_one(v@),
    {
        if v.idx >= self.slots.len() {
            return false;
        }
        let (live_zero, ext_token): (bool, Option<usize>) = match &self.slots[v.idx] {
            Slot::CopyBuf { refs, .. } => (*refs == 0, None),
            Slot::ExternalBuf { refs, token, .. } => (*refs == 0, Some(*token)),
            Slot::Opaque => (true, None),
            Slot::Collected => (false, None),
        };
        if !live_zero {
            return false;
        }
        match ext_token {
            Some(t) => {
                proof {
                    assert(self@.is_external(v@));
                    assert(self@.token_of(v@) == t as nat);
                }
                let c = self.reclaims[t];
                let cell = &mut self.reclaims[t];
                *cell = c + 1;
            },
            None => {},
        }
        let slot = &mut self.slots[v.idx];
        *slot = Slot::Collected;
        proof {
            assert(self@.slots =~= old(self)@.collect_one(v@).slots);
            assert(self@.reclaims =~= old(self)@.collect_one(v@).reclaims);
            assert(self@ =~= old(self)@.collect_one(v@));
            lemma_collect_one_wf(old(self)@, v@);
        }
        true
    }

    /// A full pass of the host's collector over the whole heap: every
    /// live value with no outstanding strong reference is reclaimed, and
    /// the reclamation callback of every dying external buffer fires
    /// exactly once on its token. Every protected or already collected
    /// value, and every other token, is left untouched.
    pub fn collect_garbage(&mut self)
        requires
            old(self)@.wf(),
        ensures
            final(self)@.wf(),
            final(self)@.slots.len() == old(self)@.slots.len(),
            final(self)@.reclaims.len() == old(self)@.reclaims.len(),
            final(self)@.alloc_ok == old(self)@.alloc_ok,
            forall|i: int| #[trigger] old(self)@.collectible(i) ==> final(self)@.slots[i] is Collected,
            forall|i: int|
                #![trigger old(self)@.slots[i]]
                old(self)@.in_range(i) && !old(self)@.collectible(i)
                    ==> final(self)@.slots[i] == old(self)@.slots[i],
            forall|i: int|
                #[trigger] old(self)@.is_external(i) && old(self)@.refs_of(i) == 0
                    ==> final(self)@.reclaims[old(self)@.token_of(i) as int] == 1,
            forall|t: int|
                0 <= t < old(self)@.reclaims.len() && !old(self)@.dying_external_with(t)
                    ==> final(self)@.reclaims[t] == old(self)@.reclaims[t],
    {
        let ghost m0 = self@;
        let mut i: usize = 0;
        while i < self.slots.len()
            invariant
                m0.wf(),
                self@.wf(),
                i <= m0.slots.len(),
                self@.slots.len() == m0.slots.len(),
                self@.reclaims.len() == m0.reclaims.len(),
                self@.alloc_ok == m0.alloc_ok,
                forall|j: int|
                    0 <= j < i && #[trigger] m0.collectible(j) ==> self@.slots[j] is Collected,
                forall|j: int|
                    #![trigger m0.slots[j]]
                    m0.in_range(j) && !(0 <= j < i && m0.collectible(j))
                        ==> self@.slots[j] == m0.slots[j],
                forall|j: int|
                    0 <= j < i && #[trigger] m0.is_external(j) && m0.refs_of(j) == 0
                        ==> self@.reclaims[m0.token_of(j) as int] == 1,
                forall|t: int|
                    0 <= t < m0.reclaims.len() && !m0.dying_external_before(i as int, t)
                        ==> self@.reclaims[t] == m0.reclaims[t],
            decreases m0.slots.len() - i,
        {
            let ghost mp = self@;
            let _ = self.collect_value(HostValue { idx: i });
            proof {
                let ii = i as int;
                assert(mp.slots[ii] == m0.slots[ii]);
                assert(self@ == mp.collect_one(ii));
                assert forall|j: int|
                    #![trigger m0.slots[j]]
                    m0.in_range(j) && !(0 <= j < ii + 1 && m0.collectible(j)) implies
                    self@.slots[j] == m0.slots[j] by {
                    assert(mp.slots[j] == m0.slots[j]);
                }
                assert forall|j: int|
                    0 <= j < ii + 1 && #[trigger] m0.is_external(j) && m0.refs_of(j) == 0 implies
                    self@.reclaims[m0.token_of(j) as int] == 1 by {
                    if j < ii {
                        if mp.collectible(ii) && mp.slots[ii] is ExternalBuf {
                            assert(m0.is_external(ii));
                            assert(m0.token_of(j) != m0.token_of(ii));
                        }
                    } else {
                        assert(mp.is_external(ii) && mp.refs_of(ii) == 0);
                        assert(!m0.dying_external_before(ii, m0.token_of(ii) as int)) by {
                            assert forall|k: int|
                                0 <= k < ii && #[trigger] m0.is_external(k) && m0.refs_of(k) == 0
                                    implies m0.token_of(k) != m0.token_of(ii) by {}
                        }
                        assert(mp.reclaims[m0.token_of(ii) as int] == m0.reclaims[m0.token_of(
                            ii,
                        ) as int]);
                        assert(m0.reclaims[m0.token_of(ii) as int] == 0);
                    }
                }
                assert forall|t: int|
                    0 <= t < m0.reclaims.len() && !m0.dying_external_before(ii + 1, t) implies
                    self@.reclaims[t] == m0.reclaims[t] by {
                    assert(!m0.dying_external_before(ii, t));
                    if mp.collectible(ii) && mp.slots[ii] is ExternalBuf {
                        assert(m0.is_external(ii) && m0.refs_of(ii) == 0);
                        assert(m0.token_of(ii) != t);
                    }
                }
            }
            i = i + 1;
        }
        proof {
            assert forall|t: int|
                0 <= t < m0.reclaims.len() && !m0.dying_external_with(t) implies self@.reclaims[t]
                == m0.reclaims[t] by {
                assert(!m0.dying_external_before(m0.slots.len() as int, t));
            }
        }
    }

    /// How many host values this environment has ever created.
    pub fn value_count(&self) -> (n: usize)
        ensures
            n == self@.slots.len(),
    {
        self.slots.len()
    }

    /// The strong-reference units outstanding on a host value; zero for a
    /// handle this environment never issued.
    pub fn ref_count(&self, v: HostValue) -> (n: u64)
        ensures
            self@.in_range(v@) ==> n as nat == self@.refs_of(v@),
            !self@.in_range(v@) ==> n == 0,
    {
        if v.idx < self.slots.len() {
            match &self.slots[v.idx] {
                Slot::CopyBuf { refs, .. } => *refs,
                Slot::ExternalBuf { refs, .. } => *refs,
                _ => 0,
            }
        } else {
            0
        }
    }

    /// The allocation-tracking counter of one reclamation token: how often
    /// its callback has fired. Exactly-once reclamation means it reaches
    /// one, and never more, over an external buffer's lifetime.
    pub fn reclaim_count(&self, token: usize) -> (n: u64)
        ensures
            (token as int) < self@.reclaims.len() ==> n as nat == self@.reclaims[token as int],
            (token as int) >= self@.reclaims.len() ==> n == 0,
    {
        if token < self.reclaims.len() {
            self.reclaims[token]
        } else {
            0
        }
    }
}

} // verus!
