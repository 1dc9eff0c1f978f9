//! The four transfer strategies for byte sequences crossing the
//! native/host boundary.
//!
//! A byte sequence is either *given away* — [`ArrayBuffer`] moves its
//! storage to the host without a copy, [`Buffer`] lets the host copy it —
//! or *observed*: [`convert_to_rust`] yields a borrowed view bounded by
//! the borrow of the environment, and [`JSArrayBuffer`] pins the host
//! value under a strong reference so its bytes stay readable after the
//! producing call returns.

use vstd::prelude::*;

verus! {

use crate::error::NjError;
use crate::host::EnvModel;
use crate::host::HostValue;
use crate::host::JsEnv;
use crate::host::RefToken;

/// A natively owned byte sequence destined for the host as a zero-copy
/// external buffer.
#[derive(Debug)]
pub struct ArrayBuffer {
    data: Vec<u8>,
}

impl View for ArrayBuffer {
    type V = Seq<u8>;

    closed spec fn view(&self) -> Seq<u8> {
        self.data@
    }
}

impl ArrayBuffer {
    /// Wrap an owned byte sequence for external transfer.
    pub fn new(data: Vec<u8>) -> (b: Self)
        ensures
            b@ == data@,
    {
        Self { data }
    }

    /// Give the bytes to the host without a copy. On success the host's
    /// new buffer value is backed by this very sequence, and the host owes
    /// the reclamation callback exactly one invocation on the fresh token
    /// — the only legal place the storage is then freed. On allocation
    /// failure the host keeps nothing; the sequence is reconstructed and
    /// dropped synchronously rather than leaked, since the callback will
    /// never fire for it.
    pub fn try_to_js(self, js_env: &mut JsEnv) -> (r: Result<HostValue, NjError>)
        requires
            old(js_env)@.wf(),
        ensures
            final(js_env)@.wf(),
            old(js_env)@.alloc_ok ==> (r is Ok && r->Ok_0@ == old(js_env)@.slots.len() as int
                && final(js_env)@ == old(js_env)@.push_external(self@)),
            !old(js_env)@.alloc_ok ==> (r is Err && r->Err_0 == NjError::HostAllocationFailure
                && final(js_env)@ == old(js_env)@),
    {
        js_env.create_external_buffer(self.data)
    }
}

/// A natively owned byte sequence transferred to the host by copying, or
/// ingested from the host by copying. Strictly simpler than external
/// transfer at the cost of one copy: nothing is shared, so each side frees
/// its own storage through ordinary ownership rules.
#[derive(Debug)]
pub struct Buffer {
    data: Vec<u8>,
}

impl View for Buffer {
    type V = Seq<u8>;

    closed spec fn view(&self) -> Seq<u8> {
        self.data@
    }
}

impl Buffer {
    /// Wrap an owned byte sequence.
    pub fn new(data: Vec<u8>) -> (b: Self)
        ensures
            b@ == data@,
    {
        Self { data }
    }

    /// The owned bytes back out.
    pub fn into_inner(self) -> (data: Vec<u8>)
        ensures
            data@ == self@,
    {
        self.data
    }

    /// Hand the bytes to the host by copy. On success the host's new
    /// buffer value holds an equal sequence that the host owns in full
    /// from creation onward; the native copy is dropped here.
    pub fn try_to_js(self, js_env: &mut JsEnv) -> (r: Result<HostValue, NjError>)
        requires
            old(js_env)@.wf(),
        ensures
            final(js_env)@.wf(),
            old(js_env)@.alloc_ok ==> (r is Ok && r->Ok_0@ == old(js_env)@.slots.len() as int
                && final(js_env)@ == old(js_env)@.push_copy(self@)),
            !old(js_env)@.alloc_ok ==> (r is Err && r->Err_0 == NjError::HostAllocationFailure
                && final(js_env)@ == old(js_env)@),
    {
        js_env.create_buffer_by_copy(&self.data)
    }

    /// Ingest a host buffer value by copying its bytes into a natively
    /// owned sequence. A host value that is not a buffer is rejected with
    /// `TypeMismatch` and the host heap is untouched. A zero-length buffer
    /// yields a valid zero-length sequence.
    pub fn convert_to_rust(env: &JsEnv, js_value: HostValue) -> (r: Result<Buffer, NjError>)
        ensures
            env@.is_buffer(js_value@) ==> (r is Ok && r->Ok_0@ == env@.slot_bytes(js_value@)),
            !env@.is_buffer(js_value@) ==> (r is Err && r->Err_0 == NjError::TypeMismatch),
    {
        if !env.is_buffer(js_value) {
            return Err(NjError::TypeMismatch);
        }
        match env.get_buffer_storage(js_value) {
            Ok(stored) => Ok(Buffer { data: stored.clone() }),
            Err(e) => {
                proof {
                    assert(false);
                }
                Err(e)
            },
        }
    }
}

/// Borrowed ingestion: a non-owning view of the bytes inside a host
/// buffer value. The view borrows the environment, so it is valid only
/// for the lexical scope of that borrow — retaining it across any later
/// mutation of the host heap is a compile-time error, not a runtime
/// hazard. Nothing is ever freed through this path.
pub fn convert_to_rust<'a>(env: &'a JsEnv, js_value: HostValue) -> (r: Result<&'a [u8], NjError>)
    ensures
        env@.is_buffer(js_value@) ==> (r is Ok && r->Ok_0@ == env@.slot_bytes(js_value@)),
        !env@.is_buffer(js_value@) ==> (r is Err && r->Err_0 == NjError::TypeMismatch),
{
    if !env.is_buffer(js_value) {
        return Err(NjError::TypeMismatch);
    }
    match env.get_buffer_storage(js_value) {
        Ok(stored) => Ok(stored.as_slice()),
        Err(e) => {
            proof {
                assert(false);
            }
            Err(e)
        },
    }
}

/// A pinned handle to a host buffer value: a strong reference keeps the
/// value uncollected, so its bytes stay readable after the call that
/// produced it returns. The handle bundles the proof of the pin (the
/// reference token) with the view, and gives the reference back in
/// exactly one release — the handle is consumed by [`JSArrayBuffer::release`],
/// so a second release of the same pin is unrepresentable.
pub struct JSArrayBuffer {
    value: HostValue,
    nref: RefToken,
    bytes: Ghost<Seq<u8>>,
}

impl View for JSArrayBuffer {
    type V = Seq<u8>;

    /// The bytes of the pinned buffer, as snapshotted at pin time.
    closed spec fn view(&self) -> Seq<u8> {
        self.bytes@
    }
}

impl JSArrayBuffer {
    /// Every handle holds one reference unit on the very value it views.
    #[verifier::type_invariant]
    spec fn type_inv(self) -> bool {
        self.nref.value_idx() == self.value@ && self.nref.count() == 1
    }

    /// The host value this handle pins.
    pub closed spec fn value_idx(self) -> int {
        self.value@
    }

    /// The handle is in force in heap `m`: its value is a live buffer,
    /// the pin's reference unit is outstanding, and the buffer's bytes
    /// still equal the snapshot taken at pin time.
    pub open spec fn valid(self, m: EnvModel) -> bool {
        &&& m.is_buffer(self.value_idx())
        &&& m.refs_of(self.value_idx()) >= 1
        &&& m.slot_bytes(self.value_idx()) == self@
    }

    /// Pin a host buffer value: take one strong-reference unit so the
    /// host will not collect it, and record its bytes as the handle's
    /// view. A host value that is not a buffer is rejected with
    /// `TypeMismatch` before any reference is taken, so nothing leaks.
    pub fn convert_to_rust(env: &mut JsEnv, napi_value: HostValue) -> (r: Result<
        JSArrayBuffer,
        NjError,
    >)
        requires
            old(env)@.wf(),
            old(env)@.is_buffer(napi_value@) ==> old(env)@.refs_of(napi_value@) + 1 <= u64::MAX,
        ensures
            final(env)@.wf(),
            old(env)@.is_buffer(napi_value@) ==> (r is Ok && r->Ok_0.value_idx() == napi_value@
                && r->Ok_0@ == old(env)@.slot_bytes(napi_value@)
                && r->Ok_0.valid(final(env)@)
                && final(env)@ == old(env)@.add_refs(napi_value@, 1)),
            !old(env)@.is_buffer(napi_value@) ==> (r is Err && r->Err_0 == NjError::TypeMismatch
                && final(env)@ == old(env)@),
    {
        if !env.is_buffer(napi_value) {
            return Err(NjError::TypeMismatch);
        }
        let ghost snapshot: Seq<u8> = env@.slot_bytes(napi_value@);
        match env.create_strong_reference(napi_value, 1) {
            Ok(nref) => Ok(JSArrayBuffer { value: napi_value, nref, bytes: Ghost(snapshot) }),
            Err(e) => {
                proof {
                    assert(false);
                }
                Err(e)
            },
        }
    }

    /// The pinned bytes, read out of the host value. While the handle is
    /// in force this returns exactly the bytes snapshotted at pin time.
    pub fn as_bytes<'a>(&self, env: &'a JsEnv) -> (r: Result<&'a [u8], NjError>)
        ensures
            env@.is_buffer(self.value_idx()) ==> (r is Ok && r->Ok_0@ == env@.slot_bytes(
                self.value_idx(),
            )),
            self.valid(env@) ==> (r is Ok && r->Ok_0@ == self@),
            !env@.is_buffer(self.value_idx()) ==> (r is Err && r->Err_0 == NjError::TypeMismatch),
    {
        match env.get_buffer_storage(self.value) {
            Ok(stored) => Ok(stored.as_slice()),
            Err(e) => Err(e),
        }
    }

    /// Destroy the handle, giving its strong-reference unit back: the
    /// exactly-once release of the pin. Consuming `self` makes releasing
    /// the same pin twice a compile-time error. If the host reports that
    /// the reference is no longer outstanding, the ownership model has
    /// diverged: the heap is left untouched and
    /// `EnvironmentConsistencyViolation` is reported as a distinct,
    /// propagated error.
    pub fn release(self, env: &mut JsEnv) -> (r: Result<(), NjError>)
        requires
            old(env)@.wf(),
        ensures
            final(env)@.wf(),
            (old(env)@.is_buffer(self.value_idx()) && old(env)@.refs_of(self.value_idx()) >= 1)
                ==> (r is Ok && final(env)@ == old(env)@.sub_refs(self.value_idx(), 1)),
            !(old(env)@.is_buffer(self.value_idx()) && old(env)@.refs_of(self.value_idx()) >= 1)
                ==> (r is Err && r->Err_0 == NjError::EnvironmentConsistencyViolation
                && final(env)@ == old(env)@),
    {
        proof {
            use_type_invariant(&self);
        }
        env.delete_strong_reference(self.nref)
    }
}

} // verus!
