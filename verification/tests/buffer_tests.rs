//! Exercises the four transfer strategies against the host environment
//! capability: round trips, reclamation accounting, pinning, zero-length
//! buffers, type rejection and release discipline.

use nj_buffer::buffer::convert_to_rust;
use nj_buffer::buffer::ArrayBuffer;
use nj_buffer::buffer::Buffer;
use nj_buffer::buffer::JSArrayBuffer;
use nj_buffer::error::NjError;
use nj_buffer::host::JsEnv;

#[test]
fn copy_round_trip_identity() {
    let mut env = JsEnv::new();
    let bytes = vec![1u8, 2, 3, 4, 5];
    let b = Buffer::new(bytes.clone());
    let v = b.try_to_js(&mut env).expect("copy transfer should succeed");
    let back = Buffer::convert_to_rust(&env, v).expect("ingestion should succeed");
    assert_eq!(back.into_inner(), bytes);
}

#[test]
fn external_round_trip_identity() {
    let mut env = JsEnv::new();
    let bytes = vec![10u8, 20, 30];
    let b = ArrayBuffer::new(bytes.clone());
    let v = b.try_to_js(&mut env).expect("external transfer should succeed");
    let back = Buffer::convert_to_rust(&env, v).expect("ingestion should succeed");
    assert_eq!(back.into_inner(), bytes);
}

#[test]
fn external_reclaimed_exactly_once() {
    let mut env = JsEnv::new();
    let b = ArrayBuffer::new(vec![9u8, 8, 7]);
    let v = b.try_to_js(&mut env).expect("external transfer should succeed");
    // The first external transfer of this environment uses token 0.
    assert_eq!(env.reclaim_count(0), 0);
    assert!(env.collect_value(v));
    assert_eq!(env.reclaim_count(0), 1);
    // A later collector pass must not fire the callback again.
    assert!(!env.collect_value(v));
    assert_eq!(env.reclaim_count(0), 1);
    // The freed storage is gone: the value is no longer an ingestible buffer.
    assert_eq!(
        Buffer::convert_to_rust(&env, v).unwrap_err(),
        NjError::TypeMismatch
    );
}

#[test]
fn borrowed_view_reads_without_owning() {
    let mut env = JsEnv::new();
    let bytes = vec![42u8, 43, 44];
    let v = Buffer::new(bytes.clone())
        .try_to_js(&mut env)
        .expect("copy transfer should succeed");
    let view = convert_to_rust(&env, v).expect("borrowed ingestion should succeed");
    assert_eq!(view, bytes.as_slice());
}

#[test]
fn borrowed_view_rejects_non_buffer() {
    let mut env = JsEnv::new();
    let v = env.create_opaque();
    assert_eq!(convert_to_rust(&env, v).unwrap_err(), NjError::TypeMismatch);
}

#[test]
fn pinned_bytes_survive_collection_pressure() {
    let mut env = JsEnv::new();
    let bytes = vec![5u8, 6, 7, 8];
    let v = Buffer::new(bytes.clone())
        .try_to_js(&mut env)
        .expect("copy transfer should succeed");
    let pre_pin_refs = env.ref_count(v);
    let handle = JSArrayBuffer::convert_to_rust(&mut env, v).expect("pin should succeed");
    assert_eq!(env.ref_count(v), pre_pin_refs + 1);

    // Mutate the heap and apply collection pressure after the producing
    // call has returned: a full collector pass over every value.
    let other = Buffer::new(vec![0u8; 16])
        .try_to_js(&mut env)
        .expect("copy transfer should succeed");
    env.collect_garbage();
    assert_eq!(
        Buffer::convert_to_rust(&env, other).unwrap_err(),
        NjError::TypeMismatch,
        "the unpinned value should be gone"
    );
    assert!(!env.collect_value(v), "a pinned value must not be collected");

    assert_eq!(
        handle.as_bytes(&env).expect("pinned read should succeed"),
        bytes.as_slice()
    );

    handle.release(&mut env).expect("release should succeed");
    assert_eq!(env.ref_count(v), pre_pin_refs);
    // With the pin gone the value is collectible again.
    assert!(env.collect_value(v));
}

#[test]
fn pin_rejects_non_buffer_without_taking_references() {
    let mut env = JsEnv::new();
    let v = env.create_opaque();
    match JSArrayBuffer::convert_to_rust(&mut env, v) {
        Ok(_) => panic!("pinning a non-buffer must fail"),
        Err(e) => assert_eq!(e, NjError::TypeMismatch),
    }
    assert_eq!(env.ref_count(v), 0);
}

#[test]
fn zero_length_copy_succeeds() {
    let mut env = JsEnv::new();
    let v = Buffer::new(Vec::new())
        .try_to_js(&mut env)
        .expect("zero-length copy should succeed");
    let back = Buffer::convert_to_rust(&env, v).expect("ingestion should succeed");
    assert_eq!(back.into_inner(), Vec::<u8>::new());
}

#[test]
fn zero_length_external_succeeds() {
    let mut env = JsEnv::new();
    let v = ArrayBuffer::new(Vec::new())
        .try_to_js(&mut env)
        .expect("zero-length external transfer should succeed");
    let view = convert_to_rust(&env, v).expect("borrowed ingestion should succeed");
    assert_eq!(view.len(), 0);
    assert!(env.collect_value(v));
    assert_eq!(env.reclaim_count(0), 1);
}

#[test]
fn zero_length_pin_succeeds() {
    let mut env = JsEnv::new();
    let v = Buffer::new(Vec::new())
        .try_to_js(&mut env)
        .expect("zero-length copy should succeed");
    let handle = JSArrayBuffer::convert_to_rust(&mut env, v).expect("pin should succeed");
    assert_eq!(
        handle.as_bytes(&env).expect("pinned read should succeed").len(),
        0
    );
    handle.release(&mut env).expect("release should succeed");
}

#[test]
fn ingest_rejects_non_buffer_without_allocation() {
    let mut env = JsEnv::new();
    let v = env.create_opaque();
    let heap_size = env.value_count();
    assert_eq!(
        Buffer::convert_to_rust(&env, v).unwrap_err(),
        NjError::TypeMismatch
    );
    assert_eq!(env.value_count(), heap_size, "rejection must not allocate");
}

#[test]
fn copy_transfer_reports_allocation_failure() {
    let mut env = JsEnv::new();
    env.set_alloc_ok(false);
    let before = env.value_count();
    assert_eq!(
        Buffer::new(vec![1u8]).try_to_js(&mut env).unwrap_err(),
        NjError::HostAllocationFailure
    );
    assert_eq!(env.value_count(), before);
}

#[test]
fn external_transfer_reports_allocation_failure() {
    let mut env = JsEnv::new();
    env.set_alloc_ok(false);
    assert_eq!(
        ArrayBuffer::new(vec![1u8, 2]).try_to_js(&mut env).unwrap_err(),
        NjError::HostAllocationFailure
    );
    // No token was issued, so nothing is ever reclaimed.
    assert_eq!(env.reclaim_count(0), 0);
    env.set_alloc_ok(true);
    let v = ArrayBuffer::new(vec![1u8, 2])
        .try_to_js(&mut env)
        .expect("transfer should succeed once allocation recovers");
    assert!(env.collect_value(v));
}

#[test]
fn double_release_of_strong_reference_is_rejected() {
    let mut env = JsEnv::new();
    let v = Buffer::new(vec![3u8, 1, 4])
        .try_to_js(&mut env)
        .expect("copy transfer should succeed");
    let token = env
        .create_strong_reference(v, 1)
        .expect("taking a reference should succeed");
    assert_eq!(env.ref_count(v), 1);
    env.delete_strong_reference(token)
        .expect("first release should succeed");
    assert_eq!(env.ref_count(v), 0);
    // Forcing a second release of the same reference is caught.
    assert_eq!(
        env.delete_strong_reference(token).unwrap_err(),
        NjError::EnvironmentConsistencyViolation
    );
    assert_eq!(env.ref_count(v), 0);
}

#[test]
fn release_of_stolen_pin_propagates_violation() {
    // Forcing a second release of the pin's reference unit behind the
    // handle's back breaks the ownership boundary. The handle's own
    // release then reports the breakage as a propagated
    // EnvironmentConsistencyViolation rather than aborting the process.
    let mut env = JsEnv::new();
    let v = Buffer::new(vec![9u8])
        .try_to_js(&mut env)
        .expect("copy transfer should succeed");
    let handle = JSArrayBuffer::convert_to_rust(&mut env, v).expect("pin should succeed");
    let extra = env
        .create_strong_reference(v, 1)
        .expect("taking a reference should succeed");
    env.delete_strong_reference(extra)
        .expect("first release should succeed");
    // The copied token releases once more, stealing the pin's unit.
    env.delete_strong_reference(extra)
        .expect("the environment cannot tell whose unit this is");
    assert_eq!(env.ref_count(v), 0);
    match handle.release(&mut env) {
        Ok(_) => panic!("release of a stolen reference must be rejected"),
        Err(e) => assert_eq!(e, NjError::EnvironmentConsistencyViolation),
    }
}

#[test]
fn reference_token_reports_its_value() {
    let mut env = JsEnv::new();
    let v = Buffer::new(vec![1u8])
        .try_to_js(&mut env)
        .expect("copy transfer should succeed");
    let token = env
        .create_strong_reference(v, 2)
        .expect("taking references should succeed");
    assert_eq!(env.ref_count(token.value()), 2);
    env.delete_strong_reference(token)
        .expect("release should succeed");
    assert_eq!(env.ref_count(v), 0);
}

#[test]
fn full_collector_pass_reclaims_each_external_once() {
    let mut env = JsEnv::new();
    // Tokens are issued in order: 0, 1, 2.
    let a = ArrayBuffer::new(vec![1u8]).try_to_js(&mut env).unwrap();
    let b = ArrayBuffer::new(vec![2u8]).try_to_js(&mut env).unwrap();
    let c = ArrayBuffer::new(vec![3u8]).try_to_js(&mut env).unwrap();
    let pinned = JSArrayBuffer::convert_to_rust(&mut env, b).expect("pin should succeed");

    env.collect_garbage();
    assert_eq!(env.reclaim_count(0), 1);
    assert_eq!(env.reclaim_count(1), 0, "the pinned external must not be reclaimed");
    assert_eq!(env.reclaim_count(2), 1);
    assert_eq!(
        handle_bytes(&pinned, &env),
        vec![2u8],
        "the pinned external still reads its bytes"
    );

    // A second pass fires no callback again.
    env.collect_garbage();
    assert_eq!(env.reclaim_count(0), 1);
    assert_eq!(env.reclaim_count(2), 1);
    let _ = a;
    let _ = c;

    // Releasing the pin makes the last external collectible, once.
    pinned.release(&mut env).expect("release should succeed");
    env.collect_garbage();
    assert_eq!(env.reclaim_count(1), 1);
    env.collect_garbage();
    assert_eq!(env.reclaim_count(1), 1);
}

fn handle_bytes(handle: &JSArrayBuffer, env: &JsEnv) -> Vec<u8> {
    handle
        .as_bytes(env)
        .expect("pinned read should succeed")
        .to_vec()
}

#[test]
fn copy_buffer_keeps_native_copy_independent() {
    let mut env = JsEnv::new();
    let bytes = vec![11u8, 12];
    let v = Buffer::new(bytes.clone())
        .try_to_js(&mut env)
        .expect("copy transfer should succeed");
    // Collecting the host's copy never touches natively owned bytes and
    // fires no reclamation callback (no token exists for a copied buffer).
    assert!(env.collect_value(v));
    assert_eq!(env.reclaim_count(0), 0);
    assert_eq!(bytes, vec![11u8, 12]);
}
