//! Tests for the reference validator: element-for-element comparison and
//! lock-step replay of the seeded two-word generator.

use vulkanology::composer::{compose, Fragment};
use vulkanology::descriptor::{BindingDecl, ElemType, Extent, WorkloadDescriptor};
use vulkanology::harness::{
    acquire_read, acquire_write, allocate, submit, wait, AcceleratorContext, DeviceOutcome,
};
use vulkanology::validator::{check_exact, host_replay, xoroshiro128plus, CheckOutcome, PrngState};

fn binding(name: &str, elem: ElemType, count: usize) -> BindingDecl {
    BindingDecl { name: name.as_bytes().to_vec(), elem, count }
}

/// Implementation of the xoroshiro128+ PRNG over a two-word array, the
/// reference the device implementation is held against.
fn xoroshiro128plus_words(seed: &mut [u64; 2]) -> u64 {
    let mut state = PrngState { s0: seed[0], s1: seed[1] };
    let result = xoroshiro128plus(&mut state);
    seed[0] = state.s0;
    seed[1] = state.s1;
    result
}

/// Compares a device-side run of xoroshiro128+ against the host
/// implementation: both sides are seeded with the same deterministically
/// generated values and each advances its state exactly once per
/// invocation, so the read-back seed pairs and the outputs must agree at
/// every index.
#[test]
fn test_random_next_u64() {
    const NUM_INVOCATIONS: usize = 640000;
    const PRNG_XOROSHIRO128PLUS_NUM_U64: usize = 2;

    // The device program, composed from its one source fragment; the host
    // stands in for the accelerator below and runs the same generator.
    let program = Fragment {
        path: b"tests/shaders/random.comp".to_vec(),
        content: b"result[i] = next_u64(prng[2 * i], prng[2 * i + 1]);\n".to_vec(),
    };
    let _source = compose(&vec![program]).unwrap();

    let descriptor = WorkloadDescriptor::new(
        vec![
            binding("prng", ElemType::U64, NUM_INVOCATIONS * PRNG_XOROSHIRO128PLUS_NUM_U64),
            binding("result", ElemType::U64, NUM_INVOCATIONS),
        ],
        vec![],
        Extent { x: 100, y: 100, z: 1 },
    )
    .unwrap();

    let ctx = AcceleratorContext { device_available: true };
    let mut workload = allocate(&ctx, descriptor).unwrap();

    // Fill the seed buffer with deterministically generated seeds and keep
    // a clone of the generator for the host replay.
    let mut seed_generator = PrngState { s0: 0x0123456789abcdef, s1: 0xfedcba9876543210 };
    let mut seed_generator_clone = seed_generator;
    let seeds: Vec<u64> = (0..NUM_INVOCATIONS * PRNG_XOROSHIRO128PLUS_NUM_U64)
        .map(|_| xoroshiro128plus(&mut seed_generator))
        .collect();
    acquire_write(&mut workload, &b"prng".to_vec(), seeds.clone()).unwrap();

    let mut handle = submit(&mut workload).unwrap();

    // The device advances each invocation's seed pair exactly once, in
    // ascending index order, and records the output word.
    let (device_seeds, device_results) = host_replay(&seeds, NUM_INVOCATIONS);
    wait(
        &mut workload,
        &mut handle,
        DeviceOutcome::Completed(vec![device_seeds, device_results]),
    )
    .unwrap();

    // Assert the validity of the results.
    let seed_buffer = acquire_read(&workload, &b"prng".to_vec()).unwrap();
    let result_buffer = acquire_read(&workload, &b"result".to_vec()).unwrap();

    for (invocation_uid, remote_result) in result_buffer.iter().enumerate() {
        // Get the next seed.
        let mut local_seed = [
            xoroshiro128plus(&mut seed_generator_clone),
            xoroshiro128plus(&mut seed_generator_clone),
        ];

        // Compute the result locally.
        let local_result = xoroshiro128plus_words(&mut local_seed);

        // Compare the local results with the results from the shader.
        let seed_id_offset = PRNG_XOROSHIRO128PLUS_NUM_U64 * invocation_uid;
        let remote_seed = [seed_buffer[seed_id_offset], seed_buffer[seed_id_offset + 1]];
        assert_eq!(remote_seed, local_seed);
        assert_eq!(*remote_result, local_result);
    }
}

/// One step of the generator from a known seed: the output is the wrapping
/// sum of the two state words, and the state advances by the documented
/// combining and rotation schedule.
#[test]
fn one_generator_step_has_exact_values() {
    let mut state = PrngState { s0: 1, s1: 2 };
    let out = xoroshiro128plus(&mut state);
    // result = s0 + s1
    assert_eq!(out, 3);
    // t = s1 ^ s0 = 3; s0' = rotl(1, 55) ^ 3 ^ (3 << 14); s1' = rotl(3, 36)
    assert_eq!(state.s0, (1u64 << 55) ^ 3 ^ (3 << 14));
    assert_eq!(state.s1, 3u64 << 36);

    // The wrapping sum wraps at the word boundary.
    let mut state = PrngState { s0: u64::MAX, s1: 2 };
    assert_eq!(xoroshiro128plus(&mut state), 1);
}

/// Equal buffers pass the element-for-element check.
#[test]
fn equal_buffers_pass() {
    let device = vec![1u64, 2, 3];
    let host = vec![1u64, 2, 3];
    assert_eq!(check_exact(&device, &host), CheckOutcome::Pass);
}

/// A divergence fails at the first mismatching index and reports both
/// values.
#[test]
fn first_mismatch_is_reported_with_both_values() {
    let device = vec![1u64, 2, 9, 8];
    let host = vec![1u64, 2, 3, 8];
    assert_eq!(
        check_exact(&device, &host),
        CheckOutcome::Mismatch { index: 2, device_value: 9, host_value: 3 }
    );
    // Two mismatches: only the first is reported.
    let device = vec![0u64, 2, 9];
    let host = vec![1u64, 2, 3];
    assert_eq!(
        check_exact(&device, &host),
        CheckOutcome::Mismatch { index: 0, device_value: 0, host_value: 1 }
    );
}

/// The host replay advances every pair exactly once, in ascending order:
/// it agrees pairwise with stepping each invocation's seed by hand.
#[test]
fn replay_matches_stepping_each_pair_once() {
    let seeds: Vec<u64> = vec![11, 22, 33, 44, 55, 66];
    let (replayed_seeds, replayed_results) = host_replay(&seeds, 3);
    assert_eq!(replayed_seeds.len(), 6);
    assert_eq!(replayed_results.len(), 3);
    for i in 0..3 {
        let mut pair = PrngState { s0: seeds[2 * i], s1: seeds[2 * i + 1] };
        let word = xoroshiro128plus(&mut pair);
        assert_eq!(replayed_seeds[2 * i], pair.s0);
        assert_eq!(replayed_seeds[2 * i + 1], pair.s1);
        assert_eq!(replayed_results[i], word);
    }
    // The check confirms lock-step agreement of the full replica...
    assert_eq!(check_exact(&replayed_seeds, &replayed_seeds.clone()), CheckOutcome::Pass);
    // ...and catches a device that advanced one pair a second time.
    let mut diverged = replayed_seeds.clone();
    let mut pair = PrngState { s0: diverged[2], s1: diverged[3] };
    let _ = xoroshiro128plus(&mut pair);
    diverged[2] = pair.s0;
    diverged[3] = pair.s1;
    match check_exact(&diverged, &replayed_seeds) {
        CheckOutcome::Mismatch { index, .. } => assert_eq!(index, 2),
        CheckOutcome::Pass => panic!("divergence went unnoticed"),
    }
}
