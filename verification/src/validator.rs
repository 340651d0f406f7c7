//! Validation of device-computed results against a host-computed reference.
//!
//! The check walks every invocation index once, in ascending order, and
//! compares the device's value to the host's. It fails at the first
//! mismatching index and reports that index together with both values. For
//! a stateful reference — a seeded, order-dependent generator — the host
//! replica advances its state exactly once per invocation index, and the
//! device-visible seed buffer is read back and compared element for
//! element, not merely the final outputs.

use vstd::prelude::*;

verus! {

/// What an element-for-element comparison found.
#[derive(Clone, Copy, Debug, PartialEq, Eq, Structural)]
pub enum CheckOutcome {
    /// Every index agreed.
    Pass,
    /// The first disagreeing index, with both values.
    Mismatch {
        /// The lowest index at which the two sides disagree.
        index: usize,
        /// What the device reported at that index.
        device_value: u64,
        /// What the host reference computed at that index.
        host_value: u64,
    },
}

/// Compares a device buffer to the host reference, element for element.
///
/// Walks every index in `[0, len)` exactly once, in ascending order:
/// passes exactly when the two agree everywhere, and otherwise stops at
/// the first mismatching index, reporting it with both values.
pub fn check_exact(device: &Vec<u64>, host: &Vec<u64>) -> (r: CheckOutcome)
    requires
        device@.len() == host@.len(),
    ensures
        (r is Pass) <==> device@ == host@,
        r matches CheckOutcome::Mismatch { index, device_value, host_value } ==> {
            &&& index < device@.len()
            &&& device@[index as int] != host@[index as int]
            &&& device_value == device@[index as int]
            &&& host_value == host@[index as int]
            &&& forall|j: int| 0 <= j < index ==> device@[j] == host@[j]
        },
{
    let mut i: usize = 0;
    while i < device.len()
        invariant
            i <= device@.len(),
            device@.len() == host@.len(),
            forall|j: int| 0 <= j < i ==> device@[j] == host@[j],
        decreases device@.len() - i,
    {
        if device[i] != host[i] {
            return CheckOutcome::Mismatch { index: i, device_value: device[i], host_value: host[i] };
        }
        i += 1;
    }
    proof {
        assert(device@ =~= host@);
    }
    CheckOutcome::Pass
}

/// The two-word state of the xoroshiro128+ generator.
#[derive(Clone, Copy, Debug, PartialEq, Eq, Structural)]
pub struct PrngState {
    /// The first state word.
    pub s0: u64,
    /// The second state word.
    pub s1: u64,
}

/// The word rotated left by `k` bits, the high bits wrapping to the low end.
pub open spec fn rotated_left(x: u64, k: u64) -> u64
    recommends
        0 < k < 64,
{
    (x << k) | (x >> ((64 - k) as u64))
}

/// One step of xoroshiro128+: the next state and the output word, which is
/// the wrapping sum of the two state words.
pub open spec fn prng_step(s: PrngState) -> (PrngState, u64) {
    let result = vstd::wrapping::u64_specs::wrapping_add(s.s0, s.s1);
    let t = s.s1 ^ s.s0;
    let next = PrngState {
        s0: rotated_left(s.s0, 55) ^ t ^ (t << 14u64),
        s1: rotated_left(t, 36),
    };
    (next, result)
}

fn rotate_left_word(x: u64, k: u64) -> (r: u64)
    requires
        0 < k < 64,
    ensures
        r == rotated_left(x, k),
{
    (x << k) | (x >> (64 - k))
}

/// Advances the generator state once and returns the output word, exactly
/// one [`prng_step`].
pub fn xoroshiro128plus(seed: &mut PrngState) -> (r: u64)
    ensures
        (*final(seed), r) == prng_step(*old(seed)),
{
    let s0 = seed.s0;
    let mut s1 = seed.s1;
    let result = s0.wrapping_add(s1);
    s1 = s1 ^ s0;
    seed.s0 = rotate_left_word(s0, 55) ^ s1 ^ (s1 << 14u64);
    seed.s1 = rotate_left_word(s1, 36);
    result
}

/// The seed pair that invocation `i` starts from: the two words at offset
/// `2 * i` of the seed buffer.
pub open spec fn seed_pair(seeds: Seq<u64>, i: int) -> PrngState
    recommends
        0 <= i,
        2 * i + 1 < seeds.len(),
{
    PrngState { s0: seeds[2 * i], s1: seeds[2 * i + 1] }
}

/// The seed buffer after the host replica advanced every invocation's pair
/// exactly once, in ascending index order.
pub open spec fn replica_seeds(seeds: Seq<u64>, n: int) -> Seq<u64> {
    Seq::new(
        (2 * n) as nat,
        |j: int|
            if j % 2 == 0 {
                prng_step(seed_pair(seeds, j / 2)).0.s0
            } else {
                prng_step(seed_pair(seeds, j / 2)).0.s1
            },
    )
}

/// The output word of each invocation of the host replica.
pub open spec fn replica_results(seeds: Seq<u64>, n: int) -> Seq<u64> {
    Seq::new(n as nat, |i: int| prng_step(seed_pair(seeds, i)).1)
}

/// Replays the stateful reference on the host: for each invocation index in
/// `[0, n)`, strictly ascending, advances that invocation's seed pair
/// exactly once and records the advanced pair and the output word.
///
/// The result is the host replica to hold the device's read-back seed
/// buffer and result buffer against, element for element.
pub fn host_replay(seeds: &Vec<u64>, n: usize) -> (r: (Vec<u64>, Vec<u64>))
    requires
        seeds@.len() == 2 * n,
    ensures
        r.0@ == replica_seeds(seeds@, n as int),
        r.1@ == replica_results(seeds@, n as int),
{
    let total = seeds.len();
    let mut out_seeds: Vec<u64> = Vec::new();
    let mut out_results: Vec<u64> = Vec::new();
    let mut i: usize = 0;
    while i < n
        invariant
            i <= n,
            seeds@.len() == 2 * n,
            total == 2 * n,
            out_seeds@.len() == 2 * i,
            out_results@.len() == i,
            forall|j: int|
                0 <= j < 2 * i ==> out_seeds@[j] == #[trigger] replica_seeds(seeds@, n as int)[j],
            forall|j: int|
                0 <= j < i ==> out_results@[j] == #[trigger] replica_results(seeds@, n as int)[j],
        decreases n - i,
    {
        let mut st = PrngState { s0: seeds[2 * i], s1: seeds[2 * i + 1] };
        proof {
            assert(st == seed_pair(seeds@, i as int));
        }
        let word = xoroshiro128plus(&mut st);
        out_seeds.push(st.s0);
        out_seeds.push(st.s1);
        out_results.push(word);
        proof {
            assert((2 * i) % 2 == 0 && (2 * i + 1) % 2 == 1) by (nonlinear_arith);
            assert((2 * i) / 2 == i as int && (2 * i + 1) / 2 == i as int) by (nonlinear_arith);
        }
        i += 1;
    }
    proof {
        assert(out_seeds@ =~= replica_seeds(seeds@, n as int));
        assert(out_results@ =~= replica_results(seeds@, n as int));
    }
    (out_seeds, out_results)
}

/// Whether, at invocation index `i`, the device's advanced seed pair and
/// output word equal one step of the host reference on that invocation's
/// starting pair.
pub open spec fn lock_step_at(
    seeds: Seq<u64>,
    device_seeds: Seq<u64>,
    device_results: Seq<u64>,
    i: int,
) -> bool {
    let step = prng_step(seed_pair(seeds, i));
    &&& device_seeds[2 * i] == step.0.s0
    &&& device_seeds[2 * i + 1] == step.0.s1
    &&& device_results[i] == step.1
}

/// Lock-step agreement: the device's read-back seed buffer and result
/// buffer equal the host replica as wholes exactly when, at every
/// invocation index, the device's advanced seed pair and output word equal
/// the host's — so the element-for-element check of both buffers confirms
/// lock-step agreement at every index, not merely agreeing final outputs.
pub proof fn lemma_lock_step_agreement(
    seeds: Seq<u64>,
    device_seeds: Seq<u64>,
    device_results: Seq<u64>,
    n: int,
)
    requires
        n >= 0,
        seeds.len() == 2 * n,
        device_seeds.len() == 2 * n,
        device_results.len() == n,
    ensures
        (device_seeds == replica_seeds(seeds, n) && device_results == replica_results(seeds, n))
            <==> (forall|i: int|
            0 <= i < n ==> #[trigger] lock_step_at(seeds, device_seeds, device_results, i)),
{
    if forall|i: int| 0 <= i < n ==> #[trigger] lock_step_at(seeds, device_seeds, device_results, i) {
        assert forall|j: int| 0 <= j < 2 * n implies device_seeds[j] == replica_seeds(seeds, n)[j]
        by {
            let i = j / 2;
            assert(0 <= i < n && (j == 2 * i || j == 2 * i + 1)) by (nonlinear_arith)
                requires
                    0 <= j < 2 * n,
                    i == j / 2,
            ;
            assert((2 * i) % 2 == 0 && (2 * i + 1) % 2 == 1) by (nonlinear_arith);
            assert((2 * i) / 2 == i && (2 * i + 1) / 2 == i) by (nonlinear_arith);
            assert(lock_step_at(seeds, device_seeds, device_results, i));
        }
        assert(device_seeds =~= replica_seeds(seeds, n));
        assert forall|i: int| 0 <= i < n implies device_results[i] == replica_results(seeds, n)[i]
        by {
            assert(lock_step_at(seeds, device_seeds, device_results, i));
        }
        assert(device_results =~= replica_results(seeds, n));
    }
    if device_seeds == replica_seeds(seeds, n) && device_results == replica_results(seeds, n) {
        assert forall|i: int| 0 <= i < n implies #[trigger] lock_step_at(
            seeds,
            device_seeds,
            device_results,
            i,
        ) by {
            assert((2 * i) % 2 == 0 && (2 * i + 1) % 2 == 1) by (nonlinear_arith);
            assert((2 * i) / 2 == i && (2 * i + 1) / 2 == i) by (nonlinear_arith);
            assert(device_seeds[2 * i] == replica_seeds(seeds, n)[2 * i]);
            assert(device_seeds[2 * i + 1] == replica_seeds(seeds, n)[2 * i + 1]);
            assert(device_results[i] == replica_results(seeds, n)[i]);
        }
    }
}

} // verus!
