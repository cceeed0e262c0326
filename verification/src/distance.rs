//! The Hamming-distance oracle: the ground-truth distance computed
//! directly from concrete vectors, outside the circuit. It builds the
//! public input and serves as the reference that the in-circuit
//! running sum must agree with.

use vstd::prelude::*;

verus! {

/// Number of elements in each private input vector.
pub const BINARY_LENGTH: usize = 8;

/// A field element used as a bit: it is 0 or 1.
pub open spec fn is_bit(x: u64) -> bool {
    x == 0 || x == 1
}

/// Every element of the sequence is 0 or 1.
pub open spec fn all_bits(s: Seq<u64>) -> bool {
    forall|i: int| 0 <= i < s.len() ==> is_bit(s[i])
}

/// The XOR of two bits as the witness computes it: 0 when the operands
/// are equal, 1 otherwise.
pub open spec fn xor_val(x: u64, y: u64) -> u64 {
    if x == y { 0 } else { 1 }
}

/// Sum of `(a[i] + b[i]) % 2` over the first `n` positions.
pub open spec fn hamming_prefix(a: Seq<u64>, b: Seq<u64>, n: int) -> int
    decreases n,
{
    if n <= 0 {
        0
    } else {
        hamming_prefix(a, b, n - 1) + (a[n - 1] + b[n - 1]) % 2
    }
}

/// The Hamming distance of two equal-length vectors: the number of
/// positions at which they differ, as an integer sum (not reduced
/// modulo 2).
pub open spec fn hamming_distance(a: Seq<u64>, b: Seq<u64>) -> int {
    hamming_prefix(a, b, a.len() as int)
}

/// Sum of `xor_val(a[i], b[i])` over the first `n` positions: the value
/// the circuit's running-sum cell holds.
pub open spec fn xor_sum(a: Seq<u64>, b: Seq<u64>, n: int) -> int
    decreases n,
{
    if n <= 0 {
        0
    } else {
        xor_sum(a, b, n - 1) + xor_val(a[n - 1], b[n - 1])
    }
}

/// A prefix XOR sum of bit vectors lies between 0 and `n`.
pub proof fn lemma_xor_sum_bounds(a: Seq<u64>, b: Seq<u64>, n: int)
    requires
        0 <= n,
    ensures
        0 <= xor_sum(a, b, n) <= n,
    decreases n,
{
    if n > 0 {
        lemma_xor_sum_bounds(a, b, n - 1);
    }
}

/// On bit vectors the oracle's per-position term `(a[i] + b[i]) % 2`
/// equals the circuit's XOR witness, so the oracle agrees with the
/// running sum of XOR results over any prefix.
pub proof fn lemma_hamming_is_xor_sum(a: Seq<u64>, b: Seq<u64>, n: int)
    requires
        0 <= n <= a.len(),
        n <= b.len(),
        all_bits(a),
        all_bits(b),
    ensures
        hamming_prefix(a, b, n) == xor_sum(a, b, n),
    decreases n,
{
    if n > 0 {
        lemma_hamming_is_xor_sum(a, b, n - 1);
        assert(is_bit(a[n - 1]) && is_bit(b[n - 1]));
    }
}

/// Calculates the Hamming distance between two bit vectors.
///
/// This is the oracle used to build the public input: it must agree
/// exactly with what the circuit's accumulator computes over the same
/// inputs, which `lemma_hamming_is_xor_sum` establishes.
pub fn calculate_hamming_distance(a: &Vec<u64>, b: &Vec<u64>) -> (r: u64)
    requires
        a@.len() == BINARY_LENGTH,
        b@.len() == BINARY_LENGTH,
        all_bits(a@),
        all_bits(b@),
    ensures
        r == hamming_distance(a@, b@),
        r <= BINARY_LENGTH,
{
    let mut sum: u64 = 0;
    let mut i: usize = 0;
    while i < BINARY_LENGTH
        invariant
            0 <= i <= BINARY_LENGTH,
            a@.len() == BINARY_LENGTH,
            b@.len() == BINARY_LENGTH,
            all_bits(a@),
            all_bits(b@),
            sum == hamming_prefix(a@, b@, i as int),
            sum <= i,
        decreases BINARY_LENGTH - i,
    {
        assert(is_bit(a@[i as int]) && is_bit(b@[i as int]));
        sum = sum + (a[i] + b[i]) % 2;
        i = i + 1;
    }
    sum
}

} // verus!
