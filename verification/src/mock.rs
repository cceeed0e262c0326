//! Direct constraint evaluation: every gate and equality constraint is
//! checked against a concrete witness, without any cryptographic
//! commitment. This is the debug-path substitute for proving and
//! verifying, and reports each violated constraint with its gate and
//! row.

use vstd::prelude::*;
use crate::distance::{
    BINARY_LENGTH, is_bit, all_bits, xor_val, xor_sum, hamming_distance, lemma_hamming_is_xor_sum,
    lemma_xor_sum_bounds,
};
use crate::circuit::{
    HammsterCircuit, Cell, COL_LEFT, COL_RIGHT, COL_OUT, ACC_ROW, NUM_ROWS, circuit_wf,
    circuit_witnessed, wit, opt_xor, acc_value, synthesized, synthesize_circuit,
};

verus! {

broadcast use vstd::seq_lib::lemma_seq_contains_after_push;

/// Identity of a constraint of the circuit: the four gates, and the
/// equality constraint binding the running-sum cell to the public
/// slot.
#[derive(Clone, Copy, Debug, PartialEq, Eq, Structural)]
pub enum GateKind {
    IsBinaryLeft,
    IsBinaryRight,
    Xor,
    Accumulator,
    PublicEquality,
}

/// One violated constraint: which gate, and on which row. For the
/// public equality constraint the row is the row of the public slot.
#[derive(Clone, Copy, Debug, PartialEq, Eq, Structural)]
pub struct Violation {
    pub gate: GateKind,
    pub row: usize,
}

/// The "is boolean" gate polynomial `v * (1 - v)` vanishes.
pub open spec fn binary_constraint_zero(v: u64) -> bool {
    v * (1 - v) == 0
}

/// The XOR gate polynomial `lhs + rhs - 2*lhs*rhs - out` vanishes.
pub open spec fn xor_constraint_zero(l: u64, r: u64, o: u64) -> bool {
    l + r - 2 * l * r - o == 0
}

/// `v * (1 - v)` vanishes exactly on 0 and 1. (The witness values are
/// 64-bit; the polynomial's value then has magnitude far below the field
/// characteristic, so vanishing over the field and over the integers
/// agree.)
pub proof fn lemma_binary_constraint_characterizes_bits(v: u64)
    ensures
        binary_constraint_zero(v) <==> is_bit(v),
{
    if v == 0 || v == 1 {
        assert(v * (1 - v) == 0) by (nonlinear_arith)
            requires
                v == 0 || v == 1,
        ;
    } else {
        assert(v * (1 - v) != 0) by (nonlinear_arith)
            requires
                v >= 2,
        ;
    }
}

/// On boolean operands, the XOR gate polynomial vanishes exactly when
/// the output is the boolean XOR of the inputs: the constraint is
/// satisfied by the correct output and refuted by the wrong one.
pub proof fn lemma_xor_constraint_characterizes_xor(l: u64, r: u64, o: u64)
    requires
        is_bit(l),
        is_bit(r),
    ensures
        xor_constraint_zero(l, r, o) <==> o == xor_val(l, r),
{
    if l == 0 || r == 0 {
        assert(2 * l * r == 0) by (nonlinear_arith)
            requires
                l == 0 || r == 0,
        ;
    } else {
        assert(2 * l * r == 2) by (nonlinear_arith)
            requires
                l == 1,
                r == 1,
        ;
    }
}

/// The witness the XOR gate writes satisfies its own constraint
/// exactly when both operands are boolean.
pub proof fn lemma_xor_witness_constraint(l: u64, r: u64)
    ensures
        xor_constraint_zero(l, r, xor_val(l, r)) <==> is_bit(l) && is_bit(r),
{
    if is_bit(l) && is_bit(r) {
        if l == 0 || r == 0 {
            assert(2 * l * r == 0) by (nonlinear_arith)
                requires
                    l == 0 || r == 0,
            ;
            assert(l + r - 2 * l * r - xor_val(l, r) == 0);
        } else {
            assert(2 * l * r == 2) by (nonlinear_arith)
                requires
                    l == 1,
                    r == 1,
            ;
            assert(l + r - 2 * l * r - xor_val(l, r) == 0);
        }
    } else {
        let o = xor_val(l, r);
        assert(o == 0 || o == 1);
        if l == r {
            assert(l >= 2);
            assert(o == 0);
            assert(l + r - 2 * l * r - o < 0) by (nonlinear_arith)
                requires
                    l == r,
                    l >= 2,
                    o == 0,
            ;
        } else if l == 0 {
            assert(r >= 2 && o == 1);
            assert(2 * l * r == 0) by (nonlinear_arith)
                requires
                    l == 0,
            ;
        } else if r == 0 {
            assert(l >= 2 && o == 1);
            assert(2 * l * r == 0) by (nonlinear_arith)
                requires
                    r == 0,
            ;
        } else {
            assert(l + r - 2 * l * r - o < 0) by (nonlinear_arith)
                requires
                    l >= 1,
                    r >= 1,
                    l != r,
                    o == 1,
            ;
        }
        assert(!xor_constraint_zero(l, r, o));
    }
}

/// Whether constraint `g` of the circuit is violated at `row` by the
/// witness `(a, b)` against the declared public input.
///
/// The accumulator gate never fires here: synthesis writes the
/// running-sum cell as the exact sum of the XOR-result cells, so a
/// synthesized witness always satisfies it (that constraint guards
/// only adversarial assignments inside the real proving engine).
pub open spec fn gate_violated(
    a: Seq<u64>,
    b: Seq<u64>,
    public_input: u64,
    g: GateKind,
    row: int,
) -> bool {
    match g {
        GateKind::IsBinaryLeft => 0 <= row < BINARY_LENGTH && !is_bit(a[row]),
        GateKind::IsBinaryRight => 0 <= row < BINARY_LENGTH && !is_bit(b[row]),
        GateKind::Xor => 0 <= row < BINARY_LENGTH && !xor_constraint_zero(
            a[row],
            b[row],
            xor_val(a[row], b[row]),
        ),
        GateKind::Accumulator => false,
        GateKind::PublicEquality => row == 0 && xor_sum(a, b, BINARY_LENGTH as int)
            != public_input,
    }
}

/// The witness satisfies every constraint against the declared public
/// input: both vectors are boolean and the public input equals the
/// running sum of their XOR.
pub open spec fn mock_accepts(a: Seq<u64>, b: Seq<u64>, public_input: u64) -> bool {
    &&& all_bits(a)
    &&& all_bits(b)
    &&& xor_sum(a, b, BINARY_LENGTH as int) == public_input
}

/// Acceptance is exactly the absence of any violated constraint.
pub proof fn lemma_accepts_iff_no_violation(a: Seq<u64>, b: Seq<u64>, public_input: u64)
    requires
        a.len() == BINARY_LENGTH,
        b.len() == BINARY_LENGTH,
    ensures
        mock_accepts(a, b, public_input) <==> (forall|g: GateKind, row: int|
            !gate_violated(a, b, public_input, g, row)),
{
    if mock_accepts(a, b, public_input) {
        assert forall|g: GateKind, row: int| !gate_violated(a, b, public_input, g, row) by {
            if 0 <= row < BINARY_LENGTH {
                lemma_xor_witness_constraint(a[row], b[row]);
            }
        }
    } else {
        if !all_bits(a) {
            let i = choose|i: int| 0 <= i < a.len() && !is_bit(a[i]);
            assert(gate_violated(a, b, public_input, GateKind::IsBinaryLeft, i));
        } else if !all_bits(b) {
            let i = choose|i: int| 0 <= i < b.len() && !is_bit(b[i]);
            assert(gate_violated(a, b, public_input, GateKind::IsBinaryRight, i));
        } else {
            assert(gate_violated(a, b, public_input, GateKind::PublicEquality, 0));
        }
    }
}

/// Whether a violation of this gate is reported by the row-scanning
/// phase, which walks each row of constraints before the equality
/// constraints are checked.
spec fn in_row_phase(viol: Violation, k: int) -> bool {
    match viol.gate {
        GateKind::PublicEquality => false,
        _ => viol.row < k,
    }
}

/// Checks whether the XOR gate polynomial vanishes on the given cell
/// values.
fn xor_constraint_holds(l: u64, r: u64, o: u64) -> (res: bool)
    ensures
        res == xor_constraint_zero(l, r, o),
{
    proof {
        if l == 0 || r == 0 {
            assert(2 * l * r == 0) by (nonlinear_arith)
                requires
                    l == 0 || r == 0,
            ;
        } else if l == 1 && r == 1 {
            assert(2 * l * r == 2) by (nonlinear_arith)
                requires
                    l == 1,
                    r == 1,
            ;
        } else {
            assert(l + r < 2 * l * r) by (nonlinear_arith)
                requires
                    l >= 1,
                    r >= 1,
                    l >= 2 || r >= 2,
            ;
        }
    }
    if l == 0 {
        o == r
    } else if r == 0 {
        o == l
    } else if l == 1 && r == 1 {
        o == 0
    } else {
        false
    }
}

/// Evaluates every gate and equality constraint of the circuit
/// directly against its concrete witness and the declared public
/// input.
///
/// Succeeds exactly when both witness vectors are boolean and the
/// public input equals their XOR running sum; otherwise reports every
/// violated constraint with its gate and row: the "is boolean" gate of
/// each offending row, the XOR gate wherever its identity cannot hold,
/// and the public equality constraint when the declared value differs
/// from the accumulated one.
pub fn mock_evaluate(c: &HammsterCircuit, public_input: u64) -> (r: Result<(), Vec<Violation>>)
    requires
        circuit_wf(*c),
        circuit_witnessed(*c),
    ensures
        ({
            let av = c.a.unwrap()@;
            let bv = c.b.unwrap()@;
            &&& (r is Ok <==> mock_accepts(av, bv, public_input))
            &&& (r matches Err(v) ==> v@.len() > 0 && v@.no_duplicates() && (forall|
                viol: Violation,
            |
                #[trigger] v@.contains(viol) <==> gate_violated(
                    av,
                    bv,
                    public_input,
                    viol.gate,
                    viol.row as int,
                )))
        }),
{
    let ghost av = c.a.unwrap()@;
    let ghost bv = c.b.unwrap()@;
    let asn = synthesize_circuit(c);
    let mut viols: Vec<Violation> = Vec::new();

    // Row phase: every gate whose selector is active on the row.
    let mut row: usize = 0;
    while row < NUM_ROWS
        invariant
            circuit_wf(*c),
            circuit_witnessed(*c),
            av == c.a.unwrap()@,
            bv == c.b.unwrap()@,
            synthesized(*c, asn),
            0 <= row <= NUM_ROWS,
            viols@.no_duplicates(),
            forall|viol: Violation|
                #[trigger] viols@.contains(viol) <==> (gate_violated(
                    av,
                    bv,
                    public_input,
                    viol.gate,
                    viol.row as int,
                ) && in_row_phase(viol, row as int)),
        decreases NUM_ROWS - row,
    {
        if asn.s_binary_l[row] {
            proof {
                assert(row < BINARY_LENGTH);
                assert(asn.left@[row as int] == wit(c.a, row as int));
            }
            let v = asn.left[row].unwrap();
            if !(v == 0 || v == 1) {
                let viol = Violation { gate: GateKind::IsBinaryLeft, row };
                proof {
                    assert(!viols@.contains(viol));
                }
                viols.push(viol);
            }
        }
        if asn.s_binary_r[row] {
            proof {
                assert(row < BINARY_LENGTH);
                assert(asn.right@[row as int] == wit(c.b, row as int));
            }
            let v = asn.right[row].unwrap();
            if !(v == 0 || v == 1) {
                let viol = Violation { gate: GateKind::IsBinaryRight, row };
                proof {
                    assert(!viols@.contains(viol));
                }
                viols.push(viol);
            }
        }
        if asn.s_xor[row] {
            proof {
                assert(row < BINARY_LENGTH);
                assert(asn.left@[row as int] == wit(c.a, row as int));
                assert(asn.right@[row as int] == wit(c.b, row as int));
                assert(asn.output@[row as int] == opt_xor(
                    wit(c.a, row as int),
                    wit(c.b, row as int),
                ));
            }
            let l = asn.left[row].unwrap();
            let rr = asn.right[row].unwrap();
            let o = asn.output[row].unwrap();
            if !xor_constraint_holds(l, rr, o) {
                let viol = Violation { gate: GateKind::Xor, row };
                proof {
                    assert(!viols@.contains(viol));
                }
                viols.push(viol);
            }
        }
        if asn.s_accumulator[row] {
            // The selector is active only on the row just after the
            // XOR window; sum that window and compare.
            let mut total: u64 = 0;
            let mut i: usize = 0;
            while i < BINARY_LENGTH
                invariant
                    circuit_wf(*c),
                    circuit_witnessed(*c),
                    av == c.a.unwrap()@,
                    bv == c.b.unwrap()@,
                    synthesized(*c, asn),
                    0 <= i <= BINARY_LENGTH,
                    total == xor_sum(av, bv, i as int),
                    total <= i,
                decreases BINARY_LENGTH - i,
            {
                proof {
                    lemma_xor_sum_bounds(av, bv, i as int);
                    assert(asn.output@[i as int] == opt_xor(wit(c.a, i as int), wit(c.b, i as int)));
                }
                total = total + asn.output[i].unwrap();
                i = i + 1;
            }
            proof {
                assert(asn.output@[ACC_ROW as int] == acc_value(*c));
                lemma_xor_sum_bounds(av, bv, BINARY_LENGTH as int);
            }
            let sum_cell = asn.output[ACC_ROW].unwrap();
            if total != sum_cell {
                // Unreachable for a synthesized witness: the running
                // sum is assigned as exactly this total.
                let viol = Violation { gate: GateKind::Accumulator, row };
                proof {
                    assert(false);
                }
                viols.push(viol);
            }
        }
        row = row + 1;
    }

    // Equality phase: every registered copy constraint against the
    // public slot, whose row-0 value is the declared public input.
    let mut k: usize = 0;
    while k < asn.instance_copies.len()
        invariant
            circuit_wf(*c),
            circuit_witnessed(*c),
            av == c.a.unwrap()@,
            bv == c.b.unwrap()@,
            synthesized(*c, asn),
            0 <= k <= asn.instance_copies@.len(),
            viols@.no_duplicates(),
            forall|viol: Violation|
                #[trigger] viols@.contains(viol) <==> (gate_violated(
                    av,
                    bv,
                    public_input,
                    viol.gate,
                    viol.row as int,
                ) && (in_row_phase(viol, NUM_ROWS as int) || (viol.gate
                    == GateKind::PublicEquality && k > 0))),
        decreases asn.instance_copies@.len() - k,
    {
        proof {
            assert(asn.instance_copies@[k as int] == (Cell { column: COL_OUT, row: ACC_ROW }, 0usize));
            assert(asn.output@[ACC_ROW as int] == acc_value(*c));
            lemma_xor_sum_bounds(av, bv, BINARY_LENGTH as int);
        }
        let (cell, irow) = asn.instance_copies[k];
        let cell_value = if cell.column == COL_LEFT {
            asn.left[cell.row]
        } else if cell.column == COL_RIGHT {
            asn.right[cell.row]
        } else {
            asn.output[cell.row]
        };
        let matches_instance = match cell_value {
            Some(v) => irow == 0 && v == public_input,
            None => false,
        };
        if !matches_instance {
            let viol = Violation { gate: GateKind::PublicEquality, row: irow };
            proof {
                assert(!viols@.contains(viol));
            }
            viols.push(viol);
        }
        k = k + 1;
    }

    proof {
        lemma_accepts_iff_no_violation(av, bv, public_input);
        if viols@.len() == 0 {
            assert forall|g: GateKind, row2: int|
                !gate_violated(av, bv, public_input, g, row2) by {
                if gate_violated(av, bv, public_input, g, row2) {
                    if g is PublicEquality {
                        assert(viols@.contains(Violation { gate: g, row: 0 }));
                    } else {
                        assert(0 <= row2 < BINARY_LENGTH);
                        assert(viols@.contains(Violation { gate: g, row: row2 as usize }));
                    }
                }
            }
        } else {
            assert(viols@.contains(viols@[0]));
            assert(!mock_accepts(av, bv, public_input));
        }
    }
    if viols.len() == 0 {
        Ok(())
    } else {
        Err(viols)
    }
}


/// Direct evaluation succeeds for any boolean witness whose declared
/// public input is the oracle's Hamming distance: the in-circuit
/// running sum agrees exactly with the out-of-circuit count.
pub proof fn lemma_mock_accepts_oracle(a: Seq<u64>, b: Seq<u64>, public_input: u64)
    requires
        a.len() == BINARY_LENGTH,
        b.len() == BINARY_LENGTH,
        all_bits(a),
        all_bits(b),
        public_input == hamming_distance(a, b),
    ensures
        mock_accepts(a, b, public_input),
{
    lemma_hamming_is_xor_sum(a, b, BINARY_LENGTH as int);
}

/// A non-boolean element of the left vector violates the "is boolean"
/// gate of exactly its own row, and direct evaluation cannot succeed.
pub proof fn lemma_non_bit_left_violates(a: Seq<u64>, b: Seq<u64>, public_input: u64, i: int)
    requires
        a.len() == BINARY_LENGTH,
        0 <= i < BINARY_LENGTH,
        !is_bit(a[i]),
    ensures
        gate_violated(a, b, public_input, GateKind::IsBinaryLeft, i),
        !mock_accepts(a, b, public_input),
{
}

/// A non-boolean element of the right vector violates the "is boolean"
/// gate of exactly its own row, and direct evaluation cannot succeed.
pub proof fn lemma_non_bit_right_violates(a: Seq<u64>, b: Seq<u64>, public_input: u64, i: int)
    requires
        b.len() == BINARY_LENGTH,
        0 <= i < BINARY_LENGTH,
        !is_bit(b[i]),
    ensures
        gate_violated(a, b, public_input, GateKind::IsBinaryRight, i),
        !mock_accepts(a, b, public_input),
{
}

/// When the declared public input differs from the oracle's distance
/// of a boolean witness, the equality constraint binding the
/// running-sum cell to the public slot is violated, and direct
/// evaluation cannot succeed.
pub proof fn lemma_wrong_public_input_violates(a: Seq<u64>, b: Seq<u64>, public_input: u64)
    requires
        a.len() == BINARY_LENGTH,
        b.len() == BINARY_LENGTH,
        all_bits(a),
        all_bits(b),
        public_input != hamming_distance(a, b),
    ensures
        gate_violated(a, b, public_input, GateKind::PublicEquality, 0),
        !mock_accepts(a, b, public_input),
{
    lemma_hamming_is_xor_sum(a, b, BINARY_LENGTH as int);
}

} // verus!
