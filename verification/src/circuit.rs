//! The arithmetization: the cell layout, the per-row selectors, the
//! gate constraints and the witness-assignment procedure that describe
//! the Hamming-distance relation.
//!
//! The layout is an explicit row/column-indexed table. Three advice
//! columns hold, per row `i` in `0..8`, the left operand bit, the
//! right operand bit and the XOR result; row 8 of the output column
//! holds the running sum of the eight XOR results. A dedicated public
//! slot is tied to the running-sum cell by an equality constraint.

use vstd::prelude::*;
use crate::distance::{BINARY_LENGTH, is_bit, xor_val, xor_sum};

verus! {

/// Index of the advice column holding the left operand bits.
pub const COL_LEFT: usize = 0;

/// Index of the advice column holding the right operand bits.
pub const COL_RIGHT: usize = 1;

/// Index of the shared output column: XOR results and the running sum.
pub const COL_OUT: usize = 2;

/// Row of the running-sum cell, immediately after the XOR window.
pub const ACC_ROW: usize = 8;

/// Number of rows the circuit occupies.
pub const NUM_ROWS: usize = 9;

/// An addressable slot of the advice table, identified by column and
/// row so that equality constraints can refer to it.
#[derive(Clone, Copy, Debug, PartialEq, Eq, Structural)]
pub struct Cell {
    pub column: usize,
    pub row: usize,
}

/// A value bundled with the cell that holds it: the unit passed
/// between gates, so that wiring is by cell identity rather than by
/// re-assignment. `None` stands for a witness not yet supplied
/// (key-generation mode).
#[derive(Clone, Copy, Debug)]
pub struct Number {
    pub value: Option<u64>,
    pub cell: Cell,
}

/// The synthesized table: one vector per advice column, one boolean
/// vector per selector, and the list of cell-to-public-slot equality
/// constraints.
pub struct Assignment {
    pub left: Vec<Option<u64>>,
    pub right: Vec<Option<u64>>,
    pub output: Vec<Option<u64>>,
    pub s_binary_l: Vec<bool>,
    pub s_binary_r: Vec<bool>,
    pub s_xor: Vec<bool>,
    pub s_accumulator: Vec<bool>,
    pub instance_copies: Vec<(Cell, usize)>,
}

/// The table has one entry per row in every column and selector.
pub open spec fn assignment_wf(asn: Assignment) -> bool {
    &&& asn.left@.len() == NUM_ROWS
    &&& asn.right@.len() == NUM_ROWS
    &&& asn.output@.len() == NUM_ROWS
    &&& asn.s_binary_l@.len() == NUM_ROWS
    &&& asn.s_binary_r@.len() == NUM_ROWS
    &&& asn.s_xor@.len() == NUM_ROWS
    &&& asn.s_accumulator@.len() == NUM_ROWS
}

/// Value of the advice cell at `(col, row)`.
pub open spec fn advice_at(asn: Assignment, col: usize, row: int) -> Option<u64> {
    if col == COL_LEFT {
        asn.left@[row]
    } else if col == COL_RIGHT {
        asn.right@[row]
    } else {
        asn.output@[row]
    }
}

/// A fresh table: no cell assigned, no selector enabled, no equality
/// constraint registered.
pub open spec fn assignment_blank(asn: Assignment) -> bool {
    &&& assignment_wf(asn)
    &&& forall|r: int| 0 <= r < NUM_ROWS ==> asn.left@[r] is None
    &&& forall|r: int| 0 <= r < NUM_ROWS ==> asn.right@[r] is None
    &&& forall|r: int| 0 <= r < NUM_ROWS ==> asn.output@[r] is None
    &&& forall|r: int| 0 <= r < NUM_ROWS ==> !asn.s_binary_l@[r]
    &&& forall|r: int| 0 <= r < NUM_ROWS ==> !asn.s_binary_r@[r]
    &&& forall|r: int| 0 <= r < NUM_ROWS ==> !asn.s_xor@[r]
    &&& forall|r: int| 0 <= r < NUM_ROWS ==> !asn.s_accumulator@[r]
    &&& asn.instance_copies@.len() == 0
}

/// Builds the fresh table that synthesis fills.
pub fn blank_assignment() -> (r: Assignment)
    ensures
        assignment_blank(r),
{
    let mut left: Vec<Option<u64>> = Vec::new();
    let mut right: Vec<Option<u64>> = Vec::new();
    let mut output: Vec<Option<u64>> = Vec::new();
    let mut s_binary_l: Vec<bool> = Vec::new();
    let mut s_binary_r: Vec<bool> = Vec::new();
    let mut s_xor: Vec<bool> = Vec::new();
    let mut s_accumulator: Vec<bool> = Vec::new();
    let mut r: usize = 0;
    while r < NUM_ROWS
        invariant
            0 <= r <= NUM_ROWS,
            left@.len() == r,
            right@.len() == r,
            output@.len() == r,
            s_binary_l@.len() == r,
            s_binary_r@.len() == r,
            s_xor@.len() == r,
            s_accumulator@.len() == r,
            forall|i: int| 0 <= i < r ==> left@[i] is None,
            forall|i: int| 0 <= i < r ==> right@[i] is None,
            forall|i: int| 0 <= i < r ==> output@[i] is None,
            forall|i: int| 0 <= i < r ==> !s_binary_l@[i],
            forall|i: int| 0 <= i < r ==> !s_binary_r@[i],
            forall|i: int| 0 <= i < r ==> !s_xor@[i],
            forall|i: int| 0 <= i < r ==> !s_accumulator@[i],
        decreases NUM_ROWS - r,
    {
        left.push(None);
        right.push(None);
        output.push(None);
        s_binary_l.push(false);
        s_binary_r.push(false);
        s_xor.push(false);
        s_accumulator.push(false);
        r = r + 1;
    }
    Assignment {
        left,
        right,
        output,
        s_binary_l,
        s_binary_r,
        s_xor,
        s_accumulator,
        instance_copies: Vec::new(),
    }
}

/// XOR of two optionally-known bits: known exactly when both operands
/// are, mirroring how an unknown witness propagates through a gate.
pub open spec fn opt_xor(x: Option<u64>, y: Option<u64>) -> Option<u64> {
    match (x, y) {
        (Some(xv), Some(yv)) => Some(xor_val(xv, yv)),
        _ => None,
    }
}

/// Sum of the first `n` values, known exactly when all of them are.
pub open spec fn opt_sum(vals: Seq<Option<u64>>, n: int) -> Option<int>
    decreases n,
{
    if n <= 0 {
        Some(0)
    } else {
        match (opt_sum(vals, n - 1), vals[n - 1]) {
            (Some(s), Some(v)) => Some(s + v),
            _ => None,
        }
    }
}

/// The values carried by a sequence of `Number`s.
pub open spec fn number_values(ns: Seq<Number>) -> Seq<Option<u64>> {
    Seq::new(ns.len(), |i: int| ns[i].value)
}

/// The configuration of the circuit: which column plays which role.
/// Gate polynomials are fixed by the relation itself and are
/// evaluated by the constraint checker against this layout.
#[derive(Clone, Copy, Debug)]
pub struct HammsterConfig {
    pub col_left: usize,
    pub col_right: usize,
    pub col_out: usize,
    pub instance_row: usize,
}

/// The chip which holds the circuit config and assigns cells.
pub struct HammsterChip {
    pub config: HammsterConfig,
}

impl HammsterChip {
    /// Builds a chip around a configuration.
    pub fn construct(config: HammsterConfig) -> (r: HammsterChip)
        ensures
            r.config == config,
    {
        HammsterChip { config }
    }

    /// The configuration the chip was built around.
    pub fn config(&self) -> (r: &HammsterConfig)
        ensures
            *r == self.config,
    {
        &self.config
    }

    /// Fixes the canonical layout: columns 0 and 1 carry the operand
    /// bits, column 2 carries XOR results and the running sum, and the
    /// public input lives in row 0 of the dedicated public slot.
    pub fn configure() -> (r: HammsterConfig)
        ensures
            r.col_left == COL_LEFT,
            r.col_right == COL_RIGHT,
            r.col_out == COL_OUT,
            r.instance_row == 0,
    {
        HammsterConfig {
            col_left: COL_LEFT,
            col_right: COL_RIGHT,
            col_out: COL_OUT,
            instance_row: 0,
        }
    }

    /// Loads one private input vector into its advice column and
    /// activates the per-row "is boolean" selector there, committing
    /// the eight values to cells `(column, 0..8)`.
    ///
    /// The boolean constraint `v * (1 - v) = 0` itself is enforced at
    /// evaluation time on every row whose selector is active; loading
    /// never fails, whatever the values.
    pub fn load_private_and_check_binary(
        &self,
        asn: &mut Assignment,
        column: usize,
        values: &Vec<Option<u64>>,
    ) -> (r: Vec<Number>)
        requires
            assignment_wf(*old(asn)),
            column == COL_LEFT || column == COL_RIGHT,
            values@.len() == BINARY_LENGTH,
        ensures
            assignment_wf(*final(asn)),
            r@.len() == BINARY_LENGTH,
            forall|i: int|
                0 <= i < BINARY_LENGTH ==> ((#[trigger] r@[i]).cell == (Cell {
                    column,
                    row: i as usize,
                }) && r@[i].value == values@[i]),
            forall|i: int|
                0 <= i < BINARY_LENGTH ==> advice_at(*final(asn), column, i) == values@[i],
            advice_at(*final(asn), column, ACC_ROW as int)
                == advice_at(*old(asn), column, ACC_ROW as int),
            column == COL_LEFT ==> {
                &&& final(asn).right@ == old(asn).right@
                &&& final(asn).s_binary_r@ == old(asn).s_binary_r@
                &&& forall|i: int| 0 <= i < BINARY_LENGTH ==> final(asn).s_binary_l@[i]
                &&& final(asn).s_binary_l@[ACC_ROW as int] == old(asn).s_binary_l@[ACC_ROW as int]
            },
            column == COL_RIGHT ==> {
                &&& final(asn).left@ == old(asn).left@
                &&& final(asn).s_binary_l@ == old(asn).s_binary_l@
                &&& forall|i: int| 0 <= i < BINARY_LENGTH ==> final(asn).s_binary_r@[i]
                &&& final(asn).s_binary_r@[ACC_ROW as int] == old(asn).s_binary_r@[ACC_ROW as int]
            },
            final(asn).output@ == old(asn).output@,
            final(asn).s_xor@ == old(asn).s_xor@,
            final(asn).s_accumulator@ == old(asn).s_accumulator@,
            final(asn).instance_copies@ == old(asn).instance_copies@,
    {
        let mut r: Vec<Number> = Vec::new();
        let mut i: usize = 0;
        while i < BINARY_LENGTH
            invariant
                assignment_wf(*asn),
                column == COL_LEFT || column == COL_RIGHT,
                values@.len() == BINARY_LENGTH,
                0 <= i <= BINARY_LENGTH,
                r@.len() == i,
                forall|j: int|
                    0 <= j < i ==> ((#[trigger] r@[j]).cell == (Cell {
                        column,
                        row: j as usize,
                    }) && r@[j].value == values@[j]),
                forall|j: int| 0 <= j < i ==> advice_at(*asn, column, j) == values@[j],
                forall|j: int|
                    i <= j < NUM_ROWS
                        ==> advice_at(*asn, column, j) == advice_at(*old(asn), column, j),
                column == COL_LEFT ==> {
                    &&& asn.right@ == old(asn).right@
                    &&& asn.s_binary_r@ == old(asn).s_binary_r@
                    &&& forall|j: int| 0 <= j < i ==> asn.s_binary_l@[j]
                    &&& forall|j: int|
                        i <= j < NUM_ROWS ==> asn.s_binary_l@[j] == old(asn).s_binary_l@[j]
                },
                column == COL_RIGHT ==> {
                    &&& asn.left@ == old(asn).left@
                    &&& asn.s_binary_l@ == old(asn).s_binary_l@
                    &&& forall|j: int| 0 <= j < i ==> asn.s_binary_r@[j]
                    &&& forall|j: int|
                        i <= j < NUM_ROWS ==> asn.s_binary_r@[j] == old(asn).s_binary_r@[j]
                },
                asn.output@ == old(asn).output@,
                asn.s_xor@ == old(asn).s_xor@,
                asn.s_accumulator@ == old(asn).s_accumulator@,
                asn.instance_copies@ == old(asn).instance_copies@,
            decreases BINARY_LENGTH - i,
        {
            let v: Option<u64> = values[i];
            if column == COL_LEFT {
                asn.s_binary_l.set(i, true);
                asn.left.set(i, v);
            } else {
                asn.s_binary_r.set(i, true);
                asn.right.set(i, v);
            }
            r.push(Number { value: v, cell: Cell { column, row: i } });
            i = i + 1;
        }
        r
    }

    /// Performs an XOR operation between two loaded bits.
    ///
    /// Consumes the two operand `Number`s of one row, activates the
    /// XOR selector there, and writes the witness result — 0 when the
    /// operands are equal, 1 otherwise — to the output cell of that
    /// row, where the constraint `lhs + rhs - 2*lhs*rhs - out = 0` is
    /// checked at evaluation time.
    pub fn xor(&self, asn: &mut Assignment, a: &Number, b: &Number) -> (r: Number)
        requires
            assignment_wf(*old(asn)),
            a.cell.column == COL_LEFT,
            b.cell.column == COL_RIGHT,
            a.cell.row == b.cell.row,
            a.cell.row < BINARY_LENGTH,
            advice_at(*old(asn), COL_LEFT, a.cell.row as int) == a.value,
            advice_at(*old(asn), COL_RIGHT, b.cell.row as int) == b.value,
        ensures
            assignment_wf(*final(asn)),
            r.cell == (Cell { column: COL_OUT, row: a.cell.row }),
            r.value == opt_xor(a.value, b.value),
            final(asn).output@[a.cell.row as int] == r.value,
            forall|j: int|
                0 <= j < NUM_ROWS && j != a.cell.row ==> final(asn).output@[j] == old(asn).output@[j],
            final(asn).s_xor@[a.cell.row as int],
            forall|j: int|
                0 <= j < NUM_ROWS && j != a.cell.row ==> final(asn).s_xor@[j] == old(asn).s_xor@[j],
            final(asn).left@ == old(asn).left@,
            final(asn).right@ == old(asn).right@,
            final(asn).s_binary_l@ == old(asn).s_binary_l@,
            final(asn).s_binary_r@ == old(asn).s_binary_r@,
            final(asn).s_accumulator@ == old(asn).s_accumulator@,
            final(asn).instance_copies@ == old(asn).instance_copies@,
    {
        let row = a.cell.row;
        asn.s_xor.set(row, true);
        let result: Option<u64> = match (a.value, b.value) {
            (Some(x), Some(y)) => Some(if x == y { 0 } else { 1 }),
            _ => None,
        };
        asn.output.set(row, result);
        Number { value: result, cell: Cell { column: COL_OUT, row } }
    }

    /// Accumulates the column of XOR results into a single number.
    ///
    /// Consumes the eight XOR-result `Number`s laid out consecutively
    /// in the output column, activates the accumulator selector on the
    /// row after the window, and writes their exact sum — an integer
    /// count, not a reduction modulo 2 — to that row's output cell.
    pub fn accumulator(&self, asn: &mut Assignment, values: &Vec<Number>) -> (r: Number)
        requires
            assignment_wf(*old(asn)),
            values@.len() == BINARY_LENGTH,
            forall|i: int| 0 <= i < BINARY_LENGTH ==> values@[i].cell == (Cell {
                column: COL_OUT,
                row: i as usize,
            }),
            forall|i: int|
                0 <= i < BINARY_LENGTH ==> advice_at(*old(asn), COL_OUT, i) == values@[i].value,
            forall|i: int|
                0 <= i < BINARY_LENGTH ==> ((#[trigger] values@[i]).value matches Some(v)
                    ==> is_bit(v)),
        ensures
            assignment_wf(*final(asn)),
            r.cell == (Cell { column: COL_OUT, row: ACC_ROW }),
            (match opt_sum(number_values(values@), BINARY_LENGTH as int) {
                Some(s) => r.value == Some(s as u64) && 0 <= s <= BINARY_LENGTH,
                None => r.value is None,
            }),
            final(asn).output@[ACC_ROW as int] == r.value,
            forall|j: int|
                0 <= j < NUM_ROWS && j != ACC_ROW ==> final(asn).output@[j] == old(asn).output@[j],
            final(asn).s_accumulator@[ACC_ROW as int],
            forall|j: int|
                0 <= j < NUM_ROWS && j != ACC_ROW ==> final(asn).s_accumulator@[j] == old(asn).s_accumulator@[j],
            final(asn).left@ == old(asn).left@,
            final(asn).right@ == old(asn).right@,
            final(asn).s_binary_l@ == old(asn).s_binary_l@,
            final(asn).s_binary_r@ == old(asn).s_binary_r@,
            final(asn).s_xor@ == old(asn).s_xor@,
            final(asn).instance_copies@ == old(asn).instance_copies@,
    {
        asn.s_accumulator.set(ACC_ROW, true);
        let mut known = true;
        let mut total: u64 = 0;
        let mut i: usize = 0;
        while i < BINARY_LENGTH
            invariant
                values@.len() == BINARY_LENGTH,
                forall|k: int|
                    0 <= k < BINARY_LENGTH ==> ((#[trigger] values@[k]).value matches Some(v)
                        ==> is_bit(v)),
                0 <= i <= BINARY_LENGTH,
                total <= i,
                (match opt_sum(number_values(values@), i as int) {
                    Some(s) => known && total == s,
                    None => !known,
                }),
            decreases BINARY_LENGTH - i,
        {
            assert(number_values(values@)[i as int] == values@[i as int].value);
            match values[i].value {
                Some(v) => {
                    assert(is_bit(v));
                    total = total + v;
                },
                None => {
                    known = false;
                },
            }
            i = i + 1;
        }
        let result: Option<u64> = if known {
            Some(total)
        } else {
            None
        };
        asn.output.set(ACC_ROW, result);
        Number { value: result, cell: Cell { column: COL_OUT, row: ACC_ROW } }
    }

    /// Exposes the accumulated value as a public output: registers the
    /// equality constraint tying the given `Number`'s cell to the
    /// dedicated public-input slot. No arithmetic gate is involved.
    pub fn expose_public(&self, asn: &mut Assignment, num: &Number)
        requires
            assignment_wf(*old(asn)),
        ensures
            assignment_wf(*final(asn)),
            final(asn).instance_copies@ == old(asn).instance_copies@.push(
                (num.cell, self.config.instance_row),
            ),
            final(asn).left@ == old(asn).left@,
            final(asn).right@ == old(asn).right@,
            final(asn).output@ == old(asn).output@,
            final(asn).s_binary_l@ == old(asn).s_binary_l@,
            final(asn).s_binary_r@ == old(asn).s_binary_r@,
            final(asn).s_xor@ == old(asn).s_xor@,
            final(asn).s_accumulator@ == old(asn).s_accumulator@,
    {
        asn.instance_copies.push((num.cell, self.config.instance_row));
    }
}

/// The circuit: the two private input vectors, each either supplied
/// (proving and direct-evaluation mode) or withheld (key-generation
/// mode, where only the shape matters).
pub struct HammsterCircuit {
    pub a: Option<Vec<u64>>,
    pub b: Option<Vec<u64>>,
}

/// A supplied input vector has exactly `BINARY_LENGTH` elements.
pub open spec fn circuit_wf(c: HammsterCircuit) -> bool {
    &&& (c.a matches Some(v) ==> v@.len() == BINARY_LENGTH)
    &&& (c.b matches Some(v) ==> v@.len() == BINARY_LENGTH)
}

/// Both private inputs are present: the circuit can be proven against
/// or evaluated directly.
pub open spec fn circuit_witnessed(c: HammsterCircuit) -> bool {
    c.a is Some && c.b is Some
}

/// Element `i` of an optionally-supplied vector.
pub open spec fn wit(v: Option<Vec<u64>>, i: int) -> Option<u64> {
    match v {
        Some(vec) => Some(vec@[i]),
        None => None,
    }
}

/// The running-sum witness of the circuit: the exact sum of the eight
/// XOR results, known exactly when both inputs are supplied.
pub open spec fn acc_value(c: HammsterCircuit) -> Option<u64> {
    match (c.a, c.b) {
        (Some(av), Some(bv)) => Some(xor_sum(av@, bv@, BINARY_LENGTH as int) as u64),
        _ => None,
    }
}

/// The canonical configuration that `configure` fixes.
pub open spec fn config_canonical(config: HammsterConfig) -> bool {
    &&& config.col_left == COL_LEFT
    &&& config.col_right == COL_RIGHT
    &&& config.col_out == COL_OUT
    &&& config.instance_row == 0
}

/// Complete description of the table that synthesizing `c` produces:
/// operand bits in columns 0 and 1, XOR results in rows `0..8` of
/// column 2, the running sum in row 8, the "is boolean" and XOR
/// selectors active on rows `0..8`, the accumulator selector on row 8,
/// and one equality constraint tying the running-sum cell to the
/// public slot. The selectors and the equality constraint do not
/// depend on the witness, only on the shape.
pub open spec fn synthesized(c: HammsterCircuit, asn: Assignment) -> bool {
    &&& assignment_wf(asn)
    &&& forall|i: int| 0 <= i < BINARY_LENGTH ==> asn.left@[i] == wit(c.a, i)
    &&& forall|i: int| 0 <= i < BINARY_LENGTH ==> asn.right@[i] == wit(c.b, i)
    &&& forall|i: int|
        0 <= i < BINARY_LENGTH ==> asn.output@[i] == opt_xor(wit(c.a, i), wit(c.b, i))
    &&& asn.left@[ACC_ROW as int] is None
    &&& asn.right@[ACC_ROW as int] is None
    &&& asn.output@[ACC_ROW as int] == acc_value(c)
    &&& forall|r: int| 0 <= r < NUM_ROWS ==> (asn.s_binary_l@[r] <==> r < BINARY_LENGTH)
    &&& forall|r: int| 0 <= r < NUM_ROWS ==> (asn.s_binary_r@[r] <==> r < BINARY_LENGTH)
    &&& forall|r: int| 0 <= r < NUM_ROWS ==> (asn.s_xor@[r] <==> r < BINARY_LENGTH)
    &&& forall|r: int| 0 <= r < NUM_ROWS ==> (asn.s_accumulator@[r] <==> r == ACC_ROW)
    &&& asn.instance_copies@ =~= seq![(Cell { column: COL_OUT, row: ACC_ROW }, 0usize)]
}

/// Generates an empty circuit: the shape without any witness, as key
/// generation consumes it.
pub fn empty_circuit() -> (r: HammsterCircuit)
    ensures
        r.a is None,
        r.b is None,
        circuit_wf(r),
{
    HammsterCircuit { a: None, b: None }
}

/// Rejected at the construction boundary, before any synthesis: an
/// input vector does not hold exactly eight elements.
#[derive(Clone, Copy, Debug, PartialEq, Eq, Structural)]
pub struct ShapeMismatch;

/// Creates a circuit from two vector inputs, validating the fixed-size
/// contract first: any vector that does not hold exactly eight
/// elements is rejected before synthesis.
pub fn checked_create_circuit(a: Vec<u64>, b: Vec<u64>) -> (r: Result<
    HammsterCircuit,
    ShapeMismatch,
>)
    ensures
        (a@.len() == BINARY_LENGTH && b@.len() == BINARY_LENGTH) ==> (r matches Ok(c) && c.a
            == Some(a) && c.b == Some(b)),
        (a@.len() != BINARY_LENGTH || b@.len() != BINARY_LENGTH) ==> r is Err,
{
    if a.len() == BINARY_LENGTH && b.len() == BINARY_LENGTH {
        Ok(create_circuit(a, b))
    } else {
        Err(ShapeMismatch)
    }
}

/// Creates a circuit from two vector inputs.
pub fn create_circuit(a: Vec<u64>, b: Vec<u64>) -> (r: HammsterCircuit)
    requires
        a@.len() == BINARY_LENGTH,
        b@.len() == BINARY_LENGTH,
    ensures
        r.a == Some(a),
        r.b == Some(b),
        circuit_wf(r),
        circuit_witnessed(r),
{
    HammsterCircuit { a: Some(a), b: Some(b) }
}

/// Spreads an optionally-supplied vector into one per-cell value per
/// row of the loading window.
fn witness_column(v: &Option<Vec<u64>>) -> (r: Vec<Option<u64>>)
    requires
        (*v matches Some(vec) ==> vec@.len() == BINARY_LENGTH),
    ensures
        r@.len() == BINARY_LENGTH,
        forall|i: int| 0 <= i < BINARY_LENGTH ==> r@[i] == wit(*v, i),
{
    let mut r: Vec<Option<u64>> = Vec::new();
    let mut i: usize = 0;
    match v {
        Some(vec) => {
            while i < BINARY_LENGTH
                invariant
                    vec@.len() == BINARY_LENGTH,
                    0 <= i <= BINARY_LENGTH,
                    r@.len() == i,
                    forall|j: int| 0 <= j < i ==> r@[j] == Some(vec@[j]),
                decreases BINARY_LENGTH - i,
            {
                r.push(Some(vec[i]));
                i = i + 1;
            }
        },
        None => {
            while i < BINARY_LENGTH
                invariant
                    0 <= i <= BINARY_LENGTH,
                    r@.len() == i,
                    forall|j: int| 0 <= j < i ==> r@[j] is None,
                decreases BINARY_LENGTH - i,
            {
                r.push(None);
                i = i + 1;
            }
        },
    }
    r
}

/// `opt_sum` of cells that each hold the XOR witness of a row is the
/// XOR running sum itself.
proof fn lemma_opt_sum_of_xor(vals: Seq<Option<u64>>, a: Seq<u64>, b: Seq<u64>, n: int)
    requires
        0 <= n,
        forall|i: int| 0 <= i < n ==> vals[i] == Some(xor_val(a[i], b[i])),
    ensures
        opt_sum(vals, n) == Some(xor_sum(a, b, n)),
    decreases n,
{
    if n > 0 {
        lemma_opt_sum_of_xor(vals, a, b, n - 1);
    }
}

impl HammsterCircuit {
    /// The shape of this circuit with the witness withheld.
    pub fn without_witnesses(&self) -> (r: HammsterCircuit)
        ensures
            r.a is None,
            r.b is None,
            circuit_wf(r),
    {
        HammsterCircuit { a: None, b: None }
    }

    /// Fixes the column layout this circuit is synthesized against.
    pub fn configure() -> (r: HammsterConfig)
        ensures
            config_canonical(r),
    {
        HammsterChip::configure()
    }

    /// Assigns the witness into a fresh table: loads the two operand
    /// vectors, XORs them row by row, accumulates the results, and
    /// exposes the accumulated value against the public slot.
    pub fn synthesize(&self, config: HammsterConfig, asn: &mut Assignment)
        requires
            circuit_wf(*self),
            config_canonical(config),
            assignment_blank(*old(asn)),
        ensures
            synthesized(*self, *final(asn)),
    {
        let chip = HammsterChip::construct(config);

        // Load private variable vectors; each loaded row also carries
        // its "is boolean" check.
        let a_col = witness_column(&self.a);
        let b_col = witness_column(&self.b);
        let a_nums = chip.load_private_and_check_binary(asn, COL_LEFT, &a_col);
        let b_nums = chip.load_private_and_check_binary(asn, COL_RIGHT, &b_col);

        // Perform XOR on each row.
        let mut xor_results: Vec<Number> = Vec::new();
        let mut i: usize = 0;
        while i < BINARY_LENGTH
            invariant
                circuit_wf(*self),
                assignment_wf(*asn),
                0 <= i <= BINARY_LENGTH,
                a_nums@.len() == BINARY_LENGTH,
                b_nums@.len() == BINARY_LENGTH,
                forall|j: int|
                    0 <= j < BINARY_LENGTH ==> (#[trigger] a_nums@[j]).cell == (Cell {
                        column: COL_LEFT,
                        row: j as usize,
                    }) && a_nums@[j].value == wit(self.a, j),
                forall|j: int|
                    0 <= j < BINARY_LENGTH ==> (#[trigger] b_nums@[j]).cell == (Cell {
                        column: COL_RIGHT,
                        row: j as usize,
                    }) && b_nums@[j].value == wit(self.b, j),
                forall|j: int| 0 <= j < BINARY_LENGTH ==> asn.left@[j] == wit(self.a, j),
                forall|j: int| 0 <= j < BINARY_LENGTH ==> asn.right@[j] == wit(self.b, j),
                asn.left@[ACC_ROW as int] is None,
                asn.right@[ACC_ROW as int] is None,
                forall|j: int|
                    0 <= j < i ==> asn.output@[j] == opt_xor(wit(self.a, j), wit(self.b, j)),
                forall|j: int| i <= j < NUM_ROWS ==> asn.output@[j] is None,
                forall|r: int| 0 <= r < NUM_ROWS ==> (asn.s_binary_l@[r] <==> r < BINARY_LENGTH),
                forall|r: int| 0 <= r < NUM_ROWS ==> (asn.s_binary_r@[r] <==> r < BINARY_LENGTH),
                forall|r: int| 0 <= r < NUM_ROWS ==> (asn.s_xor@[r] <==> r < i),
                forall|r: int| 0 <= r < NUM_ROWS ==> !asn.s_accumulator@[r],
                asn.instance_copies@.len() == 0,
                xor_results@.len() == i,
                forall|j: int|
                    0 <= j < i ==> (#[trigger] xor_results@[j]).cell == (Cell {
                        column: COL_OUT,
                        row: j as usize,
                    }) && xor_results@[j].value == opt_xor(wit(self.a, j), wit(self.b, j)),
            decreases BINARY_LENGTH - i,
        {
            let n = chip.xor(asn, &a_nums[i], &b_nums[i]);
            xor_results.push(n);
            i = i + 1;
        }

        // Accumulate the results of the XOR output column.
        proof {
            assert forall|j: int|
                0 <= j < BINARY_LENGTH implies ((#[trigger] xor_results@[j]).value matches Some(v)
                ==> is_bit(v)) by {
                assert(xor_results@[j].value == opt_xor(wit(self.a, j), wit(self.b, j)));
            }
        }
        let acc = chip.accumulator(asn, &xor_results);

        proof {
            if self.a is Some && self.b is Some {
                assert forall|j: int|
                    0 <= j < BINARY_LENGTH implies number_values(xor_results@)[j] == Some(
                    xor_val(self.a.unwrap()@[j], self.b.unwrap()@[j]),
                ) by {
                    assert(xor_results@[j].value == opt_xor(wit(self.a, j), wit(self.b, j)));
                }
                lemma_opt_sum_of_xor(
                    number_values(xor_results@),
                    self.a.unwrap()@,
                    self.b.unwrap()@,
                    BINARY_LENGTH as int,
                );
            } else {
                assert(number_values(xor_results@)[0] == opt_xor(wit(self.a, 0), wit(self.b, 0)));
                assert(opt_sum(number_values(xor_results@), BINARY_LENGTH as int) is None);
            }
        }

        // Ensure the accumulated value equals the public input.
        chip.expose_public(asn, &acc);
    }
}

/// Configures a fresh table and synthesizes `c` into it.
pub fn synthesize_circuit(c: &HammsterCircuit) -> (r: Assignment)
    requires
        circuit_wf(*c),
    ensures
        synthesized(*c, r),
{
    let config = HammsterCircuit::configure();
    let mut asn = blank_assignment();
    c.synthesize(config, &mut asn);
    asn
}


/// Key generation must not depend on witness values: the selector
/// layout and the registered equality constraints of any two
/// synthesized tables agree, whatever witnesses their circuits hold —
/// only the shape reaches the key generator.
pub proof fn lemma_shape_independent_of_witness(
    c1: HammsterCircuit,
    asn1: Assignment,
    c2: HammsterCircuit,
    asn2: Assignment,
)
    requires
        synthesized(c1, asn1),
        synthesized(c2, asn2),
    ensures
        asn1.s_binary_l@ =~= asn2.s_binary_l@,
        asn1.s_binary_r@ =~= asn2.s_binary_r@,
        asn1.s_xor@ =~= asn2.s_xor@,
        asn1.s_accumulator@ =~= asn2.s_accumulator@,
        asn1.instance_copies@ =~= asn2.instance_copies@,
{
}

} // verus!
