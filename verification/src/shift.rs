//! The shift chip: its operation log and its trace generator.
//!
//! Each recorded operation becomes one trace row; the rows are laid out
//! as in `columns` and the buffer is padded with all-zero rows to a
//! power-of-two height.

use vstd::prelude::*;

verus! {

use crate::felt::{Felt, row_vals};
use crate::word::Word;
use crate::columns::{
    COL_INPUT_1, COL_INPUT_2, COL_OUTPUT, COL_IS_SHL, COL_IS_SHR, NUM_COLS,
};
use crate::{next_pow2, pad_to_power_of_two};
use vstd::arithmetic::power2::{pow2, lemma_pow2_adds, lemma2_to64};

/// Largest operation log a trace is generated for; keeps the padded
/// flat buffer comfortably inside `usize` on any platform.
pub const MAX_OPERATIONS: usize = 0x8_0000;

/// One executed shift: `(destination, source, shift amount)`, each a
/// 4-byte big-endian word.  The destination word holds the value that
/// was written back, i.e. the shift's result.
#[derive(Clone, Copy, Debug, PartialEq, Eq, Structural)]
pub enum Operation {
    Shl32(Word, Word, Word),
    Shr32(Word, Word, Word),
}

/// The destination (result) word of an operation.
pub open spec fn op_dest(op: Operation) -> Word {
    match op {
        Operation::Shl32(a, _, _) => a,
        Operation::Shr32(a, _, _) => a,
    }
}

/// The source word of an operation: the value being shifted.
pub open spec fn op_src(op: Operation) -> Word {
    match op {
        Operation::Shl32(_, b, _) => b,
        Operation::Shr32(_, b, _) => b,
    }
}

/// The shift-amount word of an operation.
pub open spec fn op_shift(op: Operation) -> Word {
    match op {
        Operation::Shl32(_, _, c) => c,
        Operation::Shr32(_, _, c) => c,
    }
}

/// Whether the operation is a left shift.
pub open spec fn op_is_shl(op: Operation) -> bool {
    match op {
        Operation::Shl32(_, _, _) => true,
        Operation::Shr32(_, _, _) => false,
    }
}

/// Bit `i` (least significant bit first) of a byte.
pub open spec fn spec_bit(b: u8, i: u8) -> nat {
    ((b >> i) & 1) as nat
}

/// The weight of bit `i` in the power-of-two reconstruction: `2^(2^i)`.
pub open spec fn pot_weight(i: u8) -> nat {
    if i == 0 {
        2
    } else if i == 1 {
        4
    } else if i == 2 {
        16
    } else if i == 3 {
        256
    } else {
        65536
    }
}

/// The factor bit `i` contributes to the power-of-two product: its
/// weight when the bit is set, and 1 when it is clear.  The product of
/// the five factors reconstructs `2^s` exactly because at most one
/// factor per bit position deviates from 1.
pub open spec fn pot_factor(b: u8, i: u8) -> nat {
    if spec_bit(b, i) == 1 {
        pot_weight(i)
    } else {
        1
    }
}

/// First intermediate product: the contributions of bits 0 to 2.
pub open spec fn spec_temp_1(b: u8) -> nat {
    pot_factor(b, 0) * pot_factor(b, 1) * pot_factor(b, 2)
}

/// Second intermediate product: the contributions of bits 3 and 4.
pub open spec fn spec_temp_2(b: u8) -> nat {
    pot_factor(b, 3) * pot_factor(b, 4)
}

/// The reconstructed power of two: `2^(b % 32)`.
pub open spec fn spec_power_of_two(b: u8) -> nat {
    spec_temp_1(b) * spec_temp_2(b)
}

/// Every bit of a byte is 0 or 1.
pub proof fn lemma_bit_boolean(b: u8, i: u8)
    ensures
        spec_bit(b, i) == 0 || spec_bit(b, i) == 1,
{
    assert((b >> i) & 1 == 0 || (b >> i) & 1 == 1) by (bit_vector);
}

/// Bounds of the intermediate products and the power of two.
pub proof fn lemma_pot_bounds(b: u8)
    ensures
        1 <= spec_temp_1(b) <= 128,
        1 <= spec_temp_2(b) <= 0x100_0000,
        1 <= spec_power_of_two(b) <= 0x8000_0000,
{
    lemma_bit_boolean(b, 0);
    lemma_bit_boolean(b, 1);
    lemma_bit_boolean(b, 2);
    lemma_bit_boolean(b, 3);
    lemma_bit_boolean(b, 4);
    let f0 = pot_factor(b, 0);
    let f1 = pot_factor(b, 1);
    let f2 = pot_factor(b, 2);
    let f3 = pot_factor(b, 3);
    let f4 = pot_factor(b, 4);
    assert(1 <= f0 * f1 * f2 <= 128 && 1 <= f3 * f4 <= 0x100_0000) by (nonlinear_arith)
        requires
            (f0 == 1 || f0 == 2) && (f1 == 1 || f1 == 4) && (f2 == 1 || f2 == 16) && (f3 == 1
                || f3 == 256) && (f4 == 1 || f4 == 65536),
    ;
    assert(1 <= spec_temp_1(b) * spec_temp_2(b) <= 0x8000_0000) by (nonlinear_arith)
        requires
            1 <= spec_temp_1(b) <= 128 && 1 <= spec_temp_2(b) <= 0x100_0000,
    ;
}

/// The mathematical content of one trace row for an operation, column
/// by column as laid out in `columns`.
pub open spec fn op_row(op: Operation) -> Seq<nat> {
    let a = op_dest(op);
    let b = op_src(op);
    let c = op_shift(op);
    let p = spec_power_of_two(c.b3);
    seq![
        b.b0 as nat,
        b.b1 as nat,
        b.b2 as nat,
        b.b3 as nat,
        c.b0 as nat,
        c.b1 as nat,
        c.b2 as nat,
        c.b3 as nat,
        a.b0 as nat,
        a.b1 as nat,
        a.b2 as nat,
        a.b3 as nat,
        p / 0x100_0000,
        (p / 0x1_0000) % 0x100,
        (p / 0x100) % 0x100,
        p % 0x100,
        spec_bit(c.b3, 0),
        spec_bit(c.b3, 1),
        spec_bit(c.b3, 2),
        spec_bit(c.b3, 3),
        spec_bit(c.b3, 4),
        spec_bit(c.b3, 5),
        spec_bit(c.b3, 6),
        spec_bit(c.b3, 7),
        spec_temp_1(c.b3),
        spec_temp_2(c.b3),
        if op_is_shl(op) {
            1nat
        } else {
            0nat
        },
        if op_is_shl(op) {
            0nat
        } else {
            1nat
        },
    ]
}

/// Decomposing a byte into its eight bits and recombining them by the
/// weighted sum with weights 1, 2, 4, ..., 128 reproduces the byte.
pub proof fn lemma_bit_decomposition_round_trip(s: u8)
    ensures
        spec_bit(s, 0) * 1 + spec_bit(s, 1) * 2 + spec_bit(s, 2) * 4 + spec_bit(s, 3) * 8
            + spec_bit(s, 4) * 16 + spec_bit(s, 5) * 32 + spec_bit(s, 6) * 64 + spec_bit(s, 7)
            * 128 == s,
{
    assert(((s >> 0) & 1) * 1 + ((s >> 1) & 1) * 2 + ((s >> 2) & 1) * 4 + ((s >> 3) & 1) * 8 + ((s
        >> 4) & 1) * 16 + ((s >> 5) & 1) * 32 + ((s >> 6) & 1) * 64 + ((s >> 7) & 1) * 128 == s)
        by (bit_vector);
}

/// The product of the five per-bit factors is `2` raised to the low
/// five bits of the byte.
pub proof fn lemma_power_of_two_mod32(s: u8)
    ensures
        spec_power_of_two(s) == pow2((s % 32) as nat),
{
    lemma_bit_boolean(s, 0);
    lemma_bit_boolean(s, 1);
    lemma_bit_boolean(s, 2);
    lemma_bit_boolean(s, 3);
    lemma_bit_boolean(s, 4);
    lemma2_to64();
    let b0 = spec_bit(s, 0);
    let b1 = spec_bit(s, 1);
    let b2 = spec_bit(s, 2);
    let b3 = spec_bit(s, 3);
    let b4 = spec_bit(s, 4);
    assert(pot_factor(s, 0) == pow2((b0 * 1) as nat));
    assert(pot_factor(s, 1) == pow2((b1 * 2) as nat));
    assert(pot_factor(s, 2) == pow2((b2 * 4) as nat));
    assert(pot_factor(s, 3) == pow2((b3 * 8) as nat));
    assert(pot_factor(s, 4) == pow2((b4 * 16) as nat));
    lemma_pow2_adds((b0 * 1) as nat, (b1 * 2) as nat);
    lemma_pow2_adds((b0 * 1 + b1 * 2) as nat, (b2 * 4) as nat);
    lemma_pow2_adds((b3 * 8) as nat, (b4 * 16) as nat);
    lemma_pow2_adds((b0 * 1 + b1 * 2 + b2 * 4) as nat, (b3 * 8 + b4 * 16) as nat);
    assert(spec_power_of_two(s) == pow2((b0 * 1 + b1 * 2 + b2 * 4 + b3 * 8 + b4 * 16) as nat));
    assert(((s >> 0) & 1) * 1 + ((s >> 1) & 1) * 2 + ((s >> 2) & 1) * 4 + ((s >> 3) & 1) * 8 + ((s
        >> 4) & 1) * 16 == s % 32) by (bit_vector);
}

/// For shift amounts below 32, the reconstructed power of two is
/// exactly `2` to the shift amount.
pub proof fn lemma_power_of_two_correct(s: u8)
    requires
        s < 32,
    ensures
        spec_power_of_two(s) == pow2(s as nat),
{
    lemma_power_of_two_mod32(s);
}

/// Each generated row carries its operation's words unchanged: the
/// `input_1`, `input_2` and `output` columns recombine to the source,
/// shift-amount and destination words of the operation.
pub proof fn lemma_row_reflects_operation(op: Operation)
    ensures
        op_row(op)[COL_OUTPUT as int] * 0x100_0000 + op_row(op)[COL_OUTPUT + 1] * 0x1_0000 + op_row(
            op,
        )[COL_OUTPUT + 2] * 0x100 + op_row(op)[COL_OUTPUT + 3] == op_dest(op).value(),
        op_row(op)[COL_INPUT_1 as int] * 0x100_0000 + op_row(op)[COL_INPUT_1 + 1] * 0x1_0000
            + op_row(op)[COL_INPUT_1 + 2] * 0x100 + op_row(op)[COL_INPUT_1 + 3] == op_src(
            op,
        ).value(),
        op_row(op)[COL_INPUT_2 as int] * 0x100_0000 + op_row(op)[COL_INPUT_2 + 1] * 0x1_0000
            + op_row(op)[COL_INPUT_2 + 2] * 0x100 + op_row(op)[COL_INPUT_2 + 3] == op_shift(
            op,
        ).value(),
{
}

/// Exactly one of the two selector columns is set on every generated
/// real row: never both, and never neither.
pub proof fn lemma_selectors_exclusive(op: Operation)
    ensures
        op_row(op)[COL_IS_SHL as int] + op_row(op)[COL_IS_SHR as int] == 1,
        op_row(op)[COL_IS_SHL as int] == 0 || op_row(op)[COL_IS_SHL as int] == 1,
        op_row(op)[COL_IS_SHR as int] == 0 || op_row(op)[COL_IS_SHR as int] == 1,
{
}

/// Height of the trace generated from `n` operations: zero stays zero,
/// anything else is padded up to the next power of two.
pub open spec fn trace_height(n: nat) -> nat {
    if n == 0 {
        0
    } else {
        next_pow2(n)
    }
}

/// A row-major matrix of field elements: `width` columns, and one row
/// per `width` consecutive entries of `values`.
pub struct Trace {
    pub values: Vec<Felt>,
    pub width: usize,
}

impl Trace {
    /// Number of rows.
    pub fn height(&self) -> (r: usize)
        requires
            self.width > 0,
        ensures
            r == self.values@.len() / (self.width as nat),
    {
        self.values.len() / self.width
    }

    /// A copy of row `r`.
    pub fn row(&self, r: usize) -> (out: Vec<Felt>)
        requires
            self.width > 0,
            (r + 1) * self.width <= self.values@.len(),
        ensures
            out@ == self.values@.subrange(r as int * self.width as int, (r + 1) * self.width as int),
    {
        let len = self.values.len();
        proof {
            assert((r + 1) * self.width == r * self.width + self.width) by (nonlinear_arith);
        }
        let base = r * self.width;
        let mut out: Vec<Felt> = Vec::new();
        let mut j: usize = 0;
        proof {
            assert(out@ =~= self.values@.subrange(base as int, base as int));
        }
        while j < self.width
            invariant
                j <= self.width,
                base == r * self.width,
                base + self.width <= self.values@.len(),
                self.values@.len() <= usize::MAX,
                out@ == self.values@.subrange(base as int, base as int + j as int),
            decreases self.width - j,
        {
            out.push(self.values[base + j]);
            j = j + 1;
            proof {
                assert(out@ =~= self.values@.subrange(base as int, base as int + j as int));
            }
        }
        out
    }
}

/// The shift chip: the log of executed shift operations.
#[derive(Default)]
pub struct Shift32Chip {
    pub operations: Vec<Operation>,
}

impl Shift32Chip {
    /// A fresh chip with an empty operation log.
    pub fn new() -> (r: Shift32Chip)
        ensures
            r.operations@.len() == 0,
    {
        Shift32Chip { operations: Vec::new() }
    }

    /// Builds the trace row of one operation: operands and result as
    /// byte-wise field elements, the decomposed bits of the shift
    /// amount's low byte, the two intermediate products, the
    /// reconstructed power of two, and the variant selectors.
    pub fn op_to_row(&self, op: &Operation) -> (r: Vec<Felt>)
        ensures
            r@.len() == NUM_COLS,
            row_vals(r@) == op_row(*op),
    {
        let (a, b, c, is_shl): (Word, Word, Word, bool) = match op {
            Operation::Shl32(a, b, c) => (*a, *b, *c, true),
            Operation::Shr32(a, b, c) => (*a, *b, *c, false),
        };
        let c3 = c.b3;
        let bit0: u8 = (c3 >> 0) & 1;
        let bit1: u8 = (c3 >> 1) & 1;
        let bit2: u8 = (c3 >> 2) & 1;
        let bit3: u8 = (c3 >> 3) & 1;
        let bit4: u8 = (c3 >> 4) & 1;
        let bit5: u8 = (c3 >> 5) & 1;
        let bit6: u8 = (c3 >> 6) & 1;
        let bit7: u8 = (c3 >> 7) & 1;
        proof {
            lemma_bit_boolean(c3, 0);
            lemma_bit_boolean(c3, 1);
            lemma_bit_boolean(c3, 2);
            lemma_bit_boolean(c3, 3);
            lemma_bit_boolean(c3, 4);
        }
        let f0: u32 = if bit0 == 1 { 2 } else { 1 };
        let f1: u32 = if bit1 == 1 { 4 } else { 1 };
        let f2: u32 = if bit2 == 1 { 16 } else { 1 };
        let f3: u32 = if bit3 == 1 { 256 } else { 1 };
        let f4: u32 = if bit4 == 1 { 65536 } else { 1 };
        let temp_1: u32 = f0 * f1 * f2;
        let temp_2: u32 = f3 * f4;
        proof {
            assert(temp_1 * temp_2 <= 0x8000_0000) by (nonlinear_arith)
                requires
                    temp_1 <= 128 && temp_2 <= 0x100_0000,
            ;
        }
        let power_of_two: u32 = temp_1 * temp_2;
        let pw = Word::from_u32(power_of_two);
        let mut r: Vec<Felt> = Vec::new();
        r.push(Felt::from_u8(b.b0));
        r.push(Felt::from_u8(b.b1));
        r.push(Felt::from_u8(b.b2));
        r.push(Felt::from_u8(b.b3));
        r.push(Felt::from_u8(c.b0));
        r.push(Felt::from_u8(c.b1));
        r.push(Felt::from_u8(c.b2));
        r.push(Felt::from_u8(c.b3));
        r.push(Felt::from_u8(a.b0));
        r.push(Felt::from_u8(a.b1));
        r.push(Felt::from_u8(a.b2));
        r.push(Felt::from_u8(a.b3));
        r.push(Felt::from_u8(pw.b0));
        r.push(Felt::from_u8(pw.b1));
        r.push(Felt::from_u8(pw.b2));
        r.push(Felt::from_u8(pw.b3));
        r.push(Felt::from_u8(bit0));
        r.push(Felt::from_u8(bit1));
        r.push(Felt::from_u8(bit2));
        r.push(Felt::from_u8(bit3));
        r.push(Felt::from_u8(bit4));
        r.push(Felt::from_u8(bit5));
        r.push(Felt::from_u8(bit6));
        r.push(Felt::from_u8(bit7));
        r.push(Felt::from_u32(temp_1));
        r.push(Felt::from_u32(temp_2));
        if is_shl {
            r.push(Felt::one());
            r.push(Felt::zero());
        } else {
            r.push(Felt::zero());
            r.push(Felt::one());
        }
        proof {
            assert(row_vals(r@) =~= op_row(*op));
        }
        r
    }

    /// Turns the operation log into the trace: one row per operation in
    /// log order, padded with all-zero rows to a power-of-two height
    /// (and left empty when there are no operations).
    pub fn generate_trace(&self) -> (t: Trace)
        requires
            self.operations@.len() <= MAX_OPERATIONS,
        ensures
            t.width == NUM_COLS,
            t.values@.len() == trace_height(self.operations@.len()) * (NUM_COLS as nat),
            forall|i: int|
                0 <= i < self.operations@.len() ==> row_vals(
                    #[trigger] t.values@.subrange(i * (NUM_COLS as int), (i + 1) * (NUM_COLS as int)),
                ) == op_row(self.operations@[i]),
            forall|j: int|
                self.operations@.len() * (NUM_COLS as nat) <= j < t.values@.len()
                    ==> #[trigger] t.values@[j]@ == 0,
    {
        let n = self.operations.len();
        let mut values: Vec<Felt> = Vec::new();
        let mut idx: usize = 0;
        while idx < n
            invariant
                idx <= n,
                n == self.operations@.len(),
                n <= MAX_OPERATIONS,
                values@.len() == idx * (NUM_COLS as nat),
                forall|i: int|
                    0 <= i < idx ==> row_vals(
                        #[trigger] values@.subrange(
                            i * (NUM_COLS as int),
                            (i + 1) * (NUM_COLS as int),
                        ),
                    ) == op_row(self.operations@[i]),
            decreases n - idx,
        {
            let ghost before = values@;
            let mut row = self.op_to_row(&self.operations[idx]);
            values.append(&mut row);
            proof {
                assert forall|i: int| 0 <= i < idx + 1 implies row_vals(
                    #[trigger] values@.subrange(i * (NUM_COLS as int), (i + 1) * (NUM_COLS as int)),
                ) == op_row(self.operations@[i]) by {
                    if i < idx {
                        assert(values@.subrange(i * (NUM_COLS as int), (i + 1) * (NUM_COLS as int))
                            =~= before.subrange(i * (NUM_COLS as int), (i + 1) * (NUM_COLS as int)));
                    } else {
                        assert(values@.subrange(i * (NUM_COLS as int), (i + 1) * (NUM_COLS as int))
                            =~= values@.subrange(before.len() as int, values@.len() as int));
                    }
                }
            }
            idx = idx + 1;
        }
        let ghost before_pad = values@;
        pad_to_power_of_two(&mut values);
        proof {
            if n > 0 {
                crate::lemma_next_pow2_bounds(n as nat);
            }
            assert forall|i: int| 0 <= i < n implies row_vals(
                #[trigger] values@.subrange(i * (NUM_COLS as int), (i + 1) * (NUM_COLS as int)),
            ) == op_row(self.operations@[i]) by {
                assert(values@.subrange(i * (NUM_COLS as int), (i + 1) * (NUM_COLS as int))
                    =~= before_pad.subrange(i * (NUM_COLS as int), (i + 1) * (NUM_COLS as int)));
            }
        }
        Trace { values, width: NUM_COLS }
    }
}

/// A machine that hosts a shift chip.
pub trait MachineWithShift32Chip {
    fn shift_u32(&self) -> &Shift32Chip;

    fn shift_u32_mut(&mut self) -> &mut Shift32Chip;
}

} // verus!
