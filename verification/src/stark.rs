//! Per-row algebraic constraints of the shift chip.
//!
//! Every constraint is a polynomial equality over the field, evaluated
//! against one row; an honest trace satisfies all of them on every row,
//! padding rows included.  The two intermediate products are gated by
//! the selector sum so that the all-zero padding row satisfies them.

use vstd::prelude::*;

verus! {

use crate::felt::{
    Felt, FIELD_MODULUS, fadd, fmul, freduce, row_vals, lemma_fadd_small, lemma_fmul_small,
    lemma_freduce_small,
};
use crate::word::Word;
use crate::columns::{
    COL_INPUT_2, COL_POWER_OF_TWO, COL_BITS_2, COL_TEMP_1, COL_TEMP_2, COL_IS_SHL, COL_IS_SHR,
    NUM_COLS,
};
use crate::shift::{
    Operation, op_row, op_shift, spec_bit, spec_temp_1, spec_temp_2, spec_power_of_two,
    pot_factor, lemma_bit_boolean, lemma_pot_bounds, lemma_bit_decomposition_round_trip,
};

/// A field value is boolean when it squares to itself.
pub open spec fn fbool(x: nat) -> bool {
    fmul(x, x) == freduce(x)
}

/// The sum of the two selector columns.
pub open spec fn selector_sum(row: Seq<nat>) -> nat {
    fadd(row[COL_IS_SHL as int], row[COL_IS_SHR as int])
}

/// The weighted sum of the eight recorded bits, weights 1, 2, ..., 128.
pub open spec fn weighted_bit_sum(row: Seq<nat>) -> nat {
    fadd(
        fadd(
            fadd(
                fadd(
                    fadd(
                        fadd(
                            fadd(fmul(row[COL_BITS_2 as int], 1), fmul(row[COL_BITS_2 + 1], 2)),
                            fmul(row[COL_BITS_2 + 2], 4),
                        ),
                        fmul(row[COL_BITS_2 + 3], 8),
                    ),
                    fmul(row[COL_BITS_2 + 4], 16),
                ),
                fmul(row[COL_BITS_2 + 5], 32),
            ),
            fmul(row[COL_BITS_2 + 6], 64),
        ),
        fmul(row[COL_BITS_2 + 7], 128),
    )
}

/// The factor the recorded bit `i` contributes to a power-of-two
/// product: `bit * (w - 1) + 1`, which is `w` when the bit is 1 and 1
/// when it is 0.
pub open spec fn factor_expr(row: Seq<nat>, i: int, w: nat) -> nat {
    fadd(fmul(row[COL_BITS_2 + i], (w - 1) as nat), 1)
}

/// The first product, gated by the selector sum so an all-zero padding
/// row satisfies its constraint.
pub open spec fn temp_1_expr(row: Seq<nat>) -> nat {
    fmul(
        fmul(fmul(selector_sum(row), factor_expr(row, 0, 2)), factor_expr(row, 1, 4)),
        factor_expr(row, 2, 16),
    )
}

/// The second product, gated in the same way.
pub open spec fn temp_2_expr(row: Seq<nat>) -> nat {
    fmul(fmul(selector_sum(row), factor_expr(row, 3, 256)), factor_expr(row, 4, 65536))
}

/// The power-of-two word recombined from its big-endian bytes.
pub open spec fn power_of_two_recomposed(row: Seq<nat>) -> nat {
    fadd(
        fadd(
            fadd(
                fmul(row[COL_POWER_OF_TWO as int], 0x100_0000),
                fmul(row[COL_POWER_OF_TWO + 1], 0x1_0000),
            ),
            fmul(row[COL_POWER_OF_TWO + 2], 0x100),
        ),
        fmul(row[COL_POWER_OF_TWO + 3], 1),
    )
}

/// All per-row constraints of the chip:
/// - the eight bits recombine to the shift amount's low byte;
/// - each intermediate product equals its gated factor product;
/// - the power-of-two word recombines to the product of the two
///   intermediate products;
/// - each selector is boolean and their sum is boolean (at most one is
///   set, so the all-zero padding row passes).
pub open spec fn constraints_hold(row: Seq<nat>) -> bool {
    &&& weighted_bit_sum(row) == freduce(row[COL_INPUT_2 + 3])
    &&& temp_1_expr(row) == freduce(row[COL_TEMP_1 as int])
    &&& temp_2_expr(row) == freduce(row[COL_TEMP_2 as int])
    &&& power_of_two_recomposed(row) == fmul(row[COL_TEMP_1 as int], row[COL_TEMP_2 as int])
    &&& fbool(row[COL_IS_SHL as int])
    &&& fbool(row[COL_IS_SHR as int])
    &&& fbool(selector_sum(row))
}

/// Every row generated for an operation satisfies all constraints of
/// the chip.
pub proof fn lemma_op_row_satisfies_constraints(op: Operation)
    ensures
        constraints_hold(op_row(op)),
{
    let row = op_row(op);
    let s = op_shift(op).b3;
    lemma_bit_boolean(s, 0);
    lemma_bit_boolean(s, 1);
    lemma_bit_boolean(s, 2);
    lemma_bit_boolean(s, 3);
    lemma_bit_boolean(s, 4);
    lemma_bit_boolean(s, 5);
    lemma_bit_boolean(s, 6);
    lemma_bit_boolean(s, 7);
    lemma_pot_bounds(s);
    let b0 = spec_bit(s, 0);
    let b1 = spec_bit(s, 1);
    let b2 = spec_bit(s, 2);
    let b3 = spec_bit(s, 3);
    let b4 = spec_bit(s, 4);
    let b5 = spec_bit(s, 5);
    let b6 = spec_bit(s, 6);
    let b7 = spec_bit(s, 7);

    // Bit recombination: the weighted sum stays below the modulus at
    // every step, so field addition is plain addition.
    lemma_fmul_small(b0, 1);
    lemma_fmul_small(b1, 2);
    lemma_fmul_small(b2, 4);
    lemma_fmul_small(b3, 8);
    lemma_fmul_small(b4, 16);
    lemma_fmul_small(b5, 32);
    lemma_fmul_small(b6, 64);
    lemma_fmul_small(b7, 128);
    lemma_fadd_small(b0 * 1, b1 * 2);
    lemma_fadd_small((b0 * 1 + b1 * 2) as nat, b2 * 4);
    lemma_fadd_small((b0 * 1 + b1 * 2 + b2 * 4) as nat, b3 * 8);
    lemma_fadd_small((b0 * 1 + b1 * 2 + b2 * 4 + b3 * 8) as nat, b4 * 16);
    lemma_fadd_small((b0 * 1 + b1 * 2 + b2 * 4 + b3 * 8 + b4 * 16) as nat, b5 * 32);
    lemma_fadd_small((b0 * 1 + b1 * 2 + b2 * 4 + b3 * 8 + b4 * 16 + b5 * 32) as nat, b6 * 64);
    lemma_fadd_small(
        (b0 * 1 + b1 * 2 + b2 * 4 + b3 * 8 + b4 * 16 + b5 * 32 + b6 * 64) as nat,
        b7 * 128,
    );
    lemma_bit_decomposition_round_trip(s);
    lemma_freduce_small(s as nat);
    assert(weighted_bit_sum(row) == freduce(row[COL_INPUT_2 + 3]));

    // The selector sum is exactly 1 on a real row.
    lemma_fadd_small(row[COL_IS_SHL as int], row[COL_IS_SHR as int]);
    assert(selector_sum(row) == 1);

    // Each gated factor equals the power-of-two factor of its bit.
    lemma_fmul_small(b0, 1);
    lemma_fmul_small(b1, 3);
    lemma_fmul_small(b2, 15);
    lemma_fmul_small(b3, 255);
    lemma_fmul_small(b4, 65535);
    lemma_fadd_small(b0 * 1, 1);
    lemma_fadd_small(b1 * 3, 1);
    lemma_fadd_small(b2 * 15, 1);
    lemma_fadd_small(b3 * 255, 1);
    lemma_fadd_small(b4 * 65535, 1);
    let f0 = pot_factor(s, 0);
    let f1 = pot_factor(s, 1);
    let f2 = pot_factor(s, 2);
    let f3 = pot_factor(s, 3);
    let f4 = pot_factor(s, 4);
    assert(factor_expr(row, 0, 2) == f0);
    assert(factor_expr(row, 1, 4) == f1);
    assert(factor_expr(row, 2, 16) == f2);
    assert(factor_expr(row, 3, 256) == f3);
    assert(factor_expr(row, 4, 65536) == f4);

    // The gated products equal the recorded intermediate columns.
    assert(f0 * f1 <= 8 && f0 * f1 * f2 <= 128 && f3 * f4 <= 0x100_0000) by (nonlinear_arith)
        requires
            (f0 == 1 || f0 == 2) && (f1 == 1 || f1 == 4) && (f2 == 1 || f2 == 16) && (f3 == 1
                || f3 == 256) && (f4 == 1 || f4 == 65536),
    ;
    lemma_fmul_small(1, f0);
    lemma_fmul_small(f0, f1);
    lemma_fmul_small((f0 * f1) as nat, f2);
    lemma_fmul_small(1, f3);
    lemma_fmul_small(f3, f4);
    lemma_freduce_small(spec_temp_1(s));
    lemma_freduce_small(spec_temp_2(s));
    assert(temp_1_expr(row) == freduce(row[COL_TEMP_1 as int]));
    assert(temp_2_expr(row) == freduce(row[COL_TEMP_2 as int]));

    // The recorded power-of-two bytes recombine to the product of the
    // two intermediate columns.
    let p = spec_power_of_two(s);
    let y0 = p / 0x100_0000;
    let y1 = (p / 0x1_0000) % 0x100;
    let y2 = (p / 0x100) % 0x100;
    let y3 = p % 0x100;
    assert(y0 < 0x100) by (nonlinear_arith)
        requires
            p <= 0x8000_0000 && y0 == p / 0x100_0000,
    ;
    lemma_fmul_small(y0, 0x100_0000);
    lemma_fmul_small(y1, 0x1_0000);
    lemma_fmul_small(y2, 0x100);
    lemma_fmul_small(y3, 1);
    lemma_fadd_small(y0 * 0x100_0000, y1 * 0x1_0000);
    lemma_fadd_small((y0 * 0x100_0000 + y1 * 0x1_0000) as nat, y2 * 0x100);
    lemma_fadd_small((y0 * 0x100_0000 + y1 * 0x1_0000 + y2 * 0x100) as nat, y3 * 1);
    Word::lemma_byte_recomposition(p as u32);
    lemma_fmul_small(spec_temp_1(s), spec_temp_2(s));
    assert(power_of_two_recomposed(row) == fmul(
        row[COL_TEMP_1 as int],
        row[COL_TEMP_2 as int],
    ));

    // Selector booleanity.
    lemma_fmul_small(0, 0);
    lemma_fmul_small(1, 1);
    lemma_freduce_small(0);
    lemma_freduce_small(1);
}

/// An all-zero row — the padding the trace generator appends —
/// satisfies every constraint of the chip.
pub proof fn lemma_padding_row_satisfies_constraints(row: Seq<nat>)
    requires
        row.len() == NUM_COLS,
        forall|j: int| 0 <= j < row.len() ==> #[trigger] row[j] == 0,
    ensures
        constraints_hold(row),
{
    lemma_fmul_small(0, 0);
    lemma_fmul_small(1, 1);
    lemma_fadd_small(0, 0);
    lemma_fadd_small(0, 1);
    lemma_freduce_small(0);
    lemma_freduce_small(1);
    lemma_fmul_small(0, 1);
    lemma_fmul_small(0, 2);
    lemma_fmul_small(0, 4);
    lemma_fmul_small(0, 8);
    lemma_fmul_small(0, 16);
    lemma_fmul_small(0, 32);
    lemma_fmul_small(0, 64);
    lemma_fmul_small(0, 128);
    lemma_fmul_small(0, 3);
    lemma_fmul_small(0, 15);
    lemma_fmul_small(0, 255);
    lemma_fmul_small(0, 65535);
    lemma_fmul_small(0, 0x100_0000);
    lemma_fmul_small(0, 0x1_0000);
    lemma_fmul_small(0, 0x100);
    assert(selector_sum(row) == 0);
    assert(factor_expr(row, 0, 2) == 1);
    assert(factor_expr(row, 1, 4) == 1);
    assert(factor_expr(row, 2, 16) == 1);
    assert(factor_expr(row, 3, 256) == 1);
    assert(factor_expr(row, 4, 65536) == 1);
}

/// Every row of a generated trace — the row of any logged operation as
/// well as every padding row — satisfies all constraints of the chip.
/// The preconditions are exactly what `Shift32Chip::generate_trace`
/// guarantees of its output.
pub proof fn lemma_trace_rows_satisfy_constraints(ops: Seq<Operation>, values: Seq<Felt>, i: int)
    requires
        forall|k: int|
            0 <= k < ops.len() ==> row_vals(
                #[trigger] values.subrange(k * (NUM_COLS as int), (k + 1) * (NUM_COLS as int)),
            ) == op_row(ops[k]),
        forall|j: int|
            ops.len() * (NUM_COLS as nat) <= j < values.len() ==> #[trigger] values[j]@ == 0,
        0 <= i,
        (i + 1) * (NUM_COLS as int) <= values.len(),
    ensures
        constraints_hold(
            row_vals(values.subrange(i * (NUM_COLS as int), (i + 1) * (NUM_COLS as int))),
        ),
{
    if i < ops.len() {
        lemma_op_row_satisfies_constraints(ops[i]);
    } else {
        let row = row_vals(values.subrange(i * (NUM_COLS as int), (i + 1) * (NUM_COLS as int)));
        assert forall|j: int| 0 <= j < row.len() implies #[trigger] row[j] == 0 by {
            assert(ops.len() * (NUM_COLS as int) <= i * (NUM_COLS as int) + j);
            assert(values[i * (NUM_COLS as int) + j]@ == 0);
        }
        lemma_padding_row_satisfies_constraints(row);
    }
}

/// Evaluates every constraint against one row of field elements.
pub fn eval_row(row: &Vec<Felt>) -> (r: bool)
    requires
        row@.len() == NUM_COLS,
    ensures
        r == constraints_hold(row_vals(row@)),
{
    let ghost rv = row_vals(row@);
    let bit_sum = row[COL_BITS_2]
        .mul(&Felt::from_u32(1))
        .add(&row[COL_BITS_2 + 1].mul(&Felt::from_u32(2)))
        .add(&row[COL_BITS_2 + 2].mul(&Felt::from_u32(4)))
        .add(&row[COL_BITS_2 + 3].mul(&Felt::from_u32(8)))
        .add(&row[COL_BITS_2 + 4].mul(&Felt::from_u32(16)))
        .add(&row[COL_BITS_2 + 5].mul(&Felt::from_u32(32)))
        .add(&row[COL_BITS_2 + 6].mul(&Felt::from_u32(64)))
        .add(&row[COL_BITS_2 + 7].mul(&Felt::from_u32(128)));
    let c_bits = bit_sum.eq_mod(&row[COL_INPUT_2 + 3]);

    let sel = row[COL_IS_SHL].add(&row[COL_IS_SHR]);
    let one = Felt::one();
    let f0 = row[COL_BITS_2].mul(&Felt::from_u32(1)).add(&one);
    let f1 = row[COL_BITS_2 + 1].mul(&Felt::from_u32(3)).add(&one);
    let f2 = row[COL_BITS_2 + 2].mul(&Felt::from_u32(15)).add(&one);
    let f3 = row[COL_BITS_2 + 3].mul(&Felt::from_u32(255)).add(&one);
    let f4 = row[COL_BITS_2 + 4].mul(&Felt::from_u32(65535)).add(&one);
    let t1 = sel.mul(&f0).mul(&f1).mul(&f2);
    let t2 = sel.mul(&f3).mul(&f4);
    let c_temp_1 = t1.eq_mod(&row[COL_TEMP_1]);
    let c_temp_2 = t2.eq_mod(&row[COL_TEMP_2]);

    let recomposed = row[COL_POWER_OF_TWO]
        .mul(&Felt::from_u32(0x100_0000))
        .add(&row[COL_POWER_OF_TWO + 1].mul(&Felt::from_u32(0x1_0000)))
        .add(&row[COL_POWER_OF_TWO + 2].mul(&Felt::from_u32(0x100)))
        .add(&row[COL_POWER_OF_TWO + 3].mul(&Felt::from_u32(1)));
    let product = row[COL_TEMP_1].mul(&row[COL_TEMP_2]);
    let c_power = recomposed.eq_mod(&product);

    let shl_sq = row[COL_IS_SHL].mul(&row[COL_IS_SHL]);
    let shr_sq = row[COL_IS_SHR].mul(&row[COL_IS_SHR]);
    let sel_sq = sel.mul(&sel);
    let c_shl_bool = shl_sq.eq_mod(&row[COL_IS_SHL]);
    let c_shr_bool = shr_sq.eq_mod(&row[COL_IS_SHR]);
    let c_sel_bool = sel_sq.eq_mod(&sel);

    proof {
        lemma_freduce_small(bit_sum@);
        lemma_freduce_small(t1@);
        lemma_freduce_small(t2@);
        lemma_freduce_small(recomposed@);
        lemma_freduce_small(product@);
        lemma_freduce_small(shl_sq@);
        lemma_freduce_small(shr_sq@);
        lemma_freduce_small(sel_sq@);
        lemma_freduce_small(sel@);
    }
    c_bits && c_temp_1 && c_temp_2 && c_power && c_shl_bool && c_shr_bool && c_sel_bool
}

} // verus!
