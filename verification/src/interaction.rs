//! Bus interaction declarations.
//!
//! An interaction names, as linear combinations of a row's columns
//! ("virtual columns"), the values this chip sends to or receives from
//! a shared bus, together with a multiplicity column and the bus
//! identifier.  Interactions are static: they depend only on the column
//! layout, never on the operation log.

use vstd::prelude::*;

verus! {

use crate::felt::{Felt, fadd, fmul, row_vals};
use crate::columns::{
    COL_INPUT_1, COL_INPUT_2, COL_OUTPUT, COL_POWER_OF_TWO, COL_IS_SHL, COL_IS_SHR,
};
use crate::shift::Shift32Chip;

/// A linear combination of row columns plus a constant, evaluated over
/// a single row; never materialized as a stored column.
pub struct VirtualCol {
    pub terms: Vec<(usize, Felt)>,
    pub constant: Felt,
}

/// What a chip contributes to one bus: the virtual columns whose values
/// travel over the bus, the multiplicity column, and the bus identifier
/// the hosting machine assigned.
pub struct Interaction {
    pub fields: Vec<VirtualCol>,
    pub count: VirtualCol,
    pub argument_index: usize,
}

/// The fixed table of opcode identifiers shared by every chip of the
/// machine; built once at startup and passed by reference.
#[derive(Clone, Copy, Debug, PartialEq, Eq, Structural)]
pub struct OpcodeTable {
    pub shl32: u32,
    pub shr32: u32,
    pub mul32: u32,
    pub div32: u32,
}

/// What the hosting machine supplies to a chip: the bus identifiers it
/// assigned and the opcode table.
#[derive(Clone, Copy, Debug, PartialEq, Eq, Structural)]
pub struct MachineContext {
    pub general_bus: usize,
    pub power_of_two_bus: usize,
    pub range_bus_8: usize,
    pub opcodes: OpcodeTable,
}

/// The value of a term list over a row: the weighted sum, in the field,
/// of the named columns.
pub open spec fn eval_terms(terms: Seq<(usize, Felt)>, row: Seq<nat>) -> nat
    decreases terms.len(),
{
    if terms.len() == 0 {
        0
    } else {
        fadd(
            eval_terms(terms.drop_last(), row),
            fmul(row[terms.last().0 as int], terms.last().1@),
        )
    }
}

/// The value of a virtual column over a row.
pub open spec fn vcol_eval(vc: VirtualCol, row: Seq<nat>) -> nat {
    fadd(eval_terms(vc.terms@, row), vc.constant@)
}

/// A virtual column that reads a single real column.
pub open spec fn is_single_col(vc: VirtualCol, col: int) -> bool {
    &&& vc.terms@.len() == 1
    &&& vc.terms@[0].0 == col
    &&& vc.terms@[0].1@ == 1
    &&& vc.constant@ == 0
}

/// The constant-one virtual column.
pub open spec fn is_one(vc: VirtualCol) -> bool {
    vc.terms@.len() == 0 && vc.constant@ == 1
}

/// The constant-zero virtual column.
pub open spec fn is_zero(vc: VirtualCol) -> bool {
    vc.terms@.len() == 0 && vc.constant@ == 0
}

/// A virtual column combining the two selectors with one weight each:
/// `is_shl * w_shl + is_shr * w_shr`.
pub open spec fn is_selector_pair(vc: VirtualCol, w_shl: nat, w_shr: nat) -> bool {
    &&& vc.terms@.len() == 2
    &&& vc.terms@[0].0 == COL_IS_SHL
    &&& vc.terms@[0].1@ == w_shl
    &&& vc.terms@[1].0 == COL_IS_SHR
    &&& vc.terms@[1].1@ == w_shr
    &&& vc.constant@ == 0
}

impl VirtualCol {
    /// The constant-one virtual column.
    pub fn one() -> (r: VirtualCol)
        ensures
            is_one(r),
    {
        VirtualCol { terms: Vec::new(), constant: Felt::one() }
    }

    /// The constant-zero virtual column.
    pub fn zero() -> (r: VirtualCol)
        ensures
            is_zero(r),
    {
        VirtualCol { terms: Vec::new(), constant: Felt::zero() }
    }

    /// The virtual column that reads one real column.
    pub fn single(col: usize) -> (r: VirtualCol)
        ensures
            is_single_col(r, col as int),
    {
        let mut terms: Vec<(usize, Felt)> = Vec::new();
        terms.push((col, Felt::one()));
        VirtualCol { terms, constant: Felt::zero() }
    }

    /// The weighted pair of the two selector columns.
    pub fn selector_pair(w_shl: Felt, w_shr: Felt) -> (r: VirtualCol)
        ensures
            is_selector_pair(r, w_shl@, w_shr@),
    {
        let mut terms: Vec<(usize, Felt)> = Vec::new();
        terms.push((COL_IS_SHL, w_shl));
        terms.push((COL_IS_SHR, w_shr));
        VirtualCol { terms, constant: Felt::zero() }
    }

    /// Evaluates the virtual column over one row.
    pub fn apply(&self, row: &Vec<Felt>) -> (r: Felt)
        requires
            forall|i: int|
                0 <= i < self.terms@.len() ==> (#[trigger] self.terms@[i]).0 < row@.len(),
        ensures
            r@ == vcol_eval(*self, row_vals(row@)),
    {
        let ghost rv = row_vals(row@);
        let mut acc = Felt::zero();
        let mut i: usize = 0;
        proof {
            assert(self.terms@.take(0) =~= Seq::<(usize, Felt)>::empty());
        }
        while i < self.terms.len()
            invariant
                i <= self.terms@.len(),
                rv == row_vals(row@),
                forall|k: int|
                    0 <= k < self.terms@.len() ==> (#[trigger] self.terms@[k]).0 < row@.len(),
                acc@ == eval_terms(self.terms@.take(i as int), rv),
            decreases self.terms@.len() - i,
        {
            let (col, weight) = self.terms[i];
            let term = row[col].mul(&weight);
            acc = acc.add(&term);
            i = i + 1;
            proof {
                assert(self.terms@.take(i as int).drop_last() =~= self.terms@.take(i - 1));
                assert(self.terms@.take(i as int).last() == self.terms@[i - 1]);
            }
        }
        proof {
            assert(self.terms@.take(self.terms@.len() as int) =~= self.terms@);
        }
        acc.add(&self.constant)
    }
}

/// The power-of-two send: the shift amount's low byte and the four
/// power-of-two bytes, with multiplicity 1 on every row (padding rows
/// contribute the valid all-zero fact), on the power-of-two bus.
pub open spec fn power_of_two_send_wf(i: Interaction, ctx: MachineContext) -> bool {
    &&& i.argument_index == ctx.power_of_two_bus
    &&& is_one(i.count)
    &&& i.fields@.len() == 5
    &&& is_single_col(i.fields@[0], COL_INPUT_2 + 3)
    &&& is_single_col(i.fields@[1], COL_POWER_OF_TWO as int)
    &&& is_single_col(i.fields@[2], COL_POWER_OF_TWO + 1)
    &&& is_single_col(i.fields@[3], COL_POWER_OF_TWO + 2)
    &&& is_single_col(i.fields@[4], COL_POWER_OF_TWO + 3)
}

/// The general-bus send: a pseudo-opcode mapping left shifts to the
/// multiplication opcode and right shifts to the division opcode, the
/// first operand, the power of two, the output, and a zero placeholder
/// for the clock, with multiplicity 1 on every row.  It models
/// `x << n == x * 2^n` and `x >> n == x / 2^n`, letting the
/// multiplication and division chip check the arithmetic.
pub open spec fn general_send_wf(i: Interaction, ctx: MachineContext) -> bool {
    &&& i.argument_index == ctx.general_bus
    &&& is_one(i.count)
    &&& i.fields@.len() == 14
    &&& is_selector_pair(i.fields@[0], ctx.opcodes.mul32 as nat, ctx.opcodes.div32 as nat)
    &&& is_single_col(i.fields@[1], COL_INPUT_1 as int)
    &&& is_single_col(i.fields@[2], COL_INPUT_1 + 1)
    &&& is_single_col(i.fields@[3], COL_INPUT_1 + 2)
    &&& is_single_col(i.fields@[4], COL_INPUT_1 + 3)
    &&& is_single_col(i.fields@[5], COL_POWER_OF_TWO as int)
    &&& is_single_col(i.fields@[6], COL_POWER_OF_TWO + 1)
    &&& is_single_col(i.fields@[7], COL_POWER_OF_TWO + 2)
    &&& is_single_col(i.fields@[8], COL_POWER_OF_TWO + 3)
    &&& is_single_col(i.fields@[9], COL_OUTPUT as int)
    &&& is_single_col(i.fields@[10], COL_OUTPUT + 1)
    &&& is_single_col(i.fields@[11], COL_OUTPUT + 2)
    &&& is_single_col(i.fields@[12], COL_OUTPUT + 3)
    &&& is_zero(i.fields@[13])
}

/// The general-bus receive: the real opcode selected by the row's
/// variant, both operands and the output, with multiplicity
/// `is_shl + is_shr` — 1 on real rows and 0 on padding rows.  This is
/// the lookup through which the CPU chip checks that the shift
/// happened.
pub open spec fn general_receive_wf(i: Interaction, ctx: MachineContext) -> bool {
    &&& i.argument_index == ctx.general_bus
    &&& is_selector_pair(i.count, 1, 1)
    &&& i.fields@.len() == 13
    &&& is_selector_pair(i.fields@[0], ctx.opcodes.shl32 as nat, ctx.opcodes.shr32 as nat)
    &&& is_single_col(i.fields@[1], COL_INPUT_1 as int)
    &&& is_single_col(i.fields@[2], COL_INPUT_1 + 1)
    &&& is_single_col(i.fields@[3], COL_INPUT_1 + 2)
    &&& is_single_col(i.fields@[4], COL_INPUT_1 + 3)
    &&& is_single_col(i.fields@[5], COL_INPUT_2 as int)
    &&& is_single_col(i.fields@[6], COL_INPUT_2 + 1)
    &&& is_single_col(i.fields@[7], COL_INPUT_2 + 2)
    &&& is_single_col(i.fields@[8], COL_INPUT_2 + 3)
    &&& is_single_col(i.fields@[9], COL_OUTPUT as int)
    &&& is_single_col(i.fields@[10], COL_OUTPUT + 1)
    &&& is_single_col(i.fields@[11], COL_OUTPUT + 2)
    &&& is_single_col(i.fields@[12], COL_OUTPUT + 3)
}

impl Shift32Chip {
    /// The two send declarations: one to the power-of-two bus and one
    /// to the general bus.
    pub fn global_sends(&self, ctx: &MachineContext) -> (r: Vec<Interaction>)
        ensures
            r@.len() == 2,
            power_of_two_send_wf(r@[0], *ctx),
            general_send_wf(r@[1], *ctx),
    {
        let mut fields: Vec<VirtualCol> = Vec::new();
        fields.push(VirtualCol::single(COL_INPUT_2 + 3));
        fields.push(VirtualCol::single(COL_POWER_OF_TWO));
        fields.push(VirtualCol::single(COL_POWER_OF_TWO + 1));
        fields.push(VirtualCol::single(COL_POWER_OF_TWO + 2));
        fields.push(VirtualCol::single(COL_POWER_OF_TWO + 3));
        let power_of_two_send = Interaction {
            fields,
            count: VirtualCol::one(),
            argument_index: ctx.power_of_two_bus,
        };

        let opcode = VirtualCol::selector_pair(
            Felt::from_u32(ctx.opcodes.mul32),
            Felt::from_u32(ctx.opcodes.div32),
        );
        let mut fields: Vec<VirtualCol> = Vec::new();
        fields.push(opcode);
        fields.push(VirtualCol::single(COL_INPUT_1));
        fields.push(VirtualCol::single(COL_INPUT_1 + 1));
        fields.push(VirtualCol::single(COL_INPUT_1 + 2));
        fields.push(VirtualCol::single(COL_INPUT_1 + 3));
        fields.push(VirtualCol::single(COL_POWER_OF_TWO));
        fields.push(VirtualCol::single(COL_POWER_OF_TWO + 1));
        fields.push(VirtualCol::single(COL_POWER_OF_TWO + 2));
        fields.push(VirtualCol::single(COL_POWER_OF_TWO + 3));
        fields.push(VirtualCol::single(COL_OUTPUT));
        fields.push(VirtualCol::single(COL_OUTPUT + 1));
        fields.push(VirtualCol::single(COL_OUTPUT + 2));
        fields.push(VirtualCol::single(COL_OUTPUT + 3));
        fields.push(VirtualCol::zero());
        let general_send = Interaction {
            fields,
            count: VirtualCol::one(),
            argument_index: ctx.general_bus,
        };

        let mut r: Vec<Interaction> = Vec::new();
        r.push(power_of_two_send);
        r.push(general_send);
        r
    }

    /// The one receive declaration, on the general bus.
    pub fn global_receives(&self, ctx: &MachineContext) -> (r: Vec<Interaction>)
        ensures
            r@.len() == 1,
            general_receive_wf(r@[0], *ctx),
    {
        let opcode = VirtualCol::selector_pair(
            Felt::from_u32(ctx.opcodes.shl32),
            Felt::from_u32(ctx.opcodes.shr32),
        );
        let mut fields: Vec<VirtualCol> = Vec::new();
        fields.push(opcode);
        fields.push(VirtualCol::single(COL_INPUT_1));
        fields.push(VirtualCol::single(COL_INPUT_1 + 1));
        fields.push(VirtualCol::single(COL_INPUT_1 + 2));
        fields.push(VirtualCol::single(COL_INPUT_1 + 3));
        fields.push(VirtualCol::single(COL_INPUT_2));
        fields.push(VirtualCol::single(COL_INPUT_2 + 1));
        fields.push(VirtualCol::single(COL_INPUT_2 + 2));
        fields.push(VirtualCol::single(COL_INPUT_2 + 3));
        fields.push(VirtualCol::single(COL_OUTPUT));
        fields.push(VirtualCol::single(COL_OUTPUT + 1));
        fields.push(VirtualCol::single(COL_OUTPUT + 2));
        fields.push(VirtualCol::single(COL_OUTPUT + 3));
        let is_real = VirtualCol::selector_pair(Felt::one(), Felt::one());
        let receive = Interaction { fields, count: is_real, argument_index: ctx.general_bus };
        let mut r: Vec<Interaction> = Vec::new();
        r.push(receive);
        r
    }
}

} // verus!
