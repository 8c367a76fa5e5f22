//! The instruction executor's decision logic.
//!
//! The hosting machine owns memory and CPU state; the functions here
//! compute everything an executed shift instruction decides — which
//! addresses to read and write, how the second operand resolves, the
//! result written back, the recorded immediate — and append the
//! operation to the chip's log.  The caller performs the actual memory
//! reads and writes and forwards the dispatch to the CPU chip.

use vstd::prelude::*;

verus! {

use crate::word::Word;
use crate::shift::{Shift32Chip, Operation};
use vstd::arithmetic::power2::{pow2, lemma_pow2_strictly_increases, lemma2_to64};
use vstd::bits::{lemma_u64_shl_is_mul, lemma_u32_shr_is_div};

/// The operand triple of an instruction: three signed offsets (`c` is
/// an immediate when the flag is set) and the immediate flag.
#[derive(Clone, Copy, Debug, PartialEq, Eq, Structural)]
pub struct Operands {
    pub a: i32,
    pub b: i32,
    pub c: i32,
    pub is_imm: bool,
}

/// What one executed shift instruction hands back to the machine: the
/// result word to write, the resolved second operand, and the
/// immediate recorded for the CPU chip's bus bookkeeping.
#[derive(Clone, Copy, Debug, PartialEq, Eq, Structural)]
pub struct ShiftOutcome {
    pub result: Word,
    pub operand_2: Word,
    pub imm: Option<Word>,
}

/// A frame-pointer-relative address: the frame pointer plus the signed
/// offset, wrapped into the 32-bit address space.
pub open spec fn spec_offset_addr(fp: u32, off: i32) -> int {
    let s = fp + off;
    if s < 0 {
        s + 0x1_0000_0000
    } else if s >= 0x1_0000_0000 {
        s - 0x1_0000_0000
    } else {
        s
    }
}

/// The unsigned reinterpretation of a signed 32-bit value.
pub open spec fn u32_of_i32(c: i32) -> int {
    if c >= 0 {
        c as int
    } else {
        c + 0x1_0000_0000
    }
}

/// Unsigned 32-bit left shift: multiplication by `2^s` modulo `2^32`,
/// and 0 once the shift amount reaches 32.
pub open spec fn spec_shl32(x: nat, s: nat) -> nat {
    if s < 32 {
        (x * pow2(s)) % 0x1_0000_0000
    } else {
        0
    }
}

/// Unsigned 32-bit right shift: division by `2^s`, and 0 once the
/// shift amount reaches 32.
pub open spec fn spec_shr32(x: nat, s: nat) -> nat {
    if s < 32 {
        x / pow2(s)
    } else {
        0
    }
}

/// Resolves a frame-pointer-relative address.
pub fn offset_addr(fp: u32, off: i32) -> (r: u32)
    ensures
        r == spec_offset_addr(fp, off),
{
    let s: i64 = fp as i64 + off as i64;
    if s < 0 {
        (s + 0x1_0000_0000i64) as u32
    } else if s >= 0x1_0000_0000i64 {
        (s - 0x1_0000_0000i64) as u32
    } else {
        s as u32
    }
}

/// The three memory addresses an executed shift touches: the first
/// read (`fp + b`), the second read (`fp + c`, used only without an
/// immediate), and the write (`fp + a`).
pub fn mem_addresses(fp: u32, ops: &Operands) -> (r: (u32, u32, u32))
    ensures
        r.0 == spec_offset_addr(fp, ops.b),
        r.1 == spec_offset_addr(fp, ops.c),
        r.2 == spec_offset_addr(fp, ops.a),
{
    (offset_addr(fp, ops.b), offset_addr(fp, ops.c), offset_addr(fp, ops.a))
}

/// The word an immediate operand turns into: the unsigned
/// reinterpretation of the signed immediate.
pub fn word_of_imm(c: i32) -> (r: Word)
    ensures
        r.value() == u32_of_i32(c),
{
    let u: u32 = if c >= 0 {
        c as u32
    } else {
        ((c as i64) + 0x1_0000_0000i64) as u32
    };
    Word::from_u32(u)
}

/// Unsigned 32-bit left shift by an arbitrary 32-bit amount.
pub fn shift_left_u32(x: u32, s: u32) -> (r: u32)
    ensures
        r == spec_shl32(x as nat, s as nat),
{
    if s < 32 {
        proof {
            lemma2_to64();
            lemma_pow2_strictly_increases(s as nat, 32);
            vstd::arithmetic::mul::lemma_mul_upper_bound(
                x as int,
                0xffff_ffff,
                pow2(s as nat) as int,
                0x8000_0000,
            );
            lemma_u64_shl_is_mul(x as u64, s as u64);
        }
        let wide: u64 = (x as u64) << (s as u64);
        (wide % 0x1_0000_0000u64) as u32
    } else {
        0
    }
}

/// Unsigned 32-bit right shift by an arbitrary 32-bit amount.
pub fn shift_right_u32(x: u32, s: u32) -> (r: u32)
    ensures
        r == spec_shr32(x as nat, s as nat),
{
    if s < 32 {
        proof {
            lemma_u32_shr_is_div(x, s);
        }
        x >> s
    } else {
        0
    }
}

/// Executes one left-shift instruction: resolves the second operand
/// (immediate or the word read at `fp + c`), shifts the source word,
/// appends the operation to the chip's log, and reports the result,
/// the resolved operand and the recorded immediate.
pub fn execute_shl32(
    chip: &mut Shift32Chip,
    ops: &Operands,
    src: Word,
    shift_read: Word,
) -> (r: ShiftOutcome)
    ensures
        final(chip).operations@ == old(chip).operations@.push(
            Operation::Shl32(r.result, src, r.operand_2),
        ),
        ops.is_imm ==> r.operand_2.value() == u32_of_i32(ops.c),
        !ops.is_imm ==> r.operand_2 == shift_read,
        r.imm == if ops.is_imm {
            Some(r.operand_2)
        } else {
            None::<Word>
        },
        r.result.value() == spec_shl32(src.value(), r.operand_2.value()),
{
    let (operand_2, imm): (Word, Option<Word>) = if ops.is_imm {
        let c = word_of_imm(ops.c);
        (c, Some(c))
    } else {
        (shift_read, None)
    };
    let result = Word::from_u32(shift_left_u32(src.to_u32(), operand_2.to_u32()));
    chip.operations.push(Operation::Shl32(result, src, operand_2));
    ShiftOutcome { result, operand_2, imm }
}

/// Executes one right-shift instruction; see `execute_shl32`.
pub fn execute_shr32(
    chip: &mut Shift32Chip,
    ops: &Operands,
    src: Word,
    shift_read: Word,
) -> (r: ShiftOutcome)
    ensures
        final(chip).operations@ == old(chip).operations@.push(
            Operation::Shr32(r.result, src, r.operand_2),
        ),
        ops.is_imm ==> r.operand_2.value() == u32_of_i32(ops.c),
        !ops.is_imm ==> r.operand_2 == shift_read,
        r.imm == if ops.is_imm {
            Some(r.operand_2)
        } else {
            None::<Word>
        },
        r.result.value() == spec_shr32(src.value(), r.operand_2.value()),
{
    let (operand_2, imm): (Word, Option<Word>) = if ops.is_imm {
        let c = word_of_imm(ops.c);
        (c, Some(c))
    } else {
        (shift_read, None)
    };
    let result = Word::from_u32(shift_right_u32(src.to_u32(), operand_2.to_u32()));
    chip.operations.push(Operation::Shr32(result, src, operand_2));
    ShiftOutcome { result, operand_2, imm }
}

} // verus!
