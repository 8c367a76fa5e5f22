//! Column layout of the shift chip's trace.
//!
//! The layout is an explicit offset table: every named logical field of
//! a row maps to a fixed index range inside a `NUM_COLS`-wide row, and
//! row access goes through bounds-checked indexing of a flat buffer.

use vstd::prelude::*;

verus! {

/// First of the four bytes of the first operand (the value shifted).
pub const COL_INPUT_1: usize = 0;

/// First of the four bytes of the second operand (the shift amount).
pub const COL_INPUT_2: usize = 4;

/// First of the four bytes of the result.
pub const COL_OUTPUT: usize = 8;

/// First of the four bytes of the reconstructed power of two.
pub const COL_POWER_OF_TWO: usize = 12;

/// First of the eight bits of the shift amount's low byte, least
/// significant bit first.
pub const COL_BITS_2: usize = 16;

/// Intermediate product over the low three bits of the shift amount.
pub const COL_TEMP_1: usize = 24;

/// Intermediate product over bits three and four of the shift amount.
pub const COL_TEMP_2: usize = 25;

/// Selector for a left shift.
pub const COL_IS_SHL: usize = 26;

/// Selector for a right shift.
pub const COL_IS_SHR: usize = 27;

/// Width of every trace row.
pub const NUM_COLS: usize = 28;

/// The offset table: each named field of a row, as column indices.
pub struct Shift32Cols {
    pub input_1: [usize; 4],
    pub input_2: [usize; 4],
    pub output: [usize; 4],
    pub power_of_two: [usize; 4],
    pub bits_2: [usize; 8],
    pub temp_1: usize,
    pub temp_2: usize,
    pub is_shl: usize,
    pub is_shr: usize,
}

/// Builds the offset table once; every field's indices are the named
/// column constants of this module.
pub fn make_col_map() -> (r: Shift32Cols)
    ensures
        forall|i: int| 0 <= i < 4 ==> #[trigger] r.input_1[i] == COL_INPUT_1 + i,
        forall|i: int| 0 <= i < 4 ==> #[trigger] r.input_2[i] == COL_INPUT_2 + i,
        forall|i: int| 0 <= i < 4 ==> #[trigger] r.output[i] == COL_OUTPUT + i,
        forall|i: int| 0 <= i < 4 ==> #[trigger] r.power_of_two[i] == COL_POWER_OF_TWO + i,
        forall|i: int| 0 <= i < 8 ==> #[trigger] r.bits_2[i] == COL_BITS_2 + i,
        r.temp_1 == COL_TEMP_1,
        r.temp_2 == COL_TEMP_2,
        r.is_shl == COL_IS_SHL,
        r.is_shr == COL_IS_SHR,
{
    Shift32Cols {
        input_1: [0, 1, 2, 3],
        input_2: [4, 5, 6, 7],
        output: [8, 9, 10, 11],
        power_of_two: [12, 13, 14, 15],
        bits_2: [16, 17, 18, 19, 20, 21, 22, 23],
        temp_1: 24,
        temp_2: 25,
        is_shl: 26,
        is_shr: 27,
    }
}

} // verus!
