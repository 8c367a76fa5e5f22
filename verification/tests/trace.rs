use alu_u32::columns::{
    make_col_map, COL_BITS_2, COL_INPUT_1, COL_INPUT_2, COL_IS_SHL, COL_IS_SHR, COL_OUTPUT,
    COL_POWER_OF_TWO, COL_TEMP_1, COL_TEMP_2, NUM_COLS,
};
use alu_u32::felt::{Felt, FIELD_MODULUS};
use alu_u32::next_power_of_two;
use alu_u32::shift::{Operation, Shift32Chip, Trace};
use alu_u32::stark::eval_row;
use alu_u32::word::Word;

fn word(x: u32) -> Word {
    Word::from_u32(x)
}

fn chip_with(ops: Vec<Operation>) -> Shift32Chip {
    let mut chip = Shift32Chip::new();
    for op in ops {
        chip.operations.push(op);
    }
    chip
}

fn row_u64(t: &Trace, r: usize) -> Vec<u64> {
    t.row(r).iter().map(|f| f.as_u64()).collect()
}

#[test]
fn word_big_endian_bytes() {
    let w = word(0x12345678);
    assert_eq!((w.b0, w.b1, w.b2, w.b3), (0x12, 0x34, 0x56, 0x78));
    assert_eq!(w.to_u32(), 0x12345678);
    assert_eq!(word(0).to_u32(), 0);
    assert_eq!(word(u32::MAX).to_u32(), u32::MAX);
}

#[test]
fn felt_arithmetic_wraps_at_modulus() {
    let almost = Felt::from_u64(FIELD_MODULUS - 1);
    assert_eq!(almost.add(&Felt::one()).as_u64(), 0);
    assert_eq!(Felt::from_u64(FIELD_MODULUS).as_u64(), 0);
    assert_eq!(Felt::from_u32(3).mul(&Felt::from_u32(5)).as_u64(), 15);
    assert_eq!(Felt::zero().add(&Felt::from_u8(7)).as_u64(), 7);
    // (2^32)^2 mod (2^64 - 2^32 + 1) == 2^32 - 1
    let x = Felt::from_u64(0x1_0000_0000);
    assert_eq!(x.mul(&x).as_u64(), 0xffff_ffff);
}

#[test]
fn next_power_of_two_values() {
    assert_eq!(next_power_of_two(0), 1);
    assert_eq!(next_power_of_two(1), 1);
    assert_eq!(next_power_of_two(2), 2);
    assert_eq!(next_power_of_two(3), 4);
    assert_eq!(next_power_of_two(4), 4);
    assert_eq!(next_power_of_two(5), 8);
    assert_eq!(next_power_of_two(1000), 1024);
}

#[test]
fn empty_log_gives_empty_trace() {
    let chip = Shift32Chip::new();
    let t = chip.generate_trace();
    assert_eq!(t.width, NUM_COLS);
    assert_eq!(t.values.len(), 0);
    assert_eq!(t.height(), 0);
}

#[test]
fn trace_height_is_next_power_of_two() {
    for (n, h) in [(1usize, 1usize), (2, 2), (3, 4), (5, 8), (9, 16)] {
        let ops = (0..n)
            .map(|i| Operation::Shl32(word(2 * i as u32), word(i as u32), word(1)))
            .collect();
        let t = chip_with(ops).generate_trace();
        assert_eq!(t.height(), h, "log of {n} operations");
        assert_eq!(t.values.len(), h * NUM_COLS);
    }
}

#[test]
fn padding_rows_are_all_zero() {
    let chip = chip_with(vec![
        Operation::Shl32(word(20), word(5), word(2)),
        Operation::Shr32(word(1), word(4), word(2)),
        Operation::Shl32(word(6), word(3), word(1)),
    ]);
    let t = chip.generate_trace();
    assert_eq!(t.height(), 4);
    for v in &t.values[3 * NUM_COLS..] {
        assert_eq!(v.as_u64(), 0);
    }
}

#[test]
fn rows_carry_operands_result_and_selectors() {
    let chip = chip_with(vec![
        Operation::Shl32(word(0xdead_beef), word(0x0102_0304), word(0x0000_0207)),
        Operation::Shr32(word(0x10), word(0x100), word(4)),
    ]);
    let t = chip.generate_trace();
    let r0 = row_u64(&t, 0);
    assert_eq!(&r0[COL_INPUT_1..COL_INPUT_1 + 4], &[0x01, 0x02, 0x03, 0x04]);
    assert_eq!(&r0[COL_INPUT_2..COL_INPUT_2 + 4], &[0x00, 0x00, 0x02, 0x07]);
    assert_eq!(&r0[COL_OUTPUT..COL_OUTPUT + 4], &[0xde, 0xad, 0xbe, 0xef]);
    assert_eq!((r0[COL_IS_SHL], r0[COL_IS_SHR]), (1, 0));
    let r1 = row_u64(&t, 1);
    assert_eq!(&r1[COL_INPUT_1..COL_INPUT_1 + 4], &[0, 0, 0x01, 0x00]);
    assert_eq!(&r1[COL_OUTPUT..COL_OUTPUT + 4], &[0, 0, 0, 0x10]);
    assert_eq!((r1[COL_IS_SHL], r1[COL_IS_SHR]), (0, 1));
}

#[test]
fn no_row_sets_both_or_neither_selector() {
    let chip = chip_with(vec![
        Operation::Shl32(word(2), word(1), word(1)),
        Operation::Shr32(word(1), word(2), word(1)),
        Operation::Shl32(word(0), word(0), word(0)),
    ]);
    let t = chip.generate_trace();
    for r in 0..chip.operations.len() {
        let row = row_u64(&t, r);
        assert_eq!(row[COL_IS_SHL] + row[COL_IS_SHR], 1);
    }
}

#[test]
fn bits_recombine_to_shift_byte() {
    for s in [0u32, 1, 2, 31, 32, 0x7f, 0xad, 0xff] {
        let chip = chip_with(vec![Operation::Shl32(word(0), word(1), word(s))]);
        let t = chip.generate_trace();
        let row = row_u64(&t, 0);
        let mut sum = 0u64;
        for i in 0..8 {
            let bit = row[COL_BITS_2 + i];
            assert!(bit == 0 || bit == 1);
            sum += bit << i;
        }
        assert_eq!(sum, (s & 0xff) as u64, "shift byte {s}");
    }
}

#[test]
fn power_of_two_column_at_boundaries() {
    for (s, p) in [(0u32, 1u64), (1, 2), (5, 32), (16, 0x1_0000), (31, 0x8000_0000)] {
        let chip = chip_with(vec![Operation::Shr32(word(0), word(1), word(s))]);
        let t = chip.generate_trace();
        let row = row_u64(&t, 0);
        let recombined = (row[COL_POWER_OF_TWO] << 24)
            + (row[COL_POWER_OF_TWO + 1] << 16)
            + (row[COL_POWER_OF_TWO + 2] << 8)
            + row[COL_POWER_OF_TWO + 3];
        assert_eq!(recombined, p, "shift amount {s}");
        assert_eq!(row[COL_TEMP_1] * row[COL_TEMP_2], p);
    }
}

#[test]
fn generated_rows_satisfy_all_constraints() {
    let chip = chip_with(vec![
        Operation::Shl32(word(20), word(5), word(2)),
        Operation::Shr32(word(1), word(0x8000_0000), word(31)),
        Operation::Shl32(word(0), word(7), word(0xff)),
        Operation::Shr32(word(0x1234), word(0x1234), word(0)),
        Operation::Shl32(word(0), word(0), word(32)),
    ]);
    let t = chip.generate_trace();
    assert_eq!(t.height(), 8);
    for r in 0..t.height() {
        assert!(eval_row(&t.row(r)), "row {r}");
    }
}

#[test]
fn corrupted_row_fails_constraints() {
    let chip = chip_with(vec![Operation::Shl32(word(20), word(5), word(2))]);
    let t = chip.generate_trace();
    let good = t.row(0);
    assert!(eval_row(&good));

    // A wrong bit breaks the recombination constraint.
    let mut bad = good.clone();
    bad[COL_BITS_2] = Felt::one();
    assert!(!eval_row(&bad));

    // A wrong power-of-two byte breaks the recomposition constraint.
    let mut bad = good.clone();
    bad[COL_POWER_OF_TWO + 3] = Felt::from_u8(5);
    assert!(!eval_row(&bad));

    // A non-boolean selector breaks the booleanity constraint.
    let mut bad = good.clone();
    bad[COL_IS_SHL] = Felt::from_u8(2);
    assert!(!eval_row(&bad));

    // Both selectors set breaks the exclusivity constraint.
    let mut bad = good.clone();
    bad[COL_IS_SHR] = Felt::one();
    assert!(!eval_row(&bad));
}

#[test]
fn column_map_matches_layout() {
    let map = make_col_map();
    assert_eq!(map.input_1, [0, 1, 2, 3]);
    assert_eq!(map.input_2, [4, 5, 6, 7]);
    assert_eq!(map.output, [8, 9, 10, 11]);
    assert_eq!(map.power_of_two, [12, 13, 14, 15]);
    assert_eq!(map.bits_2, [16, 17, 18, 19, 20, 21, 22, 23]);
    assert_eq!(map.temp_1, COL_TEMP_1);
    assert_eq!(map.temp_2, COL_TEMP_2);
    assert_eq!(map.is_shl, COL_IS_SHL);
    assert_eq!(map.is_shr, COL_IS_SHR);
    assert_eq!(NUM_COLS, 28);
}
