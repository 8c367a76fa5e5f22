use alu_u32::columns::{COL_INPUT_1, COL_INPUT_2, COL_IS_SHL, COL_IS_SHR, COL_OUTPUT};
use alu_u32::execute::{
    execute_shl32, execute_shr32, mem_addresses, offset_addr, shift_left_u32, shift_right_u32,
    Operands,
};
use alu_u32::interaction::{MachineContext, OpcodeTable};
use alu_u32::shift::Shift32Chip;
use alu_u32::word::Word;

fn context() -> MachineContext {
    MachineContext {
        general_bus: 0,
        power_of_two_bus: 1,
        range_bus_8: 2,
        opcodes: OpcodeTable { shl32: 101, shr32: 102, mul32: 103, div32: 104 },
    }
}

#[test]
fn offset_addresses_wrap_modulo_2_32() {
    assert_eq!(offset_addr(10, -4), 6);
    assert_eq!(offset_addr(0, -1), u32::MAX);
    assert_eq!(offset_addr(u32::MAX, 1), 0);
    assert_eq!(offset_addr(100, 28), 128);
    let ops = Operands { a: 4, b: -8, c: 12, is_imm: false };
    assert_eq!(mem_addresses(64, &ops), (56, 76, 68));
}

#[test]
fn shifts_by_32_or_more_give_zero() {
    assert_eq!(shift_left_u32(1, 32), 0);
    assert_eq!(shift_left_u32(0xffff_ffff, 100), 0);
    assert_eq!(shift_right_u32(0xffff_ffff, 32), 0);
    assert_eq!(shift_left_u32(1, 31), 0x8000_0000);
    assert_eq!(shift_right_u32(0x8000_0000, 31), 1);
    assert_eq!(shift_left_u32(0xffff_ffff, 4), 0xffff_fff0);
}

#[test]
fn shift_left_scenario_feeds_the_general_bus() {
    // ShiftLeft with dest r0, src r1 = 5, shift r2 = 2.
    let mut chip = Shift32Chip::new();
    let ops = Operands { a: 0, b: 1, c: 2, is_imm: false };
    let outcome = execute_shl32(&mut chip, &ops, Word::from_u32(5), Word::from_u32(2));
    assert_eq!(outcome.result.to_u32(), 20);
    assert_eq!(outcome.imm, None);

    let t = chip.generate_trace();
    let row = t.row(0);
    assert_eq!(row[COL_INPUT_1 + 3].as_u64(), 5);
    assert_eq!(row[COL_INPUT_2 + 3].as_u64(), 2);
    assert_eq!(row[COL_OUTPUT + 3].as_u64(), 20);
    assert_eq!(row[COL_IS_SHL].as_u64(), 1);
    assert_eq!(row[COL_IS_SHR].as_u64(), 0);

    let ctx = context();
    let receives = chip.global_receives(&ctx);
    assert_eq!(receives.len(), 1);
    assert_eq!(receives[0].argument_index, ctx.general_bus);
    // Multiplicity 1 on the real row, with the left-shift opcode tag.
    assert_eq!(receives[0].count.apply(&row).as_u64(), 1);
    assert_eq!(receives[0].fields[0].apply(&row).as_u64(), 101);
    // The operand fields read the operand columns.
    assert_eq!(receives[0].fields[4].apply(&row).as_u64(), 5);
    assert_eq!(receives[0].fields[8].apply(&row).as_u64(), 2);
    assert_eq!(receives[0].fields[12].apply(&row).as_u64(), 20);
}

#[test]
fn receive_multiplicity_vanishes_on_padding() {
    let mut chip = Shift32Chip::new();
    let ops = Operands { a: 0, b: 1, c: 2, is_imm: false };
    execute_shl32(&mut chip, &ops, Word::from_u32(5), Word::from_u32(2));
    execute_shr32(&mut chip, &ops, Word::from_u32(5), Word::from_u32(2));
    execute_shl32(&mut chip, &ops, Word::from_u32(9), Word::from_u32(1));
    let t = chip.generate_trace();
    assert_eq!(t.height(), 4);
    let ctx = context();
    let receives = chip.global_receives(&ctx);
    for r in 0..3 {
        assert_eq!(receives[0].count.apply(&t.row(r)).as_u64(), 1);
    }
    assert_eq!(receives[0].count.apply(&t.row(3)).as_u64(), 0);
    // The right-shift row tags the right-shift opcode.
    assert_eq!(receives[0].fields[0].apply(&t.row(1)).as_u64(), 102);
}

#[test]
fn shift_right_with_immediate_records_the_immediate() {
    // ShiftRight with src r1 = 0x100 and immediate shift 4.
    let mut chip = Shift32Chip::new();
    let ops = Operands { a: 0, b: 1, c: 4, is_imm: true };
    let outcome = execute_shr32(&mut chip, &ops, Word::from_u32(0x100), Word::from_u32(0));
    assert_eq!(outcome.result.to_u32(), 0x10);
    assert_eq!(outcome.operand_2.to_u32(), 4);
    assert_eq!(outcome.imm, Some(Word::from_u32(4)));
}

#[test]
fn negative_immediate_reinterprets_unsigned() {
    let mut chip = Shift32Chip::new();
    let ops = Operands { a: 0, b: 1, c: -1, is_imm: true };
    let outcome = execute_shl32(&mut chip, &ops, Word::from_u32(123), Word::from_u32(0));
    assert_eq!(outcome.operand_2.to_u32(), u32::MAX);
    // A shift far beyond 31 produces zero.
    assert_eq!(outcome.result.to_u32(), 0);
}

#[test]
fn execute_appends_to_the_log_in_order() {
    let mut chip = Shift32Chip::new();
    let ops = Operands { a: 0, b: 1, c: 2, is_imm: false };
    execute_shl32(&mut chip, &ops, Word::from_u32(1), Word::from_u32(1));
    execute_shr32(&mut chip, &ops, Word::from_u32(8), Word::from_u32(3));
    assert_eq!(chip.operations.len(), 2);
    let t = chip.generate_trace();
    assert_eq!(t.row(0)[COL_OUTPUT + 3].as_u64(), 2);
    assert_eq!(t.row(1)[COL_OUTPUT + 3].as_u64(), 1);
}

#[test]
fn send_declarations_have_the_declared_shape() {
    let chip = Shift32Chip::new();
    let ctx = context();
    let sends = chip.global_sends(&ctx);
    assert_eq!(sends.len(), 2);

    let pot = &sends[0];
    assert_eq!(pot.argument_index, ctx.power_of_two_bus);
    assert_eq!(pot.fields.len(), 5);

    let general = &sends[1];
    assert_eq!(general.argument_index, ctx.general_bus);
    assert_eq!(general.fields.len(), 14);

    // Evaluate the sends against a concrete left-shift row.
    let mut chip = Shift32Chip::new();
    let ops = Operands { a: 0, b: 1, c: 2, is_imm: false };
    execute_shl32(&mut chip, &ops, Word::from_u32(5), Word::from_u32(2));
    let row = chip.generate_trace().row(0);
    // Shift byte and power-of-two word travel on the power-of-two bus.
    assert_eq!(pot.fields[0].apply(&row).as_u64(), 2);
    assert_eq!(pot.fields[4].apply(&row).as_u64(), 4);
    assert_eq!(pot.count.apply(&row).as_u64(), 1);
    // The general send tags the multiplication opcode on a left shift.
    assert_eq!(general.fields[0].apply(&row).as_u64(), 103);
    // Placeholder clock field is the constant zero.
    assert_eq!(general.fields[13].apply(&row).as_u64(), 0);
    assert_eq!(general.count.apply(&row).as_u64(), 1);
}
