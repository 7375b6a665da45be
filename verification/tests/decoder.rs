//! The decoder is exercised directly, independent of CPU state.
use psemu_core::decode::Instruction;
use psemu_core::decode::Opcode;
use psemu_core::decode::SecondaryOpcode;

#[test]
fn decode_lui_fields() {
    let i = Instruction(0x3C011234);
    assert_eq!(i.sop(), Some(Opcode::LoadUpperImmediate));
    assert_eq!(i.gpr_rt().0, 1);
    assert_eq!(i.immediate(), 0x1234);
}

#[test]
fn decode_ori_fields() {
    let i = Instruction(0x342200FF);
    assert_eq!(i.sop(), Some(Opcode::OrImmediate));
    assert_eq!(i.gpr_rs().0, 1);
    assert_eq!(i.gpr_rt().0, 2);
    assert_eq!(i.immediate(), 0x00FF);
}

#[test]
fn decode_addiu_fields() {
    let i = Instruction(0x24640001);
    assert_eq!(i.sop(), Some(Opcode::AddImmediateUnsignedWord));
    assert_eq!(i.gpr_rs().0, 3);
    assert_eq!(i.gpr_rt().0, 4);
    assert_eq!(i.immediate(), 1);
}

#[test]
fn decode_unknown_primary() {
    // Primary opcode bits 0b111111 have no table entry.
    let i = Instruction(0xFFFFFFFF);
    assert!(i.sop().is_none());
}

#[test]
fn decode_secondary_opcodes() {
    // Primary opcode 0 (Special), secondary 0b100101 (OR).
    let i = Instruction(0x00221825);
    assert_eq!(i.sop(), Some(Opcode::Special));
    assert_eq!(i.secondary_opcode(), Some(SecondaryOpcode::Or));
    assert_eq!(i.gpr_rs().0, 1);
    assert_eq!(i.gpr_rt().0, 2);
    assert_eq!(i.gpr_rd().0, 3);

    // Secondary 0 is SLL; the all-zero word is the canonical no-op.
    let nop = Instruction(0x00000000);
    assert_eq!(nop.secondary_opcode(), Some(SecondaryOpcode::ShiftLeftLogical));

    // Secondary 0b111111 has no table entry.
    let bad = Instruction(0x0000003F);
    assert_eq!(bad.sop(), Some(Opcode::Special));
    assert!(bad.secondary_opcode().is_none());
}

#[test]
fn decode_shift_amount() {
    // rt = 2, rd = 3, sa = 4 under the Special opcode.
    let i = Instruction(0x00021900 | (4 << 6));
    assert_eq!(i.sa(), 4);
    assert_eq!(i.gpr_rt().0, 2);
    assert_eq!(i.gpr_rd().0, 3);
}

#[test]
fn decode_sign_extension() {
    // A positive immediate widens unchanged.
    let pos = Instruction(0x24641234);
    assert_eq!(pos.immediate_sign_extended(), 0x00001234);
    assert_eq!(pos.offset_sign_extended(), 0x00001234);

    // A negative immediate widens with its sign bit propagated.
    let neg = Instruction(0x24648000);
    assert_eq!(neg.immediate_sign_extended(), 0xFFFF8000);
    assert_eq!(neg.offset_sign_extended(), 0xFFFF8000);

    // -4 as a store offset.
    let minus_four = Instruction(0xAC22FFFC);
    assert_eq!(minus_four.offset(), 0xFFFC);
    assert_eq!(minus_four.offset_sign_extended(), 0xFFFFFFFC);
}

#[test]
fn decode_jump_target_index() {
    let i = Instruction(0x08000000 | 0x0123456);
    assert_eq!(i.sop(), Some(Opcode::Jump));
    assert_eq!(i.instr_index(), 0x0123456);

    // The index is only the low 26 bits.
    let full = Instruction(0xFFFFFFFF);
    assert_eq!(full.instr_index(), 0x03FFFFFF);
}

#[test]
fn decode_base_aliases_rs() {
    let i = Instruction(0xAC220010);
    assert_eq!(i.base(), i.gpr_rs().0);
    assert_eq!(i.base(), 1);
}
