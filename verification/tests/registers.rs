//! The register file: write/read round trips and the hardwired-zero rule.
use psemu_core::bus::BIOS_SIZE;
use psemu_core::cpu::Cpu;
use psemu_core::cpu::PROGRAM_COUNTER_RESET_VALUE;
use psemu_core::cpu::REGISTER_RESET_SENTINEL;
use psemu_core::cpu::RegisterIndex;

fn fresh_cpu() -> Cpu {
    Cpu::new(vec![0u8; BIOS_SIZE as usize])
}

#[test]
fn set_then_get_round_trips() {
    let mut cpu = fresh_cpu();
    for i in 1..32u32 {
        let v = 0x1000_0000u32.wrapping_add(i.wrapping_mul(0x01010101));
        cpu.set_register(RegisterIndex(i), v);
        assert_eq!(cpu.get_register(RegisterIndex(i)), v);
    }
}

#[test]
fn register_zero_discards_writes() {
    let mut cpu = fresh_cpu();
    cpu.set_register(RegisterIndex(0), 0xCAFEBABE);
    assert_eq!(cpu.get_register(RegisterIndex(0)), 0);
    cpu.set_register(RegisterIndex(0), 0xFFFFFFFF);
    assert_eq!(cpu.get_register(RegisterIndex(0)), 0);
}

#[test]
fn reset_state_is_recognisable() {
    let cpu = fresh_cpu();
    assert_eq!(cpu.pc, PROGRAM_COUNTER_RESET_VALUE);
    assert_eq!(cpu.get_register(RegisterIndex(0)), 0);
    for i in 1..32u32 {
        assert_eq!(cpu.get_register(RegisterIndex(i)), REGISTER_RESET_SENTINEL);
    }
    assert!(cpu.instruction_history.is_empty());
}

#[test]
fn get_registers_exposes_all_slots() {
    let mut cpu = fresh_cpu();
    cpu.set_register(RegisterIndex(7), 0x1234);
    let regs = cpu.get_registers();
    assert_eq!(regs.len(), 32);
    assert_eq!(regs[0], 0);
    assert_eq!(regs[7], 0x1234);
    assert_eq!(regs[8], REGISTER_RESET_SENTINEL);
}
