//! The execution engine: opcode semantics, fault propagation, and the
//! branch-delay-slot timing of the stepping protocol.
use psemu_core::bus::BIOS_SIZE;
use psemu_core::cpu::Cpu;
use psemu_core::cpu::RegisterIndex;
use psemu_core::errors::PsemuCoreError;

fn fresh_cpu() -> Cpu {
    Cpu::new(vec![0u8; BIOS_SIZE as usize])
}

fn cpu_with_rom_words(words: &[u32]) -> Cpu {
    let mut rom = vec![0u8; BIOS_SIZE as usize];
    for (i, w) in words.iter().enumerate() {
        rom[4 * i] = (w & 0xFF) as u8;
        rom[4 * i + 1] = ((w >> 8) & 0xFF) as u8;
        rom[4 * i + 2] = ((w >> 16) & 0xFF) as u8;
        rom[4 * i + 3] = ((w >> 24) & 0xFF) as u8;
    }
    Cpu::new(rom)
}

#[test]
fn lui_sets_upper_half() {
    let mut cpu = fresh_cpu();
    assert_eq!(cpu.execute_instr(0x3C011234), Ok(()));
    assert_eq!(cpu.get_register(RegisterIndex(1)), 0x12340000);
    // Every other register, register 0 included, is untouched.
    assert_eq!(cpu.get_register(RegisterIndex(0)), 0);
    for i in 2..32u32 {
        assert_eq!(cpu.get_register(RegisterIndex(i)), 0xdeadbeef);
    }
}

#[test]
fn ori_zero_extends_immediate() {
    let mut cpu = fresh_cpu();
    cpu.set_register(RegisterIndex(1), 0x0000FF00);
    assert_eq!(cpu.execute_instr(0x342200FF), Ok(()));
    assert_eq!(cpu.get_register(RegisterIndex(2)), 0x0000FFFF);
}

#[test]
fn addiu_wraps_without_fault() {
    let mut cpu = fresh_cpu();
    cpu.set_register(RegisterIndex(3), 0xFFFFFFFF);
    assert_eq!(cpu.execute_instr(0x24640001), Ok(()));
    assert_eq!(cpu.get_register(RegisterIndex(4)), 0x00000000);
}

#[test]
fn addiu_sign_extends_negative_immediate() {
    let mut cpu = fresh_cpu();
    cpu.set_register(RegisterIndex(3), 0x00000010);
    // Immediate 0xFFFF is -1 after sign extension.
    assert_eq!(cpu.execute_instr(0x2464FFFF), Ok(()));
    assert_eq!(cpu.get_register(RegisterIndex(4)), 0x0000000F);
}

#[test]
fn sll_shifts_with_zero_fill() {
    let mut cpu = fresh_cpu();
    // Special, rt = 2, rd = 3, sa = 4.
    cpu.set_register(RegisterIndex(2), 0x00000F0F);
    assert_eq!(cpu.execute_instr(0x00021900 | (4 << 6)), Ok(()));
    assert_eq!(cpu.get_register(RegisterIndex(3)), 0x0000F0F0);
}

#[test]
fn or_combines_registers() {
    let mut cpu = fresh_cpu();
    // Special/OR, rs = 1, rt = 2, rd = 3.
    cpu.set_register(RegisterIndex(1), 0x000000F0);
    cpu.set_register(RegisterIndex(2), 0x0000000F);
    assert_eq!(cpu.execute_instr(0x00221825), Ok(()));
    assert_eq!(cpu.get_register(RegisterIndex(3)), 0x000000FF);
}

#[test]
fn sw_stores_through_the_bus() {
    let mut cpu = fresh_cpu();
    // SW rt = 2 at get(base 1) + 0: the RAM-size register acknowledges it.
    cpu.set_register(RegisterIndex(1), 0x1f801060);
    cpu.set_register(RegisterIndex(2), 42);
    assert_eq!(cpu.execute_instr(0xAC220000), Ok(()));
}

#[test]
fn sw_applies_negative_offset() {
    let mut cpu = fresh_cpu();
    // Offset 0xFFFC is -4: the effective address is the RAM-size register.
    cpu.set_register(RegisterIndex(1), 0x1f801064);
    cpu.set_register(RegisterIndex(2), 7);
    assert_eq!(cpu.execute_instr(0xAC22FFFC), Ok(()));
}

#[test]
fn sw_propagates_bus_faults() {
    let mut cpu = fresh_cpu();
    cpu.set_register(RegisterIndex(1), 0x00000001);
    assert_eq!(
        cpu.execute_instr(0xAC220000),
        Err(PsemuCoreError::UnalignedAddress(0x00000001))
    );
    cpu.set_register(RegisterIndex(1), 0x00000010);
    assert_eq!(
        cpu.execute_instr(0xAC220000),
        Err(PsemuCoreError::UnmappedAddress(0x00000010))
    );
    // The invalid-configuration rule reaches SW too.
    cpu.set_register(RegisterIndex(1), 0x1f801000);
    cpu.set_register(RegisterIndex(2), 0xBAD);
    assert_eq!(
        cpu.execute_instr(0xAC220000),
        Err(PsemuCoreError::InvalidConfigurationWrite(0x1f801000, 0xBAD))
    );
    // No trace entry is appended for a faulted store.
    assert!(cpu.instruction_history.is_empty());
}

#[test]
fn unknown_instruction_faults_with_word() {
    let mut cpu = fresh_cpu();
    assert_eq!(
        cpu.execute_instr(0xFFFFFFFF),
        Err(PsemuCoreError::UnknownInstruction(0xFFFFFFFF))
    );
    assert!(cpu.instruction_history.is_empty());
}

#[test]
fn unknown_secondary_opcode_faults_with_word() {
    let mut cpu = fresh_cpu();
    assert_eq!(
        cpu.execute_instr(0x0000003F),
        Err(PsemuCoreError::UnknownSecondaryOpInstruction(0x0000003F))
    );
}

#[test]
fn step_advances_pc_and_queues_fetch() {
    // An all-zero ROM: every instruction is the no-op encoding.
    let mut cpu = cpu_with_rom_words(&[]);
    assert_eq!(cpu.pc, 0xbfc00000);
    assert_eq!(cpu.run_single_cycle(), Ok(()));
    assert_eq!(cpu.pc, 0xbfc00004);
    assert_eq!(cpu.run_single_cycle(), Ok(()));
    assert_eq!(cpu.pc, 0xbfc00008);
}

#[test]
fn jump_takes_effect_after_delay_slot() {
    // The word at the boot vector is J with target index t; the pc observed
    // two steps later is (0xb0000000 | (t << 2)).
    let t = 0x100u32;
    let mut cpu = cpu_with_rom_words(&[0x08000000 | t]);
    assert_eq!(cpu.run_single_cycle(), Ok(()));
    // The jump is only queued: the delay slot has not yet elapsed.
    assert_eq!(cpu.pc, 0xbfc00004);
    assert_eq!(cpu.run_single_cycle(), Ok(()));
    assert_eq!(cpu.pc, 0xb0000000 | (t << 2));
}

#[test]
fn jump_delay_slot_word_is_queued_not_skipped() {
    // A LUI sits right after the jump: after two steps it is the in-flight
    // word, and the register write has not happened yet.
    let t = 0x200u32;
    let mut cpu = cpu_with_rom_words(&[0x08000000 | t, 0x3C011234]);
    assert_eq!(cpu.run_single_cycle(), Ok(()));
    assert_eq!(cpu.run_single_cycle(), Ok(()));
    assert_eq!(cpu.get_register(RegisterIndex(1)), 0xdeadbeef);
    // The next fetch leaves the mapped address space, so the cycle faults
    // before the queued word can execute, with the state left as it was.
    assert_eq!(cpu.run_single_cycle(), Err(PsemuCoreError::UnmappedAddress(0xb0000000 | (t << 2))));
    assert_eq!(cpu.pc, 0xb0000000 | (t << 2));
    assert_eq!(cpu.get_register(RegisterIndex(1)), 0xdeadbeef);
}

#[test]
fn fetch_fault_propagates_and_leaves_state() {
    let mut cpu = fresh_cpu();
    cpu.pc = 0x00000010;
    assert_eq!(cpu.run_single_cycle(), Err(PsemuCoreError::UnmappedAddress(0x00000010)));
    assert_eq!(cpu.pc, 0x00000010);
    assert!(cpu.instruction_history.is_empty());

    cpu.pc = 0xbfc00002;
    assert_eq!(cpu.run_single_cycle(), Err(PsemuCoreError::UnalignedAddress(0xbfc00002)));
    assert_eq!(cpu.pc, 0xbfc00002);
}

#[test]
fn cpu_load32_and_store32_delegate_to_the_bus() {
    let mut cpu = cpu_with_rom_words(&[0xCAFEF00D]);
    assert_eq!(cpu.load32(0xbfc00000), Ok(0xCAFEF00D));
    assert_eq!(cpu.load32(0x00000001), Err(PsemuCoreError::UnalignedAddress(0x00000001)));
    assert_eq!(cpu.store32(0x1f801060, 0), Ok(()));
    assert_eq!(cpu.store32(0x00000010, 0), Err(PsemuCoreError::UnmappedAddress(0x00000010)));
}
