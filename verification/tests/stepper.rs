use nes_core::CpuStep;
use nes_core::EmuError;
use nes_core::Nes;
use nes_core::Rom;
use nes_core::sample_rom;

fn rom_with(patches: &[(usize, u8)]) -> Rom {
    let mut bytes = vec![0u8; 0x4000];
    bytes[0x3FFC] = 0x00;
    bytes[0x3FFD] = 0x80;
    for &(offset, value) in patches {
        bytes[offset] = value;
    }
    Rom { prg_rom: bytes }
}

#[test]
fn power_up_state() {
    let nes = Nes::from_rom(sample_rom());
    assert_eq!(nes.cpu.pc, 0x8000);
    assert_eq!(nes.cpu.a, 0);
    assert_eq!(nes.cpu.x, 0);
    assert_eq!(nes.cpu.y, 0);
    assert_eq!(nes.cpu.s, 0xFD);
    assert_eq!(nes.cpu.p, 0x34);
    assert!(!nes.cpu.interrupt_pending());
    assert!(matches!(nes.cpu_state, CpuStep::Fetch));
    assert_eq!(nes.ppu_dot, 0);
    assert_eq!(nes.ppu_frame, 0);
    for a in 0..0x0800u16 {
        assert_eq!(nes.read_u8(a), Ok(0));
    }
}

#[test]
fn load_immediate_takes_two_cycles() {
    let mut nes = Nes::from_rom(sample_rom());
    // Cycle 1: opcode fetch; still mid-instruction afterwards.
    assert_eq!(nes.run_cpu(), Ok(()));
    assert!(matches!(nes.cpu_state, CpuStep::LdaImm));
    assert_eq!(nes.cpu.a, 0);
    // Cycle 2: operand read; back at the instruction boundary.
    assert_eq!(nes.run_cpu(), Ok(()));
    assert!(matches!(nes.cpu_state, CpuStep::Fetch));
    assert_eq!(nes.cpu.a, 0x05);
    assert_eq!(nes.cpu.pc, 0x8002);
}

#[test]
fn add_immediate_wraps_modulo_256() {
    // LDA #$FF; ADC #$02 must leave 0x01 in the accumulator.
    let mut nes = Nes::from_rom(rom_with(&[(0, 0xA9), (1, 0xFF), (2, 0x69), (3, 0x02)]));
    for _ in 0..4 {
        assert_eq!(nes.run_cpu(), Ok(()));
    }
    assert_eq!(nes.cpu.a, 0x01);
    assert!(matches!(nes.cpu_state, CpuStep::Fetch));
}

#[test]
fn absolute_jump_sets_pc_to_target() {
    // JMP $1234 from the reset address, in exactly three cycles.
    let mut nes = Nes::from_rom(rom_with(&[(0, 0x4C), (1, 0x34), (2, 0x12)]));
    assert_eq!(nes.run_cpu(), Ok(()));
    assert!(matches!(nes.cpu_state, CpuStep::JmpAbs));
    assert_eq!(nes.run_cpu(), Ok(()));
    assert!(matches!(nes.cpu_state, CpuStep::JmpAbsHi { lo: 0x34 }));
    assert_eq!(nes.run_cpu(), Ok(()));
    assert!(matches!(nes.cpu_state, CpuStep::Fetch));
    assert_eq!(nes.cpu.pc, 0x1234);
}

#[test]
fn zero_page_store_and_load() {
    // LDA #$2A; TAX; STX $10; LDA #$00; LDA $10.
    let mut nes = Nes::from_rom(rom_with(&[
        (0, 0xA9),
        (1, 0x2A),
        (2, 0xAA),
        (3, 0x86),
        (4, 0x10),
        (5, 0xA9),
        (6, 0x00),
        (7, 0xA5),
        (8, 0x10),
    ]));
    // 2 + 2 + 3 + 2 + 3 cycles.
    for _ in 0..12 {
        assert_eq!(nes.run_cpu(), Ok(()));
    }
    assert_eq!(nes.read_u8(0x0010), Ok(0x2A));
    assert_eq!(nes.cpu.a, 0x2A);
    assert_eq!(nes.cpu.x, 0x2A);
}

#[test]
fn end_to_end_sample_program() {
    let mut nes = Nes::from_rom(sample_rom());
    // LDA(2) + ADC(2) + TAX(2) + STX(3) + LDA zp(3) + JMP(3) = 15 cycles.
    for _ in 0..15 {
        assert_eq!(nes.run_cpu(), Ok(()));
    }
    assert_eq!(nes.cpu.a, 0x0B);
    assert_eq!(nes.cpu.x, 0x0B);
    assert_eq!(nes.read_u8(0x0001), Ok(0x0B));
    assert_eq!(nes.cpu.pc, 0x8009);
    assert!(matches!(nes.cpu_state, CpuStep::Fetch));
    // The jump at 0x8009 targets itself: the program loops indefinitely,
    // returning to the same boundary every three cycles.
    for _ in 0..5 {
        for _ in 0..3 {
            assert_eq!(nes.run_cpu(), Ok(()));
        }
        assert_eq!(nes.cpu.pc, 0x8009);
        assert!(matches!(nes.cpu_state, CpuStep::Fetch));
    }
}

#[test]
fn unimplemented_opcode_is_fatal() {
    // Opcode 0x00 has no micro-step sequence: the fetch cycle completes,
    // the next cycle fails, and keeps failing.
    let mut nes = Nes::from_rom(rom_with(&[(0, 0x00)]));
    assert_eq!(nes.run_cpu(), Ok(()));
    assert!(matches!(nes.cpu_state, CpuStep::Illegal { op: 0x00 }));
    assert_eq!(nes.run_cpu(), Err(EmuError::UnimplementedOpcode(0x00)));
    assert_eq!(nes.run_cpu(), Err(EmuError::UnimplementedOpcode(0x00)));
}

#[test]
fn fetch_from_unmapped_address_is_fatal() {
    // Reset vector pointing between the windows: the first fetch fails.
    let mut nes = Nes::from_rom(rom_with(&[(0x3FFC, 0x00), (0x3FFD, 0x40)]));
    assert_eq!(nes.cpu.pc, 0x4000);
    assert_eq!(nes.run_cpu(), Err(EmuError::UnmappedAddress(0x4000)));
}

#[test]
fn interrupt_acknowledge_sequence() {
    // Interrupt vector 0x8005; LDA #$07 waits there.
    let mut nes = Nes::from_rom(rom_with(&[
        (0x3FFA, 0x05),
        (0x3FFB, 0x80),
        (0, 0xA9),
        (1, 0x05),
        (5, 0xA9),
        (6, 0x07),
    ]));
    nes.cpu.raise_interrupt();
    assert_eq!(nes.run_cpu(), Ok(()));
    // The boundary cycle acknowledged, then fetched at the vector target.
    assert!(!nes.cpu.interrupt_pending());
    assert_eq!(nes.cpu.pc, 0x8006);
    assert!(matches!(nes.cpu_state, CpuStep::LdaImm));
    assert_eq!(nes.cpu.s, 0xFA);
    // Pushed: PC high, PC low, status with the break bit cleared.
    assert_eq!(nes.read_u8(0x01FD), Ok(0x80));
    assert_eq!(nes.read_u8(0x01FC), Ok(0x00));
    assert_eq!(nes.read_u8(0x01FB), Ok(0x24));
    // Interrupt-disable flag set (already held by the power-up status).
    assert_eq!(nes.cpu.p & 0x04, 0x04);
    // The deferred instruction then executes normally.
    assert_eq!(nes.run_cpu(), Ok(()));
    assert_eq!(nes.cpu.a, 0x07);
}

#[test]
fn interrupt_not_taken_mid_instruction() {
    let mut nes = Nes::from_rom(sample_rom());
    // Enter the LDA instruction, then raise the flag mid-instruction.
    assert_eq!(nes.run_cpu(), Ok(()));
    nes.cpu.raise_interrupt();
    assert_eq!(nes.run_cpu(), Ok(()));
    // The running instruction completed untouched; the flag still waits.
    assert_eq!(nes.cpu.a, 0x05);
    assert!(nes.cpu.interrupt_pending());
}

#[test]
fn register_file_interrupt_trio() {
    let mut nes = Nes::from_rom(sample_rom());
    assert!(!nes.cpu.interrupt_pending());
    nes.cpu.raise_interrupt();
    assert!(nes.cpu.interrupt_pending());
    nes.cpu.clear_interrupt();
    assert!(!nes.cpu.interrupt_pending());
}
