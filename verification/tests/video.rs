use nes_core::CpuStep;
use nes_core::EmuError;
use nes_core::Nes;
use nes_core::sample_rom;

const DOTS_PER_FRAME: u32 = 341 * 262;

#[test]
fn video_clock_raises_once_per_frame() {
    // N full frames plus one extra dot: the flag is raised exactly N
    // times, each at frame-local dot index 1.
    let n: u64 = 2;
    let mut nes = Nes::from_rom(sample_rom());
    let mut raises: Vec<u64> = Vec::new();
    for k in 0..(DOTS_PER_FRAME as u64) * n + 1 {
        nes.run_ppu();
        if nes.cpu.interrupt_pending() {
            raises.push(k);
            nes.cpu.clear_interrupt();
        }
    }
    assert_eq!(raises, vec![1, DOTS_PER_FRAME as u64 + 1]);
    for &k in &raises {
        assert_eq!(k % DOTS_PER_FRAME as u64, 1);
    }
    assert_eq!(nes.ppu_frame, n);
    assert_eq!(nes.ppu_dot, 1);
}

#[test]
fn video_clock_wraps_at_frame_end() {
    let mut nes = Nes::from_rom(sample_rom());
    for _ in 0..DOTS_PER_FRAME - 1 {
        nes.run_ppu();
    }
    assert_eq!(nes.ppu_dot, DOTS_PER_FRAME - 1);
    assert_eq!(nes.ppu_frame, 0);
    nes.run_ppu();
    assert_eq!(nes.ppu_dot, 0);
    assert_eq!(nes.ppu_frame, 1);
}

#[test]
fn master_cycle_is_one_cpu_cycle_and_three_dots() {
    let mut nes = Nes::from_rom(sample_rom());
    assert_eq!(nes.run(), Ok(()));
    // One CPU cycle ran: the opcode fetch of LDA.
    assert!(matches!(nes.cpu_state, CpuStep::LdaImm));
    // Three dots ran: 0, 1 and 2 — and dot 1 raised the interrupt flag.
    assert_eq!(nes.ppu_dot, 3);
    assert!(nes.cpu.interrupt_pending());
}

#[test]
fn interrupt_visible_at_next_boundary_only() {
    let mut nes = Nes::from_rom(sample_rom());
    // Master cycle 1: fetch of LDA; dot 1 raises the flag afterwards.
    assert_eq!(nes.run(), Ok(()));
    // Master cycle 2: the in-flight LDA completes untouched.
    assert_eq!(nes.run(), Ok(()));
    assert_eq!(nes.cpu.a, 0x05);
    assert!(nes.cpu.interrupt_pending());
    // Master cycle 3: the boundary acknowledges and jumps to the sample
    // image's interrupt vector 0x0000, where RAM holds opcode 0x00.
    assert_eq!(nes.run(), Ok(()));
    assert!(!nes.cpu.interrupt_pending());
    assert_eq!(nes.cpu.pc, 0x0001);
    assert!(matches!(nes.cpu_state, CpuStep::Illegal { op: 0x00 }));
    // Master cycle 4: the fault surfaces, before any further dot.
    let dots = nes.ppu_dot;
    assert_eq!(nes.run(), Err(EmuError::UnimplementedOpcode(0x00)));
    assert_eq!(nes.ppu_dot, dots);
}
