use nes_core::EmuError;
use nes_core::Nes;
use nes_core::Rom;
use nes_core::sample_rom;

fn rom_with(patches: &[(usize, u8)]) -> Rom {
    let mut bytes = vec![0u8; 0x4000];
    // Reset vector 0x8000 unless a patch overrides it.
    bytes[0x3FFC] = 0x00;
    bytes[0x3FFD] = 0x80;
    for &(offset, value) in patches {
        bytes[offset] = value;
    }
    Rom { prg_rom: bytes }
}

#[test]
fn ram_write_then_read() {
    let mut nes = Nes::from_rom(sample_rom());
    assert_eq!(nes.write_u8(0x0123, 0x55), Ok(()));
    assert_eq!(nes.read_u8(0x0123), Ok(0x55));
    assert_eq!(nes.read_u8(0x0123 % 0x0800), Ok(0x55));
}

#[test]
fn ram_mirror_reads_agree() {
    let mut nes = Nes::from_rom(sample_rom());
    assert_eq!(nes.write_u8(0x0000, 1), Ok(()));
    assert_eq!(nes.write_u8(0x07FF, 2), Ok(()));
    for a in [0x0000u16, 0x0001, 0x0400, 0x07FF] {
        assert_eq!(nes.read_u8(a), nes.read_u8(a % 0x0800));
    }
}

#[test]
fn rom_write_is_discarded() {
    let mut nes = Nes::from_rom(sample_rom());
    assert_eq!(nes.read_u8(0x8000), Ok(0xA9));
    assert_eq!(nes.write_u8(0x8000, 0x12), Ok(()));
    assert_eq!(nes.read_u8(0x8000), Ok(0xA9));
    assert_eq!(nes.write_u8(0xFFFF, 0x12), Ok(()));
    assert_eq!(nes.read_u8(0xFFFF), Ok(0x00));
}

#[test]
fn rom_window_mirrors_every_16k() {
    let nes = Nes::from_rom(sample_rom());
    assert_eq!(nes.read_u8(0x8000), Ok(0xA9));
    assert_eq!(nes.read_u8(0xC000), Ok(0xA9));
    assert_eq!(nes.read_u8(0x8001), Ok(0x05));
    assert_eq!(nes.read_u8(0xC001), Ok(0x05));
}

#[test]
fn unmapped_read_fails() {
    let nes = Nes::from_rom(sample_rom());
    assert_eq!(nes.read_u8(0x0800), Err(EmuError::UnmappedAddress(0x0800)));
    assert_eq!(nes.read_u8(0x7FFF), Err(EmuError::UnmappedAddress(0x7FFF)));
}

#[test]
fn unmapped_write_fails() {
    let mut nes = Nes::from_rom(sample_rom());
    assert_eq!(nes.write_u8(0x4000, 1), Err(EmuError::UnmappedAddress(0x4000)));
}

#[test]
fn read_u16_is_little_endian() {
    let nes = Nes::from_rom(sample_rom());
    // Reset vector bytes 0x00, 0x80 compose to 0x8000.
    assert_eq!(nes.read_u16(0xFFFC), Ok(0x8000));
    // Program bytes 0xA9, 0x05 compose to 0x05A9.
    assert_eq!(nes.read_u16(0x8000), Ok(0x05A9));
}

#[test]
fn read_u16_wraps_at_address_space_end() {
    let mut nes = Nes::from_rom(rom_with(&[(0x3FFF, 0x7C)]));
    // High byte comes from address 0x0000: the increment wraps.
    assert_eq!(nes.write_u8(0x0000, 0x11), Ok(()));
    assert_eq!(nes.read_u16(0xFFFF), Ok(0x117C));
}

#[test]
fn read_u16_reports_unmapped_halves() {
    let nes = Nes::from_rom(sample_rom());
    assert_eq!(nes.read_u16(0x0800), Err(EmuError::UnmappedAddress(0x0800)));
    // Low byte mapped (RAM), high byte unmapped.
    assert_eq!(nes.read_u16(0x07FF), Err(EmuError::UnmappedAddress(0x0800)));
}

#[test]
fn sample_rom_image_layout() {
    let rom = sample_rom();
    assert_eq!(rom.prg_rom.len(), 0x4000);
    let program = [0xA9u8, 0x05, 0x69, 0x06, 0xAA, 0x86, 0x01, 0xA5, 0x01, 0x4C, 0x09, 0x80];
    assert_eq!(&rom.prg_rom[..12], &program);
    for &b in &rom.prg_rom[12..0x3FFA] {
        assert_eq!(b, 0);
    }
    assert_eq!(&rom.prg_rom[0x3FFA..], &[0x00, 0x00, 0x00, 0x80, 0x00, 0x00]);
}
