use vstd::prelude::*;

verus! {

/// The immutable program ROM: a fixed 16 KiB byte sequence, loaded once at
/// power-up and never written afterwards (the bus discards writes into the
/// ROM window).
pub struct Rom {
    pub prg_rom: Vec<u8>,
}

/// The twelve program bytes of the built-in sample image:
/// LDA #$05; ADC #$06; TAX; STX $01; LDA $01; JMP $8009.
pub open spec fn sample_program() -> Seq<u8> {
    seq![0xA9u8, 0x05u8, 0x69u8, 0x06u8, 0xAAu8, 0x86u8, 0x01u8, 0xA5u8, 0x01u8, 0x4Cu8, 0x09u8, 0x80u8]
}

/// The six vector bytes that close the sample image: interrupt vector
/// 0x0000, reset vector 0x8000, and a zero IRQ slot.
pub open spec fn sample_vectors() -> Seq<u8> {
    seq![0x00u8, 0x00u8, 0x00u8, 0x80u8, 0x00u8, 0x00u8]
}

/// The whole 16 KiB sample image: the program, zero padding, then the
/// vectors in the last six bytes.
pub open spec fn sample_rom_spec() -> Seq<u8> {
    sample_program() + Seq::new(0x3FEE, |i: int| 0u8) + sample_vectors()
}

/// Builds the sample ROM image in memory: the same bytes a minimal
/// cartridge dump of the sample program would hold.
pub fn sample_rom() -> (r: Rom)
    ensures
        r.prg_rom@ == sample_rom_spec(),
        r.prg_rom@.len() == 0x4000,
{
    let mut prg: Vec<u8> = Vec::new();
    prg.push(0xA9);
    prg.push(0x05);
    prg.push(0x69);
    prg.push(0x06);
    prg.push(0xAA);
    prg.push(0x86);
    prg.push(0x01);
    prg.push(0xA5);
    prg.push(0x01);
    prg.push(0x4C);
    prg.push(0x09);
    prg.push(0x80);
    proof {
        assert(prg@ =~= sample_program());
    }
    while prg.len() < 0x3FFA
        invariant
            12 <= prg@.len() <= 0x3FFA,
            prg@ == sample_program() + Seq::new((prg@.len() - 12) as nat, |i: int| 0u8),
        decreases 0x3FFA - prg@.len(),
    {
        prg.push(0x00);
        proof {
            assert(prg@ =~= sample_program() + Seq::new((prg@.len() - 12) as nat, |i: int| 0u8));
        }
    }
    prg.push(0x00);
    prg.push(0x00);
    prg.push(0x00);
    prg.push(0x80);
    prg.push(0x00);
    prg.push(0x00);
    proof {
        assert(prg@ =~= sample_rom_spec());
    }
    Rom { prg_rom: prg }
}

} // verus!
