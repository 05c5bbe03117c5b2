use vstd::prelude::*;

use vstd::arithmetic::div_mod::lemma_add_mod_noop;
use vstd::arithmetic::div_mod::lemma_fundamental_div_mod;
use vstd::arithmetic::div_mod::lemma_fundamental_div_mod_converse;
use vstd::arithmetic::div_mod::lemma_mod_division_less_than_divisor;
use vstd::arithmetic::div_mod::lemma_mod_self_0;
use vstd::arithmetic::div_mod::lemma_small_mod;

use crate::cpu::CpuStep;
use crate::errors::EmuError;
use crate::model::DOTS_PER_FRAME;
use crate::model::MachineView;
use crate::model::cpu_step_spec;
use crate::model::mapped;
use crate::model::master_step_spec;
use crate::model::ppu_step_spec;
use crate::model::read_spec;
use crate::model::u16_from;
use crate::model::wf;
use crate::model::wrap_inc16;
use crate::model::write_spec;

verus! {

/// When a bus access is owed success: a read or write succeeds exactly on
/// the mapped addresses — the RAM window and the ROM window — and fails
/// between them with `UnmappedAddress` naming the address, if and only if.
pub proof fn lemma_bus_mapped(v: MachineView, a: u16, value: u8)
    requires
        wf(v),
    ensures
        read_spec(v, a) is Ok <==> mapped(a),
        write_spec(v, a, value).0 is Ok <==> mapped(a),
        !mapped(a) ==> read_spec(v, a) == Err::<u8, EmuError>(EmuError::UnmappedAddress(a)),
        !mapped(a) ==> write_spec(v, a, value).0 == Err::<(), EmuError>(
            EmuError::UnmappedAddress(a),
        ),
{
}

/// RAM mirroring: in any well-formed state — so after any sequence of
/// writes — reading an address of the RAM window returns the same byte as
/// reading that address reduced modulo the RAM size.
pub proof fn lemma_ram_mirror_read(v: MachineView, a: u16)
    requires
        wf(v),
        a < 0x0800,
    ensures
        read_spec(v, a) == read_spec(v, (a as int % 0x0800) as u16),
{
}

/// RAM mirroring, write side: a write to an address of the RAM window
/// succeeds, and reading that address reduced modulo the RAM size out of
/// the resulting state returns exactly the byte written.
pub proof fn lemma_ram_write_read(v: MachineView, a: u16, value: u8)
    requires
        wf(v),
        a < 0x0800,
    ensures
        write_spec(v, a, value).0 is Ok,
        read_spec(write_spec(v, a, value).1, (a as int % 0x0800) as u16) == Ok::<u8, EmuError>(
            value,
        ),
{
}

/// ROM writes are no-ops: a write anywhere in the ROM window succeeds,
/// leaves the whole machine state unchanged, and so leaves every read —
/// in particular of the written address — invariant.
pub proof fn lemma_rom_write_discarded(v: MachineView, a: u16, value: u8)
    requires
        wf(v),
        0x8000 <= a,
    ensures
        write_spec(v, a, value).0 is Ok,
        write_spec(v, a, value).1 == v,
        read_spec(write_spec(v, a, value).1, a) == read_spec(v, a),
{
}

/// Load-immediate: from an instruction boundary with no pending interrupt,
/// with opcode 0xA9 at the program counter and `value` behind it, the CPU
/// stepper consumes exactly two cycles — after one it stands mid-
/// instruction, after two it is back at the boundary — and leaves the
/// accumulator equal to `value`.
pub proof fn lemma_load_immediate(v: MachineView, value: u8)
    requires
        wf(v),
        v.step is Fetch,
        !v.cpu.nmi,
        read_spec(v, v.cpu.pc) == Ok::<u8, EmuError>(0xA9),
        read_spec(v, wrap_inc16(v.cpu.pc)) == Ok::<u8, EmuError>(value),
    ensures
        cpu_step_spec(v).0 is Ok,
        cpu_step_spec(v).1.step is LdaImm,
        cpu_step_spec(cpu_step_spec(v).1).0 is Ok,
        cpu_step_spec(cpu_step_spec(v).1).1.step is Fetch,
        cpu_step_spec(cpu_step_spec(v).1).1.cpu.a == value,
{
}

/// Add-immediate is performed modulo 256: from an instruction boundary
/// with no pending interrupt, with opcode 0x69 at the program counter and
/// `value` behind it, two cycles later the accumulator holds the old
/// accumulator plus `value`, reduced modulo 256.
pub proof fn lemma_add_immediate_wraps(v: MachineView, value: u8)
    requires
        wf(v),
        v.step is Fetch,
        !v.cpu.nmi,
        read_spec(v, v.cpu.pc) == Ok::<u8, EmuError>(0x69),
        read_spec(v, wrap_inc16(v.cpu.pc)) == Ok::<u8, EmuError>(value),
    ensures
        cpu_step_spec(v).0 is Ok,
        cpu_step_spec(v).1.step is AdcImm,
        cpu_step_spec(cpu_step_spec(v).1).0 is Ok,
        cpu_step_spec(cpu_step_spec(v).1).1.step is Fetch,
        cpu_step_spec(cpu_step_spec(v).1).1.cpu.a == (v.cpu.a + value) % 256,
{
}

/// Absolute jump: from an instruction boundary with no pending interrupt,
/// with opcode 0x4C at the program counter and the target's low and high
/// bytes behind it, the stepper consumes exactly three cycles and sets the
/// program counter to exactly the target — whatever value it held before.
pub proof fn lemma_absolute_jump(v: MachineView, lo: u8, hi: u8)
    requires
        wf(v),
        v.step is Fetch,
        !v.cpu.nmi,
        read_spec(v, v.cpu.pc) == Ok::<u8, EmuError>(0x4C),
        read_spec(v, wrap_inc16(v.cpu.pc)) == Ok::<u8, EmuError>(lo),
        read_spec(v, wrap_inc16(wrap_inc16(v.cpu.pc))) == Ok::<u8, EmuError>(hi),
    ensures
        cpu_step_spec(v).0 is Ok,
        cpu_step_spec(v).1.step is JmpAbs,
        cpu_step_spec(cpu_step_spec(v).1).0 is Ok,
        cpu_step_spec(cpu_step_spec(v).1).1.step is JmpAbsHi,
        cpu_step_spec(cpu_step_spec(cpu_step_spec(v).1).1).0 is Ok,
        cpu_step_spec(cpu_step_spec(cpu_step_spec(v).1).1).1.step is Fetch,
        cpu_step_spec(cpu_step_spec(cpu_step_spec(v).1).1).1.cpu.pc == u16_from(lo, hi),
{
}

/// The co-scheduler's cadence: a fault-free master cycle advances the
/// video clock by exactly three dots, and raises the pending-interrupt
/// flag exactly when one of its three dots is the raising dot — the dot at
/// frame-local index 1 — beyond whatever the CPU cycle itself left of the
/// flag.
pub proof fn lemma_master_cycle_three_dots(v: MachineView)
    requires
        wf(v),
        cpu_step_spec(v).0 is Ok,
    ensures
        master_step_spec(v).0 is Ok,
        master_step_spec(v).1.dot == (v.dot + 3) % (DOTS_PER_FRAME as int),
        master_step_spec(v).1.cpu.nmi == (cpu_step_spec(v).1.cpu.nmi || v.dot == 0 || v.dot == 1
            || v.dot == DOTS_PER_FRAME - 1),
{
    let f = DOTS_PER_FRAME as int;
    let v1 = cpu_step_spec(v).1;
    assert(v1.dot == v.dot);
    lemma_ppu_run_dot_unfold(v1);
    if v.dot + 3 < f {
        lemma_small_mod((v.dot + 3) as nat, DOTS_PER_FRAME as nat);
    } else {
        lemma_fundamental_div_mod_converse(v.dot + 3, f, 1, v.dot + 3 - f);
    }
}

/// The CPU cycle leaves the video counters alone, so the three dots of a
/// master cycle run from the dot the cycle began at.
proof fn lemma_ppu_run_dot_unfold(v1: MachineView)
    requires
        wf(v1),
    ensures
        ppu_step_spec(ppu_step_spec(ppu_step_spec(v1))).dot == if v1.dot + 3
            < DOTS_PER_FRAME as int {
            v1.dot + 3
        } else {
            v1.dot + 3 - DOTS_PER_FRAME as int
        },
        ppu_step_spec(ppu_step_spec(ppu_step_spec(v1))).cpu.nmi == (v1.cpu.nmi || v1.dot == 0
            || v1.dot == 1 || v1.dot == DOTS_PER_FRAME - 1),
{
}

/// The video clock stepper run for `n` dots from state `v`.
pub open spec fn ppu_run_spec(v: MachineView, n: nat) -> MachineView
    decreases n,
{
    if n == 0 {
        v
    } else {
        ppu_step_spec(ppu_run_spec(v, (n - 1) as nat))
    }
}

/// How many of the first `n` dots of a run from `v` raise the
/// pending-interrupt flag: exactly the dots executed at frame-local
/// index 1, as `ppu_step_spec` shows.
pub open spec fn ppu_raise_count(v: MachineView, n: nat) -> nat
    decreases n,
{
    if n == 0 {
        0
    } else {
        ppu_raise_count(v, (n - 1) as nat) + if ppu_run_spec(v, (n - 1) as nat).dot == 1 {
            1nat
        } else {
            0nat
        }
    }
}

/// Running the video clock keeps the machine well formed, and the `n`-th
/// suspend point stands at frame-local dot index `(v.dot + n) mod` the
/// frame length.
pub proof fn lemma_ppu_run_dot(v: MachineView, n: nat)
    requires
        wf(v),
    ensures
        wf(ppu_run_spec(v, n)),
        ppu_run_spec(v, n).dot == (v.dot + n) % (DOTS_PER_FRAME as int),
    decreases n,
{
    let f = DOTS_PER_FRAME as int;
    if n == 0 {
        lemma_small_mod(v.dot as nat, DOTS_PER_FRAME as nat);
    } else {
        lemma_ppu_run_dot(v, (n - 1) as nat);
        let prev = ppu_run_spec(v, (n - 1) as nat);
        let x = v.dot + n - 1;
        lemma_add_mod_noop(x, 1, f);
        lemma_small_mod(1nat, DOTS_PER_FRAME as nat);
        if prev.dot + 1 == f {
            lemma_mod_self_0(f);
        } else {
            lemma_small_mod((prev.dot + 1) as nat, DOTS_PER_FRAME as nat);
        }
    }
}

/// Closed form for the raise count of a run that starts at the top of a
/// frame: among the first `n` dots, the raising ones are those at index
/// `k` with `k mod` frame-length `== 1`, so none for `n < 2` and
/// `(n - 2) / frame-length + 1` afterwards.
proof fn lemma_raise_count_closed(v: MachineView, n: nat)
    requires
        wf(v),
        v.dot == 0,
    ensures
        ppu_raise_count(v, n) == if n < 2 {
            0int
        } else {
            (n - 2) / (DOTS_PER_FRAME as int) + 1
        },
    decreases n,
{
    let f = DOTS_PER_FRAME as int;
    if n == 0 {
    } else {
        lemma_raise_count_closed(v, (n - 1) as nat);
        lemma_ppu_run_dot(v, (n - 1) as nat);
        if n == 1 {
            lemma_small_mod(0nat, DOTS_PER_FRAME as nat);
        } else if n == 2 {
            lemma_small_mod(1nat, DOTS_PER_FRAME as nat);
            assert((0int) / f == 0);
        } else {
            // n >= 3: relate (n - 2) / f to (n - 3) / f through the
            // euclidean decomposition of m = n - 3.
            let m = n - 3;
            lemma_fundamental_div_mod(m, f);
            lemma_mod_division_less_than_divisor(m, f);
            let q = m / f;
            let r = m % f;
            if r == f - 1 {
                lemma_fundamental_div_mod_converse(m + 1, f, q + 1, 0);
                lemma_fundamental_div_mod_converse(m + 2, f, q + 1, 1);
            } else {
                lemma_fundamental_div_mod_converse(m + 1, f, q, r + 1);
                if r + 2 == f {
                    lemma_fundamental_div_mod_converse(m + 2, f, q + 1, 0);
                } else {
                    lemma_fundamental_div_mod_converse(m + 2, f, q, r + 2);
                }
            }
        }
    }
}

/// The frame schedule of the pending-interrupt flag: a run of `n` full
/// frames plus one extra dot, from the top of a frame, raises the flag
/// exactly `n` times — and a dot of the run raises it exactly when its
/// index is 1 modulo the frame length (dot index 1 of each frame).
pub proof fn lemma_frame_raise_count(v: MachineView, n: nat)
    requires
        wf(v),
        v.dot == 0,
    ensures
        ppu_raise_count(v, (DOTS_PER_FRAME * n + 1) as nat) == n,
        forall|k: nat|
            k < DOTS_PER_FRAME * n + 1 ==> (ppu_run_spec(v, k).dot == 1 <==> k % (
            DOTS_PER_FRAME as nat) == 1),
{
    let f = DOTS_PER_FRAME as int;
    lemma_raise_count_closed(v, (DOTS_PER_FRAME * n + 1) as nat);
    if n > 0 {
        assert(f * n - 1 == (n - 1) * f + (f - 1)) by (nonlinear_arith);
        lemma_fundamental_div_mod_converse(f * n - 1, f, n - 1, f - 1);
    }
    assert forall|k: nat| k < DOTS_PER_FRAME * n + 1 implies (ppu_run_spec(v, k).dot == 1 <==> k
        % (DOTS_PER_FRAME as nat) == 1) by {
        lemma_ppu_run_dot(v, k);
        lemma_mod_division_less_than_divisor(k as int, f);
    }
}

} // verus!
