//! The SM83 CPU: fetches, decodes and executes instructions one memory
//! access (one M-cycle of 4 clock cycles) at a time, stepping the bus after
//! each access, and services interrupts.
pub mod instruction;
pub mod registers;

use vstd::prelude::*;
use crate::bus::{Bus, Device, device_of};
use crate::io::{IF_REG, lemma_bits_kept};
use crate::graphics::dma::DMA_REG;
use crate::memory::Memory;
use crate::graphics::vblank::MAX_VBLANK_CYCLES;
use crate::instruction::{
    self as alu, add_af, adc_af, sub_af, sbc_af, and_af, xor_af, or_af, cp_af, incr_flags_af,
    decr_flags_af, rotate_left_a_af, rotate_right_a_af, daa_af, cpl_af, scf_af, ccf_af,
    hl_add_flags_af, add_signed, sp_add_flags_af, shift_flags_af, af_with, bit_of, bit_weight,
};
use crate::joypad::InputEvent;
use crate::mbc::Mbc;
use self::instruction::Instruction;
use self::registers::{Registers, hi_of, lo_of, word_of, flag_z, flag_c, make_flags};

verus! {

pub const CPU_FREQ: usize = 4_194_304;

/// The most cycles an instruction may find already counted when it starts;
/// the caller resets the count before each instruction.
pub const CYCLE_BUDGET: usize = 0x1000_0000;

pub struct Cpu {
    pub mem: Bus,
    pub reg: Registers,
    pub pc: u16,  // Program Counter
    pub sp: u16,  // Stack Pointer
    pub curr_cycles: usize,  // The number of cycles the current instruction took to execute
    pub ime: bool,
    pub ime_scheduled: bool,
    pub haltbug: bool,
    pub is_running: bool,
    pub instruction: u8,  // Really only for debugging
    pub cb_instruction: u16,  // Really only for debugging
}

/// How a step of the emulator ended.
#[derive(Clone, Copy, PartialEq, Eq, Structural, Debug)]
pub enum StepOutcome {
    /// An instruction, or an idle M-cycle of a halted CPU, ran.
    Ran,
    /// The opcode at PC is one the DMG does not implement.
    Illegal,
    /// The window asked to quit.
    Quit,
}

/// The programmer-visible state of the CPU and the cycles counted so far.
pub struct CpuRegs {
    pub af: u16,
    pub bc: u16,
    pub de: u16,
    pub hl: u16,
    pub pc: u16,
    pub sp: u16,
    pub ime: bool,
    pub ime_scheduled: bool,
    pub is_running: bool,
    pub haltbug: bool,
    pub cycles: usize,
}

/// `x + n` on 16 bits.
pub open spec fn wrap16(x: int) -> u16 {
    (((x % 65536) + 65536) % 65536) as u16
}

/// `s` after `n` more memory accesses or internal cycles of 4 clocks.
pub open spec fn cyc(s: CpuRegs, n: int) -> CpuRegs {
    CpuRegs { cycles: (s.cycles + 4 * n) as usize, ..s }
}

/// `s` with the program counter moved past `n` operand bytes, each read
/// taking an access.
pub open spec fn fetched(s: CpuRegs, n: int) -> CpuRegs {
    CpuRegs { pc: wrap16(s.pc + n), ..cyc(s, n) }
}

/// The 8-bit operand selected by `idx` (mod 8): B, C, D, E, H, L, (HL), A;
/// `m` is the byte read at (HL).
pub open spec fn r8_of(s: CpuRegs, idx: u8, m: u8) -> u8 {
    let i = idx % 8;
    if i == 0 {
        hi_of(s.bc)
    } else if i == 1 {
        lo_of(s.bc)
    } else if i == 2 {
        hi_of(s.de)
    } else if i == 3 {
        lo_of(s.de)
    } else if i == 4 {
        hi_of(s.hl)
    } else if i == 5 {
        lo_of(s.hl)
    } else if i == 6 {
        m
    } else {
        hi_of(s.af)
    }
}

/// `s` with the 8-bit register selected by `idx` set to `v` ((HL) is
/// memory: the registers stay).
pub open spec fn with_r8(s: CpuRegs, idx: u8, v: u8) -> CpuRegs {
    let i = idx % 8;
    if i == 0 {
        CpuRegs { bc: word_of(v, lo_of(s.bc)), ..s }
    } else if i == 1 {
        CpuRegs { bc: word_of(hi_of(s.bc), v), ..s }
    } else if i == 2 {
        CpuRegs { de: word_of(v, lo_of(s.de)), ..s }
    } else if i == 3 {
        CpuRegs { de: word_of(hi_of(s.de), v), ..s }
    } else if i == 4 {
        CpuRegs { hl: word_of(v, lo_of(s.hl)), ..s }
    } else if i == 5 {
        CpuRegs { hl: word_of(hi_of(s.hl), v), ..s }
    } else if i == 6 {
        s
    } else {
        CpuRegs { af: word_of(v, lo_of(s.af)), ..s }
    }
}

/// The 16-bit register selected by `idx`: BC, DE, HL, SP.
pub open spec fn r16_of(s: CpuRegs, idx: u8) -> u16 {
    if idx == 0 {
        s.bc
    } else if idx == 1 {
        s.de
    } else if idx == 2 {
        s.hl
    } else {
        s.sp
    }
}

pub open spec fn with_r16(s: CpuRegs, idx: u8, v: u16) -> CpuRegs {
    if idx == 0 {
        CpuRegs { bc: v, ..s }
    } else if idx == 1 {
        CpuRegs { de: v, ..s }
    } else if idx == 2 {
        CpuRegs { hl: v, ..s }
    } else {
        CpuRegs { sp: v, ..s }
    }
}

/// The condition in bits 3 - 4 of a conditional jump, call or return:
/// NZ, Z, NC, C.
pub open spec fn cond_holds(s: CpuRegs, op: u8) -> bool {
    let y = (op / 8) % 4;
    let f = lo_of(s.af);
    if y == 0 {
        !flag_z(f)
    } else if y == 1 {
        flag_z(f)
    } else if y == 2 {
        !flag_c(f)
    } else {
        flag_c(f)
    }
}

/// AF after the 8-bit arithmetic or logic operation `kind` (ADD, ADC, SUB,
/// SBC, AND, XOR, OR, CP) of A with `v`.
pub open spec fn alu_af(kind: u8, af: u16, v: u8) -> u16 {
    if kind == 0 {
        add_af(af, v)
    } else if kind == 1 {
        adc_af(af, v)
    } else if kind == 2 {
        sub_af(af, v)
    } else if kind == 3 {
        sbc_af(af, v)
    } else if kind == 4 {
        and_af(af, v)
    } else if kind == 5 {
        xor_af(af, v)
    } else if kind == 6 {
        or_af(af, v)
    } else {
        cp_af(af, v)
    }
}

/// The opcodes the DMG does not implement (0xCB only prefixes).
pub open spec fn is_illegal(op: u8) -> bool {
    op == 0xD3 || op == 0xDB || op == 0xDD || op == 0xE3 || op == 0xE4 || op == 0xEB || op == 0xEC
        || op == 0xED || op == 0xF4 || op == 0xFC || op == 0xFD
}

/// Whether `op` is an opcode the DMG does not implement.
pub fn illegal_opcode(op: u8) -> (b: bool)
    ensures
        b == is_illegal(op),
{
    op == 0xD3 || op == 0xDB || op == 0xDD || op == 0xE3 || op == 0xE4 || op == 0xEB || op == 0xEC
        || op == 0xED || op == 0xF4 || op == 0xFC || op == 0xFD
}

/// The registers after the unprefixed instruction `op`. `v1`, `v2`, `v3`
/// are the bytes its memory reads gave, in order (operands first), and
/// `pending` whether an enabled interrupt was requested when HALT ran.
pub open spec fn step(s: CpuRegs, op: u8, v1: u8, v2: u8, v3: u8, pending: bool) -> CpuRegs {
    if op < 0x40 {
        step_low(s, op, v1, v2)
    } else if op < 0x80 {
        step_ld(s, op, v1, pending)
    } else if op < 0xC0 {
        step_alu(s, op, v1)
    } else {
        step_high(s, op, v1, v2, v3)
    }
}

/// Opcodes 0x00 - 0x3F: relative jumps, 16-bit loads and arithmetic,
/// 8-bit increments, immediate loads and the accumulator operations.
pub open spec fn step_low(s: CpuRegs, op: u8, v1: u8, v2: u8) -> CpuRegs {
    let hi = op / 16;
    let lo = op % 16;
    if op == 0x00 || op == 0x10 {
        s
    } else if op == 0x18 || op == 0x20 || op == 0x28 || op == 0x30 || op == 0x38 {
        // JR (cc), e
        let t = fetched(s, 1);
        if op == 0x18 || cond_holds(s, op) {
            CpuRegs { pc: add_signed(t.pc, v1), ..cyc(t, 1) }
        } else {
            t
        }
    } else if op < 0x40 && lo == 1 {
        // LD rr, d16
        with_r16(fetched(s, 2), hi, word_of(v2, v1))
    } else if op < 0x40 && lo == 2 {
        // LD (BC)/(DE)/(HL+)/(HL-), A
        let t = cyc(s, 1);
        if op == 0x22 {
            CpuRegs { hl: wrap16(s.hl + 1), ..t }
        } else if op == 0x32 {
            CpuRegs { hl: wrap16(s.hl - 1), ..t }
        } else {
            t
        }
    } else if op < 0x40 && lo == 3 {
        // INC rr
        with_r16(cyc(s, 1), hi, wrap16(r16_of(s, hi) + 1))
    } else if op < 0x40 && lo == 0xB {
        // DEC rr
        with_r16(cyc(s, 1), hi, wrap16(r16_of(s, hi) - 1))
    } else if op < 0x40 && (op % 8 == 4 || op % 8 == 5) {
        // INC r / DEC r
        step_incdec8(s, op, v1)
    } else if op < 0x40 && op % 8 == 6 {
        // LD r, d8
        let t = fetched(s, 1);
        if op / 8 == 6 {
            cyc(t, 1)
        } else {
            with_r8(t, op / 8, v1)
        }
    } else if op == 0x07 || op == 0x17 {
        CpuRegs { af: rotate_left_a_af(op == 0x17, s.af), ..s }
    } else if op == 0x0F || op == 0x1F {
        CpuRegs { af: rotate_right_a_af(op == 0x1F, s.af), ..s }
    } else if op == 0x27 {
        CpuRegs { af: daa_af(s.af), ..s }
    } else if op == 0x2F {
        CpuRegs { af: cpl_af(s.af), ..s }
    } else if op == 0x37 {
        CpuRegs { af: scf_af(s.af), ..s }
    } else if op == 0x3F {
        CpuRegs { af: ccf_af(s.af), ..s }
    } else if op == 0x08 {
        // LD (a16), SP
        cyc(fetched(s, 2), 2)
    } else if op < 0x40 && lo == 9 {
        // ADD HL, rr
        let v = r16_of(s, hi);
        CpuRegs {
            hl: ((s.hl + v) % 65536) as u16,
            af: hl_add_flags_af(s.hl, v, s.af),
            ..cyc(s, 1)
        }
    } else if op < 0x40 && lo == 0xA {
        // LD A, (BC)/(DE)/(HL+)/(HL-)
        let t = CpuRegs { af: word_of(v1, lo_of(s.af)), ..cyc(s, 1) };
        if op == 0x2A {
            CpuRegs { hl: wrap16(s.hl + 1), ..t }
        } else if op == 0x3A {
            CpuRegs { hl: wrap16(s.hl - 1), ..t }
        } else {
            t
        }
    } else {
        s
    }
}

/// INC r / DEC r (opcodes 0x04 + 8k and 0x05 + 8k): the flags from the
/// 8-bit increment or decrement, the result back into the operand.
pub open spec fn step_incdec8(s: CpuRegs, op: u8, v1: u8) -> CpuRegs {
    let idx = op / 8;
    let v = r8_of(s, idx, v1);
    let inc = op % 8 == 4;
    let t = CpuRegs {
        af: if inc {
            incr_flags_af(v, s.af)
        } else {
            decr_flags_af(v, s.af)
        },
        ..s
    };
    let res = if inc {
        ((v + 1) % 256) as u8
    } else {
        ((v + 255) % 256) as u8
    };
    if idx == 6 {
        cyc(t, 2)
    } else {
        with_r8(t, idx, res)
    }
}

/// Opcodes 0x40 - 0x7F: register to register loads and HALT.
pub open spec fn step_ld(s: CpuRegs, op: u8, v1: u8, pending: bool) -> CpuRegs {
    if op == 0x76 {
        // HALT
        if s.ime || !pending {
            CpuRegs { is_running: false, ..s }
        } else {
            CpuRegs { is_running: true, haltbug: true, ..s }
        }
    } else {
        // LD r, r'
        let dst = (op / 8) % 8;
        let src = op % 8;
        let t = if src == 6 {
            cyc(s, 1)
        } else {
            s
        };
        let u = if dst == 6 {
            cyc(t, 1)
        } else {
            with_r8(t, dst, r8_of(s, src, v1))
        };
        if 0x60 <= op < 0x70 {
            CpuRegs { cycles: (if src == 6 { 8usize } else { 4usize }), ..u }
        } else {
            u
        }
    }
}

/// Opcodes 0x80 - 0xBF: arithmetic and logic on A.
pub open spec fn step_alu(s: CpuRegs, op: u8, v1: u8) -> CpuRegs {
    let src = op % 8;
    let t = if src == 6 {
        cyc(s, 1)
    } else {
        s
    };
    CpuRegs { af: alu_af((op / 8) % 8, s.af, r8_of(s, src, v1)), ..t }
}

/// Opcodes 0xC0 - 0xFF: returns, jumps, calls, the stack, the I/O page,
/// SP arithmetic and the interrupt master enable.
pub open spec fn step_high(s: CpuRegs, op: u8, v1: u8, v2: u8, v3: u8) -> CpuRegs {
    let hi = op / 16;
    let lo = op % 16;
    if op == 0xC0 || op == 0xC8 || op == 0xD0 || op == 0xD8 {
        // RET cc
        let t = cyc(s, 1);
        if cond_holds(s, op) {
            CpuRegs { pc: word_of(v2, v1), sp: wrap16(s.sp + 2), ..cyc(t, 3) }
        } else {
            t
        }
    } else if op == 0xC9 || op == 0xD9 {
        // RET / RETI
        let t = CpuRegs { pc: word_of(v2, v1), sp: wrap16(s.sp + 2), ..cyc(s, 3) };
        if op == 0xD9 {
            CpuRegs { ime_scheduled: true, ..t }
        } else {
            t
        }
    } else if op == 0xC2 || op == 0xD2 || op == 0xCA || op == 0xDA || op == 0xC3 {
        // JP (cc), a16
        let t = fetched(s, 2);
        if op == 0xC3 || cond_holds(s, op) {
            CpuRegs { pc: word_of(v2, v1), ..cyc(t, 1) }
        } else {
            t
        }
    } else if op == 0xE9 {
        CpuRegs { pc: s.hl, ..s }
    } else if op == 0xC4 || op == 0xD4 || op == 0xCC || op == 0xDC || op == 0xCD {
        // CALL (cc), a16
        let t = fetched(s, 2);
        if op == 0xCD || cond_holds(s, op) {
            CpuRegs { pc: word_of(v2, v1), sp: wrap16(s.sp - 2), ..cyc(t, 3) }
        } else {
            t
        }
    } else if op >= 0xC0 && op % 8 == 7 {
        // RST n
        CpuRegs { pc: (op - 0xC7) as u16, sp: wrap16(s.sp - 2), ..cyc(s, 3) }
    } else if op >= 0xC0 && lo == 1 {
        // POP rr (the low nibble of F always reads 0)
        let t = CpuRegs { sp: wrap16(s.sp + 2), ..cyc(s, 2) };
        let w = word_of(v2, v1);
        let u = if hi == 0xC {
            CpuRegs { bc: w, ..t }
        } else if hi == 0xD {
            CpuRegs { de: w, ..t }
        } else if hi == 0xE {
            CpuRegs { hl: w, ..t }
        } else {
            CpuRegs { af: w, ..t }
        };
        CpuRegs { af: ((u.af / 16) * 16) as u16, ..u }
    } else if op >= 0xC0 && lo == 5 {
        // PUSH rr
        CpuRegs { sp: wrap16(s.sp - 2), ..cyc(s, 3) }
    } else if op >= 0xC0 && (lo == 6 || lo == 0xE) {
        // ALU A, d8
        CpuRegs { af: alu_af((op / 8) % 8, s.af, v1), ..fetched(s, 1) }
    } else if op == 0xE0 || op == 0xF0 {
        // LDH (a8), A / LDH A, (a8)
        let t = cyc(fetched(s, 1), 1);
        if op == 0xE0 {
            t
        } else {
            CpuRegs { af: word_of(v2, lo_of(s.af)), ..t }
        }
    } else if op == 0xE2 || op == 0xF2 {
        // LD (C), A / LD A, (C)
        let t = cyc(s, 1);
        if op == 0xE2 {
            t
        } else {
            CpuRegs { af: word_of(v1, lo_of(s.af)), ..t }
        }
    } else if op == 0xEA || op == 0xFA {
        // LD (a16), A / LD A, (a16)
        let t = cyc(fetched(s, 2), 1);
        if op == 0xEA {
            t
        } else {
            CpuRegs { af: word_of(v3, lo_of(s.af)), ..t }
        }
    } else if op == 0xE8 {
        // ADD SP, e
        CpuRegs {
            sp: add_signed(s.sp, v1),
            af: sp_add_flags_af(s.sp, v1, s.af),
            ..cyc(fetched(s, 1), 2)
        }
    } else if op == 0xF8 {
        // LD HL, SP + e
        CpuRegs {
            hl: add_signed(s.sp, v1),
            af: sp_add_flags_af(s.sp, v1, s.af),
            ..cyc(fetched(s, 1), 1)
        }
    } else if op == 0xF9 {
        CpuRegs { sp: s.hl, ..cyc(s, 1) }
    } else if op == 0xF3 {
        CpuRegs { ime: false, ..s }
    } else if op == 0xFB {
        CpuRegs { ime_scheduled: true, ..s }
    } else {
        s
    }
}

/// The INC r / DEC r opcodes step as `step_incdec8` says.
proof fn lemma_step_incdec8(s: CpuRegs, op: u8, v1: u8)
    requires
        op < 0x40 && (op % 8 == 4 || op % 8 == 5),
    ensures
        step(s, op, v1, 0, 0, false) == step_incdec8(s, op, v1),
{
}

/// Every instruction but DI leaves IME as it is (RETI, like EI, only
/// schedules it).
#[verifier::spinoff_prover]
#[verifier::rlimit(50)]
pub proof fn lemma_step_keeps_ime(s: CpuRegs, op: u8, v1: u8, v2: u8, v3: u8, p: bool)
    requires
        op != 0xF3,
    ensures
        step(s, op, v1, v2, v3, p).ime == s.ime,
{
    if op < 0x40 {
        assert(step_low(s, op, v1, v2).ime == s.ime);
    } else if op < 0x80 {
        assert(step_ld(s, op, v1, p).ime == s.ime);
    } else if op < 0xC0 {
        assert(step_alu(s, op, v1).ime == s.ime);
    } else {
        assert(step_high(s, op, v1, v2, v3).ime == s.ime);
    }
}

/// EI takes effect one instruction late: right after it IME is as before,
/// and once the next instruction (unless it is DI) has run, IME is set.
pub proof fn lemma_ei_delay(s: CpuRegs, op: u8, cb: u8, v1: u8, v2: u8, v3: u8, p: bool)
    requires
        op != 0xF3,
    ensures
        step(s, 0xFB, 0, 0, 0, false).ime == s.ime,
        executed(step(s, 0xFB, 0, 0, 0, false), op, cb, v1, v2, v3, p).ime,
{
    let s1 = step(s, 0xFB, 0, 0, 0, false);
    assert(s1.ime_scheduled);
    let s0 = CpuRegs { ime_scheduled: false, ime: true, ..s1 };
    let f = fetched(s0, 1);
    let s2 = if s1.haltbug {
        CpuRegs { pc: wrap16(f.pc - 1), haltbug: false, ..f }
    } else {
        f
    };
    assert(s2.ime);
    if op == 0xCB {
        assert(cb_step(fetched(s2, 1), cb, v1).ime);
    } else {
        lemma_step_keeps_ime(s2, op, v1, v2, v3, p);
    }
}

/// POP undoes PUSH: when POP reads back the two bytes PUSH stored (low
/// byte first), the pair and SP are as before; F keeps only its flag bits.
#[verifier::spinoff_prover]
#[verifier::rlimit(100)]
pub proof fn lemma_push_pop(s: CpuRegs, push: u8)
    requires
        push == 0xC5 || push == 0xD5 || push == 0xE5 || push == 0xF5,
    ensures
        ({
            let pair = if push == 0xC5 {
                s.bc
            } else if push == 0xD5 {
                s.de
            } else if push == 0xE5 {
                s.hl
            } else {
                s.af
            };
            let t = step(s, push, 0, 0, 0, false);
            let u = step(t, (push - 4) as u8, lo_of(pair), hi_of(pair), 0, false);
            &&& u.sp == s.sp
            &&& u.pc == s.pc
            &&& u.af == ((s.af / 16) * 16) as u16
            &&& push != 0xF5 ==> u.bc == s.bc && u.de == s.de && u.hl == s.hl
            &&& push == 0xF5 ==> u.bc == s.bc && u.de == s.de && u.hl == s.hl
        }),
{
    let pair = if push == 0xC5 {
        s.bc
    } else if push == 0xD5 {
        s.de
    } else if push == 0xE5 {
        s.hl
    } else {
        s.af
    };
    registers::lemma_word_roundtrip(pair);
    let t = step(s, push, 0, 0, 0, false);
    assert(t == step_high(s, push, 0, 0, 0));
    assert(t == CpuRegs { sp: wrap16(s.sp - 2), ..cyc(s, 3) });
    let pop = (push - 4) as u8;
    let u = step(t, pop, lo_of(pair), hi_of(pair), 0, false);
    assert(u == step_high(t, pop, lo_of(pair), hi_of(pair), 0));
    assert(wrap16(wrap16(s.sp - 2) + 2) == s.sp);
}

/// RET undoes CALL: when RET reads back the return address CALL pushed,
/// execution continues after the CALL with SP as before.
proof fn lemma_wrap_back(x: u16)
    ensures
        wrap16(wrap16(x - 2) + 2) == x,
{
}

proof fn lemma_call_step(s: CpuRegs, lo: u8, hi: u8)
    ensures
        step(s, 0xCD, lo, hi, 0, false) == (CpuRegs {
            pc: word_of(hi, lo),
            sp: wrap16(s.sp - 2),
            ..cyc(fetched(s, 2), 3)
        }),
{
    assert(step(s, 0xCD, lo, hi, 0, false) == step_high(s, 0xCD, lo, hi, 0));
}

proof fn lemma_ret_step(t: CpuRegs, lo: u8, hi: u8)
    ensures
        step(t, 0xC9, lo, hi, 0, false) == (CpuRegs {
            pc: word_of(hi, lo),
            sp: wrap16(t.sp + 2),
            ..cyc(t, 3)
        }),
{
    assert(step(t, 0xC9, lo, hi, 0, false) == step_high(t, 0xC9, lo, hi, 0));
}

/// RET undoes CALL: when RET reads back the return address CALL pushed,
/// execution continues after the CALL with SP as before.
pub proof fn lemma_call_ret(s: CpuRegs, lo: u8, hi: u8)
    ensures
        ({
            let t = step(s, 0xCD, lo, hi, 0, false);
            let ret = wrap16(s.pc + 2);
            let u = step(t, 0xC9, lo_of(ret), hi_of(ret), 0, false);
            &&& t.pc == word_of(hi, lo)
            &&& u.pc == ret
            &&& u.sp == s.sp
        }),
{
    let ret = wrap16(s.pc + 2);
    registers::lemma_word_roundtrip(ret);
    lemma_call_step(s, lo, hi);
    let t = step(s, 0xCD, lo, hi, 0, false);
    lemma_ret_step(t, lo_of(ret), hi_of(ret));
    lemma_wrap_back(s.sp);
}

/// The result and carry of the CB-prefixed shift or rotate `kind` (RLC,
/// RRC, RL, RR, SLA, SRA, SWAP, SRL) of `v`, with the old carry `c`.
pub open spec fn shifted(kind: u8, v: u8, c: bool) -> (u8, bool) {
    if kind == 0 {
        (((v as int * 2) % 256 + v / 128) as u8, v >= 128)
    } else if kind == 1 {
        ((v / 2 + 128 * (v % 2)) as u8, v % 2 == 1)
    } else if kind == 2 {
        (((v as int * 2) % 256 + (if c { 1int } else { 0 })) as u8, v >= 128)
    } else if kind == 3 {
        ((v / 2 + (if c { 128int } else { 0 })) as u8, v % 2 == 1)
    } else if kind == 4 {
        (((v as int * 2) % 256) as u8, v >= 128)
    } else if kind == 5 {
        ((v / 2 + (v / 128) * 128) as u8, v % 2 == 1)
    } else if kind == 6 {
        (((v % 16) * 16 + v / 16) as u8, false)
    } else {
        ((v / 2) as u8, v % 2 == 1)
    }
}

/// The registers after the CB-prefixed instruction `cb`; `m` is the byte
/// read at (HL) when the operand is (HL).
pub open spec fn cb_step(s: CpuRegs, cb: u8, m: u8) -> CpuRegs {
    let idx = cb % 8;
    let v = r8_of(s, idx, m);
    let n = (cb / 8) % 8;
    let t = if idx == 6 {
        cyc(s, 1)
    } else {
        s
    };
    if cb < 0x40 {
        let (r, c) = shifted(cb / 8, v, flag_c(lo_of(s.af)));
        let u = CpuRegs { af: shift_flags_af(s.af, r, c), ..t };
        if idx == 6 {
            cyc(u, 1)
        } else {
            with_r8(u, idx, r)
        }
    } else if cb < 0x80 {
        CpuRegs {
            af: af_with(s.af, hi_of(s.af), !bit_of(v, n), false, true, flag_c(lo_of(s.af))),
            ..t
        }
    } else {
        let r = if cb < 0xC0 {
            (if bit_of(v, n) { v - bit_weight(n) } else { v as int }) as u8
        } else {
            (if bit_of(v, n) { v as int } else { v + bit_weight(n) }) as u8
        };
        if idx == 6 {
            cyc(t, 1)
        } else {
            with_r8(t, idx, r)
        }
    }
}

/// The registers once the opcode at PC is fetched: a scheduled EI takes
/// effect first, and the fetch moves PC on unless the HALT bug holds it
/// back.
pub open spec fn decoded(s: CpuRegs) -> CpuRegs {
    let s0 = if s.ime_scheduled {
        CpuRegs { ime_scheduled: false, ime: true, ..s }
    } else {
        s
    };
    let s1 = fetched(s0, 1);
    if s.haltbug {
        CpuRegs { pc: wrap16(s1.pc - 1), haltbug: false, ..s1 }
    } else {
        s1
    }
}

/// The registers after an instruction fetched as `op` (and `cb` after a
/// 0xCB prefix) from state `s`.
pub open spec fn executed(s: CpuRegs, op: u8, cb: u8, v1: u8, v2: u8, v3: u8, pending: bool) -> CpuRegs {
    let s2 = decoded(s);
    if op == 0xCB {
        cb_step(fetched(s2, 1), cb, v1)
    } else {
        step(s2, op, v1, v2, v3, pending)
    }
}

/// The address that LD (BC)/(DE)/(HL+)/(HL-) and their loads use.
pub open spec fn indirect_addr(s: CpuRegs, op: u8) -> u16 {
    if op / 16 == 0 {
        s.bc
    } else if op / 16 == 1 {
        s.de
    } else {
        s.hl
    }
}

/// The address on the I/O page at offset `n`.
pub open spec fn io_addr(n: u8) -> u16 {
    (0xFF00 + n) as u16
}

/// Whether the conditional RET, JP or CALL `op` is taken.
pub open spec fn taken(s: CpuRegs, op: u8) -> bool {
    op == 0xC9 || op == 0xD9 || op == 0xC3 || op == 0xCD || cond_holds(s, op)
}

/// The addresses that the unprefixed instruction `op` reads after its
/// opcode, in order, from state `s` (PC at the first operand); `v1` and
/// `v2` are the first two bytes read.
pub open spec fn step_reads(s: CpuRegs, op: u8, v1: u8, v2: u8) -> Seq<u16> {
    let lo = op % 16;
    let pc1 = wrap16(s.pc + 1);
    let sp1 = wrap16(s.sp + 1);
    if op == 0x18 || op == 0x20 || op == 0x28 || op == 0x30 || op == 0x38 {
        seq![s.pc]
    } else if op < 0x40 && (lo == 1 || op == 0x08) {
        seq![s.pc, pc1]
    } else if op < 0x40 && lo == 0xA {
        seq![indirect_addr(s, op)]
    } else if op < 0x40 && (op % 8 == 4 || op % 8 == 5) && op / 8 == 6 {
        seq![s.hl]
    } else if op < 0x40 && op % 8 == 6 {
        seq![s.pc]
    } else if 0x40 <= op < 0xC0 && op != 0x76 && op % 8 == 6 {
        seq![s.hl]
    } else if op == 0xC0 || op == 0xC8 || op == 0xD0 || op == 0xD8 || op == 0xC9 || op == 0xD9 {
        if taken(s, op) {
            seq![s.sp, sp1]
        } else {
            seq![]
        }
    } else if op == 0xC2 || op == 0xD2 || op == 0xCA || op == 0xDA || op == 0xC3 || op == 0xC4
        || op == 0xD4 || op == 0xCC || op == 0xDC || op == 0xCD || op == 0xEA {
        seq![s.pc, pc1]
    } else if op >= 0xC0 && lo == 1 {
        seq![s.sp, sp1]
    } else if op >= 0xC0 && (lo == 6 || lo == 0xE) || op == 0xE0 || op == 0xE8 || op == 0xF8 {
        seq![s.pc]
    } else if op == 0xF0 {
        seq![s.pc, io_addr(v1)]
    } else if op == 0xF2 {
        seq![io_addr(lo_of(s.bc))]
    } else if op == 0xFA {
        seq![s.pc, pc1, word_of(v2, v1)]
    } else {
        seq![]
    }
}

/// The writes (address, byte) of the unprefixed instruction `op`, in
/// order, from state `s` (PC at the first operand) with `v1`, `v2` the
/// bytes it read.
pub open spec fn step_writes(s: CpuRegs, op: u8, v1: u8, v2: u8) -> Seq<(u16, u8)> {
    let lo = op % 16;
    let a = hi_of(s.af);
    let sp1 = wrap16(s.sp - 1);
    let sp2 = wrap16(s.sp - 2);
    if op < 0x40 && lo == 2 {
        seq![(indirect_addr(s, op), a)]
    } else if op < 0x40 && op % 8 == 4 && op / 8 == 6 {
        seq![(s.hl, ((v1 + 1) % 256) as u8)]
    } else if op < 0x40 && op % 8 == 5 && op / 8 == 6 {
        seq![(s.hl, ((v1 + 255) % 256) as u8)]
    } else if op == 0x36 {
        seq![(s.hl, v1)]
    } else if op == 0x08 {
        let w = word_of(v2, v1);
        seq![(w, lo_of(s.sp)), (wrap16(w + 1), hi_of(s.sp))]
    } else if 0x70 <= op < 0x78 && op != 0x76 {
        seq![(s.hl, r8_of(s, op % 8, v1))]
    } else if (op == 0xC4 || op == 0xD4 || op == 0xCC || op == 0xDC || op == 0xCD) && taken(
        s,
        op,
    ) {
        let r = wrap16(s.pc + 2);
        seq![(sp1, hi_of(r)), (sp2, lo_of(r))]
    } else if op >= 0xC0 && op % 8 == 7 {
        seq![(sp1, hi_of(s.pc)), (sp2, lo_of(s.pc))]
    } else if op >= 0xC0 && lo == 5 {
        let rr = if op == 0xC5 {
            s.bc
        } else if op == 0xD5 {
            s.de
        } else if op == 0xE5 {
            s.hl
        } else {
            s.af
        };
        seq![(sp1, hi_of(rr)), (sp2, lo_of(rr))]
    } else if op == 0xE0 {
        seq![(io_addr(v1), a)]
    } else if op == 0xE2 {
        seq![(io_addr(lo_of(s.bc)), a)]
    } else if op == 0xEA {
        seq![(word_of(v2, v1), a)]
    } else {
        seq![]
    }
}

/// The byte that the CB-prefixed instruction `cb` leaves in its operand
/// (`m` the byte read at (HL) when the operand is (HL)).
pub open spec fn cb_value(s: CpuRegs, cb: u8, m: u8) -> u8 {
    let v = r8_of(s, cb % 8, m);
    let n = (cb / 8) % 8;
    if cb < 0x40 {
        shifted(cb / 8, v, flag_c(lo_of(s.af))).0
    } else if cb < 0x80 {
        v
    } else if cb < 0xC0 {
        (if bit_of(v, n) { v - bit_weight(n) } else { v as int }) as u8
    } else {
        (if bit_of(v, n) { v as int } else { v + bit_weight(n) }) as u8
    }
}

/// The addresses a CB-prefixed instruction reads after its two opcode
/// bytes.
pub open spec fn cb_reads(s: CpuRegs, cb: u8) -> Seq<u16> {
    if cb % 8 == 6 {
        seq![s.hl]
    } else {
        seq![]
    }
}

/// The writes of a CB-prefixed instruction: the result back to (HL),
/// except for BIT.
pub open spec fn cb_writes(s: CpuRegs, cb: u8, m: u8) -> Seq<(u16, u8)> {
    if cb % 8 == 6 && !(0x40 <= cb < 0x80) {
        seq![(s.hl, cb_value(s, cb, m))]
    } else {
        seq![]
    }
}

/// The addresses an instruction fetched as `op` reads after the opcode:
/// the second opcode byte after a 0xCB prefix, then the operands.
pub open spec fn exec_reads(s: CpuRegs, op: u8, cb: u8, v1: u8, v2: u8) -> Seq<u16> {
    let s2 = decoded(s);
    if op == 0xCB {
        seq![s2.pc] + cb_reads(fetched(s2, 1), cb)
    } else {
        step_reads(s2, op, v1, v2)
    }
}

/// The bytes those reads gave.
pub open spec fn exec_values(op: u8, cb: u8, v1: u8, v2: u8, v3: u8) -> Seq<u8> {
    if op == 0xCB {
        seq![cb, v1]
    } else {
        seq![v1, v2, v3]
    }
}

/// The writes of an instruction fetched as `op`.
pub open spec fn exec_writes(s: CpuRegs, op: u8, cb: u8, v1: u8, v2: u8) -> Seq<(u16, u8)> {
    let s2 = decoded(s);
    if op == 0xCB {
        cb_writes(fetched(s2, 1), cb, v1)
    } else {
        step_writes(s2, op, v1, v2)
    }
}

/// The two writes of `d1` to `a1` and then `d2` to `a2`.
pub open spec fn two_writes(a1: u16, d1: u8, a2: u16, d2: u8) -> Seq<(u16, u8)> {
    seq![(a1, d1), (a2, d2)]
}

/// `new` is the memory `old` after a CPU write of `d` to `a`: taken when
/// the memory owns the address, else nothing changes there.
pub open spec fn mem_step(new: Memory, old: Memory, a: u16, d: u8) -> bool {
    if device_of(a) == Device::Memory {
        new.written(old, a, d)
    } else {
        new == old
    }
}

/// `new` is the memory `old` after the writes `ws` (at most two), in order.
pub open spec fn mem_after(new: Memory, old: Memory, ws: Seq<(u16, u8)>) -> bool {
    if ws.len() == 0 {
        new == old
    } else if ws.len() == 1 {
        mem_step(new, old, ws[0].0, ws[0].1)
    } else {
        exists|mid: Memory| mem_step(mid, old, ws[0].0, ws[0].1) && #[trigger] mem_step(new, mid, ws[1].0, ws[1].1)
    }
}

/// The bytes `vs` are what memory `m` holds at each read address `rs[i]`
/// that it owns.
pub open spec fn reads_agree(m: Memory, rs: Seq<u16>, vs: Seq<u8>) -> bool {
    forall|i: int|
        0 <= i < rs.len() && device_of(#[trigger] rs[i]) == Device::Memory ==> vs[i] == m.byte_at(rs[i])
}

/// Every read and write lies in high RAM or IE (0xFF80 - 0xFFFF).
pub open spec fn in_hram(rs: Seq<u16>, ws: Seq<(u16, u8)>) -> bool {
    &&& forall|i: int| 0 <= i < rs.len() ==> #[trigger] rs[i] >= 0xFF80
    &&& forall|i: int| 0 <= i < ws.len() ==> (#[trigger] ws[i]).0 >= 0xFF80
}

/// None of the writes `ws` starts a DMA transfer.
pub open spec fn no_dma_write(ws: Seq<(u16, u8)>) -> bool {
    forall|i: int| 0 <= i < ws.len() ==> (#[trigger] ws[i]).0 != DMA_REG
}

/// Work RAM (and its echo), high RAM and IE: memory that keeps what the
/// CPU writes.
pub open spec fn is_ram_addr(a: u16) -> bool {
    0xC000 <= a < 0xFE00 || a >= 0xFF80
}

/// The RAM cell that address `a` names (echo RAM names work RAM).
pub open spec fn ram_cell(a: u16) -> int {
    if a < 0xE000 {
        a - 0xC000
    } else if a < 0xFE00 {
        a - 0xE000
    } else {
        a as int
    }
}

/// A write to RAM is read back from the cell it wrote; the other cells
/// keep their bytes.
pub proof fn lemma_ram_write(m1: Memory, m0: Memory, a: u16, d: u8, b: u16)
    requires
        m0.wf(),
        mem_step(m1, m0, a, d),
        is_ram_addr(a),
        is_ram_addr(b),
    ensures
        m1.wf(),
        m1.byte_at(b) == (if ram_cell(b) == ram_cell(a) {
            d
        } else {
            m0.byte_at(b)
        }),
{
    assert(device_of(a) == Device::Memory);
}

/// Two consecutive stack slots name different RAM cells.
proof fn lemma_stack_cells(sp: u16)
    requires
        is_ram_addr(wrap16(sp - 1)),
        is_ram_addr(wrap16(sp - 2)),
    ensures
        ram_cell(wrap16(sp - 1)) != ram_cell(wrap16(sp - 2)),
        wrap16(wrap16(sp - 2) + 1) == wrap16(sp - 1),
{
}

/// The two bytes pushed at SP - 1 and SP - 2 read back from there.
proof fn lemma_pushed_bytes(m0: Memory, m1: Memory, sp: u16, hi: u8, lo: u8)
    requires
        m0.wf(),
        is_ram_addr(wrap16(sp - 1)),
        is_ram_addr(wrap16(sp - 2)),
        mem_after(m1, m0, two_writes(wrap16(sp - 1), hi, wrap16(sp - 2), lo)),
    ensures
        m1.byte_at(wrap16(sp - 2)) == lo,
        m1.byte_at(wrap16(sp - 1)) == hi,
{
    let ws = two_writes(wrap16(sp - 1), hi, wrap16(sp - 2), lo);
    let mid = choose|mid: Memory|
        mem_step(mid, m0, ws[0].0, ws[0].1) && #[trigger] mem_step(m1, mid, ws[1].0, ws[1].1);
    lemma_stack_cells(sp);
    lemma_ram_write(mid, m0, wrap16(sp - 1), hi, wrap16(sp - 1));
    lemma_ram_write(m1, mid, wrap16(sp - 2), lo, wrap16(sp - 2));
    lemma_ram_write(m1, mid, wrap16(sp - 2), lo, wrap16(sp - 1));
}

/// POP undoes PUSH through memory: with the stack in RAM, the bytes PUSH
/// writes are the ones POP reads back, so the pair and SP are as before
/// (F keeps only its flag bits).
pub proof fn lemma_push_pop_memory(s: CpuRegs, push: u8, m0: Memory, m1: Memory, v1: u8, v2: u8)
    requires
        push == 0xC5 || push == 0xD5 || push == 0xE5 || push == 0xF5,
        m0.wf(),
        is_ram_addr(wrap16(s.sp - 1)),
        is_ram_addr(wrap16(s.sp - 2)),
        mem_after(m1, m0, step_writes(s, push, 0, 0)),
        reads_agree(
            m1,
            step_reads(step(s, push, 0, 0, 0, false), (push - 4) as u8, v1, v2),
            seq![v1, v2, 0u8],
        ),
    ensures
        ({
            let pair = if push == 0xC5 {
                s.bc
            } else if push == 0xD5 {
                s.de
            } else if push == 0xE5 {
                s.hl
            } else {
                s.af
            };
            let u = step(step(s, push, 0, 0, 0, false), (push - 4) as u8, v1, v2, 0, false);
            &&& u.sp == s.sp
            &&& u.pc == s.pc
            &&& u.af == ((s.af / 16) * 16) as u16
            &&& push != 0xF5 ==> (u.bc == s.bc && u.de == s.de && u.hl == s.hl)
        }),
{
    let pair = if push == 0xC5 {
        s.bc
    } else if push == 0xD5 {
        s.de
    } else if push == 0xE5 {
        s.hl
    } else {
        s.af
    };
    let t = step(s, push, 0, 0, 0, false);
    assert(step_writes(s, push, 0, 0) == two_writes(
        wrap16(s.sp - 1),
        hi_of(pair),
        wrap16(s.sp - 2),
        lo_of(pair),
    ));
    lemma_pushed_bytes(m0, m1, s.sp, hi_of(pair), lo_of(pair));
    lemma_stack_cells(s.sp);
    assert(t.sp == wrap16(s.sp - 2));
    let rs = step_reads(t, (push - 4) as u8, v1, v2);
    assert(rs == seq![t.sp, wrap16(t.sp + 1)]);
    assert(rs[0] == wrap16(s.sp - 2) && device_of(rs[0]) == Device::Memory);
    assert(rs[1] == wrap16(s.sp - 1) && device_of(rs[1]) == Device::Memory);
    assert(v1 == lo_of(pair) && v2 == hi_of(pair));
    lemma_push_pop(s, push);
}

/// RET undoes CALL through memory: with the stack in RAM, RET reads back
/// the return address CALL pushed and continues after the CALL, with SP
/// as before.
pub proof fn lemma_call_ret_memory(s: CpuRegs, lo: u8, hi: u8, m0: Memory, m1: Memory, v1: u8, v2: u8)
    requires
        m0.wf(),
        is_ram_addr(wrap16(s.sp - 1)),
        is_ram_addr(wrap16(s.sp - 2)),
        mem_after(m1, m0, step_writes(s, 0xCD, lo, hi)),
        reads_agree(m1, step_reads(step(s, 0xCD, lo, hi, 0, false), 0xC9, v1, v2), seq![v1, v2, 0u8]),
    ensures
        ({
            let t = step(s, 0xCD, lo, hi, 0, false);
            let u = step(t, 0xC9, v1, v2, 0, false);
            &&& t.pc == word_of(hi, lo)
            &&& u.pc == wrap16(s.pc + 2)
            &&& u.sp == s.sp
        }),
{
    let ret = wrap16(s.pc + 2);
    let t = step(s, 0xCD, lo, hi, 0, false);
    assert(taken(s, 0xCD));
    assert(step_writes(s, 0xCD, lo, hi) == two_writes(
        wrap16(s.sp - 1),
        hi_of(ret),
        wrap16(s.sp - 2),
        lo_of(ret),
    ));
    lemma_pushed_bytes(m0, m1, s.sp, hi_of(ret), lo_of(ret));
    lemma_stack_cells(s.sp);
    lemma_call_step(s, lo, hi);
    assert(t.sp == wrap16(s.sp - 2));
    let rs = step_reads(t, 0xC9, v1, v2);
    assert(taken(t, 0xC9));
    assert(rs == seq![t.sp, wrap16(t.sp + 1)]);
    assert(rs[0] == wrap16(s.sp - 2) && device_of(rs[0]) == Device::Memory);
    assert(rs[1] == wrap16(s.sp - 1) && device_of(rs[1]) == Device::Memory);
    assert(v1 == lo_of(ret) && v2 == hi_of(ret));
    lemma_call_ret(s, lo, hi);
}

/// An instruction after a 0xCB prefix, seen from before the fetch: the
/// registers move as `executed` says, and the accesses are the second
/// opcode byte then those of `cb_step`.
proof fn lemma_exec_cb(o: Cpu, c2: Cpu, c3: Cpu, f: Cpu, cb: u8, m: u8)
    requires
        c2.regs() == decoded(o.regs()),
        c2.mem.mem == o.mem.mem,
        o.mem.quiet() ==> c2.mem.quiet(),
        c3.regs() == fetched(c2.regs(), 1),
        c3.mem.mem == c2.mem.mem,
        c2.mem.quiet() ==> c3.mem.quiet(),
        c2.mem.quiet() && device_of(c2.pc) == Device::Memory ==> cb == c2.mem.mem.byte_at(c2.pc),
        c2.pc >= 0xFF80 ==> cb == c2.mem.mem.byte_at(c2.pc),
        cb_step(c3.regs(), cb, m) == f.regs(),
        Cpu::accessed(f, c3, cb_reads(c3.regs(), cb), seq![m], cb_writes(c3.regs(), cb, m)),
    ensures
        executed(o.regs(), 0xCB, cb, m, 0, 0, false) == f.regs(),
        Cpu::accessed(
            f,
            o,
            exec_reads(o.regs(), 0xCB, cb, m, 0),
            exec_values(0xCB, cb, m, 0, 0),
            exec_writes(o.regs(), 0xCB, cb, m, 0),
        ),
{
    let s = o.regs();
    let rs = exec_reads(s, 0xCB, cb, m, 0);
    let vs = exec_values(0xCB, cb, m, 0, 0);
    let ws = exec_writes(s, 0xCB, cb, m, 0);
    let crs = cb_reads(c3.regs(), cb);
    assert(rs == seq![c2.pc] + crs);
    assert(vs == seq![cb, m]);
    if in_hram(rs, ws) {
        assert(in_hram(crs, ws)) by {
            assert forall|i: int| 0 <= i < crs.len() implies #[trigger] crs[i] >= 0xFF80 by {
                assert(rs[i + 1] == crs[i]);
            }
        }
        assert(rs[0] == c2.pc);
    }
    if (o.mem.quiet() && no_dma_write(ws)) || in_hram(rs, ws) {
        assert(reads_agree(o.mem.mem, rs, vs)) by {
            assert forall|i: int|
                0 <= i < rs.len() && device_of(#[trigger] rs[i]) == Device::Memory implies vs[i]
                    == o.mem.mem.byte_at(rs[i]) by {
                if i == 0 {
                    assert(rs[0] == c2.pc);
                } else {
                    assert(rs[i] == crs[i - 1]);
                    assert(seq![m][i - 1] == vs[i]);
                }
            }
        }
    }
}

/// An unprefixed instruction, seen from before the fetch: the registers
/// move as `executed` says, with the accesses of `step`.
proof fn lemma_exec_plain(o: Cpu, c2: Cpu, f: Cpu, op: u8, v1: u8, v2: u8, v3: u8, p: bool)
    requires
        op != 0xCB,
        c2.regs() == decoded(o.regs()),
        c2.mem.mem == o.mem.mem,
        o.mem.quiet() ==> c2.mem.quiet(),
        step(c2.regs(), op, v1, v2, v3, p) == f.regs(),
        Cpu::accessed(f, c2, step_reads(c2.regs(), op, v1, v2), seq![v1, v2, v3], step_writes(c2.regs(), op, v1, v2)),
    ensures
        executed(o.regs(), op, 0, v1, v2, v3, p) == f.regs(),
        Cpu::accessed(
            f,
            o,
            exec_reads(o.regs(), op, 0, v1, v2),
            exec_values(op, 0, v1, v2, v3),
            exec_writes(o.regs(), op, 0, v1, v2),
        ),
{
    let s = o.regs();
    assert(exec_reads(s, op, 0, v1, v2) == step_reads(c2.regs(), op, v1, v2));
    assert(exec_writes(s, op, 0, v1, v2) == step_writes(c2.regs(), op, v1, v2));
    assert(exec_values(op, 0, v1, v2, v3) == seq![v1, v2, v3]);
}

/// The lowest interrupt (0 - 4) that is both enabled and requested.
pub open spec fn first_interrupt(ie: u8, iflag: u8) -> Option<u8> {
    let m = ie & iflag;
    if m & 0x01 == 0x01 {
        Some(0u8)
    } else if m & 0x02 == 0x02 {
        Some(1u8)
    } else if m & 0x04 == 0x04 {
        Some(2u8)
    } else if m & 0x08 == 0x08 {
        Some(3u8)
    } else if m & 0x10 == 0x10 {
        Some(4u8)
    } else {
        None
    }
}

/// The registers after the interrupt dispatch read IE as `ie` and IF as
/// `iflag`: IME clears and the CPU wakes; the highest priority interrupt
/// pushes PC and jumps to its vector 0x40 + 8n.
pub open spec fn interrupted(s: CpuRegs, ie: u8, iflag: u8) -> CpuRegs {
    let t = CpuRegs { ime: false, is_running: true, ..cyc(s, 2) };
    match first_interrupt(ie, iflag) {
        Some(n) => CpuRegs { pc: (0x40 + 8 * n) as u16, sp: wrap16(s.sp - 2), ..cyc(t, 3) },
        None => t,
    }
}

/// The stack writes of an interrupt taken from `s`: PC, high byte first,
/// when an interrupt is serviced.
pub open spec fn interrupt_writes(s: CpuRegs, ie: u8, iflag: u8) -> Seq<(u16, u8)> {
    match first_interrupt(ie, iflag) {
        Some(_) => two_writes(wrap16(s.sp - 1), hi_of(s.pc), wrap16(s.sp - 2), lo_of(s.pc)),
        None => seq![],
    }
}

/// RL rotates left through the carry: bit 7 of the operand goes to C and
/// the old C comes in at bit 0; RR rotates right through the carry: bit 0
/// goes to C and the old C comes in at bit 7. Z tells whether the result is
/// 0; a register operand takes the result, an (HL) operand has it written
/// back to (HL).
pub proof fn law_cb_rotate_through_carry(s: CpuRegs, cb: u8, m: u8)
    requires
        0x10 <= cb < 0x20,
    ensures
        ({
            let idx = cb % 8;
            let v = r8_of(s, idx, m) as int;
            let c: int = if flag_c(lo_of(s.af)) { 1 } else { 0 };
            let r: int = if cb < 0x18 { (v * 2) % 256 + c } else { v / 2 + 128 * c };
            let after = cb_step(s, cb, m);
            &&& flag_c(lo_of(after.af)) == (if cb < 0x18 { v >= 128 } else { v % 2 == 1 })
            &&& flag_z(lo_of(after.af)) == (r == 0)
            &&& idx != 6 ==> r8_of(after, idx, 0) == r
            &&& idx == 6 ==> cb_writes(s, cb, m) == seq![(s.hl, r as u8)]
        }),
{
    let idx = cb % 8;
    let v = r8_of(s, idx, m);
    let cf = flag_c(lo_of(s.af));
    let (r, c) = shifted(cb / 8, v, cf);
    registers::lemma_make_flags(r == 0, false, false, c, lo_of(s.af));
    let f = make_flags(r == 0, false, false, c, lo_of(s.af));
    registers::lemma_bytes_roundtrip(hi_of(s.af), f);
    let t = if idx == 6 { cyc(s, 1) } else { s };
    let u = CpuRegs { af: shift_flags_af(s.af, r, c), ..t };
    registers::lemma_bytes_roundtrip(r, lo_of(u.af));
    registers::lemma_bytes_roundtrip(r, lo_of(u.bc));
    registers::lemma_bytes_roundtrip(r, lo_of(u.de));
    registers::lemma_bytes_roundtrip(r, lo_of(u.hl));
    registers::lemma_bytes_roundtrip(hi_of(u.bc), r);
    registers::lemma_bytes_roundtrip(hi_of(u.de), r);
    registers::lemma_bytes_roundtrip(hi_of(u.hl), r);
}

/// The other CB shifts and rotates, each on a register or on (HL):
/// RLC (0x00 - 0x07) rotates left with bit 7 going to C and to bit 0; RRC
/// (0x08 - 0x0F) rotates right with bit 0 going to C and to bit 7; SLA
/// (0x20 - 0x27) shifts left, bit 7 to C, 0 in; SRA (0x28 - 0x2F) shifts
/// right keeping bit 7, bit 0 to C; SWAP (0x30 - 0x37) exchanges the
/// nibbles and clears C; SRL (0x38 - 0x3F) shifts right, 0 in, bit 0 to C.
/// Z tells whether the result is 0.
pub proof fn law_cb_shifts(s: CpuRegs, cb: u8, m: u8)
    requires
        cb < 0x10 || 0x20 <= cb < 0x40,
    ensures
        ({
            let idx = cb % 8;
            let v = r8_of(s, idx, m) as int;
            let r: int = if cb < 0x08 {
                (v * 2) % 256 + v / 128
            } else if cb < 0x10 {
                v / 2 + 128 * (v % 2)
            } else if cb < 0x28 {
                (v * 2) % 256
            } else if cb < 0x30 {
                v / 2 + 128 * (v / 128)
            } else if cb < 0x38 {
                (v % 16) * 16 + v / 16
            } else {
                v / 2
            };
            let carry: bool = if cb < 0x08 || 0x20 <= cb < 0x28 {
                v >= 128
            } else if 0x30 <= cb < 0x38 {
                false
            } else {
                v % 2 == 1
            };
            let after = cb_step(s, cb, m);
            &&& flag_c(lo_of(after.af)) == carry
            &&& flag_z(lo_of(after.af)) == (r == 0)
            &&& idx != 6 ==> r8_of(after, idx, 0) == r
            &&& idx == 6 ==> cb_writes(s, cb, m) == seq![(s.hl, r as u8)]
        }),
{
    let idx = cb % 8;
    let v = r8_of(s, idx, m);
    let cf = flag_c(lo_of(s.af));
    let (r, c) = shifted(cb / 8, v, cf);
    registers::lemma_make_flags(r == 0, false, false, c, lo_of(s.af));
    let f = make_flags(r == 0, false, false, c, lo_of(s.af));
    registers::lemma_bytes_roundtrip(hi_of(s.af), f);
    let t = if idx == 6 { cyc(s, 1) } else { s };
    let u = CpuRegs { af: shift_flags_af(s.af, r, c), ..t };
    registers::lemma_bytes_roundtrip(r, lo_of(u.af));
    registers::lemma_bytes_roundtrip(r, lo_of(u.bc));
    registers::lemma_bytes_roundtrip(r, lo_of(u.de));
    registers::lemma_bytes_roundtrip(r, lo_of(u.hl));
    registers::lemma_bytes_roundtrip(hi_of(u.bc), r);
    registers::lemma_bytes_roundtrip(hi_of(u.de), r);
    registers::lemma_bytes_roundtrip(hi_of(u.hl), r);
}

/// An interrupt that is served jumps to its fixed vector: VBlank (IE & IF
/// bit 0) to 0x40, STAT (bit 1) to 0x48, timer (bit 2) to 0x50, serial
/// (bit 3) to 0x58, joypad (bit 4) to 0x60, the lowest set bit winning; the
/// return address goes two bytes down the stack. With no enabled request,
/// PC and SP stay.
pub proof fn law_interrupt_vectors(s: CpuRegs, ie: u8, iflag: u8)
    ensures
        ({
            let p = ie & iflag;
            let after = interrupted(s, ie, iflag);
            &&& p & 0x01 == 0x01 ==> after.pc == 0x40
            &&& p & 0x03 == 0x02 ==> after.pc == 0x48
            &&& p & 0x07 == 0x04 ==> after.pc == 0x50
            &&& p & 0x0F == 0x08 ==> after.pc == 0x58
            &&& p & 0x1F == 0x10 ==> after.pc == 0x60
            &&& p & 0x1F != 0 ==> after.sp == wrap16(s.sp - 2) && interrupt_writes(s, ie, iflag)
                == two_writes(wrap16(s.sp - 1), hi_of(s.pc), wrap16(s.sp - 2), lo_of(s.pc))
            &&& p & 0x1F == 0 ==> after.pc == s.pc && after.sp == s.sp
        }),
{
    let p = ie & iflag;
    assert((p & 0x03 == 0x02 ==> p & 0x01 != 0x01 && p & 0x02 == 0x02) && (p & 0x07 == 0x04 ==> p
        & 0x01 != 0x01 && p & 0x02 != 0x02 && p & 0x04 == 0x04) && (p & 0x0F == 0x08 ==> p & 0x01
        != 0x01 && p & 0x02 != 0x02 && p & 0x04 != 0x04 && p & 0x08 == 0x08) && (p & 0x1F == 0x10
        ==> p & 0x01 != 0x01 && p & 0x02 != 0x02 && p & 0x04 != 0x04 && p & 0x08 != 0x08 && p
        & 0x10 == 0x10) && (p & 0x1F == 0 ==> p & 0x01 != 0x01 && p & 0x02 != 0x02 && p & 0x04
        != 0x04 && p & 0x08 != 0x08 && p & 0x10 != 0x10) && (p & 0x1F != 0 ==> p & 0x01 == 0x01
        || p & 0x02 == 0x02 || p & 0x04 == 0x04 || p & 0x08 == 0x08 || p & 0x10 == 0x10))
        by (bit_vector);
}

impl Cpu {
    pub open spec fn regs(&self) -> CpuRegs {
        CpuRegs {
            af: self.reg.af,
            bc: self.reg.bc,
            de: self.reg.de,
            hl: self.reg.hl,
            pc: self.pc,
            sp: self.sp,
            ime: self.ime,
            ime_scheduled: self.ime_scheduled,
            is_running: self.is_running,
            haltbug: self.haltbug,
            cycles: self.curr_cycles,
        }
    }

    pub open spec fn wf(&self) -> bool {
        self.mem.wf()
    }

    /// An enabled interrupt is requested.
    pub open spec fn interrupt_requested(&self) -> bool {
        (self.mem.mem.i_enable & self.mem.io.ifired() & 0x1F) != 0
    }

    /// The registers once a requested interrupt has woken a halted CPU.
    pub open spec fn woken(&self) -> CpuRegs {
        CpuRegs { is_running: self.is_running || self.interrupt_requested(), ..self.regs() }
    }

    /// Room for the accesses still to come in this instruction.
    pub open spec fn has_budget(&self) -> bool {
        self.curr_cycles <= 2 * CYCLE_BUDGET
    }
    /// The interrupt dispatch that read IE as `ie` read IF as `iflag`, which
    /// holds every request standing before it; when it served interrupt `n`
    /// it wrote `iflag` with bit `n` cleared back to IF, then the devices ran
    /// the M-cycle of that write and the two pushes of PC took place (each
    /// with its M-cycle), so bit `n` is set afterwards only where a device
    /// requested it again in that time (or a push landed on IF); IF since
    /// the write only gained requests (unless a push landed on IF).
    pub open spec fn if_served(new: Cpu, old: Cpu, ie: u8, iflag: u8) -> bool {
        &&& iflag & old.mem.io.ifired() == old.mem.io.ifired()
        &&& match first_interrupt(ie, iflag) {
            Some(n) => {
                &&& exists|a: Bus, b: Bus|
                    #[trigger] Bus::cpu_wrote(b, a, IF_REG, iflag & !((1u8 << n) as u8))
                        && Bus::wrote_two(
                        new.mem,
                        b,
                        wrap16(old.sp - 1),
                        hi_of(old.pc),
                        wrap16(old.sp - 2),
                        lo_of(old.pc),
                    )
                &&& wrap16(old.sp - 1) != IF_REG && wrap16(old.sp - 2) != IF_REG ==> {
                    let w = (iflag & !((1u8 << n) as u8)) | 0xE0;
                    new.mem.io.ifired() & w == w
                }
            },
            None => new.mem.io.ifired() & iflag == iflag,
        }
    }

    /// `new` is `old` after the instruction at PC was fetched and run (as
    /// `execute` does).
    pub open spec fn instruction_done(new: Cpu, old: Cpu) -> bool {
        &&& new.instruction == old.mem.byte_at(old.pc)
        &&& exists|cb: u8, v1: u8, v2: u8, v3: u8, p: bool|
            #[trigger] executed(
                old.regs(),
                old.mem.byte_at(old.pc),
                cb,
                v1,
                v2,
                v3,
                p,
            ) == new.regs() && Cpu::accessed(
                new,
                old,
                exec_reads(old.regs(), old.mem.byte_at(old.pc), cb, v1, v2),
                exec_values(old.mem.byte_at(old.pc), cb, v1, v2, v3),
                exec_writes(old.regs(), old.mem.byte_at(old.pc), cb, v1, v2),
            )
        &&& old.mem.byte_at(old.pc) == 0x76 ==> new.regs() == executed(
            old.regs(),
            0x76,
            0,
            0,
            0,
            0,
            new.interrupt_requested(),
        )
    }

    /// `new` is `old` after the interrupt check that precedes each step (as
    /// `check_interrupts` does).
    pub open spec fn interrupts_checked(new: Cpu, old: Cpu) -> bool {
        &&& old.ime && old.interrupt_requested() ==> exists|iflag: u8|
            #[trigger] interrupted(old.woken(), old.mem.byte_at(0xFFFF), iflag)
                == new.regs() && Cpu::accessed(
                new,
                old,
                seq![],
                seq![],
                interrupt_writes(old.woken(), old.mem.byte_at(0xFFFF), iflag),
            ) && Cpu::if_served(new, old, old.mem.byte_at(0xFFFF), iflag)
        &&& !(old.ime && old.interrupt_requested()) ==> new.mem == old.mem
        &&& !(old.ime && old.interrupt_requested()) ==> new.regs()
            == old.woken()
    }

    /// `old` after one M-cycle in which the CPU does nothing: only the
    /// devices move, as `Bus::adv_cycles` says.
    pub open spec fn idled(new: Cpu, old: Cpu, cycles: usize) -> bool {
        &&& new == (Cpu { mem: new.mem, ..old })
        &&& Bus::advanced(new.mem, old.mem, cycles)
    }

    /// `self` after the cartridge clock ran `cycles` CPU cycles.
    pub open spec fn ticked(self, cycles: usize) -> Cpu {
        Cpu {
            mem: Bus { mem: Memory { mbc: self.mem.mem.mbc.after_cycles(cycles), ..self.mem.mem }, ..self.mem },
            ..self
        }
    }

    /// `new` is `old` after the window event `event` reached the joypad
    /// (a press on a selected line requests the joypad interrupt).
    pub open spec fn input_taken(new: Cpu, old: Cpu, event: Option<InputEvent>) -> bool {
        let j = old.mem.joypad.after_event(event);
        &&& new == (Cpu { mem: Bus { joypad: j, io: new.mem.io, ..old.mem }, ..old })
        &&& j.something_selected && j.high_to_low ==> new.mem.io.is_with_if(old.mem.io, old.mem.io.ifired() | 0xF0)
        &&& !(j.something_selected && j.high_to_low) ==> new.mem.io == old.mem.io
    }

    /// What one step does after the interrupt check and the clock tick that
    /// follows it (`c`): a running CPU runs the instruction at PC, unless
    /// it is illegal, a halted one lets one M-cycle pass; the cartridge
    /// clock then moves by the cycles spent.
    pub open spec fn step_run(new: Cpu, c: Cpu, r: StepOutcome) -> bool {
        if c.is_running {
            if is_illegal(c.mem.byte_at(c.pc)) {
                r == StepOutcome::Illegal && new == (Cpu { curr_cycles: 0, ..c })
            } else {
                r == StepOutcome::Ran && exists|d: Cpu|
                    #[trigger] Cpu::instruction_done(d, Cpu { curr_cycles: 0, ..c }) && new == d.ticked(
                        d.curr_cycles,
                    )
            }
        } else {
            r == StepOutcome::Ran && exists|d: Cpu|
                #[trigger] Cpu::idled(d, Cpu { curr_cycles: 4, ..c }, 4) && new == d.ticked(4)
        }
    }

    /// What one step does after the window event was handed on (`a`): the
    /// interrupt check (with the cycle count cleared), the clock tick for its
    /// cycles, then `step_run`.
    pub open spec fn step_after_input(new: Cpu, a: Cpu, r: StepOutcome) -> bool {
        exists|b: Cpu|
            #[trigger] Cpu::interrupts_checked(b, Cpu { curr_cycles: 0, ..a }) && Cpu::step_run(
                new,
                b.ticked(b.curr_cycles),
                r,
            )
    }

    /// The fields outside the register file stay.
    pub open spec fn rest_same(&self, old: Cpu) -> bool {
        self.instruction == old.instruction && self.cb_instruction == old.cb_instruction
    }

    /// `new` ran the unprefixed instruction `op` from `old`, for some values
    /// of the bytes it read, with the memory accesses `step_reads` and
    /// `step_writes` name. HALT reads nothing and touches nothing: whether it
    /// halts, or takes the HALT bug, follows from IE and IF as they stand.
    pub open spec fn stepped(new: Cpu, old: Cpu, op: u8) -> bool {
        &&& exists|v1: u8, v2: u8, v3: u8, p: bool|
            #[trigger] step(old.regs(), op, v1, v2, v3, p) == new.regs() && Cpu::accessed(
                new,
                old,
                step_reads(old.regs(), op, v1, v2),
                seq![v1, v2, v3],
                step_writes(old.regs(), op, v1, v2),
            )
        &&& op == 0x76 ==> new.regs() == step(old.regs(), op, 0, 0, 0, old.interrupt_requested())
            && new.mem == old.mem
        &&& Cpu::io_accessed(new, old, op)
    }

    /// The bus steps of the 8-bit loads and stores and of the ALU operations
    /// on A: LDH (n),A / LDH A,(n) / LD (C),A / LD A,(C) / LD (nn),A /
    /// LD A,(nn), LD (rr),A / LD A,(rr), LD r,r' with (HL) as source or
    /// target, ALU A,(HL), LD r,n / LD (HL),n and PUSH. Each read gives the byte the bus holds at that
    /// moment (wherever it lies: memory, an I/O register, VRAM or OAM), each
    /// M-cycle moves the devices as `Bus::advanced` says, and a store goes
    /// through `Bus::written`, so it reaches whichever device owns the
    /// address; the register-only forms leave the bus as it was.
    pub open spec fn io_accessed(new: Cpu, old: Cpu, op: u8) -> bool {
        let pc = old.pc;
        let a = hi_of(old.reg.af);
        if op == 0xE0 {
            exists|b1: Bus|
                #[trigger] Bus::advanced(b1, old.mem, 4) && Bus::cpu_wrote(
                    new.mem,
                    b1,
                    io_addr(old.mem.byte_at(pc)),
                    a,
                )
        } else if op == 0xF0 {
            exists|b1: Bus|
                #[trigger] Bus::advanced(b1, old.mem, 4) && Bus::advanced(new.mem, b1, 4) && hi_of(
                    new.reg.af,
                ) == b1.byte_at(io_addr(old.mem.byte_at(pc)))
        } else if op == 0xE2 {
            Bus::cpu_wrote(new.mem, old.mem, io_addr(lo_of(old.reg.bc)), a)
        } else if op == 0xF2 {
            Bus::advanced(new.mem, old.mem, 4) && hi_of(new.reg.af) == old.mem.byte_at(
                io_addr(lo_of(old.reg.bc)),
            )
        } else if op == 0xEA {
            exists|b1: Bus, b2: Bus|
                #![trigger Bus::advanced(b1, old.mem, 4), Bus::advanced(b2, b1, 4)]
                Bus::advanced(b1, old.mem, 4) && Bus::advanced(b2, b1, 4) && Bus::cpu_wrote(
                    new.mem,
                    b2,
                    word_of(b1.byte_at(wrap16(pc + 1)), old.mem.byte_at(pc)),
                    a,
                )
        } else if op == 0xFA {
            exists|b1: Bus, b2: Bus|
                #![trigger Bus::advanced(b1, old.mem, 4), Bus::advanced(b2, b1, 4)]
                Bus::advanced(b1, old.mem, 4) && Bus::advanced(b2, b1, 4) && Bus::advanced(
                    new.mem,
                    b2,
                    4,
                ) && hi_of(new.reg.af) == b2.byte_at(
                    word_of(b1.byte_at(wrap16(pc + 1)), old.mem.byte_at(pc)),
                )
        } else if op == 0x02 || op == 0x12 || op == 0x22 || op == 0x32 {
            Bus::cpu_wrote(new.mem, old.mem, indirect_addr(old.regs(), op), a)
        } else if op == 0x0A || op == 0x1A || op == 0x2A || op == 0x3A {
            Bus::advanced(new.mem, old.mem, 4) && hi_of(new.reg.af) == old.mem.byte_at(
                indirect_addr(old.regs(), op),
            )
        } else if 0x40 <= op < 0x80 && op != 0x76 {
            if op % 8 == 6 {
                Bus::advanced(new.mem, old.mem, 4) && new.regs() == step(
                    old.regs(),
                    op,
                    old.mem.byte_at(old.reg.hl),
                    0,
                    0,
                    false,
                )
            } else if (op / 8) % 8 == 6 {
                Bus::cpu_wrote(new.mem, old.mem, old.reg.hl, r8_of(old.regs(), op % 8, 0))
            } else {
                new.mem == old.mem
            }
        } else if 0x80 <= op < 0xC0 {
            if op % 8 == 6 {
                Bus::advanced(new.mem, old.mem, 4) && new.regs() == step(
                    old.regs(),
                    op,
                    old.mem.byte_at(old.reg.hl),
                    0,
                    0,
                    false,
                )
            } else {
                new.mem == old.mem
            }
        } else if op < 0x40 && op % 8 == 6 {
            if op == 0x36 {
                exists|b1: Bus|
                    #[trigger] Bus::advanced(b1, old.mem, 4) && Bus::cpu_wrote(
                        new.mem,
                        b1,
                        old.reg.hl,
                        old.mem.byte_at(pc),
                    )
            } else {
                Bus::advanced(new.mem, old.mem, 4) && new.regs() == step(
                    old.regs(),
                    op,
                    old.mem.byte_at(pc),
                    0,
                    0,
                    false,
                )
            }
        } else if op == 0xC5 || op == 0xD5 || op == 0xE5 || op == 0xF5 {
            let rr = if op == 0xC5 {
                old.reg.bc
            } else if op == 0xD5 {
                old.reg.de
            } else if op == 0xE5 {
                old.reg.hl
            } else {
                old.reg.af
            };
            exists|b1: Bus|
                #[trigger] Bus::advanced(b1, old.mem, 4) && Bus::wrote_two(
                    new.mem,
                    b1,
                    wrap16(old.sp - 1),
                    hi_of(rr),
                    wrap16(old.sp - 2),
                    lo_of(rr),
                )
        } else {
            true
        }
    }

    /// While no DMA transfer runs or is started, or when every access lies in
    /// high RAM and IE (which DMA never blocks), the reads `rs` gave the
    /// bytes `vs` wherever memory owns the address, and memory took the
    /// writes `ws`.
    pub open spec fn accessed(new: Cpu, old: Cpu, rs: Seq<u16>, vs: Seq<u8>, ws: Seq<(u16, u8)>) -> bool {
        &&& old.mem.quiet() && no_dma_write(ws) ==> new.mem.quiet() && reads_agree(
            old.mem.mem,
            rs,
            vs,
        ) && mem_after(new.mem.mem, old.mem.mem, ws)
        &&& in_hram(rs, ws) ==> reads_agree(old.mem.mem, rs, vs) && mem_after(
            new.mem.mem,
            old.mem.mem,
            ws,
        )
    }

    /// A CPU at power on, on a fresh bus: every register 0 (PC included;
    /// `dmg_init` moves PC to the entry point 0x0100 as the boot ROM leaves
    /// it).
    pub fn new() -> (c: Cpu)
        ensures
            c.wf(),
            c.regs() == (CpuRegs {
                af: 0,
                bc: 0,
                de: 0,
                hl: 0,
                pc: 0,
                sp: 0,
                ime: false,
                ime_scheduled: false,
                is_running: true,
                haltbug: false,
                cycles: 0,
            }),
            c.mem.is_power_on(),
            c.mem.quiet(),
            c.instruction == 0 && c.cb_instruction == 0xFFFF,
            c.mem.mem.mbc.is_plain(),
            !c.mem.oam_dma.in_transfer && c.mem.oam_dma.delay_cycles == 0,
    {
        Cpu {
            mem: Bus::new(),
            reg: Registers::new(),
            pc: 0x0000,
            sp: 0,
            curr_cycles: 0,
            ime: false,
            ime_scheduled: false,
            is_running: true,  // Controlled by halt
            haltbug: false,
            instruction: 0x00,
            cb_instruction: 0xFFFF,
        }
    }

    /// The state the DMG boot ROM hands over: registers set from the header
    /// checksum, SP at 0xFFFE, PC at the cartridge entry point 0x0100.
    pub fn dmg_init(&mut self, checksum: u8)
        requires
            old(self).wf(),
            !old(self).mem.oam_dma.in_transfer,
            old(self).mem.oam_dma.delay_cycles == 0,
        ensures
            final(self).wf(),
            final(self).regs() == (CpuRegs {
                af: if checksum == 0 { 0x0180u16 } else { 0x01B0u16 },
                bc: 0x0013,
                de: 0x00D8,
                hl: 0x014D,
                pc: 0x0100,
                sp: 0xFFFE,
                ..old(self).regs()
            }),
            final(self).mem.mem == (crate::memory::Memory { i_enable: 0, ..old(self).mem.mem }),
    {
        self.reg.dmg_init(checksum);
        self.mem.dmg_init();
        self.sp = 0xFFFE;
        self.pc = 0x0100;
    }

    pub fn set_mbc(&mut self, cart_mbc: Mbc)
        requires
            old(self).wf(),
            cart_mbc.wf(),
        ensures
            final(self).wf(),
            final(self).regs() == old(self).regs(),
            final(self).mem.mem.mbc == cart_mbc,
    {
        self.mem.set_mbc(cart_mbc);
    }

    /// Steps the bus (timer, serial port, PPU, DMA) by `cycles`.
    pub fn adv_cycles(&mut self, cycles: usize)
        requires
            old(self).wf(),
            cycles <= usize::MAX - MAX_VBLANK_CYCLES,
        ensures
            final(self).wf(),
            final(self).regs() == old(self).regs(),
            final(self).rest_same(*old(self)),
            final(self).mem.mem == old(self).mem.mem,
            final(self).mem.timer == crate::timer::advanced(old(self).mem.timer, cycles),
            old(self).mem.quiet() ==> final(self).mem.quiet(),
            final(self).mem.io.if_grown(old(self).mem.io),
            Cpu::idled(*final(self), *old(self), cycles),
    {
        self.mem.adv_cycles(cycles);
        proof {
            reveal(Bus::advanced);
        }
    }

    /// Lets `cycles` pass for the cartridge (the instruction's cycles): only
    /// the running clock of an MBC3 moves, and every address reads as
    /// before.
    pub fn tick_cartridge(&mut self, cycles: usize)
        requires
            old(self).wf(),
        ensures
            final(self).wf(),
            *final(self) == old(self).ticked(cycles),
            *final(self) == (Cpu { mem: final(self).mem, ..*old(self) }),
            final(self).mem == (Bus { mem: final(self).mem.mem, ..old(self).mem }),
            final(self).mem.mem == (Memory {
                mbc: old(self).mem.mem.mbc.after_cycles(cycles),
                ..old(self).mem.mem
            }),
            Mbc::clock_moved(final(self).mem.mem.mbc, old(self).mem.mem.mbc),
            forall|a: u16| #[trigger] final(self).mem.byte_at(a) == old(self).mem.byte_at(a),
    {
        self.mem.tick_cartridge(cycles);
    }

    /// One M-cycle in which the CPU touches no memory.
    pub fn internal_cycle(&mut self)
        requires
            old(self).wf(),
            old(self).has_budget(),
        ensures
            final(self).wf(),
            final(self).regs() == cyc(old(self).regs(), 1),
            final(self).rest_same(*old(self)),
            final(self).mem.mem == old(self).mem.mem,
            old(self).mem.quiet() ==> final(self).mem.quiet(),
            Bus::advanced(final(self).mem, old(self).mem, 4),
    {
        self.adv_cycles(4);
        self.curr_cycles = self.curr_cycles + 4;
    }

    fn read_addr(&mut self, addr: u16) -> (b: u8)
        requires
            old(self).wf(),
            old(self).has_budget(),
        ensures
            final(self).wf(),
            b == old(self).mem.byte_at(addr),
            final(self).regs() == cyc(old(self).regs(), 1),
            final(self).rest_same(*old(self)),
            final(self).mem.mem == old(self).mem.mem,
            old(self).mem.quiet() ==> final(self).mem.quiet(),
            old(self).mem.quiet() && device_of(addr) == Device::Memory ==> b == old(
                self,
            ).mem.mem.byte_at(addr),
            addr >= 0xFF80 ==> b == old(self).mem.mem.byte_at(addr),
            final(self).mem.io.if_grown(old(self).mem.io),
            Bus::advanced(final(self).mem, old(self).mem, 4),
    {
        let byte = self.mem.read_byte(addr);
        self.adv_cycles(4);
        self.curr_cycles = self.curr_cycles + 4;
        byte
    }

    fn write_byte(&mut self, addr: u16, data: u8)
        requires
            old(self).wf(),
            old(self).has_budget(),
        ensures
            final(self).wf(),
            final(self).regs() == cyc(old(self).regs(), 1),
            final(self).rest_same(*old(self)),
            old(self).mem.quiet() && addr != DMA_REG ==> final(self).mem.quiet() && mem_step(
                final(self).mem.mem,
                old(self).mem.mem,
                addr,
                data,
            ),
            addr >= 0xFF80 ==> mem_step(final(self).mem.mem, old(self).mem.mem, addr, data),
            device_of(addr) != Device::Memory ==> final(self).mem.mem == old(self).mem.mem,
            addr == IF_REG ==> final(self).mem.io.ifired() & (data | 0xE0) == data | 0xE0,
            addr != IF_REG ==> final(self).mem.io.ifired() & old(self).mem.io.ifired()
                == old(self).mem.io.ifired(),
            Bus::cpu_wrote(final(self).mem, old(self).mem, addr, data),
    {
        self.mem.write_byte(addr, data);
        let ghost m = self.mem;
        proof {
            Bus::lemma_written_if(self.mem, old(self).mem, addr, data);
        }
        self.adv_cycles(4);
        self.curr_cycles = self.curr_cycles + 4;
        assert(Bus::cpu_wrote(self.mem, old(self).mem, addr, data)) by {
            reveal(Bus::cpu_wrote);
            assert(Bus::written(m, old(self).mem, addr, data));
        }
    }

    fn read_pc(&mut self) -> (b: u8)
        requires
            old(self).wf(),
            old(self).has_budget(),
        ensures
            final(self).wf(),
            b == old(self).mem.byte_at(old(self).pc),
            final(self).regs() == fetched(old(self).regs(), 1),
            final(self).rest_same(*old(self)),
            final(self).mem.mem == old(self).mem.mem,
            old(self).mem.quiet() ==> final(self).mem.quiet(),
            old(self).mem.quiet() && device_of(old(self).pc) == Device::Memory ==> b == old(
                self,
            ).mem.mem.byte_at(old(self).pc),
            old(self).pc >= 0xFF80 ==> b == old(self).mem.mem.byte_at(old(self).pc),
            Bus::advanced(final(self).mem, old(self).mem, 4),
    {
        let byte = self.read_addr(self.pc);
        self.pc = self.pc.wrapping_add(1);
        byte
    }

    // Instructions that are 2 bytes long will call this method to get the next byte required
    fn read_byte(&mut self) -> (b: u8)
        requires
            old(self).wf(),
            old(self).has_budget(),
        ensures
            final(self).wf(),
            final(self).regs() == fetched(old(self).regs(), 1),
            final(self).rest_same(*old(self)),
            final(self).mem.mem == old(self).mem.mem,
            old(self).mem.quiet() ==> final(self).mem.quiet(),
            old(self).mem.quiet() && device_of(old(self).pc) == Device::Memory ==> b == old(
                self,
            ).mem.mem.byte_at(old(self).pc),
            old(self).pc >= 0xFF80 ==> b == old(self).mem.mem.byte_at(old(self).pc),
            b == old(self).mem.byte_at(old(self).pc),
            Bus::advanced(final(self).mem, old(self).mem, 4),
    {
        self.read_pc()
    }

    // Instructions that are 3 bytes long will call this method to get the next two bytes required
    // gameboy is little endian so the second byte is actually supposed to the higher order bits
    fn read_long(&mut self) -> (r: (u8, u8))
        requires
            old(self).wf(),
            old(self).curr_cycles <= CYCLE_BUDGET + 64,
        ensures
            final(self).wf(),
            final(self).regs() == fetched(old(self).regs(), 2),
            final(self).rest_same(*old(self)),
            final(self).mem.mem == old(self).mem.mem,
            old(self).mem.quiet() ==> final(self).mem.quiet(),
            old(self).mem.quiet() && device_of(old(self).pc) == Device::Memory ==> r.1 == old(
                self,
            ).mem.mem.byte_at(old(self).pc),
            old(self).mem.quiet() && device_of(wrap16(old(self).pc + 1)) == Device::Memory ==> r.0
                == old(self).mem.mem.byte_at(wrap16(old(self).pc + 1)),
            old(self).pc >= 0xFF80 ==> r.1 == old(self).mem.mem.byte_at(old(self).pc),
            wrap16(old(self).pc + 1) >= 0xFF80 ==> r.0 == old(self).mem.mem.byte_at(
                wrap16(old(self).pc + 1),
            ),
            exists|b1: Bus|
                #[trigger] Bus::advanced(b1, old(self).mem, 4) && Bus::advanced(final(self).mem, b1, 4)
                    && r.1 == old(self).mem.byte_at(old(self).pc) && r.0 == b1.byte_at(
                    wrap16(old(self).pc + 1),
                ),
    {
        let lo = self.read_pc();
        let ghost b1 = self.mem;
        let hi = self.read_pc();
        assert(Bus::advanced(b1, old(self).mem, 4));
        (hi, lo)
    }

    fn read_hl(&mut self) -> (b: u8)
        requires
            old(self).wf(),
            old(self).has_budget(),
        ensures
            final(self).wf(),
            b == old(self).mem.byte_at(old(self).reg.hl),
            final(self).regs() == cyc(old(self).regs(), 1),
            final(self).rest_same(*old(self)),
            final(self).mem.mem == old(self).mem.mem,
            old(self).mem.quiet() ==> final(self).mem.quiet(),
            old(self).mem.quiet() && device_of(old(self).reg.hl) == Device::Memory ==> b == old(
                self,
            ).mem.mem.byte_at(old(self).reg.hl),
            old(self).reg.hl >= 0xFF80 ==> b == old(self).mem.mem.byte_at(old(self).reg.hl),
            Bus::advanced(final(self).mem, old(self).mem, 4),
    {
        self.read_addr(self.reg.hl)
    }

    fn read_sp(&mut self) -> (b: u8)
        requires
            old(self).wf(),
            old(self).has_budget(),
        ensures
            final(self).wf(),
            final(self).regs() == cyc(old(self).regs(), 1),
            final(self).rest_same(*old(self)),
            final(self).mem.mem == old(self).mem.mem,
            old(self).mem.quiet() ==> final(self).mem.quiet(),
            old(self).mem.quiet() && device_of(old(self).sp) == Device::Memory ==> b == old(
                self,
            ).mem.mem.byte_at(old(self).sp),
            old(self).sp >= 0xFF80 ==> b == old(self).mem.mem.byte_at(old(self).sp),
    {
        self.read_addr(self.sp)
    }

    /// Writes a 16-bit value little endian (the address after 0xFFFF is 0).
    fn write_long(&mut self, addr: u16, reg: u16)
        requires
            old(self).wf(),
            old(self).curr_cycles <= CYCLE_BUDGET + 64,
        ensures
            final(self).wf(),
            final(self).regs() == cyc(old(self).regs(), 2),
            final(self).rest_same(*old(self)),
            old(self).mem.quiet() && addr != DMA_REG && wrap16(addr + 1) != DMA_REG ==> final(self).mem.quiet() && mem_after(
                final(self).mem.mem,
                old(self).mem.mem,
                two_writes(addr, lo_of(reg), wrap16(addr + 1), hi_of(reg)),
            ),
            addr >= 0xFF80 && wrap16(addr + 1) >= 0xFF80 ==> mem_after(
                final(self).mem.mem,
                old(self).mem.mem,
                two_writes(addr, lo_of(reg), wrap16(addr + 1), hi_of(reg)),
            ),
    {
        let ghost m0 = self.mem.mem;
        self.write_byte(addr, Registers::get_lo(reg));
        let ghost m1 = self.mem.mem;
        self.write_byte(addr.wrapping_add(1), Registers::get_hi(reg));
        proof {
            let ws = two_writes(addr, lo_of(reg), wrap16(addr + 1), hi_of(reg));
            if (old(self).mem.quiet() && addr != DMA_REG && wrap16(addr + 1) != DMA_REG) || (addr
                >= 0xFF80 && wrap16(addr + 1) >= 0xFF80) {
                assert(mem_step(m1, m0, ws[0].0, ws[0].1));
                assert(mem_step(self.mem.mem, m1, ws[1].0, ws[1].1));
            }
        }
    }

    fn stack_push(&mut self, value: u16)
        requires
            old(self).wf(),
            old(self).curr_cycles <= CYCLE_BUDGET + 64,
        ensures
            final(self).wf(),
            final(self).regs() == (CpuRegs { sp: wrap16(old(self).sp - 2), ..cyc(old(self).regs(), 2) }),
            final(self).rest_same(*old(self)),
            old(self).mem.quiet() && wrap16(old(self).sp - 1) != DMA_REG && wrap16(old(self).sp - 2)
                != DMA_REG ==> final(self).mem.quiet() && mem_after(
                final(self).mem.mem,
                old(self).mem.mem,
                two_writes(wrap16(old(self).sp - 1), hi_of(value), wrap16(old(self).sp - 2), lo_of(value)),
            ),
            wrap16(old(self).sp - 1) >= 0xFF80 && wrap16(old(self).sp - 2) >= 0xFF80 ==> mem_after(
                final(self).mem.mem,
                old(self).mem.mem,
                two_writes(wrap16(old(self).sp - 1), hi_of(value), wrap16(old(self).sp - 2), lo_of(value)),
            ),
            wrap16(old(self).sp - 1) != IF_REG && wrap16(old(self).sp - 2) != IF_REG
                ==> final(self).mem.io.ifired() & old(self).mem.io.ifired()
                == old(self).mem.io.ifired(),
            Bus::wrote_two(
                final(self).mem,
                old(self).mem,
                wrap16(old(self).sp - 1),
                hi_of(value),
                wrap16(old(self).sp - 2),
                lo_of(value),
            ),
    {
        let ghost m0 = self.mem.mem;
        let ghost f0 = self.mem.io.ifired();
        let ghost b0 = self.mem;
        self.sp = self.sp.wrapping_sub(1);
        self.write_byte(self.sp, Registers::get_hi(value));
        let ghost m1 = self.mem.mem;
        let ghost f1 = self.mem.io.ifired();
        let ghost b1 = self.mem;
        self.sp = self.sp.wrapping_sub(1);
        self.write_byte(self.sp, Registers::get_lo(value));
        assert(Bus::wrote_two(
            self.mem,
            b0,
            wrap16(old(self).sp - 1),
            hi_of(value),
            wrap16(old(self).sp - 2),
            lo_of(value),
        )) by {
            reveal(Bus::wrote_two);
            assert(Bus::cpu_wrote(b1, b0, wrap16(old(self).sp - 1), hi_of(value)));
        }
        proof {
            if wrap16(old(self).sp - 1) != IF_REG && wrap16(old(self).sp - 2) != IF_REG {
                lemma_bits_kept(f0, f1, self.mem.io.ifired());
            }
            let ws = two_writes(wrap16(old(self).sp - 1), hi_of(value), wrap16(old(self).sp - 2), lo_of(value));
            if (old(self).mem.quiet() && ws[0].0 != DMA_REG && ws[1].0 != DMA_REG) || (ws[0].0
                >= 0xFF80 && ws[1].0 >= 0xFF80) {
                assert(mem_step(m1, m0, ws[0].0, ws[0].1));
                assert(mem_step(self.mem.mem, m1, ws[1].0, ws[1].1));
            }
        }
    }

    fn stack_pop(&mut self) -> (w: u16)
        requires
            old(self).wf(),
            old(self).curr_cycles <= CYCLE_BUDGET + 64,
        ensures
            final(self).wf(),
            final(self).regs() == (CpuRegs { sp: wrap16(old(self).sp + 2), ..cyc(old(self).regs(), 2) }),
            final(self).rest_same(*old(self)),
            final(self).mem.mem == old(self).mem.mem,
            old(self).mem.quiet() ==> final(self).mem.quiet(),
            old(self).mem.quiet() && device_of(old(self).sp) == Device::Memory ==> lo_of(w) == old(
                self,
            ).mem.mem.byte_at(old(self).sp),
            old(self).mem.quiet() && device_of(wrap16(old(self).sp + 1)) == Device::Memory ==> hi_of(w)
                == old(self).mem.mem.byte_at(wrap16(old(self).sp + 1)),
            old(self).sp >= 0xFF80 ==> lo_of(w) == old(self).mem.mem.byte_at(old(self).sp),
            wrap16(old(self).sp + 1) >= 0xFF80 ==> hi_of(w) == old(self).mem.mem.byte_at(
                wrap16(old(self).sp + 1),
            ),
    {
        let lo = self.read_sp();
        self.sp = self.sp.wrapping_add(1);
        let hi = self.read_sp();
        self.sp = self.sp.wrapping_add(1);
        proof {
            registers::lemma_bytes_roundtrip(hi, lo);
        }
        alu::combine_bytes(hi, lo)
    }

    // Takes the lower 4 bits of the opcode and returns the value of the register
    fn get_reg_by_opcode(&mut self, opcode_lo: u8) -> (b: u8)
        requires
            old(self).wf(),
            old(self).curr_cycles <= CYCLE_BUDGET + 64,
            opcode_lo < 16,
        ensures
            final(self).wf(),
            b == r8_of(old(self).regs(), opcode_lo, b),
            opcode_lo % 8 == 6 ==> final(self).regs() == cyc(old(self).regs(), 1),
            opcode_lo % 8 != 6 ==> final(self).regs() == old(self).regs(),
            final(self).rest_same(*old(self)),
            final(self).mem.mem == old(self).mem.mem,
            old(self).mem.quiet() ==> final(self).mem.quiet(),
            old(self).mem.quiet() && opcode_lo % 8 == 6 && device_of(old(self).reg.hl)
                == Device::Memory ==> b == old(self).mem.mem.byte_at(old(self).reg.hl),
            opcode_lo % 8 == 6 && old(self).reg.hl >= 0xFF80 ==> b == old(self).mem.mem.byte_at(
                old(self).reg.hl,
            ),
            opcode_lo % 8 == 6 ==> b == old(self).mem.byte_at(old(self).reg.hl) && Bus::advanced(
                final(self).mem,
                old(self).mem,
                4,
            ),
            opcode_lo % 8 != 6 ==> final(self).mem == old(self).mem,
    {
        let i = opcode_lo % 8;
        if i == 0 {
            Registers::get_hi(self.reg.bc)
        } else if i == 1 {
            Registers::get_lo(self.reg.bc)
        } else if i == 2 {
            Registers::get_hi(self.reg.de)
        } else if i == 3 {
            Registers::get_lo(self.reg.de)
        } else if i == 4 {
            Registers::get_hi(self.reg.hl)
        } else if i == 5 {
            Registers::get_lo(self.reg.hl)
        } else if i == 6 {
            self.read_hl()
        } else {
            Registers::get_hi(self.reg.af)
        }
    }

    // Takes the lower 4 bits of the opcode and writes a value to the corresponding register
    fn write_reg_by_opcode(&mut self, opcode_lo: u8, val: u8)
        requires
            old(self).wf(),
            old(self).curr_cycles <= CYCLE_BUDGET + 64,
        ensures
            final(self).wf(),
            opcode_lo % 8 == 6 ==> final(self).regs() == cyc(old(self).regs(), 1),
            opcode_lo % 8 != 6 ==> final(self).regs() == with_r8(old(self).regs(), opcode_lo, val),
            final(self).rest_same(*old(self)),
            opcode_lo % 8 != 6 ==> final(self).mem == old(self).mem,
            opcode_lo % 8 == 6 && old(self).mem.quiet() && old(self).reg.hl != DMA_REG ==> final(self).mem.quiet() && mem_step(final(self).mem.mem, old(self).mem.mem, old(self).reg.hl, val),
            opcode_lo % 8 == 6 && old(self).reg.hl >= 0xFF80 ==> mem_step(
                final(self).mem.mem,
                old(self).mem.mem,
                old(self).reg.hl,
                val,
            ),
            opcode_lo % 8 == 6 ==> Bus::cpu_wrote(final(self).mem, old(self).mem, old(self).reg.hl, val),
    {
        let i = opcode_lo % 8;
        if i == 0 {
            self.reg.bc = Registers::set_hi(self.reg.bc, val);
        } else if i == 1 {
            self.reg.bc = Registers::set_lo(self.reg.bc, val);
        } else if i == 2 {
            self.reg.de = Registers::set_hi(self.reg.de, val);
        } else if i == 3 {
            self.reg.de = Registers::set_lo(self.reg.de, val);
        } else if i == 4 {
            self.reg.hl = Registers::set_hi(self.reg.hl, val);
        } else if i == 5 {
            self.reg.hl = Registers::set_lo(self.reg.hl, val);
        } else if i == 6 {
            self.write_byte(self.reg.hl, val);
        } else {
            self.reg.af = Registers::set_hi(self.reg.af, val);
        }
    }

    fn get_reg16_by_opcode(&self, opcode_hi: u8) -> (v: u16)
        requires
            opcode_hi < 4,
        ensures
            v == r16_of(self.regs(), opcode_hi),
    {
        if opcode_hi == 0 {
            self.reg.bc
        } else if opcode_hi == 1 {
            self.reg.de
        } else if opcode_hi == 2 {
            self.reg.hl
        } else {
            self.sp
        }
    }

    fn set_reg16_by_opcode(&mut self, opcode_hi: u8, v: u16)
        requires
            opcode_hi < 4,
        ensures
            final(self).regs() == with_r16(old(self).regs(), opcode_hi, v),
            final(self).mem == old(self).mem,
            final(self).rest_same(*old(self)),
    {
        if opcode_hi == 0 {
            self.reg.bc = v;
        } else if opcode_hi == 1 {
            self.reg.de = v;
        } else if opcode_hi == 2 {
            self.reg.hl = v;
        } else {
            self.sp = v;
        }
    }

    /// Whether the branch condition of `op` holds: NZ, Z, NC, C.
    fn eval_cond(&self, op: u8) -> (b: bool)
        ensures
            b == cond_holds(self.regs(), op),
    {
        let y = (op / 8) % 4;
        if y == 0 {
            !self.reg.get_z()
        } else if y == 1 {
            self.reg.get_z()
        } else if y == 2 {
            !self.reg.get_c()
        } else {
            self.reg.get_c()
        }
    }

    /// A = A op v for the arithmetic or logic operation `kind`.
    fn alu_op(&mut self, kind: u8, v: u8)
        ensures
            final(self).regs() == (CpuRegs { af: alu_af(kind, old(self).reg.af, v), ..old(self).regs() }),
            final(self).mem == old(self).mem,
            final(self).rest_same(*old(self)),
    {
        if kind == 0 {
            alu::a_add_r(&mut self.reg.af, v);
        } else if kind == 1 {
            alu::a_adc_r(&mut self.reg.af, v);
        } else if kind == 2 {
            alu::a_sub_r(&mut self.reg.af, v);
        } else if kind == 3 {
            alu::a_sbc_r(&mut self.reg.af, v);
        } else if kind == 4 {
            alu::a_and_r(&mut self.reg.af, v);
        } else if kind == 5 {
            alu::a_xor_r(&mut self.reg.af, v);
        } else if kind == 6 {
            alu::a_or_r(&mut self.reg.af, v);
        } else {
            alu::a_cp_r(&mut self.reg.af, v);
        }
    }

    #[verifier::spinoff_prover]
    #[verifier::rlimit(100)]
    fn exec_jr(&mut self, op: u8)
        requires
            old(self).wf(),
            old(self).curr_cycles <= CYCLE_BUDGET + 16,
            op == 0x18 || op == 0x20 || op == 0x28 || op == 0x30 || op == 0x38,
        ensures
            final(self).wf(),
            final(self).rest_same(*old(self)),
            Cpu::stepped(*final(self), *old(self), op),
    {
        // JR NZ/NC/C/Z, r8
        let r8 = self.read_byte();
        let cond = self.eval_cond(op);
        if op == 0x18 || cond {
            self.internal_cycle();
            let (result, _) = alu::reg_add_8bit_signed(self.pc, r8);
            self.pc = result;
        }
        assert(step(old(self).regs(), op, r8, 0, 0, false) == self.regs());
    }

    #[verifier::spinoff_prover]
    #[verifier::rlimit(100)]
    fn exec_ld16(&mut self, op: u8)
        requires
            old(self).wf(),
            old(self).curr_cycles <= CYCLE_BUDGET + 16,
            op == 0x01 || op == 0x11 || op == 0x21 || op == 0x31,
        ensures
            final(self).wf(),
            final(self).rest_same(*old(self)),
            Cpu::stepped(*final(self), *old(self), op),
    {
        // Load 16 bit immediate into BC/DE/HL/SP
        let (hi, lo) = self.read_long();
        let v = alu::combine_bytes(hi, lo);
        self.set_reg16_by_opcode(op / 16, v);
        assert(step(old(self).regs(), op, lo, hi, 0, false) == self.regs());
    }

    #[verifier::spinoff_prover]
    #[verifier::rlimit(100)]
    fn exec_store_a(&mut self, op: u8)
        requires
            old(self).wf(),
            old(self).curr_cycles <= CYCLE_BUDGET + 16,
            op == 0x02 || op == 0x12 || op == 0x22 || op == 0x32,
        ensures
            final(self).wf(),
            final(self).rest_same(*old(self)),
            Cpu::stepped(*final(self), *old(self), op),
    {
        // LD (BC)/(DE)/(HL+)/(HL-), A
        let str_val_a = Registers::get_hi(self.reg.af);
        let location = if op == 0x02 {
            self.reg.bc
        } else if op == 0x12 {
            self.reg.de
        } else if op == 0x22 {
            alu::post_incr(&mut self.reg.hl)
        } else {
            alu::post_decr(&mut self.reg.hl)
        };
        proof {
            let ws = step_writes(old(self).regs(), op, 0, 0);
            assert(location == indirect_addr(old(self).regs(), op));
            assert(ws == seq![(location, str_val_a)]);
            if no_dma_write(ws) {
                assert(ws[0].0 != DMA_REG);
            }
        }
        self.write_byte(location, str_val_a);
        assert(step(old(self).regs(), op, 0, 0, 0, false) == self.regs());
    }

    #[verifier::spinoff_prover]
    #[verifier::rlimit(100)]
    fn exec_load_a(&mut self, op: u8)
        requires
            old(self).wf(),
            old(self).curr_cycles <= CYCLE_BUDGET + 16,
            op == 0x0A || op == 0x1A || op == 0x2A || op == 0x3A,
        ensures
            final(self).wf(),
            final(self).rest_same(*old(self)),
            Cpu::stepped(*final(self), *old(self), op),
    {
        // LD A, (BC)/(DE)/(HL+)/(HL-)
        let location = if op == 0x0A {
            self.reg.bc
        } else if op == 0x1A {
            self.reg.de
        } else if op == 0x2A {
            alu::post_incr(&mut self.reg.hl)
        } else {
            alu::post_decr(&mut self.reg.hl)
        };
        let new_a_val = self.read_addr(location);
        self.reg.af = Registers::set_hi(self.reg.af, new_a_val);
        assert(step(old(self).regs(), op, new_a_val, 0, 0, false) == self.regs());
        proof {
            let s0 = old(self).regs();
            let rs = step_reads(s0, op, new_a_val, 0);
            let ws = step_writes(s0, op, new_a_val, 0);
            let vs = seq![new_a_val, 0u8, 0u8];
            assert(location == indirect_addr(s0, op));
            assert(rs == seq![location]);
            assert(ws.len() == 0);
            if old(self).mem.quiet() || in_hram(rs, ws) {
                assert(reads_agree(old(self).mem.mem, rs, vs)) by {
                    assert(rs[0] == location && vs[0] == new_a_val);
                }
            }
            assert(Cpu::accessed(*self, *old(self), rs, vs, ws));
        }
    }

    #[verifier::spinoff_prover]
    #[verifier::rlimit(100)]
    fn exec_incdec16(&mut self, op: u8)
        requires
            old(self).wf(),
            old(self).curr_cycles <= CYCLE_BUDGET + 16,
            op < 0x40 && (op % 16 == 3 || op % 16 == 0xB),
        ensures
            final(self).wf(),
            final(self).rest_same(*old(self)),
            Cpu::stepped(*final(self), *old(self), op),
    {
        // INC / DEC BC/DE/HL/SP
        let v = self.get_reg16_by_opcode(op / 16);
        let r = if op % 16 == 3 {
            v.wrapping_add(1)
        } else {
            v.wrapping_sub(1)
        };
        self.set_reg16_by_opcode(op / 16, r);
        self.internal_cycle();
        assert(step(old(self).regs(), op, 0, 0, 0, false) == self.regs());
    }

    #[verifier::spinoff_prover]
    #[verifier::rlimit(100)]
    fn exec_incdec8(&mut self, op: u8)
        requires
            old(self).wf(),
            old(self).curr_cycles <= CYCLE_BUDGET + 16,
            op < 0x40 && (op % 8 == 4 || op % 8 == 5),
        ensures
            final(self).wf(),
            final(self).rest_same(*old(self)),
            Cpu::stepped(*final(self), *old(self), op),
    {
        // INC / DEC B/C/D/E/H/L/(HL)/A
        let idx = op / 8;
        let v = self.get_reg_by_opcode(idx);
        let result = if op % 8 == 4 {
            alu::incr_8bit(v, &mut self.reg.af)
        } else {
            alu::decr_8bit(v, &mut self.reg.af)
        };
        self.write_reg_by_opcode(idx, result);
        assert(step_incdec8(old(self).regs(), op, v) == self.regs());
        proof {
            let s0 = old(self).regs();
            lemma_step_incdec8(s0, op, v);
            let rs = step_reads(s0, op, v, 0);
            let ws = step_writes(s0, op, v, 0);
            let vs = seq![v, 0u8, 0u8];
            if idx == 6 {
                assert(rs == seq![s0.hl]);
                assert(ws == seq![(s0.hl, result)]);
                if old(self).mem.quiet() && no_dma_write(ws) {
                    assert(ws[0].0 != DMA_REG);
                    assert(reads_agree(old(self).mem.mem, rs, vs)) by {
                        assert(rs[0] == s0.hl && vs[0] == v);
                    }
                }
            } else {
                assert(rs.len() == 0);
                assert(ws.len() == 0);
            }
            assert(Cpu::accessed(*self, *old(self), rs, vs, ws));
        }
    }

    #[verifier::spinoff_prover]
    #[verifier::rlimit(100)]
    fn exec_ld_d8(&mut self, op: u8)
        requires
            old(self).wf(),
            old(self).curr_cycles <= CYCLE_BUDGET + 16,
            op < 0x40 && op % 8 == 6,
        ensures
            final(self).wf(),
            final(self).rest_same(*old(self)),
            Cpu::stepped(*final(self), *old(self), op),
    {
        // LD B/C/D/E/H/L/(HL)/A, d8
        let ld_value = self.read_byte();
        let ghost b1 = self.mem;
        self.write_reg_by_opcode(op / 8, ld_value);
        assert(step(old(self).regs(), op, ld_value, 0, 0, false) == self.regs());
        proof {
            let s0 = old(self).regs();
            let rs = step_reads(s0, op, ld_value, 0);
            let ws = step_writes(s0, op, ld_value, 0);
            let vs = seq![ld_value, 0u8, 0u8];
            assert(rs == seq![s0.pc]);
            if old(self).mem.quiet() {
                assert(reads_agree(old(self).mem.mem, rs, vs)) by {
                    assert(rs[0] == s0.pc && vs[0] == ld_value);
                }
            }
            if op == 0x36 {
                assert(ws == seq![(s0.hl, ld_value)]);
                if no_dma_write(ws) {
                    assert(ws[0].0 != DMA_REG);
                }
            } else {
                assert(ws.len() == 0);
            }
            assert(Cpu::accessed(*self, *old(self), rs, vs, ws));
            assert(Bus::advanced(b1, old(self).mem, 4));
            assert(Cpu::io_accessed(*self, *old(self), op));
        }
    }

    #[verifier::spinoff_prover]
    #[verifier::rlimit(100)]
    fn exec_af_ops(&mut self, op: u8)
        requires
            old(self).wf(),
            old(self).curr_cycles <= CYCLE_BUDGET + 16,
            op == 0x07 || op == 0x17 || op == 0x0F || op == 0x1F || op == 0x27 || op == 0x2F || op == 0x37 || op == 0x3F,
        ensures
            final(self).wf(),
            final(self).rest_same(*old(self)),
            Cpu::stepped(*final(self), *old(self), op),
    {
        if op == 0x07 || op == 0x17 {
            // RLCA and RLA
            alu::rotate_left_a(op == 0x17, &mut self.reg);
        } else if op == 0x0F || op == 0x1F {
            // RRCA and RRA
            alu::rotate_right_a(op == 0x1F, &mut self.reg);
        } else if op == 0x27 {
            self.reg.af = alu::daa(&self.reg);
        } else if op == 0x2F {
            self.reg.af = alu::cpl(self.reg.af);
        } else if op == 0x37 {
            self.reg.af = alu::scf(self.reg.af);
        } else {
            self.reg.af = alu::ccf(self.reg.af);
        }
        assert(step(old(self).regs(), op, 0, 0, 0, false) == self.regs());
    }

    #[verifier::spinoff_prover]
    #[verifier::rlimit(100)]
    fn exec_store_sp(&mut self, op: u8)
        requires
            old(self).wf(),
            old(self).curr_cycles <= CYCLE_BUDGET + 16,
            op == 0x08,
        ensures
            final(self).wf(),
            final(self).rest_same(*old(self)),
            Cpu::stepped(*final(self), *old(self), op),
    {
        // LD (a16), SP
        let (hi, lo) = self.read_long();
        let imm16 = alu::combine_bytes(hi, lo);
        self.write_long(imm16, self.sp);
        assert(step(old(self).regs(), op, lo, hi, 0, false) == self.regs());
    }

    #[verifier::spinoff_prover]
    #[verifier::rlimit(100)]
    fn exec_add_hl(&mut self, op: u8)
        requires
            old(self).wf(),
            old(self).curr_cycles <= CYCLE_BUDGET + 16,
            op < 0x40 && op % 16 == 9,
        ensures
            final(self).wf(),
            final(self).rest_same(*old(self)),
            Cpu::stepped(*final(self), *old(self), op),
    {
        // ADD HL, rr
        let add_value = self.get_reg16_by_opcode(op / 16);
        alu::hl_add_rr(&mut self.reg.hl, add_value, &mut self.reg.af);
        self.internal_cycle();
        assert(step(old(self).regs(), op, 0, 0, 0, false) == self.regs());
    }

    #[verifier::spinoff_prover]
    #[verifier::rlimit(100)]
    fn exec_ld_r_r(&mut self, op: u8)
        requires
            old(self).wf(),
            old(self).curr_cycles <= CYCLE_BUDGET + 16,
            0x40 <= op < 0x80 && op != 0x76,
        ensures
            final(self).wf(),
            final(self).rest_same(*old(self)),
            Cpu::stepped(*final(self), *old(self), op),
    {
        // LD r, r' (B for 0x40 - 0x47, C for 0x48 - 0x4F, ..., A for 0x78 - 0x7F)
        let ld_value = self.get_reg_by_opcode(op % 8);
        self.write_reg_by_opcode((op / 8) % 8, ld_value);
        if op >= 0x60 && op < 0x70 {
            self.curr_cycles = if op % 8 == 6 { 8 } else { 4 };
        }
        assert(step(old(self).regs(), op, ld_value, 0, 0, false) == self.regs());
        proof {
            let s0 = old(self).regs();
            let rs = step_reads(s0, op, ld_value, 0);
            let ws = step_writes(s0, op, ld_value, 0);
            let vs = seq![ld_value, 0u8, 0u8];
            if op % 8 == 6 {
                assert(rs == seq![s0.hl]);
                if old(self).mem.quiet() {
                    assert(reads_agree(old(self).mem.mem, rs, vs)) by {
                        assert(rs[0] == s0.hl && vs[0] == ld_value);
                    }
                }
            } else {
                assert(rs.len() == 0);
            }
            if (op / 8) % 8 == 6 {
                assert(ws == seq![(s0.hl, ld_value)]);
                if no_dma_write(ws) {
                    assert(ws[0].0 != DMA_REG);
                }
            } else {
                assert(ws.len() == 0);
            }
            assert(Cpu::accessed(*self, *old(self), rs, vs, ws));
        }
    }

    #[verifier::spinoff_prover]
    #[verifier::rlimit(100)]
    fn exec_halt(&mut self, op: u8)
        requires
            old(self).wf(),
            old(self).curr_cycles <= CYCLE_BUDGET + 16,
            op == 0x76,
        ensures
            final(self).wf(),
            final(self).rest_same(*old(self)),
            Cpu::stepped(*final(self), *old(self), op),
    {
        // HALT
        let pending = self.mem.interrupt_pending();
        if self.ime {
            // Since ime is enabled interrupts will be serviced once we exit
            self.is_running = false;
        } else if !pending {
            // When the interrupts becomes pending we wont service them
            self.is_running = false;
        } else {
            // Dont enter halt and haltbug occurs
            self.is_running = true;
            self.haltbug = true;
        }
        assert(step(old(self).regs(), op, 0, 0, 0, pending) == self.regs());
        assert(pending == old(self).interrupt_requested());
    }

    #[verifier::spinoff_prover]
    #[verifier::rlimit(100)]
    fn exec_alu_r(&mut self, op: u8)
        requires
            old(self).wf(),
            old(self).curr_cycles <= CYCLE_BUDGET + 16,
            0x80 <= op < 0xC0,
        ensures
            final(self).wf(),
            final(self).rest_same(*old(self)),
            Cpu::stepped(*final(self), *old(self), op),
    {
        // A = A ADD/ADC/SUB/SBC/AND/XOR/OR/CP R
        let v = self.get_reg_by_opcode(op % 8);
        self.alu_op((op / 8) % 8, v);
        assert(step(old(self).regs(), op, v, 0, 0, false) == self.regs());
    }

    #[verifier::spinoff_prover]
    #[verifier::rlimit(100)]
    fn exec_alu_d8(&mut self, op: u8)
        requires
            old(self).wf(),
            old(self).curr_cycles <= CYCLE_BUDGET + 16,
            op >= 0xC0 && (op % 16 == 6 || op % 16 == 0xE),
        ensures
            final(self).wf(),
            final(self).rest_same(*old(self)),
            Cpu::stepped(*final(self), *old(self), op),
    {
        // A = A op d8
        let d8 = self.read_byte();
        self.alu_op((op / 8) % 8, d8);
        assert(step(old(self).regs(), op, d8, 0, 0, false) == self.regs());
    }

    #[verifier::spinoff_prover]
    #[verifier::rlimit(100)]
    fn exec_ret(&mut self, op: u8)
        requires
            old(self).wf(),
            old(self).curr_cycles <= CYCLE_BUDGET + 16,
            op == 0xC0 || op == 0xC8 || op == 0xD0 || op == 0xD8 || op == 0xC9 || op == 0xD9,
        ensures
            final(self).wf(),
            final(self).rest_same(*old(self)),
            Cpu::stepped(*final(self), *old(self), op),
    {
        // RET cc / RET / RETI
        let mut w: u16 = 0;
        if op == 0xC9 || op == 0xD9 {
            w = self.stack_pop();
            self.pc = w;
            self.internal_cycle();
            if op == 0xD9 {
                // Interrupts are enabled after the next instruction, as with EI
                self.ime_scheduled = true;
            }
        } else {
            let cond = self.eval_cond(op);
            self.internal_cycle();
            if cond {
                w = self.stack_pop();
                self.pc = w;
                self.internal_cycle();
            }
        }
        proof {
            registers::lemma_word_roundtrip(w);
        }
        assert(step(old(self).regs(), op, lo_of(w), hi_of(w), 0, false) == self.regs());
    }

    #[verifier::spinoff_prover]
    #[verifier::rlimit(100)]
    fn exec_jp(&mut self, op: u8)
        requires
            old(self).wf(),
            old(self).curr_cycles <= CYCLE_BUDGET + 16,
            op == 0xC2 || op == 0xD2 || op == 0xCA || op == 0xDA || op == 0xC3 || op == 0xE9,
        ensures
            final(self).wf(),
            final(self).rest_same(*old(self)),
            Cpu::stepped(*final(self), *old(self), op),
    {
        // JP (cc), a16 and JP HL
        if op == 0xE9 {
            self.pc = self.reg.hl;
            assert(step(old(self).regs(), op, 0, 0, 0, false) == self.regs());
        } else {
            let (hi, lo) = self.read_long();
            let cond = self.eval_cond(op);
            if op == 0xC3 || cond {
                self.internal_cycle();
                self.pc = alu::combine_bytes(hi, lo);
            }
            assert(step(old(self).regs(), op, lo, hi, 0, false) == self.regs());
        }
    }

    #[verifier::spinoff_prover]
    #[verifier::rlimit(100)]
    fn exec_call(&mut self, op: u8)
        requires
            old(self).wf(),
            old(self).curr_cycles <= CYCLE_BUDGET + 16,
            op == 0xC4 || op == 0xD4 || op == 0xCC || op == 0xDC || op == 0xCD,
        ensures
            final(self).wf(),
            final(self).rest_same(*old(self)),
            Cpu::stepped(*final(self), *old(self), op),
    {
        // CALL (cc), a16
        let (hi, lo) = self.read_long();
        let cond = self.eval_cond(op);
        if op == 0xCD || cond {
            self.internal_cycle();
            self.stack_push(self.pc);
            self.pc = alu::combine_bytes(hi, lo);
        }
        assert(step(old(self).regs(), op, lo, hi, 0, false) == self.regs());
    }

    #[verifier::spinoff_prover]
    #[verifier::rlimit(100)]
    fn exec_rst(&mut self, op: u8)
        requires
            old(self).wf(),
            old(self).curr_cycles <= CYCLE_BUDGET + 16,
            op >= 0xC0 && op % 8 == 7,
        ensures
            final(self).wf(),
            final(self).rest_same(*old(self)),
            Cpu::stepped(*final(self), *old(self), op),
    {
        // RST XXH
        self.internal_cycle();
        self.stack_push(self.pc);
        self.pc = (op - 0xC7) as u16;
        assert(step(old(self).regs(), op, 0, 0, 0, false) == self.regs());
    }

    #[verifier::spinoff_prover]
    #[verifier::rlimit(100)]
    fn exec_pop(&mut self, op: u8)
        requires
            old(self).wf(),
            old(self).curr_cycles <= CYCLE_BUDGET + 16,
            op == 0xC1 || op == 0xD1 || op == 0xE1 || op == 0xF1,
        ensures
            final(self).wf(),
            final(self).rest_same(*old(self)),
            Cpu::stepped(*final(self), *old(self), op),
    {
        // POP
        let w = self.stack_pop();
        if op == 0xC1 {
            self.reg.bc = w;
        } else if op == 0xD1 {
            self.reg.de = w;
        } else if op == 0xE1 {
            self.reg.hl = w;
        } else {
            self.reg.af = w;
        }
        let af = self.reg.af;
        assert(af & 0xFFF0 == (af / 16) * 16) by (bit_vector);
        self.reg.af = af & 0xFFF0;
        proof {
            registers::lemma_word_roundtrip(w);
        }
        assert(step(old(self).regs(), op, lo_of(w), hi_of(w), 0, false) == self.regs());
    }

    #[verifier::spinoff_prover]
    #[verifier::rlimit(100)]
    fn exec_push(&mut self, op: u8)
        requires
            old(self).wf(),
            old(self).curr_cycles <= CYCLE_BUDGET + 16,
            op == 0xC5 || op == 0xD5 || op == 0xE5 || op == 0xF5,
        ensures
            final(self).wf(),
            final(self).rest_same(*old(self)),
            Cpu::stepped(*final(self), *old(self), op),
    {
        // PUSH
        self.internal_cycle();
        let ghost b1 = self.mem;
        let v = if op == 0xC5 {
            self.reg.bc
        } else if op == 0xD5 {
            self.reg.de
        } else if op == 0xE5 {
            self.reg.hl
        } else {
            self.reg.af
        };
        self.stack_push(v);
        assert(step(old(self).regs(), op, 0, 0, 0, false) == self.regs());
        assert(Bus::advanced(b1, old(self).mem, 4));
        assert(Cpu::io_accessed(*self, *old(self), op));
    }

    #[verifier::spinoff_prover]
    #[verifier::rlimit(100)]
    fn exec_io(&mut self, op: u8)
        requires
            old(self).wf(),
            old(self).curr_cycles <= CYCLE_BUDGET + 16,
            op == 0xE0 || op == 0xF0 || op == 0xE2 || op == 0xF2 || op == 0xEA || op == 0xFA,
        ensures
            final(self).wf(),
            final(self).rest_same(*old(self)),
            Cpu::stepped(*final(self), *old(self), op),
    {
        // Reads and writes of the I/O page and of absolute addresses
        if op == 0xE0 || op == 0xF0 {
            let offset = self.read_byte();
            let ghost b1 = self.mem;
            let location = offset as u16 + 0xFF00;
            let ghost s0 = old(self).regs();
            assert(location == io_addr(offset));
            if op == 0xE0 {
                proof {
                    let ws = step_writes(s0, op, offset, 0);
                    assert(ws == seq![(location, hi_of(s0.af))]);
                    if no_dma_write(ws) {
                        assert(ws[0].0 != DMA_REG);
                    }
                }
                self.write_byte(location, Registers::get_hi(self.reg.af));
                assert(step(old(self).regs(), op, offset, 0, 0, false) == self.regs());
                proof {
                    let rs = step_reads(s0, op, offset, 0);
                    let vs = seq![offset, 0u8, 0u8];
                    assert(rs == seq![s0.pc]);
                    if old(self).mem.quiet() {
                        assert(reads_agree(old(self).mem.mem, rs, vs)) by {
                            assert(rs[0] == s0.pc && vs[0] == offset);
                        }
                    }
                    assert(Cpu::accessed(*self, *old(self), rs, vs, step_writes(s0, op, offset, 0)));
                    assert(Bus::advanced(b1, old(self).mem, 4));
                    assert(Cpu::io_accessed(*self, *old(self), op));
                }
            } else {
                let val = self.read_addr(location);
                self.reg.af = Registers::set_hi(self.reg.af, val);
                assert(step(old(self).regs(), op, offset, val, 0, false) == self.regs());
                proof {
                    let rs = step_reads(s0, op, offset, val);
                    let vs = seq![offset, val, 0u8];
                    assert(rs == seq![s0.pc, location]);
                    if old(self).mem.quiet() {
                        assert(reads_agree(old(self).mem.mem, rs, vs)) by {
                            assert(rs[0] == s0.pc && vs[0] == offset);
                            assert(rs[1] == location && vs[1] == val);
                        }
                    }
                    assert(step_writes(s0, op, offset, val).len() == 0);
                    assert(Cpu::accessed(*self, *old(self), rs, vs, step_writes(s0, op, offset, val)));
                    assert(Bus::advanced(b1, old(self).mem, 4));
                    assert(Cpu::io_accessed(*self, *old(self), op));
                }
            }
        } else if op == 0xE2 || op == 0xF2 {
            let offset = Registers::get_lo(self.reg.bc);
            let location = offset as u16 + 0xFF00;
            let ghost s0 = old(self).regs();
            assert(location == io_addr(lo_of(s0.bc)));
            if op == 0xE2 {
                proof {
                    let ws = step_writes(s0, op, 0, 0);
                    assert(ws == seq![(location, hi_of(s0.af))]);
                    if no_dma_write(ws) {
                        assert(ws[0].0 != DMA_REG);
                    }
                    assert(step_reads(s0, op, 0, 0).len() == 0);
                }
                self.write_byte(location, Registers::get_hi(self.reg.af));
                assert(step(old(self).regs(), op, 0, 0, 0, false) == self.regs());
                assert(Cpu::accessed(*self, *old(self), step_reads(s0, op, 0, 0), seq![0u8, 0u8, 0u8], step_writes(s0, op, 0, 0)));
            } else {
                let val = self.read_addr(location);
                self.reg.af = Registers::set_hi(self.reg.af, val);
                assert(step(old(self).regs(), op, val, 0, 0, false) == self.regs());
                proof {
                    let rs = step_reads(s0, op, val, 0);
                    let vs = seq![val, 0u8, 0u8];
                    assert(rs == seq![location]);
                    if old(self).mem.quiet() {
                        assert(reads_agree(old(self).mem.mem, rs, vs)) by {
                            assert(rs[0] == location && vs[0] == val);
                        }
                    }
                    assert(step_writes(s0, op, val, 0).len() == 0);
                    assert(Cpu::accessed(*self, *old(self), rs, vs, step_writes(s0, op, val, 0)));
                }
            }
        } else {
            //ld (nn), A     and     ld A, (nn)
            let (hi, lo) = self.read_long();
            let ghost b2 = self.mem;
            let ghost b1 = choose|b1: Bus|
                #[trigger] Bus::advanced(b1, old(self).mem, 4) && Bus::advanced(b2, b1, 4) && lo
                    == old(self).mem.byte_at(old(self).pc) && hi == b1.byte_at(wrap16(old(self).pc + 1));
            let location = alu::combine_bytes(hi, lo);
            let ghost s0 = old(self).regs();
            if op == 0xEA {
                proof {
                    let ws = step_writes(s0, op, lo, hi);
                    assert(ws == seq![(location, hi_of(s0.af))]);
                    if no_dma_write(ws) {
                        assert(ws[0].0 != DMA_REG);
                    }
                }
                self.write_byte(location, Registers::get_hi(self.reg.af));
                assert(step(old(self).regs(), op, lo, hi, 0, false) == self.regs());
                proof {
                    let rs = step_reads(s0, op, lo, hi);
                    let vs = seq![lo, hi, 0u8];
                    assert(rs == seq![s0.pc, wrap16(s0.pc + 1)]);
                    if old(self).mem.quiet() {
                        assert(reads_agree(old(self).mem.mem, rs, vs)) by {
                            assert(rs[0] == s0.pc && vs[0] == lo);
                            assert(rs[1] == wrap16(s0.pc + 1) && vs[1] == hi);
                        }
                    }
                    assert(Cpu::accessed(*self, *old(self), rs, vs, step_writes(s0, op, lo, hi)));
                    assert(Bus::advanced(b1, old(self).mem, 4) && Bus::advanced(b2, b1, 4));
                    assert(Cpu::io_accessed(*self, *old(self), op));
                }
            } else {
                let val = self.read_addr(location);
                self.reg.af = Registers::set_hi(self.reg.af, val);
                assert(step(old(self).regs(), op, lo, hi, val, false) == self.regs());
                proof {
                    let rs = step_reads(s0, op, lo, hi);
                    let vs = seq![lo, hi, val];
                    assert(rs == seq![s0.pc, wrap16(s0.pc + 1), location]);
                    if old(self).mem.quiet() {
                        assert(reads_agree(old(self).mem.mem, rs, vs)) by {
                            assert(rs[0] == s0.pc && vs[0] == lo);
                            assert(rs[1] == wrap16(s0.pc + 1) && vs[1] == hi);
                            assert(rs[2] == location && vs[2] == val);
                        }
                    }
                    assert(step_writes(s0, op, lo, hi).len() == 0);
                    assert(Cpu::accessed(*self, *old(self), rs, vs, step_writes(s0, op, lo, hi)));
                    assert(Bus::advanced(b1, old(self).mem, 4) && Bus::advanced(b2, b1, 4));
                    assert(Cpu::io_accessed(*self, *old(self), op));
                }
            }
        }
    }

    #[verifier::spinoff_prover]
    #[verifier::rlimit(100)]
    fn exec_sp(&mut self, op: u8)
        requires
            old(self).wf(),
            old(self).curr_cycles <= CYCLE_BUDGET + 16,
            op == 0xE8 || op == 0xF8 || op == 0xF9,
        ensures
            final(self).wf(),
            final(self).rest_same(*old(self)),
            Cpu::stepped(*final(self), *old(self), op),
    {
        if op == 0xE8 {
            // ADD SP, e
            let byte = self.read_byte();
            let (result, new_af) = alu::sp_add_dd(self.sp, byte, self.reg.af);
            self.reg.af = new_af;
            self.internal_cycle();
            self.internal_cycle();
            self.sp = result;
            assert(step(old(self).regs(), op, byte, 0, 0, false) == self.regs());
        } else if op == 0xF8 {
            // LD HL, SP + e
            let byte = self.read_byte();
            let (result, new_af) = alu::sp_add_dd(self.sp, byte, self.reg.af);
            self.reg.af = new_af;
            self.reg.hl = result;
            self.internal_cycle();
            assert(step(old(self).regs(), op, byte, 0, 0, false) == self.regs());
        } else {
            // LD SP, HL
            self.sp = self.reg.hl;
            self.internal_cycle();
            assert(step(old(self).regs(), op, 0, 0, 0, false) == self.regs());
        }
    }

    #[verifier::spinoff_prover]
    #[verifier::rlimit(100)]
    fn exec_control(&mut self, op: u8)
        requires
            old(self).wf(),
            old(self).curr_cycles <= CYCLE_BUDGET + 16,
            op == 0x00 || op == 0x10 || op == 0xF3 || op == 0xFB,
        ensures
            final(self).wf(),
            final(self).rest_same(*old(self)),
            Cpu::stepped(*final(self), *old(self), op),
    {
        if op == 0xF3 {
            // DI
            self.ime = false;
        } else if op == 0xFB {
            // EI takes effect after the next instruction
            self.ime_scheduled = true;
        }
        // NOP; STOP is only used for CGB speed switching
        assert(step(old(self).regs(), op, 0, 0, 0, false) == self.regs());
    }
    /// Runs the unprefixed instruction `op` (its opcode already fetched).
    fn run_opcode(&mut self, op: u8)
        requires
            old(self).wf(),
            old(self).curr_cycles <= CYCLE_BUDGET + 16,
            !is_illegal(op),
            op != 0xCB,
        ensures
            final(self).wf(),
            final(self).rest_same(*old(self)),
            Cpu::stepped(*final(self), *old(self), op),
    {
        let lo = op % 16;
        if op == 0x00 || op == 0x10 || op == 0xF3 || op == 0xFB {
            self.exec_control(op);
        } else if op == 0x18 || op == 0x20 || op == 0x28 || op == 0x30 || op == 0x38 {
            self.exec_jr(op);
        } else if op < 0x40 && lo == 1 {
            self.exec_ld16(op);
        } else if op < 0x40 && lo == 2 {
            self.exec_store_a(op);
        } else if op < 0x40 && lo == 0xA {
            self.exec_load_a(op);
        } else if op < 0x40 && (lo == 3 || lo == 0xB) {
            self.exec_incdec16(op);
        } else if op < 0x40 && (op % 8 == 4 || op % 8 == 5) {
            self.exec_incdec8(op);
        } else if op < 0x40 && op % 8 == 6 {
            self.exec_ld_d8(op);
        } else if op == 0x08 {
            self.exec_store_sp(op);
        } else if op < 0x40 && lo == 9 {
            self.exec_add_hl(op);
        } else if op < 0x40 {
            self.exec_af_ops(op);
        } else if op == 0x76 {
            self.exec_halt(op);
        } else if op < 0x80 {
            self.exec_ld_r_r(op);
        } else if op < 0xC0 {
            self.exec_alu_r(op);
        } else if op == 0xC0 || op == 0xC8 || op == 0xD0 || op == 0xD8 || op == 0xC9 || op == 0xD9 {
            self.exec_ret(op);
        } else if op == 0xC2 || op == 0xD2 || op == 0xCA || op == 0xDA || op == 0xC3 || op == 0xE9 {
            self.exec_jp(op);
        } else if op == 0xC4 || op == 0xD4 || op == 0xCC || op == 0xDC || op == 0xCD {
            self.exec_call(op);
        } else if op % 8 == 7 {
            self.exec_rst(op);
        } else if lo == 1 {
            self.exec_pop(op);
        } else if lo == 5 {
            self.exec_push(op);
        } else if lo == 6 || lo == 0xE {
            self.exec_alu_d8(op);
        } else if op == 0xE0 || op == 0xF0 || op == 0xE2 || op == 0xF2 || op == 0xEA || op == 0xFA {
            self.exec_io(op);
        } else {
            self.exec_sp(op);
        }
    }

    /// Runs one unprefixed instruction whose opcode counts as already
    /// fetched: the cycle count starts at the 4 cycles of that fetch, and
    /// the operands are read from PC on.
    pub fn match_instruction(&mut self, instr: Instruction)
        requires
            old(self).wf(),
            !is_illegal(instr.opcode),
            instr.opcode != 0xCB,
        ensures
            final(self).wf(),
            final(self).rest_same(*old(self)),
            Cpu::stepped(*final(self), Cpu { curr_cycles: 4, ..*old(self) }, instr.opcode),
    {
        self.curr_cycles = 4;
        self.run_opcode(instr.opcode);
    }

    // https://meganesulli.com/generate-gb-opcodes/
    /// Runs the CB-prefixed instruction `i` (its two opcode bytes already
    /// fetched).
    #[verifier::spinoff_prover]
    #[verifier::rlimit(100)]
    fn match_cb_instruction(&mut self, i: u8)
        requires
            old(self).wf(),
            old(self).curr_cycles <= CYCLE_BUDGET + 16,
        ensures
            final(self).wf(),
            final(self).rest_same(*old(self)),
            exists|m: u8|
                #[trigger] cb_step(old(self).regs(), i, m) == final(self).regs() && Cpu::accessed(
                    *final(self),
                    *old(self),
                    cb_reads(old(self).regs(), i),
                    seq![m],
                    cb_writes(old(self).regs(), i, m),
                ),
    {
        let idx = i % 8;
        let reg = self.get_reg_by_opcode(idx);
        let n = (i / 8) % 8;
        if i < 0x40 {
            let c = self.reg.get_c();
            let kind = i / 8;
            let result = if kind == 0 {
                alu::rlc(reg, &mut self.reg.af)
            } else if kind == 1 {
                alu::rrc(reg, &mut self.reg.af)
            } else if kind == 2 {
                alu::rl(reg, c, &mut self.reg.af)
            } else if kind == 3 {
                alu::rr(reg, c, &mut self.reg.af)
            } else if kind == 4 {
                alu::sla(reg, &mut self.reg.af)
            } else if kind == 5 {
                alu::sra(reg, &mut self.reg.af)
            } else if kind == 6 {
                alu::swap(reg, &mut self.reg.af)
            } else {
                alu::srl(reg, &mut self.reg.af)
            };
            self.write_reg_by_opcode(idx, result);
        } else if i < 0x80 {
            alu::bit(reg, n, &mut self.reg.af);
        } else if i < 0xC0 {
            let reset = alu::res(reg, n);
            self.write_reg_by_opcode(idx, reset);
        } else {
            let set = alu::set(reg, n);
            self.write_reg_by_opcode(idx, set);
        }
        assert(cb_step(old(self).regs(), i, reg) == self.regs());
        proof {
            let s0 = old(self).regs();
            let rs = cb_reads(s0, i);
            let ws = cb_writes(s0, i, reg);
            let vs = seq![reg];
            if idx == 6 {
                assert(rs == seq![s0.hl]);
                if old(self).mem.quiet() {
                    assert(reads_agree(old(self).mem.mem, rs, vs)) by {
                        assert(rs[0] == s0.hl && vs[0] == reg);
                    }
                }
                if !(0x40 <= i < 0x80) {
                    assert(ws[0].0 == s0.hl);
                    if no_dma_write(ws) {
                        assert(ws[0].0 != DMA_REG);
                    }
                }
            }
            assert(Cpu::accessed(*self, *old(self), rs, vs, ws));
        }
    }

    fn emulate_haltbug(&mut self)
        ensures
            final(self).regs() == (CpuRegs {
                pc: wrap16(old(self).pc - 1),
                haltbug: false,
                ..old(self).regs()
            }),
            final(self).mem == old(self).mem,
            final(self).rest_same(*old(self)),
    {
        self.pc = self.pc.wrapping_sub(1);
        self.haltbug = false;
    }

    /// Fetches and runs the instruction at PC: a scheduled EI takes effect
    /// first, and a pending HALT bug makes PC read the opcode byte twice.
    #[verifier::spinoff_prover]
    #[verifier::rlimit(100)]
    pub fn execute(&mut self)
        requires
            old(self).wf(),
            old(self).curr_cycles <= CYCLE_BUDGET,
            !is_illegal(old(self).mem.byte_at(old(self).pc)),
        ensures
            final(self).wf(),
            Cpu::instruction_done(*final(self), *old(self)),
    {
        if self.ime_scheduled {
            self.ime_scheduled = false;
            self.ime = true;  // Now interrupts should occur delayed one instruction
        }
        let opcode = self.read_pc();
        self.instruction = opcode;
        if self.haltbug {
            self.emulate_haltbug();
        }
        let ghost c2 = *self;
        let ghost s = old(self).regs();
        assert(c2.regs() == decoded(s));
        if opcode == 0xCB {
            let cb_opcode = self.read_pc();
            self.cb_instruction = cb_opcode as u16;
            let ghost c3 = *self;
            self.match_cb_instruction(cb_opcode);
            proof {
                let m = choose|m: u8|
                    #[trigger] cb_step(c3.regs(), cb_opcode, m) == self.regs() && Cpu::accessed(
                        *self,
                        c3,
                        cb_reads(c3.regs(), cb_opcode),
                        seq![m],
                        cb_writes(c3.regs(), cb_opcode, m),
                    );
                lemma_exec_cb(*old(self), c2, c3, *self, cb_opcode, m);
            }
        } else {
            self.cb_instruction = 0xFFFF;
            self.run_opcode(opcode);
            proof {
                let (v1, v2, v3, p) = choose|v1: u8, v2: u8, v3: u8, p: bool|
                    #[trigger] step(c2.regs(), opcode, v1, v2, v3, p) == self.regs() && Cpu::accessed(
                        *self,
                        c2,
                        step_reads(c2.regs(), opcode, v1, v2),
                        seq![v1, v2, v3],
                        step_writes(c2.regs(), opcode, v1, v2),
                    );
                lemma_exec_plain(*old(self), c2, *self, opcode, v1, v2, v3, p);
                if opcode == 0x76 {
                    assert(c2.interrupt_requested() == self.interrupt_requested());
                    assert(executed(s, 0x76, 0, 0, 0, 0, self.interrupt_requested()) == step(
                        c2.regs(),
                        0x76,
                        0,
                        0,
                        0,
                        c2.interrupt_requested(),
                    ));
                }
            }
        }
    }

    /// Services the highest priority interrupt that is enabled and
    /// requested: IE and IF are read, the request is cleared in IF, PC is
    /// pushed and the handler at 0x40 + 8n runs next.
    fn handle_interrupt(&mut self)
        requires
            old(self).wf(),
            old(self).curr_cycles <= CYCLE_BUDGET,
        ensures
            final(self).wf(),
            final(self).rest_same(*old(self)),
            exists|iflag: u8|
                #[trigger] interrupted(old(self).regs(), old(self).mem.byte_at(0xFFFF), iflag)
                    == final(self).regs() && Cpu::accessed(
                    *final(self),
                    *old(self),
                    seq![],
                    seq![],
                    interrupt_writes(old(self).regs(), old(self).mem.byte_at(0xFFFF), iflag),
                ) && Cpu::if_served(*final(self), *old(self), old(self).mem.byte_at(0xFFFF), iflag),
    {
        let i_enable = self.read_addr(0xFFFF);
        let ghost c1 = *self;
        let i_fired = self.read_addr(0xFF0F);
        proof {
            assert(device_of(0xFF0F) == Device::IoRegs);
            assert(i_fired == c1.mem.io.ifired());
            assert(i_fired & old(self).mem.io.ifired() == old(self).mem.io.ifired());
        }
        let ghost c2 = *self;
        self.ime = false;
        self.is_running = true;
        let m = i_enable & i_fired;
        let n: u8 = if m & 0x01 == 0x01 {
            0
        } else if m & 0x02 == 0x02 {
            1
        } else if m & 0x04 == 0x04 {
            2
        } else if m & 0x08 == 0x08 {
            3
        } else if m & 0x10 == 0x10 {
            4
        } else {
            5
        };
        if n < 5 {
            // https://www.reddit.com/r/EmuDev/comments/u9itc2/problem_with_halt_gameboy_and_dr_mario/
            let mask: u8 = 1u8 << n;
            let ghost ba = self.mem;
            self.write_byte(0xFF0F, i_fired & !mask);
            let ghost bb = self.mem;
            assert(device_of(0xFF0F) == Device::IoRegs);
            let ghost m1 = self.mem.mem;
            let ghost f1 = self.mem.io.ifired();
            self.stack_push(self.pc);
            proof {
                let w = (i_fired & !mask) | 0xE0;
                if wrap16(c2.sp - 1) != IF_REG && wrap16(c2.sp - 2) != IF_REG {
                    lemma_bits_kept(w, f1, self.mem.io.ifired());
                }
                assert(first_interrupt(i_enable, i_fired) == Some(n));
                assert(mask == 1u8 << n);
                assert(Bus::cpu_wrote(bb, ba, IF_REG, i_fired & !mask));
            }
            // Set PC based on corresponding interrupt vector
            self.pc = 0x0040 + 0x0008 * (n as u16);
        }
        assert(interrupted(old(self).regs(), i_enable, i_fired) == self.regs());
        assert(Cpu::if_served(*self, *old(self), i_enable, i_fired));
        assert(Cpu::accessed(
            *self,
            *old(self),
            seq![],
            seq![],
            interrupt_writes(old(self).regs(), i_enable, i_fired),
        ));
    }

    /// Wakes a halted CPU when an enabled interrupt is requested, and
    /// services it when IME is set.
    pub fn check_interrupts(&mut self)
        requires
            old(self).wf(),
            old(self).curr_cycles <= CYCLE_BUDGET,
        ensures
            final(self).wf(),
            Cpu::interrupts_checked(*final(self), *old(self)),
    {
        if !self.is_running && self.mem.interrupt_pending() {
            self.is_running = true;
        }
        if self.ime && self.mem.interrupt_pending() {
            let ghost before = *self;
            self.handle_interrupt();
            proof {
                let f = choose|iflag: u8|
                    #[trigger] interrupted(before.regs(), before.mem.byte_at(0xFFFF), iflag)
                        == self.regs() && Cpu::accessed(
                        *self,
                        before,
                        seq![],
                        seq![],
                        interrupt_writes(before.regs(), before.mem.byte_at(0xFFFF), iflag),
                    ) && Cpu::if_served(*self, before, before.mem.byte_at(0xFFFF), iflag);
                assert(before.regs() == CpuRegs { is_running: true, ..old(self).regs() });
                assert(before.regs() == old(self).woken());
                assert(interrupted(old(self).woken(), old(self).mem.byte_at(0xFFFF), f) == self.regs());
            }
        }
    }

    /// Hands the next window event to the joypad; returns whether the
    /// emulator should quit.
    pub fn update_input(&mut self, event: Option<InputEvent>) -> (should_exit: bool)
        requires
            old(self).wf(),
        ensures
            final(self).wf(),
            final(self).regs() == old(self).regs(),
            should_exit == (event == Some(InputEvent::Quit) || event == Some(
                InputEvent::KeyDown(crate::joypad::Key::Escape),
            )),
            *final(self) == (Cpu { mem: final(self).mem, ..*old(self) }),
            final(self).mem == (Bus {
                joypad: old(self).mem.joypad.after_event(event),
                io: final(self).mem.io,
                ..old(self).mem
            }),
            Cpu::input_taken(*final(self), *old(self), event),
    {
        self.mem.update_input(event)
    }

    /// One step of the emulator: the window event goes to the joypad (a
    /// quit request ends the run), then pending interrupts are checked and
    /// the CPU runs one instruction, or one idle M-cycle while halted; the
    /// cartridge clock moves with the cycles spent. An illegal opcode at PC
    /// stops the step before it runs.
    #[verifier::spinoff_prover]
    #[verifier::rlimit(100)]
    pub fn step(&mut self, event: Option<InputEvent>) -> (r: StepOutcome)
        requires
            old(self).wf(),
        ensures
            final(self).wf(),
            (r == StepOutcome::Quit) == (event == Some(InputEvent::Quit) || event == Some(
                InputEvent::KeyDown(crate::joypad::Key::Escape),
            )),
            r == StepOutcome::Quit ==> Cpu::input_taken(*final(self), *old(self), event),
            r != StepOutcome::Quit ==> exists|a: Cpu|
                #[trigger] Cpu::input_taken(a, *old(self), event) && Cpu::step_after_input(
                    *final(self),
                    a,
                    r,
                ),
    {
        if self.update_input(event) {
            return StepOutcome::Quit;
        }
        let ghost a = *self;
        self.curr_cycles = 0;
        self.check_interrupts();
        let ghost b = *self;
        self.tick_cartridge(self.curr_cycles);
        let ghost c = *self;
        let r = if self.is_running {
            self.curr_cycles = 0;
            let opcode = self.mem.read_byte(self.pc);
            if illegal_opcode(opcode) {
                assert(Cpu::step_run(*self, c, StepOutcome::Illegal));
                assert(Cpu::interrupts_checked(b, Cpu { curr_cycles: 0, ..a }));
                assert(c == b.ticked(b.curr_cycles));
                assert(Cpu::step_after_input(*self, a, StepOutcome::Illegal));
                return StepOutcome::Illegal;
            }
            self.execute();
            let ghost d = *self;
            self.tick_cartridge(self.curr_cycles);
            assert(Cpu::instruction_done(d, Cpu { curr_cycles: 0, ..c }));
            StepOutcome::Ran
        } else {
            self.curr_cycles = 4;
            self.adv_cycles(4);
            let ghost d = *self;
            self.tick_cartridge(4);
            assert(Cpu::idled(d, Cpu { curr_cycles: 4, ..c }, 4));
            StepOutcome::Ran
        };
        assert(Cpu::step_run(*self, c, r));
        assert(Cpu::interrupts_checked(b, Cpu { curr_cycles: 0, ..a }));
        assert(c == b.ticked(b.curr_cycles));
        assert(Cpu::step_after_input(*self, a, r));
        r
    }

    // https://github.com/7thSamurai/Azayaka/blob/8791bf9810e7f4f0da89d695db97d42a7acbede6/src/core/cpu/cpu.cpp#L295-L316
    /// Whether the CPU sits in the endless loop that ends a Blargg test ROM
    /// (`JR -2`, or `JP` to itself).
    pub fn is_blargg_done(&self) -> (b: bool)
        requires
            self.wf(),
        ensures
            b == ((self.mem.byte_at(self.pc) == 0x18 && self.mem.byte_at(wrap16(self.pc + 1))
                == 0xFE) || (self.mem.byte_at(self.pc) == 0xC3 && self.mem.byte_at(
                wrap16(self.pc + 1),
            ) == lo_of(self.pc) && self.mem.byte_at(wrap16(self.pc + 2)) == hi_of(self.pc))),
    {
        let b0 = self.mem.read_byte(self.pc);
        let b1 = self.mem.read_byte(self.pc.wrapping_add(1));
        let b2 = self.mem.read_byte(self.pc.wrapping_add(2));
        if b0 == 0x18 && b1 == 0xFE {
            return true;
        }
        b0 == 0xC3 && b1 == Registers::get_lo(self.pc) && b2 == Registers::get_hi(self.pc)
    }

    /// Whether the CPU reached the `NOP; JR -3` loop that ends a Mooneye
    /// test ROM.
    pub fn is_mooneye_done(&self) -> (b: bool)
        requires
            self.wf(),
        ensures
            b == (self.mem.byte_at(self.pc) == 0x00 && self.mem.byte_at(wrap16(self.pc + 1)) == 0x18
                && self.mem.byte_at(wrap16(self.pc + 2)) == 0xFD),
    {
        self.mem.read_byte(self.pc) == 0x00 && self.mem.read_byte(self.pc.wrapping_add(1)) == 0x18
            && self.mem.read_byte(self.pc.wrapping_add(2)) == 0xFD
    }
}

} // verus!
