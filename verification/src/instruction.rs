//! The arithmetic and logic unit: every operation works on plain register
//! values and the flag byte `0bZNHC_xxxx` held in the low byte of AF.
use vstd::prelude::*;
use crate::cpu::registers::{
    Registers, hi_of, lo_of, word_of, flag_z, flag_n, flag_h, flag_c, make_flags,
    lemma_bytes_roundtrip,
};

verus! {

/// An opcode split into its high and low nibbles.
pub struct Instruction {
    pub values: (u8, u8),
}

impl Instruction {
    pub fn get_instruction(x: u8) -> (i: Instruction)
        ensures
            i.values.0 == x / 16,
            i.values.1 == x % 16,
    {
        Instruction { values: (x / 16, x % 16) }
    }
}

/// What an operation does to one flag.
#[derive(Debug, PartialEq, Eq, Structural)]
pub enum Flag {
    On,
    Unset,
    Nop,
}

/// The kind of arithmetic a half carry is computed for, with the carry
/// (or borrow) that takes part in it.
pub enum Operation {
    Add(u8),
    Sub(u8),
}

/// The value of a flag after `flag` is applied to its old value `old`.
pub open spec fn apply_flag(flag: Flag, old: bool) -> bool {
    match flag {
        Flag::On => true,
        Flag::Unset => false,
        Flag::Nop => old,
    }
}

/// `Set` exactly when `b` holds.
pub open spec fn flag_of(b: bool) -> Flag {
    if b { Flag::On } else { Flag::Unset }
}

/// Carry out of bit 3 (addition) or borrow into bit 4 (subtraction) of the
/// low nibbles, with the carry nibble of the operation taking part.
pub open spec fn half_carry(arg1: u8, arg2: u8, op: Operation) -> bool {
    match op {
        Operation::Add(c) => ((arg1 % 16 + arg2 % 16 + c % 16) / 16) % 2 == 1,
        Operation::Sub(c) => (((arg1 % 16 - arg2 % 16 - c % 16 + 256) % 256) / 16) % 2 == 1,
    }
}

/// The flag byte after applying the four flag updates to `f`; the low
/// nibble of `f` is kept.
pub open spec fn flags_after(z: Flag, n: Flag, h: Flag, c: Flag, f: u8) -> u8 {
    make_flags(
        apply_flag(z, flag_z(f)),
        apply_flag(n, flag_n(f)),
        apply_flag(h, flag_h(f)),
        apply_flag(c, flag_c(f)),
        f,
    )
}

/// AF with accumulator `a` and flags `(z, n, h, c)`, keeping the low nibble
/// of the old flag byte of `af`.
pub open spec fn af_with(af: u16, a: u8, z: bool, n: bool, h: bool, c: bool) -> u16 {
    word_of(a, make_flags(z, n, h, c, lo_of(af)))
}

/// AF after `A ^= v` (XOR).
pub open spec fn xor_af(af: u16, v: u8) -> u16 {
    let r = hi_of(af) ^ v;
    af_with(af, r, r == 0, false, false, false)
}

/// AF after `A &= v` (AND).
pub open spec fn and_af(af: u16, v: u8) -> u16 {
    let r = hi_of(af) & v;
    af_with(af, r, r == 0, false, true, false)
}

/// AF after `A |= v` (OR).
pub open spec fn or_af(af: u16, v: u8) -> u16 {
    let r = hi_of(af) | v;
    af_with(af, r, r == 0, false, false, false)
}

/// AF after `A += v + carry_in` (ADD when `carry_in` is 0, ADC otherwise).
pub open spec fn add_carry_af(af: u16, v: u8, carry_in: int) -> u16 {
    let a = hi_of(af) as int;
    let sum = a + v + carry_in;
    let r = (sum % 256) as u8;
    af_with(af, r, r == 0, false, a % 16 + v % 16 + carry_in >= 16, sum >= 256)
}

/// AF after `A -= v + borrow_in` (SUB when `borrow_in` is 0, SBC otherwise).
pub open spec fn sub_carry_af(af: u16, v: u8, borrow_in: int) -> u16 {
    let a = hi_of(af) as int;
    let diff = a - v - borrow_in;
    let r = ((diff + 512) % 256) as u8;
    af_with(af, r, r == 0, true, a % 16 < v % 16 + borrow_in, diff < 0)
}

/// The carry flag of AF as 0 or 1.
pub open spec fn carry_bit(af: u16) -> int {
    if flag_c(lo_of(af)) { 1 } else { 0 }
}

/// AF after `ADD A, v`.
pub open spec fn add_af(af: u16, v: u8) -> u16 {
    add_carry_af(af, v, 0)
}

/// AF after `SUB A, v`.
pub open spec fn sub_af(af: u16, v: u8) -> u16 {
    sub_carry_af(af, v, 0)
}

/// AF after `ADC A, v`.
pub open spec fn adc_af(af: u16, v: u8) -> u16 {
    add_carry_af(af, v, carry_bit(af))
}

/// AF after `SBC A, v`.
pub open spec fn sbc_af(af: u16, v: u8) -> u16 {
    sub_carry_af(af, v, carry_bit(af))
}

/// AF after `CP A, v`: the flags of `SUB A, v`, with A unchanged.
pub open spec fn cp_af(af: u16, v: u8) -> u16 {
    word_of(hi_of(af), lo_of(sub_af(af, v)))
}

/// The two's complement value of a byte.
pub open spec fn signed_of(b: u8) -> int {
    if b >= 128 { b as int - 256 } else { b as int }
}

/// `reg` plus the signed byte `imm8`, wrapped to 16 bits.
pub open spec fn add_signed(reg: u16, imm8: u8) -> u16 {
    ((reg as int + signed_of(imm8) + 65536) % 65536) as u16
}

/// AF after `ADD SP, e` / `LD HL, SP+e`: Z and N cleared, H and C from the
/// unsigned addition of the low byte of SP and `e`; A unchanged.
pub open spec fn sp_add_flags_af(sp: u16, imm8: u8, af: u16) -> u16 {
    af_with(
        af,
        hi_of(af),
        false,
        false,
        sp % 16 + imm8 % 16 >= 16,
        sp % 256 + imm8 >= 256,
    )
}

/// AF after `ADD HL, v`: Z kept, N cleared, H from bit 11, C from bit 15.
pub open spec fn hl_add_flags_af(hl: u16, v: u16, af: u16) -> u16 {
    af_with(
        af,
        hi_of(af),
        flag_z(lo_of(af)),
        false,
        hl % 4096 + v % 4096 >= 4096,
        hl + v >= 65536,
    )
}

/// AF after an 8-bit increment of `v`: C kept, A unchanged.
pub open spec fn incr_flags_af(v: u8, af: u16) -> u16 {
    af_with(af, hi_of(af), (v + 1) % 256 == 0, false, v % 16 == 15, flag_c(lo_of(af)))
}

/// AF after an 8-bit decrement of `v`: C kept, A unchanged.
pub open spec fn decr_flags_af(v: u8, af: u16) -> u16 {
    af_with(af, hi_of(af), v == 1, true, v % 16 == 0, flag_c(lo_of(af)))
}

/// AF after RLCA (`through_carry == false`) or RLA (`through_carry == true`).
pub open spec fn rotate_left_a_af(through_carry: bool, af: u16) -> u16 {
    let a = hi_of(af) as int;
    let in_bit = if through_carry { carry_bit(af) } else { a / 128 };
    af_with(af, ((a * 2) % 256 + in_bit) as u8, false, false, false, a >= 128)
}

/// AF after RRCA (`through_carry == false`) or RRA (`through_carry == true`).
pub open spec fn rotate_right_a_af(through_carry: bool, af: u16) -> u16 {
    let a = hi_of(af) as int;
    let in_bit = if through_carry { carry_bit(af) } else { a % 2 };
    af_with(af, (a / 2 + 128 * in_bit) as u8, false, false, false, a % 2 == 1)
}

/// The accumulator after the decimal adjustment of DAA.
pub open spec fn daa_a(af: u16) -> u8 {
    let a = hi_of(af) as int;
    let f = lo_of(af);
    if !flag_n(f) {
        let a1 = if flag_c(f) || a > 0x99 { (a + 0x60) % 256 } else { a };
        (if flag_h(f) || a1 % 16 > 9 { (a1 + 6) % 256 } else { a1 }) as u8
    } else {
        let a1 = if flag_c(f) { (a - 0x60 + 256) % 256 } else { a };
        (if flag_h(f) { (a1 - 6 + 256) % 256 } else { a1 }) as u8
    }
}

/// The carry after DAA: set whenever the adjustment by 0x60 takes place
/// (C was set, or, after an addition, A was above 0x99), as the decimal
/// sum or difference then leaves the range of two digits.
pub open spec fn daa_carry(af: u16) -> bool {
    let f = lo_of(af);
    flag_c(f) || (!flag_n(f) && hi_of(af) > 0x99)
}

/// AF after DAA.
#[verifier::opaque]
pub open spec fn daa_af(af: u16) -> u16 {
    let a = daa_a(af);
    af_with(af, a, a == 0, flag_n(lo_of(af)), false, daa_carry(af))
}

// Combines two u8s into a u16 value (hi, lo -> result)
pub fn combine_bytes(hi: u8, lo: u8) -> (res: u16)
    ensures
        res == word_of(hi, lo),
{
    (hi as u16) * 256 + (lo as u16)
}

// Load 16 bit immediate into register
pub fn load_d16(register: &mut u16, hi: u8, lo: u8)
    ensures
        *final(register) == word_of(hi, lo),
{
    let imm_val = combine_bytes(hi, lo);
    *register = imm_val;
}

// Load 8 bit immediate into register
pub fn load_imm_d8(register: &mut u16, ld_val: u8, is_hi: bool)
    ensures
        *final(register) == (if is_hi {
            word_of(ld_val, lo_of(*old(register)))
        } else {
            word_of(hi_of(*old(register)), ld_val)
        }),
{
    let (hi, lo) = Registers::get_hi_lo(*register);
    let new_reg_val = if is_hi {
        combine_bytes(ld_val, lo)
    } else {
        combine_bytes(hi, ld_val)
    };
    *register = new_reg_val;
}

// Used for 0x40 -> 0x6F and for 0x78 -> 0x7F
pub fn load_8_bit_into_reg(register: &mut u16, ld_hi: bool, ld_value: u8)
    ensures
        *final(register) == (if ld_hi {
            word_of(ld_value, lo_of(*old(register)))
        } else {
            word_of(hi_of(*old(register)), ld_value)
        }),
{
    let (reg_hi, reg_lo) = Registers::get_hi_lo(*register);
    let load_result = if ld_hi {
        combine_bytes(ld_value, reg_lo)
    } else {
        combine_bytes(reg_hi, ld_value)
    };
    *register = load_result;
}

pub fn a_xor_r(reg_af: &mut u16, xor_value: u8)
    ensures
        *final(reg_af) == xor_af(*old(reg_af), xor_value),
{
    let (reg_a, reg_f) = Registers::get_hi_lo(*reg_af);
    let result = reg_a ^ xor_value;
    let reg_f = set_flags(set_z_flag(result), Flag::Unset, Flag::Unset, Flag::Unset, reg_f);
    *reg_af = combine_bytes(result, reg_f);
}

pub fn a_and_r(reg_af: &mut u16, and_value: u8)
    ensures
        *final(reg_af) == and_af(*old(reg_af), and_value),
{
    let (reg_a, reg_f) = Registers::get_hi_lo(*reg_af);
    let result = reg_a & and_value;
    let reg_f = set_flags(set_z_flag(result), Flag::Unset, Flag::On, Flag::Unset, reg_f);
    *reg_af = combine_bytes(result, reg_f);
}

pub fn a_or_r(reg_af: &mut u16, or_value: u8)
    ensures
        *final(reg_af) == or_af(*old(reg_af), or_value),
{
    let (reg_a, reg_f) = Registers::get_hi_lo(*reg_af);
    let result = reg_a | or_value;
    let reg_f = set_flags(set_z_flag(result), Flag::Unset, Flag::Unset, Flag::Unset, reg_f);
    *reg_af = combine_bytes(result, reg_f);
}

#[verifier::spinoff_prover]
#[verifier::rlimit(50)]
pub fn a_add_r(reg_af: &mut u16, add_value: u8)
    ensures
        *final(reg_af) == add_af(*old(reg_af), add_value),
{
    let (reg_a, reg_f) = Registers::get_hi_lo(*reg_af);
    let wrap_result = reg_a.wrapping_add(add_value);
    let carry = (reg_a as u16) + (add_value as u16) > 0xFF;
    let reg_f = set_flags(
        set_z_flag(wrap_result),
        Flag::Unset,
        set_h_flag(reg_a, add_value, Operation::Add(0)),
        set_c_flag(carry),
        reg_f,
    );
    *reg_af = combine_bytes(wrap_result, reg_f);
}

#[verifier::spinoff_prover]
#[verifier::rlimit(50)]
pub fn a_sub_r(reg_af: &mut u16, sub_value: u8)
    ensures
        *final(reg_af) == sub_af(*old(reg_af), sub_value),
{
    let (reg_a, reg_f) = Registers::get_hi_lo(*reg_af);
    let wrap_result = reg_a.wrapping_sub(sub_value);
    let carry = reg_a < sub_value;
    let reg_f = set_flags(
        set_z_flag(wrap_result),
        Flag::On,
        set_h_flag(reg_a, sub_value, Operation::Sub(0)),
        set_c_flag(carry),
        reg_f,
    );
    *reg_af = combine_bytes(wrap_result, reg_f);
}

#[verifier::spinoff_prover]
#[verifier::rlimit(50)]
pub fn a_adc_r(reg_af: &mut u16, adc_value: u8)
    ensures
        *final(reg_af) == adc_af(*old(reg_af), adc_value),
{
    let (reg_a, reg_f) = Registers::get_hi_lo(*reg_af);
    let c_flag: u8 = (reg_f / 16) % 2;
    // The carry may occur on either of the two additions
    let wrap_result = reg_a.wrapping_add(adc_value);
    let carry1 = (reg_a as u16) + (adc_value as u16) > 0xFF;
    let carry2 = (wrap_result as u16) + (c_flag as u16) > 0xFF;
    let wrap_result = wrap_result.wrapping_add(c_flag);
    proof {
        let a = reg_a as int;
        let sum = a + adc_value + c_flag;
        assert(c_flag as int == carry_bit(*reg_af));
        assert(wrap_result as int == sum % 256);
        assert((carry1 || carry2) == (sum >= 256));
        assert(half_carry(reg_a, adc_value, Operation::Add(c_flag)) == (a % 16 + adc_value % 16
            + c_flag >= 16));
    }
    let reg_f = set_flags(
        set_z_flag(wrap_result),
        Flag::Unset,
        set_h_flag(reg_a, adc_value, Operation::Add(c_flag)),
        set_c_flag(carry1 || carry2),
        reg_f,
    );
    *reg_af = combine_bytes(wrap_result, reg_f);
}

#[verifier::spinoff_prover]
#[verifier::rlimit(50)]
pub fn a_sbc_r(reg_af: &mut u16, sbc_value: u8)
    ensures
        *final(reg_af) == sbc_af(*old(reg_af), sbc_value),
{
    let (reg_a, reg_f) = Registers::get_hi_lo(*reg_af);
    let c_flag: u8 = (reg_f / 16) % 2;
    // The borrow may occur on either of the two subtractions
    let wrap_result = reg_a.wrapping_sub(sbc_value);
    let carry1 = reg_a < sbc_value;
    let carry2 = wrap_result < c_flag;
    let wrap_result = wrap_result.wrapping_sub(c_flag);
    proof {
        let a = reg_a as int;
        let diff = a - sbc_value - c_flag;
        assert(c_flag as int == carry_bit(*reg_af));
        assert(wrap_result as int == (diff + 512) % 256);
        assert((carry1 || carry2) == (diff < 0));
        assert(half_carry(reg_a, sbc_value, Operation::Sub(c_flag)) == (a % 16 < sbc_value % 16
            + c_flag));
    }
    let reg_f = set_flags(
        set_z_flag(wrap_result),
        Flag::On,
        set_h_flag(reg_a, sbc_value, Operation::Sub(c_flag)),
        set_c_flag(carry1 || carry2),
        reg_f,
    );
    *reg_af = combine_bytes(wrap_result, reg_f);
}

#[verifier::spinoff_prover]
#[verifier::rlimit(50)]
pub fn a_cp_r(reg_af: &mut u16, cp_value: u8)
    ensures
        *final(reg_af) == cp_af(*old(reg_af), cp_value),
{
    let (reg_a, reg_f) = Registers::get_hi_lo(*reg_af);
    let wrap_result = reg_a.wrapping_sub(cp_value);
    let carry = reg_a < cp_value;
    let reg_f = set_flags(
        set_z_flag(wrap_result),
        Flag::On,
        set_h_flag(reg_a, cp_value, Operation::Sub(0)),
        set_c_flag(carry),
        reg_f,
    );
    proof {
        lemma_bytes_roundtrip(hi_of(*reg_af), reg_f);
    }
    *reg_af = combine_bytes(reg_a, reg_f);
}

/// `ADD SP, e` and `LD HL, SP+e`: returns the sum and the new AF.
pub fn sp_add_dd(sp: u16, imm8: u8, reg_af: u16) -> (res: (u16, u16))
    ensures
        res.0 == add_signed(sp, imm8),
        res.1 == sp_add_flags_af(sp, imm8, reg_af),
{
    let (result, carry) = reg_add_8bit_signed(sp, imm8);
    // This instruction uses the 8 bit definition not 16
    let reg_f = set_flags(
        Flag::Unset,
        Flag::Unset,
        set_h_flag((sp % 256) as u8, imm8, Operation::Add(0)),
        set_c_flag(carry),
        Registers::get_lo(reg_af),
    );
    let new_af = Registers::set_bottom_byte(reg_af, reg_f);
    (result, new_af)
}

/// Adds the signed byte `imm8` to `reg`; also returns the carry out of the
/// low byte.
pub fn reg_add_8bit_signed(reg: u16, imm8: u8) -> (res: (u16, bool))
    ensures
        res.0 == add_signed(reg, imm8),
        res.1 == (reg % 256 + imm8 >= 256),
{
    let reg_lo = (reg % 256) as u8;
    let reg_hi = (reg / 256) as u8;
    let lo_bytes = reg_lo.wrapping_add(imm8);
    let carry = (reg_lo as u16) + (imm8 as u16) > 0xFF;
    let carry_u8: u8 = if carry { 1 } else { 0 };
    let hi_bytes = if imm8 >= 0x80 {
        let temp = reg_hi.wrapping_add(0xFF);  // negative
        temp.wrapping_add(carry_u8)
    } else {
        reg_hi.wrapping_add(carry_u8)  // positive
    };
    let result = combine_bytes(hi_bytes, lo_bytes);
    (result, carry)
}

/// `ADD HL, rr`.
pub fn hl_add_rr(hl: &mut u16, add_value: u16, reg_af: &mut u16)
    ensures
        *final(hl) == (*old(hl) as int + add_value) % 65536,
        *final(reg_af) == hl_add_flags_af(*old(hl), add_value, *old(reg_af)),
{
    let result = hl.wrapping_add(add_value);
    let carry = (*hl as u32) + (add_value as u32) > 0xFFFF;
    let reg_f = set_flags(
        Flag::Nop,
        Flag::Unset,
        set_h_flag_16bit(*hl, add_value),
        set_c_flag(carry),
        Registers::get_lo(*reg_af),
    );
    *reg_af = Registers::set_bottom_byte(*reg_af, reg_f);
    *hl = result;
}

/// 8-bit increment; returns `incr_value + 1` (wrapping) and updates the flags.
pub fn incr_8bit(incr_value: u8, reg_af: &mut u16) -> (res: u8)
    ensures
        res == (incr_value + 1) % 256,
        *final(reg_af) == incr_flags_af(incr_value, *old(reg_af)),
{
    let result = incr_value.wrapping_add(1);
    let reg_f = set_flags(
        set_z_flag(result),
        Flag::Unset,
        set_h_flag(incr_value, 1, Operation::Add(0)),
        Flag::Nop,
        Registers::get_lo(*reg_af),
    );
    *reg_af = Registers::set_bottom_byte(*reg_af, reg_f);
    result
}

/// 8-bit decrement; returns `decr_value - 1` (wrapping) and updates the flags.
pub fn decr_8bit(decr_value: u8, reg_af: &mut u16) -> (res: u8)
    ensures
        res == (decr_value + 255) % 256,
        *final(reg_af) == decr_flags_af(decr_value, *old(reg_af)),
{
    let result = decr_value.wrapping_sub(1);
    let reg_f = set_flags(
        set_z_flag(result),
        Flag::On,
        set_h_flag(decr_value, 1, Operation::Sub(0)),
        Flag::Nop,
        Registers::get_lo(*reg_af),
    );
    *reg_af = Registers::set_bottom_byte(*reg_af, reg_f);
    result
}

// RLA is through_carry=true, RLCA if through_carry=false
pub fn rotate_left_a(through_carry: bool, reg: &mut Registers)
    ensures
        final(reg).af == rotate_left_a_af(through_carry, old(reg).af),
        final(reg).bc == old(reg).bc,
        final(reg).de == old(reg).de,
        final(reg).hl == old(reg).hl,
{
    let (reg_a, reg_f) = Registers::get_hi_lo(reg.af);
    let old_c = reg.get_c();
    let new_c = reg_a >= 0x80;
    let shifted: u8 = ((reg_a as u16 * 2) % 256) as u8;
    let in_bit: u8 = if through_carry {
        if old_c { 1 } else { 0 }
    } else {
        if new_c { 1 } else { 0 }
    };
    let reg_a = shifted + in_bit;
    let reg_f = set_flags(Flag::Unset, Flag::Unset, Flag::Unset, set_c_flag(new_c), reg_f);
    reg.af = combine_bytes(reg_a, reg_f);
}

// RRA is through_carry=true, RRCA if through_carry=false
pub fn rotate_right_a(through_carry: bool, reg: &mut Registers)
    ensures
        final(reg).af == rotate_right_a_af(through_carry, old(reg).af),
        final(reg).bc == old(reg).bc,
        final(reg).de == old(reg).de,
        final(reg).hl == old(reg).hl,
{
    let (reg_a, reg_f) = Registers::get_hi_lo(reg.af);
    let old_c = reg.get_c();
    let new_c = reg_a % 2 == 1;
    let in_bit: u8 = if through_carry {
        if old_c { 0x80 } else { 0 }
    } else {
        if new_c { 0x80 } else { 0 }
    };
    let reg_a = reg_a / 2 + in_bit;
    let reg_f = set_flags(Flag::Unset, Flag::Unset, Flag::Unset, set_c_flag(new_c), reg_f);
    reg.af = combine_bytes(reg_a, reg_f);
}

/// DAA: decimal adjustment of the accumulator; returns the new AF.
#[verifier::spinoff_prover]
#[verifier::rlimit(80)]
pub fn daa(reg: &Registers) -> (res: u16)
    ensures
        res == daa_af(reg.af),
{
    let (reg_a, reg_f) = Registers::get_hi_lo(reg.af);
    let mut reg_a = reg_a;
    let c_flag = reg.get_c();
    let h_flag = reg.get_h();

    //https://ehaskins.com/2018-01-30%20Z80%20DAA/
    let mut carry: bool = false;
    if !reg.get_n() {
        if c_flag || reg_a > 0x99 {
            reg_a = reg_a.wrapping_add(0x60);
            carry = true;
        }
        if h_flag || (reg_a % 16) > 0x09 {
            reg_a = reg_a.wrapping_add(0x06);
        }
    } else {
        if c_flag {
            reg_a = reg_a.wrapping_sub(0x60);
            carry = c_flag;
        }
        if h_flag {
            reg_a = reg_a.wrapping_sub(0x06);
        }
    }
    assert(reg_a == daa_a(reg.af));
    assert(carry == daa_carry(reg.af));
    reveal(daa_af);
    let reg_f = set_flags(set_z_flag(reg_a), Flag::Nop, Flag::Unset, set_c_flag(carry), reg_f);
    combine_bytes(reg_a, reg_f)
}

/// Applies the four flag updates to `reg_f`, preserving every flag given as
/// `Nop` and the low nibble.
pub fn set_flags(z: Flag, n: Flag, h: Flag, c: Flag, reg_f: u8) -> (flags: u8)
    ensures
        flags == flags_after(z, n, h, c, reg_f),
{
    let zb = match z {
        Flag::On => true,
        Flag::Unset => false,
        Flag::Nop => (reg_f / 128) % 2 == 1,
    };
    let nb = match n {
        Flag::On => true,
        Flag::Unset => false,
        Flag::Nop => (reg_f / 64) % 2 == 1,
    };
    let hb = match h {
        Flag::On => true,
        Flag::Unset => false,
        Flag::Nop => (reg_f / 32) % 2 == 1,
    };
    let cb = match c {
        Flag::On => true,
        Flag::Unset => false,
        Flag::Nop => (reg_f / 16) % 2 == 1,
    };
    (if zb { 128u8 } else { 0 }) + (if nb { 64u8 } else { 0 }) + (if hb { 32u8 } else { 0 }) + (
    if cb { 16u8 } else { 0 }) + reg_f % 16
}

// Determines if z flag needs to be set.
pub fn set_z_flag(result: u8) -> (f: Flag)
    ensures
        f == flag_of(result == 0),
{
    if result == 0x00 {
        Flag::On
    } else {
        Flag::Unset
    }
}

/*
    Determines if h flag needs to be set.
    Occurs when there is a carry from bit 3 to bit 4
    i.e. Result of the lower 4 bits added together is >15
*/
pub fn set_h_flag(arg1: u8, arg2: u8, op: Operation) -> (f: Flag)
    ensures
        f == flag_of(half_carry(arg1, arg2, op)),
{
    let lo1 = arg1 % 16;
    let lo2 = arg2 % 16;

    match op {
        Operation::Add(c) => {
            if ((lo1 + lo2 + (c % 16)) / 16) % 2 == 1 {
                Flag::On
            } else {
                Flag::Unset
            }
        },
        Operation::Sub(c) => {
            if (lo1.wrapping_sub(lo2).wrapping_sub(c % 16) / 16) % 2 == 1 {
                Flag::On
            } else {
                Flag::Unset
            }
        },
    }
}

/// Half carry of a 16-bit addition: a carry out of bit 11.
pub fn set_h_flag_16bit(arg1: u16, arg2: u16) -> (f: Flag)
    ensures
        f == flag_of(arg1 % 4096 + arg2 % 4096 >= 4096),
{
    let lower12_1 = arg1 % 4096;
    let lower12_2 = arg2 % 4096;

    if (lower12_1 + lower12_2) >= 0x1000 {
        Flag::On
    } else {
        Flag::Unset
    }
}

// Determines if c flag needs to be set.
pub fn set_c_flag(is_carry: bool) -> (f: Flag)
    ensures
        f == flag_of(is_carry),
{
    if is_carry {
        Flag::On
    } else {
        Flag::Unset
    }
}

// Wrapping should be the correct behaviour. Seems unlikely
// for the actual hardware to have done anything else but let
// the overflow occur
pub fn post_incr(val: &mut u16) -> (res: u16)
    ensures
        res == *old(val),
        *final(val) == (*old(val) + 1) % 65536,
{
    *val = val.wrapping_add(1);  // Increment the value
    val.wrapping_sub(1)  // Returns the value before the change
}

pub fn post_decr(val: &mut u16) -> (res: u16)
    ensures
        res == *old(val),
        *final(val) == (*old(val) + 65535) % 65536,
{
    *val = val.wrapping_sub(1);  // Decrement the value
    val.wrapping_add(1)  // Returns the value before the change
}


/// AF after CPL: A complemented, N and H set, Z and C kept.
pub open spec fn cpl_af(af: u16) -> u16 {
    let f = lo_of(af);
    af_with(af, (255 - hi_of(af)) as u8, flag_z(f), true, true, flag_c(f))
}

/// AF after SCF: C set, N and H cleared, Z and A kept.
pub open spec fn scf_af(af: u16) -> u16 {
    af_with(af, hi_of(af), flag_z(lo_of(af)), false, false, true)
}

/// AF after CCF: C complemented, N and H cleared, Z and A kept.
pub open spec fn ccf_af(af: u16) -> u16 {
    af_with(af, hi_of(af), flag_z(lo_of(af)), false, false, !flag_c(lo_of(af)))
}

/// AF after a CB-prefixed shift or rotate produced `r` with carry out
/// `c`: Z from the result, N and H cleared; A unchanged.
pub open spec fn shift_flags_af(af: u16, r: u8, c: bool) -> u16 {
    af_with(af, hi_of(af), r == 0, false, false, c)
}

/// The weight of bit `n` of a byte.
pub open spec fn bit_weight(n: u8) -> int {
    if n == 0 { 1 }
    else if n == 1 { 2 }
    else if n == 2 { 4 }
    else if n == 3 { 8 }
    else if n == 4 { 16 }
    else if n == 5 { 32 }
    else if n == 6 { 64 }
    else { 128 }
}

/// Bit `n` of `v`.
pub open spec fn bit_of(v: u8, n: u8) -> bool {
    (v as int / bit_weight(n)) % 2 == 1
}

/// CPL.
pub fn cpl(reg_af: u16) -> (res: u16)
    ensures
        res == cpl_af(reg_af),
{
    let (reg_a, reg_f) = Registers::get_hi_lo(reg_af);
    let reg_f = set_flags(Flag::Nop, Flag::On, Flag::On, Flag::Nop, reg_f);
    combine_bytes(0xFF - reg_a, reg_f)
}

/// SCF.
pub fn scf(reg_af: u16) -> (res: u16)
    ensures
        res == scf_af(reg_af),
{
    let (reg_a, reg_f) = Registers::get_hi_lo(reg_af);
    let reg_f = set_flags(Flag::Nop, Flag::Unset, Flag::Unset, Flag::On, reg_f);
    combine_bytes(reg_a, reg_f)
}

/// CCF.
pub fn ccf(reg_af: u16) -> (res: u16)
    ensures
        res == ccf_af(reg_af),
{
    let (reg_a, reg_f) = Registers::get_hi_lo(reg_af);
    let c = (reg_f / 16) % 2 == 1;
    let reg_f = set_flags(Flag::Nop, Flag::Unset, Flag::Unset, set_c_flag(!c), reg_f);
    combine_bytes(reg_a, reg_f)
}

/// Stores the flags of a CB shift or rotate into AF.
fn store_shift_flags(result: u8, carry: bool, reg_af: &mut u16)
    ensures
        *final(reg_af) == shift_flags_af(*old(reg_af), result, carry),
{
    let reg_f = set_flags(
        set_z_flag(result),
        Flag::Unset,
        Flag::Unset,
        set_c_flag(carry),
        Registers::get_lo(*reg_af),
    );
    *reg_af = Registers::set_bottom_byte(*reg_af, reg_f);
}

/// RLC: rotate left, bit 7 goes to bit 0 and to C.
pub fn rlc(reg: u8, reg_af: &mut u16) -> (res: u8)
    ensures
        res == (reg as int * 2) % 256 + reg / 128,
        *final(reg_af) == shift_flags_af(*old(reg_af), res, reg >= 128),
{
    let res = ((reg as u16 * 2) % 256) as u8 + reg / 128;
    store_shift_flags(res, reg >= 0x80, reg_af);
    res
}

/// RRC: rotate right, bit 0 goes to bit 7 and to C.
pub fn rrc(reg: u8, reg_af: &mut u16) -> (res: u8)
    ensures
        res == reg / 2 + 128 * (reg % 2),
        *final(reg_af) == shift_flags_af(*old(reg_af), res, reg % 2 == 1),
{
    let res = reg / 2 + 128 * (reg % 2);
    store_shift_flags(res, reg % 2 == 1, reg_af);
    res
}

/// RL: rotate left through the carry `c`.
pub fn rl(reg: u8, c: bool, reg_af: &mut u16) -> (res: u8)
    ensures
        res == (reg as int * 2) % 256 + (if c { 1int } else { 0 }),
        *final(reg_af) == shift_flags_af(*old(reg_af), res, reg >= 128),
{
    let res = ((reg as u16 * 2) % 256) as u8 + if c { 1 } else { 0 };
    store_shift_flags(res, reg >= 0x80, reg_af);
    res
}

/// RR: rotate right through the carry `c`.
pub fn rr(reg: u8, c: bool, reg_af: &mut u16) -> (res: u8)
    ensures
        res == reg / 2 + (if c { 128int } else { 0 }),
        *final(reg_af) == shift_flags_af(*old(reg_af), res, reg % 2 == 1),
{
    let res = reg / 2 + if c { 0x80 } else { 0 };
    store_shift_flags(res, reg % 2 == 1, reg_af);
    res
}

/// SLA: shift left, bit 7 to C, 0 into bit 0.
pub fn sla(reg: u8, reg_af: &mut u16) -> (res: u8)
    ensures
        res == (reg as int * 2) % 256,
        *final(reg_af) == shift_flags_af(*old(reg_af), res, reg >= 128),
{
    let res = ((reg as u16 * 2) % 256) as u8;
    store_shift_flags(res, reg >= 0x80, reg_af);
    res
}

/// SRA: arithmetic shift right, bit 7 kept, bit 0 to C.
pub fn sra(reg: u8, reg_af: &mut u16) -> (res: u8)
    ensures
        res == reg / 2 + (reg / 128) * 128,
        *final(reg_af) == shift_flags_af(*old(reg_af), res, reg % 2 == 1),
{
    let res = reg / 2 + (reg / 128) * 128;
    store_shift_flags(res, reg % 2 == 1, reg_af);
    res
}

/// SWAP: exchange the nibbles; C cleared.
pub fn swap(reg: u8, reg_af: &mut u16) -> (res: u8)
    ensures
        res == (reg % 16) * 16 + reg / 16,
        *final(reg_af) == shift_flags_af(*old(reg_af), res, false),
{
    let res = (reg % 16) * 16 + reg / 16;
    store_shift_flags(res, false, reg_af);
    res
}

/// SRL: logical shift right, bit 0 to C, 0 into bit 7.
pub fn srl(reg: u8, reg_af: &mut u16) -> (res: u8)
    ensures
        res == reg / 2,
        *final(reg_af) == shift_flags_af(*old(reg_af), res, reg % 2 == 1),
{
    let res = reg / 2;
    store_shift_flags(res, reg % 2 == 1, reg_af);
    res
}

/// The mask of bit `n`.
fn bit_mask(n: u8) -> (m: u8)
    requires
        n < 8,
    ensures
        m == bit_weight(n),
{
    match n {
        0 => 0x01,
        1 => 0x02,
        2 => 0x04,
        3 => 0x08,
        4 => 0x10,
        5 => 0x20,
        6 => 0x40,
        _ => 0x80,
    }
}

/// BIT n: Z set when bit `n` of `reg` is clear, N cleared, H set, C kept.
pub fn bit(reg: u8, n: u8, reg_af: &mut u16)
    requires
        n < 8,
    ensures
        *final(reg_af) == af_with(
            *old(reg_af),
            hi_of(*old(reg_af)),
            !bit_of(reg, n),
            false,
            true,
            flag_c(lo_of(*old(reg_af))),
        ),
{
    let mask = bit_mask(n);
    let is_set = (reg / mask) % 2 == 1;
    let reg_f = set_flags(
        if is_set { Flag::Unset } else { Flag::On },
        Flag::Unset,
        Flag::On,
        Flag::Nop,
        Registers::get_lo(*reg_af),
    );
    *reg_af = Registers::set_bottom_byte(*reg_af, reg_f);
}

/// RES n: `reg` with bit `n` cleared.
pub fn res(reg: u8, n: u8) -> (r: u8)
    requires
        n < 8,
    ensures
        r == (if bit_of(reg, n) { reg - bit_weight(n) } else { reg as int }),
{
    let mask = bit_mask(n);
    if (reg / mask) % 2 == 1 {
        reg - mask
    } else {
        reg
    }
}

/// SET n: `reg` with bit `n` set.
pub fn set(reg: u8, n: u8) -> (r: u8)
    requires
        n < 8,
    ensures
        r == (if bit_of(reg, n) { reg as int } else { reg + bit_weight(n) }),
{
    let mask = bit_mask(n);
    if (reg / mask) % 2 == 1 {
        reg
    } else {
        proof {
            assert(reg + mask < 256) by (nonlinear_arith)
                requires
                    (reg / mask) % 2 == 0,
                    mask == 1 || mask == 2 || mask == 4 || mask == 8 || mask == 16 || mask == 32
                        || mask == 64 || mask == 128,
            ;
        }
        reg + mask
    }
}

} // verus!
