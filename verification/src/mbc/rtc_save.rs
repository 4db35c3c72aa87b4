//! The battery file of an MBC3 clock: three little-endian 64-bit second
//! counts, the latched clock, the running clock and the time of saving.
use vstd::prelude::*;

verus! {

/// The size of the clock file in bytes.
pub const RTC_FILE_SIZE: usize = 24;

/// The number that the bytes of `s` spell, least significant first.
pub open spec fn le_value(s: Seq<u8>) -> nat
    decreases s.len(),
{
    if s.len() == 0 {
        0
    } else {
        (s[0] + 256 * le_value(s.drop_first())) as nat
    }
}

/// 256 to the power `n`.
pub open spec fn byte_power(n: nat) -> nat
    decreases n,
{
    if n == 0 {
        1
    } else {
        256 * byte_power((n - 1) as nat)
    }
}

/// `s` spells a number below 256 to the power of its length.
proof fn lemma_le_value_bound(s: Seq<u8>)
    ensures
        le_value(s) < byte_power(s.len()),
    decreases s.len(),
{
    if s.len() > 0 {
        lemma_le_value_bound(s.drop_first());
        assert(le_value(s.drop_first()) + 1 <= byte_power((s.len() - 1) as nat));
        assert(256 * (le_value(s.drop_first()) + 1) <= 256 * byte_power((s.len() - 1) as nat))
            by (nonlinear_arith)
            requires
                le_value(s.drop_first()) + 1 <= byte_power((s.len() - 1) as nat),
        ;
    }
}

/// The 8-byte little-endian number at offset `at` of `bytes`.
fn read_le_u64(bytes: &Vec<u8>, at: usize) -> (v: u64)
    requires
        at + 8 <= bytes@.len(),
    ensures
        v == le_value(bytes@.subrange(at as int, at + 8)),
{
    let ghost s = bytes@.subrange(at as int, at + 8);
    let mut v: u64 = 0;
    let mut k: usize = 8;
    assert(bytes@.len() == bytes.len());
    proof {
        assert(s.subrange(8, 8) =~= Seq::<u8>::empty());
        reveal_with_fuel(byte_power, 9);
    }
    while k > 0
        invariant
            k <= 8,
            at + 8 <= bytes@.len(),
            bytes@.len() <= usize::MAX,
            s == bytes@.subrange(at as int, at + 8),
            v == le_value(s.subrange(k as int, 8)),
            byte_power(7) == 0x100000000000000,
        decreases k,
    {
        proof {
            lemma_le_value_bound(s.subrange(k as int, 8));
            if k < 8 {
                lemma_byte_power_mono((8 - k) as nat, 7);
            }
        }
        let b = bytes[at + k - 1];
        proof {
            assert(s.subrange(k - 1, 8).drop_first() =~= s.subrange(k as int, 8));
            assert(s.subrange(k - 1, 8)[0] == b);
        }
        v = v * 256 + b as u64;
        k = k - 1;
    }
    proof {
        assert(s.subrange(0, 8) =~= s);
    }
    v
}

/// Powers of 256 grow with the exponent.
proof fn lemma_byte_power_mono(a: nat, b: nat)
    requires
        a <= b,
    ensures
        byte_power(a) <= byte_power(b),
    decreases b,
{
    if a < b {
        lemma_byte_power_mono(a, (b - 1) as nat);
    }
}

/// Reads the clock file: the latched and the running clock as second
/// counts, and the time of saving; `None` for a file that is not 24 bytes
/// long.
pub fn decode_rtc_file(bytes: &Vec<u8>) -> (r: Option<((u64, u64), u64)>)
    ensures
        (r is Some) == (bytes@.len() == RTC_FILE_SIZE),
        r matches Some(((l, u), t)) ==> l == le_value(bytes@.subrange(0, 8)) && u == le_value(
            bytes@.subrange(8, 16),
        ) && t == le_value(bytes@.subrange(16, 24)),
{
    if bytes.len() != RTC_FILE_SIZE {
        return None;
    }
    let latch_time = read_le_u64(bytes, 0);
    let update_time = read_le_u64(bytes, 8);
    let save_time = read_le_u64(bytes, 16);
    Some(((latch_time, update_time), save_time))
}

} // verus!
