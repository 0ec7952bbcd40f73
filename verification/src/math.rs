//! Fixed-point tuning arithmetic of the demodulator: the resampler ratio and
//! the exact achievable sample rate, the 22-bit IF-frequency register
//! encoding, the 14-bit sample-rate correction field, and the PPM-corrected
//! crystal frequency.

use vstd::math::abs;
use vstd::prelude::*;

verus! {

/// Nominal reference crystal of the demodulator, in Hz.
pub const DEF_RTL_XTAL_FREQ: u32 = 28_800_000;
/// Smallest crystal frequency the driver accepts, in Hz.
pub const MIN_RTL_XTAL_FREQ: u32 = 28_800_000 - 1000;
/// Largest crystal frequency the driver accepts, in Hz.
pub const MAX_RTL_XTAL_FREQ: u32 = 28_800_000 + 1000;

/// The sample rates the resampler supports: above 225 kHz up to 3.2 MHz,
/// excluding the dead zone above 300 kHz up to 900 kHz.
pub open spec fn rate_in_envelope(rate: u32) -> bool {
    225_000 < rate && rate <= 3_200_000 && !(300_000 < rate && rate <= 900_000)
}

/// Exec check of [`rate_in_envelope`].
pub fn check_rate_in_envelope(rate: u32) -> (r: bool)
    ensures
        r == rate_in_envelope(rate),
{
    225_000 < rate && rate <= 3_200_000 && !(300_000 < rate && rate <= 900_000)
}

/// The resampler ratio programmed into the two ratio registers:
/// `floor(xtal · 2^22 / rate)` with the low two bits cleared, as the
/// hardware requires.
pub open spec fn rsamp_ratio_spec(xtal: u32, rate: u32) -> u64
    recommends
        rate > 0,
{
    (((xtal as int * 0x400000) / rate as int) as u64) & 0x0fff_fffc
}

/// The effective 28-bit two's-complement ratio the hardware works with:
/// bit 27 of the programmed ratio is duplicated into bit 28.
pub open spec fn real_ratio_spec(xtal: u32, rate: u32) -> u64
    recommends
        rate > 0,
{
    rsamp_ratio_spec(xtal, rate) | ((rsamp_ratio_spec(xtal, rate) & 0x0800_0000) << 1)
}

/// The exact sample rate the hardware achieves for a requested rate:
/// `xtal · 2^22 / real_ratio`, truncated to integer Hz and saturated to
/// `u32` (a degenerate ratio saturates, as a cast from the unbounded
/// quotient would).
pub open spec fn achieved_rate_spec(xtal: u32, rate: u32) -> u32
    recommends
        rate > 0,
{
    let num = xtal as int * 0x400000;
    let rr = real_ratio_spec(xtal, rate) as int;
    if rr == 0 {
        u32::MAX
    } else if num / rr > u32::MAX as int {
        u32::MAX
    } else {
        (num / rr) as u32
    }
}

/// Computes the programmed ratio, the effective ratio and the achieved rate
/// for one request.
pub fn compute_resampler(xtal: u32, rate: u32) -> (r: (u64, u64, u32))
    requires
        rate > 0,
    ensures
        r.0 == rsamp_ratio_spec(xtal, rate),
        r.1 == real_ratio_spec(xtal, rate),
        r.2 == achieved_rate_spec(xtal, rate),
{
    let num: u64 = (xtal as u64) * 0x400000;
    let rs: u64 = (num / (rate as u64)) & 0x0fff_fffc;
    let rr: u64 = rs | ((rs & 0x0800_0000) << 1);
    let achieved: u32 = if rr == 0 {
        u32::MAX
    } else {
        let q: u64 = num / rr;
        if q > 0xffff_ffff {
            u32::MAX
        } else {
            q as u32
        }
    };
    (rs, rr, achieved)
}

/// High half of the effective ratio, written to the first ratio register.
pub open spec fn real_ratio_high(xtal: u32, rate: u32) -> u16 {
    (real_ratio_spec(xtal, rate) >> 16) as u16
}

/// Low half of the effective ratio, written to the second ratio register.
pub open spec fn real_ratio_low(xtal: u32, rate: u32) -> u16 {
    (real_ratio_spec(xtal, rate) & 0xffff) as u16
}

/// The 22-bit signed IF-frequency field, negated per the demodulator's
/// down-conversion convention, as a 32-bit two's-complement word:
/// `2^32 - round(freq · 2^22 / xtal)` (and `0` for a zero quotient), with
/// the quotient rounded to nearest, ties upward.
pub open spec fn if_freq_word(freq: u32, xtal: u32) -> u32
    recommends
        xtal > 0,
{
    let q = (freq as int * 0x400000 + xtal as int / 2) / xtal as int;
    if q == 0 {
        0u32
    } else {
        (0x1_0000_0000 - q) as u32
    }
}

/// High register byte of the IF field: bits 16..22 of the word.
pub open spec fn if_freq_high(freq: u32, xtal: u32) -> u16 {
    ((if_freq_word(freq, xtal) >> 16) & 0x3f) as u16
}

/// Middle register byte of the IF field: bits 8..16 of the word.
pub open spec fn if_freq_mid(freq: u32, xtal: u32) -> u16 {
    ((if_freq_word(freq, xtal) >> 8) & 0xff) as u16
}

/// Low register byte of the IF field: bits 0..8 of the word.
pub open spec fn if_freq_low(freq: u32, xtal: u32) -> u16 {
    (if_freq_word(freq, xtal) & 0xff) as u16
}

/// Computes the three IF register bytes for a frequency against a crystal
/// in the accepted window.
pub fn compute_if_freq(freq: u32, xtal: u32) -> (r: (u16, u16, u16))
    requires
        MIN_RTL_XTAL_FREQ <= xtal <= MAX_RTL_XTAL_FREQ,
    ensures
        r.0 == if_freq_high(freq, xtal),
        r.1 == if_freq_mid(freq, xtal),
        r.2 == if_freq_low(freq, xtal),
{
    let num: u64 = (freq as u64) * 0x400000 + (xtal as u64) / 2;
    let q64: u64 = num / (xtal as u64);
    proof {
        let maxnum = u32::MAX as int * 0x400000 + MAX_RTL_XTAL_FREQ as int / 2;
        vstd::arithmetic::div_mod::lemma_div_is_ordered(num as int, maxnum, xtal as int);
        vstd::arithmetic::div_mod::lemma_div_is_ordered_by_denominator(
            maxnum,
            MIN_RTL_XTAL_FREQ as int,
            xtal as int,
        );
        vstd::arithmetic::div_mod::lemma_multiply_divide_lt(
            maxnum,
            MIN_RTL_XTAL_FREQ as int,
            700_000_000,
        );
        assert(q64 < 700_000_000);
    }
    let q: u32 = q64 as u32;
    let word: u32 = if q == 0 {
        0
    } else {
        0xffff_ffffu32 - q + 1
    };
    let hi: u16 = ((word >> 16) & 0x3f) as u16;
    let mid: u16 = ((word >> 8) & 0xff) as u16;
    let lo: u16 = (word & 0xff) as u16;
    proof {
        assert(((word >> 16) & 0x3f) <= 0x3f && ((word >> 8) & 0xff) <= 0xff && (word & 0xff)
            <= 0xff) by (bit_vector);
    }
    (hi, mid, lo)
}

/// Magnitude of the sample-rate correction field: `|ppm| · 2^24 / 10^6`,
/// rounded to nearest (ties away from zero).
pub open spec fn ppm_offset_mag(ppm: i32) -> int {
    (abs(ppm as int) as int * 0x100_0000 + 500_000) / 1_000_000
}

/// The signed 14-bit correction field `round(-ppm · 2^24 / 10^6)` as a
/// 16-bit two's-complement word.
pub open spec fn ppm_offset_word(ppm: i32) -> u16
    recommends
        -127 <= ppm <= 128,
{
    if ppm <= 0 {
        ppm_offset_mag(ppm) as u16
    } else if ppm_offset_mag(ppm) == 0 {
        0u16
    } else {
        (0x1_0000 - ppm_offset_mag(ppm)) as u16
    }
}

/// Low byte of the correction field.
pub open spec fn ppm_offset_low(ppm: i32) -> u16 {
    ppm_offset_word(ppm) & 0xff
}

/// Bits 8..14 of the correction field.
pub open spec fn ppm_offset_high(ppm: i32) -> u16 {
    (ppm_offset_word(ppm) >> 8) & 0x3f
}

/// Computes the two correction register bytes for a PPM value.
pub fn compute_ppm_offset(ppm: i32) -> (r: (u16, u16))
    requires
        -127 <= ppm <= 128,
    ensures
        r.0 == ppm_offset_low(ppm),
        r.1 == ppm_offset_high(ppm),
{
    let mag32: u32 = if ppm >= 0 {
        ppm as u32
    } else {
        (-ppm) as u32
    };
    let mag: u64 = ((mag32 as u64) * 0x100_0000 + 500_000) / 1_000_000;
    assert(mag == ppm_offset_mag(ppm));
    assert(mag <= (128 * 0x100_0000 + 500_000) / 1_000_000) by {
        vstd::arithmetic::div_mod::lemma_div_is_ordered(
            mag32 as int * 0x100_0000 + 500_000,
            (128 * 0x100_0000 + 500_000) as int,
            1_000_000 as int,
        );
    }
    let word: u16 = if ppm <= 0 {
        mag as u16
    } else if mag == 0 {
        0u16
    } else {
        (0x1_0000 - mag) as u16
    };
    let lo: u16 = word & 0xff;
    let hi: u16 = (word >> 8) & 0x3f;
    proof {
        assert((word & 0xff) <= 0xff && ((word >> 8) & 0x3f) <= 0x3f) by (bit_vector);
    }
    (lo, hi)
}

/// A crystal frequency with the PPM correction applied:
/// `xtal · (10^6 + ppm) / 10^6`, truncated and saturated to `u32`.
pub open spec fn corrected_xtal(xtal: u32, ppm: i32) -> u32
    recommends
        -127 <= ppm <= 128,
{
    let v = (xtal as int) * (1_000_000 + ppm as int) / 1_000_000;
    if v > u32::MAX as int {
        u32::MAX
    } else {
        v as u32
    }
}

/// Computes the PPM-corrected crystal frequency.
pub fn compute_corrected_xtal(xtal: u32, ppm: i32) -> (r: u32)
    requires
        -127 <= ppm <= 128,
    ensures
        r == corrected_xtal(xtal, ppm),
{
    let factor: u64 = (1_000_000 + ppm as i64) as u64;
    assert(factor <= 1_000_128);
    proof {
        vstd::arithmetic::mul::lemma_mul_upper_bound(
            xtal as int,
            0xffff_ffff as int,
            factor as int,
            1_000_128 as int,
        );
    }
    let v: u64 = ((xtal as u64) * factor) / 1_000_000;
    if v > 0xffff_ffff {
        u32::MAX
    } else {
        v as u32
    }
}

} // verus!
