//! Driver-wide laws, proved against the operation contracts.

use crate::DirectSampleMode;
use crate::action::Action;
use crate::action::BLOCK_SYS;
use crate::action::GPO;
use crate::action::demod_reg_after;
use crate::action::lemma_demod_reg_after_concat;
use crate::action::lemma_reg_after_last_write;
use crate::action::repeater_action;
use crate::math::achieved_rate_spec;
use crate::math::rate_in_envelope;
use crate::math::real_ratio_spec;
use crate::math::rsamp_ratio_spec;
use crate::rtlsdr::RtlSdr;
use crate::rtlsdr::direct_sampling_actions;
use crate::rtlsdr::gpio_actions;
use crate::tuner::TunerKind;
use vstd::arithmetic::div_mod::lemma_div_is_ordered;
use vstd::arithmetic::div_mod::lemma_div_is_ordered_by_denominator;
use vstd::arithmetic::div_mod::lemma_div_multiples_vanish;
use vstd::arithmetic::div_mod::lemma_fundamental_div_mod;
use vstd::arithmetic::div_mod::lemma_mod_bound;
use vstd::arithmetic::div_mod::lemma_multiply_divide_lt;
use vstd::arithmetic::mul::lemma_mul_inequality;
use crate::math::MAX_RTL_XTAL_FREQ;
use crate::math::MIN_RTL_XTAL_FREQ;
use vstd::prelude::*;

verus! {

/// Round trip through the resampler formula: for every rate in the legal
/// envelope and every crystal in the accepted window, the effective ratio
/// is nonzero and the stored achieved rate is the exact truncated quotient
/// of `crystal · 2^22` by that ratio — `ratio · rate_stored <=
/// crystal · 2^22 < ratio · (rate_stored + 1)`. The one degenerate corner
/// is excluded: when `rate · 128 <= crystal` (possible only for rates up to
/// 225007 with a crystal above the nominal 28.8 MHz, such as 225001 at
/// 28801000 Hz) the quotient overflows the 28-bit field, the mask garbles
/// it and the stored rate saturates.
pub proof fn lemma_sample_rate_round_trip(xtal: u32, rate: u32)
    requires
        MIN_RTL_XTAL_FREQ <= xtal <= MAX_RTL_XTAL_FREQ,
        rate_in_envelope(rate),
        rate as int * 128 > xtal as int,
    ensures
        ({
            let num = xtal as int * 0x400000;
            let rr = real_ratio_spec(xtal, rate) as int;
            let v = achieved_rate_spec(xtal, rate) as int;
            &&& rr > 0
            &&& rr * v <= num
            &&& num < rr * (v + 1)
        }),
{
    let num = xtal as int * 0x400000;
    assert(120791760896000 <= num <= 120800149504000);
    let q = num / rate as int;
    let m = rsamp_ratio_spec(xtal, rate);
    let rru = real_ratio_spec(xtal, rate);
    let rr = rru as int;
    // the quotient fits 29 bits: num = xtal * 2^22 < rate * 128 * 2^22
    assert(num < rate as int * 0x20000000);
    lemma_multiply_divide_lt(num, rate as int, 0x20000000);
    assert(q < 0x20000000);
    lemma_fundamental_div_mod(num, rate as int);
    lemma_mod_bound(num, rate as int);
    assert(rate as int * q <= num);
    if q >= 0x10000000 {
        // a quotient with bit 28 set puts the rate at or below
        // crystal / 64, and the envelope then puts it at or below 300 kHz
        lemma_mul_inequality(0x10000000, q, rate as int);
        assert(rate as int * 0x10000000 <= num) by {
            vstd::arithmetic::mul::lemma_mul_is_commutative(rate as int, q);
            vstd::arithmetic::mul::lemma_mul_is_commutative(rate as int, 0x10000000);
        }
        assert(rate <= 300000);
        // so the quotient is at least 28799000 * 2^22 / 300000
        lemma_div_is_ordered_by_denominator(num, rate as int, 300000);
        lemma_div_is_ordered((300000 * 402639202) as int, num, 300000);
        lemma_div_multiples_vanish(402639202, 300000);
        assert(q >= 402639202);
        let x = q as u64;
        assert(rru >= 134203744 && rru <= 0x1ffffffc) by (bit_vector)
            requires
                x >= 402639202u64 && x < 0x20000000u64 && m == (x & 0x0fff_fffc) && rru == (m | ((m
                    & 0x0800_0000) << 1)),
        ;
        // no saturation: the achieved rate stays near the envelope
        lemma_div_is_ordered_by_denominator(num, 134203744, rr);
        lemma_div_is_ordered(num, 120800149504000, 134203744);
        lemma_multiply_divide_lt(120800149504000, 134203744, 900127);
        assert(num / rr <= 900126);
    } else {
        // a quotient below bit 28 is at least 28799000 * 2^22 / 3200000
        lemma_div_is_ordered_by_denominator(num, rate as int, 3200000);
        lemma_div_is_ordered((3200000 * 37747425) as int, num, 3200000);
        lemma_div_multiples_vanish(37747425, 3200000);
        assert(q >= 37747425);
        let x = q as u64;
        assert(rru >= 37747422 && rru <= 0x1ffffffc) by (bit_vector)
            requires
                x >= 37747425u64 && x < 0x10000000u64 && m == (x & 0x0fff_fffc) && rru == (m | ((m
                    & 0x0800_0000) << 1)),
        ;
        // no saturation: the achieved rate stays near the envelope
        lemma_div_is_ordered_by_denominator(num, 37747422, rr);
        lemma_div_is_ordered(num, 120800149504000, 37747422);
        lemma_multiply_divide_lt(120800149504000, 37747422, 3200368);
        assert(num / rr <= 3200367);
    }
    let v = num / rr;
    assert(achieved_rate_spec(xtal, rate) as int == v);
    lemma_fundamental_div_mod(num, rr);
    lemma_mod_bound(num, rr);
    assert(rr * (v + 1) == rr * v + rr) by (nonlinear_arith);
}

/// The demodulator register values the leave-direct-sampling path
/// programs, for the registers it owns: the IF-frequency bytes (cleared),
/// the ADC input selector, the zero-IF mode register and the ADC datapath
/// selector.
pub open spec fn off_path_reg_value(page: u8, addr: u16) -> Option<u16> {
    if page == 1 && addr == 0x19 {
        Some(0u16)
    } else if page == 1 && addr == 0x1a {
        Some(0u16)
    } else if page == 1 && addr == 0x1b {
        Some(0u16)
    } else if page == 0 && addr == 0x08 {
        Some(0xcdu16)
    } else if page == 1 && addr == 0xb1 {
        Some(0x1bu16)
    } else if page == 0 && addr == 0x06 {
        Some(0x80u16)
    } else {
        None
    }
}

/// Direct-sampling round trip: from a session in the off configuration
/// (no R82xx tuner, direct sampling not forced), switching direct sampling
/// on and back off leaves every IF-frequency and ADC-datapath register at
/// its off-configuration value, whatever it held before the round trip. In
/// particular a register that started at that value is restored by the
/// round trip.
pub proof fn lemma_direct_sampling_round_trip(
    s: RtlSdr,
    on_mode: DirectSampleMode,
    v0: u16,
    page: u8,
    addr: u16,
)
    requires
        s.wf(),
        s.tuner != TunerKind::R820T,
        !s.force_ds,
        s.direct_sampling == DirectSampleMode::Off,
        on_mode != DirectSampleMode::Off,
        off_path_reg_value(page, addr) is Some,
    ensures
        ({
            let s_on = RtlSdr { direct_sampling: on_mode, ..s };
            demod_reg_after(
                v0,
                direct_sampling_actions(s, on_mode) + direct_sampling_actions(
                    s_on,
                    DirectSampleMode::Off,
                ),
                page,
                addr,
            ) == off_path_reg_value(page, addr)->Some_0
        }),
{
    let s_on = RtlSdr { direct_sampling: on_mode, ..s };
    let on_acts = direct_sampling_actions(s, on_mode);
    let off_acts = direct_sampling_actions(s_on, DirectSampleMode::Off);
    lemma_demod_reg_after_concat(v0, on_acts, off_acts, page, addr);
    let w = demod_reg_after(v0, on_acts, page, addr);
    assert(crate::math::if_freq_high(0, s.xtal) == 0 && crate::math::if_freq_mid(0, s.xtal) == 0
        && crate::math::if_freq_low(0, s.xtal) == 0) by {
        vstd::arithmetic::div_mod::lemma_div_is_strictly_smaller(s.xtal as int, 2);
        vstd::arithmetic::div_mod::lemma_basic_div(s.xtal as int / 2, s.xtal as int);
        assert((0u32 >> 16) & 0x3f == 0 && (0u32 >> 8) & 0xff == 0 && 0u32 & 0xff == 0)
            by (bit_vector);
    }
    let flat = seq![
        repeater_action(true),
        Action::TunerInit,
        repeater_action(false),
        Action::DemodWriteReg { page: 1, addr: 0x19, val: 0x00, len: 1 },
        Action::DemodWriteReg { page: 1, addr: 0x1a, val: 0x00, len: 1 },
        Action::DemodWriteReg { page: 1, addr: 0x1b, val: 0x00, len: 1 },
        Action::DemodWriteReg { page: 0, addr: 0x08, val: 0xcd, len: 1 },
        Action::DemodWriteReg { page: 1, addr: 0xb1, val: 0x1b, len: 1 },
        Action::DemodWriteReg { page: 0, addr: 0x06, val: 0x80, len: 1 },
        repeater_action(true),
        Action::TunerSetFreq { freq: s.freq },
        repeater_action(false),
    ];
    assert(off_acts =~= flat);
    if page == 1 && addr == 0x19 {
        lemma_reg_after_last_write(w, flat, 3, page, addr);
    } else if page == 1 && addr == 0x1a {
        lemma_reg_after_last_write(w, flat, 4, page, addr);
    } else if page == 1 && addr == 0x1b {
        lemma_reg_after_last_write(w, flat, 5, page, addr);
    } else if page == 0 && addr == 0x08 {
        lemma_reg_after_last_write(w, flat, 6, page, addr);
    } else if page == 1 && addr == 0xb1 {
        lemma_reg_after_last_write(w, flat, 7, page, addr);
    } else {
        lemma_reg_after_last_write(w, flat, 8, page, addr);
    }
}

/// A forced bias tee cannot be switched off: whatever the caller requests,
/// the GPIO sequence for the bias-tee pin ends with an output write that
/// drives bit 0 high.
pub proof fn lemma_bias_tee_forced(s: RtlSdr, on: bool, gpd: u16, gpoe: u16, gpo: u16)
    requires
        s.force_bt,
    ensures
        ({
            let acts = gpio_actions(0, on || s.force_bt, gpd, gpoe, gpo);
            &&& acts.len() == 3
            &&& (acts[2] matches Action::WriteReg { block, addr, val, len } && block == BLOCK_SYS
                && addr == GPO && val & 1 == 1 && len == 1)
        }),
{
    assert((gpo | (1u16 << 0u16)) & 1 == 1) by (bit_vector);
}

} // verus!
