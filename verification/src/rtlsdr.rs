//! The protocol driver: tuning state plus the register sequences of every
//! operation.
//!
//! Each operation validates its request, updates the tuning state and
//! returns the exact register operations to perform, in order, as data. The
//! driver holds no transport: an unverified shell owns the USB handle, reads
//! the registers an operation needs beforehand, and plays the returned
//! actions.

use crate::DirectSampleMode;
use crate::TunerGain;
use crate::action::Action;
use crate::action::BLOCK_SYS;
use crate::action::BLOCK_USB;
use crate::action::DEMOD_CTL;
use crate::action::DEMOD_CTL_1;
use crate::action::GPD;
use crate::action::GPO;
use crate::action::GPOE;
use crate::action::USB_EPA_CTL;
use crate::action::USB_EPA_MAXPKT;
use crate::action::USB_SYSCTL;
use crate::action::repeater_action;
use crate::action::i2c_repeater_action;
use crate::error::RtlsdrError;
use crate::error::invalid_rate_message;
use crate::error::invalid_xtal_message;
use crate::fir::default_fir;
use crate::fir::fir_actions;
use crate::fir::fir_ok;
use crate::fir::fir_write_actions;
use crate::math::DEF_RTL_XTAL_FREQ;
use crate::math::MAX_RTL_XTAL_FREQ;
use crate::math::MIN_RTL_XTAL_FREQ;
use crate::math::achieved_rate_spec;
use crate::math::check_rate_in_envelope;
use crate::math::compute_if_freq;
use crate::math::compute_resampler;
use crate::math::corrected_xtal;
use crate::math::if_freq_high;
use crate::math::if_freq_low;
use crate::math::if_freq_mid;
use crate::math::rate_in_envelope;
use crate::math::real_ratio_high;
use crate::math::real_ratio_low;
use crate::tuner::TunerKind;
use vstd::prelude::*;

verus! {

/// The tuning state of one open device session.
pub struct RtlSdr {
    /// The detected tuner chip; `NoTuner` before detection.
    pub tuner: TunerKind,
    /// Last commanded RF center frequency, in Hz.
    pub freq: u32,
    /// Last achieved (not requested) sample rate, in Hz.
    pub rate: u32,
    /// Tuner IF bandwidth, in Hz; `0` derives it from the sample rate.
    pub bw: u32,
    /// Direct-sampling mode.
    pub direct_sampling: DirectSampleMode,
    /// Demodulator reference crystal, in Hz.
    pub xtal: u32,
    /// Tuner reference crystal, in Hz.
    pub tuner_xtal: u32,
    /// Signed PPM frequency correction.
    pub ppm_correction: i32,
    /// Local-oscillator offset subtracted before tuning; present for future
    /// offset-tuning support and currently always zero.
    pub offset_freq: u32,
    /// Decoded from the EEPROM: the bias tee may never be switched off.
    pub force_bt: bool,
    /// Decoded from the EEPROM: direct sampling is forced to `OnSwap`.
    pub force_ds: bool,
    /// The FIR coefficient set loaded at initialization.
    pub fir: Vec<i32>,
}

impl RtlSdr {
    /// Well-formedness of the tuning state: the crystal stays in the window
    /// the driver accepts, the PPM correction is within the register field's
    /// reach, offset tuning is not in use, and the filter is packable.
    pub open spec fn wf(self) -> bool {
        &&& MIN_RTL_XTAL_FREQ <= self.xtal <= MAX_RTL_XTAL_FREQ
        &&& -127 <= self.ppm_correction <= 128
        &&& self.offset_freq == 0
        &&& fir_ok(self.fir@)
    }

    /// Fresh state for a newly opened session: everything zero or default,
    /// no tuner, direct sampling off, nominal crystals, vendor filter.
    pub fn new() -> (r: RtlSdr)
        ensures
            r.wf(),
            r.tuner == TunerKind::NoTuner,
            r.freq == 0,
            r.rate == 0,
            r.bw == 0,
            r.direct_sampling == DirectSampleMode::Off,
            r.xtal == DEF_RTL_XTAL_FREQ,
            r.tuner_xtal == DEF_RTL_XTAL_FREQ,
            r.ppm_correction == 0,
            r.offset_freq == 0,
            !r.force_bt,
            !r.force_ds,
            r.fir@ == crate::fir::default_fir_spec(),
    {
        RtlSdr {
            tuner: TunerKind::NoTuner,
            freq: 0,
            rate: 0,
            bw: 0,
            direct_sampling: DirectSampleMode::Off,
            xtal: DEF_RTL_XTAL_FREQ,
            tuner_xtal: DEF_RTL_XTAL_FREQ,
            ppm_correction: 0,
            offset_freq: 0,
            force_bt: false,
            force_ds: false,
            fir: default_fir(),
        }
    }

    /// The last commanded center frequency, in Hz.
    pub fn get_center_freq(&self) -> (r: u32)
        ensures
            r == self.freq,
    {
        self.freq
    }

    /// The last achieved sample rate, in Hz.
    pub fn get_sample_rate(&self) -> (r: u32)
        ensures
            r == self.rate,
    {
        self.rate
    }

    /// The stored PPM correction.
    pub fn get_freq_correction(&self) -> (r: i32)
        ensures
            r == self.ppm_correction,
    {
        self.ppm_correction
    }

    /// The demodulator crystal with the PPM correction applied.
    pub fn get_xtal_freq(&self) -> (r: u32)
        requires
            self.wf(),
        ensures
            r == crate::math::corrected_xtal(self.xtal, self.ppm_correction),
    {
        crate::math::compute_corrected_xtal(self.xtal, self.ppm_correction)
    }

    /// The tuner crystal with the PPM correction applied; this is the value
    /// pushed into the tuner whenever either changes.
    pub fn get_tuner_xtal_freq(&self) -> (r: u32)
        requires
            self.wf(),
        ensures
            r == crate::math::corrected_xtal(self.tuner_xtal, self.ppm_correction),
    {
        crate::math::compute_corrected_xtal(self.tuner_xtal, self.ppm_correction)
    }

    /// Flushes the streaming endpoint: reset then release endpoint A.
    pub fn reset_buffer(&self) -> (r: Vec<Action>)
        ensures
            r@ == reset_buffer_actions(),
    {
        let mut v: Vec<Action> = Vec::new();
        v.push(Action::WriteReg { block: BLOCK_USB, addr: USB_EPA_CTL, val: 0x1002, len: 2 });
        v.push(Action::WriteReg { block: BLOCK_USB, addr: USB_EPA_CTL, val: 0x0000, len: 2 });
        assert(v@ =~= reset_buffer_actions());
        v
    }

    /// Switches the ADC test-pattern mode on or off.
    pub fn set_testmode(&self, on: bool) -> (r: Vec<Action>)
        ensures
            r@ == testmode_actions(on),
    {
        let mut v: Vec<Action> = Vec::new();
        if on {
            v.push(Action::DemodWriteReg { page: 0, addr: 0x19, val: 0x03, len: 1 });
        } else {
            v.push(Action::DemodWriteReg { page: 0, addr: 0x19, val: 0x05, len: 1 });
        }
        assert(v@ =~= testmode_actions(on));
        v
    }

    /// Programs the 22-bit IF-frequency field from a frequency in Hz,
    /// against the stored nominal crystal (PPM correction is applied through
    /// the resampler and the tuner crystal, never here).
    pub fn set_if_freq(&self, freq: u32) -> (r: Vec<Action>)
        requires
            self.wf(),
        ensures
            r@ == if_freq_actions(freq, self.xtal),
    {
        let (hi, mid, lo) = compute_if_freq(freq, self.xtal);
        let mut v: Vec<Action> = Vec::new();
        v.push(Action::DemodWriteReg { page: 1, addr: 0x19, val: hi, len: 1 });
        v.push(Action::DemodWriteReg { page: 1, addr: 0x1a, val: mid, len: 1 });
        v.push(Action::DemodWriteReg { page: 1, addr: 0x1b, val: lo, len: 1 });
        assert(v@ =~= if_freq_actions(freq, self.xtal));
        v
    }

    /// Configures a GPIO pin as a driven output: clear its direction-disable
    /// bit, then set its output-enable bit. `gpd` and `gpoe` are the current
    /// values of the two registers.
    fn set_gpio_output(&self, pin: u8, gpd: u16, gpoe: u16) -> (r: Vec<Action>)
        requires
            pin < 8,
        ensures
            r@ == gpio_output_actions(pin, gpd, gpoe),
    {
        let mask: u16 = 1u16 << pin;
        let mut v: Vec<Action> = Vec::new();
        v.push(Action::WriteReg { block: BLOCK_SYS, addr: GPD, val: gpd & !mask, len: 1 });
        v.push(Action::WriteReg { block: BLOCK_SYS, addr: GPOE, val: gpoe | mask, len: 1 });
        assert(v@ =~= gpio_output_actions(pin, gpd, gpoe));
        v
    }

    /// Drives a GPIO pin's output bit. `gpo` is the current value of the
    /// output register.
    fn set_gpio_bit(&self, pin: u8, val: bool, gpo: u16) -> (r: Vec<Action>)
        requires
            pin < 8,
        ensures
            r@ == gpio_bit_actions(pin, val, gpo),
    {
        let mask: u16 = 1u16 << pin;
        let mut v: Vec<Action> = Vec::new();
        if val {
            v.push(Action::WriteReg { block: BLOCK_SYS, addr: GPO, val: gpo | mask, len: 1 });
        } else {
            v.push(Action::WriteReg { block: BLOCK_SYS, addr: GPO, val: gpo & !mask, len: 1 });
        }
        assert(v@ =~= gpio_bit_actions(pin, val, gpo));
        v
    }

    /// Configures a pin as output and drives it. When the EEPROM forced the
    /// bias tee on, a request to drive the pin low is overridden to high.
    pub fn set_gpio(&self, pin: u8, on: bool, gpd: u16, gpoe: u16, gpo: u16) -> (r: Vec<Action>)
        requires
            pin < 8,
        ensures
            r@ == gpio_actions(pin, on || self.force_bt, gpd, gpoe, gpo),
    {
        let eff_on = if self.force_bt {
            true
        } else {
            on
        };
        let mut v = self.set_gpio_output(pin, gpd, gpoe);
        let mut bit = self.set_gpio_bit(pin, eff_on, gpo);
        v.append(&mut bit);
        assert(v@ =~= gpio_actions(pin, on || self.force_bt, gpd, gpoe, gpo));
        v
    }

    /// Switches the bias tee, which is hardwired to GPIO pin 0. A request to
    /// switch it off is a no-op on the output bit while the EEPROM forces it
    /// on.
    pub fn set_bias_tee(&self, on: bool, gpd: u16, gpoe: u16, gpo: u16) -> (r: Vec<Action>)
        ensures
            r@ == gpio_actions(0, on || self.force_bt, gpd, gpoe, gpo),
    {
        self.set_gpio(0, on, gpd, gpoe, gpo)
    }

    /// Applies a gain request to the tuner, bracketed by the I2C repeater.
    pub fn set_tuner_gain(&self, gain: TunerGain) -> (r: Vec<Action>)
        ensures
            r@ == tuner_gain_actions(gain),
    {
        let mut v: Vec<Action> = Vec::new();
        v.push(i2c_repeater_action(true));
        v.push(Action::TunerSetGain { gain });
        v.push(i2c_repeater_action(false));
        assert(v@ =~= tuner_gain_actions(gain));
        v
    }

    /// Powers the session down: tuner off (bracketed by the I2C repeater),
    /// then demodulator and ADCs off.
    pub fn deinit_baseband(&self) -> (r: Vec<Action>)
        ensures
            r@ == deinit_baseband_actions(),
    {
        let mut v: Vec<Action> = Vec::new();
        v.push(i2c_repeater_action(true));
        v.push(Action::TunerExit);
        v.push(i2c_repeater_action(false));
        v.push(Action::WriteReg { block: BLOCK_SYS, addr: DEMOD_CTL, val: 0x20, len: 1 });
        assert(v@ =~= deinit_baseband_actions());
        v
    }

    /// Programs the resampler's 14-bit sample-rate correction field from a
    /// PPM value.
    pub fn set_sample_freq_correction(&self, ppm: i32) -> (r: Vec<Action>)
        requires
            -127 <= ppm <= 128,
        ensures
            r@ == sample_corr_actions(ppm),
    {
        let (lo, hi) = crate::math::compute_ppm_offset(ppm);
        let mut v: Vec<Action> = Vec::new();
        v.push(Action::DemodWriteReg { page: 1, addr: 0x3f, val: lo, len: 1 });
        v.push(Action::DemodWriteReg { page: 1, addr: 0x3e, val: hi, len: 1 });
        assert(v@ =~= sample_corr_actions(ppm));
        v
    }

    /// Offset tuning is a stub until tuners beyond the R82xx family are
    /// supported: no register operations.
    pub fn set_offset_tuning(&self, _enable: bool) -> (r: Result<Vec<Action>, RtlsdrError>)
        ensures
            (r is Ok && r->Ok_0@ == Seq::<Action>::empty()),
    {
        Ok(Vec::new())
    }

    /// Tunes to a center frequency. In direct-sampling mode the frequency
    /// is programmed directly as an IF offset; otherwise the tuner is
    /// commanded, bracketed by the I2C repeater. The commanded frequency is
    /// stored verbatim either way.
    pub fn set_center_freq(&mut self, freq: u32) -> (r: Result<Vec<Action>, RtlsdrError>)
        requires
            old(self).wf(),
        ensures
            final(self).wf(),
            r is Ok,
            r->Ok_0@ == center_freq_actions(*old(self), freq),
            (*final(self) == RtlSdr { freq, ..*old(self) }),
    {
        let mut v: Vec<Action> = Vec::new();
        match self.direct_sampling {
            DirectSampleMode::Off => {
                v.push(i2c_repeater_action(true));
                v.push(Action::TunerSetFreq { freq: freq - self.offset_freq });
                v.push(i2c_repeater_action(false));
            },
            _ => {
                let mut w = self.set_if_freq(freq);
                v.append(&mut w);
            },
        }
        self.freq = freq;
        assert(v@ =~= center_freq_actions(*old(self), freq));
        Ok(v)
    }

    /// Applies a PPM frequency correction. Setting the stored value again
    /// is a no-op: no register operations, no retune. Otherwise the
    /// resampler's correction field is reprogrammed, the corrected crystal
    /// is pushed into the tuner, and the current center frequency is retuned
    /// so the correction takes effect end to end.
    pub fn set_freq_correction(&mut self, ppm: i32) -> (r: Result<Vec<Action>, RtlsdrError>)
        requires
            old(self).wf(),
            -127 <= ppm <= 128,
        ensures
            final(self).wf(),
            r is Ok,
            ppm == old(self).ppm_correction ==> (*final(self) == *old(self) && r->Ok_0@
                == Seq::<Action>::empty()),
            ppm != old(self).ppm_correction ==> ((*final(self) == RtlSdr {
                ppm_correction: ppm,
                ..*old(self)
            }) && r->Ok_0@ == freq_correction_actions(*old(self), ppm)),
    {
        if self.ppm_correction == ppm {
            return Ok(Vec::new());
        }
        self.ppm_correction = ppm;
        let mut v = self.set_sample_freq_correction(ppm);
        let corrected = self.get_tuner_xtal_freq();
        v.push(Action::TunerSetXtalFreq { freq: corrected });
        let f = self.freq;
        match self.set_center_freq(f) {
            Ok(mut w) => {
                v.append(&mut w);
                assert(v@ =~= freq_correction_actions(*old(self), ppm));
                Ok(v)
            },
            Err(e) => Err(e),
        }
    }

    /// Configures the sample rate. A rate outside the resampler's envelope
    /// is rejected with no state or hardware change. Otherwise the exact
    /// achievable rate is computed and stored, the tuner bandwidth is
    /// reconfigured, an R82xx tuner gets its IF and center frequency
    /// reprogrammed, the ratio registers are written, the PPM correction is
    /// reapplied and the demodulator is soft-reset.
    pub fn set_sample_rate(&mut self, rate: u32, tuner_if_freq: u32) -> (r: Result<
        Vec<Action>,
        RtlsdrError,
    >)
        requires
            old(self).wf(),
        ensures
            final(self).wf(),
            !rate_in_envelope(rate) ==> (r is Err && *final(self) == *old(self) && (r->Err_0
                matches RtlsdrError::RtlsdrErr(m) && m@ == invalid_rate_message(rate))),
            rate_in_envelope(rate) ==> (r is Ok && (*final(self) == RtlSdr {
                rate: achieved_rate_spec(old(self).xtal, rate),
                ..*old(self)
            }) && r->Ok_0@ == sample_rate_actions(*old(self), rate, tuner_if_freq)),
    {
        if !check_rate_in_envelope(rate) {
            return Err(RtlsdrError::RtlsdrErr(crate::error::render_invalid_rate(rate)));
        }
        let (rs, rr, achieved) = compute_resampler(self.xtal, rate);
        self.rate = achieved;
        let mut v: Vec<Action> = Vec::new();
        v.push(i2c_repeater_action(true));
        let bw_val = if self.bw > 0 {
            self.bw
        } else {
            self.rate
        };
        v.push(Action::TunerSetBandwidth { bw: bw_val, rate: self.rate });
        v.push(i2c_repeater_action(false));
        if self.tuner == TunerKind::R820T {
            let mut w = self.set_if_freq(tuner_if_freq);
            v.append(&mut w);
            let f = self.freq;
            match self.set_center_freq(f) {
                Ok(mut w2) => {
                    v.append(&mut w2);
                },
                Err(e) => {
                    return Err(e);
                },
            }
        }
        proof {
            assert(rs <= 0x0fff_fffc) by {
                let q = ((old(self).xtal as int * 0x400000) / rate as int) as u64;
                assert(q & 0x0fff_fffc <= 0x0fff_fffc) by (bit_vector);
            }
            assert(rr >> 16 <= 0x1fff && rr & 0xffff <= 0xffff) by (bit_vector)
                requires
                    rs <= 0x0fff_fffcu64 && rr == (rs | ((rs & 0x0800_0000) << 1)),
            ;
        }
        v.push(Action::DemodWriteReg { page: 1, addr: 0x9f, val: (rr >> 16) as u16, len: 2 });
        v.push(Action::DemodWriteReg { page: 1, addr: 0xa1, val: (rr & 0xffff) as u16, len: 2 });
        let mut c = self.set_sample_freq_correction(self.ppm_correction);
        v.append(&mut c);
        v.push(Action::DemodWriteReg { page: 1, addr: 0x01, val: 0x14, len: 1 });
        v.push(Action::DemodWriteReg { page: 1, addr: 0x01, val: 0x10, len: 1 });
        assert(v@ =~= sample_rate_actions(*old(self), rate, tuner_if_freq));
        Ok(v)
    }

    /// Reconfigures the tuner's IF bandwidth; `0` derives it from the
    /// current sample rate. The effective bandwidth is stored. An R82xx
    /// tuner shifts its IF when the bandwidth changes, so its reported IF is
    /// reprogrammed and the center frequency retuned.
    pub fn set_tuner_bandwidth(&mut self, bw: u32, tuner_if_freq: u32) -> (r: Result<
        Vec<Action>,
        RtlsdrError,
    >)
        requires
            old(self).wf(),
        ensures
            final(self).wf(),
            r is Ok,
            (*final(self) == RtlSdr {
                bw: if bw > 0 {
                    bw
                } else {
                    old(self).rate
                },
                ..*old(self)
            }),
            r->Ok_0@ == tuner_bandwidth_actions(*old(self), bw, tuner_if_freq),
    {
        let eff: u32 = if bw > 0 {
            bw
        } else {
            self.rate
        };
        let mut v: Vec<Action> = Vec::new();
        v.push(i2c_repeater_action(true));
        v.push(Action::TunerSetBandwidth { bw: eff, rate: self.rate });
        v.push(i2c_repeater_action(false));
        if self.tuner == TunerKind::R820T {
            let mut w = self.set_if_freq(tuner_if_freq);
            v.append(&mut w);
            let f = self.freq;
            match self.set_center_freq(f) {
                Ok(mut w2) => {
                    v.append(&mut w2);
                },
                Err(e) => {
                    return Err(e);
                },
            }
        }
        self.bw = eff;
        assert(v@ =~= tuner_bandwidth_actions(*old(self), bw, tuner_if_freq));
        Ok(v)
    }

    /// Switches direct-sampling mode; a forced configuration silently
    /// overrides any request with `OnSwap`. Entering the mode powers the
    /// tuner down and routes the ADC straight through (optionally swapped);
    /// leaving it reinitializes the tuner and restores the IF datapath. Both
    /// paths end by retuning the current center frequency.
    pub fn set_direct_sampling(&mut self, mode: DirectSampleMode) -> (r: Result<
        Vec<Action>,
        RtlsdrError,
    >)
        requires
            old(self).wf(),
        ensures
            final(self).wf(),
            r is Ok,
            (*final(self) == RtlSdr {
                direct_sampling: effective_ds_mode(*old(self), mode),
                ..*old(self)
            }),
            r->Ok_0@ == direct_sampling_actions(*old(self), mode),
    {
        let eff = if self.force_ds {
            DirectSampleMode::OnSwap
        } else {
            mode
        };
        let mut v: Vec<Action> = Vec::new();
        match eff {
            DirectSampleMode::On | DirectSampleMode::OnSwap => {
                v.push(i2c_repeater_action(true));
                v.push(Action::TunerExit);
                v.push(i2c_repeater_action(false));
                v.push(Action::DemodWriteReg { page: 1, addr: 0xb1, val: 0x1a, len: 1 });
                v.push(Action::DemodWriteReg { page: 1, addr: 0x15, val: 0x00, len: 1 });
                v.push(Action::DemodWriteReg { page: 0, addr: 0x08, val: 0x4d, len: 1 });
                if eff == DirectSampleMode::OnSwap {
                    v.push(Action::DemodWriteReg { page: 0, addr: 0x06, val: 0x90, len: 1 });
                } else {
                    v.push(Action::DemodWriteReg { page: 0, addr: 0x06, val: 0x80, len: 1 });
                }
                self.direct_sampling = eff;
            },
            DirectSampleMode::Off => {
                v.push(i2c_repeater_action(true));
                v.push(Action::TunerInit);
                v.push(i2c_repeater_action(false));
                if self.tuner == TunerKind::R820T {
                    // the tuner's own initialization restores the IF
                    // frequency and spectrum inversion
                } else {
                    let mut w = self.set_if_freq(0);
                    v.append(&mut w);
                    v.push(Action::DemodWriteReg { page: 0, addr: 0x08, val: 0xcd, len: 1 });
                    v.push(Action::DemodWriteReg { page: 1, addr: 0xb1, val: 0x1b, len: 1 });
                }
                v.push(Action::DemodWriteReg { page: 0, addr: 0x06, val: 0x80, len: 1 });
                self.direct_sampling = DirectSampleMode::Off;
            },
        }
        let f = self.freq;
        match self.set_center_freq(f) {
            Ok(mut w) => {
                v.append(&mut w);
                assert(v@ =~= direct_sampling_actions(*old(self), mode));
                Ok(v)
            },
            Err(e) => Err(e),
        }
    }

    /// Loads a FIR coefficient set into the 20 filter registers.
    pub fn set_fir(&self, fir: &Vec<i32>) -> (r: Vec<Action>)
        requires
            fir_ok(fir@),
        ensures
            r@ == fir_actions(fir@),
    {
        fir_write_actions(fir)
    }

    /// Loads a FIR coefficient set after checking that it is packable:
    /// `None` when a tap is out of its signed 8-bit or 12-bit range.
    pub fn try_set_fir(&self, fir: &Vec<i32>) -> (r: Option<Vec<Action>>)
        ensures
            fir_ok(fir@) ==> (r is Some && r->Some_0@ == fir_actions(fir@)),
            !fir_ok(fir@) ==> r is None,
    {
        if crate::fir::check_fir_ok(fir) {
            Some(fir_write_actions(fir))
        } else {
            None
        }
    }

    /// The baseband bring-up sequence: USB FIFO mode, demodulator power-on
    /// and soft reset, spectrum inversion off, DDC shift and IF registers
    /// cleared, the stored FIR filter loaded, SDR mode selected, FSM hold
    /// registers initialized, AGC and PID loops disabled, the I/Q datapath
    /// selected, zero-IF with DC/IQ compensation enabled, and the auxiliary
    /// clock output disabled.
    pub fn init_baseband(&self) -> (r: Vec<Action>)
        requires
            self.wf(),
        ensures
            r@ == init_baseband_actions(self.fir@),
    {
        let mut v: Vec<Action> = Vec::new();
        v.push(Action::WriteReg { block: BLOCK_USB, addr: USB_SYSCTL, val: 0x09, len: 1 });
        v.push(Action::WriteReg { block: BLOCK_USB, addr: USB_EPA_MAXPKT, val: 0x0002, len: 2 });
        v.push(Action::WriteReg { block: BLOCK_USB, addr: USB_EPA_CTL, val: 0x1002, len: 2 });
        v.push(Action::WriteReg { block: BLOCK_SYS, addr: DEMOD_CTL_1, val: 0x22, len: 1 });
        v.push(Action::WriteReg { block: BLOCK_SYS, addr: DEMOD_CTL, val: 0xe8, len: 1 });
        v.push(Action::ResetDemod);
        v.push(Action::DemodWriteReg { page: 1, addr: 0x15, val: 0x00, len: 1 });
        v.push(Action::DemodWriteReg { page: 1, addr: 0x16, val: 0x0000, len: 2 });
        v.push(Action::DemodWriteReg { page: 1, addr: 0x16, val: 0x00, len: 1 });
        v.push(Action::DemodWriteReg { page: 1, addr: 0x17, val: 0x00, len: 1 });
        v.push(Action::DemodWriteReg { page: 1, addr: 0x18, val: 0x00, len: 1 });
        v.push(Action::DemodWriteReg { page: 1, addr: 0x19, val: 0x00, len: 1 });
        v.push(Action::DemodWriteReg { page: 1, addr: 0x1a, val: 0x00, len: 1 });
        v.push(Action::DemodWriteReg { page: 1, addr: 0x1b, val: 0x00, len: 1 });
        let mut f = fir_write_actions(&self.fir);
        v.append(&mut f);
        v.push(Action::DemodWriteReg { page: 0, addr: 0x19, val: 0x05, len: 1 });
        v.push(Action::DemodWriteReg { page: 1, addr: 0x93, val: 0xf0, len: 1 });
        v.push(Action::DemodWriteReg { page: 1, addr: 0x94, val: 0x0f, len: 1 });
        v.push(Action::DemodWriteReg { page: 1, addr: 0x11, val: 0x00, len: 1 });
        v.push(Action::DemodWriteReg { page: 1, addr: 0x04, val: 0x00, len: 1 });
        v.push(Action::DemodWriteReg { page: 0, addr: 0x61, val: 0x60, len: 1 });
        v.push(Action::DemodWriteReg { page: 0, addr: 0x06, val: 0x80, len: 1 });
        v.push(Action::DemodWriteReg { page: 1, addr: 0xb1, val: 0x1b, len: 1 });
        v.push(Action::DemodWriteReg { page: 0, addr: 0x0d, val: 0x83, len: 1 });
        assert(v@ =~= init_baseband_actions(self.fir@));
        v
    }

    /// Attaches the detected tuner: the initialization steps that follow
    /// detection, still under the enabled I2C repeater and before the EEPROM
    /// is read. An unrecognized or missing tuner is a fatal initialization
    /// failure: the session must not be handed out. On success the tuner
    /// crystal is copied from the demodulator's, the corrected value is
    /// pushed into the tuner, zero-IF mode is disabled, the in-phase ADC
    /// input is selected, the R82xx nominal IF is programmed and spectrum
    /// inversion is enabled.
    pub fn attach_tuner(&mut self, detected: Option<TunerKind>) -> (r: Result<
        Vec<Action>,
        RtlsdrError,
    >)
        requires
            old(self).wf(),
        ensures
            final(self).wf(),
            detected != Some(TunerKind::R820T) ==> (r is Err && *final(self) == *old(self)
                && r->Err_0 is FatalInit),
            detected == Some(TunerKind::R820T) ==> (r is Ok && (*final(self) == RtlSdr {
                tuner: TunerKind::R820T,
                tuner_xtal: old(self).xtal,
                ..*old(self)
            }) && r->Ok_0@ == attach_tuner_actions(*old(self))),
    {
        match detected {
            Some(TunerKind::R820T) => {},
            _ => {
                return Err(RtlsdrError::FatalInit("no recognizable tuner found".to_owned()));
            },
        }
        self.tuner = TunerKind::R820T;
        self.tuner_xtal = self.xtal;
        let corrected = self.get_tuner_xtal_freq();
        let mut v: Vec<Action> = Vec::new();
        v.push(Action::TunerSetXtalFreq { freq: corrected });
        v.push(Action::DemodWriteReg { page: 1, addr: 0xb1, val: 0x1a, len: 1 });
        v.push(Action::DemodWriteReg { page: 0, addr: 0x08, val: 0x4d, len: 1 });
        let mut w = self.set_if_freq(crate::tuner::R82XX_IF_FREQ);
        v.append(&mut w);
        v.push(Action::DemodWriteReg { page: 1, addr: 0x15, val: 0x01, len: 1 });
        assert(v@ =~= attach_tuner_actions(*old(self)));
        Ok(v)
    }

    /// Finishes initialization once the EEPROM's flag byte has been read
    /// (under the still-enabled I2C repeater): decodes the forced-bias-tee
    /// and forced-direct-sampling flags, initializes the tuner and releases
    /// the repeater; the session is then ready.
    pub fn finish_init(&mut self, eeprom_byte7: u8) -> (r: Vec<Action>)
        requires
            old(self).wf(),
        ensures
            final(self).wf(),
            (*final(self) == RtlSdr {
                force_bt: eeprom_byte7 & 0x02 == 0,
                force_ds: eeprom_byte7 & 0x01 != 0,
                ..*old(self)
            }),
            r@ == finish_init_actions(),
    {
        self.force_bt = eeprom_byte7 & 0x02 == 0;
        self.force_ds = eeprom_byte7 & 0x01 != 0;
        let mut v: Vec<Action> = Vec::new();
        v.push(Action::TunerInit);
        v.push(i2c_repeater_action(false));
        assert(v@ =~= finish_init_actions());
        v
    }

    /// Reprograms the reference crystals. A nonzero demodulator frequency
    /// outside the accepted window is rejected with no change. A changed
    /// demodulator crystal reprograms the stored sample rate (whose own
    /// validation can fail after the crystal is already updated); a tuner
    /// crystal that differs from the corrected value the tuner currently
    /// holds is stored (zero copies the demodulator's), pushed corrected
    /// into the tuner, and followed by a retune when a frequency is set.
    #[verifier::rlimit(100)]
    pub fn set_xtal_freq(&mut self, rtl_freq: u32, tuner_freq: u32, tuner_if_freq: u32) -> (r:
        Result<Vec<Action>, RtlsdrError>)
        requires
            old(self).wf(),
        ensures
            final(self).wf(),
            xtal_rejected(rtl_freq) ==> (r is Err && *final(self) == *old(self) && (r->Err_0
                matches RtlsdrError::RtlsdrErr(m) && m@ == invalid_xtal_message(rtl_freq))),
            (!xtal_rejected(rtl_freq) && xtal_rate_fails(*old(self), rtl_freq)) ==> (r is Err
                && *final(self) == xtal_crystal_stage(*old(self), rtl_freq) && (r->Err_0
                matches RtlsdrError::RtlsdrErr(m) && m@ == invalid_rate_message(
                old(self).rate,
            ))),
            (!xtal_rejected(rtl_freq) && !xtal_rate_fails(*old(self), rtl_freq)) ==> (r is Ok
                && *final(self) == xtal_final_state(*old(self), rtl_freq, tuner_freq) && r->Ok_0@
                == xtal_actions(*old(self), rtl_freq, tuner_freq, tuner_if_freq)),
    {
        if rtl_freq > 0 && !(MIN_RTL_XTAL_FREQ <= rtl_freq && rtl_freq <= MAX_RTL_XTAL_FREQ) {
            return Err(RtlsdrError::RtlsdrErr(crate::error::render_invalid_xtal(rtl_freq)));
        }
        let mut v: Vec<Action> = Vec::new();
        if rtl_freq > 0 && self.xtal != rtl_freq {
            self.xtal = rtl_freq;
            if self.rate != 0 {
                let stored = self.rate;
                match self.set_sample_rate(stored, tuner_if_freq) {
                    Ok(mut w) => {
                        v.append(&mut w);
                    },
                    Err(e) => {
                        return Err(e);
                    },
                }
            }
        }
        let current = self.get_tuner_xtal_freq();
        if current != tuner_freq {
            if tuner_freq == 0 {
                self.tuner_xtal = self.xtal;
            } else {
                self.tuner_xtal = tuner_freq;
            }
            let corrected = self.get_tuner_xtal_freq();
            v.push(Action::TunerSetXtalFreq { freq: corrected });
            if self.freq != 0 {
                let f = self.freq;
                match self.set_center_freq(f) {
                    Ok(mut w) => {
                        v.append(&mut w);
                    },
                    Err(e) => {
                        return Err(e);
                    },
                }
            }
        }
        assert(v@ =~= xtal_actions(*old(self), rtl_freq, tuner_freq, tuner_if_freq));
        Ok(v)
    }
}

/// Actions of [`RtlSdr::reset_buffer`].
pub open spec fn reset_buffer_actions() -> Seq<Action> {
    seq![
        Action::WriteReg { block: BLOCK_USB, addr: USB_EPA_CTL, val: 0x1002, len: 2 },
        Action::WriteReg { block: BLOCK_USB, addr: USB_EPA_CTL, val: 0x0000, len: 2 },
    ]
}

/// Actions of [`RtlSdr::set_testmode`].
pub open spec fn testmode_actions(on: bool) -> Seq<Action> {
    seq![
        Action::DemodWriteReg {
            page: 0,
            addr: 0x19,
            val: if on {
                0x03
            } else {
                0x05
            },
            len: 1,
        },
    ]
}

/// Actions of [`RtlSdr::set_if_freq`]: the three IF register bytes, high to
/// low.
pub open spec fn if_freq_actions(freq: u32, xtal: u32) -> Seq<Action> {
    seq![
        Action::DemodWriteReg { page: 1, addr: 0x19, val: if_freq_high(freq, xtal), len: 1 },
        Action::DemodWriteReg { page: 1, addr: 0x1a, val: if_freq_mid(freq, xtal), len: 1 },
        Action::DemodWriteReg { page: 1, addr: 0x1b, val: if_freq_low(freq, xtal), len: 1 },
    ]
}

/// Actions of [`RtlSdr::set_gpio`]'s output-configuration half.
pub open spec fn gpio_output_actions(pin: u8, gpd: u16, gpoe: u16) -> Seq<Action> {
    seq![
        Action::WriteReg { block: BLOCK_SYS, addr: GPD, val: gpd & !(1u16 << pin), len: 1 },
        Action::WriteReg { block: BLOCK_SYS, addr: GPOE, val: gpoe | (1u16 << pin), len: 1 },
    ]
}

/// Actions of [`RtlSdr::set_gpio`]'s output-drive half.
pub open spec fn gpio_bit_actions(pin: u8, val: bool, gpo: u16) -> Seq<Action> {
    seq![
        Action::WriteReg {
            block: BLOCK_SYS,
            addr: GPO,
            val: if val {
                gpo | (1u16 << pin)
            } else {
                gpo & !(1u16 << pin)
            },
            len: 1,
        },
    ]
}

/// Actions of [`RtlSdr::set_gpio`]: configure as output, then drive.
pub open spec fn gpio_actions(pin: u8, on: bool, gpd: u16, gpoe: u16, gpo: u16) -> Seq<Action> {
    gpio_output_actions(pin, gpd, gpoe) + gpio_bit_actions(pin, on, gpo)
}

/// Actions of [`RtlSdr::set_tuner_gain`].
pub open spec fn tuner_gain_actions(gain: TunerGain) -> Seq<Action> {
    seq![repeater_action(true), Action::TunerSetGain { gain }, repeater_action(false)]
}

/// Actions of [`RtlSdr::deinit_baseband`].
pub open spec fn deinit_baseband_actions() -> Seq<Action> {
    seq![
        repeater_action(true),
        Action::TunerExit,
        repeater_action(false),
        Action::WriteReg { block: BLOCK_SYS, addr: DEMOD_CTL, val: 0x20, len: 1 },
    ]
}

/// Actions of [`RtlSdr::set_sample_freq_correction`]: low byte, then bits
/// 8..14.
pub open spec fn sample_corr_actions(ppm: i32) -> Seq<Action> {
    seq![
        Action::DemodWriteReg { page: 1, addr: 0x3f, val: crate::math::ppm_offset_low(ppm), len: 1 },
        Action::DemodWriteReg {
            page: 1,
            addr: 0x3e,
            val: crate::math::ppm_offset_high(ppm),
            len: 1,
        },
    ]
}

/// Actions of [`RtlSdr::set_center_freq`]: the IF path in direct-sampling
/// mode, else the tuner path with the (currently always zero) LO offset
/// subtracted.
pub open spec fn center_freq_actions(s: RtlSdr, freq: u32) -> Seq<Action> {
    if s.direct_sampling == DirectSampleMode::Off {
        seq![
            repeater_action(true),
            Action::TunerSetFreq { freq: (freq - s.offset_freq) as u32 },
            repeater_action(false),
        ]
    } else {
        if_freq_actions(freq, s.xtal)
    }
}

/// Actions of [`RtlSdr::set_freq_correction`] when the value changes:
/// correction field, corrected tuner crystal, retune.
pub open spec fn freq_correction_actions(s: RtlSdr, ppm: i32) -> Seq<Action> {
    sample_corr_actions(ppm) + seq![
        Action::TunerSetXtalFreq { freq: corrected_xtal(s.tuner_xtal, ppm) },
    ] + center_freq_actions(s, s.freq)
}

/// Actions of [`RtlSdr::set_sample_rate`] on a legal rate: bandwidth
/// reconfiguration bracketed by the repeater, the R82xx IF/retune pass, the
/// two effective-ratio register halves, the reapplied correction, and the
/// soft reset.
pub open spec fn sample_rate_actions(s: RtlSdr, rate: u32, tuner_if_freq: u32) -> Seq<Action> {
    let new_rate = achieved_rate_spec(s.xtal, rate);
    let s1 = RtlSdr { rate: new_rate, ..s };
    let bw_val = if s.bw > 0 {
        s.bw
    } else {
        new_rate
    };
    seq![
        repeater_action(true),
        Action::TunerSetBandwidth { bw: bw_val, rate: new_rate },
        repeater_action(false),
    ] + (if s.tuner == TunerKind::R820T {
        if_freq_actions(tuner_if_freq, s.xtal) + center_freq_actions(s1, s.freq)
    } else {
        Seq::<Action>::empty()
    }) + seq![
        Action::DemodWriteReg { page: 1, addr: 0x9f, val: real_ratio_high(s.xtal, rate), len: 2 },
        Action::DemodWriteReg { page: 1, addr: 0xa1, val: real_ratio_low(s.xtal, rate), len: 2 },
    ] + sample_corr_actions(s.ppm_correction) + seq![
        Action::DemodWriteReg { page: 1, addr: 0x01, val: 0x14, len: 1 },
        Action::DemodWriteReg { page: 1, addr: 0x01, val: 0x10, len: 1 },
    ]
}

/// Actions of [`RtlSdr::set_tuner_bandwidth`].
pub open spec fn tuner_bandwidth_actions(s: RtlSdr, bw: u32, tuner_if_freq: u32) -> Seq<Action> {
    let eff = if bw > 0 {
        bw
    } else {
        s.rate
    };
    seq![
        repeater_action(true),
        Action::TunerSetBandwidth { bw: eff, rate: s.rate },
        repeater_action(false),
    ] + (if s.tuner == TunerKind::R820T {
        if_freq_actions(tuner_if_freq, s.xtal) + center_freq_actions(s, s.freq)
    } else {
        Seq::<Action>::empty()
    })
}

/// The direct-sampling mode that actually takes effect: a forced
/// configuration overrides any request with `OnSwap`.
pub open spec fn effective_ds_mode(s: RtlSdr, mode: DirectSampleMode) -> DirectSampleMode {
    if s.force_ds {
        DirectSampleMode::OnSwap
    } else {
        mode
    }
}

/// Actions of [`RtlSdr::set_direct_sampling`].
pub open spec fn direct_sampling_actions(s: RtlSdr, mode: DirectSampleMode) -> Seq<Action> {
    let m = effective_ds_mode(s, mode);
    if m == DirectSampleMode::Off {
        let s1 = RtlSdr { direct_sampling: DirectSampleMode::Off, ..s };
        seq![repeater_action(true), Action::TunerInit, repeater_action(false)] + (if s.tuner
            == TunerKind::R820T {
            Seq::<Action>::empty()
        } else {
            if_freq_actions(0, s.xtal) + seq![
                Action::DemodWriteReg { page: 0, addr: 0x08, val: 0xcd, len: 1 },
                Action::DemodWriteReg { page: 1, addr: 0xb1, val: 0x1b, len: 1 },
            ]
        }) + seq![Action::DemodWriteReg { page: 0, addr: 0x06, val: 0x80, len: 1 }]
            + center_freq_actions(s1, s.freq)
    } else {
        let s1 = RtlSdr { direct_sampling: m, ..s };
        seq![
            repeater_action(true),
            Action::TunerExit,
            repeater_action(false),
            Action::DemodWriteReg { page: 1, addr: 0xb1, val: 0x1a, len: 1 },
            Action::DemodWriteReg { page: 1, addr: 0x15, val: 0x00, len: 1 },
            Action::DemodWriteReg { page: 0, addr: 0x08, val: 0x4d, len: 1 },
            Action::DemodWriteReg {
                page: 0,
                addr: 0x06,
                val: if m == DirectSampleMode::OnSwap {
                    0x90
                } else {
                    0x80
                },
                len: 1,
            },
        ] + center_freq_actions(s1, s.freq)
    }
}

/// Actions of [`RtlSdr::init_baseband`].
pub open spec fn init_baseband_actions(fir: Seq<i32>) -> Seq<Action> {
    seq![
        Action::WriteReg { block: BLOCK_USB, addr: USB_SYSCTL, val: 0x09, len: 1 },
        Action::WriteReg { block: BLOCK_USB, addr: USB_EPA_MAXPKT, val: 0x0002, len: 2 },
        Action::WriteReg { block: BLOCK_USB, addr: USB_EPA_CTL, val: 0x1002, len: 2 },
        Action::WriteReg { block: BLOCK_SYS, addr: DEMOD_CTL_1, val: 0x22, len: 1 },
        Action::WriteReg { block: BLOCK_SYS, addr: DEMOD_CTL, val: 0xe8, len: 1 },
        Action::ResetDemod,
        Action::DemodWriteReg { page: 1, addr: 0x15, val: 0x00, len: 1 },
        Action::DemodWriteReg { page: 1, addr: 0x16, val: 0x0000, len: 2 },
        Action::DemodWriteReg { page: 1, addr: 0x16, val: 0x00, len: 1 },
        Action::DemodWriteReg { page: 1, addr: 0x17, val: 0x00, len: 1 },
        Action::DemodWriteReg { page: 1, addr: 0x18, val: 0x00, len: 1 },
        Action::DemodWriteReg { page: 1, addr: 0x19, val: 0x00, len: 1 },
        Action::DemodWriteReg { page: 1, addr: 0x1a, val: 0x00, len: 1 },
        Action::DemodWriteReg { page: 1, addr: 0x1b, val: 0x00, len: 1 },
    ] + fir_actions(fir) + seq![
        Action::DemodWriteReg { page: 0, addr: 0x19, val: 0x05, len: 1 },
        Action::DemodWriteReg { page: 1, addr: 0x93, val: 0xf0, len: 1 },
        Action::DemodWriteReg { page: 1, addr: 0x94, val: 0x0f, len: 1 },
        Action::DemodWriteReg { page: 1, addr: 0x11, val: 0x00, len: 1 },
        Action::DemodWriteReg { page: 1, addr: 0x04, val: 0x00, len: 1 },
        Action::DemodWriteReg { page: 0, addr: 0x61, val: 0x60, len: 1 },
        Action::DemodWriteReg { page: 0, addr: 0x06, val: 0x80, len: 1 },
        Action::DemodWriteReg { page: 1, addr: 0xb1, val: 0x1b, len: 1 },
        Action::DemodWriteReg { page: 0, addr: 0x0d, val: 0x83, len: 1 },
    ]
}

/// Actions of [`RtlSdr::attach_tuner`] on a recognized tuner.
pub open spec fn attach_tuner_actions(s: RtlSdr) -> Seq<Action> {
    seq![
        Action::TunerSetXtalFreq { freq: corrected_xtal(s.xtal, s.ppm_correction) },
        Action::DemodWriteReg { page: 1, addr: 0xb1, val: 0x1a, len: 1 },
        Action::DemodWriteReg { page: 0, addr: 0x08, val: 0x4d, len: 1 },
    ] + if_freq_actions(crate::tuner::R82XX_IF_FREQ, s.xtal) + seq![
        Action::DemodWriteReg { page: 1, addr: 0x15, val: 0x01, len: 1 },
    ]
}

/// Actions of [`RtlSdr::finish_init`].
pub open spec fn finish_init_actions() -> Seq<Action> {
    seq![Action::TunerInit, repeater_action(false)]
}

/// Whether [`RtlSdr::set_xtal_freq`] rejects the demodulator crystal
/// outright: nonzero and outside the accepted window.
pub open spec fn xtal_rejected(rtl_freq: u32) -> bool {
    rtl_freq > 0 && !(MIN_RTL_XTAL_FREQ <= rtl_freq && rtl_freq <= MAX_RTL_XTAL_FREQ)
}

/// State after the demodulator-crystal stage of [`RtlSdr::set_xtal_freq`].
pub open spec fn xtal_crystal_stage(s: RtlSdr, rtl_freq: u32) -> RtlSdr {
    if rtl_freq > 0 && s.xtal != rtl_freq {
        RtlSdr { xtal: rtl_freq, ..s }
    } else {
        s
    }
}

/// Whether the crystal change forces a sample-rate reprogram that its own
/// validation then rejects (the stored rate is no longer in the envelope).
pub open spec fn xtal_rate_fails(s: RtlSdr, rtl_freq: u32) -> bool {
    rtl_freq > 0 && s.xtal != rtl_freq && s.rate != 0 && !rate_in_envelope(s.rate)
}

/// State after the sample-rate stage of [`RtlSdr::set_xtal_freq`] on the
/// success path.
pub open spec fn xtal_rate_stage(s: RtlSdr, rtl_freq: u32) -> RtlSdr {
    let s1 = xtal_crystal_stage(s, rtl_freq);
    if rtl_freq > 0 && s.xtal != rtl_freq && s.rate != 0 {
        RtlSdr { rate: achieved_rate_spec(s1.xtal, s.rate), ..s1 }
    } else {
        s1
    }
}

/// Whether the tuner-crystal stage of [`RtlSdr::set_xtal_freq`] acts: the
/// request differs from the corrected value the tuner currently holds.
pub open spec fn xtal_tuner_stage_acts(s: RtlSdr, rtl_freq: u32, tuner_freq: u32) -> bool {
    corrected_xtal(xtal_rate_stage(s, rtl_freq).tuner_xtal, s.ppm_correction) != tuner_freq
}

/// Final state of [`RtlSdr::set_xtal_freq`] on the success path.
pub open spec fn xtal_final_state(s: RtlSdr, rtl_freq: u32, tuner_freq: u32) -> RtlSdr {
    let s2 = xtal_rate_stage(s, rtl_freq);
    if xtal_tuner_stage_acts(s, rtl_freq, tuner_freq) {
        RtlSdr {
            tuner_xtal: if tuner_freq == 0 {
                s2.xtal
            } else {
                tuner_freq
            },
            ..s2
        }
    } else {
        s2
    }
}

/// Actions of [`RtlSdr::set_xtal_freq`] on the success path.
pub open spec fn xtal_actions(s: RtlSdr, rtl_freq: u32, tuner_freq: u32, tuner_if_freq: u32) -> Seq<
    Action,
> {
    let s1 = xtal_crystal_stage(s, rtl_freq);
    let s3 = xtal_final_state(s, rtl_freq, tuner_freq);
    (if rtl_freq > 0 && s.xtal != rtl_freq && s.rate != 0 {
        sample_rate_actions(s1, s.rate, tuner_if_freq)
    } else {
        Seq::<Action>::empty()
    }) + (if xtal_tuner_stage_acts(s, rtl_freq, tuner_freq) {
        seq![
            Action::TunerSetXtalFreq { freq: corrected_xtal(s3.tuner_xtal, s.ppm_correction) },
        ] + (if s.freq != 0 {
            center_freq_actions(s3, s.freq)
        } else {
            Seq::<Action>::empty()
        })
    } else {
        Seq::<Action>::empty()
    })
}

} // verus!
