//! Tests of the protocol driver: state handling and the exact register
//! sequences of each operation.

use rtlsdr::DirectSampleMode;
use rtlsdr::TunerGain;
use rtlsdr::action::Action;
use rtlsdr::action::BLOCK_SYS;
use rtlsdr::action::BLOCK_USB;
use rtlsdr::action::DEMOD_CTL;
use rtlsdr::action::GPD;
use rtlsdr::action::GPO;
use rtlsdr::action::GPOE;
use rtlsdr::action::USB_EPA_CTL;
use rtlsdr::error::RtlsdrError;
use rtlsdr::rtlsdr::RtlSdr;
use rtlsdr::tuner::TunerKind;

fn repeater(enable: bool) -> Action {
    Action::DemodWriteReg {
        page: 1,
        addr: 0x01,
        val: if enable { 0x18 } else { 0x10 },
        len: 1,
    }
}

#[test]
fn new_has_defaults() {
    let s = RtlSdr::new();
    assert_eq!(s.get_center_freq(), 0);
    assert_eq!(s.get_sample_rate(), 0);
    assert_eq!(s.get_freq_correction(), 0);
    assert_eq!(s.get_xtal_freq(), 28_800_000);
    assert_eq!(s.get_tuner_xtal_freq(), 28_800_000);
    assert!(matches!(s.tuner, TunerKind::NoTuner));
    assert!(matches!(s.direct_sampling, DirectSampleMode::Off));
    assert!(!s.force_bt);
    assert!(!s.force_ds);
}

#[test]
fn sample_rate_exact_division() {
    let mut s = RtlSdr::new();
    let acts = s.set_sample_rate(2_048_000, 0).unwrap();
    // 28.8 MHz * 2^22 / 2048000 = 58982400 exactly: the rate is achieved
    assert_eq!(s.get_sample_rate(), 2_048_000);
    // ratio register halves: 58982400 = 0x3840000
    assert!(acts.contains(&Action::DemodWriteReg { page: 1, addr: 0x9f, val: 0x0384, len: 2 }));
    assert!(acts.contains(&Action::DemodWriteReg { page: 1, addr: 0xa1, val: 0x0000, len: 2 }));
    // soft reset closes the sequence: assert then clear the reset bit
    assert_eq!(acts[acts.len() - 2], Action::DemodWriteReg { page: 1, addr: 0x01, val: 0x14, len: 1 });
    assert_eq!(acts[acts.len() - 1], Action::DemodWriteReg { page: 1, addr: 0x01, val: 0x10, len: 1 });
}

#[test]
fn sample_rate_low_band_quantized() {
    let mut s = RtlSdr::new();
    s.set_sample_rate(250_000, 0).unwrap();
    // floor(28.8e6 * 2^22 / 250000) = 483183820, low bits already clear,
    // sign-bit duplication reproduces the same effective ratio
    assert_eq!(s.get_sample_rate(), 250_000);
}

#[test]
fn sample_rate_without_tuner_has_no_retune() {
    let mut s = RtlSdr::new();
    let acts = s.set_sample_rate(1_024_000, 0).unwrap();
    assert_eq!(acts[0], repeater(true));
    assert_eq!(
        acts[1],
        Action::TunerSetBandwidth { bw: 1_024_000, rate: 1_024_000 }
    );
    assert_eq!(acts[2], repeater(false));
    // no tuner: bandwidth bracket, two ratio writes, two correction writes,
    // two soft-reset writes
    assert_eq!(acts.len(), 9);
    assert!(!acts.iter().any(|a| matches!(a, Action::TunerSetFreq { .. })));
}

#[test]
fn sample_rate_with_r820t_reprograms_if_and_retunes() {
    let mut s = RtlSdr::new();
    s.attach_tuner(Some(TunerKind::R820T)).unwrap();
    s.finish_init(0x02);
    s.set_center_freq(100_000_000).unwrap();
    let acts = s.set_sample_rate(2_048_000, 3_570_000).unwrap();
    // the IF pass reprograms the tuner's reported IF...
    assert_eq!(acts[3], Action::DemodWriteReg { page: 1, addr: 0x19, val: 0x38, len: 1 });
    assert_eq!(acts[4], Action::DemodWriteReg { page: 1, addr: 0x1a, val: 0x11, len: 1 });
    assert_eq!(acts[5], Action::DemodWriteReg { page: 1, addr: 0x1b, val: 0x11, len: 1 });
    // ...and retunes the current center frequency through the tuner
    assert!(acts.contains(&Action::TunerSetFreq { freq: 100_000_000 }));
}

#[test]
fn sample_rate_round_trip_formula() {
    // the stored rate is the exact truncated quotient of crystal * 2^22 by
    // the effective resampler ratio
    for xtal in [28_800_000u64, 28_800_500, 28_799_000] {
        let num: u64 = xtal * (1 << 22);
        for rate in
            [225_001u32, 250_000, 300_000, 900_001, 1_000_000, 1_920_011, 2_048_000, 3_200_000]
        {
            if rate as u64 * 128 <= xtal {
                // the degenerate corner: the quotient overflows the 28-bit
                // field and the stored rate saturates instead
                continue;
            }
            let mut s = RtlSdr::new();
            if xtal != 28_800_000 {
                s.set_xtal_freq(xtal as u32, 0, 0).unwrap();
            }
            s.set_sample_rate(rate, 0).unwrap();
            let v = s.get_sample_rate() as u64;
            let rs = (num / rate as u64) & 0x0fff_fffc;
            let rr = rs | ((rs & 0x0800_0000) << 1);
            assert!(rr > 0, "xtal {xtal} rate {rate}: ratio must be nonzero");
            assert!(
                rr * v <= num && num < rr * (v + 1),
                "xtal {xtal} rate {rate}: round trip broken"
            );
        }
    }
}

#[test]
fn sample_rate_saturates_in_degenerate_corner() {
    // at the top of the crystal window a rate at the envelope's bottom edge
    // overflows the 28-bit ratio field: the masked ratio degenerates and
    // the stored rate saturates
    let mut s = RtlSdr::new();
    s.set_xtal_freq(28_801_000, 0, 0).unwrap();
    s.set_sample_rate(225_001, 0).unwrap();
    assert_eq!(s.get_sample_rate(), u32::MAX);
}

#[test]
fn sample_rate_rejects_out_of_envelope() {
    let mut s = RtlSdr::new();
    s.set_sample_rate(2_048_000, 0).unwrap();
    let stored = s.get_sample_rate();
    for rate in [0u32, 225_000, 300_001, 500_000, 900_000, 3_200_001] {
        let r = s.set_sample_rate(rate, 0);
        match r {
            Err(RtlsdrError::RtlsdrErr(m)) => {
                assert_eq!(m, format!("Invalid sample rate: {rate} Hz"));
            }
            other => panic!("rate {rate} must be rejected, got {other:?}"),
        }
        assert_eq!(s.get_sample_rate(), stored, "rate {rate} must not change state");
    }
}

#[test]
fn sample_rate_envelope_boundaries_accepted() {
    for rate in [225_001u32, 300_000, 900_001, 3_200_000] {
        let mut s = RtlSdr::new();
        assert!(s.set_sample_rate(rate, 0).is_ok(), "rate {rate} must be accepted");
    }
}

#[test]
fn freq_correction_is_idempotent() {
    let mut s = RtlSdr::new();
    let first = s.set_freq_correction(5).unwrap();
    assert!(!first.is_empty());
    assert_eq!(s.get_freq_correction(), 5);
    // the second call with the same value performs no register operations
    let second = s.set_freq_correction(5).unwrap();
    assert!(second.is_empty());
    assert_eq!(s.get_freq_correction(), 5);
}

#[test]
fn freq_correction_zero_on_fresh_state_is_noop() {
    let mut s = RtlSdr::new();
    let acts = s.set_freq_correction(0).unwrap();
    assert!(acts.is_empty());
}

#[test]
fn freq_correction_programs_field_and_crystal() {
    let mut s = RtlSdr::new();
    let acts = s.set_freq_correction(10).unwrap();
    // offset = round(-10 * 2^24 / 10^6) = -168 = 0xff58 as 16-bit
    assert_eq!(acts[0], Action::DemodWriteReg { page: 1, addr: 0x3f, val: 0x58, len: 1 });
    assert_eq!(acts[1], Action::DemodWriteReg { page: 1, addr: 0x3e, val: 0x3f, len: 1 });
    // corrected tuner crystal: 28.8 MHz * 1.000010 truncated
    assert_eq!(acts[2], Action::TunerSetXtalFreq { freq: 28_800_288 });
    assert_eq!(s.get_tuner_xtal_freq(), 28_800_288);
    // retune follows on the tuner path
    assert_eq!(acts[3], repeater(true));
    assert_eq!(acts[4], Action::TunerSetFreq { freq: 0 });
    assert_eq!(acts[5], repeater(false));
}

#[test]
fn fir_default_packs_to_known_bytes() {
    let s = RtlSdr::new();
    let fir = rtlsdr::fir::default_fir();
    let acts = s.set_fir(&fir);
    let expected: [u8; 20] = [
        0xca, 0xdc, 0xd7, 0xd8, 0xe0, 0xf2, 0x0e, 0x35, 0x06, 0x50, 0x9c, 0x0d, 0x71, 0x11, 0x14,
        0x71, 0x74, 0x19, 0x41, 0xa5,
    ];
    assert_eq!(acts.len(), 20);
    for (i, b) in expected.iter().enumerate() {
        assert_eq!(
            acts[i],
            Action::DemodWriteReg { page: 1, addr: 0x1c + i as u16, val: *b as u16, len: 1 }
        );
    }
}

#[test]
fn fir_out_of_range_tap_fails() {
    let s = RtlSdr::new();
    let mut fir = vec![200i32, -36, -41, -40, -32, -14, 14, 53];
    fir.extend_from_slice(&[101, 156, 215, 273, 327, 372, 404, 421]);
    // 200 does not fit the signed 8-bit range of the first eight taps
    assert!(s.try_set_fir(&fir).is_none());
}

#[test]
fn fir_out_of_range_wide_tap_fails() {
    let s = RtlSdr::new();
    let mut fir = vec![-54i32, -36, -41, -40, -32, -14, 14, 53];
    fir.extend_from_slice(&[101, 156, 215, 273, 327, 372, 404, 2048]);
    // 2048 does not fit the signed 12-bit range of the last eight taps
    assert!(s.try_set_fir(&fir).is_none());
}

#[test]
fn fir_in_range_succeeds_via_check() {
    let s = RtlSdr::new();
    let fir = rtlsdr::fir::default_fir();
    let acts = s.try_set_fir(&fir).unwrap();
    assert_eq!(acts.len(), 20);
}

#[test]
fn if_freq_zero_clears_registers() {
    let s = RtlSdr::new();
    let acts = s.set_if_freq(0);
    assert_eq!(
        acts,
        vec![
            Action::DemodWriteReg { page: 1, addr: 0x19, val: 0x00, len: 1 },
            Action::DemodWriteReg { page: 1, addr: 0x1a, val: 0x00, len: 1 },
            Action::DemodWriteReg { page: 1, addr: 0x1b, val: 0x00, len: 1 },
        ]
    );
}

#[test]
fn if_freq_nominal_r82xx_triple() {
    let s = RtlSdr::new();
    // round(3.57 MHz * 2^22 / 28.8 MHz) = round(519918.93) = 519919;
    // negated, split 6/8/8
    let acts = s.set_if_freq(3_570_000);
    assert_eq!(
        acts,
        vec![
            Action::DemodWriteReg { page: 1, addr: 0x19, val: 0x38, len: 1 },
            Action::DemodWriteReg { page: 1, addr: 0x1a, val: 0x11, len: 1 },
            Action::DemodWriteReg { page: 1, addr: 0x1b, val: 0x11, len: 1 },
        ]
    );
}

fn apply_demod_writes(regs: &mut std::collections::HashMap<(u8, u16), u16>, acts: &[Action]) {
    for a in acts {
        if let Action::DemodWriteReg { page, addr, val, .. } = a {
            regs.insert((*page, *addr), *val);
        }
    }
}

#[test]
fn direct_sampling_round_trip_restores_registers() {
    let mut s = RtlSdr::new();
    // the off-path configuration for a session without an R82xx tuner
    let watched: [((u8, u16), u16); 6] = [
        ((1, 0x19), 0x00),
        ((1, 0x1a), 0x00),
        ((1, 0x1b), 0x00),
        ((0, 0x08), 0xcd),
        ((1, 0xb1), 0x1b),
        ((0, 0x06), 0x80),
    ];
    let mut regs: std::collections::HashMap<(u8, u16), u16> =
        watched.iter().cloned().collect();
    let before = regs.clone();
    let on = s.set_direct_sampling(DirectSampleMode::On).unwrap();
    assert!(matches!(s.direct_sampling, DirectSampleMode::On));
    let off = s.set_direct_sampling(DirectSampleMode::Off).unwrap();
    assert!(matches!(s.direct_sampling, DirectSampleMode::Off));
    apply_demod_writes(&mut regs, &on);
    apply_demod_writes(&mut regs, &off);
    for (key, _) in watched.iter() {
        assert_eq!(regs[key], before[key], "register {key:?} must be restored");
    }
}

#[test]
fn direct_sampling_swap_selects_swapped_adc() {
    let mut s = RtlSdr::new();
    let acts = s.set_direct_sampling(DirectSampleMode::OnSwap).unwrap();
    assert!(matches!(s.direct_sampling, DirectSampleMode::OnSwap));
    assert!(acts.contains(&Action::DemodWriteReg { page: 0, addr: 0x06, val: 0x90, len: 1 }));
    // the tuner is powered down under the repeater
    assert_eq!(acts[0], repeater(true));
    assert_eq!(acts[1], Action::TunerExit);
    assert_eq!(acts[2], repeater(false));
}

#[test]
fn direct_sampling_forced_overrides_request() {
    let mut s = RtlSdr::new();
    s.force_ds = true;
    s.set_direct_sampling(DirectSampleMode::Off).unwrap();
    assert!(matches!(s.direct_sampling, DirectSampleMode::OnSwap));
}

#[test]
fn direct_sampling_tunes_through_if_path() {
    let mut s = RtlSdr::new();
    s.set_direct_sampling(DirectSampleMode::On).unwrap();
    let acts = s.set_center_freq(14_200_000).unwrap();
    // in direct-sampling mode the frequency goes straight to the IF field
    assert_eq!(acts.len(), 3);
    assert!(matches!(acts[0], Action::DemodWriteReg { page: 1, addr: 0x19, .. }));
    assert_eq!(s.get_center_freq(), 14_200_000);
}

#[test]
fn center_freq_tuner_path() {
    let mut s = RtlSdr::new();
    let acts = s.set_center_freq(100_000_000).unwrap();
    assert_eq!(
        acts,
        vec![repeater(true), Action::TunerSetFreq { freq: 100_000_000 }, repeater(false)]
    );
    assert_eq!(s.get_center_freq(), 100_000_000);
}

#[test]
fn bias_tee_forced_stays_on() {
    let mut s = RtlSdr::new();
    s.force_bt = true;
    // request off: the output bit is still driven high
    let acts = s.set_bias_tee(false, 0x0000, 0x0000, 0x0000);
    assert_eq!(acts.len(), 3);
    assert_eq!(acts[2], Action::WriteReg { block: BLOCK_SYS, addr: GPO, val: 0x0001, len: 1 });
}

#[test]
fn bias_tee_unforced_switches() {
    let s = RtlSdr::new();
    let on = s.set_bias_tee(true, 0x00ff, 0x0000, 0x0000);
    assert_eq!(on[0], Action::WriteReg { block: BLOCK_SYS, addr: GPD, val: 0x00fe, len: 1 });
    assert_eq!(on[1], Action::WriteReg { block: BLOCK_SYS, addr: GPOE, val: 0x0001, len: 1 });
    assert_eq!(on[2], Action::WriteReg { block: BLOCK_SYS, addr: GPO, val: 0x0001, len: 1 });
    let off = s.set_bias_tee(false, 0x0000, 0x0000, 0x0003);
    assert_eq!(off[2], Action::WriteReg { block: BLOCK_SYS, addr: GPO, val: 0x0002, len: 1 });
}

#[test]
fn gpio_pin_masking() {
    let s = RtlSdr::new();
    let acts = s.set_gpio(3, true, 0xffff, 0x0000, 0x0000);
    assert_eq!(acts[0], Action::WriteReg { block: BLOCK_SYS, addr: GPD, val: 0xfff7, len: 1 });
    assert_eq!(acts[1], Action::WriteReg { block: BLOCK_SYS, addr: GPOE, val: 0x0008, len: 1 });
    assert_eq!(acts[2], Action::WriteReg { block: BLOCK_SYS, addr: GPO, val: 0x0008, len: 1 });
}

#[test]
fn detection_two_matches_selects_first() {
    let table = vec![
        rtlsdr::tuner::TunerInfo {
            kind: TunerKind::R820T,
            i2c_addr: 0x34,
            check_addr: 0x00,
            check_val: 0x69,
        },
        rtlsdr::tuner::TunerInfo {
            kind: TunerKind::R820T,
            i2c_addr: 0x74,
            check_addr: 0x00,
            check_val: 0x69,
        },
    ];
    let reads = vec![Some(0x69u8), Some(0x69u8)];
    assert_eq!(rtlsdr::tuner::search_tuner(&table, &reads), Some(0));
}

#[test]
fn detection_skips_failed_and_mismatched_reads() {
    let table = vec![
        rtlsdr::tuner::TunerInfo {
            kind: TunerKind::R820T,
            i2c_addr: 0x34,
            check_addr: 0x00,
            check_val: 0x69,
        },
        rtlsdr::tuner::TunerInfo {
            kind: TunerKind::R820T,
            i2c_addr: 0x74,
            check_addr: 0x00,
            check_val: 0x69,
        },
    ];
    // a read error on one candidate is recoverable: the next is probed
    assert_eq!(rtlsdr::tuner::search_tuner(&table, &vec![None, Some(0x69)]), Some(1));
    assert_eq!(rtlsdr::tuner::search_tuner(&table, &vec![Some(0x55), Some(0x69)]), Some(1));
    assert_eq!(rtlsdr::tuner::search_tuner(&table, &vec![None, Some(0x55)]), None);
}

#[test]
fn known_device_table_matching() {
    assert!(rtlsdr::is_known_device(0x0bda, 0x2832));
    assert!(rtlsdr::is_known_device(0x0bda, 0x2838));
    assert!(!rtlsdr::is_known_device(0x0bda, 0x2839));
    assert!(!rtlsdr::is_known_device(0x1d6b, 0x0002));
    let table = rtlsdr::known_devices();
    assert_eq!(table.len(), 2);
    assert_eq!(table[0], rtlsdr::UsbId { vid: 0x0bda, pid: 0x2832 });
}

#[test]
fn detection_with_builtin_table() {
    let table = rtlsdr::tuner::known_tuners();
    let reads = vec![Some(0x69u8)];
    let idx = rtlsdr::tuner::search_tuner(&table, &reads).unwrap();
    assert!(matches!(table[idx].kind, TunerKind::R820T));
    let kind = rtlsdr::tuner::detect_tuner(&table, &reads).unwrap();
    assert!(matches!(kind, TunerKind::R820T));
    assert_eq!(rtlsdr::tuner::detect_tuner(&table, &vec![Some(0x00)]), None);
}

#[test]
fn attach_tuner_without_tuner_is_fatal() {
    let mut s = RtlSdr::new();
    let r = s.attach_tuner(None);
    assert!(matches!(r, Err(RtlsdrError::FatalInit(_))));
    assert!(matches!(s.tuner, TunerKind::NoTuner));
}

#[test]
fn finish_init_decodes_eeprom_flags() {
    // bit 1 clear forces the bias tee; bit 0 set forces direct sampling
    let mut s = RtlSdr::new();
    s.attach_tuner(Some(TunerKind::R820T)).unwrap();
    s.finish_init(0x00);
    assert!(s.force_bt);
    assert!(!s.force_ds);

    let mut s = RtlSdr::new();
    s.attach_tuner(Some(TunerKind::R820T)).unwrap();
    s.finish_init(0x03);
    assert!(!s.force_bt);
    assert!(s.force_ds);
}

#[test]
fn attach_tuner_actions_sequence() {
    let mut s = RtlSdr::new();
    let acts = s.attach_tuner(Some(TunerKind::R820T)).unwrap();
    assert!(matches!(s.tuner, TunerKind::R820T));
    assert_eq!(s.tuner_xtal, 28_800_000);
    assert_eq!(acts.len(), 7);
    assert_eq!(acts[0], Action::TunerSetXtalFreq { freq: 28_800_000 });
    // zero-IF off, in-phase ADC input, the R82xx nominal IF, inversion on
    assert_eq!(acts[1], Action::DemodWriteReg { page: 1, addr: 0xb1, val: 0x1a, len: 1 });
    assert_eq!(acts[2], Action::DemodWriteReg { page: 0, addr: 0x08, val: 0x4d, len: 1 });
    assert_eq!(acts[3], Action::DemodWriteReg { page: 1, addr: 0x19, val: 0x38, len: 1 });
    assert_eq!(acts[6], Action::DemodWriteReg { page: 1, addr: 0x15, val: 0x01, len: 1 });
    // the tuner's own initialization and the repeater release follow once
    // the EEPROM flags are in
    let fin = s.finish_init(0x02);
    assert_eq!(fin, vec![Action::TunerInit, repeater(false)]);
}

#[test]
fn init_baseband_sequence() {
    let s = RtlSdr::new();
    let acts = s.init_baseband();
    assert_eq!(acts.len(), 43);
    assert_eq!(acts[0], Action::WriteReg { block: BLOCK_USB, addr: 0x2000, val: 0x09, len: 1 });
    assert_eq!(acts[5], Action::ResetDemod);
    // the default filter lands in the 20 FIR registers
    assert_eq!(acts[14], Action::DemodWriteReg { page: 1, addr: 0x1c, val: 0xca, len: 1 });
    assert_eq!(acts[33], Action::DemodWriteReg { page: 1, addr: 0x2f, val: 0xa5, len: 1 });
    // the sequence ends by disabling the auxiliary clock output
    assert_eq!(acts[42], Action::DemodWriteReg { page: 0, addr: 0x0d, val: 0x83, len: 1 });
}

#[test]
fn deinit_powers_down_tuner_then_demod() {
    let s = RtlSdr::new();
    let acts = s.deinit_baseband();
    assert_eq!(
        acts,
        vec![
            repeater(true),
            Action::TunerExit,
            repeater(false),
            Action::WriteReg { block: BLOCK_SYS, addr: DEMOD_CTL, val: 0x20, len: 1 },
        ]
    );
}

#[test]
fn reset_buffer_cycles_endpoint() {
    let s = RtlSdr::new();
    let acts = s.reset_buffer();
    assert_eq!(
        acts,
        vec![
            Action::WriteReg { block: BLOCK_USB, addr: USB_EPA_CTL, val: 0x1002, len: 2 },
            Action::WriteReg { block: BLOCK_USB, addr: USB_EPA_CTL, val: 0x0000, len: 2 },
        ]
    );
}

#[test]
fn testmode_register_values() {
    let s = RtlSdr::new();
    assert_eq!(
        s.set_testmode(true),
        vec![Action::DemodWriteReg { page: 0, addr: 0x19, val: 0x03, len: 1 }]
    );
    assert_eq!(
        s.set_testmode(false),
        vec![Action::DemodWriteReg { page: 0, addr: 0x19, val: 0x05, len: 1 }]
    );
}

#[test]
fn tuner_bandwidth_zero_derives_from_rate() {
    let mut s = RtlSdr::new();
    s.set_sample_rate(2_048_000, 0).unwrap();
    let acts = s.set_tuner_bandwidth(0, 0).unwrap();
    assert_eq!(
        acts,
        vec![
            repeater(true),
            Action::TunerSetBandwidth { bw: 2_048_000, rate: 2_048_000 },
            repeater(false),
        ]
    );
    assert_eq!(s.bw, 2_048_000);
}

#[test]
fn tuner_gain_is_bracketed() {
    let s = RtlSdr::new();
    let acts = s.set_tuner_gain(TunerGain::Manual(496));
    assert_eq!(acts.len(), 3);
    assert_eq!(acts[0], repeater(true));
    assert!(matches!(acts[1], Action::TunerSetGain { gain: TunerGain::Manual(496) }));
    assert_eq!(acts[2], repeater(false));
    let auto = s.set_tuner_gain(TunerGain::Auto);
    assert!(matches!(auto[1], Action::TunerSetGain { gain: TunerGain::Auto }));
}

#[test]
fn offset_tuning_is_a_stub() {
    let s = RtlSdr::new();
    assert!(s.set_offset_tuning(true).unwrap().is_empty());
    assert!(s.set_offset_tuning(false).unwrap().is_empty());
}

#[test]
fn xtal_freq_out_of_window_rejected() {
    let mut s = RtlSdr::new();
    let r = s.set_xtal_freq(28_797_000, 0, 0);
    match r {
        Err(RtlsdrError::RtlsdrErr(m)) => {
            assert_eq!(m, "set_xtal_freq error: rtl_freq 28797000 out of bounds");
        }
        other => panic!("expected rejection, got {other:?}"),
    }
    assert_eq!(s.xtal, 28_800_000);
}

#[test]
fn xtal_freq_update_pushes_tuner_crystal() {
    let mut s = RtlSdr::new();
    let acts = s.set_xtal_freq(28_800_500, 0, 0).unwrap();
    assert_eq!(s.xtal, 28_800_500);
    // tuner crystal follows the demodulator's when zero is passed
    assert_eq!(s.tuner_xtal, 28_800_500);
    assert_eq!(acts, vec![Action::TunerSetXtalFreq { freq: 28_800_500 }]);
}

#[test]
fn xtal_freq_matching_tuner_value_is_noop() {
    let mut s = RtlSdr::new();
    let acts = s.set_xtal_freq(0, 28_800_000, 0).unwrap();
    assert!(acts.is_empty());
    assert_eq!(s.tuner_xtal, 28_800_000);
}

#[test]
fn corrected_xtal_rounds_down() {
    let mut s = RtlSdr::new();
    s.set_freq_correction(-3).unwrap();
    // 28.8 MHz * 0.999997 = 28799913.6, truncated
    assert_eq!(s.get_tuner_xtal_freq(), 28_799_913);
}
