//! Register operations as data.
//!
//! Every driver operation computes the exact sequence of register operations
//! it wants performed and returns it as a `Vec<Action>`; an unverified shell
//! owns the USB transport and plays the sequence against the hardware. The
//! tuner-directed variants stand for calls into the concrete tuner chip
//! driver, which the core only knows through its capability contract.

use crate::TunerGain;
use vstd::prelude::*;

verus! {

/// Block selector of the demodulator's own register page.
pub const BLOCK_DEMOD: u8 = 0;
/// Block selector of the USB controller registers.
pub const BLOCK_USB: u8 = 1;
/// Block selector of the system/GPIO registers.
pub const BLOCK_SYS: u8 = 2;

/// USB block: system control register.
pub const USB_SYSCTL: u16 = 0x2000;
/// USB block: endpoint A control register.
pub const USB_EPA_CTL: u16 = 0x2148;
/// USB block: endpoint A maximum packet size register.
pub const USB_EPA_MAXPKT: u16 = 0x2158;

/// SYS block: demodulator power/control register.
pub const DEMOD_CTL: u16 = 0x3000;
/// SYS block: GPIO output value register.
pub const GPO: u16 = 0x3001;
/// SYS block: GPIO output enable register.
pub const GPOE: u16 = 0x3003;
/// SYS block: GPIO direction-disable register.
pub const GPD: u16 = 0x3004;
/// SYS block: secondary demodulator control register.
pub const DEMOD_CTL_1: u16 = 0x300b;

/// Size of the configuration EEPROM, in bytes.
pub const EEPROM_SIZE: usize = 256;

/// One register operation, to be performed in sequence order.
#[derive(Debug, Clone, Copy, PartialEq, Eq, Structural)]
pub enum Action {
    /// Block-addressed register write: `write_reg(block, addr, val, len)`.
    WriteReg { block: u8, addr: u16, val: u16, len: u8 },
    /// Demodulator register write: `demod_write_reg(page, addr, val, len)`.
    DemodWriteReg { page: u8, addr: u16, val: u16, len: u8 },
    /// Demodulator soft reset: assert then clear the reset bit.
    ResetDemod,
    /// Initialize the detected tuner chip.
    TunerInit,
    /// Power the tuner chip down.
    TunerExit,
    /// Command the tuner to the given RF frequency, in Hz.
    TunerSetFreq { freq: u32 },
    /// Reconfigure the tuner's IF bandwidth for the given sample rate.
    TunerSetBandwidth { bw: u32, rate: u32 },
    /// Push the (PPM-corrected) reference frequency into the tuner.
    TunerSetXtalFreq { freq: u32 },
    /// Apply a gain request to the tuner.
    TunerSetGain { gain: TunerGain },
}

/// The I2C-repeater register write: the bridge to the tuner's I2C bus is
/// enabled before and disabled after every tuner or EEPROM access.
pub open spec fn repeater_action(enable: bool) -> Action {
    Action::DemodWriteReg {
        page: 1,
        addr: 0x01,
        val: if enable {
            0x18
        } else {
            0x10
        },
        len: 1,
    }
}

/// Returns the I2C-repeater register write.
pub fn i2c_repeater_action(enable: bool) -> (r: Action)
    ensures
        r == repeater_action(enable),
{
    if enable {
        Action::DemodWriteReg { page: 1, addr: 0x01, val: 0x18, len: 1 }
    } else {
        Action::DemodWriteReg { page: 1, addr: 0x01, val: 0x10, len: 1 }
    }
}

/// Whether an action writes the demodulator register `(page, addr)`.
pub open spec fn writes_demod_reg(a: Action, page: u8, addr: u16) -> bool {
    match a {
        Action::DemodWriteReg { page: p, addr: ad, val: _, len: _ } => p == page && ad == addr,
        _ => false,
    }
}

/// The value a demodulator write carries (meaningful only when the action is
/// a demodulator write).
pub open spec fn demod_written_val(a: Action) -> u16 {
    match a {
        Action::DemodWriteReg { page: _, addr: _, val: v, len: _ } => v,
        _ => 0,
    }
}

/// The value of demodulator register `(page, addr)` after playing `actions`
/// against hardware where it held `v0`: the last write to the register wins.
/// A write is modeled at its base address alone, which is exact for the
/// single-byte writes the laws inspect.
pub open spec fn demod_reg_after(v0: u16, actions: Seq<Action>, page: u8, addr: u16) -> u16
    decreases actions.len(),
{
    if actions.len() == 0 {
        v0
    } else {
        let last = actions[actions.len() - 1];
        if writes_demod_reg(last, page, addr) {
            demod_written_val(last)
        } else {
            demod_reg_after(v0, actions.drop_last(), page, addr)
        }
    }
}

/// Playing a concatenation is playing the parts in order.
pub proof fn lemma_demod_reg_after_concat(v0: u16, s1: Seq<Action>, s2: Seq<Action>, page: u8, addr: u16)
    ensures
        demod_reg_after(v0, s1 + s2, page, addr) == demod_reg_after(
            demod_reg_after(v0, s1, page, addr),
            s2,
            page,
            addr,
        ),
    decreases s2.len(),
{
    if s2.len() == 0 {
        assert(s1 + s2 =~= s1);
    } else {
        let all = s1 + s2;
        assert(all[all.len() - 1] == s2[s2.len() - 1]);
        if !writes_demod_reg(s2[s2.len() - 1], page, addr) {
            assert(all.drop_last() =~= s1 + s2.drop_last());
            lemma_demod_reg_after_concat(v0, s1, s2.drop_last(), page, addr);
        }
    }
}

/// A sequence with no write to a register leaves it unchanged.
pub proof fn lemma_reg_after_no_write(v0: u16, s: Seq<Action>, page: u8, addr: u16)
    requires
        forall|i: int| 0 <= i < s.len() ==> !writes_demod_reg(s[i], page, addr),
    ensures
        demod_reg_after(v0, s, page, addr) == v0,
    decreases s.len(),
{
    if s.len() > 0 {
        lemma_reg_after_no_write(v0, s.drop_last(), page, addr);
    }
}

/// The last write to a register in a sequence determines its value.
pub proof fn lemma_reg_after_last_write(v0: u16, s: Seq<Action>, i: int, page: u8, addr: u16)
    requires
        0 <= i < s.len(),
        writes_demod_reg(s[i], page, addr),
        forall|j: int| i < j < s.len() ==> !writes_demod_reg(s[j], page, addr),
    ensures
        demod_reg_after(v0, s, page, addr) == demod_written_val(s[i]),
    decreases s.len(),
{
    if i < s.len() - 1 {
        lemma_reg_after_last_write(v0, s.drop_last(), i, page, addr);
    }
}

} // verus!
