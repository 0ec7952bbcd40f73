//! Protocol/control-plane driver for an RTL2832U-based USB software-defined
//! radio.
//!
//! The crate is the verified core of the driver: tuning and sample-rate
//! arithmetic, FIR coefficient packing, register sequencing, tuner detection
//! and the tuning-state record. Every operation that would touch the hardware
//! returns the exact sequence of register operations as plain data
//! ([`action::Action`]); an unverified shell executes them over USB.

use vstd::prelude::*;

pub mod action;
pub mod error;
pub mod fir;
pub mod laws;
pub mod math;
pub mod rtlsdr;
pub mod tuner;

verus! {

/// Default length for a raw sample read buffer, in bytes.
pub const DEFAULT_BUF_LENGTH: usize = 16 * 16384;

/// Gain request for the tuner: hardware AGC or a fixed manual value in
/// tenths of a dB.
#[derive(Debug, Clone, Copy, PartialEq, Eq, Structural)]
pub enum TunerGain {
    Auto,
    Manual(i32),
}

/// Direct-sampling mode: tuner bypassed, ADC fed directly, optionally with
/// the I and Q inputs swapped.
#[derive(Debug, Clone, Copy, PartialEq, Eq, Structural)]
pub enum DirectSampleMode {
    Off,
    On,
    OnSwap,
}

/// Identity of an enumerated device: its ordinal index and serial string.
#[derive(Debug, Clone)]
pub struct DeviceInfo {
    pub index: usize,
    pub serial: String,
}

/// USB vendor/product identity of a supported device.
#[derive(Debug, Clone, Copy, PartialEq, Eq, Structural)]
pub struct UsbId {
    pub vid: u16,
    pub pid: u16,
}

/// The USB identities the driver recognizes.
pub open spec fn known_devices_spec() -> Seq<UsbId> {
    seq![UsbId { vid: 0x0bda, pid: 0x2832 }, UsbId { vid: 0x0bda, pid: 0x2838 }]
}

/// Returns the table of recognized USB identities.
pub fn known_devices() -> (r: Vec<UsbId>)
    ensures
        r@ == known_devices_spec(),
{
    let mut v: Vec<UsbId> = Vec::new();
    v.push(UsbId { vid: 0x0bda, pid: 0x2832 });
    v.push(UsbId { vid: 0x0bda, pid: 0x2838 });
    assert(v@ =~= known_devices_spec());
    v
}

/// Whether a USB identity belongs to a recognized device.
pub fn is_known_device(vid: u16, pid: u16) -> (r: bool)
    ensures
        (r == known_devices_spec().contains(UsbId { vid, pid })),
{
    let devs = known_devices();
    let mut i: usize = 0;
    while i < devs.len()
        invariant
            devs@ == known_devices_spec(),
            i <= devs@.len(),
            forall|j: int| 0 <= j < i ==> known_devices_spec()[j] != (UsbId { vid, pid }),
        decreases devs@.len() - i,
    {
        if devs[i].vid == vid && devs[i].pid == pid {
            proof {
                assert(known_devices_spec()[i as int] == (UsbId { vid, pid }));
            }
            return true;
        }
        i = i + 1;
    }
    proof {
        assert(!known_devices_spec().contains(UsbId { vid, pid })) by {
            assert(forall|j: int|
                0 <= j < known_devices_spec().len() ==> known_devices_spec()[j] != (UsbId {
                    vid,
                    pid,
                }));
        }
    }
    false
}

} // verus!
