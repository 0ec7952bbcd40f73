//! FIR filter coefficient packing.
//!
//! The demodulator takes its 16-tap FIR filter as 20 register bytes: the
//! first 8 taps are signed 8-bit values stored one per byte, the next 8 are
//! signed 12-bit values packed two per three bytes (high byte of tap A, low
//! nibble of tap A beside high nibble of tap B, low byte of tap B).

use crate::action::Action;
use vstd::prelude::*;

verus! {

/// Number of FIR coefficients.
pub const FIR_LEN: usize = 16;

/// Number of packed FIR register bytes.
pub const FIR_PACKED_LEN: usize = 20;

/// First demodulator register (page 1) of the packed filter.
pub const FIR_REG_BASE: u16 = 0x1c;

/// The default vendor filter: 8 signed 8-bit taps, then 8 signed 12-bit taps.
pub fn default_fir() -> (r: Vec<i32>)
    ensures
        r@ == default_fir_spec(),
{
    let mut v: Vec<i32> = Vec::new();
    v.push(-54);
    v.push(-36);
    v.push(-41);
    v.push(-40);
    v.push(-32);
    v.push(-14);
    v.push(14);
    v.push(53);
    v.push(101);
    v.push(156);
    v.push(215);
    v.push(273);
    v.push(327);
    v.push(372);
    v.push(404);
    v.push(421);
    assert(v@ =~= default_fir_spec());
    v
}

/// The default vendor filter, as a sequence.
pub open spec fn default_fir_spec() -> Seq<i32> {
    seq![
        -54i32,
        -36i32,
        -41i32,
        -40i32,
        -32i32,
        -14i32,
        14i32,
        53i32,
        101i32,
        156i32,
        215i32,
        273i32,
        327i32,
        372i32,
        404i32,
        421i32,
    ]
}

/// Whether a coefficient set is packable: 16 taps, the first 8 in signed
/// 8-bit range, the next 8 in signed 12-bit range.
pub open spec fn fir_ok(fir: Seq<i32>) -> bool {
    &&& fir.len() == 16
    &&& forall|i: int| 0 <= i < 8 ==> -128 <= #[trigger] fir[i] <= 127
    &&& forall|i: int| 8 <= i < 16 ==> -2048 <= #[trigger] fir[i] <= 2047
}

/// Exec check of [`fir_ok`].
pub fn check_fir_ok(fir: &Vec<i32>) -> (r: bool)
    ensures
        r == fir_ok(fir@),
{
    if fir.len() != 16 {
        return false;
    }
    let mut i: usize = 0;
    while i < 8
        invariant
            i <= 8,
            fir@.len() == 16,
            forall|j: int| 0 <= j < i ==> -128 <= #[trigger] fir@[j] <= 127,
        decreases 8 - i,
    {
        if fir[i] < -128 || fir[i] > 127 {
            return false;
        }
        i = i + 1;
    }
    let mut i: usize = 8;
    while i < 16
        invariant
            8 <= i <= 16,
            fir@.len() == 16,
            forall|j: int| 0 <= j < 8 ==> -128 <= #[trigger] fir@[j] <= 127,
            forall|j: int| 8 <= j < i ==> -2048 <= #[trigger] fir@[j] <= 2047,
        decreases 16 - i,
    {
        if fir[i] < -2048 || fir[i] > 2047 {
            return false;
        }
        i = i + 1;
    }
    true
}

/// An 8-bit tap as its two's-complement bit pattern.
pub open spec fn tap8_bits(v: i32) -> u16
    recommends
        -128 <= v <= 127,
{
    if v >= 0 {
        v as u16
    } else {
        (v + 256) as u16
    }
}

/// A 12-bit tap as its two's-complement bit pattern.
pub open spec fn tap12_bits(v: i32) -> u16
    recommends
        -2048 <= v <= 2047,
{
    if v >= 0 {
        v as u16
    } else {
        (v + 4096) as u16
    }
}

/// Byte `i` of the packed 20-byte filter image.
pub open spec fn packed_fir_byte(fir: Seq<i32>, i: int) -> u16
    recommends
        fir_ok(fir),
        0 <= i < 20,
{
    if i < 8 {
        tap8_bits(fir[i])
    } else {
        let k = (i - 8) / 3;
        let r = (i - 8) % 3;
        let a = tap12_bits(fir[8 + 2 * k]);
        let b = tap12_bits(fir[9 + 2 * k]);
        if r == 0 {
            a / 16
        } else if r == 1 {
            ((a % 16) * 16 + b / 256) as u16
        } else {
            b % 256
        }
    }
}

/// Packs a coefficient set into its 20-byte register image.
pub fn pack_fir(fir: &Vec<i32>) -> (out: Vec<u8>)
    requires
        fir_ok(fir@),
    ensures
        out@.len() == 20,
        forall|i: int| 0 <= i < 20 ==> #[trigger] out@[i] as u16 == packed_fir_byte(fir@, i),
{
    let mut out: Vec<u8> = Vec::new();
    let mut i: usize = 0;
    while i < 8
        invariant
            i <= 8,
            fir_ok(fir@),
            out@.len() == i,
            forall|j: int| 0 <= j < i ==> #[trigger] out@[j] as u16 == packed_fir_byte(fir@, j),
        decreases 8 - i,
    {
        let t: i32 = fir[i];
        let b: u16 = if t >= 0 {
            t as u16
        } else {
            (t + 256) as u16
        };
        out.push(b as u8);
        i = i + 1;
    }
    let mut k: usize = 0;
    while k < 4
        invariant
            k <= 4,
            fir_ok(fir@),
            out@.len() == 8 + 3 * k,
            forall|j: int|
                0 <= j < 8 + 3 * k ==> #[trigger] out@[j] as u16 == packed_fir_byte(fir@, j),
        decreases 4 - k,
    {
        let a0: i32 = fir[8 + 2 * k];
        let b0: i32 = fir[9 + 2 * k];
        let a: u16 = if a0 >= 0 {
            a0 as u16
        } else {
            (a0 + 4096) as u16
        };
        let b: u16 = if b0 >= 0 {
            b0 as u16
        } else {
            (b0 + 4096) as u16
        };
        out.push((a / 16) as u8);
        out.push(((a % 16) * 16 + b / 256) as u8);
        out.push((b % 256) as u8);
        proof {
            assert forall|j: int| 8 + 3 * (k as int) <= j < 8 + 3 * (k as int + 1) implies
                #[trigger] out@[j] as u16 == packed_fir_byte(fir@, j) by {
                let kk = k as int;
                assert((j - 8) / 3 == kk && (j - 8) % 3 == j - 8 - 3 * kk) by (nonlinear_arith)
                    requires
                        8 + 3 * kk <= j < 8 + 3 * kk + 3,
                ;
            }
        }
        k = k + 1;
    }
    out
}

/// The 20 register writes that program a packed filter image into the
/// consecutive FIR registers on page 1.
pub open spec fn fir_actions(fir: Seq<i32>) -> Seq<Action> {
    Seq::new(
        20,
        |i: int|
            Action::DemodWriteReg {
                page: 1,
                addr: (FIR_REG_BASE + i) as u16,
                val: packed_fir_byte(fir, i),
                len: 1,
            },
    )
}

/// Emits the register writes for a coefficient set.
pub fn fir_write_actions(fir: &Vec<i32>) -> (r: Vec<Action>)
    requires
        fir_ok(fir@),
    ensures
        r@ == fir_actions(fir@),
{
    let packed = pack_fir(fir);
    let mut r: Vec<Action> = Vec::new();
    let mut i: usize = 0;
    while i < 20
        invariant
            i <= 20,
            fir_ok(fir@),
            packed@.len() == 20,
            forall|j: int| 0 <= j < 20 ==> #[trigger] packed@[j] as u16 == packed_fir_byte(fir@, j),
            r@.len() == i,
            forall|j: int| 0 <= j < i ==> #[trigger] r@[j] == fir_actions(fir@)[j],
        decreases 20 - i,
    {
        r.push(
            Action::DemodWriteReg {
                page: 1,
                addr: 0x1c + i as u16,
                val: packed[i] as u16,
                len: 1,
            },
        );
        i = i + 1;
    }
    assert(r@ =~= fir_actions(fir@));
    r
}

} // verus!
