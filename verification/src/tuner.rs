//! Tuner detection.
//!
//! A concrete tuner chip driver is an external collaborator: the core only
//! selects which chip sits behind the demodulator's I2C bridge. Detection
//! probes a table of known descriptors in order — each names an I2C address,
//! a check register and the value that identifies the chip — and the first
//! descriptor whose check register reads back its expected value wins. A
//! failed read for one candidate is recoverable; exhausting the table is not.

use vstd::prelude::*;

verus! {

/// Nominal intermediate frequency of the R82xx family, in Hz.
pub const R82XX_IF_FREQ: u32 = 3_570_000;

/// The tuner chips the driver can drive; `NoTuner` is the placeholder before
/// detection completes.
#[derive(Debug, Clone, Copy, PartialEq, Eq, Structural)]
pub enum TunerKind {
    NoTuner,
    R820T,
}

/// A detection descriptor: which chip answers at which I2C address with
/// which check-register value.
#[derive(Debug, Clone, Copy, PartialEq, Eq, Structural)]
pub struct TunerInfo {
    pub kind: TunerKind,
    pub i2c_addr: u8,
    pub check_addr: u8,
    pub check_val: u8,
}

/// The built-in descriptor table, in probe order.
pub open spec fn known_tuners_spec() -> Seq<TunerInfo> {
    seq![TunerInfo { kind: TunerKind::R820T, i2c_addr: 0x34, check_addr: 0x00, check_val: 0x69 }]
}

/// Returns the built-in descriptor table.
pub fn known_tuners() -> (r: Vec<TunerInfo>)
    ensures
        r@ == known_tuners_spec(),
{
    let mut v: Vec<TunerInfo> = Vec::new();
    v.push(TunerInfo { kind: TunerKind::R820T, i2c_addr: 0x34, check_addr: 0x00, check_val: 0x69 });
    assert(v@ =~= known_tuners_spec());
    v
}

/// Whether a probe identified its candidate: the check register was readable
/// and held the expected value.
pub open spec fn probe_matches(info: TunerInfo, read: Option<u8>) -> bool {
    match read {
        Option::Some(v) => v == info.check_val,
        Option::None => false,
    }
}

/// Exec check of [`probe_matches`]: whether one probe identified its
/// candidate, so that a probing loop can stop at the first match without
/// reading further candidates.
pub fn check_probe(info: &TunerInfo, read: Option<u8>) -> (r: bool)
    ensures
        r == probe_matches(*info, read),
{
    match read {
        Option::Some(v) => v == info.check_val,
        Option::None => false,
    }
}

/// Selects the tuner from the probe results, in table order: the result is
/// the first descriptor whose check register read back its expected value,
/// and `None` when the whole table is exhausted without a match.
pub fn search_tuner(table: &Vec<TunerInfo>, reads: &Vec<Option<u8>>) -> (r: Option<usize>)
    requires
        reads@.len() == table@.len(),
    ensures
        match r {
            Option::Some(i) => {
                &&& i < table@.len()
                &&& probe_matches(table@[i as int], reads@[i as int])
                &&& forall|j: int| 0 <= j < i ==> !probe_matches(table@[j], reads@[j])
            },
            Option::None => forall|j: int|
                0 <= j < table@.len() ==> !probe_matches(table@[j], reads@[j]),
        },
{
    let mut i: usize = 0;
    while i < table.len()
        invariant
            i <= table@.len(),
            reads@.len() == table@.len(),
            forall|j: int| 0 <= j < i ==> !probe_matches(table@[j], reads@[j]),
        decreases table@.len() - i,
    {
        match reads[i] {
            Option::Some(v) => {
                if v == table[i].check_val {
                    return Some(i);
                }
            },
            Option::None => {},
        }
        i = i + 1;
    }
    None
}

/// Selects the tuner chip from the probe results: the kind of the first
/// descriptor whose check register read back its expected value, `None`
/// when detection exhausted the table.
pub fn detect_tuner(table: &Vec<TunerInfo>, reads: &Vec<Option<u8>>) -> (r: Option<TunerKind>)
    requires
        reads@.len() == table@.len(),
    ensures
        (r is None ==> forall|j: int|
            0 <= j < table@.len() ==> !probe_matches(table@[j], reads@[j])),
        (r is Some ==> exists|i: int|
            0 <= i < table@.len() && #[trigger] probe_matches(table@[i], reads@[i])
                && table@[i].kind == r->Some_0 && (forall|j: int|
                0 <= j < i ==> !probe_matches(table@[j], reads@[j]))),
{
    match search_tuner(table, reads) {
        Some(i) => {
            let kind = table[i].kind;
            proof {
                let ii = i as int;
                assert(probe_matches(table@[ii], reads@[ii]) && table@[ii].kind == kind && (
                forall|j: int| 0 <= j < ii ==> !probe_matches(table@[j], reads@[j])));
            }
            Some(kind)
        },
        None => None,
    }
}

/// Detection selects the first match: whenever any candidate matches its
/// probe, a result that satisfies the search contract is `Some` of an index
/// no later than that candidate. In particular, with two matching
/// descriptors the earlier one is selected.
pub proof fn lemma_detection_selects_first(
    table: Seq<TunerInfo>,
    reads: Seq<Option<u8>>,
    r: Option<usize>,
    i: int,
)
    requires
        reads.len() == table.len(),
        0 <= i < table.len(),
        probe_matches(table[i], reads[i]),
        match r {
            Option::Some(k) => {
                &&& k < table.len()
                &&& probe_matches(table[k as int], reads[k as int])
                &&& forall|j: int| 0 <= j < k ==> !probe_matches(table[j], reads[j])
            },
            Option::None => forall|j: int| 0 <= j < table.len() ==> !probe_matches(table[j], reads[j]),
        },
    ensures
        r is Some,
        r->Some_0 <= i,
{
}

} // verus!
