//! Generation inference tables and the oldest-compatible-generation algorithm
//! (x86 family only).
//!
//! Each named CPU microarchitecture generation carries an ordinal code whose
//! only meaning is its relative order; the reverse mapping from ordinal back to
//! name is bijective. Every extension the x86 classification table knows has an
//! introducing generation, so an internal table-consistency fault (a classified
//! extension without a generation entry) is impossible by construction here.
//! Inference is max-wins: the result is the generation with the largest ordinal
//! among the introducing generations of the observed extensions, with the
//! baseline generation as the floor.

use vstd::prelude::*;

use crate::classify::{classify_x86, x86_ext_of, X86Ext};

verus! {

/// A CPU microarchitecture generation known to the inference tables.
#[derive(Clone, Copy, PartialEq, Eq, Structural, Debug)]
pub enum Generation {
    Pentium,
    PentiumPro,
    PentiumIii,
    Pentium4,
    PentiumM,
    Prescott,
    IntelCore,
    Penryn,
    Nehalem,
    Bonnell,
    Westmere,
    Saltwell,
    SandyBridge,
    IvyBridge,
    Silvermont,
    Haswell,
    Broadwell,
    Airmont,
    Skylake,
    Goldmont,
    KabyLake,
    CoffeeLake,
    CannonLake,
    WhiskeyLake,
    AmberLake,
    CascadeLake,
    CooperLake,
    IceLake,
    K62,
    Bulldozer,
    K10,
    Piledriver,
    Unknown,
}

/// The ordinal of the baseline generation: the oldest generation assumed when
/// no extension-derived evidence suggests otherwise.
pub const BASELINE_ORDINAL: u16 = 100;

/// The ordinal code of a generation. The codes order the generations; their
/// magnitudes mean nothing else.
pub open spec fn spec_ordinal(g: Generation) -> u16 {
    match g {
        Generation::Pentium => 100u16,
        Generation::PentiumPro => 101u16,
        Generation::PentiumIii => 102u16,
        Generation::Pentium4 => 103u16,
        Generation::PentiumM => 104u16,
        Generation::Prescott => 105u16,
        Generation::IntelCore => 106u16,
        Generation::Penryn => 107u16,
        Generation::Nehalem => 108u16,
        Generation::Bonnell => 109u16,
        Generation::Westmere => 110u16,
        Generation::Saltwell => 111u16,
        Generation::SandyBridge => 112u16,
        Generation::IvyBridge => 113u16,
        Generation::Silvermont => 114u16,
        Generation::Haswell => 115u16,
        Generation::Broadwell => 116u16,
        Generation::Airmont => 117u16,
        Generation::Skylake => 118u16,
        Generation::Goldmont => 119u16,
        Generation::KabyLake => 120u16,
        Generation::CoffeeLake => 121u16,
        Generation::CannonLake => 122u16,
        Generation::WhiskeyLake => 123u16,
        Generation::AmberLake => 124u16,
        Generation::CascadeLake => 125u16,
        Generation::CooperLake => 126u16,
        Generation::IceLake => 127u16,
        Generation::K62 => 200u16,
        Generation::Bulldozer => 201u16,
        Generation::K10 => 202u16,
        Generation::Piledriver => 203u16,
        Generation::Unknown => 999u16,
    }
}

/// The reverse table: the generation a given ordinal code names, if any.
pub open spec fn spec_generation_of_ordinal(code: u16) -> Option<Generation> {
    if code == 100u16 {
        Some(Generation::Pentium)
    } else if code == 101u16 {
        Some(Generation::PentiumPro)
    } else if code == 102u16 {
        Some(Generation::PentiumIii)
    } else if code == 103u16 {
        Some(Generation::Pentium4)
    } else if code == 104u16 {
        Some(Generation::PentiumM)
    } else if code == 105u16 {
        Some(Generation::Prescott)
    } else if code == 106u16 {
        Some(Generation::IntelCore)
    } else if code == 107u16 {
        Some(Generation::Penryn)
    } else if code == 108u16 {
        Some(Generation::Nehalem)
    } else if code == 109u16 {
        Some(Generation::Bonnell)
    } else if code == 110u16 {
        Some(Generation::Westmere)
    } else if code == 111u16 {
        Some(Generation::Saltwell)
    } else if code == 112u16 {
        Some(Generation::SandyBridge)
    } else if code == 113u16 {
        Some(Generation::IvyBridge)
    } else if code == 114u16 {
        Some(Generation::Silvermont)
    } else if code == 115u16 {
        Some(Generation::Haswell)
    } else if code == 116u16 {
        Some(Generation::Broadwell)
    } else if code == 117u16 {
        Some(Generation::Airmont)
    } else if code == 118u16 {
        Some(Generation::Skylake)
    } else if code == 119u16 {
        Some(Generation::Goldmont)
    } else if code == 120u16 {
        Some(Generation::KabyLake)
    } else if code == 121u16 {
        Some(Generation::CoffeeLake)
    } else if code == 122u16 {
        Some(Generation::CannonLake)
    } else if code == 123u16 {
        Some(Generation::WhiskeyLake)
    } else if code == 124u16 {
        Some(Generation::AmberLake)
    } else if code == 125u16 {
        Some(Generation::CascadeLake)
    } else if code == 126u16 {
        Some(Generation::CooperLake)
    } else if code == 127u16 {
        Some(Generation::IceLake)
    } else if code == 200u16 {
        Some(Generation::K62)
    } else if code == 201u16 {
        Some(Generation::Bulldozer)
    } else if code == 202u16 {
        Some(Generation::K10)
    } else if code == 203u16 {
        Some(Generation::Piledriver)
    } else if code == 999u16 {
        Some(Generation::Unknown)
    } else {
        None
    }
}

/// The reported name of a generation.
pub open spec fn spec_generation_name(g: Generation) -> Seq<char> {
    match g {
        Generation::Pentium => "Pentium"@,
        Generation::PentiumPro => "Pentium Pro"@,
        Generation::PentiumIii => "Pentium III"@,
        Generation::Pentium4 => "Pentium 4"@,
        Generation::PentiumM => "Pentium M"@,
        Generation::Prescott => "Prescott"@,
        Generation::IntelCore => "Intel Core"@,
        Generation::Penryn => "Penryn"@,
        Generation::Nehalem => "Nehalem"@,
        Generation::Bonnell => "Bonnell"@,
        Generation::Westmere => "Westmere"@,
        Generation::Saltwell => "Saltwell"@,
        Generation::SandyBridge => "Sandy Bridge"@,
        Generation::IvyBridge => "Ivy Bridge"@,
        Generation::Silvermont => "Silvermont"@,
        Generation::Haswell => "Haswell"@,
        Generation::Broadwell => "Broadwell"@,
        Generation::Airmont => "Airmont"@,
        Generation::Skylake => "Skylake"@,
        Generation::Goldmont => "Goldmont"@,
        Generation::KabyLake => "Kaby Lake"@,
        Generation::CoffeeLake => "Coffee Lake"@,
        Generation::CannonLake => "Cannon Lake"@,
        Generation::WhiskeyLake => "Whiskey Lake"@,
        Generation::AmberLake => "Amber Lake"@,
        Generation::CascadeLake => "Cascade Lake"@,
        Generation::CooperLake => "Cooper Lake"@,
        Generation::IceLake => "Ice Lake"@,
        Generation::K62 => "K6-2"@,
        Generation::Bulldozer => "Bulldozer"@,
        Generation::K10 => "K10"@,
        Generation::Piledriver => "Piledriver"@,
        Generation::Unknown => "Unknown"@,
    }
}

/// The Intel (or AMD) generation that introduced each x86 extension. Total on
/// the classification table's extensions: every classified extension has an
/// introducing generation.
pub open spec fn spec_introducing(e: X86Ext) -> Generation {
    match e {
        X86Ext::VtX => Generation::IntelCore,
        X86Ext::ThreeDNow => Generation::K62,
        X86Ext::Aes => Generation::Westmere,
        X86Ext::Adx => Generation::Broadwell,
        X86Ext::Avx => Generation::SandyBridge,
        X86Ext::Avx2 => Generation::Haswell,
        X86Ext::Avx512 => Generation::Unknown,
        X86Ext::Bmi => Generation::Haswell,
        X86Ext::Bmi2 => Generation::Haswell,
        X86Ext::Cmov => Generation::PentiumPro,
        X86Ext::F16c => Generation::IvyBridge,
        X86Ext::Fma => Generation::Haswell,
        X86Ext::Fma4 => Generation::Bulldozer,
        X86Ext::Fsgsbase => Generation::IvyBridge,
        X86Ext::Hle => Generation::Haswell,
        X86Ext::Mmx => Generation::Pentium,
        X86Ext::Mode32 => Generation::Pentium,
        X86Ext::Mode64 => Generation::IntelCore,
        X86Ext::Rtm => Generation::Haswell,
        X86Ext::Sha => Generation::Goldmont,
        X86Ext::Sse1 => Generation::PentiumIii,
        X86Ext::Sse2 => Generation::Pentium4,
        X86Ext::Sse3 => Generation::Prescott,
        X86Ext::Sse41 => Generation::Penryn,
        X86Ext::Sse42 => Generation::Nehalem,
        X86Ext::Sse4a => Generation::K10,
        X86Ext::Ssse3 => Generation::IntelCore,
        X86Ext::Pclmul => Generation::IntelCore,
        X86Ext::Xop => Generation::Bulldozer,
        X86Ext::Cdi => Generation::Unknown,
        X86Ext::Eri => Generation::Unknown,
        X86Ext::Tbm => Generation::Piledriver,
        X86Ext::SixteenBitMode => Generation::Unknown,
        X86Ext::Not64BitMode => Generation::Unknown,
        X86Ext::Sgx => Generation::Skylake,
        X86Ext::Dqi => Generation::CannonLake,
        X86Ext::Bwi => Generation::CannonLake,
        X86Ext::Pfi => Generation::Unknown,
        X86Ext::Vlx => Generation::CannonLake,
        X86Ext::Smap => Generation::Broadwell,
        X86Ext::Novlx => Generation::Unknown,
    }
}

/// The ordinal code of a generation.
pub fn generation_ordinal(g: Generation) -> (r: u16)
    ensures
        r == spec_ordinal(g),
{
    match g {
        Generation::Pentium => 100,
        Generation::PentiumPro => 101,
        Generation::PentiumIii => 102,
        Generation::Pentium4 => 103,
        Generation::PentiumM => 104,
        Generation::Prescott => 105,
        Generation::IntelCore => 106,
        Generation::Penryn => 107,
        Generation::Nehalem => 108,
        Generation::Bonnell => 109,
        Generation::Westmere => 110,
        Generation::Saltwell => 111,
        Generation::SandyBridge => 112,
        Generation::IvyBridge => 113,
        Generation::Silvermont => 114,
        Generation::Haswell => 115,
        Generation::Broadwell => 116,
        Generation::Airmont => 117,
        Generation::Skylake => 118,
        Generation::Goldmont => 119,
        Generation::KabyLake => 120,
        Generation::CoffeeLake => 121,
        Generation::CannonLake => 122,
        Generation::WhiskeyLake => 123,
        Generation::AmberLake => 124,
        Generation::CascadeLake => 125,
        Generation::CooperLake => 126,
        Generation::IceLake => 127,
        Generation::K62 => 200,
        Generation::Bulldozer => 201,
        Generation::K10 => 202,
        Generation::Piledriver => 203,
        Generation::Unknown => 999,
    }
}

/// The generation a given ordinal code names, if any.
pub fn generation_of_ordinal(code: u16) -> (r: Option<Generation>)
    ensures
        r == spec_generation_of_ordinal(code),
{
    match code {
        100u16 => Some(Generation::Pentium),
        101u16 => Some(Generation::PentiumPro),
        102u16 => Some(Generation::PentiumIii),
        103u16 => Some(Generation::Pentium4),
        104u16 => Some(Generation::PentiumM),
        105u16 => Some(Generation::Prescott),
        106u16 => Some(Generation::IntelCore),
        107u16 => Some(Generation::Penryn),
        108u16 => Some(Generation::Nehalem),
        109u16 => Some(Generation::Bonnell),
        110u16 => Some(Generation::Westmere),
        111u16 => Some(Generation::Saltwell),
        112u16 => Some(Generation::SandyBridge),
        113u16 => Some(Generation::IvyBridge),
        114u16 => Some(Generation::Silvermont),
        115u16 => Some(Generation::Haswell),
        116u16 => Some(Generation::Broadwell),
        117u16 => Some(Generation::Airmont),
        118u16 => Some(Generation::Skylake),
        119u16 => Some(Generation::Goldmont),
        120u16 => Some(Generation::KabyLake),
        121u16 => Some(Generation::CoffeeLake),
        122u16 => Some(Generation::CannonLake),
        123u16 => Some(Generation::WhiskeyLake),
        124u16 => Some(Generation::AmberLake),
        125u16 => Some(Generation::CascadeLake),
        126u16 => Some(Generation::CooperLake),
        127u16 => Some(Generation::IceLake),
        200u16 => Some(Generation::K62),
        201u16 => Some(Generation::Bulldozer),
        202u16 => Some(Generation::K10),
        203u16 => Some(Generation::Piledriver),
        999u16 => Some(Generation::Unknown),
        _ => None,
    }
}

/// The printable name of a generation.
pub fn generation_name(g: Generation) -> (r: &'static str)
    ensures
        r@ == spec_generation_name(g),
{
    match g {
        Generation::Pentium => "Pentium",
        Generation::PentiumPro => "Pentium Pro",
        Generation::PentiumIii => "Pentium III",
        Generation::Pentium4 => "Pentium 4",
        Generation::PentiumM => "Pentium M",
        Generation::Prescott => "Prescott",
        Generation::IntelCore => "Intel Core",
        Generation::Penryn => "Penryn",
        Generation::Nehalem => "Nehalem",
        Generation::Bonnell => "Bonnell",
        Generation::Westmere => "Westmere",
        Generation::Saltwell => "Saltwell",
        Generation::SandyBridge => "Sandy Bridge",
        Generation::IvyBridge => "Ivy Bridge",
        Generation::Silvermont => "Silvermont",
        Generation::Haswell => "Haswell",
        Generation::Broadwell => "Broadwell",
        Generation::Airmont => "Airmont",
        Generation::Skylake => "Skylake",
        Generation::Goldmont => "Goldmont",
        Generation::KabyLake => "Kaby Lake",
        Generation::CoffeeLake => "Coffee Lake",
        Generation::CannonLake => "Cannon Lake",
        Generation::WhiskeyLake => "Whiskey Lake",
        Generation::AmberLake => "Amber Lake",
        Generation::CascadeLake => "Cascade Lake",
        Generation::CooperLake => "Cooper Lake",
        Generation::IceLake => "Ice Lake",
        Generation::K62 => "K6-2",
        Generation::Bulldozer => "Bulldozer",
        Generation::K10 => "K10",
        Generation::Piledriver => "Piledriver",
        Generation::Unknown => "Unknown",
    }
}

/// The generation that introduced an x86 extension.
pub fn introducing_generation(e: X86Ext) -> (r: Generation)
    ensures
        r == spec_introducing(e),
{
    match e {
        X86Ext::VtX => Generation::IntelCore,
        X86Ext::ThreeDNow => Generation::K62,
        X86Ext::Aes => Generation::Westmere,
        X86Ext::Adx => Generation::Broadwell,
        X86Ext::Avx => Generation::SandyBridge,
        X86Ext::Avx2 => Generation::Haswell,
        X86Ext::Avx512 => Generation::Unknown,
        X86Ext::Bmi => Generation::Haswell,
        X86Ext::Bmi2 => Generation::Haswell,
        X86Ext::Cmov => Generation::PentiumPro,
        X86Ext::F16c => Generation::IvyBridge,
        X86Ext::Fma => Generation::Haswell,
        X86Ext::Fma4 => Generation::Bulldozer,
        X86Ext::Fsgsbase => Generation::IvyBridge,
        X86Ext::Hle => Generation::Haswell,
        X86Ext::Mmx => Generation::Pentium,
        X86Ext::Mode32 => Generation::Pentium,
        X86Ext::Mode64 => Generation::IntelCore,
        X86Ext::Rtm => Generation::Haswell,
        X86Ext::Sha => Generation::Goldmont,
        X86Ext::Sse1 => Generation::PentiumIii,
        X86Ext::Sse2 => Generation::Pentium4,
        X86Ext::Sse3 => Generation::Prescott,
        X86Ext::Sse41 => Generation::Penryn,
        X86Ext::Sse42 => Generation::Nehalem,
        X86Ext::Sse4a => Generation::K10,
        X86Ext::Ssse3 => Generation::IntelCore,
        X86Ext::Pclmul => Generation::IntelCore,
        X86Ext::Xop => Generation::Bulldozer,
        X86Ext::Cdi => Generation::Unknown,
        X86Ext::Eri => Generation::Unknown,
        X86Ext::Tbm => Generation::Piledriver,
        X86Ext::SixteenBitMode => Generation::Unknown,
        X86Ext::Not64BitMode => Generation::Unknown,
        X86Ext::Sgx => Generation::Skylake,
        X86Ext::Dqi => Generation::CannonLake,
        X86Ext::Bwi => Generation::CannonLake,
        X86Ext::Pfi => Generation::Unknown,
        X86Ext::Vlx => Generation::CannonLake,
        X86Ext::Smap => Generation::Broadwell,
        X86Ext::Novlx => Generation::Unknown,
    }
}

/// The maximum introducing ordinal over the classified group codes of a scan,
/// floored at the baseline ordinal. Codes the classification table does not
/// know contribute nothing.
pub open spec fn spec_max_ordinal(codes: Seq<u8>) -> u16
    decreases codes.len(),
{
    if codes.len() == 0 {
        BASELINE_ORDINAL
    } else {
        let rest = spec_max_ordinal(codes.drop_last());
        match x86_ext_of(codes.last()) {
            Some(e) => {
                let o = spec_ordinal(spec_introducing(e));
                if o > rest {
                    o
                } else {
                    rest
                }
            },
            None => rest,
        }
    }
}

/// The inferred oldest compatible generation for a set of observed group codes.
pub open spec fn spec_infer_generation(codes: Seq<u8>) -> Generation {
    spec_generation_of_ordinal(spec_max_ordinal(codes)).unwrap()
}

/// Round trip of the generation tables: every generation's ordinal maps back
/// to that generation, so the reverse table is a bijection on the ordinals.
pub proof fn lemma_ordinal_roundtrip()
    ensures
        forall|g: Generation| spec_generation_of_ordinal(spec_ordinal(g)) == Some(g),
        forall|c: u16, g: Generation| spec_generation_of_ordinal(c) == Some(g) ==> spec_ordinal(g)
            == c,
{
}

/// The maximum ordinal of any code set is a real entry of the reverse table:
/// it is the baseline ordinal or the ordinal of some introducing generation.
pub proof fn lemma_max_ordinal_valid(codes: Seq<u8>)
    ensures
        spec_generation_of_ordinal(spec_max_ordinal(codes)) is Some,
    decreases codes.len(),
{
    if codes.len() == 0 {
        assert(spec_generation_of_ordinal(BASELINE_ORDINAL) == Some(Generation::Pentium));
    } else {
        lemma_max_ordinal_valid(codes.drop_last());
        match x86_ext_of(codes.last()) {
            Some(e) => {
                lemma_ordinal_roundtrip();
            },
            None => {},
        }
    }
}

/// Folds the observed group codes through the generation tables and returns
/// the oldest generation compatible with all classified extensions.
pub fn infer_generation(codes: &Vec<u8>) -> (r: Generation)
    ensures
        r == spec_infer_generation(codes@),
        spec_ordinal(r) == spec_max_ordinal(codes@),
{
    let mut max_ord: u16 = BASELINE_ORDINAL;
    let mut i: usize = 0;
    while i < codes.len()
        invariant
            0 <= i <= codes@.len(),
            max_ord == spec_max_ordinal(codes@.take(i as int)),
        decreases codes@.len() - i,
    {
        match classify_x86(codes[i]) {
            Some(e) => {
                let o = generation_ordinal(introducing_generation(e));
                if o > max_ord {
                    max_ord = o;
                }
            },
            None => {},
        }
        proof {
            assert(codes@.take(i + 1 as int).drop_last() =~= codes@.take(i as int));
            assert(codes@.take(i + 1 as int).last() == codes@[i as int]);
        }
        i = i + 1;
    }
    proof {
        assert(codes@.take(codes@.len() as int) =~= codes@);
        lemma_max_ordinal_valid(codes@);
        lemma_ordinal_roundtrip();
    }
    match generation_of_ordinal(max_ord) {
        Some(g) => g,
        None => {
            // unreachable: lemma_max_ordinal_valid puts max_ord in the reverse table
            proof {
                assert(false);
            }
            Generation::Pentium
        },
    }
}

} // verus!
