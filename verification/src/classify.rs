//! Group classification tables: per-architecture mappings from the decoder's
//! numeric group codes to human-readable instruction-set-extension names.
//!
//! The codes are opaque, vendor-defined small integers; the same number means
//! different things under different architectures, so each architecture family
//! gets its own table and the tables are never queried cross-architecture.

use vstd::prelude::*;

use crate::dispatch::DecoderCfg;

verus! {

/// An x86-family instruction-set extension that the classification table knows.
#[derive(Clone, Copy, PartialEq, Eq, Structural, Debug)]
pub enum X86Ext {
    VtX,
    ThreeDNow,
    Aes,
    Adx,
    Avx,
    Avx2,
    Avx512,
    Bmi,
    Bmi2,
    Cmov,
    F16c,
    Fma,
    Fma4,
    Fsgsbase,
    Hle,
    Mmx,
    Mode32,
    Mode64,
    Rtm,
    Sha,
    Sse1,
    Sse2,
    Sse3,
    Sse41,
    Sse42,
    Sse4a,
    Ssse3,
    Pclmul,
    Xop,
    Cdi,
    Eri,
    Tbm,
    SixteenBitMode,
    Not64BitMode,
    Sgx,
    Dqi,
    Bwi,
    Pfi,
    Vlx,
    Smap,
    Novlx,
}

/// The x86 classification table: which extension a group code stands for.
pub open spec fn x86_ext_of(g: u8) -> Option<X86Ext> {
    match g {
        128u8 => Some(X86Ext::VtX),
        129u8 => Some(X86Ext::ThreeDNow),
        130u8 => Some(X86Ext::Aes),
        131u8 => Some(X86Ext::Adx),
        132u8 => Some(X86Ext::Avx),
        133u8 => Some(X86Ext::Avx2),
        134u8 => Some(X86Ext::Avx512),
        135u8 => Some(X86Ext::Bmi),
        136u8 => Some(X86Ext::Bmi2),
        137u8 => Some(X86Ext::Cmov),
        138u8 => Some(X86Ext::F16c),
        139u8 => Some(X86Ext::Fma),
        140u8 => Some(X86Ext::Fma4),
        141u8 => Some(X86Ext::Fsgsbase),
        142u8 => Some(X86Ext::Hle),
        143u8 => Some(X86Ext::Mmx),
        144u8 => Some(X86Ext::Mode32),
        145u8 => Some(X86Ext::Mode64),
        146u8 => Some(X86Ext::Rtm),
        147u8 => Some(X86Ext::Sha),
        148u8 => Some(X86Ext::Sse1),
        149u8 => Some(X86Ext::Sse2),
        150u8 => Some(X86Ext::Sse3),
        151u8 => Some(X86Ext::Sse41),
        152u8 => Some(X86Ext::Sse42),
        153u8 => Some(X86Ext::Sse4a),
        154u8 => Some(X86Ext::Ssse3),
        155u8 => Some(X86Ext::Pclmul),
        156u8 => Some(X86Ext::Xop),
        157u8 => Some(X86Ext::Cdi),
        158u8 => Some(X86Ext::Eri),
        159u8 => Some(X86Ext::Tbm),
        160u8 => Some(X86Ext::SixteenBitMode),
        161u8 => Some(X86Ext::Not64BitMode),
        162u8 => Some(X86Ext::Sgx),
        163u8 => Some(X86Ext::Dqi),
        164u8 => Some(X86Ext::Bwi),
        165u8 => Some(X86Ext::Pfi),
        166u8 => Some(X86Ext::Vlx),
        167u8 => Some(X86Ext::Smap),
        168u8 => Some(X86Ext::Novlx),
        _ => None,
    }
}

/// The reported name of an x86 extension.
pub open spec fn x86_ext_name(e: X86Ext) -> Seq<char> {
    match e {
        X86Ext::VtX => "VT-x/AMD-V"@,
        X86Ext::ThreeDNow => "3DNow"@,
        X86Ext::Aes => "AES"@,
        X86Ext::Adx => "ADX"@,
        X86Ext::Avx => "AVX"@,
        X86Ext::Avx2 => "AVX2"@,
        X86Ext::Avx512 => "AVX512"@,
        X86Ext::Bmi => "BMI"@,
        X86Ext::Bmi2 => "BMI2"@,
        X86Ext::Cmov => "CMOV"@,
        X86Ext::F16c => "F16C"@,
        X86Ext::Fma => "FMA"@,
        X86Ext::Fma4 => "FMA4"@,
        X86Ext::Fsgsbase => "FSGSBASE"@,
        X86Ext::Hle => "HLE"@,
        X86Ext::Mmx => "MMX"@,
        X86Ext::Mode32 => "MODE32"@,
        X86Ext::Mode64 => "MODE64"@,
        X86Ext::Rtm => "RTM"@,
        X86Ext::Sha => "SHA"@,
        X86Ext::Sse1 => "SSE1"@,
        X86Ext::Sse2 => "SSE2"@,
        X86Ext::Sse3 => "SSE3"@,
        X86Ext::Sse41 => "SSE41"@,
        X86Ext::Sse42 => "SSE42"@,
        X86Ext::Sse4a => "SSE4A"@,
        X86Ext::Ssse3 => "SSSE3"@,
        X86Ext::Pclmul => "PCLMUL"@,
        X86Ext::Xop => "XOP"@,
        X86Ext::Cdi => "CDI"@,
        X86Ext::Eri => "ERI"@,
        X86Ext::Tbm => "TBM"@,
        X86Ext::SixteenBitMode => "16BITMODE"@,
        X86Ext::Not64BitMode => "NOT64BITMODE"@,
        X86Ext::Sgx => "SGX"@,
        X86Ext::Dqi => "DQI"@,
        X86Ext::Bwi => "BWI"@,
        X86Ext::Pfi => "PFI"@,
        X86Ext::Vlx => "VLX"@,
        X86Ext::Smap => "SMAP"@,
        X86Ext::Novlx => "NOVLX"@,
    }
}

/// What `describe_group_x86` reports for a group code.
pub open spec fn spec_describe_group_x86(g: u8) -> Option<Seq<char>> {
    match x86_ext_of(g) {
        Some(e) => Some(x86_ext_name(e)),
        None => None,
    }
}

/// Looks the group code up in the x86 classification table.
pub fn classify_x86(g: u8) -> (r: Option<X86Ext>)
    ensures
        r == x86_ext_of(g),
{
    match g {
        128u8 => Some(X86Ext::VtX),
        129u8 => Some(X86Ext::ThreeDNow),
        130u8 => Some(X86Ext::Aes),
        131u8 => Some(X86Ext::Adx),
        132u8 => Some(X86Ext::Avx),
        133u8 => Some(X86Ext::Avx2),
        134u8 => Some(X86Ext::Avx512),
        135u8 => Some(X86Ext::Bmi),
        136u8 => Some(X86Ext::Bmi2),
        137u8 => Some(X86Ext::Cmov),
        138u8 => Some(X86Ext::F16c),
        139u8 => Some(X86Ext::Fma),
        140u8 => Some(X86Ext::Fma4),
        141u8 => Some(X86Ext::Fsgsbase),
        142u8 => Some(X86Ext::Hle),
        143u8 => Some(X86Ext::Mmx),
        144u8 => Some(X86Ext::Mode32),
        145u8 => Some(X86Ext::Mode64),
        146u8 => Some(X86Ext::Rtm),
        147u8 => Some(X86Ext::Sha),
        148u8 => Some(X86Ext::Sse1),
        149u8 => Some(X86Ext::Sse2),
        150u8 => Some(X86Ext::Sse3),
        151u8 => Some(X86Ext::Sse41),
        152u8 => Some(X86Ext::Sse42),
        153u8 => Some(X86Ext::Sse4a),
        154u8 => Some(X86Ext::Ssse3),
        155u8 => Some(X86Ext::Pclmul),
        156u8 => Some(X86Ext::Xop),
        157u8 => Some(X86Ext::Cdi),
        158u8 => Some(X86Ext::Eri),
        159u8 => Some(X86Ext::Tbm),
        160u8 => Some(X86Ext::SixteenBitMode),
        161u8 => Some(X86Ext::Not64BitMode),
        162u8 => Some(X86Ext::Sgx),
        163u8 => Some(X86Ext::Dqi),
        164u8 => Some(X86Ext::Bwi),
        165u8 => Some(X86Ext::Pfi),
        166u8 => Some(X86Ext::Vlx),
        167u8 => Some(X86Ext::Smap),
        168u8 => Some(X86Ext::Novlx),
        _ => None,
    }
}

/// The printable name of an x86 extension.
pub fn x86_extension_name(e: X86Ext) -> (r: &'static str)
    ensures
        r@ == x86_ext_name(e),
{
    match e {
        X86Ext::VtX => "VT-x/AMD-V",
        X86Ext::ThreeDNow => "3DNow",
        X86Ext::Aes => "AES",
        X86Ext::Adx => "ADX",
        X86Ext::Avx => "AVX",
        X86Ext::Avx2 => "AVX2",
        X86Ext::Avx512 => "AVX512",
        X86Ext::Bmi => "BMI",
        X86Ext::Bmi2 => "BMI2",
        X86Ext::Cmov => "CMOV",
        X86Ext::F16c => "F16C",
        X86Ext::Fma => "FMA",
        X86Ext::Fma4 => "FMA4",
        X86Ext::Fsgsbase => "FSGSBASE",
        X86Ext::Hle => "HLE",
        X86Ext::Mmx => "MMX",
        X86Ext::Mode32 => "MODE32",
        X86Ext::Mode64 => "MODE64",
        X86Ext::Rtm => "RTM",
        X86Ext::Sha => "SHA",
        X86Ext::Sse1 => "SSE1",
        X86Ext::Sse2 => "SSE2",
        X86Ext::Sse3 => "SSE3",
        X86Ext::Sse41 => "SSE41",
        X86Ext::Sse42 => "SSE42",
        X86Ext::Sse4a => "SSE4A",
        X86Ext::Ssse3 => "SSSE3",
        X86Ext::Pclmul => "PCLMUL",
        X86Ext::Xop => "XOP",
        X86Ext::Cdi => "CDI",
        X86Ext::Eri => "ERI",
        X86Ext::Tbm => "TBM",
        X86Ext::SixteenBitMode => "16BITMODE",
        X86Ext::Not64BitMode => "NOT64BITMODE",
        X86Ext::Sgx => "SGX",
        X86Ext::Dqi => "DQI",
        X86Ext::Bwi => "BWI",
        X86Ext::Pfi => "PFI",
        X86Ext::Vlx => "VLX",
        X86Ext::Smap => "SMAP",
        X86Ext::Novlx => "NOVLX",
    }
}

/// Names the x86 extension a group code belongs to, if the table knows the code.
pub fn describe_group_x86(g: &u8) -> (r: Option<&'static str>)
    ensures
        r matches Some(s) ==> spec_describe_group_x86(*g) == Some(s@),
        r is None ==> spec_describe_group_x86(*g) is None,
{
    match classify_x86(*g) {
        Some(e) => Some(x86_extension_name(e)),
        None => None,
    }
}

/// What `describe_group_aarch64` reports for a group code.
pub open spec fn spec_describe_group_aarch64(g: u8) -> Option<Seq<char>> {
    match g {
        128u8 => Some("CRYPTO"@),
        129u8 => Some("FPARMV8"@),
        130u8 => Some("NEON"@),
        131u8 => Some("CRC"@),
        132u8 => Some("AES"@),
        133u8 => Some("DOTPROD"@),
        134u8 => Some("FULLFP16"@),
        135u8 => Some("LSE"@),
        136u8 => Some("RCPC"@),
        137u8 => Some("RDM"@),
        138u8 => Some("SHA2"@),
        139u8 => Some("SHA3"@),
        140u8 => Some("SM4"@),
        141u8 => Some("SVE"@),
        142u8 => Some("SVE2"@),
        143u8 => Some("SVE2AES"@),
        144u8 => Some("SVE2BitPerm"@),
        145u8 => Some("SVE2SHA3"@),
        146u8 => Some("SV#2SM4"@),
        147u8 => Some("SME"@),
        148u8 => Some("SMEF64"@),
        149u8 => Some("SMEI64"@),
        150u8 => Some("MatMulFP32"@),
        151u8 => Some("MatMulFP64"@),
        152u8 => Some("MatMulInt8"@),
        153u8 => Some("V8_1A"@),
        154u8 => Some("V8_3A"@),
        155u8 => Some("V8_4A"@),
        _ => None,
    }
}

/// Names the AArch64 extension a group code belongs to, if the table knows the code.
pub fn describe_group_aarch64(g: &u8) -> (r: Option<&'static str>)
    ensures
        r matches Some(s) ==> spec_describe_group_aarch64(*g) == Some(s@),
        r is None ==> spec_describe_group_aarch64(*g) is None,
{
    match *g {
        128u8 => Some("CRYPTO"),
        129u8 => Some("FPARMV8"),
        130u8 => Some("NEON"),
        131u8 => Some("CRC"),
        132u8 => Some("AES"),
        133u8 => Some("DOTPROD"),
        134u8 => Some("FULLFP16"),
        135u8 => Some("LSE"),
        136u8 => Some("RCPC"),
        137u8 => Some("RDM"),
        138u8 => Some("SHA2"),
        139u8 => Some("SHA3"),
        140u8 => Some("SM4"),
        141u8 => Some("SVE"),
        142u8 => Some("SVE2"),
        143u8 => Some("SVE2AES"),
        144u8 => Some("SVE2BitPerm"),
        145u8 => Some("SVE2SHA3"),
        146u8 => Some("SV#2SM4"),
        147u8 => Some("SME"),
        148u8 => Some("SMEF64"),
        149u8 => Some("SMEI64"),
        150u8 => Some("MatMulFP32"),
        151u8 => Some("MatMulFP64"),
        152u8 => Some("MatMulInt8"),
        153u8 => Some("V8_1A"),
        154u8 => Some("V8_3A"),
        155u8 => Some("V8_4A"),
        _ => None,
    }
}

/// The classifier an architecture dispatches to: each configuration selects
/// its own family's table, never the other's.
pub open spec fn spec_classify(cfg: DecoderCfg, g: u8) -> Option<Seq<char>> {
    match cfg {
        DecoderCfg::X86Bits64 | DecoderCfg::X86Bits32 => spec_describe_group_x86(g),
        DecoderCfg::Arm64 => spec_describe_group_aarch64(g),
    }
}

/// Names the extension a group code belongs to under the table that matches
/// the decoder configuration.
pub fn describe_group(cfg: DecoderCfg, g: u8) -> (r: Option<&'static str>)
    ensures
        r matches Some(s) ==> spec_classify(cfg, g) == Some(s@),
        r is None ==> spec_classify(cfg, g) is None,
{
    match cfg {
        DecoderCfg::X86Bits64 | DecoderCfg::X86Bits32 => describe_group_x86(&g),
        DecoderCfg::Arm64 => describe_group_aarch64(&g),
    }
}

} // verus!
