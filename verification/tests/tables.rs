//! Tests for the classification tables, the generation tables, and the
//! architecture dispatcher.

use elfx86exts::classify::{describe_group_aarch64, describe_group_x86};
use elfx86exts::dispatch::{dispatch, ArchTag, DecoderCfg};
use elfx86exts::generations::{
    generation_name, generation_of_ordinal, generation_ordinal, infer_generation, Generation,
};

#[test]
fn x86_table_known_codes() {
    assert_eq!(describe_group_x86(&128), Some("VT-x/AMD-V"));
    assert_eq!(describe_group_x86(&133), Some("AVX2"));
    assert_eq!(describe_group_x86(&148), Some("SSE1"));
    assert_eq!(describe_group_x86(&160), Some("16BITMODE"));
    assert_eq!(describe_group_x86(&168), Some("NOVLX"));
}

#[test]
fn x86_table_unknown_codes() {
    assert_eq!(describe_group_x86(&0), None);
    assert_eq!(describe_group_x86(&127), None);
    assert_eq!(describe_group_x86(&169), None);
    assert_eq!(describe_group_x86(&255), None);
}

#[test]
fn aarch64_table_known_codes() {
    assert_eq!(describe_group_aarch64(&128), Some("CRYPTO"));
    assert_eq!(describe_group_aarch64(&132), Some("AES"));
    assert_eq!(describe_group_aarch64(&146), Some("SV#2SM4"));
    assert_eq!(describe_group_aarch64(&155), Some("V8_4A"));
}

#[test]
fn aarch64_table_unknown_codes() {
    assert_eq!(describe_group_aarch64(&0), None);
    assert_eq!(describe_group_aarch64(&127), None);
    assert_eq!(describe_group_aarch64(&156), None);
}

#[test]
fn tables_never_merged() {
    // the same code means different things under the two architectures
    assert_eq!(describe_group_x86(&130), Some("AES"));
    assert_eq!(describe_group_aarch64(&130), Some("NEON"));
}

#[test]
fn x86_names_pairwise_distinct() {
    let mut names: Vec<&str> = Vec::new();
    for g in 0..=255u8 {
        if let Some(n) = describe_group_x86(&g) {
            assert!(!names.contains(&n));
            names.push(n);
        }
    }
    assert_eq!(names.len(), 41);
}

#[test]
fn aarch64_names_pairwise_distinct() {
    let mut names: Vec<&str> = Vec::new();
    for g in 0..=255u8 {
        if let Some(n) = describe_group_aarch64(&g) {
            assert!(!names.contains(&n));
            names.push(n);
        }
    }
    assert_eq!(names.len(), 28);
}

#[test]
fn dispatch_x86_64bit() {
    assert_eq!(dispatch(ArchTag::X86_64, true), Some(DecoderCfg::X86Bits64));
    assert_eq!(dispatch(ArchTag::X86_64X32, true), Some(DecoderCfg::X86Bits64));
}

#[test]
fn dispatch_x86_32bit() {
    assert_eq!(dispatch(ArchTag::X86_64, false), Some(DecoderCfg::X86Bits32));
    assert_eq!(dispatch(ArchTag::X86_64X32, false), Some(DecoderCfg::X86Bits32));
}

#[test]
fn dispatch_aarch64() {
    assert_eq!(dispatch(ArchTag::Aarch64, true), Some(DecoderCfg::Arm64));
    assert_eq!(dispatch(ArchTag::Aarch64Ilp32, false), Some(DecoderCfg::Arm64));
}

#[test]
fn dispatch_unsupported() {
    assert_eq!(dispatch(ArchTag::Other, true), None);
    assert_eq!(dispatch(ArchTag::Other, false), None);
}

#[test]
fn generation_tables_roundtrip() {
    let gens = [
        Generation::Pentium,
        Generation::IntelCore,
        Generation::Haswell,
        Generation::IceLake,
        Generation::K62,
        Generation::Piledriver,
        Generation::Unknown,
    ];
    for g in gens {
        assert_eq!(generation_of_ordinal(generation_ordinal(g)), Some(g));
    }
    assert_eq!(generation_ordinal(Generation::Pentium), 100);
    assert_eq!(generation_ordinal(Generation::Haswell), 115);
    assert_eq!(generation_ordinal(Generation::Unknown), 999);
    assert_eq!(generation_of_ordinal(128), None);
    assert_eq!(generation_name(Generation::Haswell), "Haswell");
    assert_eq!(generation_name(Generation::K62), "K6-2");
}

#[test]
fn infer_baseline_on_empty() {
    let codes: Vec<u8> = Vec::new();
    assert_eq!(infer_generation(&codes), Generation::Pentium);
}

#[test]
fn infer_single_extension() {
    // AVX2 was introduced with Haswell
    assert_eq!(infer_generation(&vec![133u8]), Generation::Haswell);
    // CMOV alone only needs a Pentium Pro
    assert_eq!(infer_generation(&vec![137u8]), Generation::PentiumPro);
}

#[test]
fn infer_monotonic() {
    // adding an extension with a younger introducing generation raises the result
    let low = infer_generation(&vec![137u8]);
    let high = infer_generation(&vec![137u8, 133u8]);
    assert_eq!(low, Generation::PentiumPro);
    assert_eq!(high, Generation::Haswell);
    assert!(generation_ordinal(high) > generation_ordinal(low));
}

#[test]
fn infer_max_wins_over_order() {
    assert_eq!(infer_generation(&vec![133u8, 137u8]), infer_generation(&vec![137u8, 133u8]));
}

#[test]
fn infer_ignores_unknown_codes() {
    assert_eq!(infer_generation(&vec![1u8, 7u8, 200u8]), Generation::Pentium);
}

#[test]
fn infer_amd_extension_wins_by_ordinal() {
    // TBM is AMD-only; its ordinal tops every Intel generation, and the
    // inference is max-wins even when Intel extensions are also present
    assert_eq!(infer_generation(&vec![159u8, 133u8]), Generation::Piledriver);
}

#[test]
fn infer_unknown_generation() {
    // AVX512's introducing generation is recorded as Unknown
    assert_eq!(infer_generation(&vec![134u8]), Generation::Unknown);
}
