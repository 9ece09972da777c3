//! Tests for the accumulator, the summary sort, and end-to-end scans driven
//! through the real disassembler.

use elfx86exts::accum::Accumulator;
use elfx86exts::analyze;
use elfx86exts::dispatch::{ArchTag, DecoderCfg};
use elfx86exts::generations::Generation;
use elfx86exts::names::sorted_names;
use elfx86exts::scan::{Section, SectionKind};
use elfx86exts::AnalysisOutcome;
use elfx86exts::ScanReport;

fn report_of(arch: ArchTag, is_64: bool, sections: &Vec<Section>) -> ScanReport {
    match analyze(arch, is_64, sections) {
        Ok(AnalysisOutcome::Report(rep)) => rep,
        Ok(AnalysisOutcome::Unsupported) => panic!("architecture unexpectedly unsupported"),
        Err(e) => panic!("decoder setup failed: {:?}", e),
    }
}

#[test]
fn accumulator_first_occurrence_wins() {
    let mut acc = Accumulator::new();
    acc.record(133, Some("vpsllvd"));
    acc.record(133, Some("vpaddb"));
    acc.record(148, None);
    assert_eq!(acc.len(), 2);
    assert_eq!(acc.codes(), vec![133u8, 148u8]);
    let stream = acc.classified_stream(DecoderCfg::X86Bits64);
    assert_eq!(stream.len(), 2);
    assert_eq!(stream[0].0, "AVX2");
    assert_eq!(stream[0].1.as_deref(), Some("vpsllvd"));
    assert_eq!(stream[1].0, "SSE1");
    assert_eq!(stream[1].1, None);
}

#[test]
fn accumulator_marks_unclassified_codes_seen() {
    let mut acc = Accumulator::new();
    acc.record(7, Some("ret"));
    acc.record(7, Some("ret"));
    assert_eq!(acc.len(), 1);
    let stream = acc.classified_stream(DecoderCfg::X86Bits64);
    assert!(stream.is_empty());
}

#[test]
fn accumulator_dedup_bound() {
    let mut acc = Accumulator::new();
    for g in [133u8, 7u8, 133u8, 148u8, 7u8, 133u8] {
        acc.record(g, None);
    }
    let stream = acc.classified_stream(DecoderCfg::X86Bits64);
    assert!(stream.len() <= acc.len());
    let mut names: Vec<&str> = Vec::new();
    for e in &stream {
        assert!(!names.contains(&e.0));
        names.push(e.0);
    }
}

#[test]
fn sort_names_lexically() {
    let input: Vec<&'static str> = vec!["SSE2", "AVX", "MMX", "AVX2", "BMI"];
    let sorted = sorted_names(&input);
    assert_eq!(sorted, vec!["AVX", "AVX2", "BMI", "MMX", "SSE2"]);
}

#[test]
fn sort_names_keeps_duplicates() {
    let input: Vec<&'static str> = vec!["MMX", "AES", "MMX"];
    assert_eq!(sorted_names(&input), vec!["AES", "MMX", "MMX"]);
}

#[test]
fn no_code_sections_reports_baseline() {
    let sections = vec![
        Section { kind: SectionKind::Other, bytes: vec![0x90, 0x90] },
        Section { kind: SectionKind::Other, bytes: Vec::new() },
    ];
    let rep = report_of(ArchTag::X86_64, true, &sections);
    assert!(rep.stream.is_empty());
    assert!(rep.summary.is_empty());
    assert_eq!(rep.generation, Some(Generation::Pentium));
}

#[test]
fn no_sections_at_all_reports_baseline() {
    let sections: Vec<Section> = Vec::new();
    let rep = report_of(ArchTag::X86_64, true, &sections);
    assert!(rep.stream.is_empty());
    assert!(rep.summary.is_empty());
    assert_eq!(rep.generation, Some(Generation::Pentium));
}

#[test]
fn unsupported_architecture_is_not_an_error() {
    let sections = vec![Section { kind: SectionKind::Code, bytes: vec![0x90] }];
    match analyze(ArchTag::Other, true, &sections) {
        Ok(AnalysisOutcome::Unsupported) => {},
        _ => panic!("expected the unsupported-architecture outcome"),
    }
}

#[test]
fn avx2_scenario_end_to_end() {
    // one AVX2 instruction (vpsllvd xmm0, xmm0, xmm0), one byte that cannot
    // be decoded in 64-bit mode, one plain nop
    let code = vec![0xC4, 0xE2, 0x79, 0x47, 0xC0, 0x06, 0x90];
    let sections = vec![Section { kind: SectionKind::Code, bytes: code }];
    let rep = report_of(ArchTag::X86_64, true, &sections);
    let avx2_lines: Vec<_> = rep.stream.iter().filter(|e| e.0 == "AVX2").collect();
    assert_eq!(avx2_lines.len(), 1);
    assert_eq!(avx2_lines[0].1.as_deref(), Some("vpsllvd"));
    assert!(rep.summary.contains(&"AVX2"));
    assert_eq!(rep.generation, Some(Generation::Haswell));
}

#[test]
fn undecodable_section_terminates() {
    // a section of bytes that never decode in 64-bit mode: the scanner must
    // resynchronize byte by byte and still finish
    let sections = vec![Section { kind: SectionKind::Code, bytes: vec![0x06; 4096] }];
    let rep = report_of(ArchTag::X86_64, true, &sections);
    assert!(rep.stream.is_empty());
    assert_eq!(rep.generation, Some(Generation::Pentium));
}

#[test]
fn scan_is_idempotent() {
    let code = vec![0xC4, 0xE2, 0x79, 0x47, 0xC0, 0x06, 0x90, 0x0F, 0x58, 0xC1];
    let sections = vec![
        Section { kind: SectionKind::Code, bytes: code },
        Section { kind: SectionKind::Other, bytes: vec![0xFF, 0xFF] },
    ];
    let r1 = report_of(ArchTag::X86_64, true, &sections);
    let r2 = report_of(ArchTag::X86_64, true, &sections);
    assert_eq!(r1.stream, r2.stream);
    assert_eq!(r1.summary, r2.summary);
    assert_eq!(r1.generation, r2.generation);
}

#[test]
fn summary_is_sorted_and_matches_stream() {
    let code = vec![0x0F, 0x58, 0xC1, 0xC4, 0xE2, 0x79, 0x47, 0xC0, 0x90];
    let sections = vec![Section { kind: SectionKind::Code, bytes: code }];
    let rep = report_of(ArchTag::X86_64, true, &sections);
    let mut stream_names: Vec<&str> = rep.stream.iter().map(|e| e.0).collect();
    stream_names.sort();
    assert_eq!(rep.summary, stream_names);
    for w in rep.summary.windows(2) {
        assert!(w[0] <= w[1]);
    }
}

#[test]
fn aarch64_scan_classifies_crypto() {
    // aese v0.16b, v0.16b
    let code = vec![0x00, 0x48, 0x28, 0x4E];
    let sections = vec![Section { kind: SectionKind::Code, bytes: code }];
    let rep = report_of(ArchTag::Aarch64, true, &sections);
    assert!(rep.generation.is_none());
    assert!(rep.stream.iter().any(|e| e.0 == "AES" || e.0 == "CRYPTO"));
}

#[test]
fn thirty_two_bit_mode_dispatch_scans() {
    // addps xmm0, xmm1 decodes the same way in 32-bit mode
    let code = vec![0x0F, 0x58, 0xC1];
    let sections = vec![Section { kind: SectionKind::Code, bytes: code }];
    let rep = report_of(ArchTag::X86_64, false, &sections);
    assert!(rep.summary.contains(&"SSE1"));
}
