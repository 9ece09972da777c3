//! The properties the library promises, proved once and for all over the
//! specification functions that the executable contracts are stated with.

use vstd::prelude::*;

use crate::accum::{acc_wf, names_of, stream_of, stream_views};
use crate::classify::{
    spec_classify, spec_describe_group_aarch64, spec_describe_group_x86, x86_ext_name, x86_ext_of,
    X86Ext,
};
use crate::dispatch::{spec_is_x86, DecoderCfg};
use crate::generations::{
    lemma_max_ordinal_valid, lemma_ordinal_roundtrip, spec_generation_of_ordinal,
    spec_infer_generation, spec_introducing, spec_max_ordinal, spec_ordinal, Generation,
};
use crate::names::views_of;
use crate::report_matches;
use crate::scan::{spec_scan_sections, Section, SectionKind};
use crate::ScanReport;

verus! {

/// A container without code sections contributes nothing to the accumulator.
pub proof fn lemma_scan_no_code(
    cfg: DecoderCfg,
    secs: Seq<Section>,
    accv: Seq<(u8, Option<Seq<char>>)>,
)
    requires
        forall|i: int| 0 <= i < secs.len() ==> secs[i].kind != SectionKind::Code,
    ensures
        spec_scan_sections(cfg, secs, accv) == accv,
    decreases secs.len(),
{
    if secs.len() > 0 {
        assert(forall|i: int|
            0 <= i < secs.drop_first().len() ==> secs.drop_first()[i] == secs[i + 1]);
        lemma_scan_no_code(cfg, secs.drop_first(), accv);
    }
}

/// With zero code sections the report is empty: no streamed extension, an
/// empty summary, and (for the x86 family) exactly the baseline generation.
pub proof fn lemma_report_of_no_code(cfg: DecoderCfg, secs: Seq<Section>, rep: ScanReport)
    requires
        report_matches(cfg, secs, rep),
        forall|i: int| 0 <= i < secs.len() ==> secs[i].kind != SectionKind::Code,
    ensures
        rep.stream@.len() == 0,
        rep.summary@.len() == 0,
        spec_is_x86(cfg) ==> rep.generation == Some(Generation::Pentium),
{
    lemma_scan_no_code(cfg, secs, Seq::empty());
    let accv = spec_scan_sections(cfg, secs, Seq::empty());
    assert(stream_of(cfg, accv) =~= Seq::<(Seq<char>, Option<Seq<char>>)>::empty());
    assert(stream_views(rep.stream@).len() == rep.stream@.len());
    assert(names_of(cfg, accv) =~= Seq::<Seq<char>>::empty());
    assert(views_of(rep.summary@).len() == rep.summary@.len());
    if spec_is_x86(cfg) {
        assert(accv.map_values(|e: (u8, Option<Seq<char>>)| e.0) =~= Seq::<u8>::empty());
        assert(spec_max_ordinal(Seq::<u8>::empty()) == crate::generations::BASELINE_ORDINAL);
        assert(spec_infer_generation(Seq::<u8>::empty()) == Generation::Pentium);
    }
}

/// Scanning is deterministic: two reports built from the same configuration
/// and the same section bytes agree line for line, name for name, and on the
/// inferred generation.
pub proof fn lemma_scan_deterministic(
    cfg: DecoderCfg,
    secs: Seq<Section>,
    r1: ScanReport,
    r2: ScanReport,
)
    requires
        report_matches(cfg, secs, r1),
        report_matches(cfg, secs, r2),
    ensures
        stream_views(r1.stream@) == stream_views(r2.stream@),
        views_of(r1.summary@) == views_of(r2.summary@),
        r1.generation == r2.generation,
{
}

/// Distinct group codes name distinct x86 extensions, and distinct extensions
/// carry distinct names.
pub proof fn lemma_x86_table_injective()
    ensures
        forall|e1: X86Ext, e2: X86Ext| e1 != e2 ==> x86_ext_name(e1) != x86_ext_name(e2),
        forall|g1: u8, g2: u8|
            g1 != g2 && x86_ext_of(g1) is Some ==> x86_ext_of(g1) != x86_ext_of(g2),
{
    reveal_strlit("VT-x/AMD-V");
    reveal_strlit("3DNow");
    reveal_strlit("AES");
    reveal_strlit("ADX");
    reveal_strlit("AVX");
    reveal_strlit("AVX2");
    reveal_strlit("AVX512");
    reveal_strlit("BMI");
    reveal_strlit("BMI2");
    reveal_strlit("CMOV");
    reveal_strlit("F16C");
    reveal_strlit("FMA");
    reveal_strlit("FMA4");
    reveal_strlit("FSGSBASE");
    reveal_strlit("HLE");
    reveal_strlit("MMX");
    reveal_strlit("MODE32");
    reveal_strlit("MODE64");
    reveal_strlit("RTM");
    reveal_strlit("SHA");
    reveal_strlit("SSE1");
    reveal_strlit("SSE2");
    reveal_strlit("SSE3");
    reveal_strlit("SSE41");
    reveal_strlit("SSE42");
    reveal_strlit("SSE4A");
    reveal_strlit("SSSE3");
    reveal_strlit("PCLMUL");
    reveal_strlit("XOP");
    reveal_strlit("CDI");
    reveal_strlit("ERI");
    reveal_strlit("TBM");
    reveal_strlit("16BITMODE");
    reveal_strlit("NOT64BITMODE");
    reveal_strlit("SGX");
    reveal_strlit("DQI");
    reveal_strlit("BWI");
    reveal_strlit("PFI");
    reveal_strlit("VLX");
    reveal_strlit("SMAP");
    reveal_strlit("NOVLX");
    // every name's length, then one differing position for each pair of
    // names of equal length: together these facts distinguish all the names
    assert(x86_ext_name(X86Ext::VtX).len() == 10);
    assert(x86_ext_name(X86Ext::ThreeDNow).len() == 5);
    assert(x86_ext_name(X86Ext::Aes).len() == 3);
    assert(x86_ext_name(X86Ext::Adx).len() == 3);
    assert(x86_ext_name(X86Ext::Avx).len() == 3);
    assert(x86_ext_name(X86Ext::Avx2).len() == 4);
    assert(x86_ext_name(X86Ext::Avx512).len() == 6);
    assert(x86_ext_name(X86Ext::Bmi).len() == 3);
    assert(x86_ext_name(X86Ext::Bmi2).len() == 4);
    assert(x86_ext_name(X86Ext::Cmov).len() == 4);
    assert(x86_ext_name(X86Ext::F16c).len() == 4);
    assert(x86_ext_name(X86Ext::Fma).len() == 3);
    assert(x86_ext_name(X86Ext::Fma4).len() == 4);
    assert(x86_ext_name(X86Ext::Fsgsbase).len() == 8);
    assert(x86_ext_name(X86Ext::Hle).len() == 3);
    assert(x86_ext_name(X86Ext::Mmx).len() == 3);
    assert(x86_ext_name(X86Ext::Mode32).len() == 6);
    assert(x86_ext_name(X86Ext::Mode64).len() == 6);
    assert(x86_ext_name(X86Ext::Rtm).len() == 3);
    assert(x86_ext_name(X86Ext::Sha).len() == 3);
    assert(x86_ext_name(X86Ext::Sse1).len() == 4);
    assert(x86_ext_name(X86Ext::Sse2).len() == 4);
    assert(x86_ext_name(X86Ext::Sse3).len() == 4);
    assert(x86_ext_name(X86Ext::Sse41).len() == 5);
    assert(x86_ext_name(X86Ext::Sse42).len() == 5);
    assert(x86_ext_name(X86Ext::Sse4a).len() == 5);
    assert(x86_ext_name(X86Ext::Ssse3).len() == 5);
    assert(x86_ext_name(X86Ext::Pclmul).len() == 6);
    assert(x86_ext_name(X86Ext::Xop).len() == 3);
    assert(x86_ext_name(X86Ext::Cdi).len() == 3);
    assert(x86_ext_name(X86Ext::Eri).len() == 3);
    assert(x86_ext_name(X86Ext::Tbm).len() == 3);
    assert(x86_ext_name(X86Ext::SixteenBitMode).len() == 9);
    assert(x86_ext_name(X86Ext::Not64BitMode).len() == 12);
    assert(x86_ext_name(X86Ext::Sgx).len() == 3);
    assert(x86_ext_name(X86Ext::Dqi).len() == 3);
    assert(x86_ext_name(X86Ext::Bwi).len() == 3);
    assert(x86_ext_name(X86Ext::Pfi).len() == 3);
    assert(x86_ext_name(X86Ext::Vlx).len() == 3);
    assert(x86_ext_name(X86Ext::Smap).len() == 4);
    assert(x86_ext_name(X86Ext::Novlx).len() == 5);
    assert(x86_ext_name(X86Ext::ThreeDNow)[0] != x86_ext_name(X86Ext::Sse41)[0]);
    assert(x86_ext_name(X86Ext::ThreeDNow)[0] != x86_ext_name(X86Ext::Sse42)[0]);
    assert(x86_ext_name(X86Ext::ThreeDNow)[0] != x86_ext_name(X86Ext::Sse4a)[0]);
    assert(x86_ext_name(X86Ext::ThreeDNow)[0] != x86_ext_name(X86Ext::Ssse3)[0]);
    assert(x86_ext_name(X86Ext::ThreeDNow)[0] != x86_ext_name(X86Ext::Novlx)[0]);
    assert(x86_ext_name(X86Ext::Aes)[1] != x86_ext_name(X86Ext::Adx)[1]);
    assert(x86_ext_name(X86Ext::Aes)[1] != x86_ext_name(X86Ext::Avx)[1]);
    assert(x86_ext_name(X86Ext::Aes)[0] != x86_ext_name(X86Ext::Bmi)[0]);
    assert(x86_ext_name(X86Ext::Aes)[0] != x86_ext_name(X86Ext::Fma)[0]);
    assert(x86_ext_name(X86Ext::Aes)[0] != x86_ext_name(X86Ext::Hle)[0]);
    assert(x86_ext_name(X86Ext::Aes)[0] != x86_ext_name(X86Ext::Mmx)[0]);
    assert(x86_ext_name(X86Ext::Aes)[0] != x86_ext_name(X86Ext::Rtm)[0]);
    assert(x86_ext_name(X86Ext::Aes)[0] != x86_ext_name(X86Ext::Sha)[0]);
    assert(x86_ext_name(X86Ext::Aes)[0] != x86_ext_name(X86Ext::Xop)[0]);
    assert(x86_ext_name(X86Ext::Aes)[0] != x86_ext_name(X86Ext::Cdi)[0]);
    assert(x86_ext_name(X86Ext::Aes)[0] != x86_ext_name(X86Ext::Eri)[0]);
    assert(x86_ext_name(X86Ext::Aes)[0] != x86_ext_name(X86Ext::Tbm)[0]);
    assert(x86_ext_name(X86Ext::Aes)[0] != x86_ext_name(X86Ext::Sgx)[0]);
    assert(x86_ext_name(X86Ext::Aes)[0] != x86_ext_name(X86Ext::Dqi)[0]);
    assert(x86_ext_name(X86Ext::Aes)[0] != x86_ext_name(X86Ext::Bwi)[0]);
    assert(x86_ext_name(X86Ext::Aes)[0] != x86_ext_name(X86Ext::Pfi)[0]);
    assert(x86_ext_name(X86Ext::Aes)[0] != x86_ext_name(X86Ext::Vlx)[0]);
    assert(x86_ext_name(X86Ext::Adx)[1] != x86_ext_name(X86Ext::Avx)[1]);
    assert(x86_ext_name(X86Ext::Adx)[0] != x86_ext_name(X86Ext::Bmi)[0]);
    assert(x86_ext_name(X86Ext::Adx)[0] != x86_ext_name(X86Ext::Fma)[0]);
    assert(x86_ext_name(X86Ext::Adx)[0] != x86_ext_name(X86Ext::Hle)[0]);
    assert(x86_ext_name(X86Ext::Adx)[0] != x86_ext_name(X86Ext::Mmx)[0]);
    assert(x86_ext_name(X86Ext::Adx)[0] != x86_ext_name(X86Ext::Rtm)[0]);
    assert(x86_ext_name(X86Ext::Adx)[0] != x86_ext_name(X86Ext::Sha)[0]);
    assert(x86_ext_name(X86Ext::Adx)[0] != x86_ext_name(X86Ext::Xop)[0]);
    assert(x86_ext_name(X86Ext::Adx)[0] != x86_ext_name(X86Ext::Cdi)[0]);
    assert(x86_ext_name(X86Ext::Adx)[0] != x86_ext_name(X86Ext::Eri)[0]);
    assert(x86_ext_name(X86Ext::Adx)[0] != x86_ext_name(X86Ext::Tbm)[0]);
    assert(x86_ext_name(X86Ext::Adx)[0] != x86_ext_name(X86Ext::Sgx)[0]);
    assert(x86_ext_name(X86Ext::Adx)[0] != x86_ext_name(X86Ext::Dqi)[0]);
    assert(x86_ext_name(X86Ext::Adx)[0] != x86_ext_name(X86Ext::Bwi)[0]);
    assert(x86_ext_name(X86Ext::Adx)[0] != x86_ext_name(X86Ext::Pfi)[0]);
    assert(x86_ext_name(X86Ext::Adx)[0] != x86_ext_name(X86Ext::Vlx)[0]);
    assert(x86_ext_name(X86Ext::Avx)[0] != x86_ext_name(X86Ext::Bmi)[0]);
    assert(x86_ext_name(X86Ext::Avx)[0] != x86_ext_name(X86Ext::Fma)[0]);
    assert(x86_ext_name(X86Ext::Avx)[0] != x86_ext_name(X86Ext::Hle)[0]);
    assert(x86_ext_name(X86Ext::Avx)[0] != x86_ext_name(X86Ext::Mmx)[0]);
    assert(x86_ext_name(X86Ext::Avx)[0] != x86_ext_name(X86Ext::Rtm)[0]);
    assert(x86_ext_name(X86Ext::Avx)[0] != x86_ext_name(X86Ext::Sha)[0]);
    assert(x86_ext_name(X86Ext::Avx)[0] != x86_ext_name(X86Ext::Xop)[0]);
    assert(x86_ext_name(X86Ext::Avx)[0] != x86_ext_name(X86Ext::Cdi)[0]);
    assert(x86_ext_name(X86Ext::Avx)[0] != x86_ext_name(X86Ext::Eri)[0]);
    assert(x86_ext_name(X86Ext::Avx)[0] != x86_ext_name(X86Ext::Tbm)[0]);
    assert(x86_ext_name(X86Ext::Avx)[0] != x86_ext_name(X86Ext::Sgx)[0]);
    assert(x86_ext_name(X86Ext::Avx)[0] != x86_ext_name(X86Ext::Dqi)[0]);
    assert(x86_ext_name(X86Ext::Avx)[0] != x86_ext_name(X86Ext::Bwi)[0]);
    assert(x86_ext_name(X86Ext::Avx)[0] != x86_ext_name(X86Ext::Pfi)[0]);
    assert(x86_ext_name(X86Ext::Avx)[0] != x86_ext_name(X86Ext::Vlx)[0]);
    assert(x86_ext_name(X86Ext::Avx2)[0] != x86_ext_name(X86Ext::Bmi2)[0]);
    assert(x86_ext_name(X86Ext::Avx2)[0] != x86_ext_name(X86Ext::Cmov)[0]);
    assert(x86_ext_name(X86Ext::Avx2)[0] != x86_ext_name(X86Ext::F16c)[0]);
    assert(x86_ext_name(X86Ext::Avx2)[0] != x86_ext_name(X86Ext::Fma4)[0]);
    assert(x86_ext_name(X86Ext::Avx2)[0] != x86_ext_name(X86Ext::Sse1)[0]);
    assert(x86_ext_name(X86Ext::Avx2)[0] != x86_ext_name(X86Ext::Sse2)[0]);
    assert(x86_ext_name(X86Ext::Avx2)[0] != x86_ext_name(X86Ext::Sse3)[0]);
    assert(x86_ext_name(X86Ext::Avx2)[0] != x86_ext_name(X86Ext::Smap)[0]);
    assert(x86_ext_name(X86Ext::Avx512)[0] != x86_ext_name(X86Ext::Mode32)[0]);
    assert(x86_ext_name(X86Ext::Avx512)[0] != x86_ext_name(X86Ext::Mode64)[0]);
    assert(x86_ext_name(X86Ext::Avx512)[0] != x86_ext_name(X86Ext::Pclmul)[0]);
    assert(x86_ext_name(X86Ext::Bmi)[0] != x86_ext_name(X86Ext::Fma)[0]);
    assert(x86_ext_name(X86Ext::Bmi)[0] != x86_ext_name(X86Ext::Hle)[0]);
    assert(x86_ext_name(X86Ext::Bmi)[0] != x86_ext_name(X86Ext::Mmx)[0]);
    assert(x86_ext_name(X86Ext::Bmi)[0] != x86_ext_name(X86Ext::Rtm)[0]);
    assert(x86_ext_name(X86Ext::Bmi)[0] != x86_ext_name(X86Ext::Sha)[0]);
    assert(x86_ext_name(X86Ext::Bmi)[0] != x86_ext_name(X86Ext::Xop)[0]);
    assert(x86_ext_name(X86Ext::Bmi)[0] != x86_ext_name(X86Ext::Cdi)[0]);
    assert(x86_ext_name(X86Ext::Bmi)[0] != x86_ext_name(X86Ext::Eri)[0]);
    assert(x86_ext_name(X86Ext::Bmi)[0] != x86_ext_name(X86Ext::Tbm)[0]);
    assert(x86_ext_name(X86Ext::Bmi)[0] != x86_ext_name(X86Ext::Sgx)[0]);
    assert(x86_ext_name(X86Ext::Bmi)[0] != x86_ext_name(X86Ext::Dqi)[0]);
    assert(x86_ext_name(X86Ext::Bmi)[1] != x86_ext_name(X86Ext::Bwi)[1]);
    assert(x86_ext_name(X86Ext::Bmi)[0] != x86_ext_name(X86Ext::Pfi)[0]);
    assert(x86_ext_name(X86Ext::Bmi)[0] != x86_ext_name(X86Ext::Vlx)[0]);
    assert(x86_ext_name(X86Ext::Bmi2)[0] != x86_ext_name(X86Ext::Cmov)[0]);
    assert(x86_ext_name(X86Ext::Bmi2)[0] != x86_ext_name(X86Ext::F16c)[0]);
    assert(x86_ext_name(X86Ext::Bmi2)[0] != x86_ext_name(X86Ext::Fma4)[0]);
    assert(x86_ext_name(X86Ext::Bmi2)[0] != x86_ext_name(X86Ext::Sse1)[0]);
    assert(x86_ext_name(X86Ext::Bmi2)[0] != x86_ext_name(X86Ext::Sse2)[0]);
    assert(x86_ext_name(X86Ext::Bmi2)[0] != x86_ext_name(X86Ext::Sse3)[0]);
    assert(x86_ext_name(X86Ext::Bmi2)[0] != x86_ext_name(X86Ext::Smap)[0]);
    assert(x86_ext_name(X86Ext::Cmov)[0] != x86_ext_name(X86Ext::F16c)[0]);
    assert(x86_ext_name(X86Ext::Cmov)[0] != x86_ext_name(X86Ext::Fma4)[0]);
    assert(x86_ext_name(X86Ext::Cmov)[0] != x86_ext_name(X86Ext::Sse1)[0]);
    assert(x86_ext_name(X86Ext::Cmov)[0] != x86_ext_name(X86Ext::Sse2)[0]);
    assert(x86_ext_name(X86Ext::Cmov)[0] != x86_ext_name(X86Ext::Sse3)[0]);
    assert(x86_ext_name(X86Ext::Cmov)[0] != x86_ext_name(X86Ext::Smap)[0]);
    assert(x86_ext_name(X86Ext::F16c)[1] != x86_ext_name(X86Ext::Fma4)[1]);
    assert(x86_ext_name(X86Ext::F16c)[0] != x86_ext_name(X86Ext::Sse1)[0]);
    assert(x86_ext_name(X86Ext::F16c)[0] != x86_ext_name(X86Ext::Sse2)[0]);
    assert(x86_ext_name(X86Ext::F16c)[0] != x86_ext_name(X86Ext::Sse3)[0]);
    assert(x86_ext_name(X86Ext::F16c)[0] != x86_ext_name(X86Ext::Smap)[0]);
    assert(x86_ext_name(X86Ext::Fma)[0] != x86_ext_name(X86Ext::Hle)[0]);
    assert(x86_ext_name(X86Ext::Fma)[0] != x86_ext_name(X86Ext::Mmx)[0]);
    assert(x86_ext_name(X86Ext::Fma)[0] != x86_ext_name(X86Ext::Rtm)[0]);
    assert(x86_ext_name(X86Ext::Fma)[0] != x86_ext_name(X86Ext::Sha)[0]);
    assert(x86_ext_name(X86Ext::Fma)[0] != x86_ext_name(X86Ext::Xop)[0]);
    assert(x86_ext_name(X86Ext::Fma)[0] != x86_ext_name(X86Ext::Cdi)[0]);
    assert(x86_ext_name(X86Ext::Fma)[0] != x86_ext_name(X86Ext::Eri)[0]);
    assert(x86_ext_name(X86Ext::Fma)[0] != x86_ext_name(X86Ext::Tbm)[0]);
    assert(x86_ext_name(X86Ext::Fma)[0] != x86_ext_name(X86Ext::Sgx)[0]);
    assert(x86_ext_name(X86Ext::Fma)[0] != x86_ext_name(X86Ext::Dqi)[0]);
    assert(x86_ext_name(X86Ext::Fma)[0] != x86_ext_name(X86Ext::Bwi)[0]);
    assert(x86_ext_name(X86Ext::Fma)[0] != x86_ext_name(X86Ext::Pfi)[0]);
    assert(x86_ext_name(X86Ext::Fma)[0] != x86_ext_name(X86Ext::Vlx)[0]);
    assert(x86_ext_name(X86Ext::Fma4)[0] != x86_ext_name(X86Ext::Sse1)[0]);
    assert(x86_ext_name(X86Ext::Fma4)[0] != x86_ext_name(X86Ext::Sse2)[0]);
    assert(x86_ext_name(X86Ext::Fma4)[0] != x86_ext_name(X86Ext::Sse3)[0]);
    assert(x86_ext_name(X86Ext::Fma4)[0] != x86_ext_name(X86Ext::Smap)[0]);
    assert(x86_ext_name(X86Ext::Hle)[0] != x86_ext_name(X86Ext::Mmx)[0]);
    assert(x86_ext_name(X86Ext::Hle)[0] != x86_ext_name(X86Ext::Rtm)[0]);
    assert(x86_ext_name(X86Ext::Hle)[0] != x86_ext_name(X86Ext::Sha)[0]);
    assert(x86_ext_name(X86Ext::Hle)[0] != x86_ext_name(X86Ext::Xop)[0]);
    assert(x86_ext_name(X86Ext::Hle)[0] != x86_ext_name(X86Ext::Cdi)[0]);
    assert(x86_ext_name(X86Ext::Hle)[0] != x86_ext_name(X86Ext::Eri)[0]);
    assert(x86_ext_name(X86Ext::Hle)[0] != x86_ext_name(X86Ext::Tbm)[0]);
    assert(x86_ext_name(X86Ext::Hle)[0] != x86_ext_name(X86Ext::Sgx)[0]);
    assert(x86_ext_name(X86Ext::Hle)[0] != x86_ext_name(X86Ext::Dqi)[0]);
    assert(x86_ext_name(X86Ext::Hle)[0] != x86_ext_name(X86Ext::Bwi)[0]);
    assert(x86_ext_name(X86Ext::Hle)[0] != x86_ext_name(X86Ext::Pfi)[0]);
    assert(x86_ext_name(X86Ext::Hle)[0] != x86_ext_name(X86Ext::Vlx)[0]);
    assert(x86_ext_name(X86Ext::Mmx)[0] != x86_ext_name(X86Ext::Rtm)[0]);
    assert(x86_ext_name(X86Ext::Mmx)[0] != x86_ext_name(X86Ext::Sha)[0]);
    assert(x86_ext_name(X86Ext::Mmx)[0] != x86_ext_name(X86Ext::Xop)[0]);
    assert(x86_ext_name(X86Ext::Mmx)[0] != x86_ext_name(X86Ext::Cdi)[0]);
    assert(x86_ext_name(X86Ext::Mmx)[0] != x86_ext_name(X86Ext::Eri)[0]);
    assert(x86_ext_name(X86Ext::Mmx)[0] != x86_ext_name(X86Ext::Tbm)[0]);
    assert(x86_ext_name(X86Ext::Mmx)[0] != x86_ext_name(X86Ext::Sgx)[0]);
    assert(x86_ext_name(X86Ext::Mmx)[0] != x86_ext_name(X86Ext::Dqi)[0]);
    assert(x86_ext_name(X86Ext::Mmx)[0] != x86_ext_name(X86Ext::Bwi)[0]);
    assert(x86_ext_name(X86Ext::Mmx)[0] != x86_ext_name(X86Ext::Pfi)[0]);
    assert(x86_ext_name(X86Ext::Mmx)[0] != x86_ext_name(X86Ext::Vlx)[0]);
    assert(x86_ext_name(X86Ext::Mode32)[4] != x86_ext_name(X86Ext::Mode64)[4]);
    assert(x86_ext_name(X86Ext::Mode32)[0] != x86_ext_name(X86Ext::Pclmul)[0]);
    assert(x86_ext_name(X86Ext::Mode64)[0] != x86_ext_name(X86Ext::Pclmul)[0]);
    assert(x86_ext_name(X86Ext::Rtm)[0] != x86_ext_name(X86Ext::Sha)[0]);
    assert(x86_ext_name(X86Ext::Rtm)[0] != x86_ext_name(X86Ext::Xop)[0]);
    assert(x86_ext_name(X86Ext::Rtm)[0] != x86_ext_name(X86Ext::Cdi)[0]);
    assert(x86_ext_name(X86Ext::Rtm)[0] != x86_ext_name(X86Ext::Eri)[0]);
    assert(x86_ext_name(X86Ext::Rtm)[0] != x86_ext_name(X86Ext::Tbm)[0]);
    assert(x86_ext_name(X86Ext::Rtm)[0] != x86_ext_name(X86Ext::Sgx)[0]);
    assert(x86_ext_name(X86Ext::Rtm)[0] != x86_ext_name(X86Ext::Dqi)[0]);
    assert(x86_ext_name(X86Ext::Rtm)[0] != x86_ext_name(X86Ext::Bwi)[0]);
    assert(x86_ext_name(X86Ext::Rtm)[0] != x86_ext_name(X86Ext::Pfi)[0]);
    assert(x86_ext_name(X86Ext::Rtm)[0] != x86_ext_name(X86Ext::Vlx)[0]);
    assert(x86_ext_name(X86Ext::Sha)[0] != x86_ext_name(X86Ext::Xop)[0]);
    assert(x86_ext_name(X86Ext::Sha)[0] != x86_ext_name(X86Ext::Cdi)[0]);
    assert(x86_ext_name(X86Ext::Sha)[0] != x86_ext_name(X86Ext::Eri)[0]);
    assert(x86_ext_name(X86Ext::Sha)[0] != x86_ext_name(X86Ext::Tbm)[0]);
    assert(x86_ext_name(X86Ext::Sha)[1] != x86_ext_name(X86Ext::Sgx)[1]);
    assert(x86_ext_name(X86Ext::Sha)[0] != x86_ext_name(X86Ext::Dqi)[0]);
    assert(x86_ext_name(X86Ext::Sha)[0] != x86_ext_name(X86Ext::Bwi)[0]);
    assert(x86_ext_name(X86Ext::Sha)[0] != x86_ext_name(X86Ext::Pfi)[0]);
    assert(x86_ext_name(X86Ext::Sha)[0] != x86_ext_name(X86Ext::Vlx)[0]);
    assert(x86_ext_name(X86Ext::Sse1)[3] != x86_ext_name(X86Ext::Sse2)[3]);
    assert(x86_ext_name(X86Ext::Sse1)[3] != x86_ext_name(X86Ext::Sse3)[3]);
    assert(x86_ext_name(X86Ext::Sse1)[1] != x86_ext_name(X86Ext::Smap)[1]);
    assert(x86_ext_name(X86Ext::Sse2)[3] != x86_ext_name(X86Ext::Sse3)[3]);
    assert(x86_ext_name(X86Ext::Sse2)[1] != x86_ext_name(X86Ext::Smap)[1]);
    assert(x86_ext_name(X86Ext::Sse3)[1] != x86_ext_name(X86Ext::Smap)[1]);
    assert(x86_ext_name(X86Ext::Sse41)[4] != x86_ext_name(X86Ext::Sse42)[4]);
    assert(x86_ext_name(X86Ext::Sse41)[4] != x86_ext_name(X86Ext::Sse4a)[4]);
    assert(x86_ext_name(X86Ext::Sse41)[2] != x86_ext_name(X86Ext::Ssse3)[2]);
    assert(x86_ext_name(X86Ext::Sse41)[0] != x86_ext_name(X86Ext::Novlx)[0]);
    assert(x86_ext_name(X86Ext::Sse42)[4] != x86_ext_name(X86Ext::Sse4a)[4]);
    assert(x86_ext_name(X86Ext::Sse42)[2] != x86_ext_name(X86Ext::Ssse3)[2]);
    assert(x86_ext_name(X86Ext::Sse42)[0] != x86_ext_name(X86Ext::Novlx)[0]);
    assert(x86_ext_name(X86Ext::Sse4a)[2] != x86_ext_name(X86Ext::Ssse3)[2]);
    assert(x86_ext_name(X86Ext::Sse4a)[0] != x86_ext_name(X86Ext::Novlx)[0]);
    assert(x86_ext_name(X86Ext::Ssse3)[0] != x86_ext_name(X86Ext::Novlx)[0]);
    assert(x86_ext_name(X86Ext::Xop)[0] != x86_ext_name(X86Ext::Cdi)[0]);
    assert(x86_ext_name(X86Ext::Xop)[0] != x86_ext_name(X86Ext::Eri)[0]);
    assert(x86_ext_name(X86Ext::Xop)[0] != x86_ext_name(X86Ext::Tbm)[0]);
    assert(x86_ext_name(X86Ext::Xop)[0] != x86_ext_name(X86Ext::Sgx)[0]);
    assert(x86_ext_name(X86Ext::Xop)[0] != x86_ext_name(X86Ext::Dqi)[0]);
    assert(x86_ext_name(X86Ext::Xop)[0] != x86_ext_name(X86Ext::Bwi)[0]);
    assert(x86_ext_name(X86Ext::Xop)[0] != x86_ext_name(X86Ext::Pfi)[0]);
    assert(x86_ext_name(X86Ext::Xop)[0] != x86_ext_name(X86Ext::Vlx)[0]);
    assert(x86_ext_name(X86Ext::Cdi)[0] != x86_ext_name(X86Ext::Eri)[0]);
    assert(x86_ext_name(X86Ext::Cdi)[0] != x86_ext_name(X86Ext::Tbm)[0]);
    assert(x86_ext_name(X86Ext::Cdi)[0] != x86_ext_name(X86Ext::Sgx)[0]);
    assert(x86_ext_name(X86Ext::Cdi)[0] != x86_ext_name(X86Ext::Dqi)[0]);
    assert(x86_ext_name(X86Ext::Cdi)[0] != x86_ext_name(X86Ext::Bwi)[0]);
    assert(x86_ext_name(X86Ext::Cdi)[0] != x86_ext_name(X86Ext::Pfi)[0]);
    assert(x86_ext_name(X86Ext::Cdi)[0] != x86_ext_name(X86Ext::Vlx)[0]);
    assert(x86_ext_name(X86Ext::Eri)[0] != x86_ext_name(X86Ext::Tbm)[0]);
    assert(x86_ext_name(X86Ext::Eri)[0] != x86_ext_name(X86Ext::Sgx)[0]);
    assert(x86_ext_name(X86Ext::Eri)[0] != x86_ext_name(X86Ext::Dqi)[0]);
    assert(x86_ext_name(X86Ext::Eri)[0] != x86_ext_name(X86Ext::Bwi)[0]);
    assert(x86_ext_name(X86Ext::Eri)[0] != x86_ext_name(X86Ext::Pfi)[0]);
    assert(x86_ext_name(X86Ext::Eri)[0] != x86_ext_name(X86Ext::Vlx)[0]);
    assert(x86_ext_name(X86Ext::Tbm)[0] != x86_ext_name(X86Ext::Sgx)[0]);
    assert(x86_ext_name(X86Ext::Tbm)[0] != x86_ext_name(X86Ext::Dqi)[0]);
    assert(x86_ext_name(X86Ext::Tbm)[0] != x86_ext_name(X86Ext::Bwi)[0]);
    assert(x86_ext_name(X86Ext::Tbm)[0] != x86_ext_name(X86Ext::Pfi)[0]);
    assert(x86_ext_name(X86Ext::Tbm)[0] != x86_ext_name(X86Ext::Vlx)[0]);
    assert(x86_ext_name(X86Ext::Sgx)[0] != x86_ext_name(X86Ext::Dqi)[0]);
    assert(x86_ext_name(X86Ext::Sgx)[0] != x86_ext_name(X86Ext::Bwi)[0]);
    assert(x86_ext_name(X86Ext::Sgx)[0] != x86_ext_name(X86Ext::Pfi)[0]);
    assert(x86_ext_name(X86Ext::Sgx)[0] != x86_ext_name(X86Ext::Vlx)[0]);
    assert(x86_ext_name(X86Ext::Dqi)[0] != x86_ext_name(X86Ext::Bwi)[0]);
    assert(x86_ext_name(X86Ext::Dqi)[0] != x86_ext_name(X86Ext::Pfi)[0]);
    assert(x86_ext_name(X86Ext::Dqi)[0] != x86_ext_name(X86Ext::Vlx)[0]);
    assert(x86_ext_name(X86Ext::Bwi)[0] != x86_ext_name(X86Ext::Pfi)[0]);
    assert(x86_ext_name(X86Ext::Bwi)[0] != x86_ext_name(X86Ext::Vlx)[0]);
    assert(x86_ext_name(X86Ext::Pfi)[0] != x86_ext_name(X86Ext::Vlx)[0]);
}

/// Distinct group codes name distinct AArch64 extensions.
pub proof fn lemma_aarch64_table_injective()
    ensures
        forall|g1: u8, g2: u8|
            g1 != g2 && spec_describe_group_aarch64(g1) is Some ==> spec_describe_group_aarch64(g1)
                != spec_describe_group_aarch64(g2),
{
    reveal_strlit("CRYPTO");
    reveal_strlit("FPARMV8");
    reveal_strlit("NEON");
    reveal_strlit("CRC");
    reveal_strlit("AES");
    reveal_strlit("DOTPROD");
    reveal_strlit("FULLFP16");
    reveal_strlit("LSE");
    reveal_strlit("RCPC");
    reveal_strlit("RDM");
    reveal_strlit("SHA2");
    reveal_strlit("SHA3");
    reveal_strlit("SM4");
    reveal_strlit("SVE");
    reveal_strlit("SVE2");
    reveal_strlit("SVE2AES");
    reveal_strlit("SVE2BitPerm");
    reveal_strlit("SVE2SHA3");
    reveal_strlit("SV#2SM4");
    reveal_strlit("SME");
    reveal_strlit("SMEF64");
    reveal_strlit("SMEI64");
    reveal_strlit("MatMulFP32");
    reveal_strlit("MatMulFP64");
    reveal_strlit("MatMulInt8");
    reveal_strlit("V8_1A");
    reveal_strlit("V8_3A");
    reveal_strlit("V8_4A");
    // every name's length, then one differing position for each pair of
    // names of equal length: together these facts distinguish all the names
    assert(spec_describe_group_aarch64(128u8).unwrap().len() == 6);
    assert(spec_describe_group_aarch64(129u8).unwrap().len() == 7);
    assert(spec_describe_group_aarch64(130u8).unwrap().len() == 4);
    assert(spec_describe_group_aarch64(131u8).unwrap().len() == 3);
    assert(spec_describe_group_aarch64(132u8).unwrap().len() == 3);
    assert(spec_describe_group_aarch64(133u8).unwrap().len() == 7);
    assert(spec_describe_group_aarch64(134u8).unwrap().len() == 8);
    assert(spec_describe_group_aarch64(135u8).unwrap().len() == 3);
    assert(spec_describe_group_aarch64(136u8).unwrap().len() == 4);
    assert(spec_describe_group_aarch64(137u8).unwrap().len() == 3);
    assert(spec_describe_group_aarch64(138u8).unwrap().len() == 4);
    assert(spec_describe_group_aarch64(139u8).unwrap().len() == 4);
    assert(spec_describe_group_aarch64(140u8).unwrap().len() == 3);
    assert(spec_describe_group_aarch64(141u8).unwrap().len() == 3);
    assert(spec_describe_group_aarch64(142u8).unwrap().len() == 4);
    assert(spec_describe_group_aarch64(143u8).unwrap().len() == 7);
    assert(spec_describe_group_aarch64(144u8).unwrap().len() == 11);
    assert(spec_describe_group_aarch64(145u8).unwrap().len() == 8);
    assert(spec_describe_group_aarch64(146u8).unwrap().len() == 7);
    assert(spec_describe_group_aarch64(147u8).unwrap().len() == 3);
    assert(spec_describe_group_aarch64(148u8).unwrap().len() == 6);
    assert(spec_describe_group_aarch64(149u8).unwrap().len() == 6);
    assert(spec_describe_group_aarch64(150u8).unwrap().len() == 10);
    assert(spec_describe_group_aarch64(151u8).unwrap().len() == 10);
    assert(spec_describe_group_aarch64(152u8).unwrap().len() == 10);
    assert(spec_describe_group_aarch64(153u8).unwrap().len() == 5);
    assert(spec_describe_group_aarch64(154u8).unwrap().len() == 5);
    assert(spec_describe_group_aarch64(155u8).unwrap().len() == 5);
    assert(spec_describe_group_aarch64(128u8).unwrap()[0] != spec_describe_group_aarch64(148u8).unwrap()[0]);
    assert(spec_describe_group_aarch64(128u8).unwrap()[0] != spec_describe_group_aarch64(149u8).unwrap()[0]);
    assert(spec_describe_group_aarch64(129u8).unwrap()[0] != spec_describe_group_aarch64(133u8).unwrap()[0]);
    assert(spec_describe_group_aarch64(129u8).unwrap()[0] != spec_describe_group_aarch64(143u8).unwrap()[0]);
    assert(spec_describe_group_aarch64(129u8).unwrap()[0] != spec_describe_group_aarch64(146u8).unwrap()[0]);
    assert(spec_describe_group_aarch64(130u8).unwrap()[0] != spec_describe_group_aarch64(136u8).unwrap()[0]);
    assert(spec_describe_group_aarch64(130u8).unwrap()[0] != spec_describe_group_aarch64(138u8).unwrap()[0]);
    assert(spec_describe_group_aarch64(130u8).unwrap()[0] != spec_describe_group_aarch64(139u8).unwrap()[0]);
    assert(spec_describe_group_aarch64(130u8).unwrap()[0] != spec_describe_group_aarch64(142u8).unwrap()[0]);
    assert(spec_describe_group_aarch64(131u8).unwrap()[0] != spec_describe_group_aarch64(132u8).unwrap()[0]);
    assert(spec_describe_group_aarch64(131u8).unwrap()[0] != spec_describe_group_aarch64(135u8).unwrap()[0]);
    assert(spec_describe_group_aarch64(131u8).unwrap()[0] != spec_describe_group_aarch64(137u8).unwrap()[0]);
    assert(spec_describe_group_aarch64(131u8).unwrap()[0] != spec_describe_group_aarch64(140u8).unwrap()[0]);
    assert(spec_describe_group_aarch64(131u8).unwrap()[0] != spec_describe_group_aarch64(141u8).unwrap()[0]);
    assert(spec_describe_group_aarch64(131u8).unwrap()[0] != spec_describe_group_aarch64(147u8).unwrap()[0]);
    assert(spec_describe_group_aarch64(132u8).unwrap()[0] != spec_describe_group_aarch64(135u8).unwrap()[0]);
    assert(spec_describe_group_aarch64(132u8).unwrap()[0] != spec_describe_group_aarch64(137u8).unwrap()[0]);
    assert(spec_describe_group_aarch64(132u8).unwrap()[0] != spec_describe_group_aarch64(140u8).unwrap()[0]);
    assert(spec_describe_group_aarch64(132u8).unwrap()[0] != spec_describe_group_aarch64(141u8).unwrap()[0]);
    assert(spec_describe_group_aarch64(132u8).unwrap()[0] != spec_describe_group_aarch64(147u8).unwrap()[0]);
    assert(spec_describe_group_aarch64(133u8).unwrap()[0] != spec_describe_group_aarch64(143u8).unwrap()[0]);
    assert(spec_describe_group_aarch64(133u8).unwrap()[0] != spec_describe_group_aarch64(146u8).unwrap()[0]);
    assert(spec_describe_group_aarch64(134u8).unwrap()[0] != spec_describe_group_aarch64(145u8).unwrap()[0]);
    assert(spec_describe_group_aarch64(135u8).unwrap()[0] != spec_describe_group_aarch64(137u8).unwrap()[0]);
    assert(spec_describe_group_aarch64(135u8).unwrap()[0] != spec_describe_group_aarch64(140u8).unwrap()[0]);
    assert(spec_describe_group_aarch64(135u8).unwrap()[0] != spec_describe_group_aarch64(141u8).unwrap()[0]);
    assert(spec_describe_group_aarch64(135u8).unwrap()[0] != spec_describe_group_aarch64(147u8).unwrap()[0]);
    assert(spec_describe_group_aarch64(136u8).unwrap()[0] != spec_describe_group_aarch64(138u8).unwrap()[0]);
    assert(spec_describe_group_aarch64(136u8).unwrap()[0] != spec_describe_group_aarch64(139u8).unwrap()[0]);
    assert(spec_describe_group_aarch64(136u8).unwrap()[0] != spec_describe_group_aarch64(142u8).unwrap()[0]);
    assert(spec_describe_group_aarch64(137u8).unwrap()[0] != spec_describe_group_aarch64(140u8).unwrap()[0]);
    assert(spec_describe_group_aarch64(137u8).unwrap()[0] != spec_describe_group_aarch64(141u8).unwrap()[0]);
    assert(spec_describe_group_aarch64(137u8).unwrap()[0] != spec_describe_group_aarch64(147u8).unwrap()[0]);
    assert(spec_describe_group_aarch64(138u8).unwrap()[3] != spec_describe_group_aarch64(139u8).unwrap()[3]);
    assert(spec_describe_group_aarch64(138u8).unwrap()[1] != spec_describe_group_aarch64(142u8).unwrap()[1]);
    assert(spec_describe_group_aarch64(139u8).unwrap()[1] != spec_describe_group_aarch64(142u8).unwrap()[1]);
    assert(spec_describe_group_aarch64(140u8).unwrap()[1] != spec_describe_group_aarch64(141u8).unwrap()[1]);
    assert(spec_describe_group_aarch64(140u8).unwrap()[2] != spec_describe_group_aarch64(147u8).unwrap()[2]);
    assert(spec_describe_group_aarch64(141u8).unwrap()[1] != spec_describe_group_aarch64(147u8).unwrap()[1]);
    assert(spec_describe_group_aarch64(143u8).unwrap()[2] != spec_describe_group_aarch64(146u8).unwrap()[2]);
    assert(spec_describe_group_aarch64(148u8).unwrap()[3] != spec_describe_group_aarch64(149u8).unwrap()[3]);
    assert(spec_describe_group_aarch64(150u8).unwrap()[8] != spec_describe_group_aarch64(151u8).unwrap()[8]);
    assert(spec_describe_group_aarch64(150u8).unwrap()[6] != spec_describe_group_aarch64(152u8).unwrap()[6]);
    assert(spec_describe_group_aarch64(151u8).unwrap()[6] != spec_describe_group_aarch64(152u8).unwrap()[6]);
    assert(spec_describe_group_aarch64(153u8).unwrap()[3] != spec_describe_group_aarch64(154u8).unwrap()[3]);
    assert(spec_describe_group_aarch64(153u8).unwrap()[3] != spec_describe_group_aarch64(155u8).unwrap()[3]);
    assert(spec_describe_group_aarch64(154u8).unwrap()[3] != spec_describe_group_aarch64(155u8).unwrap()[3]);
}

/// Each architecture's classifier sends distinct group codes to distinct
/// names.
pub proof fn lemma_classify_injective(cfg: DecoderCfg)
    ensures
        forall|g1: u8, g2: u8|
            g1 != g2 && spec_classify(cfg, g1) is Some ==> spec_classify(cfg, g1) != spec_classify(
                cfg,
                g2,
            ),
{
    match cfg {
        DecoderCfg::X86Bits64 | DecoderCfg::X86Bits32 => {
            lemma_x86_table_injective();
            assert forall|g1: u8, g2: u8|
                g1 != g2 && spec_classify(cfg, g1) is Some implies spec_classify(cfg, g1)
                != spec_classify(cfg, g2) by {
                if spec_describe_group_x86(g2) is Some {
                    assert(x86_ext_of(g1) != x86_ext_of(g2));
                }
            }
        },
        DecoderCfg::Arm64 => {
            lemma_aarch64_table_injective();
        },
    }
}

/// Deduplication: the streaming report has at most one line per code the
/// accumulator holds, every line's name comes from a code of the
/// accumulator, and no classified name appears twice.
pub proof fn lemma_stream_dedup(cfg: DecoderCfg, accv: Seq<(u8, Option<Seq<char>>)>)
    requires
        acc_wf(accv),
    ensures
        stream_of(cfg, accv).len() <= accv.len(),
        forall|i: int|
            0 <= i < stream_of(cfg, accv).len() ==> exists|k: int|
                0 <= k < accv.len() && spec_classify(cfg, accv[k].0) == Some(
                    #[trigger] stream_of(cfg, accv)[i].0,
                ),
        forall|i: int, j: int|
            0 <= i < j < stream_of(cfg, accv).len() ==> stream_of(cfg, accv)[i].0 != stream_of(
                cfg,
                accv,
            )[j].0,
    decreases accv.len(),
{
    if accv.len() > 0 {
        let pre = accv.drop_last();
        assert(acc_wf(pre));
        lemma_stream_dedup(cfg, pre);
        let s_pre = stream_of(cfg, pre);
        let s = stream_of(cfg, accv);
        assert forall|i: int|
            0 <= i < s.len() implies exists|k: int|
            0 <= k < accv.len() && spec_classify(cfg, accv[k].0) == Some(#[trigger] s[i].0) by {
            match spec_classify(cfg, accv.last().0) {
                Some(name) => {
                    if i < s_pre.len() {
                        let k = choose|k: int|
                            0 <= k < pre.len() && spec_classify(cfg, pre[k].0) == Some(s_pre[i].0);
                        assert(accv[k].0 == pre[k].0);
                        assert(spec_classify(cfg, accv[k].0) == Some(s[i].0));
                    } else {
                        assert(s[i].0 == name);
                        assert(spec_classify(cfg, accv[accv.len() - 1].0) == Some(s[i].0));
                    }
                },
                None => {
                    let k = choose|k: int|
                        0 <= k < pre.len() && spec_classify(cfg, pre[k].0) == Some(s_pre[i].0);
                    assert(accv[k].0 == pre[k].0);
                    assert(spec_classify(cfg, accv[k].0) == Some(s[i].0));
                },
            }
        }
        lemma_classify_injective(cfg);
        assert forall|i: int, j: int| 0 <= i < j < s.len() implies s[i].0 != s[j].0 by {
            match spec_classify(cfg, accv.last().0) {
                Some(name) => {
                    if j < s_pre.len() {
                    } else {
                        // the new line's code differs from every code behind
                        // the earlier lines, and the classifier is injective
                        assert(s[j].0 == name);
                        let k = choose|k: int|
                            0 <= k < pre.len() && spec_classify(cfg, pre[k].0) == Some(s_pre[i].0);
                        assert(accv[k].0 != accv.last().0);
                        assert(spec_classify(cfg, accv[k].0) != spec_classify(
                            cfg,
                            accv.last().0,
                        ));
                    }
                },
                None => {},
            }
        }
    }
}

/// Deduplication at the report level: the streaming section has at most one
/// line per distinct group id encountered, no classified name appears in it
/// twice, and the sorted summary lists exactly the streamed names.
pub proof fn lemma_report_dedup(cfg: DecoderCfg, secs: Seq<Section>, rep: ScanReport)
    requires
        report_matches(cfg, secs, rep),
    ensures
        rep.stream@.len() <= spec_scan_sections(cfg, secs, Seq::empty()).len(),
        forall|i: int, j: int|
            0 <= i < j < rep.stream@.len() ==> stream_views(rep.stream@)[i].0 != stream_views(
                rep.stream@,
            )[j].0,
        rep.summary@.len() == rep.stream@.len(),
        views_of(rep.summary@).to_multiset() == names_of(
            cfg,
            spec_scan_sections(cfg, secs, Seq::empty()),
        ).to_multiset(),
{
    let accv = spec_scan_sections(cfg, secs, Seq::empty());
    crate::scan::lemma_scan_sections_wf(cfg, secs, Seq::empty());
    lemma_stream_dedup(cfg, accv);
    assert(stream_views(rep.stream@).len() == rep.stream@.len());
    crate::names::lemma_sort_sorted(names_of(cfg, accv));
    assert(views_of(rep.summary@).len() == rep.summary@.len());
    assert(names_of(cfg, accv).len() == stream_of(cfg, accv).len());
}

/// Monotonic generation inference: an extension whose introducing generation
/// has a higher ordinal than everything observed so far strictly raises the
/// inferred generation.
pub proof fn lemma_generation_monotonic(codes: Seq<u8>, g: u8)
    requires
        x86_ext_of(g) is Some,
        spec_ordinal(spec_introducing(x86_ext_of(g).unwrap())) > spec_max_ordinal(codes),
    ensures
        spec_max_ordinal(codes.push(g)) == spec_ordinal(spec_introducing(x86_ext_of(g).unwrap())),
        spec_ordinal(spec_infer_generation(codes.push(g))) > spec_ordinal(
            spec_infer_generation(codes),
        ),
{
    assert(codes.push(g).drop_last() =~= codes);
    assert(codes.push(g).last() == g);
    lemma_max_ordinal_valid(codes);
    lemma_max_ordinal_valid(codes.push(g));
    lemma_ordinal_roundtrip();
}

/// The shipped static tables are internally consistent: every extension the
/// classification table knows has an introducing generation, and every
/// introducing generation's ordinal is a real entry of the reverse table. An
/// internal table-consistency fault therefore cannot occur.
pub proof fn lemma_tables_consistent()
    ensures
        forall|e: X86Ext|
            spec_generation_of_ordinal(spec_ordinal(spec_introducing(e))) == Some(
                spec_introducing(e),
            ),
{
    lemma_ordinal_roundtrip();
}

/// With no observations at all the inference yields exactly the baseline
/// generation.
pub proof fn lemma_baseline_generation()
    ensures
        spec_infer_generation(Seq::<u8>::empty()) == Generation::Pentium,
        spec_max_ordinal(Seq::<u8>::empty()) == crate::generations::BASELINE_ORDINAL,
{
}

} // verus!
