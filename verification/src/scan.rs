//! The section scanner: a byte-resynchronizing disassembly loop.
//!
//! The scanner keeps an explicit byte cursor into each code section and
//! decodes one instruction at a time, advancing by the consumed length. A
//! failed decode attempt, a zero-length result, or a length past the end of
//! the section advances by the minimum policy instead (one byte, or what is
//! left), so progress is strictly positive on every iteration and the loop
//! provably terminates whatever the decoder does.

use vstd::prelude::*;

use crate::accum::{acc_wf, lemma_record_wf, spec_record, Accumulator};
use crate::decoder::{decode_of, Decoder};
use crate::dispatch::DecoderCfg;

verus! {

/// A section handed in by the container-format reader: its kind and its raw
/// bytes. Only code sections are scanned.
#[derive(Clone, Copy, PartialEq, Eq, Structural, Debug)]
pub enum SectionKind {
    Code,
    Other,
}

/// A container section's raw contents.
pub struct Section {
    pub kind: SectionKind,
    pub bytes: Vec<u8>,
}

/// How far the cursor moves for one decode attempt at `from`: the consumed
/// length, clamped to at least one byte (the minimum-advance-on-failure
/// policy) and to at most what is left of the section.
pub open spec fn scan_advance(cfg: DecoderCfg, bytes: Seq<u8>, from: int) -> int
    recommends
        0 <= from < bytes.len(),
{
    match decode_of(cfg, bytes.skip(from)) {
        Some(d) => if d.0 == 0 {
            1
        } else if d.0 <= bytes.len() - from {
            d.0 as int
        } else {
            bytes.len() - from
        },
        None => 1,
    }
}

/// The observations one decode attempt at `from` feeds the accumulator: one
/// event per group code, each with the instruction's mnemonic.
pub open spec fn step_events(cfg: DecoderCfg, bytes: Seq<u8>, from: int) -> Seq<
    (u8, Option<Seq<char>>),
> {
    match decode_of(cfg, bytes.skip(from)) {
        Some(d) => Seq::new(d.2.len(), |i: int| (d.2[i], d.1)),
        None => Seq::empty(),
    }
}

/// Recording a sequence of observations, in order.
pub open spec fn record_all(
    accv: Seq<(u8, Option<Seq<char>>)>,
    evs: Seq<(u8, Option<Seq<char>>)>,
) -> Seq<(u8, Option<Seq<char>>)>
    decreases evs.len(),
{
    if evs.len() == 0 {
        accv
    } else {
        record_all(spec_record(accv, evs[0].0, evs[0].1), evs.drop_first())
    }
}

/// Recording any events keeps the accumulator well formed.
pub proof fn lemma_record_all_wf(
    accv: Seq<(u8, Option<Seq<char>>)>,
    evs: Seq<(u8, Option<Seq<char>>)>,
)
    requires
        acc_wf(accv),
    ensures
        acc_wf(record_all(accv, evs)),
    decreases evs.len(),
{
    if evs.len() > 0 {
        lemma_record_wf(accv, evs[0].0, evs[0].1);
        lemma_record_all_wf(spec_record(accv, evs[0].0, evs[0].1), evs.drop_first());
    }
}

/// What scanning a section's bytes from cursor position `from` onward does to
/// the accumulator. Progress is strictly positive on every step, so the scan
/// of any byte sequence terminates.
pub open spec fn spec_scan(
    cfg: DecoderCfg,
    bytes: Seq<u8>,
    from: int,
    accv: Seq<(u8, Option<Seq<char>>)>,
) -> Seq<(u8, Option<Seq<char>>)>
    decreases bytes.len() - from,
{
    if 0 <= from < bytes.len() {
        spec_scan(
            cfg,
            bytes,
            from + scan_advance(cfg, bytes, from),
            record_all(accv, step_events(cfg, bytes, from)),
        )
    } else {
        accv
    }
}

/// Scanning keeps the accumulator well formed.
pub proof fn lemma_scan_wf(
    cfg: DecoderCfg,
    bytes: Seq<u8>,
    from: int,
    accv: Seq<(u8, Option<Seq<char>>)>,
)
    requires
        acc_wf(accv),
    ensures
        acc_wf(spec_scan(cfg, bytes, from, accv)),
    decreases bytes.len() - from,
{
    if 0 <= from < bytes.len() {
        lemma_record_all_wf(accv, step_events(cfg, bytes, from));
        lemma_scan_wf(
            cfg,
            bytes,
            from + scan_advance(cfg, bytes, from),
            record_all(accv, step_events(cfg, bytes, from)),
        );
    }
}

/// The scanner makes strictly positive progress at every cursor position, and
/// never past the end of the section: resynchronization cannot loop forever.
pub proof fn lemma_scan_progress(cfg: DecoderCfg, bytes: Seq<u8>, from: int)
    requires
        0 <= from < bytes.len(),
    ensures
        from < from + scan_advance(cfg, bytes, from) <= bytes.len(),
{
}

/// Drives the decoder over one section's bytes, recording every decoded
/// instruction's group codes, resynchronizing past undecodable bytes.
pub fn scan_section(dec: &Decoder, data: &[u8], acc: &mut Accumulator)
    requires
        old(acc).wf(),
    ensures
        final(acc).wf(),
        final(acc)@ == spec_scan(dec.config(), data@, 0, old(acc)@),
{
    let ghost cfg = dec.config();
    let mut offset: usize = 0;
    while offset < data.len()
        invariant
            0 <= offset <= data@.len(),
            acc.wf(),
            spec_scan(cfg, data@, 0, old(acc)@) == spec_scan(cfg, data@, offset as int, acc@),
            cfg == dec.config(),
        decreases data@.len() - offset,
    {
        let ghost acc_start = acc@;
        let ghost evs = step_events(cfg, data@, offset as int);
        let rest = vstd::slice::slice_subrange(data, offset, data.len());
        proof {
            assert(rest@ =~= data@.skip(offset as int));
        }
        let d = dec.decode_one(rest);
        let rem = data.len() - offset;
        let adv: usize = match &d {
            Some(di) => {
                let mnem: Option<&str> = match &di.mnemonic {
                    Some(s) => Some(s.as_str()),
                    None => None,
                };
                proof {
                    assert(evs.len() == di.groups@.len());
                    assert(forall|k: int| 0 <= k < evs.len() ==> evs[k] == (
                        di.groups@[k],
                        crate::accum::mnemonic_view(di.mnemonic),
                    ));
                    assert(evs.skip(0) =~= evs);
                }
                let mut k: usize = 0;
                while k < di.groups.len()
                    invariant
                        0 <= k <= di.groups@.len(),
                        acc.wf(),
                        evs.len() == di.groups@.len(),
                        forall|k2: int| 0 <= k2 < evs.len() ==> evs[k2] == (
                            di.groups@[k2],
                            crate::accum::mnemonic_view(di.mnemonic),
                        ),
                        crate::accum::mnemonic_view(di.mnemonic) == match mnem {
                            Some(s) => Some(s@),
                            None => None::<Seq<char>>,
                        },
                        record_all(acc_start, evs) == record_all(acc@, evs.skip(k as int)),
                    decreases di.groups@.len() - k,
                {
                    let ghost acc_prev = acc@;
                    acc.record(di.groups[k], mnem);
                    proof {
                        lemma_record_wf(acc_prev, evs[k as int].0, evs[k as int].1);
                        assert(evs.skip(k as int)[0] == evs[k as int]);
                        assert(evs.skip(k as int).drop_first() =~= evs.skip(k + 1 as int));
                    }
                    k = k + 1;
                }
                proof {
                    assert(evs.skip(evs.len() as int) =~= Seq::<(u8, Option<Seq<char>>)>::empty());
                    assert(acc@ == record_all(acc_start, evs));
                }
                if di.len == 0 {
                    1
                } else if di.len <= rem {
                    di.len
                } else {
                    rem
                }
            },
            None => {
                proof {
                    assert(evs =~= Seq::<(u8, Option<Seq<char>>)>::empty());
                    assert(acc@ == record_all(acc_start, evs));
                }
                1
            },
        };
        proof {
            assert(adv == scan_advance(cfg, data@, offset as int));
            assert(spec_scan(cfg, data@, offset as int, acc_start) == spec_scan(
                cfg,
                data@,
                offset as int + scan_advance(cfg, data@, offset as int),
                record_all(acc_start, evs),
            ));
        }
        offset = offset + adv;
    }
}

/// What scanning a whole container does: each code section's bytes are
/// scanned in order; other sections are skipped.
pub open spec fn spec_scan_sections(
    cfg: DecoderCfg,
    secs: Seq<Section>,
    accv: Seq<(u8, Option<Seq<char>>)>,
) -> Seq<(u8, Option<Seq<char>>)>
    decreases secs.len(),
{
    if secs.len() == 0 {
        accv
    } else {
        let after = if secs[0].kind == SectionKind::Code {
            spec_scan(cfg, secs[0].bytes@, 0, accv)
        } else {
            accv
        };
        spec_scan_sections(cfg, secs.drop_first(), after)
    }
}

/// Scanning a whole container keeps the accumulator well formed.
pub proof fn lemma_scan_sections_wf(
    cfg: DecoderCfg,
    secs: Seq<Section>,
    accv: Seq<(u8, Option<Seq<char>>)>,
)
    requires
        acc_wf(accv),
    ensures
        acc_wf(spec_scan_sections(cfg, secs, accv)),
    decreases secs.len(),
{
    if secs.len() > 0 {
        if secs[0].kind == SectionKind::Code {
            lemma_scan_wf(cfg, secs[0].bytes@, 0, accv);
        }
        lemma_scan_sections_wf(
            cfg,
            secs.drop_first(),
            if secs[0].kind == SectionKind::Code {
                spec_scan(cfg, secs[0].bytes@, 0, accv)
            } else {
                accv
            },
        );
    }
}

/// Scans every code section of a container, in order.
pub fn scan_sections(dec: &Decoder, sections: &Vec<Section>, acc: &mut Accumulator)
    requires
        old(acc).wf(),
    ensures
        final(acc).wf(),
        final(acc)@ == spec_scan_sections(dec.config(), sections@, old(acc)@),
{
    let ghost cfg = dec.config();
    proof {
        assert(sections@.skip(0) =~= sections@);
    }
    let mut i: usize = 0;
    while i < sections.len()
        invariant
            0 <= i <= sections@.len(),
            acc.wf(),
            spec_scan_sections(cfg, sections@, old(acc)@) == spec_scan_sections(
                cfg,
                sections@.skip(i as int),
                acc@,
            ),
            cfg == dec.config(),
        decreases sections@.len() - i,
    {
        let ghost acc_prev = acc@;
        let is_code = match sections[i].kind {
            SectionKind::Code => true,
            SectionKind::Other => false,
        };
        if is_code {
            scan_section(dec, sections[i].bytes.as_slice(), acc);
        }
        proof {
            assert(sections@.skip(i as int)[0] == sections@[i as int]);
            assert(sections@.skip(i as int).drop_first() =~= sections@.skip(i + 1 as int));
        }
        i = i + 1;
    }
    proof {
        assert(sections@.skip(sections@.len() as int) =~= Seq::<Section>::empty());
    }
}

} // verus!
