//! Detects which instruction-set extensions a binary's machine code uses.
//!
//! The crate takes the facts that a container-format reader provides
//! (architecture tag, bitness, and the raw bytes of each section) and
//! drives a byte-resynchronizing disassembly loop over the code sections.
//! Each decoded instruction's group codes are collected into a deduplicating
//! accumulator; the classified extension names are reported in first-occurrence
//! order and as a lexically sorted summary, and, for the x86 family, the oldest
//! CPU generation able to run the binary is inferred from the observed set.

pub mod accum;
pub mod classify;
pub mod decoder;
pub mod dispatch;
pub mod generations;
pub mod laws;
pub mod names;
pub mod scan;

use vstd::prelude::*;

use crate::accum::{names_of, stream_of, stream_views, Accumulator};
use crate::decoder::{Decoder, DecoderInitError};
use crate::dispatch::{dispatch, is_x86, spec_dispatch, spec_is_x86, ArchTag, DecoderCfg};
use crate::generations::{spec_infer_generation, Generation};
use crate::names::{sorted_names, spec_sort, views_of};
use crate::scan::{scan_sections, spec_scan_sections, Section};

verus! {

/// The result of one scan: the classified extensions in first-occurrence
/// order with their mnemonics, the same names sorted lexically for the
/// summary line, and, for the x86 family, the inferred oldest compatible
/// generation.
pub struct ScanReport {
    pub stream: Vec<(&'static str, Option<String>)>,
    pub summary: Vec<&'static str>,
    pub generation: Option<Generation>,
}

/// What analyzing a container yields: either a report, or word that the
/// architecture is unsupported (which is not an error).
pub enum AnalysisOutcome {
    Unsupported,
    Report(ScanReport),
}

/// A report is right for a configuration and a container when its three parts
/// are exactly what the scan of the code sections determines.
pub open spec fn report_matches(cfg: DecoderCfg, secs: Seq<Section>, rep: ScanReport) -> bool {
    let accv = spec_scan_sections(cfg, secs, Seq::empty());
    &&& stream_views(rep.stream@) == stream_of(cfg, accv)
    &&& views_of(rep.summary@) == spec_sort(names_of(cfg, accv))
    &&& rep.generation == if spec_is_x86(cfg) {
        Some(spec_infer_generation(accv.map_values(|e: (u8, Option<Seq<char>>)| e.0)))
    } else {
        None::<Generation>
    }
}

/// Analyzes one container: dispatches on the architecture, scans every code
/// section, and builds the report. An unsupported architecture yields
/// `Unsupported`; an error comes only from decoder setup.
pub fn analyze(arch: ArchTag, is_64: bool, sections: &Vec<Section>) -> (r: Result<
    AnalysisOutcome,
    DecoderInitError,
>)
    ensures
        spec_dispatch(arch, is_64) is None <==> r == Ok::<AnalysisOutcome, DecoderInitError>(
            AnalysisOutcome::Unsupported,
        ),
        r is Err ==> spec_dispatch(arch, is_64) is Some,
        r matches Ok(o) ==> (o matches AnalysisOutcome::Report(rep) ==> report_matches(
            spec_dispatch(arch, is_64).unwrap(),
            sections@,
            rep,
        )),
{
    let cfg = match dispatch(arch, is_64) {
        Some(cfg) => cfg,
        None => {
            return Ok(AnalysisOutcome::Unsupported);
        },
    };
    let dec = match Decoder::new(cfg) {
        Ok(dec) => dec,
        Err(e) => {
            return Err(e);
        },
    };
    let mut acc = Accumulator::new();
    scan_sections(&dec, sections, &mut acc);
    let ghost accv = acc@;
    let stream = acc.classified_stream(cfg);
    let ghost target = names_of(cfg, accv);
    proof {
        assert(target.len() == stream@.len() && forall|k: int|
            0 <= k < target.len() ==> target[k] == stream@[k].0@) by {
            assert(stream_views(stream@).len() == stream@.len());
            assert(forall|k: int|
                0 <= k < stream@.len() ==> stream_views(stream@)[k] == (
                    stream@[k].0@,
                    crate::accum::mnemonic_view(stream@[k].1),
                ));
            assert(forall|k: int|
                0 <= k < target.len() ==> target[k] == stream_views(stream@)[k].0);
        }
    }
    let mut name_list: Vec<&'static str> = Vec::new();
    let mut i: usize = 0;
    while i < stream.len()
        invariant
            0 <= i <= stream@.len(),
            target.len() == stream@.len(),
            forall|k: int| 0 <= k < target.len() ==> target[k] == stream@[k].0@,
            views_of(name_list@) == target.take(i as int),
        decreases stream@.len() - i,
    {
        let ghost nl_prev = name_list@;
        proof {
            assert(views_of(nl_prev).len() == nl_prev.len());
            assert(nl_prev.len() == i);
        }
        name_list.push(stream[i].0);
        proof {
            assert(name_list@ == nl_prev.push(stream@[i as int].0));
            assert(name_list@.len() == i + 1);
            assert forall|k: int| 0 <= k < i + 1 implies views_of(name_list@)[k] == target[k] by {
                if k < i {
                    assert(views_of(nl_prev)[k] == target.take(i as int)[k]);
                    assert(name_list@[k] == nl_prev[k]);
                } else {
                    assert(name_list@[k] == stream@[i as int].0);
                }
            }
            assert(views_of(name_list@) =~= target.take(i + 1 as int));
        }
        i = i + 1;
    }
    proof {
        assert(target.take(target.len() as int) =~= target);
    }
    let summary = sorted_names(&name_list);
    let generation: Option<Generation> = if is_x86(cfg) {
        let codes = acc.codes();
        Some(crate::generations::infer_generation(&codes))
    } else {
        None
    };
    Ok(AnalysisOutcome::Report(ScanReport { stream, summary, generation }))
}

} // verus!
