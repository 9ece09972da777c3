//! The extension accumulator: a deduplicating record of the group codes
//! observed during one scan.
//!
//! Codes are kept in first-occurrence order, each with the mnemonic of the
//! instruction that introduced it (a decoder may leave the mnemonic out).
//! Later occurrences of a code are silently ignored; no mnemonic is ever
//! overwritten. Codes the classification table does not know are still marked
//! seen, so they are never looked up twice.

use vstd::prelude::*;

use crate::classify::spec_classify;
use crate::dispatch::DecoderCfg;

verus! {

/// The view of an optional mnemonic.
pub open spec fn mnemonic_view(m: Option<String>) -> Option<Seq<char>> {
    match m {
        Some(s) => Some(s@),
        None => None,
    }
}

/// The record of one scan: group codes in first-occurrence order, each with
/// the mnemonic seen at its first occurrence.
pub struct Accumulator {
    entries: Vec<(u8, Option<String>)>,
}

/// Whether an accumulator view already holds a code.
pub open spec fn acc_has_code(accv: Seq<(u8, Option<Seq<char>>)>, code: u8) -> bool {
    exists|i: int| 0 <= i < accv.len() && accv[i].0 == code
}

/// A well-formed accumulator view: no code occurs twice.
pub open spec fn acc_wf(accv: Seq<(u8, Option<Seq<char>>)>) -> bool {
    forall|i: int, j: int| 0 <= i < j < accv.len() ==> accv[i].0 != accv[j].0
}

/// What recording one observation does: nothing when the code was already
/// seen, else the code and its mnemonic go to the end.
pub open spec fn spec_record(
    accv: Seq<(u8, Option<Seq<char>>)>,
    code: u8,
    m: Option<Seq<char>>,
) -> Seq<(u8, Option<Seq<char>>)> {
    if acc_has_code(accv, code) {
        accv
    } else {
        accv.push((code, m))
    }
}

/// Recording keeps an accumulator well formed.
pub proof fn lemma_record_wf(accv: Seq<(u8, Option<Seq<char>>)>, code: u8, m: Option<Seq<char>>)
    requires
        acc_wf(accv),
    ensures
        acc_wf(spec_record(accv, code, m)),
{
}

impl View for Accumulator {
    type V = Seq<(u8, Option<Seq<char>>)>;

    closed spec fn view(&self) -> Seq<(u8, Option<Seq<char>>)> {
        self.entries@.map_values(|e: (u8, Option<String>)| (e.0, mnemonic_view(e.1)))
    }
}

impl Accumulator {
    /// Well-formedness of the underlying record.
    pub open spec fn wf(&self) -> bool {
        acc_wf(self@)
    }

    /// An empty accumulator, created at scan start.
    pub fn new() -> (r: Accumulator)
        ensures
            r@ == Seq::<(u8, Option<Seq<char>>)>::empty(),
            r.wf(),
    {
        let r = Accumulator { entries: Vec::new() };
        proof {
            assert(r@ =~= Seq::<(u8, Option<Seq<char>>)>::empty());
        }
        r
    }

    /// Whether the code was observed before.
    pub fn has_code(&self, code: u8) -> (r: bool)
        ensures
            r == acc_has_code(self@, code),
    {
        let mut i: usize = 0;
        while i < self.entries.len()
            invariant
                0 <= i <= self.entries@.len(),
                self@.len() == self.entries@.len(),
                forall|k: int| 0 <= k < self@.len() ==> self@[k].0 == self.entries@[k].0,
                forall|k: int| 0 <= k < i ==> self@[k].0 != code,
            decreases self.entries@.len() - i,
        {
            if self.entries[i].0 == code {
                proof {
                    assert(self@[i as int].0 == code);
                }
                return true;
            }
            i = i + 1;
        }
        false
    }

    /// Records one observation: a new code is appended with its mnemonic, an
    /// already seen code changes nothing.
    pub fn record(&mut self, code: u8, mnemonic: Option<&str>)
        ensures
            final(self)@ == spec_record(
                old(self)@,
                code,
                match mnemonic {
                    Some(s) => Some(s@),
                    None => None,
                },
            ),
    {
        if !self.has_code(code) {
            let owned: Option<String> = match mnemonic {
                Some(s) => Some(s.to_owned()),
                None => None,
            };
            self.entries.push((code, owned));
            proof {
                assert(self@ =~= old(self)@.push(
                    (
                        code,
                        match mnemonic {
                            Some(s) => Some(s@),
                            None => None,
                        },
                    ),
                ));
            }
        }
    }

    /// The observed codes, in first-occurrence order.
    pub fn codes(&self) -> (r: Vec<u8>)
        ensures
            r@ == self@.map_values(|e: (u8, Option<Seq<char>>)| e.0),
    {
        let ghost target = self@.map_values(|e: (u8, Option<Seq<char>>)| e.0);
        let mut r: Vec<u8> = Vec::new();
        let mut i: usize = 0;
        while i < self.entries.len()
            invariant
                0 <= i <= self.entries@.len(),
                target == self@.map_values(|e: (u8, Option<Seq<char>>)| e.0),
                target.len() == self.entries@.len(),
                forall|k: int| 0 <= k < target.len() ==> target[k] == self.entries@[k].0,
                r@ == target.take(i as int),
            decreases self.entries@.len() - i,
        {
            r.push(self.entries[i].0);
            proof {
                assert(r@ =~= target.take(i + 1 as int));
            }
            i = i + 1;
        }
        proof {
            assert(target.take(target.len() as int) =~= target);
        }
        r
    }

    /// How many distinct codes were observed.
    pub fn len(&self) -> (r: usize)
        ensures
            r == self@.len(),
    {
        self.entries.len()
    }

    /// The classified extensions in first-occurrence order, each name paired
    /// with the mnemonic remembered at the code's first occurrence.
    pub fn classified_stream(&self, cfg: DecoderCfg) -> (r: Vec<(&'static str, Option<String>)>)
        ensures
            stream_views(r@) == stream_of(cfg, self@),
    {
        let mut r: Vec<(&'static str, Option<String>)> = Vec::new();
        let mut i: usize = 0;
        while i < self.entries.len()
            invariant
                0 <= i <= self.entries@.len(),
                self@.len() == self.entries@.len(),
                forall|k: int| 0 <= k < self@.len() ==> self@[k] == (
                    self.entries@[k].0,
                    mnemonic_view(self.entries@[k].1),
                ),
                stream_views(r@) == stream_of(cfg, self@.take(i as int)),
            decreases self.entries@.len() - i,
        {
            let code = self.entries[i].0;
            match crate::classify::describe_group(cfg, code) {
                Some(name) => {
                    let m: Option<String> = match &self.entries[i].1 {
                        Some(s) => Some(s.clone()),
                        None => None,
                    };
                    r.push((name, m));
                },
                None => {},
            }
            proof {
                assert(self@.take(i + 1 as int).drop_last() =~= self@.take(i as int));
                assert(self@.take(i + 1 as int).last() == self@[i as int]);
                match spec_classify(cfg, code) {
                    Some(_) => {
                        assert(stream_views(r@) =~= stream_of(cfg, self@.take(i + 1 as int)));
                    },
                    None => {},
                }
            }
            i = i + 1;
        }
        proof {
            assert(self@.take(self@.len() as int) =~= self@);
        }
        r
    }
}

/// The view of a built stream line: the name and the optional mnemonic.
pub open spec fn stream_views(s: Seq<(&str, Option<String>)>) -> Seq<
    (Seq<char>, Option<Seq<char>>),
> {
    s.map_values(|e: (&str, Option<String>)| (e.0@, mnemonic_view(e.1)))
}

/// The streaming report of an accumulator: one line per classified code, in
/// first-occurrence order, carrying the remembered mnemonic.
pub open spec fn stream_of(cfg: DecoderCfg, accv: Seq<(u8, Option<Seq<char>>)>) -> Seq<
    (Seq<char>, Option<Seq<char>>),
>
    decreases accv.len(),
{
    if accv.len() == 0 {
        Seq::empty()
    } else {
        let pre = stream_of(cfg, accv.drop_last());
        match spec_classify(cfg, accv.last().0) {
            Some(name) => pre.push((name, accv.last().1)),
            None => pre,
        }
    }
}

/// The classified names of an accumulator, in first-occurrence order.
pub open spec fn names_of(cfg: DecoderCfg, accv: Seq<(u8, Option<Seq<char>>)>) -> Seq<Seq<char>> {
    stream_of(cfg, accv).map_values(|e: (Seq<char>, Option<Seq<char>>)| e.0)
}

} // verus!
