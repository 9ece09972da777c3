//! The instruction decoder behind the scan: a thin trusted boundary around
//! the capstone disassembler.
//!
//! A `Decoder` couples a configured capstone handle with the configuration it
//! was built from; the handle is built only here, with detail mode on (so
//! group codes are available) and skip-data mode on (so undecodable bytes
//! yield a pseudo-instruction instead of aborting the section). Decoding is a
//! pure function of the configuration and the input bytes, which `decode_of`
//! names; everything downstream of a decode result is verified against that
//! name.

use vstd::prelude::*;

use crate::accum::mnemonic_view;
use crate::dispatch::DecoderCfg;

verus! {

#[verifier::external_type_specification]
#[verifier::external_body]
pub struct ExCapstone(capstone::Capstone);

/// One decode attempt's result: how many bytes the instruction consumed, its
/// mnemonic if the decoder named one, and its group codes.
pub struct DecodedInsn {
    pub len: usize,
    pub mnemonic: Option<String>,
    pub groups: Vec<u8>,
}

/// The view of a decode attempt: consumed length, mnemonic, group codes.
pub open spec fn insn_view(r: Option<DecodedInsn>) -> Option<(nat, Option<Seq<char>>, Seq<u8>)> {
    match r {
        Some(d) => Some((d.len as nat, mnemonic_view(d.mnemonic), d.groups@)),
        None => None,
    }
}

/// What the decoder returns for a configuration and a byte sequence: a name
/// for capstone's decoding of the first instruction of the bytes, which
/// depends on the configuration and the bytes alone.
pub uninterp spec fn decode_of(cfg: DecoderCfg, bytes: Seq<u8>) -> Option<
    (nat, Option<Seq<char>>, Seq<u8>),
>;

/// Why the decoder could not be set up; each case is a setup fault and fatal
/// to the whole analysis.
#[derive(Clone, Copy, PartialEq, Eq, Structural, Debug)]
pub enum DecoderInitError {
    Open,
    Detail,
    SkipData,
}

/// A configured instruction decoder.
pub struct Decoder {
    cs: capstone::Capstone,
    cfg: DecoderCfg,
}

impl Decoder {
    /// The configuration the decoder was built from.
    pub closed spec fn config(&self) -> DecoderCfg {
        self.cfg
    }

    /// Relies on capstone's `Capstone::new_raw`, `set_detail` and
    /// `set_skipdata`: builds the one handle this crate decodes with, for the
    /// given family and bit mode, with detail and skip-data modes enabled.
    #[verifier::external_body]
    pub(crate) fn new(cfg: DecoderCfg) -> (r: Result<Decoder, DecoderInitError>)
        ensures
            r matches Ok(d) ==> d.config() == cfg,
    {
        let (arch, mode) = match cfg {
            DecoderCfg::X86Bits64 => (capstone::Arch::X86, capstone::Mode::Mode64),
            DecoderCfg::X86Bits32 => (capstone::Arch::X86, capstone::Mode::Mode32),
            DecoderCfg::Arm64 => (capstone::Arch::ARM64, capstone::Mode::Arm),
        };
        let mut cs = capstone::Capstone::new_raw(arch, mode, capstone::NO_EXTRA_MODE, None)
            .map_err(|_| DecoderInitError::Open)?;
        cs.set_detail(true).map_err(|_| DecoderInitError::Detail)?;
        cs.set_skipdata(true).map_err(|_| DecoderInitError::SkipData)?;
        Ok(Decoder { cs, cfg })
    }

    /// Relies on capstone's `disasm_count` (plus `insn_detail` and the `Insn`
    /// accessors `bytes`, `mnemonic` and `InsnDetail::groups`): decodes the
    /// first instruction of `bytes`, deterministically in the configuration
    /// and the bytes. An instruction whose detail capstone withholds (the
    /// skip-data pseudo-instruction) reports no group codes.
    #[verifier::external_body]
    pub(crate) fn decode_one(&self, bytes: &[u8]) -> (r: Option<DecodedInsn>)
        ensures
            insn_view(r) == decode_of(self.config(), bytes@),
    {
        let insns = self.cs.disasm_count(bytes, 0, 1).ok()?;
        let insn = insns.iter().next()?;
        let groups: Vec<u8> = match self.cs.insn_detail(insn) {
            Ok(detail) => detail.groups().iter().map(|g| g.0).collect(),
            Err(_) => Vec::new(),
        };
        Some(DecodedInsn {
            len: insn.bytes().len(),
            mnemonic: insn.mnemonic().map(|s| s.to_owned()),
            groups,
        })
    }
}

} // verus!
