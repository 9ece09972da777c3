//! Architecture dispatch: maps the container's architecture tag and bitness to
//! a decoder configuration, or signals that the architecture is unsupported.
//!
//! The policy is permissive about bitness and variant aliases: every 64-bit
//! variant of a supported family routes to that family's decoder. An
//! unsupported architecture is not an error; callers report it and do no
//! further work.

use vstd::prelude::*;

verus! {

/// The architecture tag a container-format reader detected. Tags outside the
/// supported families are collapsed to `Other`.
#[derive(Clone, Copy, PartialEq, Eq, Structural, Debug)]
pub enum ArchTag {
    X86_64,
    X86_64X32,
    Aarch64,
    Aarch64Ilp32,
    Other,
}

/// A decoder configuration: instruction-set family plus bit mode.
#[derive(Clone, Copy, PartialEq, Eq, Structural, Debug)]
pub enum DecoderCfg {
    X86Bits64,
    X86Bits32,
    Arm64,
}

/// Whether a configuration belongs to the x86 family, for which generation
/// inference is available.
pub open spec fn spec_is_x86(cfg: DecoderCfg) -> bool {
    cfg == DecoderCfg::X86Bits64 || cfg == DecoderCfg::X86Bits32
}

/// The dispatch table: which decoder configuration serves an architecture tag
/// and bitness flag, if any.
pub open spec fn spec_dispatch(arch: ArchTag, is_64: bool) -> Option<DecoderCfg> {
    match arch {
        ArchTag::X86_64 | ArchTag::X86_64X32 => if is_64 {
            Some(DecoderCfg::X86Bits64)
        } else {
            Some(DecoderCfg::X86Bits32)
        },
        ArchTag::Aarch64 | ArchTag::Aarch64Ilp32 => Some(DecoderCfg::Arm64),
        ArchTag::Other => None,
    }
}

/// Picks the decoder configuration for a detected architecture, or `None` when
/// the architecture is unsupported.
pub fn dispatch(arch: ArchTag, is_64: bool) -> (r: Option<DecoderCfg>)
    ensures
        r == spec_dispatch(arch, is_64),
{
    match arch {
        ArchTag::X86_64 | ArchTag::X86_64X32 => if is_64 {
            Some(DecoderCfg::X86Bits64)
        } else {
            Some(DecoderCfg::X86Bits32)
        },
        ArchTag::Aarch64 | ArchTag::Aarch64Ilp32 => Some(DecoderCfg::Arm64),
        ArchTag::Other => None,
    }
}

/// Whether a configuration belongs to the x86 family.
pub fn is_x86(cfg: DecoderCfg) -> (r: bool)
    ensures
        r == spec_is_x86(cfg),
{
    match cfg {
        DecoderCfg::X86Bits64 | DecoderCfg::X86Bits32 => true,
        DecoderCfg::Arm64 => false,
    }
}

} // verus!
