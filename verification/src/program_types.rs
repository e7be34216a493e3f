//! BPF program kinds and their ELF section names.

use vstd::prelude::*;

verus! {

/// A named kernel instrumentation source category.
pub trait Event {
    /// The program kind this event category attaches through.
    fn program_type() -> ProgramType;
}

/// BPF program types.
#[derive(Debug, Clone, Copy, PartialEq, Eq, Structural)]
pub enum ProgramType {
    Tracepoint,
    RawTracepoint,
    Usdt,
    Kprobe,
    Kretprobe,
    Uprobe,
    Uretprobe,
    Iter,
    Xdp,
    Tc,
    Lsm,
}

/// The ELF section name prefix of each program type.
pub open spec fn spec_section_name(pt: ProgramType) -> Seq<char> {
    match pt {
        ProgramType::Tracepoint => "tp"@,
        ProgramType::RawTracepoint => "raw_tp"@,
        ProgramType::Usdt => "usdt"@,
        ProgramType::Kprobe => "kprobe"@,
        ProgramType::Kretprobe => "kretprobe"@,
        ProgramType::Uprobe => "uprobe"@,
        ProgramType::Uretprobe => "uretprobe"@,
        ProgramType::Iter => "iter"@,
        ProgramType::Xdp => "xdp"@,
        ProgramType::Tc => "tc"@,
        ProgramType::Lsm => "lsm"@,
    }
}

impl ProgramType {
    /// Returns the ELF section name used by the loader for this kind.
    pub fn section_name(&self) -> (r: &'static str)
        ensures
            r@ == spec_section_name(*self),
    {
        match self {
            ProgramType::Tracepoint => "tp",
            ProgramType::RawTracepoint => "raw_tp",
            ProgramType::Usdt => "usdt",
            ProgramType::Kprobe => "kprobe",
            ProgramType::Kretprobe => "kretprobe",
            ProgramType::Uprobe => "uprobe",
            ProgramType::Uretprobe => "uretprobe",
            ProgramType::Iter => "iter",
            ProgramType::Xdp => "xdp",
            ProgramType::Tc => "tc",
            ProgramType::Lsm => "lsm",
        }
    }
}

} // verus!
