use vstd::prelude::*;

verus! {

/// What the platform's one authoritative primitive reported, tagged with the
/// family of platforms that the build targets. Which variant is built is
/// fixed when the program is compiled; only the two primitive families carry
/// a value read from the operating system.
#[derive(Clone, Copy, Debug, PartialEq, Eq, Structural)]
pub enum Probe {
    /// A platform with an auxiliary vector: the value of its `AT_SECURE`
    /// entry, non-zero when the executable must be treated securely.
    AuxiliaryVector(u64),
    /// A platform with a taint query: the value returned by `issetugid`,
    /// non-zero when the process is tainted.
    TaintQuery(i32),
    /// A POSIX-like platform with neither primitive.
    PosixFallback,
    /// Any other platform.
    Other,
}

impl Probe {
    /// Whether this probe reports that secure execution is required.
    pub open spec fn requires_secure(self) -> bool {
        match self {
            Probe::AuxiliaryVector(at_secure) => at_secure != 0,
            Probe::TaintQuery(tainted) => tainted != 0,
            Probe::PosixFallback => true,
            Probe::Other => false,
        }
    }

    /// Whether a probe of this kind carries a value read from the
    /// operating system.
    pub open spec fn reads_os(self) -> bool {
        self is AuxiliaryVector || self is TaintQuery
    }

    pub fn needs_os_query(&self) -> (r: bool)
        ensures
            r == self.reads_os(),
    {
        match self {
            Probe::AuxiliaryVector(_) | Probe::TaintQuery(_) => true,
            Probe::PosixFallback | Probe::Other => false,
        }
    }
}

/// Resolves the secure-execution status from the platform's probe, with no
/// caching: a non-zero primitive value means secure execution is required,
/// a POSIX-like platform without a primitive is assumed tainted, and any
/// other platform is assumed untainted.
pub fn requires_secure_execution_uncached(probe: &Probe) -> (r: bool)
    ensures
        r == probe.requires_secure(),
{
    match probe {
        Probe::AuxiliaryVector(at_secure) => *at_secure != 0,
        Probe::TaintQuery(tainted) => *tainted != 0,
        Probe::PosixFallback => true,
        Probe::Other => false,
    }
}

/// The platforms without a primitive resolve without reading the operating
/// system, and to a fixed answer: POSIX-like ones to `true`, all others to
/// `false`.
pub proof fn lemma_fallback_platforms_are_fixed()
    ensures
        !Probe::PosixFallback.reads_os(),
        !Probe::Other.reads_os(),
        Probe::PosixFallback.requires_secure(),
        !Probe::Other.requires_secure(),
{
}

} // verus!
