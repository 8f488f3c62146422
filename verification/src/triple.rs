//! Host and target platform identifiers.
//!
//! The tool supports a fixed, closed set of target triples with pre-built
//! dependency bundles; anything outside that set is a configuration error
//! and is rejected before any subprocess or network call is made. The host
//! triple is either given explicitly or derived from the host's architecture
//! and operating system.

use vstd::prelude::*;

verus! {

/// Host processor architecture.
#[derive(Clone, Copy, Debug, PartialEq, Eq, Structural)]
pub enum Arch {
    Arm,
    X86,
    X8664,
}

/// Host operating system, with the Linux distribution where it matters for
/// install instructions.
#[derive(Clone, Copy, Debug, PartialEq, Eq, Structural)]
pub enum Os {
    Linux(LinuxDistribution),
    MacOs,
    Windows,
}

/// Linux distribution, used only to pick install instructions.
#[derive(Clone, Copy, Debug, PartialEq, Eq, Structural)]
pub enum LinuxDistribution {
    ArchLinux,
    CentOs,
    Ubuntu,
    Unknown,
}

/// A compilation target with a pre-built dependency bundle: the closed set
/// of triples this tool supports.
#[derive(Clone, Copy, Debug, PartialEq, Eq, Structural)]
pub enum TargetTriple {
    X8664AppleDarwin,
    X8664UnknownLinuxGnu,
    X8664PcWindowsGnu,
}

/// The architecture part of a triple.
pub open spec fn arch_prefix(a: Arch) -> Seq<char> {
    match a {
        Arch::Arm => "arm"@,
        Arch::X86 => "i686"@,
        Arch::X8664 => "x86_64"@,
    }
}

/// The vendor-OS-ABI part of a triple.
pub open spec fn os_suffix(o: Os) -> Seq<char> {
    match o {
        Os::Linux(_) => "unknown-linux-gnu"@,
        Os::MacOs => "apple-darwin"@,
        Os::Windows => "pc-windows-gnu"@,
    }
}

/// The text of a supported triple.
pub open spec fn triple_chars(t: TargetTriple) -> Seq<char> {
    match t {
        TargetTriple::X8664AppleDarwin => "x86_64-apple-darwin"@,
        TargetTriple::X8664UnknownLinuxGnu => "x86_64-unknown-linux-gnu"@,
        TargetTriple::X8664PcWindowsGnu => "x86_64-pc-windows-gnu"@,
    }
}

/// The supported triple for a host architecture and operating system, if
/// there is one.
pub open spec fn host_triple_spec(a: Arch, o: Os) -> Option<TargetTriple> {
    match (a, o) {
        (Arch::X8664, Os::MacOs) => Some(TargetTriple::X8664AppleDarwin),
        (Arch::X8664, Os::Linux(_)) => Some(TargetTriple::X8664UnknownLinuxGnu),
        (Arch::X8664, Os::Windows) => Some(TargetTriple::X8664PcWindowsGnu),
        _ => None,
    }
}

impl Arch {
    /// The architecture part of a triple, e.g. `x86_64`.
    pub fn prefix_text(&self) -> (r: String)
        ensures
            r@ == arch_prefix(*self),
    {
        match self {
            Arch::Arm => "arm".to_owned(),
            Arch::X86 => "i686".to_owned(),
            Arch::X8664 => "x86_64".to_owned(),
        }
    }
}

impl Os {
    /// The vendor-OS-ABI part of a triple, e.g. `unknown-linux-gnu`.
    pub fn suffix_text(&self) -> (r: String)
        ensures
            r@ == os_suffix(*self),
    {
        match self {
            Os::Linux(_) => "unknown-linux-gnu".to_owned(),
            Os::MacOs => "apple-darwin".to_owned(),
            Os::Windows => "pc-windows-gnu".to_owned(),
        }
    }
}

impl TargetTriple {
    /// The triple as text, e.g. `x86_64-unknown-linux-gnu`.
    pub fn as_text(&self) -> (r: String)
        ensures
            r@ == triple_chars(*self),
    {
        match self {
            TargetTriple::X8664AppleDarwin => "x86_64-apple-darwin".to_owned(),
            TargetTriple::X8664UnknownLinuxGnu => "x86_64-unknown-linux-gnu".to_owned(),
            TargetTriple::X8664PcWindowsGnu => "x86_64-pc-windows-gnu".to_owned(),
        }
    }

    /// Accepts exactly the supported triples; any other text is rejected,
    /// before any subprocess or network call could depend on it.
    pub fn parse(s: &str) -> (r: Option<TargetTriple>)
        ensures
            match r {
                Some(t) => s@ == triple_chars(t),
                None => forall|t: TargetTriple| s@ != triple_chars(t),
            },
    {
        let owned = s.to_owned();
        if owned == "x86_64-apple-darwin".to_owned() {
            Some(TargetTriple::X8664AppleDarwin)
        } else if owned == "x86_64-unknown-linux-gnu".to_owned() {
            Some(TargetTriple::X8664UnknownLinuxGnu)
        } else if owned == "x86_64-pc-windows-gnu".to_owned() {
            Some(TargetTriple::X8664PcWindowsGnu)
        } else {
            None
        }
    }

    /// Whether the triple is a Linux-family target. Linux targets need the
    /// OpenSSL and sysroot settings that other targets get from their own
    /// platform.
    pub fn is_linux_family(&self) -> (r: bool)
        ensures
            r == (*self is X8664UnknownLinuxGnu),
    {
        match self {
            TargetTriple::X8664UnknownLinuxGnu => true,
            _ => false,
        }
    }

    /// The supported triple describing the given host platform, if any.
    pub fn for_host(arch: &Arch, os: &Os) -> (r: Option<TargetTriple>)
        ensures
            r == host_triple_spec(*arch, *os),
    {
        match (arch, os) {
            (Arch::X8664, Os::MacOs) => Some(TargetTriple::X8664AppleDarwin),
            (Arch::X8664, Os::Linux(_)) => Some(TargetTriple::X8664UnknownLinuxGnu),
            (Arch::X8664, Os::Windows) => Some(TargetTriple::X8664PcWindowsGnu),
            _ => None,
        }
    }
}

/// A host triple derived from architecture and operating system reads
/// `<architecture>-<vendor-OS-ABI>`, as the two mapping tables spell it.
pub proof fn lemma_host_triple_text(a: Arch, o: Os)
    requires
        host_triple_spec(a, o) is Some,
    ensures
        triple_chars(host_triple_spec(a, o)->Some_0) == arch_prefix(a) + seq!['-'] + os_suffix(o),
{
    reveal_strlit("x86_64");
    reveal_strlit("apple-darwin");
    reveal_strlit("unknown-linux-gnu");
    reveal_strlit("pc-windows-gnu");
    reveal_strlit("x86_64-apple-darwin");
    reveal_strlit("x86_64-unknown-linux-gnu");
    reveal_strlit("x86_64-pc-windows-gnu");
    match (a, o) {
        (Arch::X8664, Os::MacOs) => {
            assert(triple_chars(TargetTriple::X8664AppleDarwin) =~= arch_prefix(a) + seq!['-']
                + os_suffix(o));
        },
        (Arch::X8664, Os::Linux(_)) => {
            assert(triple_chars(TargetTriple::X8664UnknownLinuxGnu) =~= arch_prefix(a) + seq!['-']
                + os_suffix(o));
        },
        (Arch::X8664, Os::Windows) => {
            assert(triple_chars(TargetTriple::X8664PcWindowsGnu) =~= arch_prefix(a) + seq!['-']
                + os_suffix(o));
        },
        _ => {},
    }
}

/// What one provisioning pass was asked to do: the host, the optional run
/// target, and the build flags. Built once at process start and passed into
/// each component, so that no component reads hidden global state.
#[derive(Clone, Copy, Debug, PartialEq, Eq, Structural)]
pub struct ProvisioningConfig {
    /// The triple the build runs on when no target is selected.
    pub host: TargetTriple,
    /// The selected run target, if any.
    pub target: Option<TargetTriple>,
    /// Build in release mode.
    pub release: bool,
    /// Also build the WASM runtime.
    pub wasm: bool,
    /// Verbose build output.
    pub verbose: bool,
    /// Pack the built binary after the build.
    pub pack: bool,
}

impl ProvisioningConfig {
    /// Cross-compiling: a target is selected and differs from the host.
    pub open spec fn spec_is_cross(self) -> bool {
        match self.target {
            Some(t) => t != self.host,
            None => false,
        }
    }

    /// The triple the build is for: the selected target, else the host.
    pub open spec fn spec_run_target(self) -> TargetTriple {
        match self.target {
            Some(t) => t,
            None => self.host,
        }
    }

    /// Whether this pass cross-compiles.
    pub fn is_cross_compile(&self) -> (r: bool)
        ensures
            r == self.spec_is_cross(),
    {
        match &self.target {
            Some(t) => *t != self.host,
            None => false,
        }
    }

    /// The triple the build is for.
    pub fn run_target(&self) -> (r: TargetTriple)
        ensures
            r == self.spec_run_target(),
    {
        match &self.target {
            Some(t) => *t,
            None => self.host,
        }
    }
}

} // verus!
