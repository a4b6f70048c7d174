//! The closed set of operating systems and CPU architectures the binary is
//! published for, together with the tokens that appear in release asset names.

use vstd::prelude::*;

verus! {

/// Operating system of the running host.
#[derive(Clone, Copy, Debug, PartialEq, Eq, Structural)]
pub enum Os {
    Mac,
    Linux,
    Windows,
}

/// CPU architecture of the running host. `X86` is a real architecture the
/// host may report, but no binary is published for it: it is rejected before
/// any network traffic.
#[derive(Clone, Copy, Debug, PartialEq, Eq, Structural)]
pub enum Arch {
    Aarch64,
    X8664,
    X86,
}

/// Archive format a release asset is packed in.
#[derive(Clone, Copy, Debug, PartialEq, Eq, Structural)]
pub enum ArchiveKind {
    GzipTar,
    Zip,
}

/// The operating-system token used inside release asset names.
pub open spec fn os_token_of(os: Os) -> Seq<char> {
    match os {
        Os::Mac => "Darwin"@,
        Os::Linux => "Linux"@,
        Os::Windows => "Windows"@,
    }
}

/// The architecture token used inside release asset names, for the
/// architectures a binary is published for.
pub open spec fn arch_token_of(arch: Arch) -> Seq<char> {
    match arch {
        Arch::Aarch64 => "arm64"@,
        Arch::X8664 => "x86_64"@,
        Arch::X86 => Seq::<char>::empty(),
    }
}

/// The archive file extension used for each operating system.
pub open spec fn archive_ext_of(os: Os) -> Seq<char> {
    match os {
        Os::Mac => "tar.gz"@,
        Os::Linux => "tar.gz"@,
        Os::Windows => "zip"@,
    }
}

/// The executable-file suffix appended to the binary name on each
/// operating system.
pub open spec fn exe_suffix_of(os: Os) -> Seq<char> {
    match os {
        Os::Mac => ""@,
        Os::Linux => ""@,
        Os::Windows => ".exe"@,
    }
}

/// The archive format a release asset for the given operating system uses.
pub open spec fn archive_kind_of(os: Os) -> ArchiveKind {
    match os {
        Os::Mac => ArchiveKind::GzipTar,
        Os::Linux => ArchiveKind::GzipTar,
        Os::Windows => ArchiveKind::Zip,
    }
}

/// Whether a binary is published for this architecture.
pub open spec fn arch_supported(arch: Arch) -> bool {
    arch !is X86
}

impl Os {
    /// The archive format used for this operating system.
    pub fn archive_kind(self) -> (r: ArchiveKind)
        ensures
            r == archive_kind_of(self),
    {
        match self {
            Os::Mac => ArchiveKind::GzipTar,
            Os::Linux => ArchiveKind::GzipTar,
            Os::Windows => ArchiveKind::Zip,
        }
    }

    /// The executable-file suffix for this operating system.
    pub fn exe_suffix(self) -> (r: &'static str)
        ensures
            r@ == exe_suffix_of(self),
    {
        match self {
            Os::Mac => "",
            Os::Linux => "",
            Os::Windows => ".exe",
        }
    }
}

} // verus!
