//! Deterministic naming: the version directory, the path of the extracted
//! binary inside it, and the release asset name expected for a platform.

use vstd::prelude::*;

use crate::error::AcquireError;
use crate::platform::Arch;
use crate::platform::Os;
use crate::platform::arch_supported;
use crate::platform::arch_token_of;
use crate::platform::archive_ext_of;
use crate::platform::exe_suffix_of;
use crate::platform::os_token_of;

verus! {

/// The fixed name of the binary, which is also the prefix of every version
/// directory and every asset name.
pub open spec fn binary_name() -> Seq<char> {
    "mcp-server-axiom"@
}

/// The directory a release version is extracted into: the binary name,
/// a dash, and the version string.
pub open spec fn version_dir_of(version: Seq<char>) -> Seq<char> {
    binary_name() + "-"@ + version
}

/// The local path of the executable for a version: inside the version
/// directory, under the binary name, with the per-OS executable suffix.
pub open spec fn binary_path_of(version: Seq<char>, os: Os) -> Seq<char> {
    version_dir_of(version) + "/"@ + binary_name() + exe_suffix_of(os)
}

/// The release asset name expected for a platform:
/// `mcp-server-axiom_<os>_<arch>.<ext>`.
pub open spec fn asset_name_of(os: Os, arch: Arch) -> Seq<char> {
    binary_name() + "_"@ + os_token_of(os) + "_"@ + arch_token_of(arch) + "."@ + archive_ext_of(
        os,
    )
}

/// Builds the version directory name for a release version.
pub fn version_dir_name(version: &str) -> (r: String)
    ensures
        r@ == version_dir_of(version@),
{
    let mut s = String::from_str("mcp-server-axiom");
    s.append("-");
    s.append(version);
    proof {
        assert(s@ =~= version_dir_of(version@));
    }
    s
}

/// Builds the local path of the executable for a release version on an
/// operating system.
pub fn binary_path_name(version: &str, os: Os) -> (r: String)
    ensures
        r@ == binary_path_of(version@, os),
{
    let mut s = version_dir_name(version);
    s.append("/");
    s.append("mcp-server-axiom");
    s.append(os.exe_suffix());
    proof {
        assert(s@ =~= binary_path_of(version@, os));
    }
    s
}

/// Computes the release asset name expected for a platform, or reports that
/// the architecture is one no binary is published for.
pub fn expected_asset_name(os: Os, arch: Arch) -> (r: Result<String, AcquireError>)
    ensures
        match r {
            Ok(s) => arch_supported(arch) && s@ == asset_name_of(os, arch),
            Err(e) => !arch_supported(arch) && e is UnsupportedArchitecture,
        },
{
    let arch_token = match arch {
        Arch::Aarch64 => "arm64",
        Arch::X8664 => "x86_64",
        Arch::X86 => {
            return Err(AcquireError::UnsupportedArchitecture);
        },
    };
    let os_token = match os {
        Os::Mac => "Darwin",
        Os::Linux => "Linux",
        Os::Windows => "Windows",
    };
    let ext = match os {
        Os::Mac => "tar.gz",
        Os::Linux => "tar.gz",
        Os::Windows => "zip",
    };
    let mut s = String::from_str("mcp-server-axiom");
    s.append("_");
    s.append(os_token);
    s.append("_");
    s.append(arch_token);
    s.append(".");
    s.append(ext);
    proof {
        assert(s@ =~= asset_name_of(os, arch));
    }
    Ok(s)
}

} // verus!
