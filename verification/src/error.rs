//! The failures a resolution can end in. Every failure is terminal for the
//! call that hit it and is reported to the host as a single message string.

use vstd::prelude::*;

verus! {

/// Why a resolution failed.
#[derive(Clone, Debug)]
pub enum AcquireError {
    /// The host reported a CPU architecture no binary is published for.
    UnsupportedArchitecture,
    /// The release registry reported no qualifying release; carries the
    /// registry's own message.
    ReleaseFetch(String),
    /// No asset in the release carried the expected name; carries that
    /// expected name, so the message names what was looked for.
    NoMatchingAsset(String),
    /// Downloading or extracting the asset failed; carries the transport
    /// error's message.
    Download(String),
    /// Listing the working directory during cleanup failed; carries the
    /// filesystem error's message.
    ListDir(String),
}

/// The message each failure is reported with.
pub open spec fn message_of(e: AcquireError) -> Seq<char> {
    match e {
        AcquireError::UnsupportedArchitecture => "axiom-mcp not available for x86"@,
        AcquireError::ReleaseFetch(m) => m@,
        AcquireError::NoMatchingAsset(n) => "no asset found matching \""@ + n@ + "\""@,
        AcquireError::Download(m) => "failed to download file: "@ + m@,
        AcquireError::ListDir(m) => "failed to list working directory "@ + m@,
    }
}

/// The failure message for a missing asset quotes the expected asset name
/// verbatim: the name stands in the message as a contiguous run.
pub proof fn lemma_missing_asset_message_quotes_name(n: String)
    ensures
        exists|i: int|
            0 <= i && i + n@.len() <= message_of(AcquireError::NoMatchingAsset(n)).len()
                && #[trigger] message_of(AcquireError::NoMatchingAsset(n)).subrange(
                i,
                i + n@.len() as int,
            ) == n@,
{
    let msg = message_of(AcquireError::NoMatchingAsset(n));
    let prefix = "no asset found matching \""@;
    assert(msg.subrange(prefix.len() as int, prefix.len() + n@.len() as int) =~= n@);
}

impl AcquireError {
    /// Renders the failure as the message string handed to the host. For a
    /// missing asset the message quotes the exact expected asset name.
    pub fn message(&self) -> (r: String)
        ensures
            r@ == message_of(*self),
    {
        match self {
            AcquireError::UnsupportedArchitecture => String::from_str(
                "axiom-mcp not available for x86",
            ),
            AcquireError::ReleaseFetch(m) => m.clone(),
            AcquireError::NoMatchingAsset(n) => {
                let mut s = String::from_str("no asset found matching \"");
                s.append(n.as_str());
                s.append("\"");
                proof {
                    assert(s@ =~= message_of(*self));
                }
                s
            },
            AcquireError::Download(m) => {
                let mut s = String::from_str("failed to download file: ");
                s.append(m.as_str());
                s
            },
            AcquireError::ListDir(m) => {
                let mut s = String::from_str("failed to list working directory ");
                s.append(m.as_str());
                s
            },
        }
    }
}

} // verus!
