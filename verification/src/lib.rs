//! Versioned binary acquirer for the `mcp-server-axiom` context server.
//!
//! The library models the acquisition of a platform-specific release binary
//! as an explicit state machine: a caller (the host-API glue) performs the
//! actual filesystem, network and archive operations, and feeds each outcome
//! back into the machine, whose decisions are verified here.

mod acquire;
mod cleanup;
mod command;
mod error;
mod names;
mod platform;
mod release;

pub use acquire::Acquirer;
pub use acquire::Phase;
pub use acquire::Resolution;
pub use cleanup::stale_entries;
pub use command::LaunchCommand;
pub use command::ServerSettings;
pub use command::build_command;
pub use error::AcquireError;
pub use names::binary_path_name;
pub use names::expected_asset_name;
pub use names::version_dir_name;
pub use platform::Arch;
pub use platform::ArchiveKind;
pub use platform::Os;
pub use release::Asset;
pub use release::Release;
pub use release::find_asset;
