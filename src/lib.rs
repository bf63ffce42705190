//! Installs and upgrades a fixed roster of command-line tools: the decisions
//! (which version is installed, which is the newest on the registry, whether to
//! rebuild) are made and proved here; running processes and talking to the
//! network is left to the caller.

pub mod probe;
pub mod registry;
pub mod tools;
pub mod upgrade;
pub mod version;

pub use probe::{installed_version, ProbeError};
pub use registry::{get_latest_version, FetchError, RegistryReply, VersionRecord};
pub use tools::{
    cargo_install, for_each_tool, install_tool, roster, uninstall, BuildCommand, Tool,
    Unimplemented,
};
pub use upgrade::{upgrade_step, UpgradeEvent, UpgradeOutcome, UpgradeStep};
pub use version::SemanticVersion;
