//! Retrieval of a Gentoo "stage4" root filesystem archive, as verified logic.
//!
//! The crate holds the decisions of the workflow: which line of the installer
//! script names the archive of a build profile, when a download counts as
//! failed, how the archiving tool is invoked and judged, and in which order
//! the steps run. Reading the network, writing files and running the tool are
//! left to the caller, who hands the library plain values.

pub mod download;
pub mod error;
pub mod extract;
pub mod profile;
pub mod resolver;
pub mod workflow;

pub use download::{check_status, ARCHIVE_FILE};
pub use error::{ErrorKind, Stage4Error, Stage4ErrorView};
pub use extract::{check_target, tar_arguments, unpack_outcome, TARGET_DIRECTORY, TAR_PROGRAM};
pub use profile::Profile;
pub use resolver::{get_stage4_url, select_stage4_url, STAGE4_SCRIPT_URL, STAGE4_URL_PATTERN};
pub use workflow::{Action, Next, Outcome, Phase, Step, Workflow};
