//! What an upgrade needs, and the process that carries one out.
//!
//! The process is a state machine that does no work of its own. It tells
//! its host what to do next (update, build, resolve a link, wait for the
//! operator, run a program) and is handed back what came of it; what it
//! decides, and the states that it announces, depend on nothing else.

pub mod needs;
pub mod order;
pub mod process;

pub use crate::daemon::needs::{BootLinks, BootLinksView, BootPaths, UpgradeNeeds};
pub use crate::daemon::process::{
    Action, Event, Phase, RebootReport, Step, UpgradeCommand, UpgradeProcess, UpgradeRun,
    UpgradeState,
};
