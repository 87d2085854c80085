//! Decision logic behind the git UI: which icon and colour a file's
//! version-control status is drawn with, and how the git UI feature flag is
//! raced against a fixed timeout.

pub mod feature_gate;
pub mod status_icon;

pub use feature_gate::{poll_at, race_step, RaceStep, SignalResolution, FLAG_TIMEOUT_MILLIS};
pub use status_icon::{git_status_icon, FileStatus, HslaPercent, IconDescriptor, IconName, StatusColor};
