//! Core of a minimal status-bar updater: it formats sampled host metrics
//! (CPU load, used memory, audio volume, wall-clock time) into a one-line
//! summary, decides once per tick which fields are stale, and hands the
//! composed line to a publisher.
pub mod clock;
pub mod status;
pub mod sysmon;
pub mod volume;
pub mod text;
