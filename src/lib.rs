//! A download supervisor: a URL queue, the parsers for the downloader's
//! progress lines and for control commands, a throughput estimator, a
//! progress tracker and the supervisor's state machine.
pub mod commands;
pub mod laws;
pub mod queue;
pub mod render;
pub mod rollingrate;
pub mod supervisor;
pub mod text;
pub mod tracker;
pub mod ytdlp;

pub use commands::{parse_command, parse_int, DownloaderCommand};
pub use queue::AsyncQueue;
pub use rollingrate::RollingRate;
pub use supervisor::{ExitReason, HoldKind, Phase, Supervisor, SupervisorAction, SupervisorEvent};
pub use tracker::{humanize_bytes, humanize_rate, Tracker};
pub use ytdlp::{parse_progress_update_line, DownloaderMsg};
