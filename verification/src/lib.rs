pub mod config;
mod host;
pub mod model;
pub mod runloop;
pub mod timestamp;
pub mod writer;

pub use config::{Cli, RunConfig};
pub use host::now_timestamp;
pub use runloop::{RunLoop, RunState};
pub use timestamp::Timestamp;
pub use writer::{ConfigError, ScreenshotWriter, WriteError, WriteOutcome, WritePlan};
