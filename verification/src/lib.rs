//! A dual-destination log emitter: structured log events are rendered into a
//! terse, optionally colored line for the terminal and a complete, plain line
//! for durable file storage. The formatting and dispatch rules are verified;
//! the file handle and the `log` facade adapter live outside this crate.

pub mod config;
pub mod dispatch;
pub mod errors;
pub mod formatter;
pub mod level;
pub mod record;
pub mod text;
pub mod timestamp;

pub use config::LoggerConfig;
pub use config::LoggerConfigBuilder;
pub use dispatch::DispatchPlan;
pub use dispatch::Dispatcher;
pub use dispatch::enabled;
pub use dispatch::init_simple_stdout_logger;
pub use dispatch::init_stdout_logger;
pub use dispatch::register_threshold;
pub use errors::LogError;
pub use formatter::LogFormatter;
pub use level::Level;
pub use record::LogRecord;
pub use timestamp::Timestamp;
