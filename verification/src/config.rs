//! Configuration of the logger: an immutable value object fixed at
//! construction, built from defaults, presets, or a fluent builder.

use vstd::prelude::*;

use crate::level::Level;

verus! {

/// What the logger shows and filters. The value never changes after it is
/// handed to a dispatcher.
#[derive(Clone, Copy, Debug, PartialEq, Eq, Structural)]
pub struct LoggerConfig {
    /// Whether terminal output carries the source file and line.
    pub show_file_info: bool,
    /// Whether terminal timestamps carry the calendar date (file output
    /// always does).
    pub show_date_in_stdout: bool,
    /// Whether terminal output carries ANSI color escape sequences.
    pub use_colors: bool,
    /// The least severe level that is rendered at all.
    pub level: Level,
}

impl LoggerConfig {
    /// The default configuration: `Info` threshold, source location shown,
    /// time-only terminal timestamps, colors on.
    pub open spec fn spec_default() -> LoggerConfig {
        LoggerConfig {
            show_file_info: true,
            show_date_in_stdout: false,
            use_colors: true,
            level: Level::Info,
        }
    }

    /// A configuration with the default settings.
    pub fn new() -> (r: Self)
        ensures
            r == LoggerConfig::spec_default(),
    {
        LoggerConfig {
            show_file_info: true,
            show_date_in_stdout: false,
            use_colors: true,
            level: Level::Info,
        }
    }

    /// A fresh builder, starting from the default settings.
    pub fn builder() -> (r: LoggerConfigBuilder)
        ensures
            r.spec_config() == LoggerConfig::spec_default(),
    {
        LoggerConfigBuilder { config: LoggerConfig::new() }
    }

    /// The production preset: concise operational logs. `Info` threshold, no
    /// source location, time-only terminal timestamps, colors on.
    pub fn production() -> (r: Self)
        ensures
            r == (LoggerConfig {
                show_file_info: false,
                show_date_in_stdout: false,
                use_colors: true,
                level: Level::Info,
            }),
    {
        LoggerConfig {
            show_file_info: false,
            show_date_in_stdout: false,
            use_colors: true,
            level: Level::Info,
        }
    }

    /// The development preset: diagnostic detail. `Debug` threshold, source
    /// location shown, time-only terminal timestamps, colors on.
    pub fn development() -> (r: Self)
        ensures
            r == (LoggerConfig {
                show_file_info: true,
                show_date_in_stdout: false,
                use_colors: true,
                level: Level::Debug,
            }),
    {
        LoggerConfig {
            show_file_info: true,
            show_date_in_stdout: false,
            use_colors: true,
            level: Level::Debug,
        }
    }
}

impl Default for LoggerConfig {
    /// The default settings, the same value `LoggerConfig::new` yields.
    fn default() -> (r: Self)
        ensures
            r == LoggerConfig::spec_default(),
    {
        LoggerConfig::new()
    }
}

/// Builds a [`LoggerConfig`] by composing independent setter calls, each
/// returning the builder, ended by [`LoggerConfigBuilder::build`].
#[derive(Clone, Copy, Debug)]
pub struct LoggerConfigBuilder {
    config: LoggerConfig,
}

impl LoggerConfigBuilder {
    /// The configuration the builder holds so far.
    pub closed spec fn spec_config(&self) -> LoggerConfig {
        self.config
    }

    /// Choose whether terminal output carries the source file and line.
    pub fn show_file_info(self, show: bool) -> (r: Self)
        ensures
            r.spec_config() == (LoggerConfig { show_file_info: show, ..self.spec_config() }),
    {
        LoggerConfigBuilder { config: LoggerConfig { show_file_info: show, ..self.config } }
    }

    /// Choose whether terminal timestamps carry the calendar date.
    pub fn show_date_in_stdout(self, show: bool) -> (r: Self)
        ensures
            r.spec_config() == (LoggerConfig { show_date_in_stdout: show, ..self.spec_config() }),
    {
        LoggerConfigBuilder { config: LoggerConfig { show_date_in_stdout: show, ..self.config } }
    }

    /// Choose whether terminal output carries ANSI color escape sequences.
    pub fn use_colors(self, use_colors: bool) -> (r: Self)
        ensures
            r.spec_config() == (LoggerConfig { use_colors: use_colors, ..self.spec_config() }),
    {
        LoggerConfigBuilder { config: LoggerConfig { use_colors: use_colors, ..self.config } }
    }

    /// Choose the least severe level that is rendered.
    pub fn level(self, level: Level) -> (r: Self)
        ensures
            r.spec_config() == (LoggerConfig { level: level, ..self.spec_config() }),
    {
        LoggerConfigBuilder { config: LoggerConfig { level: level, ..self.config } }
    }

    /// Finish building and yield the immutable configuration.
    pub fn build(self) -> (r: LoggerConfig)
        ensures
            r == self.spec_config(),
    {
        self.config
    }
}

impl Default for LoggerConfigBuilder {
    /// A fresh builder, starting from the default settings.
    fn default() -> (r: Self)
        ensures
            r.spec_config() == LoggerConfig::spec_default(),
    {
        LoggerConfig::builder()
    }
}

} // verus!
