//! The dispatcher's decisions: the process-wide severity gate, one-time
//! registration, and the plan of what one event sends to each destination.
//!
//! The process-wide gate lives in the `log` crate's atomic maximum-level
//! slot, read on every event and written once at registration. The slot is
//! empty (`Off`) until a dispatcher registers; registering claims it, and a
//! second registration is refused without touching the first. The file
//! handle itself, and the ambient facade adapter that routes events here,
//! are unverified plumbing outside this crate.

use vstd::prelude::*;

use crate::config::LoggerConfig;
use crate::errors::LogError;
use crate::formatter::LogFormatter;
use crate::formatter::spec_file_line;
use crate::formatter::spec_stdout_line;
use crate::level::Level;
use crate::level::admits;
use crate::level::spec_admits;
use crate::record::LogRecord;
use crate::record::LogRecordV;
use crate::timestamp::Timestamp;

verus! {

/// Relies on `log::max_level`: the process-wide atomic gate, `Off` until a
/// dispatcher has registered. Each variant of `log::LevelFilter` maps to the
/// matching severity, `Off` to an empty slot.
#[verifier::external_body]
fn read_threshold() -> (r: Option<Level>) {
    match log::max_level() {
        log::LevelFilter::Off => None,
        log::LevelFilter::Error => Some(Level::Error),
        log::LevelFilter::Warn => Some(Level::Warn),
        log::LevelFilter::Info => Some(Level::Info),
        log::LevelFilter::Debug => Some(Level::Debug),
        log::LevelFilter::Trace => Some(Level::Trace),
    }
}

/// Relies on `log::set_max_level`: publishes the process-wide gate.
#[verifier::external_body]
fn write_threshold(level: Level) {
    log::set_max_level(match level {
        Level::Trace => log::LevelFilter::Trace,
        Level::Debug => log::LevelFilter::Debug,
        Level::Info => log::LevelFilter::Info,
        Level::Warn => log::LevelFilter::Warn,
        Level::Error => log::LevelFilter::Error,
    });
}

/// Whether an event at `level` currently passes the process-wide gate. The
/// gate is read at the instant of the call; no stronger promise is possible
/// about a value any thread may have published.
pub fn enabled(level: Level) -> bool {
    admits(read_threshold(), level)
}

/// What registration yields for a given state of the process-wide slot: a
/// second dispatcher is refused while one is active, and the refusal asks
/// for no change; an empty slot is claimed with the requested threshold.
pub open spec fn spec_registration(current: Option<Level>, requested: Level) -> Result<
    Level,
    LogError,
> {
    match current {
        Option::Some(_) => Result::Err(LogError::Logger),
        Option::None => Result::Ok(requested),
    }
}

/// Decide a registration attempt from the observed state of the slot.
pub fn registration_outcome(current: Option<Level>, requested: Level) -> (r: Result<
    Level,
    LogError,
>)
    ensures
        r == spec_registration(current, requested),
{
    match current {
        Option::Some(_) => Result::Err(LogError::Logger),
        Option::None => Result::Ok(requested),
    }
}

/// At most one dispatcher is ever active: an occupied slot turns every
/// further registration into the duplicate-registration error and is never
/// written again, while the first registration claims the slot with exactly
/// the threshold it asked for.
pub proof fn lemma_register_once(current: Option<Level>, requested: Level)
    ensures
        current is Some ==> spec_registration(current, requested) == Result::<
            Level,
            LogError,
        >::Err(LogError::Logger),
        current is None ==> spec_registration(current, requested) == Result::<
            Level,
            LogError,
        >::Ok(requested),
{
}

/// Claim the process-wide registration slot and set the severity gate to
/// `level`. While a dispatcher is already active this fails with the
/// duplicate-registration error and the active one is left untouched.
pub fn register_threshold(level: Level) -> (r: Result<(), LogError>)
    ensures
        r matches Err(e) ==> e is Logger,
{
    match registration_outcome(read_threshold(), level) {
        Result::Ok(l) => {
            write_threshold(l);
            Result::Ok(())
        },
        Result::Err(e) => Result::Err(e),
    }
}

/// What one event sends to each destination: the terminal line (with its
/// trailing newline) and the file line, each absent when the threshold or
/// the configuration suppresses it.
pub struct DispatchPlan {
    /// The line for the terminal, newline included, for an event severe
    /// enough to be rendered.
    pub terminal: Option<String>,
    /// The line for the file, for an event severe enough to be rendered
    /// when a file sink exists.
    pub file: Option<String>,
}

/// The mathematical shape of a dispatch plan.
pub struct DispatchPlanV {
    pub terminal: Option<Seq<char>>,
    pub file: Option<Seq<char>>,
}

impl View for DispatchPlan {
    type V = DispatchPlanV;

    open spec fn view(&self) -> DispatchPlanV {
        DispatchPlanV {
            terminal: match self.terminal {
                Option::Some(s) => Option::Some(s@),
                Option::None => Option::None,
            },
            file: match self.file {
                Option::Some(s) => Option::Some(s@),
                Option::None => Option::None,
            },
        }
    }
}

/// The mathematical shape of a dispatcher: its configuration and whether a
/// file sink exists.
pub struct DispatcherV {
    pub config: LoggerConfig,
    pub file_sink: bool,
}

/// Decides, for each incoming event, whether it passes the severity gate and
/// how it is rendered for each destination. The file handle it plans for is
/// owned by the surrounding plumbing.
pub struct Dispatcher {
    formatter: LogFormatter,
    file_sink: bool,
}

impl View for Dispatcher {
    type V = DispatcherV;

    closed spec fn view(&self) -> DispatcherV {
        DispatcherV { config: self.formatter@, file_sink: self.file_sink }
    }
}

/// The plan for one event under a known gate and instant: nothing below the
/// gate (or while the slot is empty); otherwise the terminal line with its
/// newline, and the file line exactly when a file sink exists.
pub open spec fn spec_plan(
    d: DispatcherV,
    rec: LogRecordV,
    threshold: Option<Level>,
    ts: Timestamp,
) -> DispatchPlanV {
    if !spec_admits(threshold, rec.level) {
        DispatchPlanV { terminal: Option::None, file: Option::None }
    } else {
        DispatchPlanV {
            terminal: Option::Some(spec_stdout_line(d.config, rec, ts) + seq!['\n']),
            file: if d.file_sink {
                Option::Some(spec_file_line(rec, ts))
            } else {
                Option::None
            },
        }
    }
}

impl Dispatcher {
    /// A dispatcher rendering under `config`, planning for a file sink when
    /// `file_sink` says one exists.
    pub fn new(config: LoggerConfig, file_sink: bool) -> (r: Self)
        ensures
            r@ == (DispatcherV { config, file_sink }),
    {
        Dispatcher { formatter: LogFormatter::new(config), file_sink }
    }

    /// The configuration this dispatcher renders under.
    pub fn config(&self) -> (r: LoggerConfig)
        ensures
            r == self@.config,
    {
        self.formatter.config()
    }

    /// Plan one event against a known gate at a known instant.
    pub fn plan(&self, rec: &LogRecord, threshold: Option<Level>, ts: Timestamp) -> (r:
        DispatchPlan)
        requires
            ts.wf(),
        ensures
            r@ == spec_plan(self@, rec@, threshold, ts),
    {
        proof {
            reveal_strlit("\n");
        }
        if !admits(threshold, rec.level) {
            DispatchPlan { terminal: Option::None, file: Option::None }
        } else {
            let mut terminal = self.formatter.format_stdout_at(rec, ts);
            terminal.append("\n");
            let file = if self.file_sink {
                Option::Some(self.formatter.format_file_at(rec, ts))
            } else {
                Option::None
            };
            let r = DispatchPlan { terminal: Option::Some(terminal), file };
            proof {
                assert(r@.terminal == Option::Some(
                    spec_stdout_line(self@.config, rec@, ts) + seq!['\n'],
                ));
            }
            r
        }
    }

    /// Plan one event against the threshold and the wall clock as they stand at
    /// the instant of the call: the hot path's decision, with the writes
    /// left to the owner of the streams.
    pub fn handle(&self, rec: &LogRecord) -> (r: DispatchPlan)
        ensures
            exists|threshold: Option<Level>, ts: Timestamp|
                ts.wf() && r@ == spec_plan(self@, rec@, threshold, ts),
    {
        let threshold = read_threshold();
        let ts = Timestamp::now();
        let r = self.plan(rec, threshold, ts);
        proof {
            assert(ts.wf() && r@ == spec_plan(self@, rec@, threshold, ts));
        }
        r
    }
}

/// With the process-wide filter at `threshold`, an event strictly less severe yields no
/// output for either destination; an event at the threshold or above yields
/// a terminal line, and a file line exactly when a file sink exists. An
/// empty slot yields nothing at all.
pub proof fn lemma_gate_decides_output(
    d: DispatcherV,
    rec: LogRecordV,
    threshold: Level,
    ts: Timestamp,
)
    ensures
        rec.level.spec_severity() < threshold.spec_severity() ==> spec_plan(
            d,
            rec,
            Some(threshold),
            ts,
        ) == (DispatchPlanV { terminal: Option::None, file: Option::None }),
        rec.level.spec_severity() >= threshold.spec_severity() ==> (spec_plan(
            d,
            rec,
            Some(threshold),
            ts,
        ).terminal is Some && (spec_plan(d, rec, Some(threshold), ts).file is Some <==> d.file_sink)),
        spec_plan(d, rec, None, ts) == (DispatchPlanV {
            terminal: Option::None,
            file: Option::None,
        }),
{
}

/// Register a stdout-only dispatcher: claim the process-wide slot and set
/// the severity filter to the configuration's own level. The facade adapter that
/// routes events afterwards is unverified plumbing outside this crate.
pub fn init_stdout_logger(config: LoggerConfig) -> (r: Result<(), LogError>)
    ensures
        r matches Err(e) ==> e is Logger,
{
    register_threshold(config.level)
}

/// Register a stdout-only dispatcher with just a severity level, leaving
/// every other setting at its default.
pub fn init_simple_stdout_logger(level: Level) -> (r: Result<(), LogError>)
    ensures
        r matches Err(e) ==> e is Logger,
{
    let config = LoggerConfig { level, ..LoggerConfig::new() };
    init_stdout_logger(config)
}

} // verus!
