use fstdout_logger::Dispatcher;
use fstdout_logger::Level;
use fstdout_logger::LogRecord;
use fstdout_logger::LoggerConfig;
use fstdout_logger::Timestamp;

fn ts() -> Timestamp {
    Timestamp::new(2024, 1, 15, 14, 32, 7).unwrap()
}

fn plain_config() -> LoggerConfig {
    LoggerConfig::builder()
        .level(Level::Debug)
        .show_file_info(false)
        .use_colors(false)
        .build()
}

#[test]
fn event_below_threshold_yields_nothing() {
    let d = Dispatcher::new(plain_config(), true);
    let rec = LogRecord::new(Level::Trace, String::from("whisper"), None, None);
    let plan = d.plan(&rec, Some(Level::Debug), ts());
    assert!(plan.terminal.is_none());
    assert!(plan.file.is_none());
}

#[test]
fn event_at_threshold_reaches_both_destinations() {
    let d = Dispatcher::new(plain_config(), true);
    let rec = LogRecord::new(Level::Debug, String::from("note"), None, None);
    let plan = d.plan(&rec, Some(Level::Debug), ts());
    assert_eq!(plan.terminal.as_deref(), Some("[14:32:07 DEBUG] note\n"));
    assert_eq!(plan.file.as_deref(), Some("[2024-01-15 14:32:07 DEBUG unknown:0] note\n"));
}

#[test]
fn event_above_threshold_reaches_both_destinations() {
    let d = Dispatcher::new(plain_config(), true);
    let rec = LogRecord::new(Level::Error, String::from("boom"), None, None);
    let plan = d.plan(&rec, Some(Level::Warn), ts());
    assert!(plan.terminal.is_some());
    assert!(plan.file.is_some());
}

#[test]
fn no_file_sink_no_file_line() {
    let d = Dispatcher::new(plain_config(), false);
    let rec = LogRecord::new(Level::Error, String::from("boom"), None, None);
    let plan = d.plan(&rec, Some(Level::Trace), ts());
    assert!(plan.terminal.is_some());
    assert!(plan.file.is_none());
}

#[test]
fn empty_slot_suppresses_everything() {
    let d = Dispatcher::new(plain_config(), true);
    let rec = LogRecord::new(Level::Error, String::from("boom"), None, None);
    let plan = d.plan(&rec, None, ts());
    assert!(plan.terminal.is_none());
    assert!(plan.file.is_none());
}
