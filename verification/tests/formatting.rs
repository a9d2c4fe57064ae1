use fstdout_logger::Level;
use fstdout_logger::LogFormatter;
use fstdout_logger::LogRecord;
use fstdout_logger::LoggerConfig;
use fstdout_logger::Timestamp;

fn ts() -> Timestamp {
    Timestamp::new(2024, 1, 15, 14, 32, 7).unwrap()
}

fn plain_config() -> LoggerConfig {
    LoggerConfig::builder()
        .level(Level::Debug)
        .show_file_info(false)
        .use_colors(false)
        .build()
}

#[test]
fn terminal_line_time_only() {
    let f = LogFormatter::new(plain_config());
    let rec = LogRecord::new(Level::Info, String::from("ready"), None, None);
    assert_eq!(f.format_stdout_at(&rec, ts()), "[14:32:07 INFO] ready");
}

#[test]
fn terminal_line_with_date() {
    let config = LoggerConfig::builder()
        .show_file_info(false)
        .show_date_in_stdout(true)
        .use_colors(false)
        .build();
    let f = LogFormatter::new(config);
    let rec = LogRecord::new(Level::Info, String::from("ready"), None, None);
    assert_eq!(f.format_stdout_at(&rec, ts()), "[2024-01-15 14:32:07 INFO] ready");
}

#[test]
fn terminal_line_with_source() {
    let config = LoggerConfig::builder().use_colors(false).build();
    let f = LogFormatter::new(config);
    let rec = LogRecord::new(
        Level::Warn,
        String::from("careful"),
        Some(String::from("src/main")),
        Some(42),
    );
    assert_eq!(f.format_stdout_at(&rec, ts()), "[14:32:07 WARN src/main:42] careful");
}

#[test]
fn terminal_omits_source_iff_disabled() {
    let rec = LogRecord::new(
        Level::Warn,
        String::from("careful"),
        Some(String::from("main")),
        Some(10),
    );
    let without = LogFormatter::new(
        LoggerConfig::builder().show_file_info(false).use_colors(false).build(),
    );
    let with = LogFormatter::new(
        LoggerConfig::builder().show_file_info(true).use_colors(false).build(),
    );
    assert!(!without.format_stdout_at(&rec, ts()).contains("main:10"));
    assert!(with.format_stdout_at(&rec, ts()).contains("main:10"));
}

#[test]
fn terminal_escapes_iff_colors() {
    let rec = LogRecord::new(Level::Error, String::from("boom"), None, None);
    let colored = LogFormatter::new(
        LoggerConfig::builder().show_file_info(false).use_colors(true).build(),
    );
    let plain = LogFormatter::new(
        LoggerConfig::builder().show_file_info(false).use_colors(false).build(),
    );
    assert!(colored.format_stdout_at(&rec, ts()).contains('\u{1b}'));
    assert!(!plain.format_stdout_at(&rec, ts()).contains('\u{1b}'));
}

#[test]
fn terminal_styles_per_level() {
    let config = LoggerConfig::builder().show_file_info(false).use_colors(true).build();
    let f = LogFormatter::new(config);
    let line = |level: Level| {
        f.format_stdout_at(&LogRecord::new(level, String::from("x"), None, None), ts())
    };
    assert!(line(Level::Error).contains("\u{1b}[1;31mERROR\u{1b}[0m"));
    assert!(line(Level::Warn).contains("\u{1b}[1;33mWARN\u{1b}[0m"));
    assert!(line(Level::Info).contains("\u{1b}[1;34mINFO\u{1b}[0m"));
    assert!(line(Level::Debug).contains("\u{1b}[32mDEBUG\u{1b}[0m"));
    // Trace keeps an unstyled label; the dimmed timestamp still carries
    // escapes while colors are on.
    let trace_line = line(Level::Trace);
    assert!(trace_line.contains("TRACE"));
    assert!(!trace_line.contains("\u{1b}[0mTRACE"));
    assert!(trace_line.contains("\u{1b}[90m14:32:07\u{1b}[0m"));
}

#[test]
fn file_line_is_complete() {
    let f = LogFormatter::new(plain_config());
    let rec = LogRecord::new(
        Level::Error,
        String::from("boom"),
        Some(String::from("main")),
        Some(10),
    );
    assert_eq!(f.format_file_at(&rec, ts()), "[2024-01-15 14:32:07 ERROR main:10] boom\n");
}

#[test]
fn file_line_ignores_configuration() {
    let rec = LogRecord::new(
        Level::Debug,
        String::from("detail"),
        Some(String::from("lib")),
        Some(7),
    );
    let a = LogFormatter::new(
        LoggerConfig::builder()
            .show_file_info(false)
            .show_date_in_stdout(false)
            .use_colors(true)
            .build(),
    );
    let b = LogFormatter::new(
        LoggerConfig::builder()
            .show_file_info(true)
            .show_date_in_stdout(true)
            .use_colors(false)
            .build(),
    );
    let line = a.format_file_at(&rec, ts());
    assert_eq!(line, b.format_file_at(&rec, ts()));
    assert_eq!(line, "[2024-01-15 14:32:07 DEBUG lib:7] detail\n");
    assert!(!line.contains('\u{1b}'));
}

#[test]
fn file_line_uses_sentinels() {
    let f = LogFormatter::new(LoggerConfig::default());
    let rec = LogRecord::new(Level::Info, String::from("started"), None, None);
    assert_eq!(f.format_file_at(&rec, ts()), "[2024-01-15 14:32:07 INFO unknown:0] started\n");
}

#[test]
fn single_digit_fields_are_padded() {
    let f = LogFormatter::new(plain_config());
    let rec = LogRecord::new(Level::Info, String::from("m"), None, None);
    let early = Timestamp::new(987, 3, 4, 5, 6, 9).unwrap();
    assert_eq!(f.format_file_at(&rec, early), "[0987-03-04 05:06:09 INFO unknown:0] m\n");
}

#[test]
fn large_line_numbers_render_in_full() {
    let f = LogFormatter::new(plain_config());
    let rec = LogRecord::new(
        Level::Info,
        String::from("m"),
        Some(String::from("f")),
        Some(4294967295),
    );
    assert_eq!(f.format_file_at(&rec, ts()), "[2024-01-15 14:32:07 INFO f:4294967295] m\n");
}

#[test]
fn clock_backed_terminal_line_is_well_formed() {
    // Rendered at the real wall clock: the shape pins the clock wrapper to
    // a genuine time of day.
    let f = LogFormatter::new(plain_config());
    let rec = LogRecord::new(Level::Info, String::from("tick"), None, None);
    let line = f.format_stdout_at(&rec, Timestamp::now());
    let bytes = line.as_bytes();
    assert_eq!(line.len(), "[HH:MM:SS INFO] tick".len());
    assert_eq!(bytes[0], b'[');
    for i in [1, 2, 4, 5, 7, 8] {
        assert!(bytes[i].is_ascii_digit());
    }
    assert_eq!(bytes[3], b':');
    assert_eq!(bytes[6], b':');
    assert!(line.ends_with(" INFO] tick"));
}
