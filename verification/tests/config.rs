use fstdout_logger::Level;
use fstdout_logger::LoggerConfig;
use fstdout_logger::LoggerConfigBuilder;

#[test]
fn default_settings() {
    let c = LoggerConfig::default();
    assert!(c.show_file_info);
    assert!(!c.show_date_in_stdout);
    assert!(c.use_colors);
    assert_eq!(c.level, Level::Info);
    assert_eq!(LoggerConfig::new(), c);
}

#[test]
fn production_preset() {
    let c = LoggerConfig::production();
    assert!(!c.show_file_info);
    assert!(!c.show_date_in_stdout);
    assert!(c.use_colors);
    assert_eq!(c.level, Level::Info);
}

#[test]
fn development_preset() {
    let c = LoggerConfig::development();
    assert!(c.show_file_info);
    assert!(!c.show_date_in_stdout);
    assert!(c.use_colors);
    assert_eq!(c.level, Level::Debug);
}

#[test]
fn builder_composes_setters() {
    let c = LoggerConfig::builder()
        .level(Level::Warn)
        .show_file_info(true)
        .show_date_in_stdout(true)
        .use_colors(false)
        .build();
    assert!(c.show_file_info);
    assert!(c.show_date_in_stdout);
    assert!(!c.use_colors);
    assert_eq!(c.level, Level::Warn);
}

#[test]
fn builder_starts_from_defaults() {
    assert_eq!(LoggerConfigBuilder::default().build(), LoggerConfig::default());
    assert_eq!(LoggerConfig::builder().build(), LoggerConfig::default());
}

#[test]
fn builder_overrides_one_field_at_a_time() {
    let c = LoggerConfig::builder().show_file_info(false).build();
    assert!(!c.show_file_info);
    assert!(!c.show_date_in_stdout);
    assert!(c.use_colors);
    assert_eq!(c.level, Level::Info);
}
