use fstdout_logger::Level;
use fstdout_logger::LoggerConfig;
use fstdout_logger::init_stdout_logger;

#[test]
fn test_stdout_logger() {
    // This test only checks that initialization doesn't fail
    let config = LoggerConfig::builder()
        .level(Level::Debug)
        .show_file_info(false)
        .build();

    let result = init_stdout_logger(config);
    assert!(result.is_ok());
}
