use fstdout_logger::LogError;

#[test]
fn logger_error_message() {
    assert_eq!(LogError::Logger.message(), "Failed to set logger");
}

#[test]
fn io_error_message_names_the_failure() {
    let inner = std::io::Error::new(std::io::ErrorKind::PermissionDenied, "no access");
    let message = LogError::Io(inner).message();
    assert!(message.starts_with("IO error: "));
    assert!(message.contains("no access"));
}
