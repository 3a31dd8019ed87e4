use services_control::errors::{decimal_text, ServiceError};

fn broken_json() -> serde_json::Error {
    match serde_json::from_str::<serde_json::Value>("[{\"id\": 1,") {
        Ok(_) => panic!("the text is not valid JSON"),
        Err(error) => error,
    }
}

#[test]
fn io_message_carries_the_error_text() {
    let error = ServiceError::from(std::io::Error::new(
        std::io::ErrorKind::PermissionDenied,
        "registry is locked",
    ));
    assert!(matches!(error, ServiceError::Io(_)));
    assert_eq!(error.message(), "I/O error: registry is locked");
}

#[test]
fn serialization_message_carries_the_error_text() {
    let expected = format!("Serialization error: {}", broken_json());
    let error = ServiceError::from(broken_json());
    assert!(matches!(error, ServiceError::SerdeJson(_)));
    assert_eq!(error.message(), expected);
    assert_eq!(
        error.message(),
        "Serialization error: EOF while parsing a value at line 1 column 10"
    );
}

#[test]
fn not_found_message_names_the_identifier() {
    assert_eq!(ServiceError::_NotFound(42).message(), "Service with ID 42 not found");
    assert_eq!(ServiceError::_NotFound(0).message(), "Service with ID 0 not found");
}

#[test]
fn command_execution_message_names_the_command() {
    assert_eq!(
        ServiceError::_CommandExecutionError("docker start web".to_string()).message(),
        "Failed to execute command: docker start web"
    );
}

#[test]
fn message_with_uses_the_given_detail() {
    let error = ServiceError::from(std::io::Error::new(std::io::ErrorKind::Other, "inner"));
    assert_eq!(error.message_with("given"), "I/O error: given");
    assert_eq!(ServiceError::from(broken_json()).message_with(""), "Serialization error: ");
    assert_eq!(ServiceError::_NotFound(7).message_with("unused"), "Service with ID 7 not found");
}

#[test]
fn decimal_text_matches_std() {
    assert_eq!(decimal_text(0), "0");
    assert_eq!(decimal_text(9), "9");
    assert_eq!(decimal_text(10), "10");
    assert_eq!(decimal_text(1234567890), "1234567890");
    assert_eq!(decimal_text(usize::MAX), usize::MAX.to_string());
}
