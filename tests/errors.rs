use rfinancial::{Error, ParaError};

#[test]
fn message_returns_carried_text() {
    let e = Error::ParaError("rate: f64".to_string());
    assert_eq!(e.message(), "rate: f64");
    let e = Error::OtherError("failed".to_string());
    assert_eq!(e.message(), "failed");
    let e = Error::ConstructorError(String::new());
    assert_eq!(e.message(), "");
}

#[test]
fn parameter_errors_are_told_apart() {
    assert!(Error::ParaError("nper: u32".to_string()).is_parameter_error());
    assert!(!Error::ConstructorError("x".to_string()).is_parameter_error());
    assert!(!Error::OtherError("x".to_string()).is_parameter_error());
}

#[test]
fn debug_output_names_the_kind() {
    let e = Error::ParaError("when: WhenType".to_string());
    assert_eq!(format!("{:?}", e), "ParaError(\"when: WhenType\")");
    assert_eq!(format!("{:?}", ParaError), "ParaError");
}
