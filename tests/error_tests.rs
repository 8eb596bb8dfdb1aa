use alfrusco::error::error_item_for;
use alfrusco::{Error, WorkflowError};

#[test]
fn test_io_error() {
    let error = Error::Io("disk gone".to_string());
    assert_eq!(error.to_string(), "IO Error: disk gone");
}

#[test]
fn test_missing_env_var_error() {
    let error = Error::MissingEnvVar("alfred_workflow_cache".to_string());
    assert_eq!(error.to_string(), "Missing environment variable: alfred_workflow_cache");
}

#[test]
fn test_error_item_with_source() {
    let error = Error::Io("disk gone".to_string());
    let item = error.error_item();
    assert_eq!(item.title, "Error: IO Error: disk gone");
    assert_eq!(item.subtitle, Some("std::io::error::Error".to_string()));
}

#[test]
fn test_error_item_without_source() {
    let error = Error::Workflow("Something went wrong".to_string());
    let item = error.error_item();
    assert_eq!(item.title, "An error occurred: Workflow Error: Something went wrong");
    assert_eq!(item.subtitle, None);
}

#[test]
fn test_workflow_error_from_string() {
    let error: Error = "custom message".into();
    assert_eq!(error, Error::Workflow("custom message".to_string()));
}

#[test]
fn test_workflow_error_from_string_type() {
    let error: Error = String::from("custom message").into();
    assert_eq!(error.to_string(), "Workflow Error: custom message");
}

#[test]
fn error_item_for_exact() {
    let item = error_item_for("m", Some("k"));
    assert_eq!(item.title, "Error: m");
    assert_eq!(item.subtitle, Some("k".to_string()));
    let item = error_item_for("m", None);
    assert_eq!(item.title, "An error occurred: m");
}
