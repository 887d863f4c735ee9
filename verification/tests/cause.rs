use askama_shared::Error;
use std::fmt;

#[derive(Debug)]
struct Inner;

impl fmt::Display for Inner {
    fn fmt(&self, f: &mut fmt::Formatter<'_>) -> fmt::Result {
        f.write_str("the disk is gone")
    }
}

impl std::error::Error for Inner {}

#[derive(Debug)]
struct Outer {
    inner: Inner,
}

impl fmt::Display for Outer {
    fn fmt(&self, f: &mut fmt::Formatter<'_>) -> fmt::Result {
        f.write_str("cannot read the template data")
    }
}

impl std::error::Error for Outer {
    fn source(&self) -> Option<&(dyn std::error::Error + 'static)> {
        Some(&self.inner)
    }
}

struct Broken;

impl std::io::Read for Broken {
    fn read(&mut self, _buf: &mut [u8]) -> std::io::Result<usize> {
        Err(std::io::Error::new(
            std::io::ErrorKind::Other,
            Outer { inner: Inner },
        ))
    }
}

struct Unreadable;

impl std::io::Read for Unreadable {
    fn read(&mut self, _buf: &mut [u8]) -> std::io::Result<usize> {
        Err(std::io::Error::new(std::io::ErrorKind::Other, Inner))
    }
}

#[test]
fn formatting_failure_has_no_cause() {
    assert_eq!(Error::from(std::fmt::Error).cause(), None);
}

#[test]
fn pattern_failure_has_no_cause() {
    let error = Error::from(regex::Regex::new("(").unwrap_err());
    assert_eq!(error.cause(), None);
    let error = Error::from(regex::Error::CompiledTooBig(1));
    assert_eq!(error.cause(), None);
}

#[test]
fn timestamp_failure_has_no_cause() {
    let payload = chrono::NaiveDate::parse_from_str("x", "%Y").unwrap_err();
    assert_eq!(Error::from(payload).cause(), None);
}

#[test]
fn json_syntax_failure_has_no_cause() {
    let payload = serde_json::from_str::<serde_json::Value>("{").unwrap_err();
    assert_eq!(Error::from(payload).cause(), None);
}

#[test]
fn json_io_failure_gives_the_cause_below_the_payload() {
    let payload = serde_json::from_reader::<_, serde_json::Value>(Broken).unwrap_err();
    let error = Error::from(payload);
    assert_eq!(
        error.describe(),
        "json conversion error: cannot read the template data"
    );
    assert_eq!(error.cause(), Some("the disk is gone".to_string()));
}

#[test]
fn json_io_failure_without_nested_cause() {
    let payload = serde_json::from_reader::<_, serde_json::Value>(Unreadable).unwrap_err();
    let error = Error::from(payload);
    assert_eq!(error.describe(), "json conversion error: the disk is gone");
    assert_eq!(error.cause(), None);
}

#[test]
fn yaml_message_failure_has_no_cause() {
    let payload = <serde_yaml::Error as serde::de::Error>::custom("boom");
    assert_eq!(Error::from(payload).cause(), None);
}

#[test]
fn yaml_scan_failure_gives_the_scanner_error_as_cause() {
    let own = serde_yaml::from_str::<serde_yaml::Value>("@invalid").unwrap_err();
    let expected = std::error::Error::source(&own).map(|cause| cause.to_string());
    assert!(expected.is_some());
    let payload = serde_yaml::from_str::<serde_yaml::Value>("@invalid").unwrap_err();
    assert_eq!(Error::from(payload).cause(), expected);
}

#[test]
fn yaml_io_failure_gives_the_io_error_as_cause() {
    let payload = serde_yaml::from_reader::<_, serde_yaml::Value>(Unreadable).unwrap_err();
    let error = Error::from(payload);
    assert_eq!(error.describe(), "yaml conversion error: the disk is gone");
    assert_eq!(error.cause(), Some("the disk is gone".to_string()));
}

#[test]
fn cause_is_never_the_payload_itself() {
    let payload = regex::Error::Syntax("oops".to_string());
    let own = payload.to_string();
    let error = Error::from(payload);
    assert_ne!(error.cause(), Some(own));
}
