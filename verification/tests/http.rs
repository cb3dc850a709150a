//! The transport path. The test environment has no reachable network, not
//! even loopback, so every real send must surface as a `TransportError`;
//! the decoding path is exercised at body level in the codec tests.

use nikel::{ClientError, NikelAPI};

#[test]
fn connection_failure_is_a_transport_error() {
    let client = NikelAPI::with_base_url("http://127.0.0.1:9".to_string());
    let result = client.courses(vec![]);
    assert!(matches!(result, Err(ClientError::TransportError(_))));
}

#[test]
fn transport_error_carries_a_description() {
    let client = NikelAPI::with_base_url("http://127.0.0.1:9".to_string());
    match client.exams(vec![("campus", "utsg")]) {
        Err(e) => {
            assert!(matches!(e, ClientError::TransportError(_)));
            assert!(!e.message().is_empty());
        }
        Ok(_) => panic!("no server can be reachable here"),
    }
}

#[test]
fn module_level_fetch_reports_transport_failure() {
    let result = nikel::textbooks(vec![("code", "CSC108")]);
    assert!(matches!(result, Err(ClientError::TransportError(_))));
}
