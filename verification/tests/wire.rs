//! The result record's wire form: exact encodings and the round trip the
//! presentation layer depends on.

use helm::codec::{decode, encode};
use helm::LoginResult;

fn round_trips(r: &LoginResult) {
    let wire = encode(r);
    let back = decode(wire.as_str()).expect("the encoder's output must decode");
    assert_eq!(back.success, r.success);
    assert_eq!(back.message, r.message);
}

#[test]
fn success_encodes_with_the_process_id() {
    let r = LoginResult { success: true, message: Some("4242".to_string()) };
    assert_eq!(encode(&r), "{\"success\":true,\"message\":\"4242\"}");
}

#[test]
fn null_message_encodes_as_null() {
    let r = LoginResult { success: false, message: None };
    assert_eq!(encode(&r), "{\"success\":false,\"message\":null}");
}

#[test]
fn representative_values_round_trip() {
    round_trips(&LoginResult { success: true, message: Some("4242".to_string()) });
    round_trips(&LoginResult { success: false, message: None });
    round_trips(&LoginResult { success: true, message: None });
    round_trips(&LoginResult {
        success: false,
        message: Some("User alice does not exist".to_string()),
    });
    round_trips(&LoginResult { success: false, message: Some("".to_string()) });
}

#[test]
fn quotes_and_backslashes_round_trip_escaped() {
    let r = LoginResult {
        success: false,
        message: Some("a \"quoted\" \\ backslash".to_string()),
    };
    let wire = encode(&r);
    assert_eq!(
        wire,
        "{\"success\":false,\"message\":\"a \\\"quoted\\\" \\\\ backslash\"}"
    );
    round_trips(&r);
}

#[test]
fn malformed_wire_strings_are_rejected() {
    assert!(decode("").is_none());
    assert!(decode("{}").is_none());
    assert!(decode("{\"success\":maybe,\"message\":null}").is_none());
    assert!(decode("{\"success\":true,\"message\":null").is_none());
    assert!(decode("{\"success\":true,\"message\":\"unterminated}").is_none());
    assert!(decode("{\"success\":true,\"message\":\"bad \\n escape\"}").is_none());
    assert!(decode("{\"success\":true,\"message\":null}}").is_none());
}
