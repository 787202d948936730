use kasa_cloud::devices::{device_report, extract_response_data, parse_device_list, Device};
use kasa_cloud::errors::ClientError;
use kasa_cloud::response::{classify_api_response, decode_login_response, TOKEN_EXPIRED_CODE};
use kasa_cloud::session::{ApiOutcome, LoginOutcome};

#[test]
fn expiry_sentinel_is_the_reserved_code() {
    assert_eq!(TOKEN_EXPIRED_CODE, -20651);
}

#[test]
fn success_envelope_classifies_as_success_payload() {
    let body = "{\"error_code\":0,\"result\":{\"deviceList\":[]}}";
    let outcome = classify_api_response(body).unwrap();
    assert_eq!(outcome, ApiOutcome::Success(String::from("{\"deviceList\":[]}")));
}

#[test]
fn sentinel_envelope_classifies_as_token_expired() {
    let body = "{\"error_code\":-20651}";
    let outcome = classify_api_response(body).unwrap();
    assert_eq!(outcome, ApiOutcome::TokenExpired);
}

#[test]
fn other_error_code_classifies_as_error_with_raw_body() {
    let body = "{\"error_code\":-20571,\"msg\":\"denied\"}";
    let outcome = classify_api_response(body).unwrap();
    assert_eq!(outcome, ApiOutcome::Error(String::from(body)));
}

#[test]
fn malformed_body_is_a_transport_error() {
    let r = classify_api_response("this is not json");
    assert!(matches!(r, Err(ClientError::TransportError(_))));
}

#[test]
fn missing_error_code_is_a_transport_error() {
    let r = classify_api_response("{\"result\":{}}");
    assert!(matches!(r, Err(ClientError::TransportError(_))));
}

#[test]
fn non_integer_error_code_is_a_transport_error() {
    let r = classify_api_response("{\"error_code\":\"zero\"}");
    assert!(matches!(r, Err(ClientError::TransportError(_))));
}

#[test]
fn success_without_result_is_a_transport_error() {
    let r = classify_api_response("{\"error_code\":0}");
    assert!(matches!(r, Err(ClientError::TransportError(_))));
}

#[test]
fn login_success_yields_the_token() {
    let body = "{\"error_code\":0,\"result\":{\"token\":\"T2\"}}";
    let outcome = decode_login_response(body).unwrap();
    assert_eq!(outcome, LoginOutcome::Token(String::from("T2")));
}

#[test]
fn login_rejection_carries_the_raw_body() {
    let body = "{\"error_code\":-20601}";
    let outcome = decode_login_response(body).unwrap();
    assert_eq!(outcome, LoginOutcome::Rejected(String::from(body)));
}

#[test]
fn login_success_without_token_is_a_transport_error() {
    let r = decode_login_response("{\"error_code\":0,\"result\":{}}");
    assert!(matches!(r, Err(ClientError::TransportError(_))));
}

#[test]
fn malformed_login_body_is_a_transport_error() {
    let r = decode_login_response("no envelope here");
    assert!(matches!(r, Err(ClientError::TransportError(_))));
}

#[test]
fn device_list_decodes_alias_and_id() {
    let payload =
        "{\"deviceList\":[{\"alias\":\"Lamp\",\"deviceId\":\"123\"},{\"alias\":\"Heater\",\"deviceId\":\"456\"}]}";
    let devices = parse_device_list(payload).unwrap();
    assert_eq!(
        devices,
        vec![
            Device { alias: String::from("Lamp"), device_id: String::from("123") },
            Device { alias: String::from("Heater"), device_id: String::from("456") },
        ]
    );
}

#[test]
fn device_report_prints_one_line_per_device_in_order() {
    let devices = vec![
        Device { alias: String::from("Lamp"), device_id: String::from("123") },
        Device { alias: String::from("Heater"), device_id: String::from("456") },
    ];
    assert_eq!(device_report(&devices), "Lamp = 123\nHeater = 456\n");
}

#[test]
fn device_report_of_no_devices_is_empty() {
    assert_eq!(device_report(&Vec::new()), "");
}

#[test]
fn device_list_of_wrong_shape_is_a_transport_error() {
    for payload in [
        "{\"deviceList\":[{\"alias\":\"Lamp\"}]}",
        "{\"deviceList\":17}",
        "{}",
        "not json at all",
    ] {
        assert!(matches!(
            parse_device_list(payload),
            Err(ClientError::TransportError(_))
        ));
    }
}

#[test]
fn response_data_is_surfaced_verbatim() {
    let payload = "{\"responseData\":\"{\\\"system\\\":{}}\"}";
    assert_eq!(extract_response_data(payload).unwrap(), "{\"system\":{}}");
}

#[test]
fn missing_response_data_is_a_transport_error() {
    assert!(matches!(
        extract_response_data("{}"),
        Err(ClientError::TransportError(_))
    ));
    assert!(matches!(
        extract_response_data("not json"),
        Err(ClientError::TransportError(_))
    ));
}
