use std::collections::HashMap;

use deconz::connection::DeconzConnection;
use deconz::connection::DeconzError;
use deconz::connection::DeconzErrorType;
use deconz::connection::RequestResponse;
use deconz::connection::interpret_get_response;
use deconz::connection::interpret_put_response;
use deconz::connection::interpret_token_response;
use deconz::connection::partition_responses;
use deconz::endpoints::configuration::ApiToken;
use deconz::endpoints::configuration::TokenRequest;

#[test]
fn short_username_fails_validation() {
    let r = TokenRequest::new("my-app".to_string(), Some("five!".to_string()));
    assert!(matches!(r, Err(DeconzError::Validation)));
}

#[test]
fn long_devicetype_fails_validation() {
    let devicetype = "x".repeat(41);
    let r = TokenRequest::new(devicetype, None);
    assert!(matches!(r, Err(DeconzError::Validation)));
}

#[test]
fn username_length_boundaries() {
    assert!(TokenRequest::new("app".to_string(), Some("a".repeat(9))).is_err());
    assert!(TokenRequest::new("app".to_string(), Some("a".repeat(10))).is_ok());
    assert!(TokenRequest::new("app".to_string(), Some("a".repeat(40))).is_ok());
    assert!(TokenRequest::new("app".to_string(), Some("a".repeat(41))).is_err());
    assert!(TokenRequest::new("a".repeat(40), None).is_ok());
}

#[test]
fn valid_request_keeps_its_fields() {
    let r = TokenRequest::new("my-app".to_string(), Some("0123456789".to_string())).unwrap();
    assert_eq!(r.devicetype(), &"my-app".to_string());
    assert_eq!(r.username(), &Some("0123456789".to_string()));
}

#[test]
fn error_codes_round_trip() {
    let codes: [u16; 24] = [
        1, 2, 3, 4, 5, 6, 7, 8, 11, 100, 101, 201, 202, 301, 302, 402, 501, 502, 601, 607, 608,
        901, 950, 951,
    ];
    for c in codes {
        let kind = DeconzErrorType::from_code(c);
        assert!(!matches!(kind, DeconzErrorType::Unknown(_)));
        assert_eq!(kind.to_code(), c);
    }
}

#[test]
fn known_codes_map_to_named_kinds() {
    assert_eq!(DeconzErrorType::from_code(1), DeconzErrorType::UnauthorizedUser);
    assert_eq!(DeconzErrorType::from_code(101), DeconzErrorType::LinkButtonNotPressed);
    assert_eq!(DeconzErrorType::from_code(201), DeconzErrorType::DeviceOff);
    assert_eq!(DeconzErrorType::from_code(951), DeconzErrorType::BridgeBusy);
}

#[test]
fn unknown_code_is_kept_verbatim() {
    let kind = DeconzErrorType::from_code(999);
    assert_eq!(kind, DeconzErrorType::Unknown(999));
    assert_eq!(kind.to_code(), 999);
}

#[test]
fn partial_write_yields_one_success_and_one_error() {
    let mut accepted: HashMap<String, serde_json::Value> = HashMap::new();
    accepted.insert("/lights/1/state/bri".to_string(), serde_json::Value::from(100u64));
    let responses: Vec<RequestResponse<HashMap<String, serde_json::Value>>> = vec![
        RequestResponse::Success(accepted),
        RequestResponse::Error {
            kind: DeconzErrorType::from_code(201),
            address: "/lights/1/state/on".to_string(),
            description: "device is off".to_string(),
        },
    ];
    let (oks, errs) = partition_responses(responses);
    assert_eq!(oks.len(), 1);
    assert_eq!(oks[0].get("/lights/1/state/bri"), Some(&serde_json::Value::from(100u64)));
    assert_eq!(errs.len(), 1);
    assert_eq!(errs[0].kind, DeconzErrorType::DeviceOff);
    assert_eq!(errs[0].address, "/lights/1/state/on".to_string());
    assert_eq!(errs[0].description, "device is off".to_string());
}

#[test]
fn fully_successful_write_has_no_failures() {
    let responses: Vec<RequestResponse<String>> = vec![
        RequestResponse::Success("a".to_string()),
        RequestResponse::Success("b".to_string()),
    ];
    let (oks, errs) = partition_responses(responses);
    assert_eq!(oks, vec!["a".to_string(), "b".to_string()]);
    assert!(errs.is_empty());
}

#[test]
fn partition_keeps_the_response_order() {
    let responses: Vec<RequestResponse<u32>> = vec![
        RequestResponse::Success(1),
        RequestResponse::Error {
            kind: DeconzErrorType::InvalidValue,
            address: "/a".to_string(),
            description: "first failure".to_string(),
        },
        RequestResponse::Success(2),
        RequestResponse::Error {
            kind: DeconzErrorType::DeviceNotReachable,
            address: "/b".to_string(),
            description: "second failure".to_string(),
        },
    ];
    let (oks, errs) = partition_responses(responses);
    assert_eq!(oks, vec![1, 2]);
    assert_eq!(errs.len(), 2);
    assert_eq!(errs[0].address, "/a".to_string());
    assert_eq!(errs[1].address, "/b".to_string());
}

#[test]
fn token_response_success_yields_the_key() {
    let responses = vec![RequestResponse::Success(ApiToken { username: "D453E7BAF8".to_string() })];
    let token = interpret_token_response(responses).unwrap();
    assert_eq!(token.username, "D453E7BAF8".to_string());
}

#[test]
fn token_response_error_is_a_protocol_failure() {
    let responses: Vec<RequestResponse<ApiToken>> = vec![RequestResponse::Error {
        kind: DeconzErrorType::LinkButtonNotPressed,
        address: "/api".to_string(),
        description: "link button not pressed".to_string(),
    }];
    let r = interpret_token_response(responses);
    match r {
        Err(DeconzError::Protocol(Some(detail))) => {
            assert_eq!(detail.kind, DeconzErrorType::LinkButtonNotPressed);
            assert_eq!(detail.address, "/api".to_string());
        },
        _ => panic!("expected a protocol failure with detail"),
    }
}

#[test]
fn empty_token_response_is_a_protocol_failure() {
    let responses: Vec<RequestResponse<ApiToken>> = vec![];
    let r = interpret_token_response(responses);
    assert_eq!(r, Err(DeconzError::Protocol(None)));
}

#[test]
fn forbidden_status_is_unauthorized_not_decode() {
    let r: Result<u32, DeconzError> = interpret_get_response(403, None);
    assert_eq!(r, Err(DeconzError::Unauthorized));
    let also: Result<u32, DeconzError> = interpret_get_response(403, Some(5));
    assert_eq!(also, Err(DeconzError::Unauthorized));
    let garbled: Result<u32, DeconzError> = interpret_get_response(200, None);
    assert_eq!(garbled, Err(DeconzError::Decode));
    assert_ne!(r, garbled);
}

#[test]
fn successful_get_yields_the_body() {
    let r: Result<u32, DeconzError> = interpret_get_response(200, Some(7));
    assert_eq!(r, Ok(7));
}

#[test]
fn put_decode_failure_is_recoverable() {
    let r: Result<u32, DeconzError> = interpret_put_response(None);
    assert_eq!(r, Err(DeconzError::Decode));
    let ok: Result<u32, DeconzError> = interpret_put_response(Some(1));
    assert_eq!(ok, Ok(1));
}

#[test]
fn connection_builds_the_authenticated_root() {
    let url = url::Url::parse("http://192.168.0.166:80/").unwrap();
    let conn = DeconzConnection::new(url, "D453E7BAF8".to_string()).unwrap();
    assert_eq!(conn.get_api_key(), &"D453E7BAF8".to_string());
    assert_eq!(conn.url.as_str(), "http://192.168.0.166/");
    assert_eq!(conn.api_url.as_str(), "http://192.168.0.166/api/D453E7BAF8/");
}

#[test]
fn resource_urls_join_the_expected_paths() {
    let url = url::Url::parse("http://gateway.local/").unwrap();
    let conn = DeconzConnection::new(url, "KEY".to_string()).unwrap();
    assert_eq!(conn.all_lights_url().unwrap().as_str(), "http://gateway.local/api/KEY/lights");
    assert_eq!(conn.light_url("2").unwrap().as_str(), "http://gateway.local/api/KEY/lights/2");
    assert_eq!(
        conn.light_state_url("1").unwrap().as_str(),
        "http://gateway.local/api/KEY/lights/1/state"
    );
}

#[test]
fn unjoinable_base_url_is_a_construction_error() {
    let url = url::Url::parse("mailto:user@example.com").unwrap();
    let r = DeconzConnection::new(url, "KEY".to_string());
    assert!(matches!(r, Err(DeconzError::UrlConstruction)));
}
