//! Tests of the header scanner and of the login client's verifiable half.

use niconico::{
    complete_login, extract_session, form_fields, login_url, parse_response_header, user_agent,
    Credentials, LoginError, SecretText, TransportOutcome,
};
use reqwest::header::{self, HeaderMap, HeaderValue};

/// Tests successful parsing of a valid user session cookie
#[test]
fn test_parse_response_header_success() {
    let mut headers = HeaderMap::new();
    headers.append(
        header::SET_COOKIE,
        HeaderValue::from_static("user_session=user_session_123"),
    );

    let result = parse_response_header(&headers);
    assert!(result.is_ok());
}

/// Tests error handling when user session cookie is not present
#[test]
fn test_parse_response_header_not_found() {
    let mut headers = HeaderMap::new();
    headers.append(
        header::SET_COOKIE,
        HeaderValue::from_static("different_cookie=value"),
    );

    let result = parse_response_header(&headers);
    assert!(matches!(result, Err(LoginError::UserSessionNotFound)));
}

/// Tests error handling for invalid header values
#[test]
fn test_parse_response_header_invalid() {
    let mut headers = HeaderMap::new();
    headers.append(header::SET_COOKIE, HeaderValue::from_bytes(&[0xff]).unwrap());

    let result = parse_response_header(&headers);
    assert!(matches!(result, Err(LoginError::HeaderParseError)));
}

#[test]
fn single_matching_cookie_yields_its_exact_text() {
    let values = vec![b"user_session=user_session_123".to_vec()];
    let session = extract_session(&values).unwrap();
    assert_eq!(
        session.user_session.expose_secret().as_str(),
        "user_session=user_session_123"
    );
}

#[test]
fn unrelated_cookie_yields_not_found() {
    let values = vec![b"different_cookie=value".to_vec()];
    let result = extract_session(&values);
    assert!(matches!(result, Err(LoginError::UserSessionNotFound)));
}

#[test]
fn empty_collection_yields_not_found() {
    let values: Vec<Vec<u8>> = Vec::new();
    let result = extract_session(&values);
    assert!(matches!(result, Err(LoginError::UserSessionNotFound)));
}

#[test]
fn undecodable_value_yields_parse_error() {
    let values = vec![vec![0xffu8]];
    let result = extract_session(&values);
    assert!(matches!(result, Err(LoginError::HeaderParseError)));
}

#[test]
fn scanner_continues_past_non_matching_value() {
    let values = vec![b"other=x".to_vec(), b"user_session=user_session_abc".to_vec()];
    let session = extract_session(&values).unwrap();
    assert_eq!(
        session.user_session.expose_secret().as_str(),
        "user_session=user_session_abc"
    );
}

#[test]
fn first_of_several_matches_wins() {
    let values = vec![
        b"other=x".to_vec(),
        b"user_session=user_session_first".to_vec(),
        b"user_session=user_session_second".to_vec(),
        b"user_session=user_session_third".to_vec(),
    ];
    let session = extract_session(&values).unwrap();
    assert_eq!(
        session.user_session.expose_secret().as_str(),
        "user_session=user_session_first"
    );
}

#[test]
fn undecodable_value_aborts_before_later_match() {
    let values = vec![
        b"other=x".to_vec(),
        vec![0xffu8],
        b"user_session=user_session_late".to_vec(),
    ];
    let result = extract_session(&values);
    assert!(matches!(result, Err(LoginError::HeaderParseError)));
}

#[test]
fn prefix_alone_is_not_rejected_and_attributes_may_follow() {
    let values = vec![b"user_session=user_session_1; Path=/; HttpOnly".to_vec()];
    let session = extract_session(&values).unwrap();
    assert_eq!(
        session.user_session.expose_secret().as_str(),
        "user_session=user_session_1; Path=/; HttpOnly"
    );
}

#[test]
fn shorter_than_prefix_yields_not_found() {
    let values = vec![b"user_session=".to_vec()];
    let result = extract_session(&values);
    assert!(matches!(result, Err(LoginError::UserSessionNotFound)));
}

#[test]
fn repeated_set_cookie_headers_scanned_in_order() {
    let mut headers = HeaderMap::new();
    headers.append(header::SET_COOKIE, HeaderValue::from_static("other=x"));
    headers.append(
        header::SET_COOKIE,
        HeaderValue::from_static("user_session=user_session_abc"),
    );
    let session = parse_response_header(&headers).unwrap();
    assert_eq!(
        session.user_session.expose_secret().as_str(),
        "user_session=user_session_abc"
    );
}

#[test]
fn other_header_names_are_ignored() {
    let mut headers = HeaderMap::new();
    headers.append(
        header::CONTENT_TYPE,
        HeaderValue::from_static("user_session=user_session_123"),
    );
    let result = parse_response_header(&headers);
    assert!(matches!(result, Err(LoginError::UserSessionNotFound)));
}

#[test]
fn send_failure_becomes_network_error_with_message() {
    let result = complete_login(TransportOutcome::SendFailed(
        "connection refused".to_string(),
    ));
    match result {
        Err(LoginError::NetworkError(message)) => {
            assert!(!message.is_empty());
            assert_eq!(message, "connection refused");
        }
        other => panic!("expected a network error, got {:?}", other.map(|_| ())),
    }
}

#[test]
fn build_failure_becomes_client_error_with_message() {
    let result = complete_login(TransportOutcome::BuildFailed("bad builder".to_string()));
    assert!(matches!(result, Err(LoginError::ClientError(m)) if m == "bad builder"));
}

#[test]
fn response_outcome_is_scanned() {
    let mut headers = HeaderMap::new();
    headers.append(
        header::SET_COOKIE,
        HeaderValue::from_static("user_session=user_session_xyz"),
    );
    let session = complete_login(TransportOutcome::Response(headers)).unwrap();
    assert_eq!(
        session.user_session.expose_secret().as_str(),
        "user_session=user_session_xyz"
    );
}

#[test]
fn form_fields_are_exactly_password_and_mail_tel() {
    let credentials = Credentials {
        mail_tel: "user@example.com".to_string(),
        password: SecretText::new("hunter2".to_string()),
    };
    let fields = form_fields(credentials);
    assert_eq!(fields.len(), 2);
    assert_eq!(fields[0].0, "password");
    assert_eq!(fields[0].1, "hunter2");
    assert_eq!(fields[1].0, "mail_tel");
    assert_eq!(fields[1].1, "user@example.com");
}

#[test]
fn fixed_request_constants() {
    assert_eq!(login_url(), "https://account.nicovideo.jp/login/redirector");
    assert_eq!(user_agent(), "toof-jp/niconico");
}

#[test]
fn error_messages_preserve_underlying_text() {
    assert_eq!(
        LoginError::NetworkError("timed out".to_string()).message(),
        "Network error occurred: timed out"
    );
    assert_eq!(
        LoginError::ClientError("no resolver".to_string()).message(),
        "Failed to create HTTP client: no resolver"
    );
    assert_eq!(
        LoginError::HeaderParseError.message(),
        "Failed to parse cookie header"
    );
    assert_eq!(
        LoginError::UserSessionNotFound.message(),
        "User session cookie not found in response"
    );
}
