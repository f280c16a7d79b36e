use chrono::Utc;

use inth_oauth2::client::response::{FromResponse, ParseError};
use inth_oauth2::error::{OAuth2Error, OAuth2ErrorCode};
use inth_oauth2::json::Json;
use inth_oauth2::token::{Expiring, Refresh, Static};

#[test]
fn statik_from_response() {
    let json = Json::parse("{}").unwrap();
    assert_eq!(Static, Static::from_response(&json).unwrap());
}

#[test]
fn from_response_with_expires_in() {
    let json = Json::parse(r#"{"expires_in":3600}"#).unwrap();
    assert_eq!(
        ParseError::UnexpectedField("expires_in"),
        Static::from_response(&json).unwrap_err()
    );
}

#[test]
fn expiring_from_response() {
    let json = Json::parse(r#"{"expires_in":3600}"#).unwrap();
    let expiring = Expiring::from_response(&json).unwrap();
    assert!(expiring.expires() > Utc::now().timestamp());
    assert!(expiring.expires() <= Utc::now().timestamp() + 3600);
}

#[test]
fn expiring_ignores_unknown_fields() {
    let json = Json::parse(r#"{"expires_in":3600,"hue":"green","shade":7}"#).unwrap();
    let expiring = Expiring::from_response(&json).unwrap();
    assert!(expiring.expires() > Utc::now().timestamp());
    assert!(expiring.expires() <= Utc::now().timestamp() + 3600);
}

#[test]
fn expiring_from_response_with_refresh_token() {
    let json = Json::parse(r#"{"refresh_token":"aaaaaaaa","expires_in":3600}"#).unwrap();
    assert_eq!(
        ParseError::UnexpectedField("refresh_token"),
        Expiring::from_response(&json).unwrap_err()
    );
}

#[test]
fn expiring_from_response_with_fractional_expires_in() {
    let json = Json::parse(r#"{"expires_in":3600.5}"#).unwrap();
    assert_eq!(
        ParseError::ExpectedFieldType("expires_in", "i64"),
        Expiring::from_response(&json).unwrap_err()
    );
}

#[test]
fn expiring_from_response_not_object() {
    let json = Json::parse("[]").unwrap();
    assert_eq!(
        ParseError::ExpectedType("object"),
        Expiring::from_response(&json).unwrap_err()
    );
}

#[test]
fn refresh_from_response() {
    let json = Json::parse(r#"{"refresh_token":"aaaaaaaa","expires_in":3600}"#).unwrap();
    let refresh = Refresh::from_response(&json).unwrap();
    assert_eq!("aaaaaaaa", refresh.refresh_token());
    assert!(refresh.expires() > Utc::now().timestamp());
    assert!(refresh.expires() <= Utc::now().timestamp() + 3600);
}

#[test]
fn from_response_inherit() {
    let json = Json::parse(r#"{"expires_in":3600}"#).unwrap();
    let prev = Refresh {
        refresh_token: String::from("aaaaaaaa"),
        expires: Utc::now().timestamp(),
    };
    let refresh = Refresh::from_response_inherit(&json, &prev).unwrap();
    assert_eq!("aaaaaaaa", refresh.refresh_token());
    assert!(refresh.expires() > Utc::now().timestamp());
    assert!(refresh.expires() <= Utc::now().timestamp() + 3600);
}

#[test]
fn refresh_from_response_missing_refresh_token() {
    let json = Json::parse(r#"{"expires_in":3600}"#).unwrap();
    assert_eq!(
        ParseError::ExpectedFieldType("refresh_token", "string"),
        Refresh::from_response(&json).unwrap_err()
    );
}

#[test]
fn from_response_empty() {
    let json = Json::parse("{}").unwrap();
    assert_eq!(
        ParseError::ExpectedFieldType("error", "string"),
        OAuth2Error::from_response(&json).unwrap_err()
    );
}

#[test]
fn error_from_response() {
    let json = Json::parse(r#"{"error":"invalid_request"}"#).unwrap();
    assert_eq!(
        OAuth2Error {
            code: OAuth2ErrorCode::InvalidRequest,
            description: None,
            uri: None,
        },
        OAuth2Error::from_response(&json).unwrap()
    );
}

#[test]
fn from_response_with_description() {
    let json = Json::parse(r#"{"error":"invalid_request","error_description":"foo"}"#).unwrap();
    assert_eq!(
        OAuth2Error {
            code: OAuth2ErrorCode::InvalidRequest,
            description: Some(String::from("foo")),
            uri: None,
        },
        OAuth2Error::from_response(&json).unwrap()
    );
}

#[test]
fn from_response_with_uri() {
    let json = Json::parse(r#"{"error":"invalid_request","error_uri":"http://example.com"}"#).unwrap();
    assert_eq!(
        OAuth2Error {
            code: OAuth2ErrorCode::InvalidRequest,
            description: None,
            uri: Some(String::from("http://example.com")),
        },
        OAuth2Error::from_response(&json).unwrap()
    );
}

#[test]
fn error_from_response_unrecognized_code() {
    let json = Json::parse(r#"{"error":"server_error"}"#).unwrap();
    let err = OAuth2Error::from_response(&json).unwrap();
    assert_eq!(
        OAuth2ErrorCode::Unrecognized(String::from("server_error")),
        err.code
    );
}

#[test]
fn error_code_from_code() {
    assert_eq!(
        OAuth2ErrorCode::InvalidRequest,
        OAuth2ErrorCode::from_code("invalid_request")
    );
    assert_eq!(
        OAuth2ErrorCode::InvalidClient,
        OAuth2ErrorCode::from_code("invalid_client")
    );
    assert_eq!(
        OAuth2ErrorCode::InvalidGrant,
        OAuth2ErrorCode::from_code("invalid_grant")
    );
    assert_eq!(
        OAuth2ErrorCode::UnauthorizedClient,
        OAuth2ErrorCode::from_code("unauthorized_client")
    );
    assert_eq!(
        OAuth2ErrorCode::UnsupportedGrantType,
        OAuth2ErrorCode::from_code("unsupported_grant_type")
    );
    assert_eq!(
        OAuth2ErrorCode::InvalidScope,
        OAuth2ErrorCode::from_code("invalid_scope")
    );
    assert_eq!(
        OAuth2ErrorCode::Unrecognized(String::from("temporarily_unavailable")),
        OAuth2ErrorCode::from_code("temporarily_unavailable")
    );
    assert_eq!("invalid_scope", OAuth2ErrorCode::InvalidScope.code_str());
}

#[test]
fn expiring_saturates_far_future() {
    let json = Json::parse(&format!(r#"{{"expires_in":{}}}"#, i64::MAX)).unwrap();
    let expiring = Expiring::from_response(&json).unwrap();
    assert_eq!(i64::MAX, expiring.expires());
}

#[test]
fn error_message_with_description_and_uri() {
    let err = OAuth2Error {
        code: OAuth2ErrorCode::InvalidGrant,
        description: Some(String::from("example")),
        uri: Some(String::from("https://example.com/error")),
    };
    assert_eq!(
        "invalid_grant: example (https://example.com/error)",
        err.message()
    );
}

#[test]
fn parse_error_message() {
    assert_eq!(
        "Unexpected field expires_in",
        ParseError::UnexpectedField("expires_in").message()
    );
    assert_eq!(
        "Expected field token_type to equal Bearer",
        ParseError::ExpectedFieldValue("token_type", "Bearer").message()
    );
}
