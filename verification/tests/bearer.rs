use chrono::Utc;

use inth_oauth2::client::response::{FromResponse, ParseError};
use inth_oauth2::json::Json;
use inth_oauth2::token::{Bearer, Refresh, Static};

#[test]
fn from_response_with_invalid_token_type() {
    let json = Json::parse(r#"{"token_type":"MAC","access_token":"aaaaaaaa"}"#).unwrap();
    assert_eq!(
        ParseError::ExpectedFieldValue("token_type", "Bearer"),
        Bearer::<Static>::from_response(&json).unwrap_err()
    );
}

#[test]
fn from_response_capital_b() {
    let json = Json::parse(r#"{"token_type":"Bearer","access_token":"aaaaaaaa"}"#).unwrap();
    assert_eq!(
        Bearer {
            access_token: String::from("aaaaaaaa"),
            scope: None,
            lifetime: Static,
        },
        Bearer::<Static>::from_response(&json).unwrap()
    );
}

#[test]
fn from_response_little_b() {
    let json = Json::parse(r#"{"token_type":"bearer","access_token":"aaaaaaaa"}"#).unwrap();
    assert_eq!(
        Bearer {
            access_token: String::from("aaaaaaaa"),
            scope: None,
            lifetime: Static,
        },
        Bearer::<Static>::from_response(&json).unwrap()
    );
}

#[test]
fn from_response_mixed_case() {
    let json = Json::parse(r#"{"token_type":"BeArEr","access_token":"aaaaaaaa"}"#).unwrap();
    assert_eq!(
        Bearer {
            access_token: String::from("aaaaaaaa"),
            scope: None,
            lifetime: Static,
        },
        Bearer::<Static>::from_response(&json).unwrap()
    );
}

#[test]
fn from_response_with_scope() {
    let json = Json::parse(r#"{"token_type":"Bearer","access_token":"aaaaaaaa","scope":"foo"}"#)
        .unwrap();
    assert_eq!(
        Bearer {
            access_token: String::from("aaaaaaaa"),
            scope: Some(String::from("foo")),
            lifetime: Static,
        },
        Bearer::<Static>::from_response(&json).unwrap()
    );
}

#[test]
fn from_response_refresh() {
    let json = Json::parse(
        r#"
        {
            "token_type":"Bearer",
            "access_token":"aaaaaaaa",
            "expires_in":3600,
            "refresh_token":"bbbbbbbb"
        }
    "#,
    )
    .unwrap();
    let bearer = Bearer::<Refresh>::from_response(&json).unwrap();
    assert_eq!("aaaaaaaa", bearer.access_token);
    assert_eq!(None, bearer.scope);
    let refresh = bearer.lifetime;
    assert_eq!("bbbbbbbb", refresh.refresh_token());
    assert!(refresh.expires() > Utc::now().timestamp());
    assert!(refresh.expires() <= Utc::now().timestamp() + 3600);
}

#[test]
fn from_response_inherit_refresh() {
    let json = Json::parse(
        r#"
        {
            "token_type":"Bearer",
            "access_token":"aaaaaaaa",
            "expires_in":3600,
            "refresh_token":"bbbbbbbb"
        }
    "#,
    )
    .unwrap();
    let prev = Bearer::<Refresh>::from_response(&json).unwrap();

    let json = Json::parse(
        r#"
        {
            "token_type":"Bearer",
            "access_token":"cccccccc",
            "expires_in":3600
        }
    "#,
    )
    .unwrap();
    let bearer = Bearer::<Refresh>::from_response_inherit(&json, &prev).unwrap();
    assert_eq!("cccccccc", bearer.access_token);
    assert_eq!(None, bearer.scope);
    let refresh = bearer.lifetime;
    assert_eq!("bbbbbbbb", refresh.refresh_token());
    assert!(refresh.expires() > Utc::now().timestamp());
    assert!(refresh.expires() <= Utc::now().timestamp() + 3600);
}

#[test]
fn from_response_missing_access_token() {
    let json = Json::parse(r#"{"token_type":"Bearer"}"#).unwrap();
    assert_eq!(
        ParseError::ExpectedFieldType("access_token", "string"),
        Bearer::<Static>::from_response(&json).unwrap_err()
    );
}

#[test]
fn from_response_missing_token_type() {
    let json = Json::parse(r#"{"access_token":"aaaaaaaa"}"#).unwrap();
    assert_eq!(
        ParseError::ExpectedFieldType("token_type", "string"),
        Bearer::<Static>::from_response(&json).unwrap_err()
    );
}
