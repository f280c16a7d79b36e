use chrono::Utc;

use inth_oauth2::client::EnsureAction;
use inth_oauth2::error::OAuth2ErrorCode;
use inth_oauth2::provider::Custom;
use inth_oauth2::token::{Bearer, Expiring, Refresh, Static};
use inth_oauth2::{Client, ClientError, Lifetime, Token};

const RESPONSE_BEARER_STATIC: &str =
    r#"{"token_type":"Bearer","access_token":"aaaaaaaa","scope":"example"}"#;
const RESPONSE_BEARER_EXPIRING: &str =
    r#"{"token_type":"Bearer","access_token":"aaaaaaaa","scope":"example","expires_in":3600}"#;
const RESPONSE_BEARER_REFRESH: &str = r#"{"token_type":"Bearer","access_token":"aaaaaaaa","scope":"example","expires_in":3600,"refresh_token":"bbbbbbbb"}"#;
const RESPONSE_REFRESH_FULL: &str = r#"{"token_type":"Bearer","access_token":"cccccccc","scope":"example","expires_in":3600,"refresh_token":"dddddddd"}"#;
const RESPONSE_REFRESH_PARTIAL: &str =
    r#"{"token_type":"Bearer","access_token":"cccccccc","scope":"example","expires_in":3600}"#;
const RESPONSE_INVALID_REQUEST: &str = r#"{"error":"invalid_request","error_description":"example","error_uri":"https://example.com/error"}"#;

fn client<L: Lifetime + inth_oauth2::client::response::FromResponse>() -> Client<Custom<L>> {
    Client::new(
        Custom::new(
            String::from("https://example.com/oauth/auth"),
            String::from("https://example.com/oauth/token"),
        ),
        String::from("client_id"),
        String::from("client_secret"),
        None,
    )
}

#[test]
fn request_token_bearer_static_success() {
    let client = client::<Static>();
    let request = client.token_request("code");
    assert_eq!("https://example.com/oauth/token", request.url);
    assert_eq!("grant_type=authorization_code&code=code", request.body);
    let token = client.interpret_token_response(RESPONSE_BEARER_STATIC).unwrap();
    assert_eq!("aaaaaaaa", token.access_token());
    assert_eq!(Some("example"), token.scope());
}

#[test]
fn request_token_bearer_expiring_success() {
    let client = client::<Expiring>();
    let token = client.interpret_token_response(RESPONSE_BEARER_EXPIRING).unwrap();
    assert_eq!("aaaaaaaa", token.access_token());
    assert_eq!(Some("example"), token.scope());
    assert_eq!(false, token.lifetime().expired());
    assert!(token.lifetime().expires() > Utc::now().timestamp());
    assert!(token.lifetime().expires() <= Utc::now().timestamp() + 3600);
}

#[test]
fn request_token_bearer_refresh_success() {
    let client = client::<Refresh>();
    let token = client.interpret_token_response(RESPONSE_BEARER_REFRESH).unwrap();
    assert_eq!("aaaaaaaa", token.access_token());
    assert_eq!(Some("example"), token.scope());
    assert_eq!("bbbbbbbb", token.lifetime().refresh_token());
    assert_eq!(false, token.lifetime().expired());
    assert!(token.lifetime().expires() > Utc::now().timestamp());
    assert!(token.lifetime().expires() <= Utc::now().timestamp() + 3600);
}

#[test]
fn refresh_token_bearer_full() {
    let client = client::<Refresh>();
    let token = client.interpret_token_response(RESPONSE_BEARER_REFRESH).unwrap();
    let request = client.refresh_request(token.lifetime().refresh_token(), None);
    assert_eq!("grant_type=refresh_token&refresh_token=bbbbbbbb", request.body);
    let token = client.interpret_refresh_response(RESPONSE_REFRESH_FULL, &token).unwrap();
    assert_eq!("cccccccc", token.access_token());
    assert_eq!(Some("example"), token.scope());
    assert_eq!("dddddddd", token.lifetime().refresh_token());
    assert_eq!(false, token.lifetime().expired());
    assert!(token.lifetime().expires() > Utc::now().timestamp());
    assert!(token.lifetime().expires() <= Utc::now().timestamp() + 3600);
}

#[test]
fn refresh_token_bearer_partial() {
    let client = client::<Refresh>();
    let token = client.interpret_token_response(RESPONSE_BEARER_REFRESH).unwrap();
    let token = client.interpret_refresh_response(RESPONSE_REFRESH_PARTIAL, &token).unwrap();
    assert_eq!("cccccccc", token.access_token());
    assert_eq!(Some("example"), token.scope());
    assert_eq!("bbbbbbbb", token.lifetime().refresh_token());
    assert_eq!(false, token.lifetime().expired());
    assert!(token.lifetime().expires() > Utc::now().timestamp());
    assert!(token.lifetime().expires() <= Utc::now().timestamp() + 3600);
}

#[test]
fn request_token_bearer_static_wrong_lifetime() {
    let client = client::<Static>();
    let err = client.interpret_token_response(RESPONSE_BEARER_REFRESH).unwrap_err();
    assert!(match err {
        ClientError::Parse(..) => true,
        _ => false,
    });
}

#[test]
fn request_token_bearer_expiring_wrong_lifetime() {
    let client = client::<Expiring>();
    let err = client.interpret_token_response(RESPONSE_BEARER_REFRESH).unwrap_err();
    assert!(match err {
        ClientError::Parse(..) => true,
        _ => false,
    });
}

#[test]
fn request_token_bearer_refresh_wrong_lifetime() {
    let client = client::<Refresh>();
    let err = client.interpret_token_response(RESPONSE_BEARER_STATIC).unwrap_err();
    assert!(match err {
        ClientError::Parse(..) => true,
        _ => false,
    });
}

#[test]
fn request_token_invalid_request() {
    let client = client::<Static>();
    let err = client.interpret_token_response(RESPONSE_INVALID_REQUEST).unwrap_err();
    assert!(match err {
        ClientError::OAuth2(err) => {
            assert_eq!(OAuth2ErrorCode::InvalidRequest, err.code);
            assert_eq!("example", err.description.unwrap());
            assert_eq!("https://example.com/error", err.uri.unwrap());
            true
        },
        _ => false,
    });
}

#[test]
fn refresh_token_invalid_request() {
    let client = client::<Refresh>();
    let token = client.interpret_token_response(RESPONSE_BEARER_REFRESH).unwrap();
    let err = client.interpret_refresh_response(RESPONSE_INVALID_REQUEST, &token).unwrap_err();
    assert!(match err {
        ClientError::OAuth2(err) => {
            assert_eq!(OAuth2ErrorCode::InvalidRequest, err.code);
            assert_eq!("example", err.description.unwrap());
            assert_eq!("https://example.com/error", err.uri.unwrap());
            true
        },
        _ => false,
    });
}

#[test]
fn client_error_message() {
    let client = client::<Static>();
    let err = client.interpret_token_response(RESPONSE_BEARER_REFRESH).unwrap_err();
    assert_eq!("Unexpected field expires_in", err.message());
    let err = client.interpret_token_response(RESPONSE_INVALID_REQUEST).unwrap_err();
    assert_eq!(
        "invalid_request: example (https://example.com/error)",
        err.message()
    );
}

#[test]
fn request_token_invalid_json() {
    let client = client::<Static>();
    let err = client.interpret_token_response("not json").unwrap_err();
    assert!(match err {
        ClientError::Json(..) => true,
        _ => false,
    });
}

#[test]
fn token_request_credentials_in_body() {
    let mut provider = Custom::<Static>::new(
        String::from("https://example.com/oauth/auth"),
        String::from("https://example.com/oauth/token"),
    );
    provider.credentials_in_body = true;
    let client = Client::new(
        provider,
        String::from("client_id"),
        String::from("client_secret"),
        None,
    );
    let request = client.token_request("code");
    assert_eq!(
        "grant_type=authorization_code&code=code&client_id=client_id&client_secret=client_secret",
        request.body
    );
}

#[test]
fn token_request_with_redirect_uri() {
    let mut client = client::<Static>();
    client.redirect_uri = Some(String::from("urn:ietf:wg:oauth:2.0:oob"));
    let request = client.token_request("code");
    assert_eq!(
        "grant_type=authorization_code&code=code&redirect_uri=urn%3Aietf%3Awg%3Aoauth%3A2.0%3Aoob",
        request.body
    );
}

#[test]
fn ensure_token_keeps_valid_token() {
    let client = client::<Refresh>();
    let token = Bearer {
        access_token: String::from("aaaaaaaa"),
        scope: None,
        lifetime: Refresh {
            refresh_token: String::from("bbbbbbbb"),
            expires: Utc::now().timestamp() + 3600,
        },
    };
    match client.ensure_token_action(token) {
        EnsureAction::Keep(kept) => {
            assert_eq!("aaaaaaaa", kept.access_token);
            assert_eq!("bbbbbbbb", kept.lifetime.refresh_token());
        },
        EnsureAction::Refresh(..) => panic!("a valid token must be kept"),
    }
}

#[test]
fn ensure_token_refreshes_expired_token() {
    let client = client::<Refresh>();
    let token = Bearer {
        access_token: String::from("aaaaaaaa"),
        scope: None,
        lifetime: Refresh {
            refresh_token: String::from("bbbbbbbb"),
            expires: Utc::now().timestamp() - 3600,
        },
    };
    match client.ensure_token_action(token) {
        EnsureAction::Keep(..) => panic!("an expired token must be refreshed"),
        EnsureAction::Refresh(request, prev) => {
            assert_eq!("https://example.com/oauth/token", request.url);
            assert_eq!("grant_type=refresh_token&refresh_token=bbbbbbbb", request.body);
            let token = client.interpret_refresh_response(RESPONSE_REFRESH_PARTIAL, &prev).unwrap();
            assert_eq!("cccccccc", token.access_token());
            assert_eq!("bbbbbbbb", token.lifetime().refresh_token());
        },
    }
}
