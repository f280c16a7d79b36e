use inth_oauth2::provider::google;
use inth_oauth2::provider::Custom;
use inth_oauth2::provider::GitHub;
use inth_oauth2::token::Static;
use inth_oauth2::{Client, ClientError};

fn test_provider() -> Custom<Static> {
    Custom::new(
        String::from("http://example.com/oauth2/auth"),
        String::from("http://example.com/oauth2/token"),
    )
}

#[test]
fn auth_uri() {
    let client = Client::new(
        test_provider(),
        String::from("foo"),
        String::from("bar"),
        None,
    );
    assert_eq!(
        "http://example.com/oauth2/auth?response_type=code&client_id=foo",
        client.auth_uri(None, None).unwrap()
    );
}

#[test]
fn auth_uri_with_redirect_uri() {
    let client = Client::new(
        test_provider(),
        String::from("foo"),
        String::from("bar"),
        Some(String::from("http://example.com/oauth2/callback")),
    );
    assert_eq!(
        "http://example.com/oauth2/auth?response_type=code&client_id=foo&redirect_uri=http%3A%2F%2Fexample.com%2Foauth2%2Fcallback",
        client.auth_uri(None, None).unwrap()
    );
}

#[test]
fn auth_uri_with_scope() {
    let client = Client::new(
        test_provider(),
        String::from("foo"),
        String::from("bar"),
        None,
    );
    assert_eq!(
        "http://example.com/oauth2/auth?response_type=code&client_id=foo&scope=baz",
        client.auth_uri(Some("baz"), None).unwrap()
    );
}

#[test]
fn auth_uri_with_state() {
    let client = Client::new(
        test_provider(),
        String::from("foo"),
        String::from("bar"),
        None,
    );
    assert_eq!(
        "http://example.com/oauth2/auth?response_type=code&client_id=foo&state=baz",
        client.auth_uri(None, Some("baz")).unwrap()
    );
}

#[test]
fn auth_uri_encodes_space_as_plus() {
    let client = Client::new(
        test_provider(),
        String::from("foo"),
        String::from("bar"),
        None,
    );
    assert_eq!(
        "http://example.com/oauth2/auth?response_type=code&client_id=foo&scope=a+b",
        client.auth_uri(Some("a b"), None).unwrap()
    );
}

#[test]
fn google_installed_auth_uri() {
    let client = Client::new(
        google::Installed,
        String::from("143225766783-ip2d9qv6sdr37276t77luk6f7bhd6bj5.apps.googleusercontent.com"),
        String::new(),
        Some(String::from("urn:ietf:wg:oauth:2.0:oob")),
    );
    let auth_uri = client
        .auth_uri(
            Some("https://www.googleapis.com/auth/userinfo.email"),
            Some("state"),
        )
        .unwrap();
    assert_eq!(
        "https://accounts.google.com/o/oauth2/v2/auth?response_type=code&client_id=143225766783-ip2d9qv6sdr37276t77luk6f7bhd6bj5.apps.googleusercontent.com&redirect_uri=urn%3Aietf%3Awg%3Aoauth%3A2.0%3Aoob&scope=https%3A%2F%2Fwww.googleapis.com%2Fauth%2Fuserinfo.email&state=state",
        auth_uri
    );
}

#[test]
fn github_auth_uri() {
    let client = Client::new(
        GitHub,
        String::from("01774654cd9a6051e478"),
        String::new(),
        Some(String::from("https://cmcenroe.me/oauth2-paste/")),
    );
    let auth_uri = client.auth_uri(Some("user"), Some("state")).unwrap();
    assert_eq!(
        "https://github.com/login/oauth/authorize?response_type=code&client_id=01774654cd9a6051e478&redirect_uri=https%3A%2F%2Fcmcenroe.me%2Foauth2-paste%2F&scope=user&state=state",
        auth_uri
    );
}

#[test]
fn auth_uri_with_malformed_endpoint() {
    let client = Client::new(
        Custom::<Static>::new(String::from("not a uri"), String::from("also not")),
        String::from("foo"),
        String::from("bar"),
        None,
    );
    assert!(matches!(
        client.auth_uri(None, None).unwrap_err(),
        ClientError::Url(_)
    ));
}
