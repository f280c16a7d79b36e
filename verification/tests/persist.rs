use inth_oauth2::token::{Bearer, Expiring, Persist, Refresh, Static};

#[test]
fn static_round_trip() {
    let persisted = Static.to_persisted();
    assert_eq!(Static, Static::from_persisted(&persisted).unwrap());
}

#[test]
fn expiring_round_trip() {
    let lifetime = Expiring { expires: 1234567890 };
    let persisted = lifetime.to_persisted();
    assert_eq!(lifetime, Expiring::from_persisted(&persisted).unwrap());
}

#[test]
fn refresh_round_trip() {
    let lifetime = Refresh {
        refresh_token: String::from("bbbbbbbb"),
        expires: 1234567890,
    };
    let persisted = lifetime.to_persisted();
    assert_eq!(lifetime, Refresh::from_persisted(&persisted).unwrap());
}

#[test]
fn bearer_static_round_trip() {
    let token = Bearer {
        access_token: String::from("aaaaaaaa"),
        scope: None,
        lifetime: Static,
    };
    let persisted = token.to_persisted();
    assert_eq!(token, Bearer::<Static>::from_persisted(&persisted).unwrap());
}

#[test]
fn bearer_expiring_round_trip() {
    let token = Bearer {
        access_token: String::from("aaaaaaaa"),
        scope: Some(String::from("example")),
        lifetime: Expiring { expires: 1234567890 },
    };
    let persisted = token.to_persisted();
    assert_eq!(token, Bearer::<Expiring>::from_persisted(&persisted).unwrap());
}

#[test]
fn bearer_refresh_round_trip() {
    let token = Bearer {
        access_token: String::from("aaaaaaaa"),
        scope: Some(String::from("example")),
        lifetime: Refresh {
            refresh_token: String::from("bbbbbbbb"),
            expires: 1234567890,
        },
    };
    let persisted = token.to_persisted();
    assert_eq!(token, Bearer::<Refresh>::from_persisted(&persisted).unwrap());
}
