use twitch_oauth2::{
    AccessToken, BearerTokenType, ClientId, ClientSecret, CreationInstant, Lifetime, RefreshToken,
    RefreshTokenError, Scope, TwitchTokenResponse, UserId, UserName, UserToken, ValidatedToken,
    ValidationError, TOKEN_URL,
};

fn s(v: &str) -> String {
    v.to_string()
}

fn validated(login: Option<&str>, user_id: Option<&str>, expires_in: Option<u64>) -> ValidatedToken {
    ValidatedToken {
        client_id: ClientId::new(s("C1")),
        login: login.map(|l| UserName::new(s(l))),
        user_id: user_id.map(|u| UserId::new(s(u))),
        scopes: Some(vec![Scope::new(s("s1"))]),
        expires_in: expires_in.map(Lifetime::from_secs),
    }
}

fn response(access: &str, refresh: Option<&str>, expires_in: Option<u64>) -> TwitchTokenResponse {
    TwitchTokenResponse {
        access_token: AccessToken::new(s(access)),
        expires_in,
        refresh_token: refresh.map(|r| RefreshToken::new(s(r))),
        scopes: Some(vec![Scope::new(s("s1"))]),
        token_type: s("bearer"),
    }
}

fn unchecked(secret: Option<&str>, refresh: Option<&str>, expires_in: Option<u64>) -> UserToken {
    UserToken::from_existing_unchecked(
        AccessToken::new(s("AT1")),
        refresh.map(|r| RefreshToken::new(s(r))),
        ClientId::new(s("C1")),
        secret.map(|c| ClientSecret::new(s(c))),
        UserName::new(s("u")),
        UserId::new(s("42")),
        Some(vec![Scope::new(s("s1"))]),
        expires_in.map(Lifetime::from_secs),
    )
}

#[test]
fn from_validated_and_token() {
    let validated = ValidatedToken {
        client_id: ClientId::new(s("wbmytr93xzw8zbg0p1izqyzzc5mbiz")),
        login: Some(UserName::new(s("twitchdev"))),
        user_id: Some(UserId::new(s("141981764"))),
        scopes: Some(vec![Scope::new(s("channel:read:subscriptions"))]),
        expires_in: Some(Lifetime::from_secs(5520838)),
    };
    let response = TwitchTokenResponse {
        access_token: AccessToken::new(s("rfx2uswqe8l4g1mkagrvg5tv0ks3")),
        expires_in: Some(14124),
        refresh_token: Some(RefreshToken::new(s(
            "5b93chm6hdve3mycz05zfzatkfdenfspp1h1ar2xxdalen01",
        ))),
        scopes: Some(vec![Scope::new(s("channel:read:subscriptions"))]),
        token_type: s("bearer"),
    };
    UserToken::from_response(response, validated, None).unwrap();
}

#[test]
fn round_trip_from_response() {
    let t = UserToken::from_response(
        response("AT1", Some("RT1"), Some(100)),
        validated(Some("u"), Some("42"), Some(100)),
        None,
    )
    .unwrap();
    assert_eq!(t.token().secret(), "AT1");
    assert_eq!(t.refresh_token.as_ref().unwrap().secret(), "RT1");
    assert_eq!(t.login().unwrap().as_str(), "u");
    assert_eq!(t.user_id().unwrap().as_str(), "42");
    assert_eq!(t.scopes().len(), 1);
    assert_eq!(t.scopes()[0].as_str(), "s1");
    assert_eq!(t.client_id().as_str(), "C1");
    assert!(!t.never_expires());
    assert!(t.expires_in().as_secs() <= 100);
}

#[test]
fn round_trip_takes_response_scopes_when_validation_has_none() {
    let mut v = validated(Some("u"), Some("42"), Some(100));
    v.scopes = None;
    let t = UserToken::from_response(response("AT1", Some("RT1"), Some(100)), v, None).unwrap();
    assert_eq!(t.token().secret(), "AT1");
    assert_eq!(t.refresh_token.as_ref().unwrap().secret(), "RT1");
    assert_eq!(t.login().unwrap().as_str(), "u");
    assert_eq!(t.user_id().unwrap().as_str(), "42");
    assert_eq!(t.scopes().len(), 1);
    assert_eq!(t.scopes()[0].as_str(), "s1");
}

#[test]
fn round_trip_prefers_validation_scopes() {
    let mut v = validated(Some("u"), Some("42"), Some(100));
    v.scopes = Some(vec![Scope::new(s("v1")), Scope::new(s("v2"))]);
    let t = UserToken::from_response(response("AT1", None, Some(100)), v, None).unwrap();
    assert_eq!(t.scopes().len(), 2);
    assert_eq!(t.scopes()[0].as_str(), "v1");
    assert_eq!(t.scopes()[1].as_str(), "v2");
}

#[test]
fn validation_without_login_fails() {
    let r = UserToken::new(
        AccessToken::new(s("AT1")),
        None,
        validated(None, Some("42"), Some(100)),
        None,
    );
    assert_eq!(r.err(), Some(ValidationError::NoLogin));
    let r = UserToken::new(
        AccessToken::new(s("AT1")),
        None,
        validated(Some("u"), None, Some(100)),
        None,
    );
    assert_eq!(r.err(), Some(ValidationError::NoLogin));
}

#[test]
fn validation_without_lifetime_never_expires() {
    let t = UserToken::new(
        AccessToken::new(s("AT1")),
        None,
        validated(Some("u"), Some("42"), None),
        None,
    )
    .unwrap();
    assert!(t.never_expires());
    assert_eq!(t.expires_in(), Lifetime::max_value());
}

#[test]
fn remaining_lifetime_decreases_to_zero() {
    let t = unchecked(None, None, Some(100));
    let r10 = t.expires_in_after(&Lifetime::from_secs(10));
    let r60 = t.expires_in_after(&Lifetime::from_secs(60));
    let r200 = t.expires_in_after(&Lifetime::from_secs(200));
    assert_eq!(r10, Lifetime::from_secs(90));
    assert_eq!(r60, Lifetime::from_secs(40));
    assert!(r60.as_nanos() <= r10.as_nanos());
    assert_eq!(r200, Lifetime::zero());
    assert_eq!(t.expires_in_after(&Lifetime::from_parts(99, 500_000_000)).as_nanos(), 500_000_000);
    assert!(t.expires_in().as_secs() <= 100);
}

#[test]
fn never_expiring_reports_maximum() {
    let t = unchecked(None, None, None);
    assert!(t.never_expires());
    assert_eq!(t.expires_in_after(&Lifetime::zero()), Lifetime::max_value());
    assert_eq!(t.expires_in_after(&Lifetime::from_secs(1_000_000)), Lifetime::max_value());
    assert_eq!(t.expires_in(), Lifetime::max_value());
    assert_eq!(Lifetime::max_value().as_secs(), u64::MAX);
    assert_eq!(Lifetime::max_value().subsec_nanos(), 999_999_999);
}

#[test]
fn refresh_without_secret_fails() {
    let t = unchecked(None, Some("RT1"), Some(100));
    assert_eq!(t.refresh_token_request().err(), Some(RefreshTokenError::NoClientSecretFound));
}

#[test]
fn refresh_without_refresh_token_fails() {
    let t = unchecked(Some("sec"), None, Some(100));
    assert_eq!(t.refresh_token_request().err(), Some(RefreshTokenError::NoRefreshToken));
}

#[test]
fn refresh_replaces_token_and_lifetime() {
    let mut t = unchecked(Some("sec"), Some("RT1"), Some(100));
    let req = t.refresh_token_request().ok().unwrap();
    assert_eq!(req.url, TOKEN_URL);
    assert_eq!(
        req.params,
        vec![
            (s("grant_type"), s("refresh_token")),
            (s("refresh_token"), s("RT1")),
            (s("client_id"), s("C1")),
            (s("client_secret"), s("sec")),
        ]
    );
    assert_eq!(
        req.body(),
        "grant_type=refresh_token&refresh_token=RT1&client_id=C1&client_secret=sec"
    );
    t.apply_refresh_at(response("AT2", None, Some(50)), CreationInstant::now());
    assert_eq!(t.token().secret(), "AT2");
    assert!(t.refresh_token.is_none());
    assert_eq!(t.expires_in_after(&Lifetime::zero()), Lifetime::from_secs(50));
    assert!(t.expires_in().as_secs() <= 50);
    assert!(!t.never_expires());
    assert_eq!(t.login.as_str(), "u");
    assert_eq!(t.user_id.as_str(), "42");
    assert_eq!(t.scopes()[0].as_str(), "s1");
    assert_eq!(t.scopes().len(), 1);
    assert_eq!(t.refresh_token_request().err(), Some(RefreshTokenError::NoRefreshToken));
}

#[test]
fn set_secret_enables_refresh() {
    let mut t = unchecked(None, Some("RT1"), Some(100));
    t.set_secret(Some(ClientSecret::new(s("sec"))));
    assert!(t.refresh_token_request().is_ok());
    t.set_secret(None);
    assert_eq!(t.refresh_token_request().err(), Some(RefreshTokenError::NoClientSecretFound));
}

#[test]
fn mock_token_request_fields() {
    let req = UserToken::mock_token_request(
        "http://localhost:8080/auth/authorize",
        &ClientId::new(s("mockclient")),
        &ClientSecret::new(s("mocksecret")),
        "1234",
        &vec![Scope::new(s("user:read:email")), Scope::new(s("chat:read"))],
    );
    assert_eq!(req.url, "http://localhost:8080/auth/authorize");
    assert_eq!(
        req.body(),
        "client_id=mockclient&client_secret=mocksecret&grant_type=user_token\
         &scope=user%3Aread%3Aemail+chat%3Aread&user_id=1234"
    );
}

#[test]
fn token_type_is_user() {
    assert_eq!(UserToken::token_type(), BearerTokenType::UserToken);
}

#[test]
fn lifetime_parts() {
    let l = Lifetime::from_parts(3, 250);
    assert_eq!(l.as_secs(), 3);
    assert_eq!(l.subsec_nanos(), 250);
    assert_eq!(l.as_nanos(), 3_000_000_250);
    assert_eq!(l.saturating_sub(&Lifetime::from_secs(1)).as_nanos(), 2_000_000_250);
    assert_eq!(Lifetime::from_secs(1).saturating_sub(&l), Lifetime::zero());
}
