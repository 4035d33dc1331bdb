use twitch_oauth2::{
    AccessToken, ClientId, ClientSecret, CsrfToken, ImplicitUserTokenBuilder,
    ImplicitUserTokenExchangeError, Lifetime, RefreshToken, Scope, TwitchTokenResponse, UserId,
    UserName, UserToken, UserTokenBuilder, UserTokenExchangeError, ValidatedToken,
    ValidationError, TOKEN_URL,
};

fn s(v: &str) -> String {
    v.to_string()
}

fn code_builder(redirect: &str) -> UserTokenBuilder {
    UserTokenBuilder::new(
        ClientId::new(s("random_client")),
        ClientSecret::new(s("random_secret")),
        s(redirect),
    )
}

#[test]
fn generate_url() {
    let redirect = url::Url::parse("https://localhost").unwrap();
    let url = UserTokenBuilder::new(
        ClientId::new(s("random_client")),
        ClientSecret::new(s("random_secret")),
        redirect.as_str().to_string(),
    )
    .force_verify(true)
    .generate_url();
    url::Url::parse(&url).unwrap();
}

#[test]
fn code_flow_url_scenario() {
    let mut b = code_builder("https://app.example/cb")
        .set_scopes(vec![Scope::new(s("read:x")), Scope::new(s("write:y"))])
        .force_verify(true);
    let csrf = b.csrf().unwrap().secret().to_string();
    assert_eq!(csrf.len(), 32);
    assert!(csrf.chars().all(|c| c.is_ascii_alphanumeric()));
    let url = b.generate_url();
    assert_eq!(
        url,
        format!(
            "https://id.twitch.tv/oauth2/authorize?response_type=code&client_id=random_client\
             &redirect_uri=https%3A%2F%2Fapp.example%2Fcb&state={}&scope=read%3Ax+write%3Ay\
             &force_verify=true",
            csrf
        )
    );
    let parsed = url::Url::parse(&url).unwrap();
    let pairs: Vec<(String, String)> = parsed.query_pairs().into_owned().collect();
    assert!(pairs.contains(&(s("scope"), s("read:x write:y"))));
    assert!(pairs.contains(&(s("force_verify"), s("true"))));
    assert!(pairs.contains(&(s("state"), csrf.clone())));
    assert!(b.csrf_is_valid(&csrf));
}

#[test]
fn code_flow_url_without_csrf_scopes_or_force_verify() {
    let mut b = code_builder("https://app.example/cb").set_csrf(None);
    assert_eq!(
        b.generate_url(),
        "https://id.twitch.tv/oauth2/authorize?response_type=code&client_id=random_client\
         &redirect_uri=https%3A%2F%2Fapp.example%2Fcb"
    );
}

#[test]
fn code_flow_add_scope() {
    let mut b = code_builder("https://app.example/cb")
        .set_csrf(Some(CsrfToken::new(s("abc"))))
        .add_scope(Scope::new(s("chat:read")));
    let url = b.generate_url();
    assert!(url.ends_with("&state=abc&scope=chat%3Aread"));
}

#[test]
fn code_flow_csrf_check() {
    let b = code_builder("https://localhost/").set_csrf(Some(CsrfToken::new(s("random"))));
    assert!(b.csrf_is_valid("random"));
    assert!(!b.csrf_is_valid("Random"));
    assert!(!b.csrf_is_valid(""));
    let b = b.set_csrf(None);
    assert!(b.csrf_is_valid("anything"));
    assert!(b.csrf_is_valid(""));
}

#[test]
fn code_flow_fresh_nonces_differ() {
    let a = code_builder("https://localhost/");
    let b = code_builder("https://localhost/");
    assert_ne!(a.csrf().unwrap().secret(), b.csrf().unwrap().secret());
}

#[test]
fn exchange_with_wrong_state_fails() {
    let b = code_builder("https://localhost/").set_csrf(Some(CsrfToken::new(s("random"))));
    let r = b.get_user_token("other", "authcode");
    assert_eq!(r.err(), Some(UserTokenExchangeError::StateMismatch));
}

#[test]
fn exchange_request_and_finish() {
    let b = code_builder("https://localhost/").set_csrf(Some(CsrfToken::new(s("random"))));
    let direct = b.get_user_token_request("authcode");
    assert_eq!(direct.url, TOKEN_URL);
    let ex = b.get_user_token("random", "authcode").ok().unwrap();
    assert_eq!(ex.request.url, TOKEN_URL);
    assert_eq!(ex.request.params, direct.params);
    assert_eq!(
        ex.request.body(),
        "client_id=random_client&client_secret=random_secret&code=authcode\
         &grant_type=authorization_code&redirect_uri=https%3A%2F%2Flocalhost%2F"
    );
    let response = TwitchTokenResponse {
        access_token: AccessToken::new(s("AT1")),
        expires_in: Some(100),
        refresh_token: Some(RefreshToken::new(s("RT1"))),
        scopes: None,
        token_type: s("bearer"),
    };
    let validated = ValidatedToken {
        client_id: ClientId::new(s("random_client")),
        login: Some(UserName::new(s("u"))),
        user_id: Some(UserId::new(s("42"))),
        scopes: None,
        expires_in: Some(Lifetime::from_secs(100)),
    };
    let t = ex.finish(response, validated).ok().unwrap();
    assert_eq!(t.token().secret(), "AT1");
    assert!(t.scopes().is_empty());
    assert!(t.refresh_token_request().is_ok());
}

#[test]
fn exchange_finish_without_login_fails() {
    let b = code_builder("https://localhost/").set_csrf(None);
    let ex = b.get_user_token("whatever", "authcode").ok().unwrap();
    let response = TwitchTokenResponse {
        access_token: AccessToken::new(s("AT1")),
        expires_in: None,
        refresh_token: None,
        scopes: None,
        token_type: s("bearer"),
    };
    let validated = ValidatedToken {
        client_id: ClientId::new(s("random_client")),
        login: None,
        user_id: None,
        scopes: None,
        expires_in: None,
    };
    assert_eq!(
        ex.finish(response, validated).err(),
        Some(UserTokenExchangeError::Validation(ValidationError::NoLogin))
    );
}

#[test]
fn builder_shortcut() {
    let b = UserToken::builder(
        ClientId::new(s("c")),
        ClientSecret::new(s("x")),
        s("https://localhost/"),
    );
    assert!(b.csrf().is_some());
}

#[test]
fn implicit_flow_csrf_fails_closed() {
    let mut b = ImplicitUserTokenBuilder::new(ClientId::new(s("cid")), s("http://localhost/twitch/register"));
    assert!(!b.csrf_is_valid(""));
    assert!(!b.csrf_is_valid("random"));
    let (url, csrf) = b.generate_url();
    assert_eq!(
        url,
        format!(
            "https://id.twitch.tv/oauth2/authorize?response_type=token&client_id=cid\
             &redirect_uri=http%3A%2F%2Flocalhost%2Ftwitch%2Fregister&state={}",
            csrf.secret()
        )
    );
    assert!(b.csrf_is_valid(csrf.secret()));
    assert!(!b.csrf_is_valid("random"));
    let (_, second) = b.generate_url();
    assert!(b.csrf_is_valid(second.secret()));
    assert!(!b.csrf_is_valid(csrf.secret()));
}

#[test]
fn implicit_flow_url_with_scopes() {
    let mut b = ImplicitUserTokenBuilder::new(ClientId::new(s("cid")), s("https://a.b/"))
        .set_scopes(vec![Scope::new(s("a:b"))])
        .force_verify(true);
    b.add_scope(Scope::new(s("c")));
    let (url, csrf) = b.generate_url();
    assert!(url.ends_with(&format!("&state={}&scope=a%3Ab+c&force_verify=true", csrf.secret())));
}

#[test]
fn implicit_exchange_outcomes() {
    let mut b = ImplicitUserTokenBuilder::new(ClientId::new(s("cid")), s("https://a.b/"));
    let (_, csrf) = b.generate_url();
    let state = csrf.secret().to_string();
    let t = b.get_user_token(Some(&state), Some("authcode"), None, None).ok().unwrap();
    assert_eq!(t.secret(), "authcode");

    let mut b = ImplicitUserTokenBuilder::new(ClientId::new(s("cid")), s("https://a.b/"));
    let (_, csrf) = b.generate_url();
    let state = csrf.secret().to_string();
    let r = b.get_user_token(Some(&state), None, Some("access_denied"), Some("no"));
    assert_eq!(
        r.err(),
        Some(ImplicitUserTokenExchangeError::TwitchError {
            error: Some(s("access_denied")),
            description: Some(s("no")),
        })
    );

    let mut b = ImplicitUserTokenBuilder::new(ClientId::new(s("cid")), s("https://a.b/"));
    let (_, csrf) = b.generate_url();
    let state = csrf.secret().to_string();
    let r = b.get_user_token(Some(&state), Some("tok"), Some("err"), None);
    assert_eq!(
        r.err(),
        Some(ImplicitUserTokenExchangeError::TwitchError { error: Some(s("err")), description: None })
    );
}

#[test]
fn implicit_exchange_state_mismatch() {
    let b = ImplicitUserTokenBuilder::new(ClientId::new(s("cid")), s("https://a.b/"));
    let r = b.get_user_token(Some("random"), Some("authcode"), None, None);
    assert_eq!(r.err(), Some(ImplicitUserTokenExchangeError::StateMismatch));

    let mut b = ImplicitUserTokenBuilder::new(ClientId::new(s("cid")), s("https://a.b/"));
    b.generate_url();
    let r = b.get_user_token(None, Some("authcode"), None, None);
    assert_eq!(r.err(), Some(ImplicitUserTokenExchangeError::StateMismatch));
}
