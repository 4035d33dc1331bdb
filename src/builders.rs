//! The authorization-code flow (confidential clients) and the implicit flow
//! (public clients), each with its CSRF protection.
use vstd::prelude::*;
use crate::form::{build_url, pair, pairs_view, url_with_query, Pairs, TokenRequest};
use crate::secrets::{
    is_alphanumeric, join_scopes, scopes_joined, AccessToken, ClientId, ClientSecret, CsrfToken,
    Scope, CSRF_LEN,
};
use crate::user_token::{
    from_validation, names_owner, TwitchTokenResponse, UserToken, ValidatedToken,
    ValidationError, TOKEN_URL, with_response_scopes,
};

verus! {

/// The provider's authorization endpoint, where the user is sent for consent.
pub const AUTH_URL: &'static str = "https://id.twitch.tv/oauth2/authorize";

/// Why an authorization-code exchange failed.
#[derive(Clone, Copy, Debug, PartialEq, Eq, Structural)]
pub enum UserTokenExchangeError {
    /// The `state` returned by the redirect is not the builder's CSRF nonce.
    StateMismatch,
    /// The token obtained could not be validated.
    Validation(ValidationError),
}

/// Why an implicit-flow exchange failed.
#[derive(Clone, Debug, PartialEq, Eq)]
pub enum ImplicitUserTokenExchangeError {
    /// The `state` returned by the redirect is absent or not the builder's
    /// CSRF nonce.
    StateMismatch,
    /// The provider reported an error instead of a token.
    TwitchError {
        /// The error code.
        error: Option<String>,
        /// Its description.
        description: Option<String>,
    },
    /// The token obtained could not be validated.
    Validation(ValidationError),
}

/// The characters of an optional string.
pub open spec fn opt_view(o: Option<String>) -> Option<Seq<char>> {
    match o {
        Some(s) => Some(s@),
        None => None,
    }
}

/// The characters of an optional borrowed string.
pub open spec fn opt_str_view(o: Option<&str>) -> Option<Seq<char>> {
    match o {
        Some(s) => Some(s@),
        None => None,
    }
}

/// The characters of an optional CSRF nonce.
pub open spec fn csrf_view(o: Option<CsrfToken>) -> Option<Seq<char>> {
    match o {
        Some(c) => Some(c@),
        None => None,
    }
}

/// A nonce as `CsrfToken::new_random` makes it.
pub open spec fn is_fresh_nonce(c: Seq<char>) -> bool {
    c.len() == CSRF_LEN && forall|i: int| 0 <= i < CSRF_LEN ==> is_alphanumeric(#[trigger] c[i])
}

/// The query of an authorization URL: response type, client, redirect, then
/// the state, the space-joined scopes and `force_verify` where they apply.
pub open spec fn authorize_query(
    response_type: Seq<char>,
    client_id: Seq<char>,
    redirect_url: Seq<char>,
    state: Option<Seq<char>>,
    scopes: Seq<Scope>,
    force_verify: bool,
) -> Pairs {
    seq![
        ("response_type"@, response_type),
        ("client_id"@, client_id),
        ("redirect_uri"@, redirect_url),
    ] + match state {
        Some(s) => seq![("state"@, s)],
        None => Seq::empty(),
    } + if scopes.len() > 0 {
        seq![("scope"@, scopes_joined(scopes))]
    } else {
        Seq::empty()
    } + if force_verify {
        seq![("force_verify"@, "true"@)]
    } else {
        Seq::empty()
    }
}

/// The query pairs of an authorization URL, in order.
fn authorize_pairs(
    response_type: &str,
    client_id: &ClientId,
    redirect_url: &str,
    state: Option<&CsrfToken>,
    scopes: &Vec<Scope>,
    force_verify: bool,
) -> (r: Vec<(String, String)>)
    ensures
        pairs_view(r@) == authorize_query(
            response_type@,
            client_id@,
            redirect_url@,
            match state {
                Some(c) => Some(c@),
                None => None,
            },
            scopes@,
            force_verify,
        ),
{
    let mut r: Vec<(String, String)> = Vec::new();
    r.push(pair("response_type", response_type));
    r.push(pair("client_id", client_id.as_str()));
    r.push(pair("redirect_uri", redirect_url));
    if let Some(c) = state {
        r.push(pair("state", c.secret()));
    }
    if scopes.len() > 0 {
        let joined = join_scopes(scopes.as_slice());
        r.push(pair("scope", joined.as_str()));
    }
    if force_verify {
        r.push(pair("force_verify", "true"));
    }
    assert(pairs_view(r@) =~= authorize_query(
        response_type@,
        client_id@,
        redirect_url@,
        match state {
            Some(c) => Some(c@),
            None => None,
        },
        scopes@,
        force_verify,
    ));
    r
}

/// The authorization-code flow's CSRF check: the stored nonce must match
/// exactly, and without one every value passes.
pub open spec fn code_flow_csrf_valid(stored: Option<Seq<char>>, given: Seq<char>) -> bool {
    match stored {
        Some(s) => s == given,
        None => true,
    }
}

/// The implicit flow's CSRF check: the stored nonce must match exactly, and
/// without one no value passes.
pub open spec fn implicit_flow_csrf_valid(stored: Option<Seq<char>>, given: Seq<char>) -> bool {
    match stored {
        Some(s) => s == given,
        None => false,
    }
}

/// The form fields that exchange an authorization code for a token.
pub open spec fn code_exchange_params(
    client_id: Seq<char>,
    client_secret: Seq<char>,
    code: Seq<char>,
    redirect_url: Seq<char>,
) -> Pairs {
    seq![
        ("client_id"@, client_id),
        ("client_secret"@, client_secret),
        ("code"@, code),
        ("grant_type"@, "authorization_code"@),
        ("redirect_uri"@, redirect_url),
    ]
}

/// The state of an authorization-code builder, as the contracts speak of it.
pub ghost struct CodeFlowView {
    pub scopes: Seq<Scope>,
    pub csrf: Option<Seq<char>>,
    pub force_verify: bool,
    pub redirect_url: Seq<char>,
    pub client_id: Seq<char>,
    pub client_secret: Seq<char>,
}

/// Builder for the authorization-code flow, for clients that hold a secret.
///
/// First `generate_url` gives the URL to send the user to; then
/// `get_user_token` checks the `state` the redirect brought back and gives
/// the request that exchanges the code, consuming the builder.
pub struct UserTokenBuilder {
    scopes: Vec<Scope>,
    csrf: Option<CsrfToken>,
    force_verify: bool,
    redirect_url: String,
    client_id: ClientId,
    client_secret: ClientSecret,
}

impl View for UserTokenBuilder {
    type V = CodeFlowView;

    closed spec fn view(&self) -> CodeFlowView {
        CodeFlowView {
            scopes: self.scopes@,
            csrf: csrf_view(self.csrf),
            force_verify: self.force_verify,
            redirect_url: self.redirect_url@,
            client_id: self.client_id@,
            client_secret: self.client_secret@,
        }
    }
}

/// An authorization-code exchange whose CSRF check passed: the request to
/// send to the token endpoint, and the secret the resulting token keeps.
pub struct CodeExchange {
    /// The token request.
    pub request: TokenRequest,
    /// The client secret, kept by the token for later refreshes.
    pub client_secret: ClientSecret,
}

impl UserTokenBuilder {
    /// A builder with no scopes, no forced re-consent and a fresh CSRF nonce.
    /// `redirect_url` is the serialized URL the provider redirects back to.
    pub fn new(client_id: ClientId, client_secret: ClientSecret, redirect_url: String) -> (r:
        UserTokenBuilder)
        ensures
            r@.scopes.len() == 0,
            r@.csrf is Some && is_fresh_nonce(r@.csrf.unwrap()),
            !r@.force_verify,
            r@.redirect_url == redirect_url@,
            r@.client_id == client_id@,
            r@.client_secret == client_secret@,
    {
        UserTokenBuilder {
            scopes: Vec::new(),
            csrf: Some(CsrfToken::new_random()),
            force_verify: false,
            redirect_url,
            client_id,
            client_secret,
        }
    }

    /// Replaces the scopes to request.
    pub fn set_scopes(self, scopes: Vec<Scope>) -> (r: UserTokenBuilder)
        ensures
            r@ == (CodeFlowView { scopes: scopes@, ..self@ }),
    {
        let mut b = self;
        b.scopes = scopes;
        b
    }

    /// Adds one scope to request.
    pub fn add_scope(self, scope: Scope) -> (r: UserTokenBuilder)
        ensures
            r@ == (CodeFlowView { scopes: self@.scopes.push(scope), ..self@ }),
    {
        let mut b = self;
        b.scopes.push(scope);
        b
    }

    /// Whether the user is asked to consent again, even if already authorized.
    pub fn force_verify(self, b: bool) -> (r: UserTokenBuilder)
        ensures
            r@ == (CodeFlowView { force_verify: b, ..self@ }),
    {
        let mut s = self;
        s.force_verify = b;
        s
    }

    /// Replaces the CSRF nonce; `None` turns the check off.
    pub fn set_csrf(self, csrf: Option<CsrfToken>) -> (r: UserTokenBuilder)
        ensures
            r@ == (CodeFlowView { csrf: csrf_view(csrf), ..self@ }),
    {
        let mut s = self;
        s.csrf = csrf;
        s
    }

    /// The CSRF nonce, if the check is on.
    pub fn csrf(&self) -> (r: Option<&CsrfToken>)
        ensures
            match r {
                Some(c) => self@.csrf == Some(c@),
                None => self@.csrf is None,
            },
    {
        match &self.csrf {
            Some(c) => Some(c),
            None => None,
        }
    }

    /// The URL to send the user to for consent.
    pub fn generate_url(&mut self) -> (r: String)
        ensures
            final(self)@ == old(self)@,
            r@ == url_with_query(
                AUTH_URL@,
                authorize_query(
                    "code"@,
                    old(self)@.client_id,
                    old(self)@.redirect_url,
                    old(self)@.csrf,
                    old(self)@.scopes,
                    old(self)@.force_verify,
                ),
            ),
    {
        let pairs = authorize_pairs(
            "code",
            &self.client_id,
            self.redirect_url.as_str(),
            match &self.csrf {
                Some(c) => Some(c),
                None => None,
            },
            &self.scopes,
            self.force_verify,
        );
        build_url(AUTH_URL, &pairs)
    }

    /// Whether `csrf` is the stored nonce; true for every value where the
    /// check is off.
    pub fn csrf_is_valid(&self, csrf: &str) -> (r: bool)
        ensures
            r == code_flow_csrf_valid(self@.csrf, csrf@),
    {
        match &self.csrf {
            Some(stored) => stored.matches(csrf),
            None => true,
        }
    }

    /// The request that exchanges `code` for a token.
    pub fn get_user_token_request(&self, code: &str) -> (r: TokenRequest)
        ensures
            r.url@ == TOKEN_URL@,
            r.params_view() == code_exchange_params(
                self@.client_id,
                self@.client_secret,
                code@,
                self@.redirect_url,
            ),
    {
        let mut params: Vec<(String, String)> = Vec::new();
        params.push(pair("client_id", self.client_id.as_str()));
        params.push(pair("client_secret", self.client_secret.secret()));
        params.push(pair("code", code));
        params.push(pair("grant_type", "authorization_code"));
        params.push(pair("redirect_uri", self.redirect_url.as_str()));
        let r = TokenRequest { url: TOKEN_URL.to_owned(), params };
        assert(r.params_view() =~= code_exchange_params(
            self@.client_id,
            self@.client_secret,
            code@,
            self@.redirect_url,
        ));
        r
    }

    /// The exchange step, consuming the builder: checks `state` against the
    /// CSRF nonce before anything is sent, and gives the request that
    /// exchanges `code`. Fails with `StateMismatch`, and no request, exactly
    /// where the check fails.
    pub fn get_user_token(self, state: &str, code: &str) -> (r: Result<
        CodeExchange,
        UserTokenExchangeError,
    >)
        ensures
            match r {
                Ok(ex) => code_flow_csrf_valid(self@.csrf, state@) && ex.request.url@
                    == TOKEN_URL@ && ex.request.params_view() == code_exchange_params(
                    self@.client_id,
                    self@.client_secret,
                    code@,
                    self@.redirect_url,
                ) && ex.client_secret@ == self@.client_secret,
                Err(e) => !code_flow_csrf_valid(self@.csrf, state@) && e
                    == UserTokenExchangeError::StateMismatch,
            },
    {
        if !self.csrf_is_valid(state) {
            return Err(UserTokenExchangeError::StateMismatch);
        }
        let request = self.get_user_token_request(code);
        Ok(CodeExchange { request, client_secret: self.client_secret })
    }
}

impl CodeExchange {
    /// Completes the exchange with the token endpoint's answer and the
    /// validation of its access token; the token keeps the client secret.
    /// The scopes are the validation's, or the response's where the
    /// validation reported none.
    pub fn finish(self, response: TwitchTokenResponse, validated: ValidatedToken) -> (r: Result<
        UserToken,
        UserTokenExchangeError,
    >)
        ensures
            match r {
                Ok(t) => names_owner(validated) && t@ == from_validation(
                    response.access_token,
                    response.refresh_token,
                    with_response_scopes(validated, response),
                    Some(self.client_secret),
                    t@.created,
                ),
                Err(e) => !names_owner(validated) && e == UserTokenExchangeError::Validation(
                    ValidationError::NoLogin,
                ),
            },
    {
        match UserToken::from_response(response, validated, Some(self.client_secret)) {
            Ok(t) => Ok(t),
            Err(e) => Err(UserTokenExchangeError::Validation(e)),
        }
    }
}

impl UserToken {
    /// A builder for the authorization-code flow.
    pub fn builder(client_id: ClientId, client_secret: ClientSecret, redirect_url: String) -> (r:
        UserTokenBuilder)
        ensures
            r@.scopes.len() == 0,
            r@.csrf is Some && is_fresh_nonce(r@.csrf.unwrap()),
            !r@.force_verify,
            r@.redirect_url == redirect_url@,
            r@.client_id == client_id@,
            r@.client_secret == client_secret@,
    {
        UserTokenBuilder::new(client_id, client_secret, redirect_url)
    }
}

/// The state of an implicit-flow builder, as the contracts speak of it.
pub ghost struct ImplicitFlowView {
    pub scopes: Seq<Scope>,
    pub csrf: Option<Seq<char>>,
    pub redirect_url: Seq<char>,
    pub force_verify: bool,
    pub client_id: Seq<char>,
}

/// Builder for the implicit flow, for public clients without a secret.
///
/// Each `generate_url` draws and stores a fresh CSRF nonce; `get_user_token`
/// checks the `state` the redirect brought back and gives the access token to
/// validate.
pub struct ImplicitUserTokenBuilder {
    scopes: Vec<Scope>,
    csrf: Option<CsrfToken>,
    redirect_url: String,
    force_verify: bool,
    client_id: ClientId,
}

impl View for ImplicitUserTokenBuilder {
    type V = ImplicitFlowView;

    closed spec fn view(&self) -> ImplicitFlowView {
        ImplicitFlowView {
            scopes: self.scopes@,
            csrf: csrf_view(self.csrf),
            redirect_url: self.redirect_url@,
            force_verify: self.force_verify,
            client_id: self.client_id@,
        }
    }
}

impl ImplicitUserTokenBuilder {
    /// A builder with no scopes, no forced re-consent and no CSRF nonce yet.
    /// `redirect_url` is the serialized URL the provider redirects back to.
    pub fn new(client_id: ClientId, redirect_url: String) -> (r: ImplicitUserTokenBuilder)
        ensures
            r@ == (ImplicitFlowView {
                scopes: Seq::empty(),
                csrf: None,
                redirect_url: redirect_url@,
                force_verify: false,
                client_id: client_id@,
            }),
    {
        ImplicitUserTokenBuilder {
            scopes: Vec::new(),
            csrf: None,
            redirect_url,
            force_verify: false,
            client_id,
        }
    }

    /// Replaces the scopes to request.
    pub fn set_scopes(self, scopes: Vec<Scope>) -> (r: ImplicitUserTokenBuilder)
        ensures
            r@ == (ImplicitFlowView { scopes: scopes@, ..self@ }),
    {
        let mut b = self;
        b.scopes = scopes;
        b
    }

    /// Adds one scope to request.
    pub fn add_scope(&mut self, scope: Scope)
        ensures
            final(self)@ == (ImplicitFlowView { scopes: old(self)@.scopes.push(scope), ..old(self)@ }),
    {
        self.scopes.push(scope);
    }

    /// Whether the user is asked to consent again, even if already authorized.
    pub fn force_verify(self, b: bool) -> (r: ImplicitUserTokenBuilder)
        ensures
            r@ == (ImplicitFlowView { force_verify: b, ..self@ }),
    {
        let mut s = self;
        s.force_verify = b;
        s
    }

    /// The URL to send the user to, with a fresh CSRF nonce that replaces any
    /// earlier one and is returned for the caller to keep.
    pub fn generate_url(&mut self) -> (r: (String, CsrfToken))
        ensures
            is_fresh_nonce(r.1@),
            final(self)@ == (ImplicitFlowView { csrf: Some(r.1@), ..old(self)@ }),
            r.0@ == url_with_query(
                AUTH_URL@,
                authorize_query(
                    "token"@,
                    old(self)@.client_id,
                    old(self)@.redirect_url,
                    Some(r.1@),
                    old(self)@.scopes,
                    old(self)@.force_verify,
                ),
            ),
    {
        let csrf = CsrfToken::new_random();
        let stored = CsrfToken::new(csrf.to_string_value());
        let pairs = authorize_pairs(
            "token",
            &self.client_id,
            self.redirect_url.as_str(),
            Some(&csrf),
            &self.scopes,
            self.force_verify,
        );
        let url = build_url(AUTH_URL, &pairs);
        self.csrf = Some(stored);
        (url, csrf)
    }

    /// Whether `csrf` is the stored nonce; false for every value before a
    /// nonce was generated.
    pub fn csrf_is_valid(&self, csrf: &str) -> (r: bool)
        ensures
            r == implicit_flow_csrf_valid(self@.csrf, csrf@),
    {
        match &self.csrf {
            Some(stored) => stored.matches(csrf),
            None => false,
        }
    }

    /// The exchange step, consuming the builder, on what the redirect
    /// brought back. Fails with `StateMismatch` where `state` is absent or
    /// not the stored nonce; else gives the access token where it came alone,
    /// and otherwise the provider's error and description.
    pub fn get_user_token(
        self,
        state: Option<&str>,
        access_token: Option<&str>,
        error: Option<&str>,
        error_description: Option<&str>,
    ) -> (r: Result<AccessToken, ImplicitUserTokenExchangeError>)
        ensures
            match state {
                Some(s) => implicit_flow_csrf_valid(self@.csrf, s@),
                None => false,
            } ==> match (access_token, error, error_description) {
                (Some(t), None, None) => r is Ok && r.unwrap()@ == t@,
                _ => match r {
                    Err(ImplicitUserTokenExchangeError::TwitchError { error: e, description: d }) =>
                        opt_view(e) == opt_str_view(error) && opt_view(d) == opt_str_view(
                        error_description,
                    ),
                    _ => false,
                },
            },
            !match state {
                Some(s) => implicit_flow_csrf_valid(self@.csrf, s@),
                None => false,
            } ==> r == Err::<AccessToken, ImplicitUserTokenExchangeError>(
                ImplicitUserTokenExchangeError::StateMismatch,
            ),
    {
        let valid = match state {
            Some(s) => self.csrf_is_valid(s),
            None => false,
        };
        if !valid {
            return Err(ImplicitUserTokenExchangeError::StateMismatch);
        }
        match (access_token, error, error_description) {
            (Some(t), None, None) => Ok(AccessToken::from_str_value(t)),
            (_, error, description) => {
                let error = match error {
                    Some(e) => Some(e.to_owned()),
                    None => None,
                };
                let description = match description {
                    Some(d) => Some(d.to_owned()),
                    None => None,
                };
                Err(ImplicitUserTokenExchangeError::TwitchError { error, description })
            },
        }
    }
}

} // verus!
