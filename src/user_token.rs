//! The user token aggregate: construction from provider answers, the local
//! expiry model, and the refresh protocol.
use vstd::prelude::*;
use crate::form::{pair, Pairs, TokenRequest};
use crate::lifetime::{remaining_spec, CreationInstant, Lifetime, MAX_NANOS, NANOS_PER_SEC};
use crate::secrets::{join_scopes, scopes_joined, AccessToken, ClientId, ClientSecret, RefreshToken, Scope};
use twitch_types::{Nickname, UserId};

verus! {

#[verifier::external_type_specification]
#[verifier::external_body]
pub struct ExUserId(twitch_types::UserId);

#[verifier::external_type_specification]
#[verifier::external_body]
pub struct ExNickname(twitch_types::Nickname);

/// Relies on the derived `Clone` of twitch_types' `UserId`, a newtype over
/// `String`: the copy is equal to the original.
pub assume_specification[ <twitch_types::UserId as Clone>::clone ](u: &twitch_types::UserId) -> (r:
    twitch_types::UserId)
    ensures
        r == *u,
;

/// Relies on the derived `Clone` of twitch_types' `Nickname`, a newtype over
/// `String`: the copy is equal to the original.
pub assume_specification[ <twitch_types::Nickname as Clone>::clone ](n: &twitch_types::Nickname) -> (r:
    twitch_types::Nickname)
    ensures
        r == *n,
;

/// The form fields of a request for a token from a mock provider.
pub open spec fn mock_token_params(
    client_id: Seq<char>,
    client_secret: Seq<char>,
    user_id: Seq<char>,
    scopes: Seq<Scope>,
) -> Pairs {
    seq![
        ("client_id"@, client_id),
        ("client_secret"@, client_secret),
        ("grant_type"@, "user_token"@),
        ("scope"@, scopes_joined(scopes)),
        ("user_id"@, user_id),
    ]
}

/// The provider's token endpoint.
pub const TOKEN_URL: &'static str = "https://id.twitch.tv/oauth2/token";

/// What the provider confirms about an access token when asked to validate it.
pub struct ValidatedToken {
    /// The client the token was issued to.
    pub client_id: ClientId,
    /// The owning user's login, absent for application tokens.
    pub login: Option<Nickname>,
    /// The owning user's id, absent for application tokens.
    pub user_id: Option<UserId>,
    /// The scopes granted, if reported.
    pub scopes: Option<Vec<Scope>>,
    /// The remaining lifetime, absent for a token that never expires.
    pub expires_in: Option<Lifetime>,
}

/// The typed answer of the token endpoint to an exchange or refresh.
pub struct TwitchTokenResponse {
    /// The new access token.
    pub access_token: AccessToken,
    /// Its lifetime in seconds, absent for a token that never expires.
    pub expires_in: Option<u64>,
    /// A refresh token, if one was issued.
    pub refresh_token: Option<RefreshToken>,
    /// The scopes granted, if reported.
    pub scopes: Option<Vec<Scope>>,
    /// The kind of token, such as `bearer`.
    pub token_type: String,
}

/// The kind of bearer token.
#[derive(Clone, Copy, Debug, PartialEq, Eq, Structural)]
pub enum BearerTokenType {
    /// A token acting for a user.
    UserToken,
    /// A token acting for an application alone.
    AppAccessToken,
}

/// Why a token could not be validated.
#[derive(Clone, Copy, Debug, PartialEq, Eq, Structural)]
pub enum ValidationError {
    /// The provider reported no owning login or user id.
    NoLogin,
    /// The token is expired or otherwise refused by the provider.
    NotAuthorized,
}

/// Why a refresh could not be attempted.
#[derive(Clone, Copy, Debug, PartialEq, Eq, Structural)]
pub enum RefreshTokenError {
    /// The token holds no refresh token.
    NoRefreshToken,
    /// The token holds no client secret.
    NoClientSecretFound,
}

/// A token acting on behalf of a user, with the identity and scopes the
/// provider confirmed and a locally tracked expiry.
#[derive(Clone)]
pub struct UserToken {
    /// The access token used to authenticate requests.
    pub access_token: AccessToken,
    client_id: ClientId,
    client_secret: Option<ClientSecret>,
    /// The login of the owning user.
    pub login: Nickname,
    /// The id of the owning user.
    pub user_id: UserId,
    /// The refresh token that extends the life of this token.
    pub refresh_token: Option<RefreshToken>,
    expires_in: Lifetime,
    struct_created: CreationInstant,
    scopes: Vec<Scope>,
    /// Whether the token never expires.
    pub never_expiring: bool,
}

/// The state of a user token, as the contracts speak of it.
pub ghost struct UserTokenView {
    pub access_token: AccessToken,
    pub client_id: ClientId,
    pub client_secret: Option<ClientSecret>,
    pub login: Nickname,
    pub user_id: UserId,
    pub refresh_token: Option<RefreshToken>,
    /// The lifetime at creation or last refresh, in nanoseconds.
    pub lifetime: int,
    /// The moment of creation or last refresh.
    pub created: CreationInstant,
    pub scopes: Seq<Scope>,
    pub never_expiring: bool,
}

impl View for UserToken {
    type V = UserTokenView;

    closed spec fn view(&self) -> UserTokenView {
        UserTokenView {
            access_token: self.access_token,
            client_id: self.client_id,
            client_secret: self.client_secret,
            login: self.login,
            user_id: self.user_id,
            refresh_token: self.refresh_token,
            lifetime: self.expires_in@,
            created: self.struct_created,
            scopes: self.scopes@,
            never_expiring: self.never_expiring,
        }
    }
}

/// The lifetime in nanoseconds of a token issued for `expires_in` seconds,
/// or the largest lifetime where none was given.
pub open spec fn lifetime_from(expires_in: Option<Lifetime>) -> int {
    match expires_in {
        Some(l) => l@,
        None => MAX_NANOS as int,
    }
}

/// The scopes a validation reported, none where it reported nothing.
pub open spec fn scopes_from(scopes: Option<Vec<Scope>>) -> Seq<Scope> {
    match scopes {
        Some(s) => s@,
        None => Seq::empty(),
    }
}

/// A token assembled from fields given by the caller, created at `created`.
pub open spec fn assembled(
    access_token: AccessToken,
    refresh_token: Option<RefreshToken>,
    client_id: ClientId,
    client_secret: Option<ClientSecret>,
    login: Nickname,
    user_id: UserId,
    scopes: Option<Vec<Scope>>,
    expires_in: Option<Lifetime>,
    created: CreationInstant,
) -> UserTokenView {
    UserTokenView {
        access_token,
        client_id,
        client_secret,
        login,
        user_id,
        refresh_token,
        lifetime: lifetime_from(expires_in),
        created,
        scopes: scopes_from(scopes),
        never_expiring: expires_in is None,
    }
}

/// The token made from an access token and a validation that names the owning
/// login and user id, created at `created`.
pub open spec fn from_validation(
    access_token: AccessToken,
    refresh_token: Option<RefreshToken>,
    validated: ValidatedToken,
    client_secret: Option<ClientSecret>,
    created: CreationInstant,
) -> UserTokenView {
    assembled(
        access_token,
        refresh_token,
        validated.client_id,
        client_secret,
        validated.login.unwrap(),
        validated.user_id.unwrap(),
        validated.scopes,
        validated.expires_in,
        created,
    )
}

/// The validation with the response's scopes filled in where the validation
/// reported none.
pub open spec fn with_response_scopes(
    validated: ValidatedToken,
    response: TwitchTokenResponse,
) -> ValidatedToken {
    ValidatedToken {
        scopes: match validated.scopes {
            Some(s) => Some(s),
            None => response.scopes,
        },
        ..validated
    }
}

/// Whether a validation names the owning login and user id.
pub open spec fn names_owner(validated: ValidatedToken) -> bool {
    validated.login is Some && validated.user_id is Some
}

/// The form fields of a refresh request.
pub open spec fn refresh_params(
    refresh_token: Seq<char>,
    client_id: Seq<char>,
    client_secret: Seq<char>,
) -> Pairs {
    seq![
        ("grant_type"@, "refresh_token"@),
        ("refresh_token"@, refresh_token),
        ("client_id"@, client_id),
        ("client_secret"@, client_secret),
    ]
}

/// What refreshing `t` asks of the token endpoint: a client secret is needed
/// first, a refresh token second.
pub open spec fn refresh_request_spec(t: UserTokenView) -> Result<Pairs, RefreshTokenError> {
    match t.client_secret {
        None => Err(RefreshTokenError::NoClientSecretFound),
        Some(secret) => match t.refresh_token {
            None => Err(RefreshTokenError::NoRefreshToken),
            Some(refresh) => Ok(refresh_params(refresh@, t.client_id@, secret@)),
        },
    }
}

/// The token after the endpoint answered a refresh with `response` at
/// `created`: new access token, refresh token and lifetime; identity, client
/// and scopes kept.
pub open spec fn refreshed(
    t: UserTokenView,
    response: TwitchTokenResponse,
    created: CreationInstant,
) -> UserTokenView {
    UserTokenView {
        access_token: response.access_token,
        client_id: t.client_id,
        client_secret: t.client_secret,
        login: t.login,
        user_id: t.user_id,
        refresh_token: response.refresh_token,
        lifetime: match response.expires_in {
            Some(secs) => secs * NANOS_PER_SEC,
            None => MAX_NANOS as int,
        },
        created,
        scopes: t.scopes,
        never_expiring: response.expires_in is None,
    }
}

impl UserToken {
    /// Combines an access token with the provider's validation of it. Fails
    /// with `NoLogin` where the validation names no owning login or user id.
    pub fn new(
        access_token: AccessToken,
        refresh_token: Option<RefreshToken>,
        validated: ValidatedToken,
        client_secret: Option<ClientSecret>,
    ) -> (r: Result<UserToken, ValidationError>)
        ensures
            match r {
                Ok(t) => names_owner(validated) && t@ == from_validation(
                    access_token,
                    refresh_token,
                    validated,
                    client_secret,
                    t@.created,
                ),
                Err(e) => !names_owner(validated) && e == ValidationError::NoLogin,
            },
    {
        let ValidatedToken { client_id, login, user_id, scopes, expires_in } = validated;
        let login = match login {
            Some(l) => l,
            None => return Err(ValidationError::NoLogin),
        };
        let user_id = match user_id {
            Some(u) => u,
            None => return Err(ValidationError::NoLogin),
        };
        Ok(
            UserToken::from_existing_unchecked(
                access_token,
                refresh_token,
                client_id,
                client_secret,
                login,
                user_id,
                scopes,
                expires_in,
            ),
        )
    }

    /// Assembles a token from the token endpoint's answer and the provider's
    /// validation of its access token. The scopes are the validation's, or
    /// the response's where the validation reported none.
    pub fn from_response(
        response: TwitchTokenResponse,
        validated: ValidatedToken,
        client_secret: Option<ClientSecret>,
    ) -> (r: Result<UserToken, ValidationError>)
        ensures
            match r {
                Ok(t) => names_owner(validated) && t@ == from_validation(
                    response.access_token,
                    response.refresh_token,
                    with_response_scopes(validated, response),
                    client_secret,
                    t@.created,
                ),
                Err(e) => !names_owner(validated) && e == ValidationError::NoLogin,
            },
    {
        let TwitchTokenResponse { access_token, refresh_token, scopes: response_scopes, .. } =
            response;
        let ValidatedToken { client_id, login, user_id, scopes, expires_in } = validated;
        let scopes = match scopes {
            Some(s) => Some(s),
            None => response_scopes,
        };
        let validated = ValidatedToken { client_id, login, user_id, scopes, expires_in };
        UserToken::new(access_token, refresh_token, validated, client_secret)
    }

    /// Assembles a token from caller-supplied fields, without any check.
    /// Without a lifetime the token never expires.
    pub fn from_existing_unchecked(
        access_token: AccessToken,
        refresh_token: Option<RefreshToken>,
        client_id: ClientId,
        client_secret: Option<ClientSecret>,
        login: Nickname,
        user_id: UserId,
        scopes: Option<Vec<Scope>>,
        expires_in: Option<Lifetime>,
    ) -> (r: UserToken)
        ensures
            r@ == assembled(
                access_token,
                refresh_token,
                client_id,
                client_secret,
                login,
                user_id,
                scopes,
                expires_in,
                r@.created,
            ),
    {
        let never_expiring = expires_in.is_none();
        let lifetime = match expires_in {
            Some(l) => l,
            None => Lifetime::max_value(),
        };
        let scopes = match scopes {
            Some(s) => s,
            None => Vec::new(),
        };
        UserToken {
            access_token,
            client_id,
            client_secret,
            login,
            user_id,
            refresh_token,
            expires_in: lifetime,
            struct_created: CreationInstant::now(),
            scopes,
            never_expiring,
        }
    }
    /// Whether the token never expires.
    pub fn never_expires(&self) -> (r: bool)
        ensures
            r == self@.never_expiring,
    {
        self.never_expiring
    }

    /// Replaces the client secret held for refreshing.
    pub fn set_secret(&mut self, secret: Option<ClientSecret>)
        ensures
            final(self)@ == (UserTokenView { client_secret: secret, ..old(self)@ }),
    {
        self.client_secret = secret;
    }

    /// The kind of bearer token: a user token.
    pub fn token_type() -> (r: BearerTokenType)
        ensures
            r == BearerTokenType::UserToken,
    {
        BearerTokenType::UserToken
    }

    /// The client id the token was issued to.
    pub fn client_id(&self) -> (r: &ClientId)
        ensures
            *r == self@.client_id,
    {
        &self.client_id
    }

    /// The access token.
    pub fn token(&self) -> (r: &AccessToken)
        ensures
            *r == self@.access_token,
    {
        &self.access_token
    }

    /// The login of the owning user.
    pub fn login(&self) -> (r: Option<&Nickname>)
        ensures
            r == Some(&self@.login),
    {
        Some(&self.login)
    }

    /// The id of the owning user.
    pub fn user_id(&self) -> (r: Option<&UserId>)
        ensures
            r == Some(&self@.user_id),
    {
        Some(&self.user_id)
    }

    /// The scopes granted to the token.
    pub fn scopes(&self) -> (r: &[Scope])
        ensures
            r@ == self@.scopes,
    {
        self.scopes.as_slice()
    }

    /// What remains of the token's lifetime once `elapsed` has passed since
    /// its creation or last refresh: the largest lifetime for a token that
    /// never expires, else the lifetime less `elapsed`, floored at zero.
    pub fn expires_in_after(&self, elapsed: &Lifetime) -> (r: Lifetime)
        ensures
            r@ == remaining_spec(self@.never_expiring, self@.lifetime, elapsed@),
            !self@.never_expiring ==> 0 <= r@ <= self@.lifetime,
            !self@.never_expiring && self@.lifetime <= elapsed@ ==> r@ == 0,
    {
        proof {
            Lifetime::lemma_nonnegative(self.expires_in);
            Lifetime::lemma_nonnegative(*elapsed);
        }
        self.expires_in.remaining_after(self.never_expiring, elapsed)
    }

    /// What remains of the token's lifetime now, measured by the monotonic
    /// clock since the token's creation or last refresh.
    pub fn expires_in(&self) -> (r: Lifetime)
        ensures
            exists|elapsed: int|
                0 <= elapsed && r@ == remaining_spec(
                    self@.never_expiring,
                    self@.lifetime,
                    elapsed,
                ),
            !self@.never_expiring ==> 0 <= r@ <= self@.lifetime,
    {
        let elapsed = self.struct_created.elapsed();
        proof {
            Lifetime::lemma_nonnegative(elapsed);
        }
        self.expires_in_after(&elapsed)
    }

    /// The request that refreshes this token. Fails with
    /// `NoClientSecretFound` where no client secret is held, else with
    /// `NoRefreshToken` where no refresh token is held.
    pub fn refresh_token_request(&self) -> (r: Result<TokenRequest, RefreshTokenError>)
        ensures
            match r {
                Ok(req) => req.url@ == TOKEN_URL@ && refresh_request_spec(self@) == Ok::<
                    Pairs,
                    RefreshTokenError,
                >(req.params_view()),
                Err(e) => refresh_request_spec(self@) == Err::<Pairs, RefreshTokenError>(e),
            },
    {
        let secret = match &self.client_secret {
            Some(s) => s,
            None => return Err(RefreshTokenError::NoClientSecretFound),
        };
        let refresh = match &self.refresh_token {
            Some(t) => t,
            None => return Err(RefreshTokenError::NoRefreshToken),
        };
        let mut params: Vec<(String, String)> = Vec::new();
        params.push(pair("grant_type", "refresh_token"));
        params.push(pair("refresh_token", refresh.secret()));
        params.push(pair("client_id", self.client_id.as_str()));
        params.push(pair("client_secret", secret.secret()));
        let req = TokenRequest { url: TOKEN_URL.to_owned(), params };
        assert(req.params_view() =~= refresh_params(refresh@, self.client_id@, secret@));
        Ok(req)
    }

    /// Takes in the token endpoint's answer to a refresh received at `at`:
    /// replaces the access token, the refresh token and the lifetime, which
    /// counts from `at`. Login, user id and scopes keep their values.
    pub fn apply_refresh_at(&mut self, response: TwitchTokenResponse, at: CreationInstant)
        ensures
            final(self)@ == refreshed(old(self)@, response, at),
    {
        let TwitchTokenResponse { access_token, expires_in, refresh_token, .. } = response;
        let never_expiring = expires_in.is_none();
        let lifetime = match expires_in {
            Some(secs) => Lifetime::from_secs(secs),
            None => Lifetime::max_value(),
        };
        self.access_token = access_token;
        self.refresh_token = refresh_token;
        self.expires_in = lifetime;
        self.never_expiring = never_expiring;
        self.struct_created = at;
    }

    /// The request that asks a mock provider at `auth_url` for a token of the
    /// user `user_id` with `scopes`, bypassing the user's consent. Meant for
    /// local testing only.
    pub fn mock_token_request(
        auth_url: &str,
        client_id: &ClientId,
        client_secret: &ClientSecret,
        user_id: &str,
        scopes: &Vec<Scope>,
    ) -> (r: TokenRequest)
        ensures
            r.url@ == auth_url@,
            r.params_view() == mock_token_params(client_id@, client_secret@, user_id@, scopes@),
    {
        let scope = join_scopes(scopes.as_slice());
        let mut params: Vec<(String, String)> = Vec::new();
        params.push(pair("client_id", client_id.as_str()));
        params.push(pair("client_secret", client_secret.secret()));
        params.push(pair("grant_type", "user_token"));
        params.push(pair("scope", scope.as_str()));
        params.push(pair("user_id", user_id));
        let req = TokenRequest { url: auth_url.to_owned(), params };
        assert(req.params_view() =~= mock_token_params(
            client_id@,
            client_secret@,
            user_id@,
            scopes@,
        ));
        req
    }
}

/// A token's stored lifetime lies between zero and the largest lifetime.
pub proof fn lemma_lifetime_bounded(t: UserToken)
    ensures
        0 <= t@.lifetime <= MAX_NANOS,
{
    Lifetime::lemma_bounded(t.expires_in);
}

/// For a token that expires, what remains never grows as time passes, never
/// drops below zero, never exceeds the lifetime, and is zero once the
/// lifetime has passed.
pub proof fn lemma_remaining_non_increasing(lifetime: int, earlier: int, later: int)
    requires
        0 <= lifetime,
        0 <= earlier <= later,
    ensures
        remaining_spec(false, lifetime, later) <= remaining_spec(false, lifetime, earlier),
        0 <= remaining_spec(false, lifetime, later),
        remaining_spec(false, lifetime, earlier) <= lifetime,
        lifetime <= later ==> remaining_spec(false, lifetime, later) == 0,
{
}

/// For a token that never expires, what remains is the largest lifetime,
/// whatever time has passed.
pub proof fn lemma_never_expiring_constant(lifetime: int, elapsed: int, other_elapsed: int)
    ensures
        remaining_spec(true, lifetime, elapsed) == MAX_NANOS as int,
        remaining_spec(true, lifetime, elapsed) == remaining_spec(true, lifetime, other_elapsed),
{
}

/// Refreshing needs a client secret first and a refresh token second. With
/// both held, the request carries them with the client id, and the answer
/// replaces access token, refresh token and lifetime while login, user id,
/// client and scopes stay as they were.
pub proof fn lemma_refresh_protocol(
    t: UserTokenView,
    response: TwitchTokenResponse,
    created: CreationInstant,
)
    ensures
        t.client_secret is None ==> refresh_request_spec(t) == Err::<Pairs, RefreshTokenError>(
            RefreshTokenError::NoClientSecretFound,
        ),
        t.client_secret is Some && t.refresh_token is None ==> refresh_request_spec(t) == Err::<
            Pairs,
            RefreshTokenError,
        >(RefreshTokenError::NoRefreshToken),
        t.client_secret is Some && t.refresh_token is Some ==> refresh_request_spec(t) == Ok::<
            Pairs,
            RefreshTokenError,
        >(refresh_params(t.refresh_token.unwrap()@, t.client_id@, t.client_secret.unwrap()@)),
        ({
            let n = refreshed(t, response, created);
            &&& n.access_token == response.access_token
            &&& n.refresh_token == response.refresh_token
            &&& response.expires_in is Some ==> n.lifetime == response.expires_in.unwrap()
                * NANOS_PER_SEC && !n.never_expiring
            &&& n.created == created
            &&& n.login == t.login
            &&& n.user_id == t.user_id
            &&& n.scopes == t.scopes
            &&& n.client_id == t.client_id
            &&& n.client_secret == t.client_secret
        }),
{
}

} // verus!
