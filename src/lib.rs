//! User access tokens for a streaming platform's OAuth2 identity provider:
//! the token aggregate with its local expiry model, the authorization-code and
//! implicit flow builders with their CSRF protection, and the refresh protocol.
//!
//! Network round trips are not performed here. The flows hand out the request
//! to send, and take back the provider's typed answers.
pub mod builders;
pub mod form;
pub mod lifetime;
pub mod secrets;
pub mod user_token;

pub use builders::{
    CodeExchange, ImplicitUserTokenBuilder, ImplicitUserTokenExchangeError, UserTokenBuilder,
    UserTokenExchangeError, AUTH_URL,
};
pub use form::TokenRequest;
pub use lifetime::{CreationInstant, Lifetime};
pub use secrets::{AccessToken, ClientId, ClientSecret, CsrfToken, RefreshToken, Scope};
pub use twitch_types::{Nickname, UserId, UserName};
pub use user_token::{
    BearerTokenType, RefreshTokenError, TwitchTokenResponse, UserToken, ValidatedToken,
    ValidationError, TOKEN_URL,
};
