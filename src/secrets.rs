//! String wrappers for credentials, identifiers and scopes.
//!
//! The credential types (access and refresh tokens, client secrets and CSRF
//! nonces) have no `Debug` rendering: their value is read only through
//! `secret`.
use vstd::prelude::*;
use vstd::string::*;

verus! {

/// An access token, used to authenticate requests on the user's behalf.
#[derive(Clone, PartialEq, Eq)]
pub struct AccessToken {
    secret: String,
}

impl View for AccessToken {
    type V = Seq<char>;

    closed spec fn view(&self) -> Seq<char> {
        self.secret@
    }
}

impl AccessToken {
    /// Wraps a value.
    pub fn new(value: String) -> (r: AccessToken)
        ensures
            r@ == value@,
    {
        AccessToken { secret: value }
    }

    /// Wraps a copy of a borrowed value.
    pub fn from_str_value(value: &str) -> (r: AccessToken)
        ensures
            r@ == value@,
    {
        AccessToken { secret: value.to_owned() }
    }

    /// The raw value. Handle with care: it grants access.
    pub fn secret(&self) -> (r: &str)
        ensures
            r@ == self@,
    {
        self.secret.as_str()
    }

    /// A copy of the value.
    pub fn to_string_value(&self) -> (r: String)
        ensures
            r@ == self@,
    {
        self.secret.clone()
    }
}

/// A refresh token, used to obtain a new access token.
#[derive(Clone, PartialEq, Eq)]
pub struct RefreshToken {
    secret: String,
}

impl View for RefreshToken {
    type V = Seq<char>;

    closed spec fn view(&self) -> Seq<char> {
        self.secret@
    }
}

impl RefreshToken {
    /// Wraps a value.
    pub fn new(value: String) -> (r: RefreshToken)
        ensures
            r@ == value@,
    {
        RefreshToken { secret: value }
    }

    /// Wraps a copy of a borrowed value.
    pub fn from_str_value(value: &str) -> (r: RefreshToken)
        ensures
            r@ == value@,
    {
        RefreshToken { secret: value.to_owned() }
    }

    /// The raw value. Handle with care: it grants access.
    pub fn secret(&self) -> (r: &str)
        ensures
            r@ == self@,
    {
        self.secret.as_str()
    }

    /// A copy of the value.
    pub fn to_string_value(&self) -> (r: String)
        ensures
            r@ == self@,
    {
        self.secret.clone()
    }
}

/// The secret of a registered client application.
#[derive(Clone, PartialEq, Eq)]
pub struct ClientSecret {
    secret: String,
}

impl View for ClientSecret {
    type V = Seq<char>;

    closed spec fn view(&self) -> Seq<char> {
        self.secret@
    }
}

impl ClientSecret {
    /// Wraps a value.
    pub fn new(value: String) -> (r: ClientSecret)
        ensures
            r@ == value@,
    {
        ClientSecret { secret: value }
    }

    /// Wraps a copy of a borrowed value.
    pub fn from_str_value(value: &str) -> (r: ClientSecret)
        ensures
            r@ == value@,
    {
        ClientSecret { secret: value.to_owned() }
    }

    /// The raw value. Handle with care: it grants access.
    pub fn secret(&self) -> (r: &str)
        ensures
            r@ == self@,
    {
        self.secret.as_str()
    }

    /// A copy of the value.
    pub fn to_string_value(&self) -> (r: String)
        ensures
            r@ == self@,
    {
        self.secret.clone()
    }
}

/// A nonce round-tripped through the authorization redirect.
#[derive(Clone, PartialEq, Eq)]
pub struct CsrfToken {
    secret: String,
}

impl View for CsrfToken {
    type V = Seq<char>;

    closed spec fn view(&self) -> Seq<char> {
        self.secret@
    }
}

impl CsrfToken {
    /// Wraps a value.
    pub fn new(value: String) -> (r: CsrfToken)
        ensures
            r@ == value@,
    {
        CsrfToken { secret: value }
    }

    /// Wraps a copy of a borrowed value.
    pub fn from_str_value(value: &str) -> (r: CsrfToken)
        ensures
            r@ == value@,
    {
        CsrfToken { secret: value.to_owned() }
    }

    /// The raw value. Handle with care: it grants access.
    pub fn secret(&self) -> (r: &str)
        ensures
            r@ == self@,
    {
        self.secret.as_str()
    }

    /// A copy of the value.
    pub fn to_string_value(&self) -> (r: String)
        ensures
            r@ == self@,
    {
        self.secret.clone()
    }
}

/// The identifier of a registered client application.
#[derive(Clone, Debug, PartialEq, Eq, Hash)]
pub struct ClientId {
    id: String,
}

impl View for ClientId {
    type V = Seq<char>;

    closed spec fn view(&self) -> Seq<char> {
        self.id@
    }
}

impl ClientId {
    /// Wraps a value.
    pub fn new(value: String) -> (r: ClientId)
        ensures
            r@ == value@,
    {
        ClientId { id: value }
    }

    /// Wraps a copy of a borrowed value.
    pub fn from_str_value(value: &str) -> (r: ClientId)
        ensures
            r@ == value@,
    {
        ClientId { id: value.to_owned() }
    }

    /// The value.
    pub fn as_str(&self) -> (r: &str)
        ensures
            r@ == self@,
    {
        self.id.as_str()
    }

    /// A copy of the value.
    pub fn to_string_value(&self) -> (r: String)
        ensures
            r@ == self@,
    {
        self.id.clone()
    }
}

/// A permission granted to a token.
#[derive(Clone, Debug, PartialEq, Eq, Hash)]
pub struct Scope {
    name: String,
}

impl View for Scope {
    type V = Seq<char>;

    closed spec fn view(&self) -> Seq<char> {
        self.name@
    }
}

impl Scope {
    /// Wraps a value.
    pub fn new(value: String) -> (r: Scope)
        ensures
            r@ == value@,
    {
        Scope { name: value }
    }

    /// Wraps a copy of a borrowed value.
    pub fn from_str_value(value: &str) -> (r: Scope)
        ensures
            r@ == value@,
    {
        Scope { name: value.to_owned() }
    }

    /// The value.
    pub fn as_str(&self) -> (r: &str)
        ensures
            r@ == self@,
    {
        self.name.as_str()
    }

    /// A copy of the value.
    pub fn to_string_value(&self) -> (r: String)
        ensures
            r@ == self@,
    {
        self.name.clone()
    }
}

/// The scopes separated by single spaces, in order.
pub open spec fn scopes_joined(scopes: Seq<Scope>) -> Seq<char>
    decreases scopes.len(),
{
    if scopes.len() == 0 {
        Seq::empty()
    } else if scopes.len() == 1 {
        scopes[0]@
    } else {
        scopes_joined(scopes.drop_last()) + " "@ + scopes.last()@
    }
}

/// The scopes separated by single spaces, as the provider expects them in a
/// `scope` parameter.
pub fn join_scopes(scopes: &[Scope]) -> (r: String)
    ensures
        r@ == scopes_joined(scopes@),
{
    let mut out = String::new();
    let mut i: usize = 0;
    while i < scopes.len()
        invariant
            i <= scopes@.len(),
            out@ == scopes_joined(scopes@.take(i as int)),
        decreases scopes@.len() - i,
    {
        let ghost next = scopes@.take(i as int + 1);
        assert(next.drop_last() =~= scopes@.take(i as int));
        if i > 0 {
            out.append(" ");
        }
        out.append(scopes[i].as_str());
        proof {
            if i == 0 {
                assert(out@ =~= next[0]@);
            }
        }
        i = i + 1;
    }
    assert(scopes@.take(scopes@.len() as int) =~= scopes@);
    out
}

/// The number of characters in a generated CSRF nonce.
pub const CSRF_LEN: usize = 32;

/// An ASCII letter or digit.
pub open spec fn is_alphanumeric(c: char) -> bool {
    ('a' <= c && c <= 'z') || ('A' <= c && c <= 'Z') || ('0' <= c && c <= '9')
}

/// Relies on rand's `Alphanumeric` string sampling driven by `thread_rng`, a
/// cryptographically secure generator: `len` characters, each an ASCII
/// letter or digit.
#[verifier::external_body]
fn random_alphanumeric(len: usize) -> (r: String)
    ensures
        r@.len() == len,
        forall|i: int| 0 <= i < len ==> is_alphanumeric(#[trigger] r@[i]),
{
    rand::distributions::DistString::sample_string(
        &rand::distributions::Alphanumeric,
        &mut rand::thread_rng(),
        len,
    )
}

impl CsrfToken {
    /// A fresh nonce from a cryptographically secure source.
    pub fn new_random() -> (r: CsrfToken)
        ensures
            r@.len() == CSRF_LEN,
            forall|i: int| 0 <= i < CSRF_LEN ==> is_alphanumeric(#[trigger] r@[i]),
    {
        CsrfToken { secret: random_alphanumeric(CSRF_LEN) }
    }

    /// Whether `other` is exactly this nonce.
    pub fn matches(&self, other: &str) -> (r: bool)
        ensures
            r == (self@ == other@),
    {
        let other = other.to_owned();
        self.secret == other
    }
}

} // verus!
