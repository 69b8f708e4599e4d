//! The session's credential and the fixed request headers built from it.

use vstd::prelude::*;

verus! {

/// The `User-Agent` header sent with every request.
pub const USER_AGENT: &'static str = "rust-github-manager";

/// The `Accept` header sent with every request.
pub const ACCEPT: &'static str = "application/vnd.github.v3+json";

/// Text that an HTTP header value may hold: each character is a tab, or
/// encodes to bytes of at least 32 other than 127 (characters past ASCII
/// encode to bytes of at least 128).
pub open spec fn is_header_text(s: Seq<char>) -> bool {
    forall|i: int|
        #![trigger s[i]]
        0 <= i < s.len() ==> s[i] == '\t' || (s[i] as u32 >= 32 && s[i] as u32 != 127)
}

/// The `Authorization` header value for a token.
pub open spec fn bearer(token: Seq<char>) -> Seq<char> {
    "Bearer "@ + token
}

/// Relies on reqwest::header::HeaderValue::from_str, which accepts its
/// argument exactly when every byte of it is a tab, or at least 32 and not 127.
#[verifier::external_body]
fn is_valid_header_value(s: &str) -> (r: bool)
    ensures
        r == is_header_text(s@),
{
    reqwest::header::HeaderValue::from_str(s).is_ok()
}

/// Why a credential was refused.
#[derive(Clone, Copy, Debug, PartialEq, Eq, Structural)]
pub enum CredentialError {
    /// The token cannot stand in an `Authorization` header.
    InvalidToken,
}

/// A bearer token and the account whose repositories are managed; fixed once
/// made.
pub struct Credential {
    token: String,
    username: String,
}

impl Credential {
    pub closed spec fn token_view(&self) -> Seq<char> {
        self.token@
    }

    pub closed spec fn username_view(&self) -> Seq<char> {
        self.username@
    }

    /// A credential for `username`; refused when `Bearer <token>` is not a
    /// valid header value.
    pub fn new(token: &str, username: &str) -> (r: Result<Credential, CredentialError>)
        ensures
            match r {
                Ok(c) => is_header_text(bearer(token@)) && c.token_view() == token@
                    && c.username_view() == username@,
                Err(e) => !is_header_text(bearer(token@)) && e == CredentialError::InvalidToken,
            },
    {
        let c = Credential { token: String::from_str(token), username: String::from_str(username) };
        let header = c.authorization();
        if is_valid_header_value(header.as_str()) {
            Ok(c)
        } else {
            Err(CredentialError::InvalidToken)
        }
    }

    /// The `Authorization` header value: `Bearer <token>`.
    pub fn authorization(&self) -> (r: String)
        ensures
            r@ == bearer(self.token_view()),
    {
        let prefix = String::from_str("Bearer ");
        prefix.concat(self.token.as_str())
    }

    /// The account name.
    pub fn username(&self) -> (r: &str)
        ensures
            r@ == self.username_view(),
    {
        self.username.as_str()
    }
}

} // verus!
