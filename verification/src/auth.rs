//! Authentication for the OpenSubsonic API: token, API-key and legacy
//! password credentials, and the salted-MD5 token scheme.

use md5::{Digest, Md5};
use vstd::prelude::*;

use crate::rng::random_below;

verus! {

/// The lowercase hexadecimal MD5 digest of a string. The digest is a
/// function of the input alone; nothing here states which digits come out.
pub uninterp spec fn md5_hex(input: Seq<char>) -> Seq<char>;

/// Relies on the md-5 crate's `Md5` digest and generic-array's `LowerHex`
/// formatting: hashing the UTF-8 bytes of `first` then `second` yields a
/// 16-byte digest, printed as exactly 32 lowercase hexadecimal digits, and
/// depends on the two strings alone.
#[verifier::external_body]
fn md5_hex_of(first: &str, second: &str) -> (r: String)
    ensures
        r@ == md5_hex(first@ + second@),
        r@.len() == 32,
{
    let mut hasher = Md5::new();
    hasher.update(first.as_bytes());
    hasher.update(second.as_bytes());
    format!("{:x}", hasher.finalize())
}

/// Salt characters are lowercase alphanumerics.
pub open spec fn is_salt_char(c: char) -> bool {
    ('0' <= c && c <= '9') || ('a' <= c && c <= 'z')
}

/// Generate a random 16-character salt of lowercase alphanumerics.
pub fn generate_salt() -> (r: String)
    ensures
        r@.len() == 16,
        forall|i: int| 0 <= i < 16 ==> is_salt_char(#[trigger] r@[i]),
{
    let mut salt = String::new();
    let mut k: usize = 0;
    while k < 16
        invariant
            k <= 16,
            salt@.len() == k,
            forall|i: int| 0 <= i < k ==> is_salt_char(#[trigger] salt@[i]),
        decreases 16 - k,
    {
        let idx = random_below(36) as u8;
        // ASCII '0' is 48 and 'a' is 97.
        let c: char = if idx < 10 {
            (48 + idx) as char
        } else {
            (97 + (idx - 10)) as char
        };
        assert(is_salt_char(c));
        salt.push(c);
        k += 1;
    }
    salt
}

/// Authentication token: the MD5 digest of the password followed by the salt,
/// in lowercase hexadecimal.
pub fn generate_token(password: &str, salt: &str) -> (r: String)
    ensures
        r@ == md5_hex(password@ + salt@),
        r@.len() == 32,
{
    md5_hex_of(password, salt)
}

/// Authentication credentials for API requests.
#[derive(Debug, Clone)]
pub enum Auth {
    /// Token-based authentication (recommended for newer API versions).
    Token { username: String, token: String, salt: String },
    /// API key authentication (OpenSubsonic extension).
    ApiKey { api_key: String },
    /// Legacy password authentication (for older API versions).
    Password { username: String, password: String },
}

impl Auth {
    /// Create token-based authentication from username and password: a fresh
    /// random salt, and the salted digest of the password as the token.
    pub fn from_password(username: String, password: &str) -> (r: Self)
        ensures
            r is Token,
            r->Token_username == username,
            r->Token_salt@.len() == 16,
            forall|i: int| 0 <= i < 16 ==> is_salt_char(#[trigger] r->Token_salt@[i]),
            r->Token_token@ == md5_hex(password@ + r->Token_salt@),
    {
        let salt = generate_salt();
        let token = generate_token(password, salt.as_str());
        Auth::Token { username, token, salt }
    }

    /// Create API key authentication.
    pub fn from_api_key(api_key: String) -> (r: Self)
        ensures
            r == (Auth::ApiKey { api_key }),
    {
        Auth::ApiKey { api_key }
    }

    /// Create legacy password authentication.
    pub fn from_legacy_password(username: String, password: String) -> (r: Self)
        ensures
            r == (Auth::Password { username, password }),
    {
        Auth::Password { username, password }
    }

    /// Query parameters carrying these credentials: `u`, `t` and `s` for a
    /// token; `apiKey` for an API key; `u` and `p` for a legacy password.
    pub fn query_params(&self) -> (r: Vec<(&'static str, String)>)
        ensures
            self is Token ==> {
                &&& r@.len() == 3
                &&& r@[0].0@ == "u"@ && r@[0].1 == self->Token_username
                &&& r@[1].0@ == "t"@ && r@[1].1 == self->Token_token
                &&& r@[2].0@ == "s"@ && r@[2].1 == self->Token_salt
            },
            self is ApiKey ==> {
                &&& r@.len() == 1
                &&& r@[0].0@ == "apiKey"@ && r@[0].1 == self->ApiKey_api_key
            },
            self is Password ==> {
                &&& r@.len() == 2
                &&& r@[0].0@ == "u"@ && r@[0].1 == self->Password_username
                &&& r@[1].0@ == "p"@ && r@[1].1 == self->Password_password
            },
    {
        match self {
            Self::Token { username, token, salt } => {
                let v: Vec<(&'static str, String)> = vec![
                    ("u", username.clone()),
                    ("t", token.clone()),
                    ("s", salt.clone()),
                ];
                v
            },
            Self::ApiKey { api_key } => {
                let v: Vec<(&'static str, String)> = vec![("apiKey", api_key.clone())];
                v
            },
            Self::Password { username, password } => {
                let v: Vec<(&'static str, String)> = vec![
                    ("u", username.clone()),
                    ("p", password.clone()),
                ];
                v
            },
        }
    }

    /// Regenerate the salt and token for token-based authentication; other
    /// kinds of credentials are left unchanged.
    pub fn regenerate(&mut self, password: &str)
        ensures
            *old(self) is Token ==> {
                &&& *final(self) is Token
                &&& (*final(self))->Token_username == (*old(self))->Token_username
                &&& (*final(self))->Token_salt@.len() == 16
                &&& forall|i: int|
                    0 <= i < 16 ==> is_salt_char(#[trigger] (*final(self))->Token_salt@[i])
                &&& (*final(self))->Token_token@ == md5_hex(
                    password@ + (*final(self))->Token_salt@,
                )
            },
            !(*old(self) is Token) ==> *final(self) == *old(self),
    {
        match self {
            Auth::Token { username: _, token, salt } => {
                let new_salt = generate_salt();
                let new_token = generate_token(password, new_salt.as_str());
                *salt = new_salt;
                *token = new_token;
            },
            _ => {},
        }
    }
}

} // verus!
