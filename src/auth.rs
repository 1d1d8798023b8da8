//! The optional authorization guard. When a public key is configured, every
//! request must carry, as the password of HTTP Basic credentials, a token
//! signed with that key; otherwise it is answered 401 before it is resolved.

use vstd::prelude::*;
use vstd::string::StrSliceExecFns;
use vstd::utf8::{decode_utf8, valid_utf8};

use base64::Engine;

use crate::error::{RequestError, RequestErrorView};
use crate::text::{has_prefix, strip_prefix};

verus! {

#[verifier::external_type_specification]
#[verifier::external_body]
pub struct ExDecodingKey(jsonwebtoken::DecodingKey);

#[verifier::external_type_specification]
#[verifier::external_body]
pub struct ExJwtError(jsonwebtoken::errors::Error);

/// The bytes that `text` encodes in padded standard base64, where it is such an encoding.
pub uninterp spec fn base64_decoded(text: Seq<char>) -> Option<Seq<u8>>;

/// Relies on base64's `STANDARD` engine (`Engine::decode`): the bytes that
/// `text` encodes, or an error where it is not valid padded standard base64.
#[verifier::external_body]
fn decode_base64(text: &str) -> (r: Option<Vec<u8>>)
    ensures
        match r {
            Some(b) => base64_decoded(text@) == Some(b@),
            None => base64_decoded(text@) is None,
        },
{
    base64::engine::general_purpose::STANDARD.decode(text).ok()
}

/// Relies on `String::from_utf8`: the text that `bytes` encode, where they
/// are valid UTF-8.
#[verifier::external_body]
fn utf8_text(bytes: Vec<u8>) -> (r: Option<String>)
    ensures
        r is Some <==> valid_utf8(bytes@),
        r is Some ==> r->0@ == decode_utf8(bytes@),
{
    String::from_utf8(bytes).ok()
}

/// `pem` is a PEM document that `DecodingKey::from_rsa_pem` takes as an RSA
/// key: a public or a private RSA key. Whether the key verifies anything is
/// not checked there.
pub uninterp spec fn rsa_pem_accepted(pem: Seq<u8>) -> bool;

/// Relies on `jsonwebtoken::DecodingKey::from_rsa_pem`: the RSA public key
/// in PEM form that `pem` holds, or why it holds none. Whether it succeeds
/// depends on the bytes alone.
#[verifier::external_body]
fn rsa_public_key(pem: &[u8]) -> (r: Result<jsonwebtoken::DecodingKey, jsonwebtoken::errors::Error>)
    ensures
        r is Ok <==> rsa_pem_accepted(pem@),
{
    jsonwebtoken::DecodingKey::from_rsa_pem(pem)
}

/// The signature algorithms a token may be checked with.
#[derive(Debug, Clone, Copy, PartialEq, Eq, Structural)]
pub enum TokenAlgorithm {
    /// RSASSA-PKCS1-v1_5 using SHA-256.
    Rs256,
}

/// Relies on `jsonwebtoken::decode` with a `Validation` set up from the
/// arguments: whether `token` is signed with `key` under `algorithm` and its
/// claims pass validation. The expiry check reads the clock, so nothing is
/// stated.
#[verifier::external_body]
fn token_accepted(
    token: &str,
    key: &jsonwebtoken::DecodingKey,
    algorithm: TokenAlgorithm,
    validate_nbf: bool,
    validate_aud: bool,
    required_claims: &Vec<String>,
) -> (r: bool) {
    let algorithm = match algorithm {
        TokenAlgorithm::Rs256 => jsonwebtoken::Algorithm::RS256,
    };
    let mut validation = jsonwebtoken::Validation::new(algorithm);
    validation.validate_nbf = validate_nbf;
    validation.validate_aud = validate_aud;
    validation.set_required_spec_claims(required_claims.as_slice());
    jsonwebtoken::decode::<serde_json::Map<String, serde_json::Value>>(token, key, &validation).is_ok()
}

/// `k` is the position of the first ':' in `s`.
pub open spec fn is_first_colon(s: Seq<char>, k: int) -> bool {
    &&& 0 <= k < s.len()
    &&& s[k] == ':'
    &&& forall|j: int| 0 <= j < k ==> s[j] != ':'
}

/// What follows the first ':' of `s`, where there is one.
pub open spec fn after_first_colon(s: Seq<char>) -> Option<Seq<char>> {
    if exists|k: int| is_first_colon(s, k) {
        Some(s.subrange((choose|k: int| is_first_colon(s, k)) + 1, s.len() as int))
    } else {
        None
    }
}

/// The password of `user:password` credentials encoded as `bytes`.
pub open spec fn credentials_password(bytes: Seq<u8>) -> Option<Seq<char>> {
    if valid_utf8(bytes) {
        after_first_colon(decode_utf8(bytes))
    } else {
        None
    }
}

/// The password of the HTTP Basic credentials in an `Authorization` header value.
pub open spec fn basic_password(header: Seq<char>) -> Option<Seq<char>> {
    if has_prefix(header, "Basic "@) {
        match base64_decoded(header.subrange("Basic "@.len() as int, header.len() as int)) {
            Some(bytes) => credentials_password(bytes),
            None => None,
        }
    } else {
        None
    }
}

/// The password of `user:password` credentials given as bytes: what follows
/// the first ':', where the bytes are UTF-8 text holding one.
pub fn password_from_credentials(bytes: Vec<u8>) -> (r: Option<String>)
    ensures
        match r {
            Some(p) => credentials_password(bytes@) == Some(p@),
            None => credentials_password(bytes@) is None,
        },
{
    let ghost b = bytes@;
    let text = match utf8_text(bytes) {
        Some(t) => t,
        None => return None,
    };
    let s = text.as_str();
    let n = s.unicode_len();
    let mut k: usize = 0;
    while k < n
        invariant
            n == s@.len(),
            k <= n,
            b == bytes@,
            valid_utf8(b),
            s@ == decode_utf8(b),
            forall|j: int| 0 <= j < k ==> s@[j] != ':',
        decreases n - k,
    {
        if s.get_char(k) == ':' {
            proof {
                assert(is_first_colon(s@, k as int));
                let c = choose|c: int| is_first_colon(s@, c);
                if c < k {
                    assert(s@[c] == ':');
                } else if c > k {
                    assert(s@[k as int] == ':');
                }
                assert(c == k);
                assert(s@ == decode_utf8(b));
                assert(after_first_colon(s@) == Some(s@.subrange(k + 1, n as int)));
            }
            let password = s.substring_char(k + 1, n).to_owned();
            assert(credentials_password(b) == Some(password@));
            return Some(password);
        }
        k += 1;
    }
    None
}

/// The password of the HTTP Basic credentials in `header`, the value of an
/// `Authorization` header.
pub fn extract_auth_password(header: &str) -> (r: Option<String>)
    ensures
        match r {
            Some(p) => basic_password(header@) == Some(p@),
            None => basic_password(header@) is None,
        },
{
    let scheme = "Basic ";
    match strip_prefix(header, scheme) {
        None => None,
        Some(encoded) => match decode_base64(encoded.as_str()) {
            None => None,
            Some(bytes) => password_from_credentials(bytes),
        },
    }
}

/// Why the guard could not be set up.
#[derive(Debug)]
pub enum AuthSetupError {
    /// The configured key is not an RSA public key in PEM form.
    InvalidPublicKey,
}

/// Whether requests must carry a token, decided once at startup.
pub enum AuthGate {
    /// No key was configured: every request is let through.
    Disabled,
    /// Requests must carry a token signed with this key.
    Enabled(jsonwebtoken::DecodingKey),
}

impl AuthGate {
    /// The guard for the configured key: none configured disables it; a
    /// configured key that does not parse is an error and never disables it.
    pub fn from_public_key_pem(pem: Option<Vec<u8>>) -> (r: Result<AuthGate, AuthSetupError>)
        ensures
            pem is None ==> r matches Ok(AuthGate::Disabled),
            pem is Some ==> r matches Ok(AuthGate::Enabled(_)) || r is Err,
            pem is Some ==> (r is Ok <==> rsa_pem_accepted(pem->0@)),
    {
        match pem {
            None => Ok(AuthGate::Disabled),
            Some(bytes) => match rsa_public_key(bytes.as_slice()) {
                Ok(key) => Ok(AuthGate::Enabled(key)),
                Err(_) => Err(AuthSetupError::InvalidPublicKey),
            },
        }
    }
}

/// The algorithm tokens are signed with.
pub const TOKEN_ALGORITHM: TokenAlgorithm = TokenAlgorithm::Rs256;

/// The claim every token must carry: its expiry.
pub const REQUIRED_CLAIM: &'static str = "exp";

/// A token that is not valid yet is refused.
pub const VALIDATE_NOT_BEFORE: bool = true;

/// The audience of a token is not checked.
pub const VALIDATE_AUDIENCE: bool = false;

/// The reason given when a request carries no usable credentials.
pub open spec fn missing_credentials() -> Seq<char> {
    "missing or malformed Authorization header"@
}

/// The reason given when a request's token is not accepted.
pub open spec fn token_rejected() -> Seq<char> {
    "token not accepted"@
}

pub open spec fn unit_view(r: Result<(), RequestError>) -> Result<(), RequestErrorView> {
    match r {
        Ok(()) => Ok(()),
        Err(e) => Err(e@),
    }
}

/// What the guard decides for a request whose credentials hold `password`,
/// when the token check said `accepted`.
pub open spec fn gate_outcome(enabled: bool, password: Option<Seq<char>>, accepted: bool) -> Result<(), RequestErrorView> {
    if !enabled {
        Ok(())
    } else {
        match password {
            None => Err(RequestErrorView::InvalidToken(missing_credentials())),
            Some(_) => if accepted {
                Ok(())
            } else {
                Err(RequestErrorView::InvalidToken(token_rejected()))
            },
        }
    }
}

/// The decision of an enabled guard, given the password found in the
/// request and whether its token was accepted.
pub fn token_verdict(password: &Option<String>, accepted: bool) -> (r: Result<(), RequestError>)
    ensures
        unit_view(r) == gate_outcome(true, opt_view(password), accepted),
{
    match password {
        None => Err(RequestError::InvalidToken { reason: "missing or malformed Authorization header".to_owned() }),
        Some(_) => if accepted {
            Ok(())
        } else {
            Err(RequestError::InvalidToken { reason: "token not accepted".to_owned() })
        },
    }
}

pub open spec fn opt_view(o: &Option<String>) -> Option<Seq<char>> {
    match o {
        Some(s) => Some(s@),
        None => None,
    }
}

pub open spec fn text_view(o: Option<&str>) -> Option<Seq<char>> {
    match o {
        Some(s) => Some(s@),
        None => None,
    }
}

/// The password in an optional `Authorization` header value.
pub open spec fn header_password(authorization: Option<Seq<char>>) -> Option<Seq<char>> {
    match authorization {
        Some(h) => basic_password(h),
        None => None,
    }
}

/// Whether a request with `authorization` as its `Authorization` header
/// (where it has one) may go on to be resolved.
pub fn authorize(gate: &AuthGate, authorization: Option<&str>) -> (r: Result<(), RequestError>)
    ensures
        unit_view(r) == gate_outcome(gate is Enabled, header_password(text_view(authorization)), true)
            || unit_view(r) == gate_outcome(gate is Enabled, header_password(text_view(authorization)), false),
{
    match gate {
        AuthGate::Disabled => {
            assert(unit_view(Ok(())) == gate_outcome(false, None, true));
            Ok(())
        },
        AuthGate::Enabled(key) => {
            let password = match authorization {
                Some(h) => extract_auth_password(h),
                None => None,
            };
            let accepted = match &password {
                Some(token) => {
                    let claims = vec![REQUIRED_CLAIM.to_owned()];
                    token_accepted(token.as_str(), key, TOKEN_ALGORITHM, VALIDATE_NOT_BEFORE, VALIDATE_AUDIENCE, &claims)
                },
                None => false,
            };
            token_verdict(&password, accepted)
        },
    }
}

} // verus!
