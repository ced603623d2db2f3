//! Random identifiers, digests and signed claims.
use crate::json::{self, Json, JsonView};
use crate::types::{Error, ErrorView};
use base64::Engine;
use rand::RngExt;
use sha2::Digest;
use vstd::prelude::*;

verus! {

/// `rand::rng` and its `random_iter`: that many bytes, of whose values nothing is known.
#[verifier::external_body]
pub(crate) fn random_bytes(n: usize) -> (r: Vec<u8>)
    ensures
        r@.len() == n,
{
    rand::rng().random_iter().take(n).collect()
}

/// Bytes in the URL-safe base 64 notation without padding.
pub uninterp spec fn base64_url_of(bytes: Seq<u8>) -> Seq<char>;

/// `base64::engine::general_purpose::URL_SAFE_NO_PAD` and its `encode`: the notation is a
/// function of the bytes.
#[verifier::external_body]
pub(crate) fn base64_url(bytes: &[u8]) -> (r: String)
    ensures
        r@ == base64_url_of(bytes@),
{
    base64::engine::general_purpose::URL_SAFE_NO_PAD.encode(bytes)
}

/// Whether a text is a drawn one: some `n` bytes in the URL-safe base 64 notation.
pub open spec fn is_drawn(s: Seq<char>, n: nat) -> bool {
    exists|bytes: Seq<u8>| bytes.len() == n && s == #[trigger] base64_url_of(bytes)
}

/// The bytes that a text denotes in the URL-safe base 64 notation without padding.
pub uninterp spec fn base64_bytes(s: Seq<char>) -> Option<Seq<u8>>;

/// `base64::engine::general_purpose::URL_SAFE_NO_PAD` and its `decode`: the bytes are a function
/// of the text; a text that is not in the notation has none.
#[verifier::external_body]
pub(crate) fn base64_url_decode(s: &str) -> (r: Option<Vec<u8>>)
    ensures
        (match r {
            Some(b) => Some(b@),
            None => None,
        }) == base64_bytes(s@),
{
    base64::engine::general_purpose::URL_SAFE_NO_PAD.decode(s.as_bytes()).ok()
}

/// The SHA-256 digest of bytes.
pub uninterp spec fn sha256_of(bytes: Seq<u8>) -> Seq<u8>;

/// `sha2::Sha256::digest`: the digest is a function of the bytes, thirty-two bytes long.
#[verifier::external_body]
fn sha256(bytes: &[u8]) -> (r: Vec<u8>)
    ensures
        r@ == sha256_of(bytes@),
        r@.len() == 32,
{
    sha2::Sha256::digest(bytes).to_vec()
}

/// The letter for a hexadecimal digit.
pub open spec fn hex_digit(d: int) -> char {
    if d == 10 {
        'a'
    } else if d == 11 {
        'b'
    } else if d == 12 {
        'c'
    } else if d == 13 {
        'd'
    } else if d == 14 {
        'e'
    } else if d == 15 {
        'f'
    } else {
        crate::decimal::digit_char(d)
    }
}

/// Bytes in hexadecimal notation, two digits for each.
pub open spec fn hex_of(bytes: Seq<u8>) -> Seq<char>
    decreases bytes.len(),
{
    if bytes.len() == 0 {
        Seq::empty()
    } else {
        hex_of(bytes.drop_last()).push(hex_digit(bytes.last() as int / 16)).push(
            hex_digit(bytes.last() as int % 16),
        )
    }
}

fn hex_char(d: u8) -> (r: char)
    requires
        d < 16,
    ensures
        r == hex_digit(d as int),
{
    if d == 0 {
        '0'
    } else if d == 1 {
        '1'
    } else if d == 2 {
        '2'
    } else if d == 3 {
        '3'
    } else if d == 4 {
        '4'
    } else if d == 5 {
        '5'
    } else if d == 6 {
        '6'
    } else if d == 7 {
        '7'
    } else if d == 8 {
        '8'
    } else if d == 9 {
        '9'
    } else if d == 10 {
        'a'
    } else if d == 11 {
        'b'
    } else if d == 12 {
        'c'
    } else if d == 13 {
        'd'
    } else if d == 14 {
        'e'
    } else {
        'f'
    }
}

/// Writes bytes in hexadecimal notation.
pub fn to_hex(bytes: &[u8]) -> (r: String)
    ensures
        r@ == hex_of(bytes@),
{
    let mut out = String::new();
    let mut i: usize = 0;
    while i < bytes.len()
        invariant
            i <= bytes@.len(),
            out@ == hex_of(bytes@.take(i as int)),
        decreases bytes@.len() - i,
    {
        let b: u8 = bytes[i];
        out.push(hex_char(b / 16));
        out.push(hex_char(b % 16));
        proof {
            assert(bytes@.take(i + 1).drop_last() =~= bytes@.take(i as int));
            assert(bytes@.take(i + 1).last() == b);
        }
        i = i + 1;
    }
    assert(bytes@.take(i as int) =~= bytes@);
    out
}

/// What is kept of a secret.
pub open spec fn secret_digest(secret: Seq<char>) -> Seq<char> {
    hex_of(sha256_of(vstd::utf8::encode_utf8(secret)))
}

/// The SHA-256 digest of a secret in hexadecimal notation.
pub fn hash_secret(secret: &str) -> (r: String)
    ensures
        r@ == secret_digest(secret@),
{
    let d = sha256(secret.as_bytes());
    to_hex(d.as_slice())
}

/// Two byte sequences of equal length with the same hexadecimal notation are equal.
pub proof fn law_hex_is_faithful(a: Seq<u8>, b: Seq<u8>)
    requires
        a.len() == b.len(),
        hex_of(a) == hex_of(b),
    ensures
        a == b,
    decreases a.len(),
{
    if a.len() > 0 {
        let ha = hex_of(a);
        let hb = hex_of(b);
        let pa = hex_of(a.drop_last());
        let pb = hex_of(b.drop_last());
        let n = ha.len() as int;
        assert(ha[n - 1] == hex_digit(a.last() as int % 16));
        assert(hb[n - 1] == hex_digit(b.last() as int % 16));
        assert(ha[n - 2] == hex_digit(a.last() as int / 16));
        assert(hb[n - 2] == hex_digit(b.last() as int / 16));
        assert(a.last() == b.last());
        assert(pa =~= ha.take(n - 2));
        assert(pb =~= hb.take(n - 2));
        law_hex_is_faithful(a.drop_last(), b.drop_last());
        assert(a =~= a.drop_last().push(a.last()));
        assert(b =~= b.drop_last().push(b.last()));
    } else {
        assert(a =~= b);
    }
}

/// Claims signed with a secret; nothing where they cannot be signed.
pub uninterp spec fn signed_claims(claims: JsonView, secret: Seq<char>) -> Option<Seq<char>>;

/// The claims of a token whose signature fits a secret, whatever its age.
pub uninterp spec fn claims_of(token: Seq<char>, secret: Seq<char>) -> Option<JsonView>;

/// Whether the claims in a token, if there is one, have the members that were signed.
pub open spec fn carries(token: Option<Seq<char>>, claims: JsonView, secret: Seq<char>) -> bool {
    token matches Some(t) ==> (claims_of(t, secret) matches Some(c) && json::same_members(
        c,
        claims,
    ))
}

/// `jsonwebtoken::encode` under HS256: the token is a function of the claims and the secret. What
/// is signed of an object of null, boolean, integer and text members, none under a name that
/// starts with `$`, is an object with the same members.
#[verifier::external_body]
fn jwt_encode(claims: &Json, secret: &str) -> (r: Option<String>)
    ensures
        r.deep_view() == signed_claims(claims@, secret@),
        json::flat(claims@) ==> carries(r.deep_view(), claims@, secret@),
{
    jsonwebtoken::encode(
        &jsonwebtoken::Header::new(jsonwebtoken::Algorithm::HS256),
        &json::to_value(claims),
        &jsonwebtoken::EncodingKey::from_secret(secret.as_bytes()),
    ).ok()
}

/// `jsonwebtoken::decode` under HS256: where claims come back, the signature of the token fits
/// the secret, and the claims are those of the token. Whether a token has expired depends on the
/// time, so that claims come back is not promised.
#[verifier::external_body]
fn jwt_decode(token: &str, secret: &str) -> (r: Option<Json>)
    ensures
        r matches Some(c) ==> claims_of(token@, secret@) == Some(c@),
{
    jsonwebtoken::decode::<serde_json::Value>(
        token,
        &jsonwebtoken::DecodingKey::from_secret(secret.as_bytes()),
        &jsonwebtoken::Validation::new(jsonwebtoken::Algorithm::HS256),
    ).ok().map(|t| json::from_value(t.claims))
}

/// Signs the claims of a challenge.
pub fn create_challenge_jwt(claims: &Json, secret: &str) -> (r: Result<String, Error>)
    ensures
        match r {
            Ok(t) => signed_claims(claims@, secret@) == Some(t@) && (json::flat(claims@) ==> carries(
                Some(t@),
                claims@,
                secret@,
            )),
            Err(e) => signed_claims(claims@, secret@) is None && e.deep_view()
                == ErrorView::Internal("JWT encode error"@),
        },
{
    signed_or_error(jwt_encode(claims, secret))
}

/// The outcome of signing.
pub fn signed_or_error(token: Option<String>) -> (r: Result<String, Error>)
    ensures
        match token {
            Some(t) => r == Ok::<String, Error>(t),
            None => r matches Err(e) && e.deep_view() == ErrorView::Internal("JWT encode error"@),
        },
{
    match token {
        Some(t) => Ok(t),
        None => Err(Error::internal("JWT encode error")),
    }
}

/// Reads the claims of a challenge; one that was not signed here, or has expired, is refused.
pub fn decode_challenge_jwt(token: &str, secret: &str) -> (r: Result<Json, Error>)
    ensures
        match r {
            Ok(c) => claims_of(token@, secret@) == Some(c@),
            Err(e) => e is Unauthorized,
        },
{
    claims_or_error(jwt_decode(token, secret))
}

/// The outcome of reading claims.
pub fn claims_or_error(claims: Option<Json>) -> (r: Result<Json, Error>)
    ensures
        match claims {
            Some(c) => r == Ok::<Json, Error>(c),
            None => r matches Err(e) && e is Unauthorized,
        },
{
    match claims {
        Some(c) => Ok(c),
        None => Err(Error::Unauthorized),
    }
}

} // verus!
