use vstd::prelude::*;

use crate::errors::Error;

verus! {

/// The expiry claim stamped into every issued token: one fixed far-future
/// epoch second, the same for all tokens, rather than a value computed from
/// the clock.
pub const TOKEN_EXPIRY: u64 = 10000000000;

/// The compact signed token produced for a subject and an expiry claim when
/// signing with `key`. Signing is deterministic — the same key and claims
/// give the same token — so the token is a function of these arguments and
/// nothing else; which string it is, nothing in the library states.
pub uninterp spec fn token_of(key: Seq<u8>, sub: u64, exp: u64) -> Seq<char>;

/// Holds when the subject carried by token `t` is `u`: however `t` may have
/// been produced by signing with `key`, its subject claim was `u`.
pub open spec fn token_subject_is(key: Seq<u8>, t: Seq<char>, u: u64) -> bool {
    forall|s: u64, e: u64| #[trigger] token_of(key, s, e) == t ==> s == u
}

/// A token issued for one subject never passes as a token for another:
/// whoever accepts it as carrying subject `u` in fact named the subject it
/// was signed for.
pub proof fn lemma_token_subject(key: Seq<u8>, sub: u64, exp: u64, u: u64)
    requires
        token_subject_is(key, token_of(key, sub, exp), u),
    ensures
        u == sub,
{
    assert(token_of(key, sub, exp) == token_of(key, sub, exp));
}

/// Relies on `jsonwebtoken::encode` with the default header (HS256) and a
/// secret key: it serializes the claims `{"exp": exp, "sub": sub}`, signs
/// them with the key, and returns the compact token — a deterministic
/// function of the key and the claims. This path cannot fail: the key from
/// `EncodingKey::from_secret` always matches the HS256 family, the
/// fixed-shape claims object always serializes, and HMAC signing returns a
/// digest for every message, so a token is always produced.
#[verifier::external_body]
fn sign_claims(secret: &[u8], sub: u64, exp: u64) -> (r: String)
    ensures
        r@ == token_of(secret@, sub, exp),
{
    let mut claims = serde_json::Map::new();
    claims.insert(String::from("sub"), serde_json::Value::from(sub));
    claims.insert(String::from("exp"), serde_json::Value::from(exp));
    let key = jsonwebtoken::EncodingKey::from_secret(secret);
    jsonwebtoken::encode(&jsonwebtoken::Header::default(), &serde_json::Value::Object(claims), &key)
        .expect("HMAC signing of a fixed-shape claims object cannot fail")
}

/// Relies on `jsonwebtoken::decode` with the default validation (HS256,
/// expiry required): on success it returns exactly the claims serialized
/// into the token, so the subject it reports is the subject the token was
/// signed with — whatever else (the signature check against `secret`, the
/// expiry check against the clock) made the call succeed or fail. `None`
/// when validation fails or the subject claim is absent or not a number.
#[verifier::external_body]
fn decode_claims(secret: &[u8], token: &str) -> (r: Option<u64>)
    ensures
        r matches Some(u) ==> token_subject_is(secret@, token@, u),
{
    let key = jsonwebtoken::DecodingKey::from_secret(secret);
    let validation = jsonwebtoken::Validation::default();
    let data = jsonwebtoken::decode::<serde_json::Value>(token, &key, &validation).ok()?;
    data.claims.get("sub").and_then(serde_json::Value::as_u64)
}

/// The token service: stateless beyond the symmetric signing key fixed at
/// construction. Issuing and verifying take no locks and touch no store.
pub struct TokenService {
    pub secret: Vec<u8>,
}

impl TokenService {
    /// A service signing and verifying with the given symmetric key. The
    /// key is configuration handed in at process start; nothing here
    /// invents or hides one.
    pub fn new(secret: Vec<u8>) -> (r: TokenService)
        ensures
            r.secret@ == secret@,
    {
        TokenService { secret }
    }

    /// Issues a token for `user_id` with the fixed far-future expiry.
    /// Issuing always succeeds: signing a fixed-shape claims object with a
    /// symmetric key has no failure case.
    pub fn issue(&self, user_id: u64) -> (r: String)
        ensures
            r@ == token_of(self.secret@, user_id, TOKEN_EXPIRY),
    {
        sign_claims(self.secret.as_slice(), user_id, TOKEN_EXPIRY)
    }

    /// Verifies a bearer token and returns the subject it carries. Whatever
    /// the outcome of the outside checks — signature, expiry, claim shape —
    /// a success names the subject the token was signed for, and every
    /// failure is `InvalidToken`.
    pub fn verify(&self, token: &str) -> (r: Result<u64, Error>)
        ensures
            r matches Ok(u) ==> token_subject_is(self.secret@, token@, u),
            r matches Err(e) ==> e == Error::InvalidToken,
    {
        match decode_claims(self.secret.as_slice(), token) {
            Some(u) => Ok(u),
            None => Err(Error::InvalidToken),
        }
    }
}

} // verus!
