//! Issuance of the signed identity token.

use vstd::prelude::*;
use vstd::string::*;
use std::collections::BTreeMap;
use hmac::Hmac;
use hmac::Mac;
use jwt::SignWithKey;
use sha2::Sha256;
use crate::text::opt_text;
use crate::templates::UserProfile;
use crate::templates::ProfileView;

verus! {

/// The least number of key bytes accepted for signing: the output size of
/// SHA-256.
pub const MIN_KEY_LEN: usize = 32;

/// Why no token was issued. Neither variant carries any key material.
#[derive(Clone, Copy, Debug, PartialEq, Eq, Structural)]
pub enum SigningError {
    /// The key is shorter than [`MIN_KEY_LEN`] bytes.
    KeyTooShort,
    /// The signing backend refused the key or the claims.
    Rejected,
}

/// A claim set: names with optional text values.
pub type Claims = Seq<(Seq<char>, Option<Seq<char>>)>;

/// A list of claims, each side as its characters.
pub open spec fn claims_text(v: Seq<(String, Option<String>)>) -> Claims {
    Seq::new(v.len(), |i: int| (v[i].0@, opt_text(v[i].1)))
}

/// The claim set of a profile.
pub open spec fn claims_of(profile: ProfileView) -> Claims {
    seq![
        ("username"@, Some(profile.name)),
        ("discriminator"@, Some(profile.discriminator)),
        ("email"@, profile.email),
    ]
}

/// The compact HS256 token that the `jwt` crate issues for a claim set under
/// a key, or `None` where it issues none.
pub uninterp spec fn hs256_token(claims: Seq<(Seq<char>, Option<Seq<char>>)>, key: Seq<u8>) -> Option<Seq<char>>;

/// The standard base64 decoding of a text by the `base64` crate, or `None`
/// where the text is not valid base64.
pub uninterp spec fn base64_decoded(text: Seq<char>) -> Option<Seq<u8>>;

/// The bytes of an optional byte vector.
pub open spec fn bytes_view(o: Option<Vec<u8>>) -> Option<Seq<u8>> {
    match o {
        Some(v) => Some(v@),
        None => None,
    }
}

/// Calls `jwt::SignWithKey::sign_with_key` on the claims, collected into a
/// map, with an HMAC-SHA256 key made by `Hmac::new_from_slice`. The token is
/// a function of the claims and the key alone.
#[verifier::external_body]
fn hs256_sign(claims: &Vec<(String, Option<String>)>, key: &Vec<u8>) -> (r: Option<String>)
    ensures
        opt_text(r) == hs256_token(claims_text(claims@), key@),
{
    let mac: Hmac<Sha256> = Hmac::new_from_slice(key.as_slice()).ok()?;
    let map: BTreeMap<String, Option<String>> = claims.iter().cloned().collect();
    map.sign_with_key(&mac).ok()
}

/// Calls `base64::decode`: the bytes are a function of the text alone.
#[verifier::external_body]
pub(crate) fn base64_decode(text: &str) -> (r: Option<Vec<u8>>)
    ensures
        bytes_view(r) == base64_decoded(text@),
{
    base64::decode(text).ok()
}

/// The result of signing a profile under a key.
pub open spec fn signed(profile: ProfileView, key: Seq<u8>) -> Result<Seq<char>, SigningError> {
    if key.len() < MIN_KEY_LEN {
        Err(SigningError::KeyTooShort)
    } else {
        match hs256_token(claims_of(profile), key) {
            Some(token) => Ok(token),
            None => Err(SigningError::Rejected),
        }
    }
}

/// The characters of a signing result.
pub open spec fn signed_text(r: Result<String, SigningError>) -> Result<Seq<char>, SigningError> {
    match r {
        Ok(token) => Ok(token@),
        Err(e) => Err(e),
    }
}

/// A copy of an optional string.
fn copy_opt(o: &Option<String>) -> (r: Option<String>)
    ensures
        opt_text(r) == opt_text(*o),
{
    match o {
        Some(s) => Some(s.clone()),
        None => None,
    }
}

/// Signs the profile's claims with HS256. A key of fewer than
/// [`MIN_KEY_LEN`] bytes is refused before anything is signed.
pub fn sign(profile: &UserProfile, key: &Vec<u8>) -> (r: Result<String, SigningError>)
    ensures
        signed_text(r) == signed(profile@, key@),
{
    if key.len() < MIN_KEY_LEN {
        return Err(SigningError::KeyTooShort);
    }
    let mut claims: Vec<(String, Option<String>)> = Vec::new();
    claims.push(("username".to_owned(), Some(profile.name.clone())));
    claims.push(("discriminator".to_owned(), Some(profile.discriminator.clone())));
    claims.push(("email".to_owned(), copy_opt(&profile.email)));
    assert(claims_text(claims@) =~= claims_of(profile@));
    match hs256_sign(&claims, key) {
        Some(token) => Ok(token),
        None => Err(SigningError::Rejected),
    }
}

/// A key shorter than the minimum never yields a token, whatever the profile
/// and whatever the signing backend would do with it.
pub proof fn short_key_never_signs(profile: ProfileView, key: Seq<u8>)
    requires
        key.len() < MIN_KEY_LEN,
    ensures
        signed(profile, key) == Err::<Seq<char>, SigningError>(SigningError::KeyTooShort),
{
}

} // verus!
