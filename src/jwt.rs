//! What the library takes from `jsonwebtoken`: reading a token's header and
//! building an RSA verifying key from published components.
use vstd::prelude::*;

verus! {

/// `jsonwebtoken`'s verifying key; carried through to signature checking.
#[verifier::external_type_specification]
#[verifier::external_body]
pub struct ExDecodingKey(jsonwebtoken::DecodingKey);

/// `jsonwebtoken`'s signature algorithm tag, as declared by a token header.
#[verifier::external_type_specification]
#[verifier::external_body]
pub struct ExAlgorithm(jsonwebtoken::Algorithm);

/// `jsonwebtoken`'s error value.
#[verifier::external_type_specification]
#[verifier::external_body]
pub struct ExJwtError(jsonwebtoken::errors::Error);

/// The key identifier of a token's header: `None` when the header cannot be
/// decoded, `Some(None)` when it decodes but names no key.
pub uninterp spec fn header_kid_of(token: Seq<char>) -> Option<Option<Seq<char>>>;

/// Whether a modulus and an exponent are both accepted as RSA key material.
pub uninterp spec fn rsa_components_accepted(n: Seq<char>, e: Seq<char>) -> bool;

/// The text of an optional string.
pub open spec fn opt_text(s: Option<String>) -> Option<Seq<char>> {
    match s {
        Some(t) => Some(t@),
        None => None,
    }
}

/// Relies on `jsonwebtoken::decode_header`: splits the token and decodes its
/// header segment without checking the signature, so the outcome is a function
/// of the token text alone. Hands back the declared algorithm and key identifier.
#[verifier::external_body]
pub(crate) fn token_header(token: &str) -> (r: Result<
    (jsonwebtoken::Algorithm, Option<String>),
    jsonwebtoken::errors::Error,
>)
    ensures
        r is Ok <==> header_kid_of(token@) is Some,
        r is Ok ==> opt_text(r->Ok_0.1) == header_kid_of(token@)->0,
{
    jsonwebtoken::decode_header(token).map(|h| (h.alg, h.kid))
}

/// Relies on `jsonwebtoken::DecodingKey::from_rsa_components`: base64url-decodes
/// the modulus and the exponent, failing exactly when one of them does not
/// decode, which depends on the two texts alone.
#[verifier::external_body]
pub(crate) fn rsa_decoding_key(n: &str, e: &str) -> (r: Result<
    jsonwebtoken::DecodingKey,
    jsonwebtoken::errors::Error,
>)
    ensures
        r is Ok <==> rsa_components_accepted(n@, e@),
{
    jsonwebtoken::DecodingKey::from_rsa_components(n, e)
}

} // verus!
