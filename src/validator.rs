//! The decisions of token authentication.
//!
//! Authenticating a token runs in steps, with the network and signature work
//! done by the caller in between:
//! 1. [`TokenValidator::key_request`] reads the token header and names the key
//!    that must verify it;
//! 2. the caller obtains the key set as [`TokenValidator::plan_key_set`]
//!    directs, recording each fetch with [`crate::cache::record_fetch`], and
//!    calls [`TokenValidator::select_key`] to turn the named key into a
//!    verifier;
//! 3. the caller checks the signature with that verifier, under the algorithm
//!    of the header, and decodes the payload;
//! 4. [`TokenValidator::accept_claims`] decides on the decoded claims.
//!
//! The algorithm comes from the token itself, which an attacker controls.
//! What bounds it is the verifier: [`TokenValidator::select_key`] only ever
//! builds RSA keys, and `jsonwebtoken` refuses to check a signature under an
//! algorithm of another family than the key's. A token may still pick any of
//! the RSA algorithms, whichever the provider meant its key for.
use vstd::prelude::*;
use vstd::string::StringExecFns;
use vstd::string::StrSliceExecFns;

use crate::cache::{fresh_value, needs_fetch, CacheEntry};
use crate::error::AuthError;
use crate::jwt::{header_kid_of, rsa_components_accepted, rsa_decoding_key, token_header};
use crate::model::{Claims, Jwks, OidcConfig};

verus! {

/// How long fetched provider documents stay fresh, in milliseconds.
pub const CACHE_TTL_MS: u64 = 300_000;

/// Clock skew tolerated on a token's expiry, in seconds.
pub const EXPIRY_LEEWAY_SECS: u64 = 60;

/// The path of the discovery document below the provider's base URL.
pub open spec fn discovery_path() -> Seq<char> {
    "/.well-known/openid-configuration"@
}

/// The key-identifier text reported when a token header names no key.
pub open spec fn missing_kid_text() -> Seq<char> {
    "No KID in header"@
}

/// The scheme prefix of an `Authorization` header carrying a bearer token.
pub open spec fn bearer_prefix() -> Seq<char> {
    "Bearer "@
}

/// Whether a token expiring at `exp` is still accepted at `now` (both in
/// seconds since the Unix epoch).
pub open spec fn unexpired(exp: int, now: int) -> bool {
    exp + EXPIRY_LEEWAY_SECS >= now
}

/// Whether decoded claims are accepted for `audience` and `issuer` at `now`.
pub open spec fn claims_acceptable(c: Claims, audience: Seq<char>, issuer: Seq<char>, now: int) -> bool {
    &&& c.aud@ == audience
    &&& c.iss@ == issuer
    &&& unexpired(c.exp as int, now)
}

/// Whether an `Authorization` header value uses the bearer scheme.
pub open spec fn is_bearer(h: Seq<char>) -> bool {
    h.len() >= bearer_prefix().len() && h.subrange(0, bearer_prefix().len() as int) == bearer_prefix()
}

/// The credential of an `Authorization` header value: what follows the
/// `Bearer ` prefix. An absent header, or one of another scheme, presents no
/// token.
pub fn bearer_credential(header: Option<&str>) -> (r: Result<&str, AuthError>)
    ensures
        (header is Some && is_bearer(header->0@)) ==> (r matches Ok(t) && t@ == header->0@.subrange(
            bearer_prefix().len() as int,
            header->0@.len() as int,
        )),
        !(header is Some && is_bearer(header->0@)) ==> r matches Err(AuthError::MissingToken),
{
    let h = match header {
        Some(h) => h,
        None => return Err(AuthError::MissingToken),
    };
    let prefix = "Bearer ";
    proof {
        reveal_strlit("Bearer ");
    }
    let plen = prefix.unicode_len();
    let hlen = h.unicode_len();
    if hlen < plen {
        return Err(AuthError::MissingToken);
    }
    let mut i: usize = 0;
    while i < plen
        invariant
            header == Some(h),
            i <= plen <= hlen,
            plen == bearer_prefix().len(),
            hlen == h@.len(),
            prefix@ == bearer_prefix(),
            forall|j: int| 0 <= j < i ==> h@[j] == bearer_prefix()[j],
        decreases plen - i,
    {
        if h.get_char(i) != prefix.get_char(i) {
            proof {
                assert(h@.subrange(0, plen as int)[i as int] != bearer_prefix()[i as int]);
                assert(h@.subrange(0, plen as int) != bearer_prefix());
            }
            return Err(AuthError::MissingToken);
        }
        i = i + 1;
    }
    proof {
        assert(h@.subrange(0, plen as int) =~= bearer_prefix());
    }
    Ok(h.substring_char(plen, hlen))
}

/// Claims naming another audience than the configured one are never accepted,
/// whatever their other fields.
pub proof fn lemma_foreign_audience_rejected(c: Claims, audience: Seq<char>, issuer: Seq<char>, now: int)
    requires
        c.aud@ != audience,
    ensures
        !claims_acceptable(c, audience, issuer, now),
{
}

/// Claims naming another issuer than the provider's are never accepted.
pub proof fn lemma_foreign_issuer_rejected(c: Claims, audience: Seq<char>, issuer: Seq<char>, now: int)
    requires
        c.iss@ != issuer,
    ensures
        !claims_acceptable(c, audience, issuer, now),
{
}

/// Claims that expired longer ago than the tolerated clock skew are never
/// accepted.
pub proof fn lemma_expired_rejected(c: Claims, audience: Seq<char>, issuer: Seq<char>, now: int)
    requires
        c.exp + EXPIRY_LEEWAY_SECS < now,
    ensures
        !claims_acceptable(c, audience, issuer, now),
{
}

/// Claims naming the configured audience and the provider's issuer, expiring
/// no earlier than now, are accepted.
pub proof fn lemma_matching_unexpired_accepted(
    c: Claims,
    audience: Seq<char>,
    issuer: Seq<char>,
    now: int,
)
    requires
        c.aud@ == audience,
        c.iss@ == issuer,
        c.exp >= now,
    ensures
        claims_acceptable(c, audience, issuer, now),
{
}

/// The request for a verifying key that a token header makes.
#[derive(Debug)]
pub struct KeyRequest {
    /// The algorithm the header declares; the signature is checked under it.
    pub alg: jsonwebtoken::Algorithm,
    /// The identifier of the key that must verify the token.
    pub kid: String,
}

/// What must happen before a key set can be handed out.
#[derive(Debug)]
pub enum KeySetPlan {
    /// The cached key set is fresh and is used as it is.
    UseCached,
    /// The metadata is fresh: fetch the key set from the location it names.
    FetchKeys(String),
    /// The metadata is missing or stale: fetch it from the discovery URL, then
    /// fetch the key set from the location it names.
    FetchMetadata(String),
}

/// The fixed configuration of a validator.
#[derive(Debug)]
pub struct TokenValidator {
    /// Base URL of the identity provider.
    pub idp_url: String,
    /// The audience every accepted token must name.
    pub audience: String,
    /// Freshness window of cached provider documents, in milliseconds.
    pub cache_ttl: u64,
}

impl TokenValidator {
    /// A validator for the provider at `idp_url`, accepting tokens issued for
    /// `audience`, caching provider documents for five minutes.
    pub fn new(idp_url: &str, audience: &str) -> (r: Self)
        ensures
            r.idp_url@ == idp_url@,
            r.audience@ == audience@,
            r.cache_ttl == CACHE_TTL_MS,
    {
        TokenValidator {
            idp_url: idp_url.to_owned(),
            audience: audience.to_owned(),
            cache_ttl: CACHE_TTL_MS,
        }
    }

    /// The location of the provider's discovery document.
    pub fn well_known_url(&self) -> (r: String)
        ensures
            r@ == self.idp_url@ + discovery_path(),
    {
        let mut url = self.idp_url.clone();
        url.append("/.well-known/openid-configuration");
        url
    }

    /// The cached document of `slot` when it is fresh at `now`; `None` means
    /// that it must be fetched (and installed) before use.
    pub fn cached<'a, T>(&self, slot: &'a Option<CacheEntry<T>>, now: u64) -> (r: Option<&'a T>)
        ensures
            r is Some <==> !needs_fetch(*slot, now, self.cache_ttl),
            r is Some ==> *r->0 == slot->0.value,
    {
        fresh_value(slot, now, self.cache_ttl)
    }

    /// Decides how to obtain a key set at `now`, given the two cache slots. A
    /// key set is only ever fetched from the location named by fresh metadata.
    pub fn plan_key_set(
        &self,
        keys: &Option<CacheEntry<Jwks>>,
        metadata: &Option<CacheEntry<OidcConfig>>,
        now: u64,
    ) -> (r: KeySetPlan)
        ensures
            !needs_fetch(*keys, now, self.cache_ttl) ==> r is UseCached,
            needs_fetch(*keys, now, self.cache_ttl) && !needs_fetch(*metadata, now, self.cache_ttl)
                ==> (r matches KeySetPlan::FetchKeys(u) && u@ == metadata->0.value.jwks_uri@),
            needs_fetch(*keys, now, self.cache_ttl) && needs_fetch(*metadata, now, self.cache_ttl)
                ==> (r matches KeySetPlan::FetchMetadata(u) && u@ == self.idp_url@ + discovery_path()),
    {
        if self.cached(keys, now).is_some() {
            return KeySetPlan::UseCached;
        }
        match self.cached(metadata, now) {
            Some(config) => KeySetPlan::FetchKeys(config.jwks_uri.clone()),
            None => KeySetPlan::FetchMetadata(self.well_known_url()),
        }
    }

    /// Reads the header of `token` and names the key that must verify it.
    ///
    /// A header that does not decode makes the token invalid; a header without
    /// a key identifier is reported as a key that cannot be found.
    pub fn key_request(&self, token: &str) -> (r: Result<KeyRequest, AuthError>)
        ensures
            match header_kid_of(token@) {
                None => r matches Err(AuthError::InvalidToken),
                Some(None) => r matches Err(AuthError::KeyNotFound(t)) && t@ == missing_kid_text(),
                Some(Some(kid)) => r matches Ok(req) && req.kid@ == kid,
            },
    {
        match token_header(token) {
            Err(_) => Err(AuthError::InvalidToken),
            Ok((alg, kid)) => match kid {
                Some(kid) => Ok(KeyRequest { alg, kid }),
                None => Err(AuthError::KeyNotFound(String::from_str("No KID in header"))),
            },
        }
    }

    /// The verifier for the first key of `jwks` whose identifier is `kid`.
    pub fn select_key(&self, jwks: &Jwks, kid: &str) -> (r: Result<
        jsonwebtoken::DecodingKey,
        AuthError,
    >)
        ensures
            !jwks.has_kid(kid@) ==> (r matches Err(AuthError::KeyNotFound(t)) && t@ == kid@),
            jwks.has_kid(kid@) ==> {
                let key = jwks.keys@[jwks.first_with_kid(kid@)];
                &&& r is Ok <==> rsa_components_accepted(key.n@, key.e@)
                &&& r is Err ==> r matches Err(AuthError::KeyConstructionError)
            },
    {
        match jwks.find_key(kid) {
            None => Err(AuthError::KeyNotFound(kid.to_owned())),
            Some(i) => {
                let key = &jwks.keys[i];
                proof {
                    let f = jwks.first_with_kid(kid@);
                    assert(jwks.keys@[i as int].kid@ == kid@);
                    assert(jwks.has_kid(kid@));
                    assert(0 <= f < jwks.keys@.len() && jwks.keys@[f].kid@ == kid@);
                    if f < i {
                    } else if f > i {
                        assert(jwks.keys@[i as int].kid@ != kid@);
                    }
                    assert(f == i);
                }
                match rsa_decoding_key(key.n.as_str(), key.e.as_str()) {
                    Ok(dk) => Ok(dk),
                    Err(_) => Err(AuthError::KeyConstructionError),
                }
            },
        }
    }

    /// Decides on the outcome of the signature check: the decoded claims are
    /// accepted when they name this validator's audience and the provider's
    /// `issuer` and have not expired at `now` (seconds since the Unix epoch).
    /// Every rejection, including a failed signature check, is the same
    /// `InvalidToken`.
    pub fn accept_claims(
        &self,
        decoded: Result<Claims, jsonwebtoken::errors::Error>,
        issuer: &str,
        now: u64,
    ) -> (r: Result<Claims, AuthError>)
        ensures
            match decoded {
                Ok(c) => if claims_acceptable(c, self.audience@, issuer@, now as int) {
                    r == Ok::<Claims, AuthError>(c)
                } else {
                    r matches Err(AuthError::InvalidToken)
                },
                Err(_) => r matches Err(AuthError::InvalidToken),
            },
    {
        match decoded {
            Err(_) => Err(AuthError::InvalidToken),
            Ok(c) => {
                let expected_issuer = issuer.to_owned();
                let fresh_enough = c.exp as u128 + EXPIRY_LEEWAY_SECS as u128 >= now as u128;
                if c.aud == self.audience && c.iss == expected_issuer && fresh_enough {
                    Ok(c)
                } else {
                    Err(AuthError::InvalidToken)
                }
            },
        }
    }
}

} // verus!
