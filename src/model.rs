//! The documents published by the identity provider and the claims of an
//! accepted token.
use vstd::prelude::*;

verus! {

/// Provider metadata read from the discovery document.
#[derive(Debug, Clone)]
pub struct OidcConfig {
    /// Where the provider publishes its signing keys.
    pub jwks_uri: String,
    /// The issuer that every accepted token must name.
    pub issuer: String,
}

/// One published signing key.
#[derive(Debug, Clone)]
pub struct JsonWebKey {
    /// The key identifier that token headers refer to.
    pub kid: String,
    /// The algorithm tag published with the key (e.g. "RS256").
    pub alg: String,
    /// The RSA modulus, base64url encoded.
    pub n: String,
    /// The RSA exponent, base64url encoded.
    pub e: String,
}

/// A provider's key set, in the order in which it was published.
#[derive(Debug, Clone)]
pub struct Jwks {
    pub keys: Vec<JsonWebKey>,
}

/// The payload of an accepted token.
#[derive(Debug)]
pub struct Claims {
    /// The subject identifier.
    pub sub: Option<String>,
    /// The preferred username of the user.
    pub preferred_username: String,
    /// The email address of the user.
    pub email: Option<String>,
    /// The audience the token was issued for.
    pub aud: String,
    /// The issuer of the token.
    pub iss: String,
    /// Expiry, in seconds since the Unix epoch.
    pub exp: usize,
}

impl Jwks {
    /// Whether some key of the set carries identifier `kid`.
    pub open spec fn has_kid(&self, kid: Seq<char>) -> bool {
        exists|i: int| 0 <= i < self.keys@.len() && #[trigger] self.keys@[i].kid@ == kid
    }

    /// Index of the first key carrying identifier `kid`, searching from the front.
    pub open spec fn first_with_kid(&self, kid: Seq<char>) -> int
        recommends
            self.has_kid(kid),
    {
        choose|i: int|
            0 <= i < self.keys@.len() && #[trigger] self.keys@[i].kid@ == kid && forall|j: int|
                0 <= j < i ==> #[trigger] self.keys@[j].kid@ != kid
    }

    /// Position of the first key whose identifier is `kid`, if there is one.
    pub fn find_key(&self, kid: &str) -> (r: Option<usize>)
        ensures
            match r {
                Some(i) => {
                    &&& i < self.keys@.len()
                    &&& self.keys@[i as int].kid@ == kid@
                    &&& forall|j: int| 0 <= j < i ==> #[trigger] self.keys@[j].kid@ != kid@
                },
                None => !self.has_kid(kid@),
            },
    {
        let wanted = kid.to_owned();
        let mut i: usize = 0;
        while i < self.keys.len()
            invariant
                i <= self.keys@.len(),
                wanted@ == kid@,
                forall|j: int| 0 <= j < i ==> #[trigger] self.keys@[j].kid@ != kid@,
            decreases self.keys@.len() - i,
        {
            if self.keys[i].kid == wanted {
                return Some(i);
            }
            i = i + 1;
        }
        None
    }
}

} // verus!
