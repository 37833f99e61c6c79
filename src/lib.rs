//! Bearer-token validation against an OpenID Connect identity provider.
//!
//! The library holds the decisions: when a cached provider document is still
//! fresh, which published key verifies a token, which claims are accepted and
//! how each failure maps onto HTTP. The caller performs the network fetches and
//! hands their outcomes back as plain values.
use vstd::prelude::*;

pub mod cache;
pub mod error;
pub mod jwt;
pub mod model;
pub mod validator;

verus! {

} // verus!
