//! Sign in with Apple allows single sign-on using an Apple ID.
//!
//! These are the data shapes exchanged with the service: the published
//! key set, the authorization redirect response, and the token endpoint
//! request and response.  They carry no derivation logic of their own.

use vstd::prelude::*;

verus! {

/// The set of public keys the service publishes for verification.
#[derive(Clone, Debug, Eq, Hash, PartialEq)]
pub struct JWKSet {
    pub keys: Vec<JWK>,
}

/// One published RSA public key.
#[derive(Clone, Debug, Eq, Hash, PartialEq)]
pub struct JWK {
    pub kty: String,
    pub kid: String,
    pub use_: String,
    pub alg: String,
    pub e: String,
    pub n: String,
}

/// The response from the authorization redirect.
#[derive(Clone, Debug, Eq, Hash, PartialEq)]
pub struct AuthResponse {
    pub code: Option<String>,
    pub id_token: Option<String>,
    pub state: Option<String>,
    pub user: Option<String>,
    pub error: Option<String>,
}

/// The user data carried alongside an authorization response.
#[derive(Clone, Debug, Eq, Hash, PartialEq)]
pub struct User {
    pub email: Option<String>,
    pub name: Option<Name>,
}

/// A user's name.
#[derive(Clone, Debug, Eq, Hash, PartialEq)]
pub struct Name {
    pub first_name: Option<String>,
    pub last_name: Option<String>,
}

/// The id_token value's JWT claims.
#[derive(Clone, Debug, Eq, Hash, PartialEq)]
pub struct IdTokenClaims {
    pub iss: Option<String>,
    pub aud: Option<String>,
    pub exp: Option<u64>,
    pub iat: Option<u64>,
    pub sub: Option<String>,
    pub c_hash: Option<String>,
    pub email: Option<String>,
    pub email_verified: Option<String>,
    pub is_private_email: Option<String>,
    pub auth_time: Option<u64>,
}

/// The request that validates an authorization code.
#[derive(Clone, Debug, Eq, Hash, PartialEq)]
pub struct ValidateAuthCodeRequest {
    pub client_id: String,
    pub client_secret: String,
    pub grant_type: String,
    pub code: String,
    pub redirect_uri: String,
}

/// The response from the token endpoint.
#[derive(Clone, Debug, Eq, Hash, PartialEq)]
pub struct TokenResponse {
    pub access_token: Option<String>,
    pub expires_in: Option<u64>,
    pub id_token: Option<String>,
    pub refresh_token: Option<String>,
    pub token_type: Option<String>,
    pub error: Option<String>,
}

} // verus!
