//! Cryptography used in services.
//!
//! Nothing here signs or verifies; these are the descriptive shapes of
//! key material that an external signer or verifier consumes.

use vstd::prelude::*;

pub mod ecdsa;
pub mod jwt;

verus! {

/// An identifier for a key used in signing/encrypting data.
#[derive(Clone, Debug, Eq, Hash, PartialEq)]
pub struct KeyId(pub String);

/// Bytes in PKCS8 format.
#[derive(Clone, Debug, Eq, PartialEq)]
pub struct Pkcs8Key(pub Vec<u8>);

impl From<Vec<u8>> for Pkcs8Key {
    fn from(bytes: Vec<u8>) -> (r: Self) {
        Pkcs8Key(bytes)
    }
}

impl vstd::std_specs::convert::FromSpecImpl<Vec<u8>> for Pkcs8Key {
    open spec fn obeys_from_spec() -> bool {
        true
    }

    open spec fn from_spec(bytes: Vec<u8>) -> Self {
        Pkcs8Key(bytes)
    }
}

/// A signing algorithm.
pub trait SigningAlgorithm {

}

/// A JSON Web Key, as published by a service for verification.
///
/// All fields but `kty` are optional; an EC key carries `crv`, `x` and
/// `y`, an RSA key carries `e` and `n`.
#[derive(Clone, Debug, Eq, Hash, PartialEq)]
pub struct Jwk {
    pub kty: String,
    pub use_: Option<String>,
    pub alg: Option<String>,
    pub kid: Option<String>,
    pub crv: Option<String>,
    pub x: Option<String>,
    pub y: Option<String>,
    pub e: Option<String>,
    pub n: Option<String>,
}

/// A JSON Web Key set.
#[derive(Clone, Debug, Eq, Hash, PartialEq)]
pub struct JwkSet {
    pub keys: Vec<Jwk>,
}

impl Jwk {
    /// The same key material in the shape of `crate::jwt::Jwk`; the two
    /// shapes share their parsing and field contracts.
    pub open spec fn as_jwt_jwk(self) -> crate::jwt::Jwk {
        crate::jwt::Jwk {
            kty: self.kty,
            use_: self.use_,
            alg: self.alg,
            kid: self.kid,
            crv: self.crv,
            x: self.x,
            y: self.y,
            e: self.e,
            n: self.n,
        }
    }

    /// Parses a JWK document.
    ///
    /// All members but `kty` are optional, and an absent optional member
    /// leaves its field absent; an unknown member is ignored whole, for
    /// forward compatibility.
    pub fn from_json(s: &str) -> (r: Option<Jwk>)
        ensures
            match r {
                Some(j) => crate::jwt::spec_parse_jwk_doc(s@) matches Some(a)
                    && crate::jwt::jwk_matches_assoc(a, j.as_jwt_jwk()),
                None => crate::jwt::spec_parse_jwk_doc(s@) is None,
            },
    {
        match crate::jwt::Jwk::from_json(s) {
            Some(j) => Some(
                Jwk {
                    kty: j.kty,
                    use_: j.use_,
                    alg: j.alg,
                    kid: j.kid,
                    crv: j.crv,
                    x: j.x,
                    y: j.y,
                    e: j.e,
                    n: j.n,
                },
            ),
            None => None,
        }
    }
}

impl JwkSet {
    /// Parses a JWK set document: one object whose `keys` member holds an
    /// array of JWK objects.
    pub fn from_json(s: &str) -> (r: Option<JwkSet>)
        ensures
            match r {
                Some(set) => crate::jwt::spec_parse_jwk_set_doc(s@) matches Some(list)
                    && list.len() == set.keys@.len() && (forall|k: int|
                    0 <= k < list.len() ==> crate::jwt::jwk_matches_assoc(
                        list[k],
                        (#[trigger] set.keys@[k]).as_jwt_jwk(),
                    )),
                None => crate::jwt::spec_parse_jwk_set_doc(s@) is None,
            },
    {
        match crate::jwt::JwkSet::from_json(s) {
            None => None,
            Some(set) => {
                let ghost list = crate::jwt::spec_parse_jwk_set_doc(s@).unwrap();
                let mut keys: Vec<Jwk> = Vec::new();
                let mut i: usize = 0;
                while i < set.keys.len()
                    invariant
                        i <= set.keys@.len(),
                        keys@.len() == i,
                        crate::jwt::jwks_match_assocs(list, set.keys@),
                        forall|k: int|
                            0 <= k < i ==> crate::jwt::jwk_matches_assoc(
                                list[k],
                                (#[trigger] keys@[k]).as_jwt_jwk(),
                            ),
                    decreases set.keys@.len() - i,
                {
                    let src = &set.keys[i];
                    keys.push(
                        Jwk {
                            kty: src.kty.clone(),
                            use_: crate::json::clone_opt_string(&src.use_),
                            alg: crate::json::clone_opt_string(&src.alg),
                            kid: crate::json::clone_opt_string(&src.kid),
                            crv: crate::json::clone_opt_string(&src.crv),
                            x: crate::json::clone_opt_string(&src.x),
                            y: crate::json::clone_opt_string(&src.y),
                            e: crate::json::clone_opt_string(&src.e),
                            n: crate::json::clone_opt_string(&src.n),
                        },
                    );
                    i = i + 1;
                }
                Some(JwkSet { keys })
            },
        }
    }
}

} // verus!
