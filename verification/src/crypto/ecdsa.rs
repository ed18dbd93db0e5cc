//! ECDSA signing algorithm tags.

use vstd::prelude::*;

verus! {

/// Algorithm for signing data.
pub trait EcdsaSigningAlgorithm: super::SigningAlgorithm {

}

/// ECDSA signature using P-256 and SHA-256 in the ASN.1 format.
pub struct EcdsaP256Sha256Asn1Format {}

impl EcdsaSigningAlgorithm for EcdsaP256Sha256Asn1Format {

}

impl super::SigningAlgorithm for EcdsaP256Sha256Asn1Format {

}

/// ECDSA signature using P-256 and SHA-256 in the fixed format.
pub struct EcdsaP256Sha256FixedFormat {}

impl EcdsaSigningAlgorithm for EcdsaP256Sha256FixedFormat {

}

impl super::SigningAlgorithm for EcdsaP256Sha256FixedFormat {

}

} // verus!
