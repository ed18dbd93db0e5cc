//! A helper library for Apple web services.
//!
//! The library models the data shapes that a caller sends to or receives
//! from CloudKit, DeviceCheck, Sign in with Apple, and JWT based
//! authentication.  It performs no network I/O, signing, or cryptographic
//! verification itself; it derives well-formed request values (URL
//! sub-paths, JOSE headers, claim sets) from caller-supplied inputs.

use vstd::prelude::*;

pub mod cloudkit;
pub mod crypto;
pub mod device_check;
pub mod json;
pub mod jwt;
pub mod siwa;
pub mod time;

verus! {

/// The 10 character team ID.
///
/// It is used as the issuer value in the claims payload of a JWT.
#[derive(Clone, Debug, Eq, Hash, PartialEq)]
pub struct TeamId(pub String);

} // verus!
