//! DeviceCheck allows bits of data to be set and queried per device.

use vstd::prelude::*;

use crate::time::DurationSinceEpoch;

verus! {

/// The DeviceCheck service environment.
#[derive(Clone, Copy, Debug, Eq, Hash, PartialEq)]
pub enum Env {
    Dev,
    Prod,
}

/// The base endpoint of an environment.
pub open spec fn spec_base_endpoint(e: Env) -> Seq<char> {
    match e {
        Env::Dev => "https://api.development.devicecheck.apple.com"@,
        Env::Prod => " https://api.devicecheck.apple.com"@,
    }
}

impl Env {
    fn base_endpoint(self) -> (r: String)
        ensures
            r@ == spec_base_endpoint(self),
    {
        match self {
            Env::Dev => "https://api.development.devicecheck.apple.com".to_owned(),
            Env::Prod => " https://api.devicecheck.apple.com".to_owned(),
        }
    }

    /// Returns the endpoint that validates a device token.
    pub fn validate_device_endpoint(self) -> (r: String)
        ensures
            r@ == spec_base_endpoint(self) + "/v1/validate_device_token"@,
    {
        let mut s = self.base_endpoint();
        s.append("/v1/validate_device_token");
        s
    }
}

/// The body of a device token validation request.
#[derive(Clone, Debug, Eq, Hash, PartialEq)]
pub struct ValidationReq {
    device_token: String,
    transaction_id: String,
    timestamp: u64,
}

impl ValidationReq {
    /// The device token the request validates.
    pub closed spec fn spec_device_token(&self) -> Seq<char> {
        self.device_token@
    }

    /// The caller-chosen transaction identifier.
    pub closed spec fn spec_transaction_id(&self) -> Seq<char> {
        self.transaction_id@
    }

    /// The request timestamp in milliseconds since the epoch.
    pub closed spec fn spec_timestamp(&self) -> u64 {
        self.timestamp
    }

    /// Constructs a validation request; the timestamp is the millisecond
    /// count of the supplied duration.
    pub fn new<T: DurationSinceEpoch>(
        device_token: &str,
        transaction_id: &str,
        duration_since_epoch: T,
    ) -> (r: ValidationReq)
        ensures
            r.spec_device_token() == device_token@,
            r.spec_transaction_id() == transaction_id@,
            r.spec_timestamp() == duration_since_epoch.spec_millis(),
    {
        ValidationReq {
            device_token: device_token.to_owned(),
            transaction_id: transaction_id.to_owned(),
            timestamp: duration_since_epoch.as_millis(),
        }
    }
}

} // verus!
