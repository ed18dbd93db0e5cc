use apple_services::TeamId;
use apple_services::crypto;
use apple_services::crypto::Pkcs8Key;
use apple_services::device_check;
use apple_services::device_check::ValidationReq;
use apple_services::siwa;
use apple_services::time::DurationSinceEpoch;
use apple_services::time::FixedDurationSinceEpoch;
use apple_services::time::StdDurationSinceEpoch;

#[test]
fn it_works() {
    assert_eq!(2 + 2, 4);
}

#[test]
fn device_check_endpoints_match_the_environment() {
    assert_eq!(
        device_check::Env::Dev.validate_device_endpoint(),
        "https://api.development.devicecheck.apple.com/v1/validate_device_token"
    );
    assert_eq!(
        device_check::Env::Prod.validate_device_endpoint(),
        " https://api.devicecheck.apple.com/v1/validate_device_token"
    );
}

#[test]
fn validation_req_uses_the_millisecond_timestamp() {
    let a = ValidationReq::new("token", "txn", FixedDurationSinceEpoch::new(5, 1234));
    let b = ValidationReq::new("token", "txn", FixedDurationSinceEpoch::new(6, 1234));
    let c = ValidationReq::new("token", "txn", FixedDurationSinceEpoch::new(5, 999));
    assert_eq!(a, b);
    assert_ne!(a, c);
}

#[test]
fn fixed_duration_reports_exactly_what_it_was_given() {
    let d = FixedDurationSinceEpoch::new(1_600_000_000, 1_600_000_000_250);
    assert_eq!(d.as_secs(), 1_600_000_000);
    assert_eq!(d.as_millis(), 1_600_000_000_250);
}

#[test]
fn std_duration_now_is_after_the_epoch() {
    let d = StdDurationSinceEpoch::now();
    let secs = d.as_secs();
    let millis = d.as_millis();
    assert!(secs > 1_600_000_000);
    assert!(millis >= secs * 1000);
    assert!(millis < secs * 1000 + 1000);
}

#[test]
fn pkcs8_key_wraps_the_given_bytes() {
    let key = Pkcs8Key::from(vec![48u8, 130, 1, 85]);
    assert_eq!(key.0, vec![48u8, 130, 1, 85]);
    let other: Pkcs8Key = vec![48u8, 130, 1, 85].into();
    assert_eq!(key, other);
}

#[test]
fn crypto_key_id_holds_its_string() {
    let id = crypto::KeyId(String::from("ABCDEF1234"));
    assert_eq!(id.0, "ABCDEF1234");
    assert_eq!(id.clone(), id);
}

#[test]
fn crypto_claims_serialize_like_the_jwt_claims() {
    let claims = crypto::jwt::Claims::new(
        &TeamId(String::from("TEAM0123XY")),
        FixedDurationSinceEpoch::new(1_600_000_000, 0),
        None,
    );
    assert_eq!(claims.to_json(), "{\"iss\":\"TEAM0123XY\",\"iat\":1600000000}");
    assert_eq!(claims.iss(), "TEAM0123XY");
    assert_eq!(claims.iat(), 1_600_000_000);
    assert_eq!(claims.exp(), None);
}

#[test]
fn crypto_header_derives_from_an_abstract_key() {
    let key = crypto::jwt::Es256Key { id: crypto::KeyId(String::from("abc123")) };
    let header = crypto::jwt::Header::new(&key);
    assert_eq!(header.alg(), "ES256");
    assert_eq!(header.kid(), "abc123");
    assert_eq!(header.to_json(), "{\"alg\":\"ES256\",\"kid\":\"abc123\"}");
}

#[test]
fn siwa_shapes_hold_their_fields() {
    let response = siwa::AuthResponse {
        code: Some(String::from("c0de")),
        id_token: None,
        state: None,
        user: None,
        error: None,
    };
    assert_eq!(response.code.as_deref(), Some("c0de"));
    let name = siwa::Name { first_name: Some(String::from("A")), last_name: None };
    let user = siwa::User { email: None, name: Some(name.clone()) };
    assert_eq!(user.name.as_ref().unwrap(), &name);
    let jwk = siwa::JWK {
        kty: String::from("RSA"),
        kid: String::from("k1"),
        use_: String::from("sig"),
        alg: String::from("RS256"),
        e: String::from("AQAB"),
        n: String::from("abc"),
    };
    let set = siwa::JWKSet { keys: vec![jwk.clone()] };
    assert_eq!(set.keys[0], jwk);
}
