use apple_services::TeamId;
use apple_services::jwt::Algorithm;
use apple_services::jwt::AlgorithmIdentity;
use apple_services::jwt::Claims;
use apple_services::jwt::Header;
use apple_services::jwt::Key;
use apple_services::jwt::KeyData;
use apple_services::jwt::KeyId;
use apple_services::jwt::ParseAlgorithmError;
use apple_services::time::FixedDurationSinceEpoch;

fn es256_key(kid: &str) -> Key {
    Key::new(
        KeyId(String::from(kid)),
        Algorithm::Es256,
        KeyData::Pkcs8(vec![1, 2, 3]),
    )
}

#[test]
fn algorithm_round_trips_for_known_strings() {
    for s in ["ES256", "RS256"] {
        assert_eq!(Algorithm::from_str(s).unwrap().as_str(), s);
        assert_eq!(AlgorithmIdentity::from_str(s).as_str(), s);
    }
}

#[test]
fn algorithm_from_str_rejects_unknown_strings() {
    for s in ["HS256", "es256", "ES256 ", "", "none"] {
        assert!(matches!(
            Algorithm::from_str(s),
            Err(ParseAlgorithmError::UnknownAlgorithm)
        ));
    }
}

#[test]
fn algorithm_identity_keeps_unknown_strings_unchanged() {
    for s in ["HS256", "es256", "ES256 ", "", "none", "E\u{0053}257"] {
        let id = AlgorithmIdentity::from_str(s);
        assert!(matches!(id, AlgorithmIdentity::Unknown(_)));
        assert_eq!(id.as_str(), s);
    }
}

#[test]
fn key_accessors_return_what_was_bound() {
    let key = es256_key("abc123");
    assert_eq!(key.id().0, "abc123");
    assert_eq!(key.alg(), Algorithm::Es256);
    assert_eq!(key.data(), &KeyData::Pkcs8(vec![1, 2, 3]));
}

#[test]
fn header_serializes_to_exact_json() {
    let key = es256_key("abc123");
    let header = Header::new(&key);
    assert_eq!(header.alg(), "ES256");
    assert_eq!(header.kid(), "abc123");
    assert_eq!(header.to_json(), "{\"alg\":\"ES256\",\"kid\":\"abc123\"}");
}

#[test]
fn header_json_is_valid_json_with_exactly_two_members() {
    let key = es256_key("abc123");
    let value: serde_json::Value =
        serde_json::from_str(&Header::new(&key).to_json()).unwrap();
    let object = value.as_object().unwrap();
    assert_eq!(object.len(), 2);
    assert_eq!(object["alg"], "ES256");
    assert_eq!(object["kid"], "abc123");
}

#[test]
fn header_escapes_special_characters_in_kid() {
    let key = es256_key("a\"b\\c\nd\u{1}");
    let json = Header::new(&key).to_json();
    assert_eq!(json, "{\"alg\":\"ES256\",\"kid\":\"a\\\"b\\\\c\\nd\\u0001\"}");
    let value: serde_json::Value = serde_json::from_str(&json).unwrap();
    assert_eq!(value["kid"], "a\"b\\c\nd\u{1}");
}

#[test]
fn claims_without_exp_omit_the_key_entirely() {
    let claims = Claims::new(
        &TeamId(String::from("TEAM0123XY")),
        FixedDurationSinceEpoch::new(1_600_000_000, 0),
        None,
    );
    assert_eq!(claims.to_json(), "{\"iss\":\"TEAM0123XY\",\"iat\":1600000000}");
}

#[test]
fn claims_with_exp_include_the_value() {
    let claims = Claims::new(
        &TeamId(String::from("TEAM0123XY")),
        FixedDurationSinceEpoch::new(1_600_000_000, 0),
        Some(1_600_003_600),
    );
    assert_eq!(
        claims.to_json(),
        "{\"iss\":\"TEAM0123XY\",\"iat\":1600000000,\"exp\":1600003600}"
    );
}

#[test]
fn claims_accessors_report_the_built_values() {
    let claims = Claims::new(
        &TeamId(String::from("TEAM0123XY")),
        FixedDurationSinceEpoch::new(1_600_000_000, 250),
        Some(7),
    );
    assert_eq!(claims.iss(), "TEAM0123XY");
    assert_eq!(claims.iat(), 1_600_000_000);
    assert_eq!(claims.exp(), Some(7));
    assert_eq!(claims.aud(), None);
    assert_eq!(claims.sub(), None);
}

#[test]
fn claims_serialize_all_optional_members_in_order() {
    let mut claims = Claims::new(
        &TeamId(String::from("T")),
        FixedDurationSinceEpoch::new(12, 0),
        Some(34),
    );
    claims.aud = Some(String::from("aud-value"));
    claims.sub = Some(String::from("sub-value"));
    assert_eq!(
        claims.to_json(),
        "{\"iss\":\"T\",\"iat\":12,\"exp\":34,\"aud\":\"aud-value\",\"sub\":\"sub-value\"}"
    );
}

#[test]
fn claims_never_serialize_null_for_absent_members() {
    let claims = Claims::new(
        &TeamId(String::from("T")),
        FixedDurationSinceEpoch::new(0, 0),
        None,
    );
    let json = claims.to_json();
    assert_eq!(json, "{\"iss\":\"T\",\"iat\":0}");
    assert!(!json.contains("null"));
    assert!(!json.contains("exp"));
    assert!(!json.contains("aud"));
    assert!(!json.contains("sub"));
    let value: serde_json::Value = serde_json::from_str(&json).unwrap();
    assert_eq!(value.as_object().unwrap().len(), 2);
}

#[test]
fn claims_iat_handles_the_largest_value() {
    let claims = Claims::new(
        &TeamId(String::from("T")),
        FixedDurationSinceEpoch::new(u64::MAX, 0),
        None,
    );
    assert_eq!(
        claims.to_json(),
        "{\"iss\":\"T\",\"iat\":18446744073709551615}"
    );
}

#[test]
fn header_construction_is_idempotent() {
    let key = es256_key("abc123");
    let first = Header::new(&key).to_json();
    let second = Header::new(&key).to_json();
    assert_eq!(first, second);
}

#[test]
fn claims_construction_is_idempotent() {
    let team = TeamId(String::from("TEAM0123XY"));
    let first = Claims::new(&team, FixedDurationSinceEpoch::new(1_600_000_000, 0), Some(9))
        .to_json();
    let second = Claims::new(&team, FixedDurationSinceEpoch::new(1_600_000_000, 500), Some(9))
        .to_json();
    assert_eq!(first, second);
}
