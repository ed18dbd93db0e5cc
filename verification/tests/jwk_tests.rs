use apple_services::crypto;
use apple_services::jwt::Jwk;
use apple_services::jwt::JwkSet;

#[test]
fn jwk_parses_with_only_kty_n_e_present() {
    let jwk = Jwk::from_json("{\"kty\":\"RSA\",\"n\":\"abc\",\"e\":\"AQAB\"}").unwrap();
    assert_eq!(jwk.kty, "RSA");
    assert_eq!(jwk.n.as_deref(), Some("abc"));
    assert_eq!(jwk.e.as_deref(), Some("AQAB"));
    assert_eq!(jwk.use_, None);
    assert_eq!(jwk.alg, None);
    assert_eq!(jwk.kid, None);
    assert_eq!(jwk.crv, None);
    assert_eq!(jwk.x, None);
    assert_eq!(jwk.y, None);
}

#[test]
fn jwk_reserializes_without_absent_members() {
    let jwk = Jwk::from_json("{\"kty\":\"RSA\",\"n\":\"abc\",\"e\":\"AQAB\"}").unwrap();
    let json = jwk.to_json();
    assert_eq!(json, "{\"kty\":\"RSA\",\"e\":\"AQAB\",\"n\":\"abc\"}");
    assert!(!json.contains("null"));
    let value: serde_json::Value = serde_json::from_str(&json).unwrap();
    assert_eq!(value.as_object().unwrap().len(), 3);
}

#[test]
fn jwk_parse_ignores_unknown_members() {
    let jwk = Jwk::from_json(
        "{\"kty\":\"EC\",\"extra\":{\"nested\":[1,2.5,{\"a\":false}],\"s\":\"x]}\"},\
         \"crv\":\"P-256\",\"flag\":true,\"nothing\":null,\"count\":-12e3}",
    )
    .unwrap();
    assert_eq!(jwk.kty, "EC");
    assert_eq!(jwk.crv.as_deref(), Some("P-256"));
    assert_eq!(jwk.x, None);
}

#[test]
fn jwk_parse_tolerates_whitespace() {
    let jwk = Jwk::from_json(" \t\r\n{ \"kty\" : \"RSA\" } \n").unwrap();
    assert_eq!(jwk.kty, "RSA");
}

#[test]
fn jwk_parse_decodes_string_escapes() {
    let jwk = Jwk::from_json("{\"kty\":\"RSA\",\"kid\":\"a\\/b\\u0041\\n\\\"\"}").unwrap();
    assert_eq!(jwk.kid.as_deref(), Some("a/bA\n\""));
}

#[test]
fn jwk_parse_reads_the_use_member() {
    let jwk = Jwk::from_json("{\"kty\":\"RSA\",\"use\":\"sig\"}").unwrap();
    assert_eq!(jwk.use_.as_deref(), Some("sig"));
    assert_eq!(jwk.to_json(), "{\"kty\":\"RSA\",\"use\":\"sig\"}");
}

#[test]
fn jwk_parse_keeps_non_ascii_text() {
    let jwk = Jwk::from_json("{\"kty\":\"RSA\",\"kid\":\"clé-\u{e9}\u{4e16}\"}").unwrap();
    assert_eq!(jwk.kid.as_deref(), Some("clé-é世"));
    let value: serde_json::Value = serde_json::from_str(&jwk.to_json()).unwrap();
    assert_eq!(value["kid"], "clé-é世");
}

#[test]
fn jwk_parse_fails_without_kty() {
    assert!(Jwk::from_json("{\"n\":\"abc\",\"e\":\"AQAB\"}").is_none());
    assert!(Jwk::from_json("{}").is_none());
}

#[test]
fn jwk_parse_fails_on_malformed_documents() {
    assert!(Jwk::from_json("").is_none());
    assert!(Jwk::from_json("{\"kty\":\"RSA\"").is_none());
    assert!(Jwk::from_json("{\"kty\":5}").is_none());
    assert!(Jwk::from_json("{\"kty\":\"A\",\"kty\":\"B\"}").is_none());
    assert!(Jwk::from_json("{\"kty\":\"RSA\",}").is_none());
    assert!(Jwk::from_json("{\"kty\":\"RSA\"} extra").is_none());
    assert!(Jwk::from_json("[{\"kty\":\"RSA\"}]").is_none());
}

#[test]
fn jwk_set_parses_a_keys_array() {
    let set = JwkSet::from_json(
        "{\"keys\":[{\"kty\":\"RSA\",\"kid\":\"k1\",\"n\":\"abc\",\"e\":\"AQAB\"},\
         {\"kty\":\"EC\",\"crv\":\"P-256\",\"x\":\"xx\",\"y\":\"yy\"}]}",
    )
    .unwrap();
    assert_eq!(set.keys.len(), 2);
    assert_eq!(set.keys[0].kty, "RSA");
    assert_eq!(set.keys[0].kid.as_deref(), Some("k1"));
    assert_eq!(set.keys[1].kty, "EC");
    assert_eq!(set.keys[1].crv.as_deref(), Some("P-256"));
}

#[test]
fn jwk_set_parses_an_empty_keys_array() {
    let set = JwkSet::from_json("{\"keys\":[]}").unwrap();
    assert_eq!(set.keys.len(), 0);
    assert_eq!(set.to_json(), "{\"keys\":[]}");
}

#[test]
fn jwk_set_parse_fails_without_keys_member() {
    assert!(JwkSet::from_json("{}").is_none());
    assert!(JwkSet::from_json("{\"kty\":\"RSA\"}").is_none());
    assert!(JwkSet::from_json("{\"keys\":{}}").is_none());
    assert!(JwkSet::from_json("{\"keys\":[{\"n\":\"abc\"}]}").is_none());
}

#[test]
fn jwk_set_round_trips_through_its_own_json() {
    let text = "{\"keys\":[{\"kty\":\"RSA\",\"e\":\"AQAB\",\"n\":\"abc\"},{\"kty\":\"EC\"}]}";
    let set = JwkSet::from_json(text).unwrap();
    assert_eq!(set.to_json(), text);
    assert_eq!(JwkSet::from_json(&set.to_json()).unwrap(), set);
}

#[test]
fn crypto_jwk_parses_like_the_jwt_shape() {
    let jwk = crypto::Jwk::from_json("{\"kty\":\"RSA\",\"n\":\"abc\",\"e\":\"AQAB\"}").unwrap();
    assert_eq!(jwk.kty, "RSA");
    assert_eq!(jwk.n.as_deref(), Some("abc"));
    assert_eq!(jwk.use_, None);
    assert!(crypto::Jwk::from_json("{\"e\":\"AQAB\"}").is_none());
}

#[test]
fn crypto_jwk_set_parses_like_the_jwt_shape() {
    let set = crypto::JwkSet::from_json(
        "{\"keys\":[{\"kty\":\"RSA\"},{\"kty\":\"oct\",\"alg\":\"dir\"}],\"ignored\":0}",
    )
    .unwrap();
    assert_eq!(set.keys.len(), 2);
    assert_eq!(set.keys[1].alg.as_deref(), Some("dir"));
    assert!(crypto::JwkSet::from_json("{\"keys\":0}").is_none());
}
