//! Helpers for JSON Web Tokens.
//!
//! A JSON Web Token carries a JOSE header naming the signing algorithm and
//! key, and a claims payload naming the issuer and the issue time.  This
//! module models both and pins down their JSON serialization exactly: the
//! header writes `alg` then `kid`, the claims write `iss` then `iat` and
//! omit absent optional claims entirely rather than writing `null`.

use vstd::prelude::*;

use crate::TeamId;
use crate::json::decimal_digits;
use crate::json::json_string;
use crate::json::opt_str_member;
use crate::json::opt_str_view;
use crate::json::opt_u64_member;
use crate::json::push_char;
use crate::json::str_eq;
use crate::json::write_json_string;
use crate::json::write_opt_str_member;
use crate::json::write_opt_u64_member;
use crate::json::write_u64_decimal;

verus! {

/// The key ID.
#[derive(Clone, Debug, Eq, Hash, PartialEq)]
pub struct KeyId(pub String);

/// Algorithm used to sign the JWT.
#[derive(Clone, Copy, Debug, Eq, Hash, PartialEq)]
#[non_exhaustive]
pub enum Algorithm {
    Es256,
    Rs256,
}

/// The string form of a signing algorithm.
pub open spec fn spec_alg_str(a: Algorithm) -> Seq<char> {
    match a {
        Algorithm::Es256 => seq!['E', 'S', '2', '5', '6'],
        Algorithm::Rs256 => seq!['R', 'S', '2', '5', '6'],
    }
}

/// The algorithm registered under the string `s`, if any.  Strings are
/// compared byte for byte; no case folding is performed.
pub open spec fn spec_alg_of_str(s: Seq<char>) -> Option<Algorithm> {
    if s == spec_alg_str(Algorithm::Es256) {
        Some(Algorithm::Es256)
    } else if s == spec_alg_str(Algorithm::Rs256) {
        Some(Algorithm::Rs256)
    } else {
        None
    }
}

/// Errors for when parsing a str into an algorithm.
#[derive(Clone, Copy, Debug, Eq, PartialEq)]
#[non_exhaustive]
pub enum ParseAlgorithmError {
    UnknownAlgorithm,
}

impl Algorithm {
    /// Returns the registered name of the algorithm.
    pub fn as_str(&self) -> (r: &'static str)
        ensures
            r@ == spec_alg_str(*self),
    {
        match self {
            Algorithm::Es256 => {
                let s = "ES256";
                proof {
                    reveal_strlit("ES256");
                    assert(s@ =~= spec_alg_str(Algorithm::Es256));
                }
                s
            },
            Algorithm::Rs256 => {
                let s = "RS256";
                proof {
                    reveal_strlit("RS256");
                    assert(s@ =~= spec_alg_str(Algorithm::Rs256));
                }
                s
            },
        }
    }

    /// Parses a registered algorithm name, and rejects every other string
    /// with `UnknownAlgorithm`.
    pub fn from_str(s: &str) -> (r: Result<Algorithm, ParseAlgorithmError>)
        ensures
            match r {
                Ok(a) => spec_alg_of_str(s@) == Some(a),
                Err(_) => spec_alg_of_str(s@) is None,
            },
    {
        proof {
            reveal_strlit("ES256");
            reveal_strlit("RS256");
            assert("ES256"@ =~= spec_alg_str(Algorithm::Es256));
            assert("RS256"@ =~= spec_alg_str(Algorithm::Rs256));
        }
        if str_eq(s, "ES256") {
            Ok(Algorithm::Es256)
        } else if str_eq(s, "RS256") {
            Ok(Algorithm::Rs256)
        } else {
            Err(ParseAlgorithmError::UnknownAlgorithm)
        }
    }
}

/// Every registered algorithm round-trips through its string form.
pub proof fn lemma_algorithm_round_trip(a: Algorithm)
    ensures
        spec_alg_of_str(spec_alg_str(a)) == Some(a),
{
    assert(spec_alg_str(Algorithm::Es256)[0] == 'E');
    assert(spec_alg_str(Algorithm::Rs256)[0] == 'R');
}

/// Every string that parses as a registered algorithm is that algorithm's
/// string form: parsing loses nothing.
pub proof fn lemma_algorithm_str_round_trip(s: Seq<char>, a: Algorithm)
    requires
        spec_alg_of_str(s) == Some(a),
    ensures
        spec_alg_str(a) == s,
{
}

/// Tag for a signing algorithm that also admits unregistered names.
///
/// A registered name parses to its own variant; any other string is kept,
/// unmodified, in the `Unknown` variant, so that parsing and rendering
/// round-trip for every string.
#[derive(Clone, Debug, Eq, Hash, PartialEq)]
#[non_exhaustive]
pub enum AlgorithmIdentity {
    Es256,
    Rs256,
    Unknown(String),
}

impl AlgorithmIdentity {
    /// The string this identity renders as.
    pub open spec fn spec_str(&self) -> Seq<char> {
        match self {
            AlgorithmIdentity::Es256 => spec_alg_str(Algorithm::Es256),
            AlgorithmIdentity::Rs256 => spec_alg_str(Algorithm::Rs256),
            AlgorithmIdentity::Unknown(s) => s@,
        }
    }

    /// Parses any algorithm string, keeping an unrecognized name as it is.
    ///
    /// The result renders back to exactly the input, byte for byte, for
    /// every string.
    pub fn from_str(s: &str) -> (r: AlgorithmIdentity)
        ensures
            r.spec_str() == s@,
            r is Unknown <==> spec_alg_of_str(s@) is None,
    {
        proof {
            reveal_strlit("ES256");
            reveal_strlit("RS256");
            assert("ES256"@ =~= spec_alg_str(Algorithm::Es256));
            assert("RS256"@ =~= spec_alg_str(Algorithm::Rs256));
        }
        if str_eq(s, "ES256") {
            AlgorithmIdentity::Es256
        } else if str_eq(s, "RS256") {
            AlgorithmIdentity::Rs256
        } else {
            AlgorithmIdentity::Unknown(s.to_owned())
        }
    }

    /// Returns the algorithm string, exactly as parsed.
    pub fn as_str(&self) -> (r: &str)
        ensures
            r@ == self.spec_str(),
    {
        match self {
            AlgorithmIdentity::Es256 => {
                let s = "ES256";
                proof {
                    reveal_strlit("ES256");
                    assert(s@ =~= self.spec_str());
                }
                s
            },
            AlgorithmIdentity::Rs256 => {
                let s = "RS256";
                proof {
                    reveal_strlit("RS256");
                    assert(s@ =~= self.spec_str());
                }
                s
            },
            AlgorithmIdentity::Unknown(s) => s.as_str(),
        }
    }
}

/// Type of the data in the key.
#[derive(Clone, Debug, Eq, Hash, PartialEq)]
#[non_exhaustive]
pub enum KeyData {
    Pkcs8(Vec<u8>),
    Jwk(Jwk),
}

/// Key used to sign a JWT.
pub struct Key {
    id: KeyId,
    alg: Algorithm,
    data: KeyData,
}

impl Key {
    /// The associated key identifier.
    pub closed spec fn spec_id(&self) -> KeyId {
        self.id
    }

    /// The intended signing algorithm.
    pub closed spec fn spec_alg(&self) -> Algorithm {
        self.alg
    }

    /// The raw key material.
    pub closed spec fn spec_data(&self) -> KeyData {
        self.data
    }

    /// Constructs a new signing key.
    ///
    /// The signing key id is the associated identifier for the key.  The
    /// algorithm is the intended algorithm used to sign data with this
    /// key.  The data is the raw key bytes (e.g. the contents of the *.p8
    /// file).  No validation of the material against the algorithm is
    /// performed; the key is descriptive metadata consumed by an external
    /// signer.
    pub fn new(id: KeyId, alg: Algorithm, data: KeyData) -> (r: Key)
        ensures
            r.spec_id() == id,
            r.spec_alg() == alg,
            r.spec_data() == data,
    {
        Key { id, alg, data }
    }

    /// Returns the key ID.
    pub fn id(&self) -> (r: &KeyId)
        ensures
            *r == self.spec_id(),
    {
        &self.id
    }

    /// Returns the intended signing algorithm.
    pub fn alg(&self) -> (r: Algorithm)
        ensures
            r == self.spec_alg(),
    {
        self.alg
    }

    /// Returns the signing key material.
    pub fn data(&self) -> (r: &KeyData)
        ensures
            *r == self.spec_data(),
    {
        &self.data
    }
}

/// The JSON text of a JOSE header: always both members, `alg` first.
pub open spec fn header_json(alg: Seq<char>, kid: Seq<char>) -> Seq<char> {
    seq!['{', '"', 'a', 'l', 'g', '"', ':'] + json_string(alg) + seq![',', '"', 'k', 'i', 'd', '"', ':']
        + json_string(kid) + seq!['}']
}

/// Contains the algorithm and the key ID used to sign the JWT.
#[derive(Clone, Debug, Eq, PartialEq)]
pub struct Header {
    alg: String,
    kid: String,
}

impl Header {
    /// The algorithm string of the header.
    pub closed spec fn spec_alg(&self) -> Seq<char> {
        self.alg@
    }

    /// The key identifier string of the header.
    pub closed spec fn spec_kid(&self) -> Seq<char> {
        self.kid@
    }

    /// Constructs a `Header` from a signing key.
    ///
    /// A malformed key (for instance an empty id) is passed through
    /// unchanged; validation is the caller's responsibility.
    pub fn new(key: &Key) -> (r: Header)
        ensures
            r.spec_alg() == spec_alg_str(key.spec_alg()),
            r.spec_kid() == key.spec_id().0@,
    {
        Header { alg: key.alg().as_str().to_owned(), kid: key.id().0.clone() }
    }

    /// Returns the signing algorithm.
    pub fn alg(&self) -> (r: &str)
        ensures
            r@ == self.spec_alg(),
    {
        self.alg.as_str()
    }

    /// Returns the key ID.
    pub fn kid(&self) -> (r: &str)
        ensures
            r@ == self.spec_kid(),
    {
        self.kid.as_str()
    }

    /// Serializes the header: exactly the two members, `alg` then `kid`,
    /// both always present.
    pub fn to_json(&self) -> (r: String)
        ensures
            r@ == header_json(self.spec_alg(), self.spec_kid()),
    {
        let mut out = String::new();
        push_char(&mut out, '{');
        push_char(&mut out, '"');
        push_char(&mut out, 'a');
        push_char(&mut out, 'l');
        push_char(&mut out, 'g');
        push_char(&mut out, '"');
        push_char(&mut out, ':');
        write_json_string(&mut out, self.alg.as_str());
        push_char(&mut out, ',');
        push_char(&mut out, '"');
        push_char(&mut out, 'k');
        push_char(&mut out, 'i');
        push_char(&mut out, 'd');
        push_char(&mut out, '"');
        push_char(&mut out, ':');
        write_json_string(&mut out, self.kid.as_str());
        push_char(&mut out, '}');
        assert(out@ =~= header_json(self.spec_alg(), self.spec_kid()));
        out
    }
}

/// Serializing a header is deterministic: headers built from the same
/// algorithm and key id strings serialize to identical JSON text.
pub proof fn lemma_header_json_deterministic(h1: Header, h2: Header)
    requires
        h1.spec_alg() == h2.spec_alg(),
        h1.spec_kid() == h2.spec_kid(),
    ensures
        header_json(h1.spec_alg(), h1.spec_kid()) == header_json(h2.spec_alg(), h2.spec_kid()),
{
}

/// The JSON text of a claims payload: `iss` and `iat` always, then `exp`,
/// `aud` and `sub` only when present.
pub open spec fn claims_json(
    iss: Seq<char>,
    iat: u64,
    exp: Option<u64>,
    aud: Option<Seq<char>>,
    sub: Option<Seq<char>>,
) -> Seq<char> {
    seq!['{', '"', 'i', 's', 's', '"', ':'] + json_string(iss) + seq![',', '"', 'i', 'a', 't', '"', ':']
        + decimal_digits(iat as int) + opt_u64_member(seq!['e', 'x', 'p'], exp)
        + opt_str_member(seq!['a', 'u', 'd'], aud) + opt_str_member(seq!['s', 'u', 'b'], sub)
        + seq!['}']
}

/// Contains the issuer ID (team ID), when the token was issued, and when
/// the token expires.
#[derive(Clone, Debug, Eq, Hash, PartialEq)]
pub struct Claims {
    pub iss: String,
    pub iat: u64,
    pub exp: Option<u64>,
    pub aud: Option<String>,
    pub sub: Option<String>,
}

impl Claims {
    /// Constructs a `Claims`.
    ///
    /// The issuer is the team id and the issue time is read from the
    /// supplied duration, never from a clock of this library's own, so the
    /// result is fully determined by the arguments.  The audience and
    /// subject start out absent.
    pub fn new<T: crate::time::DurationSinceEpoch>(
        team_id: &TeamId,
        duration_since_epoch: T,
        exp: Option<u64>,
    ) -> (r: Claims)
        ensures
            r.iss@ == team_id.0@,
            r.iat == duration_since_epoch.spec_secs(),
            r.exp == exp,
            r.aud is None,
            r.sub is None,
    {
        Claims {
            iss: team_id.0.clone(),
            iat: duration_since_epoch.as_secs(),
            exp,
            aud: None,
            sub: None,
        }
    }

    /// Returns the issuer of the token (usually the team ID).
    pub fn iss(&self) -> (r: &str)
        ensures
            r@ == self.iss@,
    {
        self.iss.as_str()
    }

    /// Returns when the token was issued as the number of seconds since
    /// the Unix epoch.
    pub fn iat(&self) -> (r: u64)
        ensures
            r == self.iat,
    {
        self.iat
    }

    /// Returns when the token should expire as the number of seconds since
    /// the Unix epoch.
    pub fn exp(&self) -> (r: Option<u64>)
        ensures
            r == self.exp,
    {
        self.exp
    }

    /// Returns the intended audience.
    pub fn aud(&self) -> (r: Option<&str>)
        ensures
            match r {
                Some(a) => self.aud matches Some(s) && a@ == s@,
                None => self.aud is None,
            },
    {
        match &self.aud {
            Some(a) => Some(a.as_str()),
            None => None,
        }
    }

    /// Returns the subject.
    pub fn sub(&self) -> (r: Option<&str>)
        ensures
            match r {
                Some(a) => self.sub matches Some(s) && a@ == s@,
                None => self.sub is None,
            },
    {
        match &self.sub {
            Some(s) => Some(s.as_str()),
            None => None,
        }
    }

    /// Serializes the claims: `iss` and `iat` always and in that order;
    /// absent optional claims are omitted entirely, never written as
    /// `null`.
    pub fn to_json(&self) -> (r: String)
        ensures
            r@ == claims_json(self.iss@, self.iat, self.exp, opt_str_view(self.aud), opt_str_view(self.sub)),
    {
        proof {
            reveal_strlit("exp");
            reveal_strlit("aud");
            reveal_strlit("sub");
            assert("exp"@ =~= seq!['e', 'x', 'p']);
            assert("aud"@ =~= seq!['a', 'u', 'd']);
            assert("sub"@ =~= seq!['s', 'u', 'b']);
        }
        let mut out = String::new();
        push_char(&mut out, '{');
        push_char(&mut out, '"');
        push_char(&mut out, 'i');
        push_char(&mut out, 's');
        push_char(&mut out, 's');
        push_char(&mut out, '"');
        push_char(&mut out, ':');
        write_json_string(&mut out, self.iss.as_str());
        push_char(&mut out, ',');
        push_char(&mut out, '"');
        push_char(&mut out, 'i');
        push_char(&mut out, 'a');
        push_char(&mut out, 't');
        push_char(&mut out, '"');
        push_char(&mut out, ':');
        write_u64_decimal(&mut out, self.iat);
        write_opt_u64_member(&mut out, "exp", &self.exp);
        write_opt_str_member(&mut out, "aud", &self.aud);
        write_opt_str_member(&mut out, "sub", &self.sub);
        push_char(&mut out, '}');
        assert(out@ =~= claims_json(self.iss@, self.iat, self.exp, opt_str_view(self.aud), opt_str_view(self.sub)));
        out
    }
}

/// Serializing claims is deterministic: claim sets holding the same
/// values serialize to identical JSON text, with no hidden dependency on
/// when or where they were built.
pub proof fn lemma_claims_json_deterministic(c1: Claims, c2: Claims)
    requires
        c1.iss@ == c2.iss@,
        c1.iat == c2.iat,
        c1.exp == c2.exp,
        opt_str_view(c1.aud) == opt_str_view(c2.aud),
        opt_str_view(c1.sub) == opt_str_view(c2.sub),
    ensures
        claims_json(c1.iss@, c1.iat, c1.exp, opt_str_view(c1.aud), opt_str_view(c1.sub))
            == claims_json(c2.iss@, c2.iat, c2.exp, opt_str_view(c2.aud), opt_str_view(c2.sub)),
{
}

/// A JSON Web Key.
///
/// All fields but `kty` are optional: an EC key carries `crv`, `x` and
/// `y`, an RSA key carries `e` and `n`.  No mathematical validation of
/// the material is performed here.
#[derive(Clone, Debug, Eq, Hash, PartialEq)]
pub struct Jwk {
    pub kty: String,
    pub use_: Option<String>,
    pub alg: Option<String>,
    pub kid: Option<String>,
    pub crv: Option<String>,
    pub x: Option<String>,
    pub y: Option<String>,
    pub e: Option<String>,
    pub n: Option<String>,
}

/// The JSON text of a JWK: `kty` always, optional members only when
/// present, in the fixed order `use`, `alg`, `kid`, `crv`, `x`, `y`, `e`,
/// `n`.
pub open spec fn jwk_json(j: Jwk) -> Seq<char> {
    seq!['{', '"', 'k', 't', 'y', '"', ':'] + json_string(j.kty@)
        + opt_str_member(seq!['u', 's', 'e'], opt_str_view(j.use_))
        + opt_str_member(seq!['a', 'l', 'g'], opt_str_view(j.alg))
        + opt_str_member(seq!['k', 'i', 'd'], opt_str_view(j.kid))
        + opt_str_member(seq!['c', 'r', 'v'], opt_str_view(j.crv))
        + opt_str_member(seq!['x'], opt_str_view(j.x))
        + opt_str_member(seq!['y'], opt_str_view(j.y))
        + opt_str_member(seq!['e'], opt_str_view(j.e))
        + opt_str_member(seq!['n'], opt_str_view(j.n)) + seq!['}']
}

impl Jwk {
    /// Serializes the key with absent optional members omitted entirely.
    #[verifier::rlimit(100)]
    pub fn to_json(&self) -> (r: String)
        ensures
            r@ == jwk_json(*self),
    {
        proof {
            reveal_strlit("use");
            reveal_strlit("alg");
            reveal_strlit("kid");
            reveal_strlit("crv");
            reveal_strlit("x");
            reveal_strlit("y");
            reveal_strlit("e");
            reveal_strlit("n");
            assert("use"@ =~= seq!['u', 's', 'e']);
            assert("alg"@ =~= seq!['a', 'l', 'g']);
            assert("kid"@ =~= seq!['k', 'i', 'd']);
            assert("crv"@ =~= seq!['c', 'r', 'v']);
            assert("x"@ =~= seq!['x']);
            assert("y"@ =~= seq!['y']);
            assert("e"@ =~= seq!['e']);
            assert("n"@ =~= seq!['n']);
        }
        let mut out = String::new();
        push_char(&mut out, '{');
        push_char(&mut out, '"');
        push_char(&mut out, 'k');
        push_char(&mut out, 't');
        push_char(&mut out, 'y');
        push_char(&mut out, '"');
        push_char(&mut out, ':');
        write_json_string(&mut out, self.kty.as_str());
        write_opt_str_member(&mut out, "use", &self.use_);
        write_opt_str_member(&mut out, "alg", &self.alg);
        write_opt_str_member(&mut out, "kid", &self.kid);
        write_opt_str_member(&mut out, "crv", &self.crv);
        write_opt_str_member(&mut out, "x", &self.x);
        write_opt_str_member(&mut out, "y", &self.y);
        write_opt_str_member(&mut out, "e", &self.e);
        write_opt_str_member(&mut out, "n", &self.n);
        push_char(&mut out, '}');
        assert(out@ =~= jwk_json(*self));
        out
    }
}

/// A member key that the JWK shape knows; every other member of a parsed
/// key object is ignored, for forward compatibility.
pub open spec fn is_jwk_key(k: Seq<char>) -> bool {
    ||| k == "kty"@
    ||| k == "use"@
    ||| k == "alg"@
    ||| k == "kid"@
    ||| k == "crv"@
    ||| k == "x"@
    ||| k == "y"@
    ||| k == "e"@
    ||| k == "n"@
}

/// The members of a JWK object read from `i` (just after the opening
/// brace or an earlier member): known members are collected as decoded
/// key/value string pairs in order, a known member whose value is not a
/// string and a repeated known member end the parse with nothing, and
/// unknown members are skipped whole.  Returns the collected pairs and
/// the index just past the closing brace.
pub open spec fn parse_jwk_members(
    s: Seq<char>,
    i: int,
    acc: Seq<(Seq<char>, Seq<char>)>,
    first: bool,
    fuel: nat,
) -> Option<(Seq<(Seq<char>, Seq<char>)>, int)>
    decreases fuel,
{
    if fuel == 0 {
        None
    } else {
        let j = crate::json::skip_ws(s, i);
        if j >= s.len() {
            None
        } else if s[j] == '}' {
            Some((acc, j + 1))
        } else {
            let k = if first {
                j
            } else if s[j] == ',' {
                crate::json::skip_ws(s, j + 1)
            } else {
                -1
            };
            if k < 0 || k >= s.len() || s[k] != '"' {
                None
            } else {
                match crate::json::parse_string_body(s, k + 1) {
                    Some(key) => {
                        let c = crate::json::skip_ws(s, key.1);
                        if c >= s.len() || s[c] != ':' {
                            None
                        } else {
                            let v = crate::json::skip_ws(s, c + 1);
                            if is_jwk_key(key.0) {
                                if crate::json::assoc_get(acc, key.0) is Some {
                                    None
                                } else if v >= s.len() || s[v] != '"' {
                                    None
                                } else {
                                    match crate::json::parse_string_body(s, v + 1) {
                                        Some(val) => parse_jwk_members(
                                            s,
                                            val.1,
                                            acc.push((key.0, val.0)),
                                            false,
                                            (fuel - 1) as nat,
                                        ),
                                        None => None,
                                    }
                                }
                            } else {
                                match crate::json::skip_value(s, v, (fuel - 1) as nat) {
                                    Some(k2) => parse_jwk_members(
                                        s,
                                        k2,
                                        acc,
                                        false,
                                        (fuel - 1) as nat,
                                    ),
                                    None => None,
                                }
                            }
                        }
                    },
                    None => None,
                }
            }
        }
    }
}

/// Fuel that is always in surplus for parsing a text of this length.
pub open spec fn jwk_fuel(s: Seq<char>) -> nat {
    (2 * s.len() + 2) as nat
}

/// The known members of a whole JWK document: leading whitespace, one
/// object holding a `kty` member, trailing whitespace, nothing else.
pub open spec fn spec_parse_jwk_doc(s: Seq<char>) -> Option<Seq<(Seq<char>, Seq<char>)>> {
    let i0 = crate::json::skip_ws(s, 0);
    if i0 >= s.len() || s[i0] != '{' {
        None
    } else {
        match parse_jwk_members(s, i0 + 1, Seq::empty(), true, (jwk_fuel(s) - 1) as nat) {
            Some(p) => if crate::json::skip_ws(s, p.1) == s.len() && crate::json::assoc_get(
                p.0,
                "kty"@,
            ) is Some {
                Some(p.0)
            } else {
                None
            },
            None => None,
        }
    }
}

/// Whether a key value agrees, field by field, with the members collected
/// from its JSON object: present fields carry the member's decoded
/// string, absent fields have no member.
pub open spec fn jwk_matches_assoc(a: Seq<(Seq<char>, Seq<char>)>, j: Jwk) -> bool {
    &&& crate::json::assoc_get(a, "kty"@) == Some(j.kty@)
    &&& crate::json::assoc_get(a, "use"@) == opt_str_view(j.use_)
    &&& crate::json::assoc_get(a, "alg"@) == opt_str_view(j.alg)
    &&& crate::json::assoc_get(a, "kid"@) == opt_str_view(j.kid)
    &&& crate::json::assoc_get(a, "crv"@) == opt_str_view(j.crv)
    &&& crate::json::assoc_get(a, "x"@) == opt_str_view(j.x)
    &&& crate::json::assoc_get(a, "y"@) == opt_str_view(j.y)
    &&& crate::json::assoc_get(a, "e"@) == opt_str_view(j.e)
    &&& crate::json::assoc_get(a, "n"@) == opt_str_view(j.n)
}

/// Whether a sequence of key values agrees element by element with the
/// member lists collected from their JSON objects.
pub open spec fn jwks_match_assocs(list: Seq<Seq<(Seq<char>, Seq<char>)>>, keys: Seq<Jwk>) -> bool {
    &&& list.len() == keys.len()
    &&& forall|k: int| 0 <= k < list.len() ==> jwk_matches_assoc(list[k], #[trigger] keys[k])
}

/// The elements of a `keys` array read from `i` (just after the opening
/// bracket or an earlier element): each element must be a JWK object
/// holding a `kty` member.  Returns the member lists in order and the
/// index just past the closing bracket.
pub open spec fn parse_jwk_list_rest(
    s: Seq<char>,
    i: int,
    acc: Seq<Seq<(Seq<char>, Seq<char>)>>,
    first: bool,
    fuel: nat,
) -> Option<(Seq<Seq<(Seq<char>, Seq<char>)>>, int)>
    decreases fuel,
{
    if fuel == 0 {
        None
    } else {
        let j = crate::json::skip_ws(s, i);
        if j >= s.len() {
            None
        } else if s[j] == ']' {
            Some((acc, j + 1))
        } else {
            let v = if first {
                j
            } else if s[j] == ',' {
                crate::json::skip_ws(s, j + 1)
            } else {
                -1
            };
            if v < 0 || v >= s.len() || s[v] != '{' {
                None
            } else {
                match parse_jwk_members(s, v + 1, Seq::empty(), true, (fuel - 1) as nat) {
                    Some(p) => if crate::json::assoc_get(p.0, "kty"@) is Some {
                        parse_jwk_list_rest(s, p.1, acc.push(p.0), false, (fuel - 1) as nat)
                    } else {
                        None
                    },
                    None => None,
                }
            }
        }
    }
}

/// The members of a JWK set object read from `i`: the `keys` member must
/// hold an array of JWK objects and may occur once; unknown members are
/// skipped whole.  Returns the member lists of the keys, if the `keys`
/// member occurred, and the index just past the closing brace.
pub open spec fn parse_jwkset_members(
    s: Seq<char>,
    i: int,
    found: Option<Seq<Seq<(Seq<char>, Seq<char>)>>>,
    first: bool,
    fuel: nat,
) -> Option<(Option<Seq<Seq<(Seq<char>, Seq<char>)>>>, int)>
    decreases fuel,
{
    if fuel == 0 {
        None
    } else {
        let j = crate::json::skip_ws(s, i);
        if j >= s.len() {
            None
        } else if s[j] == '}' {
            Some((found, j + 1))
        } else {
            let k = if first {
                j
            } else if s[j] == ',' {
                crate::json::skip_ws(s, j + 1)
            } else {
                -1
            };
            if k < 0 || k >= s.len() || s[k] != '"' {
                None
            } else {
                match crate::json::parse_string_body(s, k + 1) {
                    Some(key) => {
                        let c = crate::json::skip_ws(s, key.1);
                        if c >= s.len() || s[c] != ':' {
                            None
                        } else {
                            let v = crate::json::skip_ws(s, c + 1);
                            if key.0 == "keys"@ {
                                if found is Some {
                                    None
                                } else if v >= s.len() || s[v] != '[' {
                                    None
                                } else {
                                    match parse_jwk_list_rest(
                                        s,
                                        v + 1,
                                        Seq::empty(),
                                        true,
                                        (fuel - 1) as nat,
                                    ) {
                                        Some(p) => parse_jwkset_members(
                                            s,
                                            p.1,
                                            Some(p.0),
                                            false,
                                            (fuel - 1) as nat,
                                        ),
                                        None => None,
                                    }
                                }
                            } else {
                                match crate::json::skip_value(s, v, (fuel - 1) as nat) {
                                    Some(k2) => parse_jwkset_members(
                                        s,
                                        k2,
                                        found,
                                        false,
                                        (fuel - 1) as nat,
                                    ),
                                    None => None,
                                }
                            }
                        }
                    },
                    None => None,
                }
            }
        }
    }
}

/// The key member lists of a whole JWK set document: leading whitespace,
/// one object holding a `keys` member, trailing whitespace, nothing else.
pub open spec fn spec_parse_jwk_set_doc(s: Seq<char>) -> Option<
    Seq<Seq<(Seq<char>, Seq<char>)>>,
> {
    let i0 = crate::json::skip_ws(s, 0);
    if i0 >= s.len() || s[i0] != '{' {
        None
    } else {
        match parse_jwkset_members(s, i0 + 1, None, true, (jwk_fuel(s) - 1) as nat) {
            Some(p) => if crate::json::skip_ws(s, p.1) == s.len() {
                p.0
            } else {
                None
            },
            None => None,
        }
    }
}

/// Decides whether a member key is one the JWK shape knows.
fn is_jwk_key_exec(k: &str) -> (r: bool)
    ensures
        r == is_jwk_key(k@),
{
    str_eq(k, "kty") || str_eq(k, "use") || str_eq(k, "alg") || str_eq(k, "kid") || str_eq(k, "crv")
        || str_eq(k, "x") || str_eq(k, "y") || str_eq(k, "e") || str_eq(k, "n")
}

/// Collects the known members of a JWK object into `acc`.
fn parse_jwk_members_exec(
    s: &str,
    i: usize,
    acc: &mut Vec<(String, String)>,
    first: bool,
    Ghost(fuel): Ghost<nat>,
) -> (r: Option<usize>)
    requires
        i <= s@.len(),
        fuel >= 2 * (s@.len() - i) + 3,
    ensures
        match r {
            Some(j) => parse_jwk_members(s@, i as int, crate::json::pairs_view(old(acc)@), first, fuel)
                == Some((crate::json::pairs_view(final(acc)@), j as int)) && i < j <= s@.len(),
            None => parse_jwk_members(s@, i as int, crate::json::pairs_view(old(acc)@), first, fuel) is None,
        },
    decreases fuel,
{
    let n = s.unicode_len();
    let j = crate::json::skip_ws_exec(s, i);
    if j >= n {
        return None;
    }
    if s.get_char(j) == '}' {
        return Some(j + 1);
    }
    let k = if first {
        j
    } else if s.get_char(j) == ',' {
        crate::json::skip_ws_exec(s, j + 1)
    } else {
        return None;
    };
    if k >= n || s.get_char(k) != '"' {
        return None;
    }
    let mut key = String::new();
    match crate::json::parse_string_body_exec(s, k + 1, &mut key) {
        None => None,
        Some(e1) => {
            proof {
                let p = crate::json::parse_string_body(s@, k as int + 1).unwrap();
                assert(key@ =~= p.0);
            }
            let c = crate::json::skip_ws_exec(s, e1);
            if c >= n || s.get_char(c) != ':' {
                return None;
            }
            let v = crate::json::skip_ws_exec(s, c + 1);
            if is_jwk_key_exec(key.as_str()) {
                if crate::json::assoc_find(acc, key.as_str()).is_some() {
                    return None;
                }
                if v >= n || s.get_char(v) != '"' {
                    return None;
                }
                let mut val = String::new();
                match crate::json::parse_string_body_exec(s, v + 1, &mut val) {
                    None => None,
                    Some(e2) => {
                        proof {
                            let q = crate::json::parse_string_body(s@, v as int + 1).unwrap();
                            assert(val@ =~= q.0);
                        }
                        let ghost acc0 = crate::json::pairs_view(acc@);
                        let ghost kv = key@;
                        let ghost vv = val@;
                        acc.push((key, val));
                        proof {
                            assert(crate::json::pairs_view(acc@) =~= acc0.push((kv, vv)));
                        }
                        parse_jwk_members_exec(s, e2, acc, false, Ghost((fuel - 1) as nat))
                    },
                }
            } else {
                match crate::json::skip_value_exec(s, v, Ghost((fuel - 1) as nat)) {
                    None => None,
                    Some(k2) => parse_jwk_members_exec(s, k2, acc, false, Ghost((fuel - 1) as nat)),
                }
            }
        },
    }
}

/// Builds a key value from collected members; `kty` is required.
fn jwk_of_pairs(acc: &Vec<(String, String)>) -> (r: Option<Jwk>)
    ensures
        match r {
            Some(j) => jwk_matches_assoc(crate::json::pairs_view(acc@), j),
            None => crate::json::assoc_get(crate::json::pairs_view(acc@), "kty"@) is None,
        },
{
    match crate::json::assoc_find(acc, "kty") {
        None => None,
        Some(kty) => Some(
            Jwk {
                kty,
                use_: crate::json::assoc_find(acc, "use"),
                alg: crate::json::assoc_find(acc, "alg"),
                kid: crate::json::assoc_find(acc, "kid"),
                crv: crate::json::assoc_find(acc, "crv"),
                x: crate::json::assoc_find(acc, "x"),
                y: crate::json::assoc_find(acc, "y"),
                e: crate::json::assoc_find(acc, "e"),
                n: crate::json::assoc_find(acc, "n"),
            },
        ),
    }
}

impl Jwk {
    /// Parses a JWK document.
    ///
    /// All members but `kty` are optional, and an absent optional member
    /// leaves its field absent; an unknown member is ignored whole, for
    /// forward compatibility.  The parse fails on malformed JSON, on a
    /// missing `kty`, on a repeated known member, and on a known member
    /// whose value is not a string.
    pub fn from_json(s: &str) -> (r: Option<Jwk>)
        ensures
            match r {
                Some(j) => spec_parse_jwk_doc(s@) matches Some(a) && jwk_matches_assoc(a, j),
                None => spec_parse_jwk_doc(s@) is None,
            },
    {
        let n = s.unicode_len();
        let i0 = crate::json::skip_ws_exec(s, 0);
        if i0 >= n || s.get_char(i0) != '{' {
            return None;
        }
        let mut acc: Vec<(String, String)> = Vec::new();
        assert(crate::json::pairs_view(acc@) =~= Seq::<(Seq<char>, Seq<char>)>::empty());
        match parse_jwk_members_exec(s, i0 + 1, &mut acc, true, Ghost((jwk_fuel(s@) - 1) as nat)) {
            None => None,
            Some(end) => {
                let e2 = crate::json::skip_ws_exec(s, end);
                if e2 < n {
                    return None;
                }
                jwk_of_pairs(&acc)
            },
        }
    }
}

/// Collects the elements of a `keys` array.
fn parse_jwk_list_rest_exec(
    s: &str,
    i: usize,
    keys: Vec<Jwk>,
    first: bool,
    Ghost(spec_acc): Ghost<Seq<Seq<(Seq<char>, Seq<char>)>>>,
    Ghost(fuel): Ghost<nat>,
) -> (r: Option<(Vec<Jwk>, usize)>)
    requires
        i <= s@.len(),
        fuel >= 2 * (s@.len() - i) + 3,
        jwks_match_assocs(spec_acc, keys@),
    ensures
        match r {
            Some(p) => parse_jwk_list_rest(s@, i as int, spec_acc, first, fuel) matches Some(q)
                && q.1 == p.1 as int && jwks_match_assocs(q.0, p.0@) && i < p.1 <= s@.len(),
            None => parse_jwk_list_rest(s@, i as int, spec_acc, first, fuel) is None,
        },
    decreases fuel,
{
    let n = s.unicode_len();
    let j = crate::json::skip_ws_exec(s, i);
    if j >= n {
        return None;
    }
    if s.get_char(j) == ']' {
        return Some((keys, j + 1));
    }
    let v = if first {
        j
    } else if s.get_char(j) == ',' {
        crate::json::skip_ws_exec(s, j + 1)
    } else {
        return None;
    };
    if v >= n || s.get_char(v) != '{' {
        return None;
    }
    let mut acc: Vec<(String, String)> = Vec::new();
    assert(crate::json::pairs_view(acc@) =~= Seq::<(Seq<char>, Seq<char>)>::empty());
    match parse_jwk_members_exec(s, v + 1, &mut acc, true, Ghost((fuel - 1) as nat)) {
        None => None,
        Some(e1) => {
            match jwk_of_pairs(&acc) {
                None => None,
                Some(jwk) => {
                    let ghost a = crate::json::pairs_view(acc@);
                    let ghost keys0 = keys@;
                    let mut keys2 = keys;
                    keys2.push(jwk);
                    proof {
                        assert forall|t: int| 0 <= t < spec_acc.push(a).len() implies jwk_matches_assoc(
                            spec_acc.push(a)[t],
                            #[trigger] keys2@[t],
                        ) by {
                            if t < spec_acc.len() {
                                assert(spec_acc.push(a)[t] == spec_acc[t]);
                                assert(keys2@[t] == keys0[t]);
                            } else {
                                assert(spec_acc.push(a)[t] == a);
                            }
                        }
                        assert(jwks_match_assocs(spec_acc.push(a), keys2@));
                    }
                    parse_jwk_list_rest_exec(
                        s,
                        e1,
                        keys2,
                        false,
                        Ghost(spec_acc.push(a)),
                        Ghost((fuel - 1) as nat),
                    )
                },
            }
        },
    }
}

/// Collects the members of a JWK set object.
fn parse_jwkset_members_exec(
    s: &str,
    i: usize,
    found: Option<Vec<Jwk>>,
    first: bool,
    Ghost(spec_found): Ghost<Option<Seq<Seq<(Seq<char>, Seq<char>)>>>>,
    Ghost(fuel): Ghost<nat>,
) -> (r: Option<(Option<Vec<Jwk>>, usize)>)
    requires
        i <= s@.len(),
        fuel >= 2 * (s@.len() - i) + 3,
        found is Some <==> spec_found is Some,
        found matches Some(v) ==> spec_found matches Some(l) && jwks_match_assocs(l, v@),
    ensures
        match r {
            Some(p) => parse_jwkset_members(s@, i as int, spec_found, first, fuel) matches Some(q)
                && q.1 == p.1 as int && (p.0 is Some <==> q.0 is Some) && (p.0 matches Some(v)
                ==> q.0 matches Some(l) && jwks_match_assocs(l, v@)) && i < p.1 <= s@.len(),
            None => parse_jwkset_members(s@, i as int, spec_found, first, fuel) is None,
        },
    decreases fuel,
{
    let n = s.unicode_len();
    let j = crate::json::skip_ws_exec(s, i);
    if j >= n {
        return None;
    }
    if s.get_char(j) == '}' {
        return Some((found, j + 1));
    }
    let k = if first {
        j
    } else if s.get_char(j) == ',' {
        crate::json::skip_ws_exec(s, j + 1)
    } else {
        return None;
    };
    if k >= n || s.get_char(k) != '"' {
        return None;
    }
    let mut key = String::new();
    match crate::json::parse_string_body_exec(s, k + 1, &mut key) {
        None => None,
        Some(e1) => {
            proof {
                let p = crate::json::parse_string_body(s@, k as int + 1).unwrap();
                assert(key@ =~= p.0);
            }
            let c = crate::json::skip_ws_exec(s, e1);
            if c >= n || s.get_char(c) != ':' {
                return None;
            }
            let v = crate::json::skip_ws_exec(s, c + 1);
            if str_eq(key.as_str(), "keys") {
                if found.is_some() {
                    return None;
                }
                if v >= n || s.get_char(v) != '[' {
                    return None;
                }
                let fresh: Vec<Jwk> = Vec::new();
                assert(jwks_match_assocs(Seq::empty(), fresh@));
                match parse_jwk_list_rest_exec(
                    s,
                    v + 1,
                    fresh,
                    true,
                    Ghost(Seq::empty()),
                    Ghost((fuel - 1) as nat),
                ) {
                    None => None,
                    Some(p) => parse_jwkset_members_exec(
                        s,
                        p.1,
                        Some(p.0),
                        false,
                        Ghost(Some(parse_jwk_list_rest(s@, v as int + 1, Seq::empty(), true, (fuel - 1) as nat).unwrap().0)),
                        Ghost((fuel - 1) as nat),
                    ),
                }
            } else {
                match crate::json::skip_value_exec(s, v, Ghost((fuel - 1) as nat)) {
                    None => None,
                    Some(k2) => parse_jwkset_members_exec(
                        s,
                        k2,
                        found,
                        false,
                        Ghost(spec_found),
                        Ghost((fuel - 1) as nat),
                    ),
                }
            }
        },
    }
}

impl JwkSet {
    /// Parses a JWK set document: one object whose `keys` member holds an
    /// array of JWK objects.  Unknown members of the set object and of
    /// each key object are ignored whole; the `keys` member itself is
    /// required.
    pub fn from_json(s: &str) -> (r: Option<JwkSet>)
        ensures
            match r {
                Some(set) => spec_parse_jwk_set_doc(s@) matches Some(list) && jwks_match_assocs(
                    list,
                    set.keys@,
                ),
                None => spec_parse_jwk_set_doc(s@) is None,
            },
    {
        let n = s.unicode_len();
        let i0 = crate::json::skip_ws_exec(s, 0);
        if i0 >= n || s.get_char(i0) != '{' {
            return None;
        }
        match parse_jwkset_members_exec(
            s,
            i0 + 1,
            None,
            true,
            Ghost(None),
            Ghost((jwk_fuel(s@) - 1) as nat),
        ) {
            None => None,
            Some(p) => {
                let e2 = crate::json::skip_ws_exec(s, p.1);
                if e2 < n {
                    return None;
                }
                match p.0 {
                    Some(keys) => Some(JwkSet { keys }),
                    None => None,
                }
            },
        }
    }
}

/// The JSON texts of a sequence of JWKs, joined by commas.
pub open spec fn jwk_array_body(keys: Seq<Jwk>) -> Seq<char>
    decreases keys.len(),
{
    if keys.len() == 0 {
        Seq::empty()
    } else if keys.len() == 1 {
        jwk_json(keys[0])
    } else {
        jwk_json(keys[0]) + seq![','] + jwk_array_body(keys.skip(1))
    }
}

/// The JSON text of a JWK set: one `keys` member holding the array.
pub open spec fn jwk_set_json(keys: Seq<Jwk>) -> Seq<char> {
    seq!['{', '"', 'k', 'e', 'y', 's', '"', ':', '['] + jwk_array_body(keys) + seq![']', '}']
}

/// A JSON Web Key set.
#[derive(Clone, Debug, Eq, Hash, PartialEq)]
pub struct JwkSet {
    pub keys: Vec<Jwk>,
}

/// Extending a key sequence by one key appends its JSON text, after a
/// comma when other keys precede it.
proof fn lemma_jwk_array_body_push(keys: Seq<Jwk>, j: Jwk)
    ensures
        jwk_array_body(keys.push(j)) == if keys.len() == 0 {
            jwk_json(j)
        } else {
            jwk_array_body(keys) + seq![','] + jwk_json(j)
        },
    decreases keys.len(),
{
    let ext = keys.push(j);
    if keys.len() == 0 {
        assert(ext.len() == 1);
        assert(ext[0] == j);
    } else {
        lemma_jwk_array_body_push(keys.skip(1), j);
        assert(ext.skip(1) =~= keys.skip(1).push(j));
        assert(ext[0] == keys[0]);
        if keys.len() == 1 {
            assert(jwk_array_body(ext) =~= jwk_array_body(keys) + seq![','] + jwk_json(j));
        } else {
            assert(jwk_array_body(keys.skip(1)) + seq![','] + jwk_json(j)
                =~= (jwk_array_body(keys) + seq![','] + jwk_json(j)).skip(1 + jwk_json(keys[0]).len() as int));
            assert(jwk_array_body(ext)
                =~= jwk_json(keys[0]) + seq![','] + (jwk_array_body(keys.skip(1)) + seq![','] + jwk_json(j)));
            assert(jwk_array_body(ext) =~= jwk_array_body(keys) + seq![','] + jwk_json(j));
        }
    }
}

impl JwkSet {
    /// Serializes the set as `{"keys":[...]}` with the keys in order.
    pub fn to_json(&self) -> (r: String)
        ensures
            r@ == jwk_set_json(self.keys@),
    {
        let mut out = String::new();
        push_char(&mut out, '{');
        push_char(&mut out, '"');
        push_char(&mut out, 'k');
        push_char(&mut out, 'e');
        push_char(&mut out, 'y');
        push_char(&mut out, 's');
        push_char(&mut out, '"');
        push_char(&mut out, ':');
        push_char(&mut out, '[');
        let ghost prefix = out@;
        let mut i: usize = 0;
        while i < self.keys.len()
            invariant
                i <= self.keys.len(),
                prefix == seq!['{', '"', 'k', 'e', 'y', 's', '"', ':', '['],
                out@ == prefix + jwk_array_body(self.keys@.take(i as int)),
            decreases self.keys.len() - i,
        {
            if i > 0 {
                push_char(&mut out, ',');
            }
            let ghost before = out@;
            let piece = self.keys[i].to_json();
            out.append(piece.as_str());
            proof {
                lemma_jwk_array_body_push(self.keys@.take(i as int), self.keys@[i as int]);
                assert(self.keys@.take(i as int + 1) =~= self.keys@.take(i as int).push(self.keys@[i as int]));
                assert(out@ =~= prefix + jwk_array_body(self.keys@.take(i as int + 1)));
            }
            i = i + 1;
        }
        assert(self.keys@.take(self.keys@.len() as int) =~= self.keys@);
        push_char(&mut out, ']');
        push_char(&mut out, '}');
        assert(out@ =~= jwk_set_json(self.keys@));
        out
    }
}

} // verus!
