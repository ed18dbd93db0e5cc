//! Helpers for JSON Web Tokens, built over an abstract signing key.
//!
//! Where `crate::jwt` binds a concrete key value, this module derives a
//! header from any type that can name its key id and algorithm.  The JSON
//! text of the header and claims is the same in both: `alg` then `kid`,
//! `iss` then `iat`, absent optional claims omitted entirely.

use vstd::prelude::*;

use super::KeyId;
use crate::TeamId;
use crate::json::opt_str_view;
use crate::json::push_char;
use crate::json::write_json_string;
use crate::json::write_opt_str_member;
use crate::json::write_opt_u64_member;
use crate::json::write_u64_decimal;
use crate::jwt::claims_json;
use crate::jwt::header_json;
use crate::time::DurationSinceEpoch;

verus! {

/// A signing key: a key identifier bound to a statically known algorithm
/// name.  Callers implement this for their own key types; an
/// implementation must return its key id and algorithm name exactly as
/// its spec functions state them.
pub trait Key {
    /// The key identifier string.
    spec fn spec_id(&self) -> Seq<char>;

    /// The algorithm name of every key of this type.
    spec fn spec_alg() -> Seq<char>;

    /// Returns the key ID.
    fn id(&self) -> (r: &KeyId)
        ensures
            r.0@ == self.spec_id(),
    ;

    /// Returns the intended signing algorithm.
    fn alg() -> (r: &'static str)
        ensures
            r@ == Self::spec_alg(),
    ;
}

/// A key identifier bound to the ES256 algorithm, the algorithm Apple's
/// services sign with.
#[derive(Clone, Debug, Eq, Hash, PartialEq)]
pub struct Es256Key {
    pub id: KeyId,
}

impl Key for Es256Key {
    open spec fn spec_id(&self) -> Seq<char> {
        self.id.0@
    }

    open spec fn spec_alg() -> Seq<char> {
        "ES256"@
    }

    fn id(&self) -> (r: &KeyId) {
        &self.id
    }

    fn alg() -> (r: &'static str) {
        "ES256"
    }
}

/// Contains the algorithm and the key ID used to sign the JWT.
#[derive(Clone, Debug, Eq, PartialEq)]
pub struct Header {
    alg: String,
    kid: String,
}

impl Header {
    /// The algorithm string of the header.
    pub closed spec fn spec_alg(&self) -> Seq<char> {
        self.alg@
    }

    /// The key identifier string of the header.
    pub closed spec fn spec_kid(&self) -> Seq<char> {
        self.kid@
    }

    /// Constructs a `Header` from a signing key.
    pub fn new<K: Key>(key: &K) -> (r: Header)
        ensures
            r.spec_alg() == K::spec_alg(),
            r.spec_kid() == key.spec_id(),
    {
        Header { alg: K::alg().to_owned(), kid: key.id().0.clone() }
    }

    /// Returns the signing algorithm.
    pub fn alg(&self) -> (r: &str)
        ensures
            r@ == self.spec_alg(),
    {
        self.alg.as_str()
    }

    /// Returns the key ID.
    pub fn kid(&self) -> (r: &str)
        ensures
            r@ == self.spec_kid(),
    {
        self.kid.as_str()
    }

    /// Serializes the header: exactly the two members, `alg` then `kid`,
    /// both always present.
    pub fn to_json(&self) -> (r: String)
        ensures
            r@ == header_json(self.spec_alg(), self.spec_kid()),
    {
        let mut out = String::new();
        push_char(&mut out, '{');
        push_char(&mut out, '"');
        push_char(&mut out, 'a');
        push_char(&mut out, 'l');
        push_char(&mut out, 'g');
        push_char(&mut out, '"');
        push_char(&mut out, ':');
        write_json_string(&mut out, self.alg.as_str());
        push_char(&mut out, ',');
        push_char(&mut out, '"');
        push_char(&mut out, 'k');
        push_char(&mut out, 'i');
        push_char(&mut out, 'd');
        push_char(&mut out, '"');
        push_char(&mut out, ':');
        write_json_string(&mut out, self.kid.as_str());
        push_char(&mut out, '}');
        assert(out@ =~= header_json(self.spec_alg(), self.spec_kid()));
        out
    }
}

/// Contains the issuer ID (team ID), when the token was issued, and when
/// the token expires.
#[derive(Clone, Debug, Eq, Hash, PartialEq)]
pub struct Claims {
    pub iss: String,
    pub iat: u64,
    pub exp: Option<u64>,
    pub aud: Option<String>,
    pub sub: Option<String>,
}

impl Claims {
    /// Constructs a `Claims` whose issue time is read from the supplied
    /// duration, never from a clock of this library's own.
    pub fn new<T: DurationSinceEpoch>(
        team_id: &TeamId,
        duration_since_epoch: T,
        exp: Option<u64>,
    ) -> (r: Claims)
        ensures
            r.iss@ == team_id.0@,
            r.iat == duration_since_epoch.spec_secs(),
            r.exp == exp,
            r.aud is None,
            r.sub is None,
    {
        Claims {
            iss: team_id.0.clone(),
            iat: duration_since_epoch.as_secs(),
            exp,
            aud: None,
            sub: None,
        }
    }

    /// Returns the issuer of the token (usually the team ID).
    pub fn iss(&self) -> (r: &str)
        ensures
            r@ == self.iss@,
    {
        self.iss.as_str()
    }

    /// Returns when the token was issued as the number of seconds since
    /// the Unix epoch.
    pub fn iat(&self) -> (r: u64)
        ensures
            r == self.iat,
    {
        self.iat
    }

    /// Returns when the token should expire as the number of seconds
    /// since the Unix epoch.
    pub fn exp(&self) -> (r: Option<u64>)
        ensures
            r == self.exp,
    {
        self.exp
    }

    /// Returns the intended audience.
    pub fn aud(&self) -> (r: Option<&str>)
        ensures
            match r {
                Some(a) => self.aud matches Some(s) && a@ == s@,
                None => self.aud is None,
            },
    {
        match &self.aud {
            Some(a) => Some(a.as_str()),
            None => None,
        }
    }

    /// Returns the subject.
    pub fn sub(&self) -> (r: Option<&str>)
        ensures
            match r {
                Some(a) => self.sub matches Some(s) && a@ == s@,
                None => self.sub is None,
            },
    {
        match &self.sub {
            Some(s) => Some(s.as_str()),
            None => None,
        }
    }

    /// Serializes the claims: `iss` and `iat` always and in that order;
    /// absent optional claims are omitted entirely, never written as
    /// `null`.
    pub fn to_json(&self) -> (r: String)
        ensures
            r@ == claims_json(self.iss@, self.iat, self.exp, opt_str_view(self.aud), opt_str_view(self.sub)),
    {
        proof {
            reveal_strlit("exp");
            reveal_strlit("aud");
            reveal_strlit("sub");
            assert("exp"@ =~= seq!['e', 'x', 'p']);
            assert("aud"@ =~= seq!['a', 'u', 'd']);
            assert("sub"@ =~= seq!['s', 'u', 'b']);
        }
        let mut out = String::new();
        push_char(&mut out, '{');
        push_char(&mut out, '"');
        push_char(&mut out, 'i');
        push_char(&mut out, 's');
        push_char(&mut out, 's');
        push_char(&mut out, '"');
        push_char(&mut out, ':');
        write_json_string(&mut out, self.iss.as_str());
        push_char(&mut out, ',');
        push_char(&mut out, '"');
        push_char(&mut out, 'i');
        push_char(&mut out, 'a');
        push_char(&mut out, 't');
        push_char(&mut out, '"');
        push_char(&mut out, ':');
        write_u64_decimal(&mut out, self.iat);
        write_opt_u64_member(&mut out, "exp", &self.exp);
        write_opt_str_member(&mut out, "aud", &self.aud);
        write_opt_str_member(&mut out, "sub", &self.sub);
        push_char(&mut out, '}');
        assert(out@ =~= claims_json(self.iss@, self.iat, self.exp, opt_str_view(self.aud), opt_str_view(self.sub)));
        out
    }
}

} // verus!
