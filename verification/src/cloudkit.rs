//! CloudKit stores data in the cloud.
//!
//! This module models the request shapes of the CloudKit web services:
//! the database base path from which every request URL is derived, and
//! the record and zone values carried in request bodies.

use vstd::prelude::*;

use crate::json::push_char;

pub mod records;
pub mod zones;

verus! {

/// X-Apple-CloudKit-Request-KeyID HTTP header
pub const X_APPLE_CLOUDKIT_REQUEST_KEY_ID_HEADER: &'static str = "X-Apple-CloudKit-Request-KeyID";

/// X-Apple-CloudKit-Request-ISO8601Date HTTP header
pub const X_APPLE_CLOUDKIT_REQUEST_ISO8601_DATE_HEADER: &'static str =
    "X-Apple-CloudKit-Request-ISO8601Date";

/// X-Apple-CloudKit-Request-SignatureV1 HTTP header
pub const X_APPLE_CLOUDKIT_REQUEST_SIGNATURE_V1_HEADER: &'static str =
    "X-Apple-CloudKit-Request-SignatureV1";

/// Default base URL.
pub const BASE_URL: &'static str = "https://api.apple-cloudkit.com";

/// CloudKit container.
#[derive(Clone, Debug, Eq, Hash, PartialEq)]
pub struct Container(pub String);

/// Environment
#[derive(Clone, Copy, Debug, Eq, Hash, PartialEq)]
#[non_exhaustive]
pub enum Env {
    /// Development
    Dev,
    /// Production
    Prod,
}

/// The path segment naming an environment.
pub open spec fn spec_env_str(e: Env) -> Seq<char> {
    match e {
        Env::Dev => "development"@,
        Env::Prod => "production"@,
    }
}

impl Env {
    /// Returns the path segment for the environment.
    pub fn as_str(&self) -> (r: &'static str)
        ensures
            r@ == spec_env_str(*self),
    {
        match self {
            Env::Dev => "development",
            Env::Prod => "production",
        }
    }
}

/// The path under which one container and environment is addressed.
#[derive(Clone, Debug, Eq, Hash, PartialEq)]
pub struct DbBasePath {
    container: Container,
    env: Env,
}

impl DbBasePath {
    /// The container identifier named by this base path.
    pub closed spec fn spec_container(&self) -> Seq<char> {
        self.container.0@
    }

    /// The environment named by this base path.
    pub closed spec fn spec_env(&self) -> Env {
        self.env
    }

    /// The sub-path below the base URL: protocol version, container,
    /// environment.
    pub open spec fn spec_sub_path(&self) -> Seq<char> {
        "/database/1/"@ + self.spec_container() + "/"@ + spec_env_str(self.spec_env())
    }

    /// Binds a container and an environment into a base path.
    pub fn new(container: Container, env: Env) -> (r: DbBasePath)
        ensures
            r.spec_container() == container.0@,
            r.spec_env() == env,
    {
        DbBasePath { container, env }
    }

    /// Returns the web service protocol version.
    pub fn version(&self) -> (r: &'static str)
        ensures
            r@ == "1"@,
    {
        "1"
    }

    /// Returns the container.
    pub fn container(&self) -> (r: &Container)
        ensures
            r.0@ == self.spec_container(),
    {
        &self.container
    }

    /// Returns the environment.
    pub fn environment(&self) -> (r: &Env)
        ensures
            *r == self.spec_env(),
    {
        &self.env
    }

    /// Derives the sub-path `/database/<version>/<container>/<environment>`.
    pub fn sub_path(&self) -> (r: String)
        ensures
            r@ == self.spec_sub_path(),
    {
        let mut p = "/database/1/".to_owned();
        p.append(self.container.0.as_str());
        push_char(&mut p, '/');
        p.append(self.env.as_str());
        proof {
            reveal_strlit("/");
            assert(p@ =~= self.spec_sub_path());
        }
        p
    }
}

/// Database
#[derive(Clone, Copy, Debug, Eq, Hash, PartialEq)]
#[non_exhaustive]
pub enum Db {
    Public,
    Private,
    Shared,
}

/// The path segment naming a database.
pub open spec fn spec_db_str(d: Db) -> Seq<char> {
    match d {
        Db::Public => "public"@,
        Db::Private => "private"@,
        Db::Shared => "shared"@,
    }
}

impl Db {
    /// Returns the path segment for the database.
    pub fn as_str(&self) -> (r: &'static str)
        ensures
            r@ == spec_db_str(*self),
    {
        match self {
            Db::Public => "public",
            Db::Private => "private",
            Db::Shared => "shared",
        }
    }
}

/// A web service request: the sub-path it is addressed to and the JSON
/// body it carries, if any.
pub trait Request<B> {
    /// The sub-path the request is sent to.
    spec fn spec_sub_path(&self) -> Seq<char>;

    /// Whether the request carries a body.
    spec fn spec_has_body(&self) -> bool;

    /// Returns the sub-path the request is sent to.
    fn sub_path(&self) -> (r: String)
        ensures
            r@ == self.spec_sub_path(),
    ;

    /// Returns the request body, if the request carries one.
    fn body(&self) -> (r: Option<&B>)
        ensures
            r is Some <==> self.spec_has_body(),
    ;
}

/// One operation of a record modification request.
#[derive(Clone, Debug, Eq, Hash, PartialEq)]
pub struct Operation {
    pub operation_type: String,
    pub record: Record,
    pub desired_keys: Option<Vec<String>>,
}

/// The kind of change a record operation applies.
pub enum OperationType {
    Create,
    Update,
    ForceUpdate,
    Replace,
    ForceReplace,
    Delete,
    ForceDelete,
}

/// A record carried in a request or response body.
#[derive(Clone, Debug, Eq, Hash, PartialEq)]
pub struct Record {
    pub record_name: String,
    pub record_type: Option<String>,
    pub record_change_tag: Option<String>,
}

/// A zone carried in a request or response body.
#[derive(Clone, Debug, Eq, Hash, PartialEq)]
pub struct Zone {
    pub zone_id: ZoneId,
    pub sync_token: Option<Vec<u8>>,
    pub atomic: Option<bool>,
}

/// The identifier of a zone.
#[derive(Clone, Debug, Eq, Hash, PartialEq)]
pub struct ZoneId {
    pub zone_name: String,
    pub owner_record_name: Option<String>,
}

} // verus!
