//! Modifying records in a CloudKit database.

use vstd::prelude::*;

use super::Db;
use super::DbBasePath;
use super::Operation;
use super::Request;
use super::ZoneId;
use super::spec_db_str;

verus! {

/// The body of a record modification request.
#[derive(Clone, Debug, Eq, Hash, PartialEq)]
pub struct ModifyRecordsRequestBody {
    pub operations: Vec<Operation>,
    pub zone_id: ZoneId,
    pub atomic: Option<bool>,
    pub desired_keys: Option<Vec<String>>,
    pub numbers_as_strings: Option<bool>,
}

/// A request that modifies records in one database.
pub struct ModifyRecordsRequest {
    db_base_path: DbBasePath,
    db: Db,
    body: ModifyRecordsRequestBody,
}

impl ModifyRecordsRequest {
    /// The base path the request is addressed under.
    pub closed spec fn spec_db_base_path(&self) -> DbBasePath {
        self.db_base_path
    }

    /// The database the request addresses.
    pub closed spec fn spec_db(&self) -> Db {
        self.db
    }

    /// The body the request carries.
    pub closed spec fn spec_body(&self) -> ModifyRecordsRequestBody {
        self.body
    }

    /// Binds a base path, a database, and a body into a request.
    pub fn new(db_base_path: DbBasePath, db: Db, body: ModifyRecordsRequestBody) -> (r:
        ModifyRecordsRequest)
        ensures
            r.spec_db_base_path() == db_base_path,
            r.spec_db() == db,
            r.spec_body() == body,
    {
        ModifyRecordsRequest { db_base_path, db, body }
    }
}

impl Request<ModifyRecordsRequestBody> for ModifyRecordsRequest {
    /// `<base>/<db>/records/modify`.
    open spec fn spec_sub_path(&self) -> Seq<char> {
        self.spec_db_base_path().spec_sub_path() + "/"@ + spec_db_str(self.spec_db())
            + "/records/modify"@
    }

    open spec fn spec_has_body(&self) -> bool {
        true
    }

    fn sub_path(&self) -> (r: String) {
        let mut p = self.db_base_path.sub_path();
        crate::json::push_char(&mut p, '/');
        p.append(self.db.as_str());
        p.append("/records/modify");
        proof {
            reveal_strlit("/");
            assert(p@ =~= self.spec_sub_path());
        }
        p
    }

    fn body(&self) -> (r: Option<&ModifyRecordsRequestBody>) {
        Some(&self.body)
    }
}

} // verus!
