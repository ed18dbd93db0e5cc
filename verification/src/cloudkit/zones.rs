//! Listing the zones of a CloudKit database.

use vstd::prelude::*;

use super::Db;
use super::DbBasePath;
use super::Request;
use super::spec_db_str;

verus! {

/// A request that lists the zones of one database.  It carries no body.
pub struct FetchZonesRequest {
    db_base_path: DbBasePath,
    db: Db,
}

impl FetchZonesRequest {
    /// The base path the request is addressed under.
    pub closed spec fn spec_db_base_path(&self) -> DbBasePath {
        self.db_base_path
    }

    /// The database the request addresses.
    pub closed spec fn spec_db(&self) -> Db {
        self.db
    }

    /// Binds a base path and a database into a request.
    pub fn new(db_base_path: DbBasePath, db: Db) -> (r: FetchZonesRequest)
        ensures
            r.spec_db_base_path() == db_base_path,
            r.spec_db() == db,
    {
        FetchZonesRequest { db_base_path, db }
    }
}

impl Request<core::marker::PhantomData<u8>> for FetchZonesRequest {
    /// `<base>/<db>/zones/list`.
    open spec fn spec_sub_path(&self) -> Seq<char> {
        self.spec_db_base_path().spec_sub_path() + "/"@ + spec_db_str(self.spec_db())
            + "/zones/list"@
    }

    open spec fn spec_has_body(&self) -> bool {
        false
    }

    fn sub_path(&self) -> (r: String) {
        let mut p = self.db_base_path.sub_path();
        crate::json::push_char(&mut p, '/');
        p.append(self.db.as_str());
        p.append("/zones/list");
        proof {
            reveal_strlit("/");
            assert(p@ =~= self.spec_sub_path());
        }
        p
    }

    fn body(&self) -> (r: Option<&core::marker::PhantomData<u8>>) {
        None
    }
}

} // verus!
