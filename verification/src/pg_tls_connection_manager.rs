use vstd::prelude::*;

verus! {

/// Where TLS-enabled PostgreSQL connections are made to.
pub struct PgTlsConnectionManager {
    database_url: String,
}

impl PgTlsConnectionManager {
    /// The address the manager was made with.
    pub closed spec fn spec_database_url(&self) -> Seq<char> {
        self.database_url@
    }

    /// A manager for the database at `database_url`.
    pub fn new(database_url: String) -> (r: PgTlsConnectionManager)
        ensures
            r.spec_database_url() == database_url@,
    {
        PgTlsConnectionManager { database_url }
    }

    /// The database address.
    pub fn database_url(&self) -> (r: &str)
        ensures
            r@ == self.spec_database_url(),
    {
        self.database_url.as_str()
    }
}

} // verus!
