//! Where the sandwich store lives: the settings of the MongoDB connection.
use vstd::prelude::*;

verus! {

/// The settings of the connection to the sandwich store.
#[derive(Clone, Debug)]
pub struct PersistenceConfig {
    pub user: String,
    pub password: String,
    pub host: String,
    pub port: Option<u16>,
    pub auth_db: String,
    pub database: String,
    pub schema_collection: String,
}

/// The message for a missing host.
pub open spec fn missing_host_message() -> Seq<char> {
    "persistence host is required"@
}

/// The message for a missing database.
pub open spec fn missing_database_message() -> Seq<char> {
    "persistence database is required"@
}

/// The message for a missing collection.
pub open spec fn missing_collection_message() -> Seq<char> {
    "persistence schema collection is required"@
}

/// What `validate` gives: the message of the first setting that is missing, if any.
/// The host, the database and the collection must not be empty.
pub open spec fn config_problem(host: Seq<char>, database: Seq<char>, collection: Seq<char>) -> Option<Seq<char>> {
    if host.len() == 0 {
        Some(missing_host_message())
    } else if database.len() == 0 {
        Some(missing_database_message())
    } else if collection.len() == 0 {
        Some(missing_collection_message())
    } else {
        None
    }
}

impl PersistenceConfig {
    /// Checks that the settings name a store.
    pub fn validate(&self) -> (r: Result<(), String>)
        ensures
            match config_problem(self.host@, self.database@, self.schema_collection@) {
                None => r is Ok,
                Some(m) => r matches Err(e) && e@ == m,
            },
    {
        if self.host.as_str().is_empty() {
            return Err("persistence host is required".to_owned());
        }
        if self.database.as_str().is_empty() {
            return Err("persistence database is required".to_owned());
        }
        if self.schema_collection.as_str().is_empty() {
            return Err("persistence schema collection is required".to_owned());
        }
        Ok(())
    }
}

} // verus!
