//! Process configuration and stored records.

use vstd::prelude::*;

verus! {

/// The recorder's configuration.
pub struct NvrConfig {
    db_url: String,
}

impl NvrConfig {
    pub fn new(db_url: &str) -> (r: NvrConfig)
        ensures
            r.db_url_view() == db_url@,
    {
        NvrConfig { db_url: db_url.to_owned() }
    }

    pub closed spec fn db_url_view(&self) -> Seq<char> {
        self.db_url@
    }

    pub fn db_url(&self) -> (r: &str)
        ensures
            r@ == self.db_url_view(),
    {
        self.db_url.as_str()
    }
}

/// The default configuration: the database in "nvr.db".
pub fn config() -> (r: NvrConfig)
    ensures
        r.db_url_view() == "nvr.db"@,
{
    NvrConfig::new("nvr.db")
}

/// Where the database lives.
pub struct DatabaseConfig<'a> {
    url: &'a str,
}

impl<'a> DatabaseConfig<'a> {
    pub fn new(url: &'a str) -> (r: DatabaseConfig<'a>)
        ensures
            r.url_view() == url@,
    {
        DatabaseConfig { url }
    }

    pub closed spec fn url_view(&self) -> Seq<char> {
        self.url@
    }

    pub fn url(&self) -> (r: &'a str)
        ensures
            r@ == self.url_view(),
    {
        self.url
    }
}

/// One row of the key/value store.
#[derive(Debug, Default)]
pub struct Kv {
    pub id: i64,
    pub module: String,
    pub key: String,
    pub sub_key: Option<String>,
    pub value: Option<String>,
}

/// One schema migration.
pub struct Migration {
    pub version: i64,
    pub description: String,
    pub sql: String,
}

impl Migration {
    pub fn new(version: i64, description: String, sql: String) -> (r: Migration)
        ensures
            r.version == version,
            r.description == description,
            r.sql == sql,
    {
        Migration { version, description, sql }
    }
}

} // verus!
