//! Configuration records read at start-up: the database connection and the
//! installation state.

use vstd::prelude::*;

verus! {

/// Which installation steps are done.
#[derive(Clone, Debug)]
pub struct Init {
    pub sql: bool,
    pub no_sql: bool,
    pub administrator: bool,
}

impl Default for Init {
    fn default() -> (r: Init)
        ensures
            !r.sql && !r.no_sql && !r.administrator,
    {
        Init { sql: false, no_sql: false, administrator: false }
    }
}

/// The first installation step still to do: 1 for the database, 2 for the
/// administrator account, 3 when both are done.
pub fn setup_step(init: &Init) -> (r: u8)
    ensures
        r == (if !init.sql { 1u8 } else if !init.administrator { 2u8 } else { 3u8 }),
{
    if !init.sql {
        1
    } else if !init.administrator {
        2
    } else {
        3
    }
}

/// How to reach the relational database, and the prefix of its table names.
#[derive(Clone, Debug)]
pub struct SqlConfig {
    pub db_type: String,
    pub address: String,
    pub port: u32,
    pub user: String,
    pub password: String,
    pub db_name: String,
    pub db_prefix: String,
}

impl Default for SqlConfig {
    /// A local SQLite database named `echoes` with the prefix `echoes_`.
    fn default() -> (r: SqlConfig)
        ensures
            r.db_type@ == "sqllite"@ && r.address@ == ""@ && r.port == 0 && r.user@ == ""@
                && r.password@ == ""@ && r.db_name@ == "echoes"@ && r.db_prefix@ == "echoes_"@,
    {
        SqlConfig {
            db_type: String::from_str("sqllite"),
            address: String::from_str(""),
            port: 0,
            user: String::from_str(""),
            password: String::from_str(""),
            db_name: String::from_str("echoes"),
            db_prefix: String::from_str("echoes_"),
        }
    }
}

/// How to reach the non-relational store.
#[derive(Clone, Debug)]
pub struct NoSqlConfig {
    pub db_type: String,
    pub address: String,
    pub port: u32,
    pub user: String,
    pub password: String,
    pub db_name: String,
}

impl Default for NoSqlConfig {
    /// A local PostgreSQL server on port 5432.
    fn default() -> (r: NoSqlConfig)
        ensures
            r.db_type@ == "postgresql"@ && r.address@ == "localhost"@ && r.port == 5432
                && r.user@ == "postgres"@ && r.password@ == "postgres"@ && r.db_name@ == "echoes"@,
    {
        NoSqlConfig {
            db_type: String::from_str("postgresql"),
            address: String::from_str("localhost"),
            port: 5432,
            user: String::from_str("postgres"),
            password: String::from_str("postgres"),
            db_name: String::from_str("echoes"),
        }
    }
}

/// The whole configuration file: where to listen, which steps are done, and
/// the database to use.
#[derive(Clone, Debug)]
pub struct Config {
    pub address: String,
    pub port: u32,
    pub init: Init,
    pub sql_config: SqlConfig,
}

impl Default for Config {
    /// Listen on every interface at port 22000, nothing installed yet.
    fn default() -> (r: Config)
        ensures
            r.address@ == "0.0.0.0"@ && r.port == 22000 && !r.init.sql && !r.init.no_sql
                && !r.init.administrator && r.sql_config.db_type@ == "sqllite"@
                && r.sql_config.db_prefix@ == "echoes_"@,
    {
        Config {
            address: String::from_str("0.0.0.0"),
            port: 22000,
            init: Init::default(),
            sql_config: SqlConfig::default(),
        }
    }
}

/// Whether the site is installed, and whether it uses a non-relational store.
#[derive(Clone, Debug)]
pub struct Info {
    pub install: bool,
    pub non_relational: bool,
}

} // verus!
