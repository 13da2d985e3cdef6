use vstd::prelude::*;
use vstd::string::StringExecFns;

verus! {

/// Where the HTTP server listens.
#[derive(Clone, Debug)]
pub struct ApiConfig {
    pub host: String,
}

/// How to reach the database, and how many connections to keep.
#[derive(Clone, Debug)]
pub struct DatabaseConfig {
    pub host: String,
    pub port: u16,
    pub database: String,
    pub user: String,
    pub password: String,
    pub max_connections: u32,
}

/// The listen address used when none is configured: every interface, port 8080.
pub fn default_host() -> (host: String)
    ensures
        host@ == "0.0.0.0:8080"@,
{
    String::from_str("0.0.0.0:8080")
}

/// The connection pool's size when none is configured.
pub fn default_max_connections() -> (n: u32)
    ensures
        n == 8,
{
    8
}

} // verus!
