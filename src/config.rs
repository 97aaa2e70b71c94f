//! The process configuration read at startup.
use vstd::prelude::*;
use vstd::string::StringExecFns;

verus! {

/// The most database connections the pool opens at once.
pub const MAX_CONNECTIONS: u32 = 5;

/// Settings for the server process.
pub struct Config {
    /// The address the listener binds, `0.0.0.0:<port>`.
    pub addr: String,
    pub database_url: String,
    pub max_connections: u32,
}

/// The one configuration error: the connection string is not set.
#[derive(Clone, Copy, Debug, PartialEq, Eq, Structural)]
pub enum ConfigError {
    MissingDatabaseUrl,
}

/// The port text: the one given, else `3000`.
pub open spec fn port_text(port: Option<String>) -> Seq<char> {
    match port {
        Some(p) => p@,
        None => "3000"@,
    }
}

pub open spec fn address_for(port: Option<String>) -> Seq<char> {
    "0.0.0.0:"@ + port_text(port)
}

/// The listening address for the given port, on every interface.
pub fn bind_address(port: Option<String>) -> (r: String)
    ensures
        r@ == address_for(port),
{
    let host = String::from_str("0.0.0.0:");
    match port {
        Some(p) => host.concat(p.as_str()),
        None => host.concat("3000"),
    }
}

/// The configuration from the values of `PORT` and `DATABASE_URL` (`None`
/// where one is not set): it fails exactly when the connection string is
/// missing.
pub fn load_config(port: Option<String>, database_url: Option<String>) -> (r: Result<Config, ConfigError>)
    ensures
        database_url is None <==> r is Err,
        database_url is None ==> r == Err::<Config, ConfigError>(ConfigError::MissingDatabaseUrl),
        r matches Ok(c) ==> {
            &&& c.addr@ == address_for(port)
            &&& database_url matches Some(u) && c.database_url@ == u@
            &&& c.max_connections == MAX_CONNECTIONS
        },
{
    match database_url {
        Some(u) => {
            let addr = bind_address(port);
            Ok(Config { addr, database_url: u, max_connections: MAX_CONNECTIONS })
        },
        None => Err(ConfigError::MissingDatabaseUrl),
    }
}

} // verus!
