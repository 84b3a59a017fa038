use vstd::prelude::*;
use vstd::string::*;

verus! {

/// The host used unless the production flag is given.
pub const LOCAL_HOST: &'static str = "127.0.0.1";

/// The database that the store serves the application from.
pub const DATABASE_NAME: &'static str = "matryriska";

/// The recognised fields of the configuration file.
#[derive(Debug)]
pub struct Config {
    pub db_host: String,
    pub db_port: u64,
    pub db_username: String,
    pub db_password: String,
    pub web_port: u64,
}

impl Default for Config {
    /// The configuration written on first run.
    fn default() -> (r: Config)
        ensures
            r.db_host@ == LOCAL_HOST@,
            r.db_port == 3306,
            r.db_username@ == DATABASE_NAME@,
            r.db_password@ == Seq::<char>::empty(),
            r.web_port == 8080,
    {
        Config {
            db_host: String::from_str(LOCAL_HOST),
            db_port: 3306,
            db_username: String::from_str(DATABASE_NAME),
            db_password: String::new(),
            web_port: 8080,
        }
    }
}

/// What a pool is built from.
#[derive(Debug)]
pub struct ConnectionSettings {
    pub host: String,
    pub port: u16,
    pub database: String,
    pub user: String,
    pub password: String,
}

/// The low 16 bits of a configured port number.
pub open spec fn port_of(p: u64) -> u16 {
    (p % 65536) as u16
}

/// The settings of a pool built from the configuration: the configured host
/// only in production, the local host otherwise.
pub fn connection_settings(config: &Config, production: bool) -> (r: ConnectionSettings)
    ensures
        r.host@ == (if production { config.db_host@ } else { LOCAL_HOST@ }),
        r.port == port_of(config.db_port),
        r.database@ == DATABASE_NAME@,
        r.user@ == config.db_username@,
        r.password@ == config.db_password@,
{
    let host = if production { config.db_host.clone() } else { String::from_str(LOCAL_HOST) };
    ConnectionSettings {
        host,
        port: (config.db_port % 65536) as u16,
        database: String::from_str(DATABASE_NAME),
        user: config.db_username.clone(),
        password: config.db_password.clone(),
    }
}

/// The port that the web surface listens on.
pub fn web_port(config: &Config) -> (r: u16)
    ensures
        r == port_of(config.web_port),
{
    (config.web_port % 65536) as u16
}

} // verus!
