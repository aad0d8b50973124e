//! SQL Server connection settings and the driver configuration built from them.
//!
//! Opening a connection is asynchronous network I/O and is done by the
//! caller with the `mssql_client::Config` that [`SqlServerRepositoryImpl::build_config`]
//! returns.
use vstd::prelude::*;

use mssql_client::{Config, Credentials};

use crate::config::{read_connection, spec_connection, ConfigError, ConfigSource, ConnectionSettings};

verus! {

#[verifier::external_type_specification]
#[verifier::external_body]
pub struct ExConfig(Config);

/// The driver configuration that `Config::new()` followed by `host`, `port`,
/// `database`, `credentials(Credentials::sql_server(username, password))`
/// and `trust_server_certificate` gives for these six values. It is a
/// function of them alone: every other setting is the driver's fixed default.
pub uninterp spec fn driver_config(
    host: Seq<char>,
    port: u16,
    database: Seq<char>,
    username: Seq<char>,
    password: Seq<char>,
    trust: bool,
) -> Config;

/// The `mssql_client` builder chain: `Config::new()`, then `host`, `port`,
/// `database`, `credentials` with `Credentials::sql_server(username, password)`,
/// and `trust_server_certificate`. Claimed: the result is [`driver_config`]
/// of the six values; what the driver keeps in each field is not stated,
/// since the verifier cannot look into `Config`.
#[verifier::external_body]
fn make_driver_config(
    host: &str,
    port: u16,
    database: &str,
    username: String,
    password: String,
    trust: bool,
) -> (res: Config)
    ensures
        res == driver_config(host@, port, database@, username@, password@, trust),
{
    Config::new().host(host).port(port).database(database).credentials(
        Credentials::sql_server(username, password),
    ).trust_server_certificate(trust)
}

/// Concrete SQL Server repository: the connection settings, read once at
/// construction; a fresh client is opened per operation from them.
#[derive(Debug)]
pub struct SqlServerRepositoryImpl {
    /// SQL Server hostname or IP address.
    server: String,
    /// SQL Server port number.
    port: u16,
    /// Target database name.
    database: String,
    /// Login username for SQL Server authentication.
    username: String,
    /// Login password for SQL Server authentication.
    password: String,
    /// Whether to skip TLS certificate validation.
    trust_cert: bool,
}

impl View for SqlServerRepositoryImpl {
    type V = ConnectionSettings;

    closed spec fn view(&self) -> ConnectionSettings {
        ConnectionSettings {
            server: self.server@,
            port: self.port,
            database: self.database@,
            username: self.username@,
            password: self.password@,
            trust_cert: self.trust_cert,
        }
    }
}

impl SqlServerRepositoryImpl {
    /// Creates the repository from the environment variable values in `src`.
    ///
    /// Fails with the first of `MSSQL_SERVER`, `MSSQL_PORT`, `MSSQL_DATABASE`,
    /// `MSSQL_USERNAME`, `MSSQL_PASSWORD` that is absent, or with
    /// `InvalidPort` when `MSSQL_PORT` is not a valid number; certificate
    /// trust defaults to `true`.
    pub fn new(src: &ConfigSource) -> (res: Result<SqlServerRepositoryImpl, ConfigError>)
        ensures
            match res {
                Ok(r) => spec_connection(*src) == Ok::<ConnectionSettings, ConfigError>(r@),
                Err(e) => spec_connection(*src) == Err::<ConnectionSettings, ConfigError>(e),
            },
    {
        let (server, port, database, username, password, trust_cert) = read_connection(src)?;
        Ok(SqlServerRepositoryImpl { server, port, database, username, password, trust_cert })
    }

    /// Builds a `mssql_client::Config` from the stored connection settings:
    /// host, port, database, SQL Server login and certificate trust.
    pub fn build_config(&self) -> (res: Config)
        ensures
            res == driver_config(
                self@.server,
                self@.port,
                self@.database,
                self@.username,
                self@.password,
                self@.trust_cert,
            ),
    {
        make_driver_config(
            self.server.as_str(),
            self.port,
            self.database.as_str(),
            self.username.clone(),
            self.password.clone(),
            self.trust_cert,
        )
    }

    /// SQL Server hostname or IP address.
    pub fn server(&self) -> (res: &String)
        ensures
            res@ == self@.server,
    {
        &self.server
    }

    /// SQL Server port number.
    pub fn port(&self) -> (res: &u16)
        ensures
            *res == self@.port,
    {
        &self.port
    }

    /// Target database name.
    pub fn database(&self) -> (res: &String)
        ensures
            res@ == self@.database,
    {
        &self.database
    }

    /// Login username.
    pub fn username(&self) -> (res: &String)
        ensures
            res@ == self@.username,
    {
        &self.username
    }

    /// Login password.
    pub fn password(&self) -> (res: &String)
        ensures
            res@ == self@.password,
    {
        &self.password
    }

    /// Whether TLS certificate validation is skipped.
    pub fn trust_cert(&self) -> (res: &bool)
        ensures
            *res == self@.trust_cert,
    {
        &self.trust_cert
    }
}

} // verus!
