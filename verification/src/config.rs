//! Application configuration read from environment variables.
//!
//! The variables are read by the caller and handed over as a
//! [`ConfigSource`]; this module decides what they mean: which are required,
//! how the port is parsed, and what the certificate flag defaults to.
use vstd::prelude::*;

use vstd::string::StringExecFns;

use crate::text::{is_true_word, is_true_word_str, parse_u16, spec_parse_u16};

verus! {

/// The environment variables the application reads.
#[derive(Clone, Copy, Debug, PartialEq, Eq, Structural)]
pub enum EnvVar {
    MssqlServer,
    MssqlPort,
    MssqlDatabase,
    MssqlUsername,
    MssqlPassword,
    MssqlTrustServerCertificate,
    CliInfosToml,
}

impl EnvVar {
    /// The variable's name in the environment.
    pub open spec fn spec_name(self) -> Seq<char> {
        match self {
            EnvVar::MssqlServer => "MSSQL_SERVER"@,
            EnvVar::MssqlPort => "MSSQL_PORT"@,
            EnvVar::MssqlDatabase => "MSSQL_DATABASE"@,
            EnvVar::MssqlUsername => "MSSQL_USERNAME"@,
            EnvVar::MssqlPassword => "MSSQL_PASSWORD"@,
            EnvVar::MssqlTrustServerCertificate => "MSSQL_TRUST_SERVER_CERTIFICATE"@,
            EnvVar::CliInfosToml => "CLI_INFOS_TOML"@,
        }
    }

    /// The variable's name in the environment.
    pub fn name(&self) -> (res: &'static str)
        ensures
            res@ == self.spec_name(),
    {
        match self {
            EnvVar::MssqlServer => "MSSQL_SERVER",
            EnvVar::MssqlPort => "MSSQL_PORT",
            EnvVar::MssqlDatabase => "MSSQL_DATABASE",
            EnvVar::MssqlUsername => "MSSQL_USERNAME",
            EnvVar::MssqlPassword => "MSSQL_PASSWORD",
            EnvVar::MssqlTrustServerCertificate => "MSSQL_TRUST_SERVER_CERTIFICATE",
            EnvVar::CliInfosToml => "CLI_INFOS_TOML",
        }
    }

    /// Whether configuration fails when the variable is absent.
    pub open spec fn is_required(self) -> bool {
        self != EnvVar::MssqlTrustServerCertificate
    }
}

/// Why the configuration could not be built.
#[derive(Clone, Copy, Debug, PartialEq, Eq, Structural)]
pub enum ConfigError {
    /// A required variable is absent (or not valid Unicode).
    NotSet(EnvVar),
    /// `MSSQL_PORT` is not a number from 0 to 65535.
    InvalidPort,
}

impl ConfigError {
    /// The message `AppConfig::load` reports for this error.
    pub open spec fn spec_load_message(self) -> Seq<char> {
        match self {
            ConfigError::NotSet(var) => var.spec_name() + " not set"@,
            ConfigError::InvalidPort => "MSSQL_PORT must be a valid u16"@,
        }
    }

    /// The message `SqlServerRepositoryImpl::new` reports for this error.
    pub open spec fn spec_connection_message(self) -> Seq<char> {
        match self {
            ConfigError::NotSet(var) => var.spec_name() + " not set"@,
            ConfigError::InvalidPort => "MSSQL_PORT must be a valid number"@,
        }
    }

    /// The message `AppConfig::load` reports for this error, such as
    /// `"MSSQL_SERVER not set"` or `"MSSQL_PORT must be a valid u16"`.
    pub fn load_message(&self) -> (res: String)
        ensures
            res@ == self.spec_load_message(),
    {
        match self {
            ConfigError::NotSet(var) => not_set_message(*var),
            ConfigError::InvalidPort => String::from_str("MSSQL_PORT must be a valid u16"),
        }
    }

    /// The message `SqlServerRepositoryImpl::new` reports for this error,
    /// such as `"MSSQL_SERVER not set"` or `"MSSQL_PORT must be a valid number"`.
    pub fn connection_message(&self) -> (res: String)
        ensures
            res@ == self.spec_connection_message(),
    {
        match self {
            ConfigError::NotSet(var) => not_set_message(*var),
            ConfigError::InvalidPort => String::from_str("MSSQL_PORT must be a valid number"),
        }
    }
}

/// `"{name} not set"` for the variable `var`.
fn not_set_message(var: EnvVar) -> (res: String)
    ensures
        res@ == var.spec_name() + " not set"@,
{
    let mut msg = String::from_str(var.name());
    msg.append(" not set");
    msg
}

/// The values of the environment variables, `None` where a variable is
/// absent or not valid Unicode (what `std::env::var(..).ok()` gives).
#[derive(Clone, Debug)]
pub struct ConfigSource {
    pub mssql_server: Option<String>,
    pub mssql_port: Option<String>,
    pub mssql_database: Option<String>,
    pub mssql_username: Option<String>,
    pub mssql_password: Option<String>,
    pub mssql_trust_server_certificate: Option<String>,
    pub cli_infos_toml: Option<String>,
}

/// The text of an optional string.
pub open spec fn opt_text(o: Option<String>) -> Option<Seq<char>> {
    match o {
        Some(s) => Some(s@),
        None => None,
    }
}

impl ConfigSource {
    /// The value given for `var`.
    pub open spec fn value(self, var: EnvVar) -> Option<Seq<char>> {
        match var {
            EnvVar::MssqlServer => opt_text(self.mssql_server),
            EnvVar::MssqlPort => opt_text(self.mssql_port),
            EnvVar::MssqlDatabase => opt_text(self.mssql_database),
            EnvVar::MssqlUsername => opt_text(self.mssql_username),
            EnvVar::MssqlPassword => opt_text(self.mssql_password),
            EnvVar::MssqlTrustServerCertificate => opt_text(self.mssql_trust_server_certificate),
            EnvVar::CliInfosToml => opt_text(self.cli_infos_toml),
        }
    }
}

/// SQL Server connection settings, as values.
pub struct ConnectionSettings {
    pub server: Seq<char>,
    pub port: u16,
    pub database: Seq<char>,
    pub username: Seq<char>,
    pub password: Seq<char>,
    pub trust_cert: bool,
}

/// The whole application configuration, as values.
pub struct AppConfigModel {
    pub connection: ConnectionSettings,
    pub cli_infos_toml: Seq<char>,
}

/// Whether the server certificate is trusted: `true` when the variable is
/// absent, else whether its value is `"true"` ignoring case.
pub open spec fn trust_setting(value: Option<Seq<char>>) -> bool {
    match value {
        None => true,
        Some(s) => is_true_word(s),
    }
}

/// The connection settings that `src` gives, or the first error met when
/// reading server, port, database, username and password in that order.
pub open spec fn spec_connection(src: ConfigSource) -> Result<ConnectionSettings, ConfigError> {
    match src.value(EnvVar::MssqlServer) {
        None => Err(ConfigError::NotSet(EnvVar::MssqlServer)),
        Some(server) => match src.value(EnvVar::MssqlPort) {
            None => Err(ConfigError::NotSet(EnvVar::MssqlPort)),
            Some(port_text) => match spec_parse_u16(port_text) {
                None => Err(ConfigError::InvalidPort),
                Some(port) => match src.value(EnvVar::MssqlDatabase) {
                    None => Err(ConfigError::NotSet(EnvVar::MssqlDatabase)),
                    Some(database) => match src.value(EnvVar::MssqlUsername) {
                        None => Err(ConfigError::NotSet(EnvVar::MssqlUsername)),
                        Some(username) => match src.value(EnvVar::MssqlPassword) {
                            None => Err(ConfigError::NotSet(EnvVar::MssqlPassword)),
                            Some(password) => Ok(
                                ConnectionSettings {
                                    server,
                                    port,
                                    database,
                                    username,
                                    password,
                                    trust_cert: trust_setting(
                                        src.value(EnvVar::MssqlTrustServerCertificate),
                                    ),
                                },
                            ),
                        },
                    },
                },
            },
        },
    }
}

/// The application configuration that `src` gives: the connection settings,
/// then the path of the job list.
pub open spec fn spec_app_config(src: ConfigSource) -> Result<AppConfigModel, ConfigError> {
    match spec_connection(src) {
        Err(e) => Err(e),
        Ok(connection) => match src.value(EnvVar::CliInfosToml) {
            None => Err(ConfigError::NotSet(EnvVar::CliInfosToml)),
            Some(path) => Ok(AppConfigModel { connection, cli_infos_toml: path }),
        },
    }
}

/// The application configuration and the repository's connection settings
/// read the same variables the same way: where the configuration loads, the
/// repository gets exactly its connection settings; where the connection
/// settings fail, the configuration fails with the same error; and where they
/// succeed, the configuration fails only for a missing job list path.
pub proof fn lemma_config_agrees_with_connection(src: ConfigSource)
    ensures
        spec_app_config(src) matches Ok(c) ==> spec_connection(src) == Ok::<
            ConnectionSettings,
            ConfigError,
        >(c.connection),
        spec_connection(src) matches Err(e) ==> spec_app_config(src) == Err::<
            AppConfigModel,
            ConfigError,
        >(e),
        spec_connection(src) is Ok ==> (spec_app_config(src) is Ok <==> src.value(
            EnvVar::CliInfosToml,
        ) is Some),
{
}

/// Loading succeeds exactly when every required variable is given and
/// `MSSQL_PORT` parses as a `u16`; a missing required variable always fails.
pub proof fn lemma_config_ok_iff(src: ConfigSource)
    ensures
        spec_app_config(src) is Ok <==> ((forall|v: EnvVar| #[trigger] v.is_required() ==> src.value(
            v,
        ) is Some) && spec_parse_u16(src.value(EnvVar::MssqlPort)->0) is Some),
{
    if spec_app_config(src) is Ok {
        assert forall|v: EnvVar| #[trigger] v.is_required() implies src.value(v) is Some by {
            match v {
                EnvVar::MssqlServer => {},
                EnvVar::MssqlPort => {},
                EnvVar::MssqlDatabase => {},
                EnvVar::MssqlUsername => {},
                EnvVar::MssqlPassword => {},
                EnvVar::MssqlTrustServerCertificate => {},
                EnvVar::CliInfosToml => {},
            }
        }
    }
    if (forall|v: EnvVar| #[trigger] v.is_required() ==> src.value(v) is Some) {
        assert(EnvVar::MssqlServer.is_required());
        assert(EnvVar::MssqlPort.is_required());
        assert(EnvVar::MssqlDatabase.is_required());
        assert(EnvVar::MssqlUsername.is_required());
        assert(EnvVar::MssqlPassword.is_required());
        assert(EnvVar::CliInfosToml.is_required());
    }
}

/// When `MSSQL_TRUST_SERVER_CERTIFICATE` is absent the server certificate is
/// trusted; when present, it is trusted exactly when the value is `"true"`
/// in any case.
pub proof fn lemma_trust_default(src: ConfigSource)
    ensures
        spec_connection(src) matches Ok(c) ==> (c.trust_cert <==> match src.value(
            EnvVar::MssqlTrustServerCertificate,
        ) {
            None => true,
            Some(s) => is_true_word(s),
        }),
{
}

/// A loaded configuration holds each variable's value unchanged: the server,
/// database, username, password and job-list path are exactly the texts
/// given, and the port is the number that `MSSQL_PORT` reads as.
pub proof fn lemma_loaded_values_are_the_given_ones(src: ConfigSource)
    ensures
        spec_app_config(src) matches Ok(c) ==> {
            &&& src.value(EnvVar::CliInfosToml) == Some(c.cli_infos_toml)
            &&& src.value(EnvVar::MssqlServer) == Some(c.connection.server)
            &&& src.value(EnvVar::MssqlDatabase) == Some(c.connection.database)
            &&& src.value(EnvVar::MssqlUsername) == Some(c.connection.username)
            &&& src.value(EnvVar::MssqlPassword) == Some(c.connection.password)
            &&& src.value(EnvVar::MssqlPort) matches Some(p) && p.len() > 0
            &&& crate::text::parse_bounded(src.value(EnvVar::MssqlPort)->0, 65535) == Some(
                c.connection.port as nat,
            )
        },
        spec_connection(src) matches Ok(c) ==> {
            &&& src.value(EnvVar::MssqlServer) == Some(c.server)
            &&& src.value(EnvVar::MssqlDatabase) == Some(c.database)
            &&& src.value(EnvVar::MssqlUsername) == Some(c.username)
            &&& src.value(EnvVar::MssqlPassword) == Some(c.password)
            &&& crate::text::parse_bounded(src.value(EnvVar::MssqlPort)->0, 65535) == Some(
                c.port as nat,
            )
        },
{
}

/// Strongly typed container for all environment-based configuration.
#[derive(Debug)]
pub struct AppConfig {
    /// SQL Server hostname or IP address (`MSSQL_SERVER`).
    pub mssql_server: String,
    /// SQL Server port number (`MSSQL_PORT`).
    pub mssql_port: u16,
    /// Target database name (`MSSQL_DATABASE`).
    pub mssql_database: String,
    /// Login username (`MSSQL_USERNAME`).
    pub mssql_username: String,
    /// Login password (`MSSQL_PASSWORD`).
    pub mssql_password: String,
    /// Whether to skip TLS certificate validation (`MSSQL_TRUST_SERVER_CERTIFICATE`, default `true`).
    pub mssql_trust_server_certificate: bool,
    /// Path to the TOML file that lists the batch jobs (`CLI_INFOS_TOML`).
    pub cli_infos_toml: String,
}

impl View for AppConfig {
    type V = AppConfigModel;

    open spec fn view(&self) -> AppConfigModel {
        AppConfigModel {
            connection: ConnectionSettings {
                server: self.mssql_server@,
                port: self.mssql_port,
                database: self.mssql_database@,
                username: self.mssql_username@,
                password: self.mssql_password@,
                trust_cert: self.mssql_trust_server_certificate,
            },
            cli_infos_toml: self.cli_infos_toml@,
        }
    }
}

/// A copy of the value of a variable, or the error for its absence.
pub(crate) fn required(value: &Option<String>, var: EnvVar) -> (res: Result<String, ConfigError>)
    ensures
        match res {
            Ok(s) => opt_text(*value) == Some(s@),
            Err(e) => value is None && e == ConfigError::NotSet(var),
        },
{
    match value {
        Some(s) => Ok(s.clone()),
        None => Err(ConfigError::NotSet(var)),
    }
}

/// The certificate trust flag for the given variable value.
pub(crate) fn trust_from(value: &Option<String>) -> (res: bool)
    ensures
        res == trust_setting(opt_text(*value)),
{
    match value {
        Some(s) => is_true_word_str(s.as_str()),
        None => true,
    }
}

/// Reads the connection settings from `src`.
pub(crate) fn read_connection(src: &ConfigSource) -> (res: Result<
    (String, u16, String, String, String, bool),
    ConfigError,
>)
    ensures
        match res {
            Ok(t) => spec_connection(*src) == Ok::<ConnectionSettings, ConfigError>(
                ConnectionSettings {
                    server: t.0@,
                    port: t.1,
                    database: t.2@,
                    username: t.3@,
                    password: t.4@,
                    trust_cert: t.5,
                },
            ),
            Err(e) => spec_connection(*src) == Err::<ConnectionSettings, ConfigError>(e),
        },
{
    let server = required(&src.mssql_server, EnvVar::MssqlServer)?;
    let port_text = required(&src.mssql_port, EnvVar::MssqlPort)?;
    let port = match parse_u16(port_text.as_str()) {
        Some(p) => p,
        None => return Err(ConfigError::InvalidPort),
    };
    let database = required(&src.mssql_database, EnvVar::MssqlDatabase)?;
    let username = required(&src.mssql_username, EnvVar::MssqlUsername)?;
    let password = required(&src.mssql_password, EnvVar::MssqlPassword)?;
    let trust = trust_from(&src.mssql_trust_server_certificate);
    Ok((server, port, database, username, password, trust))
}

impl AppConfig {
    /// Builds the configuration from the variable values in `src`.
    ///
    /// Fails with the first required variable that is absent, or with
    /// `InvalidPort` when `MSSQL_PORT` cannot be parsed as a `u16`.
    pub fn load(src: &ConfigSource) -> (res: Result<AppConfig, ConfigError>)
        ensures
            match res {
                Ok(c) => spec_app_config(*src) == Ok::<AppConfigModel, ConfigError>(c@),
                Err(e) => spec_app_config(*src) == Err::<AppConfigModel, ConfigError>(e),
            },
    {
        let (server, port, database, username, password, trust) = read_connection(src)?;
        let cli_infos_toml = required(&src.cli_infos_toml, EnvVar::CliInfosToml)?;
        Ok(
            AppConfig {
                mssql_server: server,
                mssql_port: port,
                mssql_database: database,
                mssql_username: username,
                mssql_password: password,
                mssql_trust_server_certificate: trust,
                cli_infos_toml,
            },
        )
    }
}

} // verus!
