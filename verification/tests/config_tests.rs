use dictionay_link_batch::config::{AppConfig, ConfigError, ConfigSource, EnvVar};
use dictionay_link_batch::repository::SqlServerRepositoryImpl;

fn full_source() -> ConfigSource {
    ConfigSource {
        mssql_server: Some("db.example".to_string()),
        mssql_port: Some("1433".to_string()),
        mssql_database: Some("dict".to_string()),
        mssql_username: Some("sa".to_string()),
        mssql_password: Some("SECRET-REDACTED".to_string()),
        mssql_trust_server_certificate: Some("false".to_string()),
        cli_infos_toml: Some("cli_infos.toml".to_string()),
    }
}

#[test]
fn env_var_names() {
    assert_eq!(EnvVar::MssqlServer.name(), "MSSQL_SERVER");
    assert_eq!(EnvVar::MssqlPort.name(), "MSSQL_PORT");
    assert_eq!(EnvVar::MssqlDatabase.name(), "MSSQL_DATABASE");
    assert_eq!(EnvVar::MssqlUsername.name(), "MSSQL_USERNAME");
    assert_eq!(EnvVar::MssqlPassword.name(), "MSSQL_PASSWORD");
    assert_eq!(EnvVar::MssqlTrustServerCertificate.name(), "MSSQL_TRUST_SERVER_CERTIFICATE");
    assert_eq!(EnvVar::CliInfosToml.name(), "CLI_INFOS_TOML");
}

#[test]
fn load_reads_every_value() {
    let cfg = AppConfig::load(&full_source()).unwrap();
    assert_eq!(cfg.mssql_server, "db.example");
    assert_eq!(cfg.mssql_port, 1433);
    assert_eq!(cfg.mssql_database, "dict");
    assert_eq!(cfg.mssql_username, "sa");
    assert_eq!(cfg.mssql_password, "SECRET-REDACTED");
    assert!(!cfg.mssql_trust_server_certificate);
    assert_eq!(cfg.cli_infos_toml, "cli_infos.toml");
}

#[test]
fn load_reports_first_missing_variable() {
    let mut src = full_source();
    src.mssql_server = None;
    src.mssql_password = None;
    assert_eq!(AppConfig::load(&src).unwrap_err(), ConfigError::NotSet(EnvVar::MssqlServer));

    let mut src = full_source();
    src.mssql_port = None;
    assert_eq!(AppConfig::load(&src).unwrap_err(), ConfigError::NotSet(EnvVar::MssqlPort));

    let mut src = full_source();
    src.mssql_database = None;
    assert_eq!(AppConfig::load(&src).unwrap_err(), ConfigError::NotSet(EnvVar::MssqlDatabase));

    let mut src = full_source();
    src.mssql_username = None;
    assert_eq!(AppConfig::load(&src).unwrap_err(), ConfigError::NotSet(EnvVar::MssqlUsername));

    let mut src = full_source();
    src.mssql_password = None;
    assert_eq!(AppConfig::load(&src).unwrap_err(), ConfigError::NotSet(EnvVar::MssqlPassword));

    let mut src = full_source();
    src.cli_infos_toml = None;
    assert_eq!(AppConfig::load(&src).unwrap_err(), ConfigError::NotSet(EnvVar::CliInfosToml));
}

#[test]
fn load_rejects_bad_port_before_later_variables() {
    for bad in ["", "abc", "65536", "-1", " 1433", "14.33"] {
        let mut src = full_source();
        src.mssql_port = Some(bad.to_string());
        src.mssql_database = None;
        assert_eq!(AppConfig::load(&src).unwrap_err(), ConfigError::InvalidPort, "port {:?}", bad);
    }
    let mut src = full_source();
    src.mssql_port = Some("+65535".to_string());
    assert_eq!(AppConfig::load(&src).unwrap().mssql_port, 65535);
}

#[test]
fn trust_certificate_defaults_to_true() {
    let mut src = full_source();
    src.mssql_trust_server_certificate = None;
    assert!(AppConfig::load(&src).unwrap().mssql_trust_server_certificate);
}

#[test]
fn trust_certificate_is_true_only_for_true_in_any_case() {
    for (value, expected) in [("true", true), ("TRUE", true), ("TrUe", true), ("false", false), ("yes", false), ("1", false), ("", false), (" true", false)] {
        let mut src = full_source();
        src.mssql_trust_server_certificate = Some(value.to_string());
        assert_eq!(AppConfig::load(&src).unwrap().mssql_trust_server_certificate, expected, "value {:?}", value);
    }
}

#[test]
fn repository_reads_the_same_connection_settings() {
    let src = full_source();
    let cfg = AppConfig::load(&src).unwrap();
    let repo = SqlServerRepositoryImpl::new(&src).unwrap();
    assert_eq!(repo.server(), &cfg.mssql_server);
    assert_eq!(*repo.port(), cfg.mssql_port);
    assert_eq!(repo.database(), &cfg.mssql_database);
    assert_eq!(repo.username(), &cfg.mssql_username);
    assert_eq!(repo.password(), &cfg.mssql_password);
    assert_eq!(*repo.trust_cert(), cfg.mssql_trust_server_certificate);
}

#[test]
fn repository_does_not_need_the_job_list_path() {
    let mut src = full_source();
    src.cli_infos_toml = None;
    assert!(SqlServerRepositoryImpl::new(&src).is_ok());
    assert!(AppConfig::load(&src).is_err());
}

#[test]
fn repository_errors_match_configuration_errors() {
    let mut src = full_source();
    src.mssql_username = None;
    assert_eq!(SqlServerRepositoryImpl::new(&src).unwrap_err(), ConfigError::NotSet(EnvVar::MssqlUsername));
    let mut src = full_source();
    src.mssql_port = Some("port".to_string());
    assert_eq!(SqlServerRepositoryImpl::new(&src).unwrap_err(), ConfigError::InvalidPort);
}

#[test]
fn build_config_carries_the_settings() {
    let mut src = full_source();
    src.mssql_trust_server_certificate = Some("TRUE".to_string());
    let repo = SqlServerRepositoryImpl::new(&src).unwrap();
    let config = repo.build_config();
    assert_eq!(config.host, "db.example");
    assert_eq!(config.port, 1433);
    assert_eq!(config.database.as_deref(), Some("dict"));
    assert!(config.trust_server_certificate);
    match &config.credentials {
        mssql_client::Credentials::SqlServer { username, password } => {
            assert_eq!(username.as_ref(), "sa");
            assert_eq!(password.as_ref(), "SECRET-REDACTED");
        }
        #[allow(unreachable_patterns)]
        _ => panic!("expected SQL Server credentials"),
    }
}

#[test]
fn load_error_messages() {
    assert_eq!(ConfigError::NotSet(EnvVar::MssqlServer).load_message(), "MSSQL_SERVER not set");
    assert_eq!(ConfigError::NotSet(EnvVar::CliInfosToml).load_message(), "CLI_INFOS_TOML not set");
    assert_eq!(ConfigError::InvalidPort.load_message(), "MSSQL_PORT must be a valid u16");

    let mut src = full_source();
    src.mssql_port = Some("65536".to_string());
    assert_eq!(AppConfig::load(&src).unwrap_err().load_message(), "MSSQL_PORT must be a valid u16");

    let mut src = full_source();
    src.mssql_server = None;
    src.cli_infos_toml = None;
    assert_eq!(AppConfig::load(&src).unwrap_err().load_message(), "MSSQL_SERVER not set");
}

#[test]
fn connection_error_messages() {
    assert_eq!(ConfigError::NotSet(EnvVar::MssqlPassword).connection_message(), "MSSQL_PASSWORD not set");
    let mut src = full_source();
    src.mssql_port = Some("abc".to_string());
    assert_eq!(SqlServerRepositoryImpl::new(&src).unwrap_err().connection_message(), "MSSQL_PORT must be a valid number");
    let mut src = full_source();
    src.mssql_port = None;
    assert_eq!(SqlServerRepositoryImpl::new(&src).unwrap_err().connection_message(), "MSSQL_PORT not set");
}

#[test]
fn build_config_is_the_builder_chain_and_repeatable() {
    let repo = SqlServerRepositoryImpl::new(&full_source()).unwrap();
    let expected = mssql_client::Config::new()
        .host("db.example")
        .port(1433)
        .database("dict")
        .credentials(mssql_client::Credentials::sql_server("sa", "SECRET-REDACTED"))
        .trust_server_certificate(false);
    let first = repo.build_config();
    let second = repo.build_config();
    assert_eq!(format!("{:?}", first), format!("{:?}", expected));
    assert_eq!(format!("{:?}", first), format!("{:?}", second));
    assert_eq!(repo.server(), "db.example");
    assert_eq!(*repo.port(), 1433);
}
