# dictionay_link_batch

The decision logic of the dictionary link batch tool, verified with Verus.

- `src/config.rs`: which environment variables are required, how `MSSQL_PORT`
  is parsed, and the certificate-trust default; `AppConfig::load`.
- `src/repository.rs`: SQL Server connection settings and the
  `mssql_client::Config` built from them.
- `src/cli.rs`: the job menu: enabled jobs, the menu text, and what a typed
  line selects.
- `src/text.rs`: trimming, unsigned decimal parsing and rendering, matching
  `str::trim`, `str::parse` and `format!`.
- `src/controller.rs`, `src/dtos.rs`: the controller and request data.
- `app/main.rs`: the program: environment, `.env`, the job list file, the
  terminal and the database connection.
