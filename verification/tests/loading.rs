use app_config::error::ConfigError;
use app_config::settings::{AppConfig, Database};
use app_config::sources::Sources;

const DEFAULT: &str = r#"
host = "0.0.0.0"
port = 8080
auth_token = "SECRET-REDACTED"

[database]
url = "postgres://localhost/app"
max_connections = 10
"#;

fn only_default(text: &str) -> Sources {
    Sources { default: Some(text.to_string()), environment: None, local: None, variables: vec![] }
}

fn variable(name: &str, value: &str) -> (String, String) {
    (name.to_string(), value.to_string())
}

#[test]
fn default_alone_gives_its_values() {
    let config = AppConfig::new(&only_default(DEFAULT)).unwrap();
    assert_eq!(
        config,
        AppConfig {
            host: "0.0.0.0".to_string(),
            port: 8080,
            auth_token: "SECRET-REDACTED".to_string(),
            database: Database { url: "postgres://localhost/app".to_string(), max_connections: 10 },
        }
    );
}

#[test]
fn production_file_overrides_the_port_only() {
    let mut sources = only_default(DEFAULT);
    sources.environment = Some("port = 443\n".to_string());
    let config = AppConfig::new(&sources).unwrap();
    assert_eq!(config.port, 443);
    assert_eq!(config.host, "0.0.0.0");
    assert_eq!(config.auth_token, "SECRET-REDACTED");
    assert_eq!(config.database.max_connections, 10);
}

#[test]
fn missing_database_url_is_named() {
    let text = r#"
host = "0.0.0.0"
port = 8080
auth_token = "t"

[database]
max_connections = 10
"#;
    let outcome = AppConfig::new(&only_default(text));
    assert_eq!(outcome, Err(ConfigError::MissingField { key: "database.url".to_string() }));
}

#[test]
fn missing_database_table_names_the_first_key_of_it() {
    let text = "host = \"h\"\nport = 1\nauth_token = \"t\"\n";
    let outcome = AppConfig::new(&only_default(text));
    assert_eq!(outcome, Err(ConfigError::MissingField { key: "database.url".to_string() }));
}

#[test]
fn absent_default_fails_whatever_else_is_there() {
    let sources = Sources {
        default: None,
        environment: Some(DEFAULT.to_string()),
        local: Some(DEFAULT.to_string()),
        variables: vec![variable("APP_HOST", "h")],
    };
    assert_eq!(AppConfig::new(&sources), Err(ConfigError::MissingSource));
}

#[test]
fn loading_twice_gives_equal_values() {
    let mut sources = only_default(DEFAULT);
    sources.local = Some("host = \"127.0.0.1\"".to_string());
    sources.variables = vec![variable("APP_PORT", "9000"), variable("PATH", "/bin")];
    let first = AppConfig::new(&sources);
    let second = AppConfig::new(&sources);
    assert!(first.is_ok());
    assert_eq!(first, second);
}

#[test]
fn failing_twice_gives_equal_errors() {
    let sources = only_default("host = ");
    let first = AppConfig::new(&sources);
    let second = AppConfig::new(&sources);
    assert!(first.is_err());
    assert_eq!(first, second);
}

#[test]
fn environment_file_overrides_default() {
    let mut sources = only_default(DEFAULT);
    sources.environment = Some("host = \"env.example\"\n[database]\nurl = \"env-db\"\n".to_string());
    let config = AppConfig::new(&sources).unwrap();
    assert_eq!(config.host, "env.example");
    assert_eq!(config.database.url, "env-db");
    assert_eq!(config.database.max_connections, 10);
    assert_eq!(config.port, 8080);
}

#[test]
fn local_file_overrides_environment_file() {
    let mut sources = only_default(DEFAULT);
    sources.environment = Some("host = \"env.example\"\nport = 1\n".to_string());
    sources.local = Some("host = \"local.example\"\n".to_string());
    let config = AppConfig::new(&sources).unwrap();
    assert_eq!(config.host, "local.example");
    assert_eq!(config.port, 1);
}

#[test]
fn variables_override_every_file() {
    let mut sources = only_default(DEFAULT);
    sources.environment = Some("host = \"env.example\"\n".to_string());
    sources.local = Some("host = \"local.example\"\nport = 2\n".to_string());
    sources.variables = vec![variable("APP_HOST", "var.example")];
    let config = AppConfig::new(&sources).unwrap();
    assert_eq!(config.host, "var.example");
    assert_eq!(config.port, 2);
}

#[test]
fn key_of_a_later_layer_alone_appears() {
    let default = "host = \"h\"\n";
    let environment = "port = 7\n";
    let local = "auth_token = \"t\"\n[database]\nurl = \"u\"\n";
    let sources = Sources {
        default: Some(default.to_string()),
        environment: Some(environment.to_string()),
        local: Some(local.to_string()),
        variables: vec![variable("APP_DATABASE.MAX_CONNECTIONS", "3")],
    };
    let config = AppConfig::new(&sources).unwrap();
    assert_eq!(
        config,
        AppConfig {
            host: "h".to_string(),
            port: 7,
            auth_token: "t".to_string(),
            database: Database { url: "u".to_string(), max_connections: 3 },
        }
    );
}

#[test]
fn absent_optional_layers_are_skipped() {
    let mut sources = only_default(DEFAULT);
    sources.local = Some("port = 81\n".to_string());
    let config = AppConfig::new(&sources).unwrap();
    assert_eq!(config.port, 81);
    assert_eq!(config.host, "0.0.0.0");
}

#[test]
fn empty_optional_layer_changes_nothing() {
    let mut sources = only_default(DEFAULT);
    sources.environment = Some(String::new());
    assert_eq!(AppConfig::new(&sources), AppConfig::new(&only_default(DEFAULT)));
}

#[test]
fn variables_match_the_prefix_without_regard_to_case() {
    let mut sources = only_default(DEFAULT);
    sources.variables = vec![
        variable("app_host", "lower.example"),
        variable("App_Port", "15"),
        variable("APPLICATION_AUTH_TOKEN", "no"),
        variable("HOST", "no"),
        variable("APP", "no"),
    ];
    let config = AppConfig::new(&sources).unwrap();
    assert_eq!(config.host, "lower.example");
    assert_eq!(config.port, 15);
    assert_eq!(config.auth_token, "SECRET-REDACTED");
}

#[test]
fn variable_names_a_nested_key_with_a_dot() {
    let mut sources = only_default(DEFAULT);
    sources.variables = vec![
        variable("APP_DATABASE.URL", "from-variable"),
        variable("APP_DATABASE_URL", "not-a-path"),
    ];
    let config = AppConfig::new(&sources).unwrap();
    assert_eq!(config.database.url, "from-variable");
}

#[test]
fn malformed_default_fails() {
    let outcome = AppConfig::new(&only_default("host = \"unterminated"));
    match outcome {
        Err(ConfigError::Malformed { message }) => assert!(!message.is_empty()),
        other => panic!("unexpected outcome: {:?}", other),
    }
}

#[test]
fn malformed_optional_layer_fails() {
    let mut sources = only_default(DEFAULT);
    sources.local = Some("[database\nurl = 1".to_string());
    assert!(matches!(AppConfig::new(&sources), Err(ConfigError::Malformed { .. })));
}

#[test]
fn port_that_is_no_number_is_invalid() {
    let mut sources = only_default(DEFAULT);
    sources.environment = Some("port = \"eighty\"\n".to_string());
    match AppConfig::new(&sources) {
        Err(ConfigError::InvalidField { key, message }) => {
            assert_eq!(key, "port");
            assert!(message.contains("eighty"));
        },
        other => panic!("unexpected outcome: {:?}", other),
    }
}

#[test]
fn port_beyond_32_bits_is_invalid() {
    let mut sources = only_default(DEFAULT);
    sources.environment = Some("port = 2147483648\n".to_string());
    assert!(matches!(
        AppConfig::new(&sources),
        Err(ConfigError::InvalidField { key, .. }) if key == "port"
    ));
    sources.environment = Some("port = 2147483647\n".to_string());
    assert_eq!(AppConfig::new(&sources).unwrap().port, i32::MAX);
    sources.environment = Some("port = -2147483648\n".to_string());
    assert_eq!(AppConfig::new(&sources).unwrap().port, i32::MIN);
}

#[test]
fn negative_pool_size_is_invalid() {
    let mut sources = only_default(DEFAULT);
    sources.local = Some("[database]\nmax_connections = -1\n".to_string());
    assert!(matches!(
        AppConfig::new(&sources),
        Err(ConfigError::InvalidField { key, .. }) if key == "database.max_connections"
    ));
    sources.local = Some("[database]\nmax_connections = 4294967295\n".to_string());
    assert_eq!(AppConfig::new(&sources).unwrap().database.max_connections, u32::MAX);
}

#[test]
fn table_in_place_of_text_is_invalid() {
    let mut sources = only_default(DEFAULT);
    sources.local = Some("[host]\nname = \"h\"\n".to_string());
    assert!(matches!(
        AppConfig::new(&sources),
        Err(ConfigError::InvalidField { key, .. }) if key == "host"
    ));
}

#[test]
fn number_from_a_variable_is_read_from_its_text() {
    let mut sources = only_default(DEFAULT);
    sources.variables = vec![variable("APP_PORT", "443")];
    assert_eq!(AppConfig::new(&sources).unwrap().port, 443);
}

#[test]
fn number_in_place_of_text_reads_as_its_digits() {
    let mut sources = only_default(DEFAULT);
    sources.local = Some("auth_token = 12345\n".to_string());
    assert_eq!(AppConfig::new(&sources).unwrap().auth_token, "12345");
}

#[test]
fn first_failing_field_is_named() {
    let text = "port = \"x\"\nauth_token = \"t\"\n";
    assert_eq!(
        AppConfig::new(&only_default(text)),
        Err(ConfigError::MissingField { key: "host".to_string() })
    );
    let text = "host = \"h\"\nport = \"x\"\n";
    assert!(matches!(
        AppConfig::new(&only_default(text)),
        Err(ConfigError::InvalidField { key, .. }) if key == "port"
    ));
}

#[test]
fn unknown_keys_are_ignored() {
    let mut sources = only_default(DEFAULT);
    sources.local = Some("debug = true\n[cache]\nsize = 3\n".to_string());
    assert_eq!(AppConfig::new(&sources), AppConfig::new(&only_default(DEFAULT)));
}

#[test]
fn later_key_of_one_document_wins() {
    let first_then_table = "host = \"h\"\nport = 1\nauth_token = \"t\"\n\"database.url\" = \"path\"\ndatabase = { url = \"table\", max_connections = 1 }\n";
    let table_then_path = "host = \"h\"\nport = 1\nauth_token = \"t\"\ndatabase = { url = \"table\", max_connections = 1 }\n\"database.url\" = \"path\"\n";
    for _ in 0..20 {
        assert_eq!(AppConfig::new(&only_default(first_then_table)).unwrap().database.url, "table");
        assert_eq!(AppConfig::new(&only_default(table_then_path)).unwrap().database.url, "path");
    }
}

#[test]
fn later_variable_wins_among_names_that_differ_in_case() {
    let mut sources = only_default(DEFAULT);
    for _ in 0..20 {
        sources.variables = vec![variable("APP_HOST", "upper"), variable("app_host", "lower")];
        assert_eq!(AppConfig::new(&sources).unwrap().host, "lower");
        sources.variables = vec![variable("app_host", "lower"), variable("APP_HOST", "upper")];
        assert_eq!(AppConfig::new(&sources).unwrap().host, "upper");
    }
}

#[test]
fn later_pair_wins_among_equal_names() {
    let mut sources = only_default(DEFAULT);
    sources.variables = vec![variable("APP_PORT", "1"), variable("APP_PORT", "2")];
    assert_eq!(AppConfig::new(&sources).unwrap().port, 2);
}
