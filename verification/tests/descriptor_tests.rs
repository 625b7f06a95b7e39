use zero2prod::configuration::DatabaseConfig;
use zero2prod::descriptor::TlsMode;
use zero2prod::secret::SecretValue;

fn sample_config(require_ssl: bool) -> DatabaseConfig {
    DatabaseConfig {
        username: "postgres".to_string(),
        password: SecretValue::new("password".to_string()),
        port: 5432,
        host: "localhost".to_string(),
        database_name: "newsletter".to_string(),
        require_ssl,
    }
}

#[test]
fn descriptors_agree_on_everything_but_the_database_name() {
    let config = sample_config(false);
    let server = config.without_db();
    let database = config.with_db();
    assert_eq!(server.host, database.host);
    assert_eq!(server.port, database.port);
    assert_eq!(server.username, database.username);
    assert_eq!(server.password.expose_secret(), database.password.expose_secret());
    assert_eq!(server.tls_mode, database.tls_mode);
    assert_eq!(server.database_name, None);
    assert_eq!(database.database_name, Some("newsletter".to_string()));
}

#[test]
fn without_db_carries_the_configured_fields() {
    let config = sample_config(false);
    let server = config.without_db();
    assert_eq!(server.host, "localhost");
    assert_eq!(server.port, 5432);
    assert_eq!(server.username, "postgres");
    assert_eq!(server.password.expose_secret(), "password");
}

#[test]
fn tls_is_opportunistic_unless_required() {
    assert_eq!(sample_config(false).without_db().tls_mode, TlsMode::Prefer);
    assert_eq!(sample_config(false).with_db().tls_mode, TlsMode::Prefer);
    assert_eq!(sample_config(true).without_db().tls_mode, TlsMode::Require);
    assert_eq!(sample_config(true).with_db().tls_mode, TlsMode::Require);
}
