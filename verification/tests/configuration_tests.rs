use zero2prod::configuration::{load, Config, ConfigError, InvalidReason};
use zero2prod::descriptor::TlsMode;
use zero2prod::environment::Environment;
use zero2prod::fragment::{ConfigEntry, ConfigValue, Fragment};
use zero2prod::overrides::{override_key, overrides_from_env};
use zero2prod::text::parse_u16;

fn entry(key: &str, value: ConfigValue) -> ConfigEntry {
    ConfigEntry { key: key.to_string(), value }
}

fn text(s: &str) -> ConfigValue {
    ConfigValue::Text(s.to_string())
}

fn empty_fragment() -> Fragment {
    Fragment { entries: Vec::new() }
}

/// The base fragment of the end-to-end scenario, completed with the
/// credential keys every configuration requires.
fn base_fragment() -> Fragment {
    Fragment {
        entries: vec![
            entry("database.username", text("postgres")),
            entry("database.password", text("password")),
            entry("database.port", ConfigValue::Number(5432)),
            entry("database.host", text("localhost")),
            entry("database.database_name", text("newsletter")),
            entry("database.require_ssl", ConfigValue::Flag(false)),
            entry("application.port", ConfigValue::Number(8000)),
            entry("application.host", text("127.0.0.1")),
        ],
    }
}

fn load_with_overrides(vars: Vec<(String, String)>) -> Result<Config, ConfigError> {
    load(
        Some(base_fragment()),
        None,
        Some(empty_fragment()),
        None,
        overrides_from_env(&vars),
    )
}

fn var(name: &str, value: &str) -> (String, String) {
    (name.to_string(), value.to_string())
}

#[test]
fn end_to_end_local_defaults() {
    let config = match load_with_overrides(Vec::new()) {
        Ok(c) => c,
        Err(e) => panic!("load failed: {e:?}"),
    };
    assert_eq!(config.application.port, 8000);
    assert_eq!(config.application.host, "127.0.0.1");
    assert!(!config.database.require_ssl);
    assert_eq!(config.database.port, 5432);
    assert_eq!(config.database.host, "localhost");
    assert_eq!(config.database.username, "postgres");
    assert_eq!(config.database.database_name, "newsletter");
    assert_eq!(config.database.password.expose_secret(), "password");
    assert_eq!(config.database.without_db().tls_mode, TlsMode::Prefer);
}

#[test]
fn env_var_override_beats_base_value() {
    let config = load_with_overrides(vec![var("APP__DATABASE__PORT", "6000")]).unwrap();
    assert_eq!(config.database.port, 6000);
    // a sibling key of the same section is untouched
    assert_eq!(config.database.host, "localhost");
}

#[test]
fn environment_file_beats_base_and_override_beats_both() {
    let local = Fragment {
        entries: vec![entry("application.port", ConfigValue::Number(8100))],
    };
    let config = load(
        Some(base_fragment()),
        None,
        Some(local),
        None,
        overrides_from_env(&Vec::new()),
    )
    .unwrap();
    assert_eq!(config.application.port, 8100);

    let local = Fragment {
        entries: vec![entry("application.port", ConfigValue::Number(8100))],
    };
    let config = load(
        Some(base_fragment()),
        None,
        Some(local),
        None,
        overrides_from_env(&vec![var("APP__APPLICATION__PORT", "8200")]),
    )
    .unwrap();
    assert_eq!(config.application.port, 8200);
}

#[test]
fn later_entry_wins_within_one_fragment() {
    let mut base = base_fragment();
    base.entries.push(entry("application.port", ConfigValue::Number(9000)));
    let config = load(Some(base), None, Some(empty_fragment()), None, empty_fragment()).unwrap();
    assert_eq!(config.application.port, 9000);
}

#[test]
fn string_port_resolves_to_its_numeric_value() {
    let config = load_with_overrides(vec![var("APP__DATABASE__PORT", "5432")]).unwrap();
    assert_eq!(config.database.port, 5432u16);
}

#[test]
fn unsupported_environment_is_refused() {
    let r = load(
        Some(base_fragment()),
        Some("staging".to_string()),
        Some(empty_fragment()),
        None,
        empty_fragment(),
    );
    assert_eq!(
        r.err().map(|e| match e {
            ConfigError::UnsupportedEnvironment(message) => message,
            other => panic!("wrong error: {other:?}"),
        }),
        Some("staging is not supported env".to_string())
    );
}

#[test]
fn environment_names_parse_case_insensitively() {
    assert_eq!(Environment::try_from("local"), Ok(Environment::Local));
    assert_eq!(Environment::try_from("LOCAL"), Ok(Environment::Local));
    assert_eq!(Environment::try_from("pRoDuCtIoN"), Ok(Environment::Production));
    assert_eq!(
        Environment::try_from("staging"),
        Err("staging is not supported env".to_string())
    );
    assert_eq!(
        Environment::try_from("StAgInG"),
        Err("staging is not supported env".to_string())
    );
    assert_eq!(Environment::Local.as_str(), "local");
    assert_eq!(Environment::Production.as_str(), "production");
}

#[test]
fn production_environment_selects_production_fragment() {
    let production = Fragment {
        entries: vec![entry("database.require_ssl", ConfigValue::Flag(true))],
    };
    let config = load(
        Some(base_fragment()),
        Some("PRODUCTION".to_string()),
        None,
        Some(production),
        empty_fragment(),
    )
    .unwrap();
    assert!(config.database.require_ssl);
    assert_eq!(config.database.without_db().tls_mode, TlsMode::Require);
}

#[test]
fn missing_base_fragment_is_fatal() {
    let r = load(None, None, Some(empty_fragment()), None, empty_fragment());
    assert_eq!(r.err(), Some(ConfigError::MissingSource));
}

#[test]
fn missing_environment_fragment_is_fatal() {
    let r = load(Some(base_fragment()), None, None, Some(empty_fragment()), empty_fragment());
    assert_eq!(r.err(), Some(ConfigError::MissingSource));
}

#[test]
fn missing_key_is_reported_with_its_name() {
    let mut base = base_fragment();
    base.entries.retain(|e| e.key != "database.host");
    let r = load(Some(base), None, Some(empty_fragment()), None, empty_fragment());
    assert_eq!(
        r.err(),
        Some(ConfigError::Invalid("database.host".to_string(), InvalidReason::MissingKey))
    );
}

#[test]
fn wrong_type_is_reported() {
    let mut base = base_fragment();
    base.entries.push(entry("application.host", ConfigValue::Number(3)));
    let r = load(Some(base), None, Some(empty_fragment()), None, empty_fragment());
    assert_eq!(
        r.err(),
        Some(ConfigError::Invalid("application.host".to_string(), InvalidReason::WrongType))
    );

    let mut base = base_fragment();
    base.entries.push(entry("database.port", ConfigValue::Flag(true)));
    let r = load(Some(base), None, Some(empty_fragment()), None, empty_fragment());
    assert_eq!(
        r.err(),
        Some(ConfigError::Invalid("database.port".to_string(), InvalidReason::WrongType))
    );
}

#[test]
fn unparsable_or_oversized_ports_are_invalid() {
    for bad in ["abc", "", "12a", "70000"] {
        let r = load_with_overrides(vec![var("APP__DATABASE__PORT", bad)]);
        assert_eq!(
            r.err(),
            Some(ConfigError::Invalid("database.port".to_string(), InvalidReason::InvalidPort)),
            "port {bad:?} should be invalid"
        );
    }
    let mut base = base_fragment();
    base.entries.push(entry("database.port", ConfigValue::Number(70000)));
    let r = load(Some(base), None, Some(empty_fragment()), None, empty_fragment());
    assert_eq!(
        r.err(),
        Some(ConfigError::Invalid("database.port".to_string(), InvalidReason::InvalidPort))
    );
}

#[test]
fn parse_u16_accepts_exactly_the_sixteen_bit_decimals() {
    assert_eq!(parse_u16("0"), Some(0));
    assert_eq!(parse_u16("5432"), Some(5432));
    assert_eq!(parse_u16("65535"), Some(65535));
    assert_eq!(parse_u16("007"), Some(7));
    assert_eq!(parse_u16("65536"), None);
    assert_eq!(parse_u16("99999999999999999999"), None);
    assert_eq!(parse_u16(""), None);
    assert_eq!(parse_u16("12a"), None);
    assert_eq!(parse_u16("-1"), None);
    assert_eq!(parse_u16(" 1"), None);
}

#[test]
fn override_keys_are_prefixed_dotted_and_lowercased() {
    assert_eq!(override_key("APP__DATABASE__PORT"), Some("database.port".to_string()));
    assert_eq!(override_key("APP__APPLICATION__HOST"), Some("application.host".to_string()));
    assert_eq!(override_key("APP__DATABASE__DATABASE_NAME"), Some("database.database_name".to_string()));
    assert_eq!(override_key("PATH"), None);
    assert_eq!(override_key("APP_DATABASE__PORT"), None);
    assert_eq!(override_key(""), None);
}

#[test]
fn unrelated_variables_are_ignored() {
    let frag = overrides_from_env(&vec![
        var("PATH", "/usr/bin"),
        var("APP__APPLICATION__HOST", "0.0.0.0"),
        var("HOME", "/root"),
    ]);
    assert_eq!(frag.entries.len(), 1);
    assert_eq!(frag.entries[0].key, "application.host");
    match &frag.entries[0].value {
        ConfigValue::Text(v) => assert_eq!(v, "0.0.0.0"),
        other => panic!("override value should be text, got {other:?}"),
    }
}
