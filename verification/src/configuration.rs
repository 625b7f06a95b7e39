//! The typed application configuration and the loader that resolves it from
//! three layered sources: a base fragment, an environment-specific fragment,
//! and overrides drawn from environment variables, in that order of rising
//! precedence.

use vstd::prelude::*;

use crate::environment::spec_unsupported_env_message;
use crate::environment::Environment;
use crate::fragment::ConfigValue;
use crate::fragment::EntryModel;
use crate::fragment::Fragment;
use crate::fragment::ValueModel;
use crate::fragment::resolve;
use crate::fragment::resolve_in;
use crate::fragment::sources_view;
use crate::secret::SecretValue;
use crate::text::all_digits;
use crate::text::decimal_value;
use crate::text::lower;
use crate::text::parse_u16;

verus! {

/// The section of the configuration that the HTTP listener is bound from.
pub struct ApplicationConfig {
    pub port: u16,
    pub host: String,
}

/// The section of the configuration that database connections are derived
/// from.
pub struct DatabaseConfig {
    pub username: String,
    pub password: SecretValue,
    pub port: u16,
    pub host: String,
    pub database_name: String,
    pub require_ssl: bool,
}

/// The resolved, typed configuration; immutable once loaded.
pub struct Config {
    pub database: DatabaseConfig,
    pub application: ApplicationConfig,
}

/// The mathematical value of an [`ApplicationConfig`].
#[verifier::ext_equal]
pub struct ApplicationModel {
    pub port: int,
    pub host: Seq<char>,
}

/// The mathematical value of a [`DatabaseConfig`].
#[verifier::ext_equal]
pub struct DatabaseModel {
    pub username: Seq<char>,
    pub password: Seq<char>,
    pub port: int,
    pub host: Seq<char>,
    pub database_name: Seq<char>,
    pub require_ssl: bool,
}

/// The mathematical value of a [`Config`].
#[verifier::ext_equal]
pub struct ConfigModel {
    pub database: DatabaseModel,
    pub application: ApplicationModel,
}

impl View for ApplicationConfig {
    type V = ApplicationModel;

    open spec fn view(&self) -> ApplicationModel {
        ApplicationModel { port: self.port as int, host: self.host@ }
    }
}

impl View for DatabaseConfig {
    type V = DatabaseModel;

    open spec fn view(&self) -> DatabaseModel {
        DatabaseModel {
            username: self.username@,
            password: self.password@,
            port: self.port as int,
            host: self.host@,
            database_name: self.database_name@,
            require_ssl: self.require_ssl,
        }
    }
}

impl View for Config {
    type V = ConfigModel;

    open spec fn view(&self) -> ConfigModel {
        ConfigModel { database: self.database@, application: self.application@ }
    }
}

impl Clone for DatabaseConfig {
    /// Cloning preserves every field; the configuration is immutable and
    /// meant for unsynchronized sharing.
    fn clone(&self) -> (r: Self)
        ensures
            r@ == self@,
    {
        let r = DatabaseConfig {
            username: self.username.clone(),
            password: self.password.clone(),
            port: self.port,
            host: self.host.clone(),
            database_name: self.database_name.clone(),
            require_ssl: self.require_ssl,
        };
        proof {
            assert(r@ =~= self@);
        }
        r
    }
}

/// Why a resolved value could not fill a configuration field.
#[derive(Clone, Copy, PartialEq, Eq, Structural, Debug)]
pub enum InvalidReason {
    /// No source binds the required key.
    MissingKey,
    /// A source binds the key to a value of the wrong kind.
    WrongType,
    /// The value offered for a port is neither a number within sixteen bits
    /// nor a string of digits denoting one.
    InvalidPort,
}

/// Why loading the configuration failed. Every variant is fatal to startup.
#[derive(Debug, PartialEq, Eq)]
pub enum ConfigError {
    /// A required source, the base fragment or the environment-specific
    /// fragment, was not supplied.
    MissingSource,
    /// `APP_ENVIRONMENT` named an environment other than `local` or
    /// `production`; the message names the offender in lower case.
    UnsupportedEnvironment(String),
    /// The merged sources do not form a well-typed configuration: the named
    /// dotted key is missing or its value is rejected for the carried reason.
    Invalid(String, InvalidReason),
}

/// The text a key must resolve to.
pub open spec fn spec_get_text(frags: Seq<Seq<EntryModel>>, key: Seq<char>) -> Result<
    Seq<char>,
    InvalidReason,
> {
    match resolve_in(frags, key) {
        None => Err(InvalidReason::MissingKey),
        Some(ValueModel::Text(t)) => Ok(t),
        Some(_) => Err(InvalidReason::WrongType),
    }
}

/// The boolean a key must resolve to.
pub open spec fn spec_get_flag(frags: Seq<Seq<EntryModel>>, key: Seq<char>) -> Result<
    bool,
    InvalidReason,
> {
    match resolve_in(frags, key) {
        None => Err(InvalidReason::MissingKey),
        Some(ValueModel::Flag(b)) => Ok(b),
        Some(_) => Err(InvalidReason::WrongType),
    }
}

/// Tolerant reading of a port: a number already within sixteen bits, or a
/// non-empty string of decimal digits whose value is.
pub open spec fn spec_parse_port(v: ValueModel) -> Result<int, InvalidReason> {
    match v {
        ValueModel::Number(n) => if 0 <= n <= u16::MAX {
            Ok(n)
        } else {
            Err(InvalidReason::InvalidPort)
        },
        ValueModel::Text(t) => if t.len() > 0 && all_digits(t) && decimal_value(t) <= u16::MAX {
            Ok(decimal_value(t))
        } else {
            Err(InvalidReason::InvalidPort)
        },
        ValueModel::Flag(_) => Err(InvalidReason::WrongType),
    }
}

/// Tolerant numeric parsing: a port supplied as a string of digits resolves
/// to exactly the unsigned value those digits denote — the same port its
/// plainly numeric form resolves to.
pub proof fn lemma_tolerant_port_parsing(t: Seq<char>)
    requires
        t.len() > 0,
        all_digits(t),
        decimal_value(t) <= u16::MAX,
    ensures
        spec_parse_port(ValueModel::Text(t)) == Ok::<int, InvalidReason>(decimal_value(t)),
        spec_parse_port(ValueModel::Text(t)) == spec_parse_port(
            ValueModel::Number(decimal_value(t)),
        ),
{
    crate::text::lemma_decimal_value_nonneg(t);
}

/// The port a key must resolve to, read tolerantly.
pub open spec fn spec_get_port(frags: Seq<Seq<EntryModel>>, key: Seq<char>) -> Result<
    int,
    InvalidReason,
> {
    match resolve_in(frags, key) {
        None => Err(InvalidReason::MissingKey),
        Some(v) => spec_parse_port(v),
    }
}

/// What the merged sources deserialize to: the typed configuration, or the
/// first ill-formed field together with the reason, fields being read in
/// declaration order, the database section first.
pub open spec fn spec_build(frags: Seq<Seq<EntryModel>>) -> Result<
    ConfigModel,
    (Seq<char>, InvalidReason),
> {
    let username = spec_get_text(frags, "database.username"@);
    let password = spec_get_text(frags, "database.password"@);
    let db_port = spec_get_port(frags, "database.port"@);
    let db_host = spec_get_text(frags, "database.host"@);
    let db_name = spec_get_text(frags, "database.database_name"@);
    let require_ssl = spec_get_flag(frags, "database.require_ssl"@);
    let app_port = spec_get_port(frags, "application.port"@);
    let app_host = spec_get_text(frags, "application.host"@);
    if username is Err {
        Err(("database.username"@, username->Err_0))
    } else if password is Err {
        Err(("database.password"@, password->Err_0))
    } else if db_port is Err {
        Err(("database.port"@, db_port->Err_0))
    } else if db_host is Err {
        Err(("database.host"@, db_host->Err_0))
    } else if db_name is Err {
        Err(("database.database_name"@, db_name->Err_0))
    } else if require_ssl is Err {
        Err(("database.require_ssl"@, require_ssl->Err_0))
    } else if app_port is Err {
        Err(("application.port"@, app_port->Err_0))
    } else if app_host is Err {
        Err(("application.host"@, app_host->Err_0))
    } else {
        Ok(
            ConfigModel {
                database: DatabaseModel {
                    username: username->Ok_0,
                    password: password->Ok_0,
                    port: db_port->Ok_0,
                    host: db_host->Ok_0,
                    database_name: db_name->Ok_0,
                    require_ssl: require_ssl->Ok_0,
                },
                application: ApplicationModel { port: app_port->Ok_0, host: app_host->Ok_0 },
            },
        )
    }
}

/// The environment name the loader works from: the value of the
/// `APP_ENVIRONMENT` variable, or `local` when the variable is unset.
pub open spec fn spec_env_request(app_environment: Option<Seq<char>>) -> Seq<char> {
    match app_environment {
        Some(name) => name,
        None => "local"@,
    }
}

/// The outcome loading must have, as a mathematical value.
#[verifier::ext_equal]
pub enum LoadOutcome {
    /// A required fragment was not supplied.
    MissingSource,
    /// The message naming, in lower case, the requested environment that is
    /// neither `local` nor `production` up to ASCII case.
    UnsupportedEnvironment(Seq<char>),
    /// The named field is missing or ill-typed in the merged sources.
    Invalid(Seq<char>, InvalidReason),
    /// The typed configuration the merged sources deserialize to.
    Loaded(ConfigModel),
}

/// What deserializing the given merged sources must yield.
pub open spec fn spec_build_outcome(frags: Seq<Seq<EntryModel>>) -> LoadOutcome {
    match spec_build(frags) {
        Ok(m) => LoadOutcome::Loaded(m),
        Err((field, why)) => LoadOutcome::Invalid(field, why),
    }
}

/// What loading from the given sources must yield. The base fragment is
/// required; the environment name selects the required environment-specific
/// fragment; the sources are merged in order base, environment file,
/// environment-variable overrides, later sources winning key by key.
pub open spec fn spec_load(
    base: Option<Seq<EntryModel>>,
    app_environment: Option<Seq<char>>,
    local: Option<Seq<EntryModel>>,
    production: Option<Seq<EntryModel>>,
    overrides: Seq<EntryModel>,
) -> LoadOutcome {
    if base is None {
        LoadOutcome::MissingSource
    } else {
        let name = spec_env_request(app_environment);
        if lower(name) == "local"@ {
            match local {
                None => LoadOutcome::MissingSource,
                Some(env_file) => spec_build_outcome(seq![base->0, env_file, overrides]),
            }
        } else if lower(name) == "production"@ {
            match production {
                None => LoadOutcome::MissingSource,
                Some(env_file) => spec_build_outcome(seq![base->0, env_file, overrides]),
            }
        } else {
            LoadOutcome::UnsupportedEnvironment(spec_unsupported_env_message(name))
        }
    }
}

/// Whether an executable result agrees with the prescribed outcome.
pub open spec fn outcome_matches(r: Result<Config, ConfigError>, o: LoadOutcome) -> bool {
    match (r, o) {
        (Ok(c), LoadOutcome::Loaded(m)) => c@ == m,
        (Err(ConfigError::MissingSource), LoadOutcome::MissingSource) => true,
        (
            Err(ConfigError::UnsupportedEnvironment(n)),
            LoadOutcome::UnsupportedEnvironment(m),
        ) => n@ == m,
        (Err(ConfigError::Invalid(f, w)), LoadOutcome::Invalid(g, x)) => f@ == g && w == x,
        _ => false,
    }
}

/// The fragment list as an optional mathematical value.
pub open spec fn opt_frag_view(o: Option<Fragment>) -> Option<Seq<EntryModel>> {
    match o {
        Some(f) => Some(f@),
        None => None,
    }
}

/// The environment request as an optional mathematical value.
pub open spec fn opt_name_view(o: Option<String>) -> Option<Seq<char>> {
    match o {
        Some(n) => Some(n@),
        None => None,
    }
}

fn get_text(sources: &Vec<Fragment>, key: &str) -> (r: Result<String, InvalidReason>)
    ensures
        match r {
            Ok(s) => spec_get_text(sources_view(sources@), key@) == Ok::<_, InvalidReason>(s@),
            Err(e) => spec_get_text(sources_view(sources@), key@) == Err::<Seq<char>, _>(e),
        },
{
    match resolve(sources, key) {
        None => Err(InvalidReason::MissingKey),
        Some(ConfigValue::Text(t)) => Ok(t.clone()),
        Some(_) => Err(InvalidReason::WrongType),
    }
}

fn get_flag(sources: &Vec<Fragment>, key: &str) -> (r: Result<bool, InvalidReason>)
    ensures
        match r {
            Ok(b) => spec_get_flag(sources_view(sources@), key@) == Ok::<_, InvalidReason>(b),
            Err(e) => spec_get_flag(sources_view(sources@), key@) == Err::<bool, _>(e),
        },
{
    match resolve(sources, key) {
        None => Err(InvalidReason::MissingKey),
        Some(ConfigValue::Flag(b)) => Ok(*b),
        Some(_) => Err(InvalidReason::WrongType),
    }
}

fn get_port(sources: &Vec<Fragment>, key: &str) -> (r: Result<u16, InvalidReason>)
    ensures
        match r {
            Ok(p) => spec_get_port(sources_view(sources@), key@) == Ok::<_, InvalidReason>(
                p as int,
            ),
            Err(e) => spec_get_port(sources_view(sources@), key@) == Err::<int, _>(e),
        },
{
    match resolve(sources, key) {
        None => Err(InvalidReason::MissingKey),
        Some(ConfigValue::Number(n)) => if 0 <= *n && *n <= 65535 {
            Ok(*n as u16)
        } else {
            Err(InvalidReason::InvalidPort)
        },
        Some(ConfigValue::Text(t)) => match parse_u16(t.as_str()) {
            Some(p) => Ok(p),
            None => Err(InvalidReason::InvalidPort),
        },
        Some(ConfigValue::Flag(_)) => Err(InvalidReason::WrongType),
    }
}

/// Deserializes the merged sources into the typed configuration, reporting
/// the first ill-formed field.
fn build_config(sources: &Vec<Fragment>) -> (r: Result<Config, ConfigError>)
    ensures
        outcome_matches(r, spec_build_outcome(sources_view(sources@))),
{
    let username = match get_text(sources, "database.username") {
        Ok(v) => v,
        Err(e) => return Err(ConfigError::Invalid("database.username".to_owned(), e)),
    };
    let password = match get_text(sources, "database.password") {
        Ok(v) => v,
        Err(e) => return Err(ConfigError::Invalid("database.password".to_owned(), e)),
    };
    let db_port = match get_port(sources, "database.port") {
        Ok(v) => v,
        Err(e) => return Err(ConfigError::Invalid("database.port".to_owned(), e)),
    };
    let db_host = match get_text(sources, "database.host") {
        Ok(v) => v,
        Err(e) => return Err(ConfigError::Invalid("database.host".to_owned(), e)),
    };
    let db_name = match get_text(sources, "database.database_name") {
        Ok(v) => v,
        Err(e) => return Err(ConfigError::Invalid("database.database_name".to_owned(), e)),
    };
    let require_ssl = match get_flag(sources, "database.require_ssl") {
        Ok(v) => v,
        Err(e) => return Err(ConfigError::Invalid("database.require_ssl".to_owned(), e)),
    };
    let app_port = match get_port(sources, "application.port") {
        Ok(v) => v,
        Err(e) => return Err(ConfigError::Invalid("application.port".to_owned(), e)),
    };
    let app_host = match get_text(sources, "application.host") {
        Ok(v) => v,
        Err(e) => return Err(ConfigError::Invalid("application.host".to_owned(), e)),
    };
    let config = Config {
        database: DatabaseConfig {
            username,
            password: SecretValue::new(password),
            port: db_port,
            host: db_host,
            database_name: db_name,
            require_ssl,
        },
        application: ApplicationConfig { port: app_port, host: app_host },
    };
    proof {
        assert(config@ =~= spec_build(sources_view(sources@))->Ok_0);
    }
    Ok(config)
}

/// Resolves the configuration from its three sources: the required base
/// fragment, the required fragment of the environment that `app_environment`
/// selects (`local` when unset), and the environment-variable overrides.
/// Merging is per leaf key with precedence overrides, then environment file,
/// then base; the merged mapping is deserialized with tolerant port parsing.
pub fn load(
    base: Option<Fragment>,
    app_environment: Option<String>,
    local: Option<Fragment>,
    production: Option<Fragment>,
    overrides: Fragment,
) -> (r: Result<Config, ConfigError>)
    ensures
        outcome_matches(
            r,
            spec_load(
                opt_frag_view(base),
                opt_name_view(app_environment),
                opt_frag_view(local),
                opt_frag_view(production),
                overrides@,
            ),
        ),
{
    let ghost base_view = opt_frag_view(base);
    let ghost overrides_view = overrides@;
    let base_frag = match base {
        Some(f) => f,
        None => return Err(ConfigError::MissingSource),
    };
    let name: String = match app_environment {
        Some(n) => n,
        None => "local".to_owned(),
    };
    let environment = match Environment::try_from(name.as_str()) {
        Ok(e) => e,
        Err(n) => return Err(ConfigError::UnsupportedEnvironment(n)),
    };
    let env_frag = match environment {
        Environment::Local => match local {
            Some(f) => f,
            None => return Err(ConfigError::MissingSource),
        },
        Environment::Production => match production {
            Some(f) => f,
            None => return Err(ConfigError::MissingSource),
        },
    };
    let mut sources: Vec<Fragment> = Vec::new();
    sources.push(base_frag);
    sources.push(env_frag);
    sources.push(overrides);
    proof {
        assert(sources_view(sources@) =~= seq![base_view->0, sources@[1]@, overrides_view]);
    }
    build_config(&sources)
}

} // verus!
