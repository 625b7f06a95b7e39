use zero2prod::configuration::DatabaseConfig;
use zero2prod::provision::{
    isolated_config, isolated_database_config, provision_begin, provision_finish, provision_step,
    ProvisionError, ProvisionEvent, ProvisionState,
};
use zero2prod::secret::SecretValue;

fn base_config() -> DatabaseConfig {
    DatabaseConfig {
        username: "postgres".to_string(),
        password: SecretValue::new("password".to_string()),
        port: 5432,
        host: "localhost".to_string(),
        database_name: "newsletter".to_string(),
        require_ssl: false,
    }
}

#[test]
fn isolated_config_replaces_only_the_database_name() {
    let base = base_config();
    let isolated = isolated_config(&base, "fresh_name".to_string());
    assert_eq!(isolated.database_name, "fresh_name");
    assert_eq!(isolated.username, base.username);
    assert_eq!(isolated.host, base.host);
    assert_eq!(isolated.port, base.port);
    assert_eq!(isolated.require_ssl, base.require_ssl);
    assert_eq!(isolated.password.expose_secret(), base.password.expose_secret());
}

#[test]
fn generated_names_are_uuid_shaped_and_distinct() {
    let base = base_config();
    let first = isolated_database_config(&base);
    let second = isolated_database_config(&base);
    assert_eq!(first.database_name.len(), 36);
    assert_eq!(second.database_name.len(), 36);
    // two sequential provisions target distinct databases
    assert_ne!(first.database_name, second.database_name);
    assert_ne!(first.database_name, base.database_name);
}

#[test]
fn successful_run_creates_then_migrates_then_is_ready() {
    let state = provision_begin(&base_config(), 2);
    let generated_name = match &state {
        ProvisionState::CreatingDatabase { config, total_steps } => {
            assert_eq!(*total_steps, 2);
            assert_eq!(config.database_name.len(), 36);
            config.database_name.clone()
        }
        _ => panic!("a run must start by creating the database"),
    };
    let state = provision_step(state, ProvisionEvent::StepSucceeded);
    match &state {
        ProvisionState::Migrating { next_step, total_steps, .. } => {
            assert_eq!(*next_step, 0);
            assert_eq!(*total_steps, 2);
        }
        _ => panic!("after creation the first migration step must run"),
    }
    let state = provision_step(state, ProvisionEvent::StepSucceeded);
    let state = provision_step(state, ProvisionEvent::StepSucceeded);
    match &state {
        ProvisionState::Ready { config } => assert_eq!(config.database_name, generated_name),
        _ => panic!("after the last migration the run must be ready"),
    }
    let provisioned = provision_finish(state).unwrap();
    assert_eq!(provisioned.generated_name, generated_name);
    assert!(provisioned.migrations_applied);
}

#[test]
fn a_run_without_migrations_is_ready_after_creation() {
    let state = provision_begin(&base_config(), 0);
    let state = provision_step(state, ProvisionEvent::StepSucceeded);
    assert!(matches!(state, ProvisionState::Ready { .. }));
}

#[test]
fn failed_creation_fails_the_whole_run() {
    let state = provision_begin(&base_config(), 2);
    let state = provision_step(state, ProvisionEvent::StepFailed);
    match &state {
        ProvisionState::Failed { error } => assert_eq!(*error, ProvisionError::CreateFailed),
        _ => panic!("a failed creation must fail the run"),
    }
    assert_eq!(provision_finish(state).err(), Some(ProvisionError::CreateFailed));
}

#[test]
fn failed_migration_reports_its_step_and_is_final() {
    let state = provision_begin(&base_config(), 3);
    let state = provision_step(state, ProvisionEvent::StepSucceeded);
    let state = provision_step(state, ProvisionEvent::StepSucceeded);
    let state = provision_step(state, ProvisionEvent::StepFailed);
    match &state {
        ProvisionState::Failed { error } => {
            assert_eq!(*error, ProvisionError::MigrationFailed(1));
        }
        _ => panic!("a failed migration must fail the run"),
    }
    // the failure absorbs further events
    let state = provision_step(state, ProvisionEvent::StepSucceeded);
    assert_eq!(provision_finish(state).err(), Some(ProvisionError::MigrationFailed(1)));
}

#[test]
fn two_runs_from_one_base_are_isolated() {
    let base = base_config();
    let first = provision_begin(&base, 1);
    let second = provision_begin(&base, 1);
    let name = |s: &ProvisionState| match s {
        ProvisionState::CreatingDatabase { config, .. } => config.database_name.clone(),
        _ => panic!("a run must start by creating the database"),
    };
    assert_ne!(name(&first), name(&second));
}
