//! Provisioning of isolated test databases: a freshly named copy of the
//! database configuration, and the state machine that orders the outside
//! steps — create the database, apply every migration in order, and only
//! then hand the pool back. The caller performs each step against the
//! server and reports its outcome; every decision in between is made here.

use vstd::prelude::*;

use crate::configuration::DatabaseConfig;
use crate::configuration::DatabaseModel;

verus! {

/// Why a connection pool could not be obtained.
#[derive(Clone, Copy, PartialEq, Eq, Structural, Debug)]
pub enum ConnError {
    /// Eager connection: the server could not be reached at all.
    Unreachable,
    /// Lazy connection: the deferred first connection attempt did not
    /// complete within its bounded timeout.
    Timeout,
}

/// Why provisioning a test database failed. Either way the attempt is
/// abandoned whole; the partly provisioned database is left in place.
#[derive(Clone, Copy, PartialEq, Eq, Structural, Debug)]
pub enum ProvisionError {
    /// The server refused to create the database.
    CreateFailed,
    /// The migration step with the carried index failed.
    MigrationFailed(usize),
}

/// Where a provisioning run stands.
pub enum ProvisionState {
    /// The isolated database, named by `config.database_name`, is being
    /// created on the server.
    CreatingDatabase { config: DatabaseConfig, total_steps: usize },
    /// The database exists; migration step `next_step` of `total_steps` is
    /// being applied.
    Migrating { config: DatabaseConfig, next_step: usize, total_steps: usize },
    /// Every step succeeded; a pool bound to the migrated database may be
    /// handed back.
    Ready { config: DatabaseConfig },
    /// The run failed; the error tells at which step.
    Failed { error: ProvisionError },
}

/// What the caller reports about the step it just performed.
#[derive(Clone, Copy, PartialEq, Eq, Structural, Debug)]
pub enum ProvisionEvent {
    StepSucceeded,
    StepFailed,
}

/// The mathematical value of a [`ProvisionState`].
#[verifier::ext_equal]
pub enum StateModel {
    CreatingDatabase { config: DatabaseModel, total_steps: int },
    Migrating { config: DatabaseModel, next_step: int, total_steps: int },
    Ready { config: DatabaseModel },
    Failed { error: ProvisionError },
}

impl View for ProvisionState {
    type V = StateModel;

    open spec fn view(&self) -> StateModel {
        match self {
            ProvisionState::CreatingDatabase { config, total_steps } => {
                StateModel::CreatingDatabase {
                    config: config@,
                    total_steps: *total_steps as int,
                }
            },
            ProvisionState::Migrating { config, next_step, total_steps } => {
                StateModel::Migrating {
                    config: config@,
                    next_step: *next_step as int,
                    total_steps: *total_steps as int,
                }
            },
            ProvisionState::Ready { config } => StateModel::Ready { config: config@ },
            ProvisionState::Failed { error } => StateModel::Failed { error: *error },
        }
    }
}

/// Well-formedness of a state: a migration index always lies before the
/// end of the migration list.
pub open spec fn state_wf(s: StateModel) -> bool {
    s matches StateModel::Migrating { next_step, total_steps, .. } ==> 0 <= next_step
        < total_steps
}

/// The transition relation of provisioning. Creation must succeed before
/// any migration runs; the migrations run in order; the run is ready only
/// past the last of them; a failure names the step it happened at; the two
/// terminal states absorb every further event.
pub open spec fn spec_step(s: StateModel, e: ProvisionEvent) -> StateModel {
    match s {
        StateModel::CreatingDatabase { config, total_steps } => match e {
            ProvisionEvent::StepSucceeded => if total_steps == 0 {
                StateModel::Ready { config }
            } else {
                StateModel::Migrating { config, next_step: 0, total_steps }
            },
            ProvisionEvent::StepFailed => StateModel::Failed {
                error: ProvisionError::CreateFailed,
            },
        },
        StateModel::Migrating { config, next_step, total_steps } => match e {
            ProvisionEvent::StepSucceeded => if next_step + 1 == total_steps {
                StateModel::Ready { config }
            } else {
                StateModel::Migrating { config, next_step: next_step + 1, total_steps }
            },
            ProvisionEvent::StepFailed => StateModel::Failed {
                error: ProvisionError::MigrationFailed(next_step as usize),
            },
        },
        StateModel::Ready { config } => StateModel::Ready { config },
        StateModel::Failed { error } => StateModel::Failed { error },
    }
}

/// Relies on `uuid::Uuid::new_v4` and its `Display` rendering: a freshly
/// drawn random version-4 UUID, written in the hyphenated form, which is
/// exactly 36 characters long. The draw is random, so nothing relates two
/// calls: every use must hold for whatever name comes back.
#[verifier::external_body]
fn generate_database_name() -> (r: String)
    ensures
        r@.len() == 36,
{
    uuid::Uuid::new_v4().to_string()
}

/// The configuration re-pointed at the named database: the name replaced,
/// every other field kept.
pub fn isolated_config(base: &DatabaseConfig, name: String) -> (r: DatabaseConfig)
    ensures
        r@ == (DatabaseModel { database_name: name@, ..base@ }),
{
    let r = DatabaseConfig {
        username: base.username.clone(),
        password: base.password.clone(),
        port: base.port,
        host: base.host.clone(),
        database_name: name,
        require_ssl: base.require_ssl,
    };
    proof {
        assert(r@ =~= (DatabaseModel { database_name: r@.database_name, ..base@ }));
    }
    r
}

/// The configuration re-pointed at a freshly generated, globally unique
/// database name, as one isolated provisioning run uses it. Concurrent runs
/// never collide because each draws its own name; nothing else coordinates
/// them.
pub fn isolated_database_config(base: &DatabaseConfig) -> (r: DatabaseConfig)
    ensures
        r@ == (DatabaseModel { database_name: r@.database_name, ..base@ }),
        r@.database_name.len() == 36,
{
    let name = generate_database_name();
    isolated_config(base, name)
}

/// Distinct generated names give distinct target databases, whatever base
/// configuration the runs share: this is the whole isolation discipline.
pub proof fn lemma_isolated_configs_distinct(base: DatabaseModel, n1: Seq<char>, n2: Seq<char>)
    requires
        n1 != n2,
    ensures
        (DatabaseModel { database_name: n1, ..base }).database_name != (DatabaseModel {
            database_name: n2,
            ..base
        }).database_name,
{
}

/// Starts a provisioning run against a fresh, uniquely named database:
/// the returned state asks for that database to be created first.
pub fn provision_begin(base: &DatabaseConfig, total_steps: usize) -> (s: ProvisionState)
    ensures
        (s@ matches StateModel::CreatingDatabase { config, total_steps: t } && t
            == total_steps as int && config.database_name.len() == 36 && config == (DatabaseModel {
            database_name: config.database_name,
            ..base@
        })),
        state_wf(s@),
{
    let config = isolated_database_config(base);
    ProvisionState::CreatingDatabase { config, total_steps }
}

/// Drives the run one step on: the caller reports how the requested step
/// went, and the next state says what to do — the decisions, and they
/// alone, are made here.
pub fn provision_step(state: ProvisionState, event: ProvisionEvent) -> (next: ProvisionState)
    requires
        state_wf(state@),
    ensures
        next@ == spec_step(state@, event),
        state_wf(next@),
{
    match state {
        ProvisionState::CreatingDatabase { config, total_steps } => match event {
            ProvisionEvent::StepSucceeded => if total_steps == 0 {
                ProvisionState::Ready { config }
            } else {
                ProvisionState::Migrating { config, next_step: 0, total_steps }
            },
            ProvisionEvent::StepFailed => ProvisionState::Failed {
                error: ProvisionError::CreateFailed,
            },
        },
        ProvisionState::Migrating { config, next_step, total_steps } => match event {
            ProvisionEvent::StepSucceeded => if next_step + 1 == total_steps {
                ProvisionState::Ready { config }
            } else {
                ProvisionState::Migrating { config, next_step: next_step + 1, total_steps }
            },
            ProvisionEvent::StepFailed => ProvisionState::Failed {
                error: ProvisionError::MigrationFailed(next_step),
            },
        },
        ProvisionState::Ready { config } => ProvisionState::Ready { config },
        ProvisionState::Failed { error } => ProvisionState::Failed { error },
    }
}

/// A migration step is requested only once the database was created: the
/// migrating state is entered from creation or from an earlier migration
/// step, never from anywhere else.
pub proof fn lemma_migration_after_create(s: StateModel, e: ProvisionEvent)
    requires
        spec_step(s, e) is Migrating,
    ensures
        s is CreatingDatabase || s is Migrating,
{
}

/// The run becomes ready only by finishing the last migration step (or by
/// having none), never by skipping one, and never out of a failure.
pub proof fn lemma_ready_after_all_migrations(s: StateModel, e: ProvisionEvent)
    requires
        state_wf(s),
        spec_step(s, e) is Ready,
    ensures
        s is Ready || (s matches StateModel::CreatingDatabase { total_steps, .. } && total_steps
            == 0 && e == ProvisionEvent::StepSucceeded) || (s matches StateModel::Migrating {
            next_step,
            total_steps,
            ..
        } && e == ProvisionEvent::StepSucceeded && next_step + 1 == total_steps),
{
}

/// An isolated, migrated database provisioned for one test run: its
/// generated name and whether the migrations ran. The caller keeps the live
/// pool it bound to the database beside this record. No teardown is
/// offered; the database outlives the run until external cleanup.
pub struct ProvisionedTestDatabase {
    pub generated_name: String,
    pub migrations_applied: bool,
}

/// Closes a finished run. From a ready state: the record of the
/// provisioned database, named as the run named it, with the migrations
/// recorded as applied. From a failed state: the run's error.
pub fn provision_finish(state: ProvisionState) -> (r: Result<
    ProvisionedTestDatabase,
    ProvisionError,
>)
    requires
        state@ is Ready || state@ is Failed,
    ensures
        (state@ matches StateModel::Ready { config } ==> r matches Ok(p) && p.generated_name@
            == config.database_name && p.migrations_applied),
        (state@ matches StateModel::Failed { error } ==> r matches Err(e) && e == error),
{
    match state {
        ProvisionState::Ready { config } => Ok(
            ProvisionedTestDatabase {
                generated_name: config.database_name,
                migrations_applied: true,
            },
        ),
        ProvisionState::Failed { error } => Err(error),
        _ => {
            proof {
                assert(false);
            }
            Err(ProvisionError::CreateFailed)
        },
    }
}

/// A failure is final: no event leads out of it, and the error is kept.
pub proof fn lemma_failure_is_final(s: StateModel, e: ProvisionEvent)
    requires
        s is Failed,
    ensures
        spec_step(s, e) == s,
{
}

} // verus!
