use diesel_migrations::EmbeddedMigrations;
use pagepool::advance;
use pagepool::next_action;
use pagepool::reset_allowed;
use pagepool::resolve_database_url;
use pagepool::BuildAction;
use pagepool::BuildError;
use pagepool::BuildPhase;
use pagepool::PoolBuilder;
use pagepool::Testing;

#[test]
fn default_builder() {
    let b = PoolBuilder::default();
    assert_eq!(b.max_connections, 10);
    assert!(b.migrations.is_none());
    assert!(!b.reset_db);
}

#[test]
fn builder_setters() {
    let b = PoolBuilder::default()
        .with_max_connections(3)
        .with_migrations(EmbeddedMigrations::new(&[]));
    assert_eq!(b.max_connections, 3);
    assert!(b.migrations.is_some());
    assert!(!b.reset_db);
}

#[test]
fn testing_toggles_reset_db() {
    let b = PoolBuilder::default().reset_db(true);
    assert!(b.reset_db);
    let b = b.reset_db(false);
    assert!(!b.reset_db);
}

fn drive_to_end(reset_db: bool, has_migrations: bool, outcomes: &[bool]) -> (Vec<BuildAction>, BuildPhase) {
    let mut phase = BuildPhase::Unconfigured;
    let mut actions = Vec::new();
    let mut i: usize = 0;
    loop {
        let action = next_action(phase, reset_db, has_migrations);
        if action == BuildAction::Stop {
            return (actions, phase);
        }
        actions.push(action);
        let ok = outcomes.get(i).copied().unwrap_or(true);
        i += 1;
        phase = advance(phase, reset_db, has_migrations, ok);
    }
}

#[test]
fn plain_build_reaches_ready() {
    let (actions, phase) = drive_to_end(false, false, &[]);
    assert_eq!(phase, BuildPhase::Ready);
    assert_eq!(
        actions,
        vec![
            BuildAction::SetUpTransport,
            BuildAction::ConstructPool,
            BuildAction::ProbeLiveness,
            BuildAction::HandOverPool,
        ]
    );
}

#[test]
fn full_build_orders_reset_before_migrations() {
    let (actions, phase) = drive_to_end(true, true, &[]);
    assert_eq!(phase, BuildPhase::Ready);
    assert_eq!(
        actions,
        vec![
            BuildAction::SetUpTransport,
            BuildAction::ConstructPool,
            BuildAction::ProbeLiveness,
            BuildAction::ResetSchema,
            BuildAction::ApplyMigrations,
            BuildAction::HandOverPool,
        ]
    );
}

#[test]
fn migrations_without_reset() {
    let (actions, phase) = drive_to_end(false, true, &[]);
    assert_eq!(phase, BuildPhase::Ready);
    assert_eq!(
        actions,
        vec![
            BuildAction::SetUpTransport,
            BuildAction::ConstructPool,
            BuildAction::ProbeLiveness,
            BuildAction::ApplyMigrations,
            BuildAction::HandOverPool,
        ]
    );
}

#[test]
fn failed_probe_never_yields_pool() {
    // Transport and pool construction succeed, the liveness probe fails.
    let (actions, phase) = drive_to_end(false, true, &[true, true, false]);
    assert_eq!(phase, BuildPhase::Failed);
    assert_eq!(
        actions,
        vec![
            BuildAction::SetUpTransport,
            BuildAction::ConstructPool,
            BuildAction::ProbeLiveness,
        ]
    );
}

#[test]
fn failed_transport_never_yields_pool() {
    let (actions, phase) = drive_to_end(true, true, &[false]);
    assert_eq!(phase, BuildPhase::Failed);
    assert_eq!(actions, vec![BuildAction::SetUpTransport]);
}

#[test]
fn failure_is_terminal() {
    let phase = advance(BuildPhase::PoolConstructed, false, false, false);
    assert_eq!(phase, BuildPhase::Failed);
    let phase = advance(phase, false, false, true);
    assert_eq!(phase, BuildPhase::Failed);
    assert_eq!(next_action(phase, false, false), BuildAction::Stop);
}

#[test]
fn reset_only_from_health_verified() {
    assert_eq!(
        next_action(BuildPhase::HealthVerified, true, true),
        BuildAction::ResetSchema
    );
    assert_ne!(
        next_action(BuildPhase::PoolConstructed, true, true),
        BuildAction::ResetSchema
    );
    assert_ne!(
        next_action(BuildPhase::SchemaReset, true, true),
        BuildAction::ResetSchema
    );
}

#[test]
fn reset_allowed_requires_test_suffix_on_database_name() {
    assert!(reset_allowed("postgres://localhost/app_test"));
    assert!(reset_allowed("postgres://user:pw@host:5432/integration_test"));
    assert!(reset_allowed("test"));
    assert!(!reset_allowed("postgres://localhost/app_prod"));
    assert!(!reset_allowed("tes"));
    assert!(!reset_allowed(""));
    assert!(!reset_allowed("postgres://localhost/testdb"));
}

#[test]
fn reset_allowed_ignores_the_query_part() {
    // Only the database name decides, not the whole connection string: a
    // query part ending in "test" never permits a reset of another
    // database, and one ending otherwise never refuses a test database.
    assert!(!reset_allowed("postgres://h/prod?x=test"));
    assert!(reset_allowed("postgres://localhost/app_test?sslmode=require"));
}

#[test]
fn probe_and_reset_statements() {
    assert_eq!(pagepool::probe_statement(), "select 1");
    let (drop_schema, create_schema) = pagepool::reset_statements();
    assert_eq!(drop_schema, "DROP SCHEMA public CASCADE");
    assert_eq!(create_schema, "CREATE SCHEMA public");
}

#[test]
fn resolve_database_url_present() {
    let r = resolve_database_url(Some("postgres://localhost/db".to_string()));
    assert_eq!(r.unwrap(), "postgres://localhost/db");
}

#[test]
fn resolve_database_url_missing() {
    let r = resolve_database_url(None);
    match r {
        Err(BuildError::Other(m)) => {
            assert_eq!(m, "environment variable `DATABASE_URL` not set");
        }
        _ => panic!("expected a configuration error"),
    }
}
