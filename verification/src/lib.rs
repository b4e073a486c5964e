//! Data-access layer for a relational store: a generic pagination compiler
//! that turns a read query into a single round trip returning one page of
//! rows together with the total matching row count, and a connection-pool
//! lifecycle manager that sequences transport setup, pool construction, a
//! liveness probe, an optional guarded destructive reset and schema
//! migrations before a pool is handed out.

use vstd::prelude::*;
use vstd::string::StringExecFns;
use vstd::string::StringSliceAdditionalSpecFns;

mod build_error;
mod error;
mod optional_ext;
mod pagination;
mod sql;
mod testing;
mod tls;

pub use build_error::BuildError;
pub use error::Error;
pub use error::StoreError;
pub use optional_ext::OptionalExt;
pub use pagination::paged_limit_fragment;
pub use pagination::paged_offset_fragment;
pub use pagination::paged_select_prefix;
pub use pagination::DEFAULT_PAGE_SIZE;
pub use pagination::Page;
pub use pagination::PaginateQuery;
pub use pagination::PaginatedQuery;
pub use sql::SqlBuffer;
pub use testing::Testing;
pub use tls::SignatureScheme;
pub use tls::supported_verify_schemes;

verus! {

/// Relies on `diesel_migrations::EmbeddedMigrations`: an ordered migration
/// source embedded in the binary, carried through the builder untouched and
/// only ever handed back to the migration harness.
#[verifier::external_type_specification]
#[verifier::external_body]
pub struct ExEmbeddedMigrations(diesel_migrations::EmbeddedMigrations);

/// Transient configuration for building a pool, consumed exactly once.
pub struct PoolBuilder {
    /// Requested connection cap. Kept explicit even though one evolution of
    /// the pool construction used a fixed cap instead.
    pub max_connections: usize,
    /// Migrations to apply after the liveness probe, if any.
    pub migrations: Option<diesel_migrations::EmbeddedMigrations>,
    /// Whether to drop and recreate the default schema before migrating.
    pub reset_db: bool,
}

impl Default for PoolBuilder {
    /// Ten connections, no migrations, no destructive reset.
    fn default() -> (r: Self)
        ensures
            r.max_connections == 10,
            r.migrations is None,
            !r.reset_db,
    {
        PoolBuilder { max_connections: 10, migrations: None, reset_db: false }
    }
}

impl PoolBuilder {
    /// Overrides the connection cap.
    pub fn with_max_connections(self, max_connections: usize) -> (r: Self)
        ensures
            r == (PoolBuilder { max_connections, ..self }),
    {
        PoolBuilder { max_connections, ..self }
    }

    /// Configures migrations to apply during the build.
    pub fn with_migrations(self, migrations: diesel_migrations::EmbeddedMigrations) -> (r: Self)
        ensures
            r == (PoolBuilder { migrations: Some(migrations), ..self }),
    {
        PoolBuilder { migrations: Some(migrations), ..self }
    }
}

/// A bootstrap stage the build sequence has completed, or one of the two
/// terminal outcomes.
#[derive(Clone, Copy, Debug, PartialEq, Eq, Structural)]
pub enum BuildPhase {
    /// Nothing done yet.
    Unconfigured,
    /// The encrypted transport is set up.
    TransportReady,
    /// The pool object is bound to the connection string.
    PoolConstructed,
    /// A connection was acquired and answered the liveness probe.
    HealthVerified,
    /// The default schema was dropped and recreated.
    SchemaReset,
    /// All pending migrations were applied.
    MigrationsApplied,
    /// The pool is ready to be handed out.
    Ready,
    /// A step failed; no pool is ever exposed.
    Failed,
}

/// The outside work the driver must perform next.
#[derive(Clone, Copy, Debug, PartialEq, Eq, Structural)]
pub enum BuildAction {
    /// Construct the transport layer with the permissive trust policy.
    SetUpTransport,
    /// Build the pool object bound to the connection string.
    ConstructPool,
    /// Acquire one connection and execute a trivial statement.
    ProbeLiveness,
    /// Drop and recreate the default schema. The driver must first check
    /// [`reset_allowed`] and abort the process when it refuses.
    ResetSchema,
    /// Apply all pending migrations on a blocking execution context.
    ApplyMigrations,
    /// Construction is complete: hand the pool to the caller.
    HandOverPool,
    /// A terminal phase was reached; nothing more to do.
    Stop,
}

/// The work owed in `phase`, under the builder's two flags.
pub open spec fn spec_next_action(phase: BuildPhase, reset_db: bool, has_migrations: bool) -> BuildAction {
    match phase {
        BuildPhase::Unconfigured => BuildAction::SetUpTransport,
        BuildPhase::TransportReady => BuildAction::ConstructPool,
        BuildPhase::PoolConstructed => BuildAction::ProbeLiveness,
        BuildPhase::HealthVerified => if reset_db {
            BuildAction::ResetSchema
        } else if has_migrations {
            BuildAction::ApplyMigrations
        } else {
            BuildAction::HandOverPool
        },
        BuildPhase::SchemaReset => if has_migrations {
            BuildAction::ApplyMigrations
        } else {
            BuildAction::HandOverPool
        },
        BuildPhase::MigrationsApplied => BuildAction::HandOverPool,
        BuildPhase::Ready => BuildAction::Stop,
        BuildPhase::Failed => BuildAction::Stop,
    }
}

/// The phase after performing the owed action with outcome `ok`.
pub open spec fn spec_advance(phase: BuildPhase, reset_db: bool, has_migrations: bool, ok: bool) -> BuildPhase {
    match phase {
        BuildPhase::Ready => BuildPhase::Ready,
        BuildPhase::Failed => BuildPhase::Failed,
        _ => if !ok {
            BuildPhase::Failed
        } else {
            match phase {
                BuildPhase::Unconfigured => BuildPhase::TransportReady,
                BuildPhase::TransportReady => BuildPhase::PoolConstructed,
                BuildPhase::PoolConstructed => BuildPhase::HealthVerified,
                BuildPhase::HealthVerified => if reset_db {
                    BuildPhase::SchemaReset
                } else if has_migrations {
                    BuildPhase::MigrationsApplied
                } else {
                    BuildPhase::Ready
                },
                BuildPhase::SchemaReset => if has_migrations {
                    BuildPhase::MigrationsApplied
                } else {
                    BuildPhase::Ready
                },
                BuildPhase::MigrationsApplied => BuildPhase::Ready,
                _ => phase,
            }
        },
    }
}

/// The outside work the build driver must perform next, given the completed
/// `phase` and the builder's flags.
pub fn next_action(phase: BuildPhase, reset_db: bool, has_migrations: bool) -> (r: BuildAction)
    ensures
        r == spec_next_action(phase, reset_db, has_migrations),
{
    match phase {
        BuildPhase::Unconfigured => BuildAction::SetUpTransport,
        BuildPhase::TransportReady => BuildAction::ConstructPool,
        BuildPhase::PoolConstructed => BuildAction::ProbeLiveness,
        BuildPhase::HealthVerified => if reset_db {
            BuildAction::ResetSchema
        } else if has_migrations {
            BuildAction::ApplyMigrations
        } else {
            BuildAction::HandOverPool
        },
        BuildPhase::SchemaReset => if has_migrations {
            BuildAction::ApplyMigrations
        } else {
            BuildAction::HandOverPool
        },
        BuildPhase::MigrationsApplied => BuildAction::HandOverPool,
        BuildPhase::Ready => BuildAction::Stop,
        BuildPhase::Failed => BuildAction::Stop,
    }
}

/// Moves the build sequence forward: a failed step is terminal, a
/// successful one reaches the next stage in the strict bootstrap order,
/// skipping reset and migrations where they are not requested.
pub fn advance(phase: BuildPhase, reset_db: bool, has_migrations: bool, ok: bool) -> (r: BuildPhase)
    ensures
        r == spec_advance(phase, reset_db, has_migrations, ok),
        phase != BuildPhase::Ready && !ok ==> r != BuildPhase::Ready,
{
    match phase {
        BuildPhase::Ready => BuildPhase::Ready,
        BuildPhase::Failed => BuildPhase::Failed,
        _ => if !ok {
            BuildPhase::Failed
        } else {
            match phase {
                BuildPhase::Unconfigured => BuildPhase::TransportReady,
                BuildPhase::TransportReady => BuildPhase::PoolConstructed,
                BuildPhase::PoolConstructed => BuildPhase::HealthVerified,
                BuildPhase::HealthVerified => if reset_db {
                    BuildPhase::SchemaReset
                } else if has_migrations {
                    BuildPhase::MigrationsApplied
                } else {
                    BuildPhase::Ready
                },
                BuildPhase::SchemaReset => if has_migrations {
                    BuildPhase::MigrationsApplied
                } else {
                    BuildPhase::Ready
                },
                BuildPhase::MigrationsApplied => BuildPhase::Ready,
                _ => phase,
            }
        },
    }
}

/// The phase after feeding `events`, the outcome of each performed action
/// in order, from `phase`.
pub open spec fn run_build(phase: BuildPhase, reset_db: bool, has_migrations: bool, events: Seq<bool>) -> BuildPhase
    decreases events.len(),
{
    if events.len() == 0 {
        phase
    } else {
        run_build(spec_advance(phase, reset_db, has_migrations, events[0]), reset_db, has_migrations, events.drop_first())
    }
}

/// How many actions still have to succeed before the pool is handed out.
pub open spec fn remaining_steps(phase: BuildPhase, reset_db: bool, has_migrations: bool) -> int {
    match phase {
        BuildPhase::Unconfigured => 4 + (if reset_db { 1int } else { 0 }) + (if has_migrations { 1int } else { 0 }),
        BuildPhase::TransportReady => 3 + (if reset_db { 1int } else { 0 }) + (if has_migrations { 1int } else { 0 }),
        BuildPhase::PoolConstructed => 2 + (if reset_db { 1int } else { 0 }) + (if has_migrations { 1int } else { 0 }),
        BuildPhase::HealthVerified => 1 + (if reset_db { 1int } else { 0 }) + (if has_migrations { 1int } else { 0 }),
        BuildPhase::SchemaReset => 1 + (if has_migrations { 1int } else { 0 }),
        BuildPhase::MigrationsApplied => 1,
        BuildPhase::Ready => 0,
        BuildPhase::Failed => 0,
    }
}

/// A pool is handed out exactly when every owed bootstrap action succeeds:
/// the run ends `Ready` if and only if it starts from a non-failed phase
/// and the first `remaining_steps` outcomes are all successes.
pub proof fn lemma_ready_iff_all_steps_succeed(phase: BuildPhase, reset_db: bool, has_migrations: bool, events: Seq<bool>)
    ensures
        run_build(phase, reset_db, has_migrations, events) == BuildPhase::Ready <==> (
        phase == BuildPhase::Ready || (phase != BuildPhase::Failed && events.len()
            >= remaining_steps(phase, reset_db, has_migrations) && forall|i: int|
            0 <= i < remaining_steps(phase, reset_db, has_migrations) ==> events[i])),
    decreases events.len(),
{
    let rem: int = remaining_steps(phase, reset_db, has_migrations);
    if events.len() == 0 {
    } else {
        let e0 = events[0];
        let rest = events.drop_first();
        let next = spec_advance(phase, reset_db, has_migrations, e0);
        lemma_ready_iff_all_steps_succeed(next, reset_db, has_migrations, rest);
        assert(forall|i: int| 0 <= i < rest.len() ==> rest[i] == events[i + 1]);
        assert(forall|i: int| 1 <= i < events.len() ==> events[i] == rest[i - 1]);
        if phase == BuildPhase::Ready {
        } else if phase == BuildPhase::Failed {
        } else {
            assert(rem >= 1);
            if e0 {
                assert(next != BuildPhase::Failed);
                assert(next == BuildPhase::Ready <==> rem == 1);
                assert(remaining_steps(next, reset_db, has_migrations) == rem - 1);
            } else {
                assert(next == BuildPhase::Failed);
            }
        }
    }
}

/// A failed bootstrap step means no pool: if any of the owed actions
/// reports failure, a build started from scratch never reaches `Ready`.
pub proof fn lemma_no_pool_after_failure(reset_db: bool, has_migrations: bool, events: Seq<bool>, i: int)
    requires
        0 <= i < events.len(),
        i < remaining_steps(BuildPhase::Unconfigured, reset_db, has_migrations),
        !events[i],
    ensures
        run_build(BuildPhase::Unconfigured, reset_db, has_migrations, events) != BuildPhase::Ready,
{
    lemma_ready_iff_all_steps_succeed(BuildPhase::Unconfigured, reset_db, has_migrations, events);
}

/// The destructive reset stands strictly between the liveness probe and the
/// migrations: it is owed exactly in phase `HealthVerified`, and only when
/// the builder asked for it.
pub proof fn lemma_reset_position(phase: BuildPhase, reset_db: bool, has_migrations: bool)
    ensures
        spec_next_action(phase, reset_db, has_migrations) == BuildAction::ResetSchema <==> (phase
            == BuildPhase::HealthVerified && reset_db),
{
}

/// The first index at or after `i` where `b` holds a `?`, or `b.len()`
/// when there is none.
pub open spec fn spec_query_scan(b: Seq<u8>, i: int) -> int
    decreases b.len() - i,
{
    if i < 0 || i >= b.len() {
        b.len() as int
    } else if b[i] == '?' as u8 {
        i
    } else {
        spec_query_scan(b, i + 1)
    }
}

/// Where the connection string's query part begins: at its first `?`, or
/// at its end when it carries none.
pub open spec fn spec_query_start(b: Seq<u8>) -> int {
    spec_query_scan(b, 0)
}

/// Where the database name begins: one past the last `/` strictly before
/// `end`, or 0 when no `/` precedes it.
pub open spec fn spec_name_start(b: Seq<u8>, end: int) -> int
    decreases end,
{
    if end <= 0 {
        0
    } else if b[end - 1] == '/' as u8 {
        end
    } else {
        spec_name_start(b, end - 1)
    }
}

/// The database name the connection string addresses: its last path
/// segment, before any query part.
pub open spec fn spec_database_name(b: Seq<u8>) -> Seq<u8> {
    b.subrange(spec_name_start(b, spec_query_start(b)), spec_query_start(b))
}

/// The last four bytes of `name` spell the safety suffix `test`.
pub open spec fn spec_ends_with_test(name: Seq<u8>) -> bool {
    name.len() >= 4 && name[name.len() - 4] == 't' as u8 && name[name.len() - 3] == 'e' as u8
        && name[name.len() - 2] == 's' as u8 && name[name.len() - 1] == 't' as u8
}

/// The safety gate on the destructive reset, over the connection string's
/// UTF-8 bytes: the database name it addresses must end with `test`.
pub open spec fn spec_reset_allowed(b: Seq<u8>) -> bool {
    spec_ends_with_test(spec_database_name(b))
}

/// Whether the destructive reset may proceed: the database name the
/// connection string addresses — its last path segment, before any query
/// part — must end with the safety suffix `test` (checked over the
/// string's UTF-8 bytes; the suffix is ASCII). The driver must abort the
/// process, before any destructive statement, when this refuses.
pub fn reset_allowed(url: &str) -> (r: bool)
    ensures
        r == spec_reset_allowed(url.spec_bytes()),
{
    let b = url.as_bytes();
    let n: usize = b.len();

    let mut end: usize = 0;
    while end < n && b[end] != '?' as u8
        invariant
            0 <= end <= n,
            n == b@.len(),
            spec_query_scan(b@, 0) == spec_query_scan(b@, end as int),
        decreases n - end,
    {
        end += 1;
    }
    proof {
        assert(spec_query_start(b@) == end as int);
    }

    let mut start: usize = end;
    while start > 0 && b[start - 1] != '/' as u8
        invariant
            0 <= start <= end <= n,
            n == b@.len(),
            spec_name_start(b@, end as int) == spec_name_start(b@, start as int),
        decreases start,
    {
        start -= 1;
    }
    proof {
        assert(spec_name_start(b@, end as int) == start as int);
        assert(spec_database_name(b@) =~= b@.subrange(start as int, end as int));
    }

    if end - start < 4 {
        false
    } else {
        b[end - 4] == 't' as u8 && b[end - 3] == 'e' as u8 && b[end - 2] == 's' as u8 && b[end
            - 1] == 't' as u8
    }
}

/// The trivial statement the liveness probe executes on a freshly acquired
/// connection.
pub fn probe_statement() -> (r: &'static str)
    ensures
        r@ == "select 1"@,
{
    "select 1"
}

/// The two statements of the destructive reset, in execution order: drop
/// the default schema with everything in it, then recreate it empty.
pub fn reset_statements() -> (r: (&'static str, &'static str))
    ensures
        r.0@ == "DROP SCHEMA public CASCADE"@,
        r.1@ == "CREATE SCHEMA public"@,
{
    ("DROP SCHEMA public CASCADE", "CREATE SCHEMA public")
}

/// Turns the value of the recognized environment variable into the
/// connection string for the build, or the fixed configuration error when
/// the variable is not set.
pub fn resolve_database_url(var: Option<String>) -> (r: Result<String, BuildError>)
    ensures
        match var {
            Some(url) => r == Result::<String, BuildError>::Ok(url),
            None => r matches Err(e) && e matches BuildError::Other(m) && m@
                == "environment variable `DATABASE_URL` not set"@,
        },
{
    match var {
        Some(url) => Ok(url),
        None => Err(
            BuildError::other(String::from_str("environment variable `DATABASE_URL` not set")),
        ),
    }
}

} // verus!
