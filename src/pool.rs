//! Building the bounded connection pool from a connection string.
use vstd::prelude::*;

use crate::error::DatabaseError;
use deadpool_postgres::{Manager, ManagerConfig, Pool, RecyclingMethod, Runtime, Timeouts};
use std::time::Duration;
use tokio_postgres::NoTls;

verus! {

/// tokio-postgres's parsed connection settings, carried through opaque.
#[verifier::external_type_specification]
#[verifier::external_body]
pub struct ExPgConfig(tokio_postgres::Config);

/// The largest number of connections the pool keeps open at once.
pub const MAX_POOL_SIZE: usize = 16;

/// What the pool does to a connection before handing it out again.
#[derive(Clone, Copy, Debug, PartialEq, Eq, Structural)]
pub enum Recycling {
    /// Only check that the connection is still open.
    Fast,
    /// Check that it is open and run a test query.
    Verified,
    /// Reset the whole session state.
    Clean,
}

/// How connections to the server are secured.
#[derive(Clone, Copy, Debug, PartialEq, Eq, Structural)]
pub enum Tls {
    /// Plain, unencrypted connections.
    NoTls,
}

/// The async runtime the pool is bound to.
#[derive(Clone, Copy, Debug, PartialEq, Eq, Structural)]
pub enum AsyncRuntime {
    /// tokio 1.
    Tokio,
}

/// How long the pool waits, in milliseconds, for each kind of operation;
/// `None` waits without a limit.
#[derive(Clone, Copy, Debug, PartialEq, Eq, Structural)]
pub struct PoolTimeouts {
    /// Waiting for a free slot.
    pub wait_ms: Option<u64>,
    /// Opening a new connection.
    pub create_ms: Option<u64>,
    /// Recycling a returned connection.
    pub recycle_ms: Option<u64>,
}

/// The settings a pool is built with.
#[derive(Clone, Copy, Debug, PartialEq, Eq, Structural)]
pub struct PoolSettings {
    pub max_size: usize,
    pub recycling: Recycling,
    pub tls: Tls,
    pub runtime: AsyncRuntime,
    pub timeouts: PoolTimeouts,
}

/// A bounded pool of PostgreSQL connections, shared by all requests.
///
/// deadpool's `Pool` is bounded by its `Manager` trait, which cannot be
/// declared to the verifier, so the pool is held here opaque; what the
/// contracts need of it is `built_settings` and `built_dsn`.
#[verifier::external_body]
pub struct ConnectionPool {
    pub inner: deadpool_postgres::Pool,
}

/// A connection string together with what the PostgreSQL client parsed
/// from it; only `parse_config` makes one.
struct ParsedDsn {
    config: tokio_postgres::Config,
    text: String,
}

/// Whether the PostgreSQL client accepts `s` as a connection string, in
/// key-value or URL form.
pub uninterp spec fn dsn_accepted(s: Seq<char>) -> bool;

/// The settings that a pool was built with.
pub uninterp spec fn built_settings(p: ConnectionPool) -> PoolSettings;

/// The connection string whose parsed form the pool connects with.
pub uninterp spec fn built_dsn(p: ConnectionPool) -> Seq<char>;

/// Relies on `<tokio_postgres::Config as FromStr>::from_str`: it parses a
/// connection string, and whether it succeeds depends on the text alone.
/// The text is kept beside what was parsed from it.
#[verifier::external_body]
fn parse_config(s: String) -> (r: Result<ParsedDsn, tokio_postgres::Error>)
    ensures
        r.is_ok() == dsn_accepted(s@),
        r matches Ok(d) ==> d.text@ == s@,
{
    match s.parse::<tokio_postgres::Config>() {
        Ok(config) => Ok(ParsedDsn { config, text: s }),
        Err(e) => Err(e),
    }
}

/// Relies on `deadpool_postgres::Manager::from_config` and deadpool's
/// `PoolBuilder`: with a runtime set, `build` always succeeds, and the pool
/// connects with the parsed settings and keeps the TLS mode, recycling
/// method, maximum size, runtime and timeouts given.
#[verifier::external_body]
fn build_pool(dsn: ParsedDsn, settings: PoolSettings) -> (r: Result<ConnectionPool, deadpool_postgres::BuildError>)
    ensures
        r.is_ok(),
        r matches Ok(p) ==> built_settings(p) == settings && built_dsn(p) == dsn.text@,
{
    let recycling_method = match settings.recycling {
        Recycling::Fast => RecyclingMethod::Fast,
        Recycling::Verified => RecyclingMethod::Verified,
        Recycling::Clean => RecyclingMethod::Clean,
    };
    let tls = match settings.tls { Tls::NoTls => NoTls };
    let runtime = match settings.runtime { AsyncRuntime::Tokio => Runtime::Tokio1 };
    let (t, ms) = (settings.timeouts, Duration::from_millis);
    let timeouts = Timeouts { wait: t.wait_ms.map(ms), create: t.create_ms.map(ms), recycle: t.recycle_ms.map(ms) };
    let mgr = Manager::from_config(dsn.config, tls, ManagerConfig { recycling_method });
    let builder = Pool::builder(mgr).runtime(runtime).max_size(settings.max_size);
    builder.timeouts(timeouts).build().map(|inner| ConnectionPool { inner })
}

/// The settings of the service's pool: at most sixteen connections,
/// recycled the fast way, without TLS, on tokio, and with no timeouts, so
/// a request that finds every connection taken waits for one.
pub open spec fn service_settings() -> PoolSettings {
    PoolSettings {
        max_size: MAX_POOL_SIZE,
        recycling: Recycling::Fast,
        tls: Tls::NoTls,
        runtime: AsyncRuntime::Tokio,
        timeouts: PoolTimeouts { wait_ms: None, create_ms: None, recycle_ms: None },
    }
}

/// Returns the settings of the service's pool.
pub fn pool_settings() -> (r: PoolSettings)
    ensures
        r == service_settings(),
{
    PoolSettings {
        max_size: MAX_POOL_SIZE,
        recycling: Recycling::Fast,
        tls: Tls::NoTls,
        runtime: AsyncRuntime::Tokio,
        timeouts: PoolTimeouts { wait_ms: None, create_ms: None, recycle_ms: None },
    }
}

/// Builds the service's connection pool from a connection string.
///
/// No connection is opened here: the pool connects lazily, on first use.
/// A connection string that the PostgreSQL client rejects gives
/// `PostgresError`; otherwise the pool connects with what was parsed from
/// that string, under the service's settings.
pub fn create_pool(conn_str: &str) -> (r: Result<ConnectionPool, DatabaseError>)
    ensures
        r.is_ok() == dsn_accepted(conn_str@),
        !dsn_accepted(conn_str@) ==> r matches Err(DatabaseError::PostgresError(_)),
        r matches Ok(p) ==> built_settings(p) == service_settings() && built_dsn(p) == conn_str@,
{
    broadcast use vstd::string::group_string_axioms;
    let pg_config = match parse_config(conn_str.to_string()) {
        Ok(c) => c,
        Err(e) => {
            return Err(DatabaseError::PostgresError(e));
        },
    };
    match build_pool(pg_config, pool_settings()) {
        Ok(p) => Ok(p),
        Err(e) => Err(DatabaseError::PoolBuildError(e)),
    }
}

} // verus!
