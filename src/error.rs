//! The errors that setting up the database side can produce.
use vstd::prelude::*;

verus! {

/// tokio-postgres's error, carried through opaque.
#[verifier::external_type_specification]
#[verifier::external_body]
pub struct ExPgError(tokio_postgres::Error);

/// deadpool's error for a pool that could not be built, carried through opaque.
#[verifier::external_type_specification]
#[verifier::external_body]
#[verifier::reject_recursive_types(E)]
pub struct ExBuildError<E>(deadpool::managed::BuildError<E>);

/// A failure of the database layer, tagged by where it came from.
#[derive(Debug)]
pub enum DatabaseError {
    /// The PostgreSQL client failed: parsing the connection string, connecting,
    /// querying or converting a value.
    PostgresError(tokio_postgres::Error),
    /// The pool itself could not be built.
    PoolBuildError(deadpool_postgres::BuildError),
    /// A catch-all that no current path produces.
    Unknown,
}

/// The short text that names each kind of failure.
pub open spec fn database_error_message(e: DatabaseError) -> Seq<char> {
    match e {
        DatabaseError::PostgresError(_) => "postgres error"@,
        DatabaseError::PoolBuildError(_) => "faild to build connection pool"@,
        DatabaseError::Unknown => "unknown database error"@,
    }
}

impl DatabaseError {
    /// The short text that names this kind of failure.
    pub fn message(&self) -> (r: &'static str)
        ensures
            r@ == database_error_message(*self),
    {
        proof {
            reveal_strlit("postgres error");
            reveal_strlit("faild to build connection pool");
            reveal_strlit("unknown database error");
        }
        match self {
            DatabaseError::PostgresError(_) => "postgres error",
            DatabaseError::PoolBuildError(_) => "faild to build connection pool",
            DatabaseError::Unknown => "unknown database error",
        }
    }
}

} // verus!
