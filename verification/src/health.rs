//! Health probes of the drainer service: the aggregation of the database
//! and Redis probe outcomes into a response.  Driving the actual probes
//! (SQL round-trip, Redis key and stream round-trip) is I/O and stays with
//! the caller; this module holds what can be decided from their outcomes.

use vstd::prelude::*;

verus! {

/// The drainer's health endpoint family.
#[derive(Clone, Copy, Debug, PartialEq, Eq, Structural)]
pub struct Health;

/// The deep-health-check response body.
#[derive(Clone, Debug)]
pub struct DrainerHealthCheckResponse {
    pub database: String,
    pub redis: String,
}

/// What a database health probe can fail with.
#[derive(Clone, Copy, Debug, PartialEq, Eq, Structural)]
pub enum HealthCheckDBError {
    DBError,
    DBWriteError,
    DBReadError,
    DBDeleteError,
    UnknownError,
    TransactionError,
}

/// The kinds of database-driver failure the classification reads.  The
/// driver's own error type stays outside the library; the caller maps its
/// variants onto these kinds one for one.
#[derive(Clone, Copy, Debug, PartialEq, Eq, Structural)]
pub enum DbFaultKind {
    DatabaseFault,
    RollbackErrorOnCommit,
    RollbackTransaction,
    AlreadyInTransaction,
    NotInTransaction,
    BrokenTransactionManager,
    OtherFault,
}

/// Classification of driver faults: a database-level fault maps to
/// `DBError`, every transaction-management fault to `TransactionError`,
/// anything else to `UnknownError`.
pub open spec fn spec_db_error_from_fault(f: DbFaultKind) -> HealthCheckDBError {
    match f {
        DbFaultKind::DatabaseFault => HealthCheckDBError::DBError,
        DbFaultKind::RollbackErrorOnCommit => HealthCheckDBError::TransactionError,
        DbFaultKind::RollbackTransaction => HealthCheckDBError::TransactionError,
        DbFaultKind::AlreadyInTransaction => HealthCheckDBError::TransactionError,
        DbFaultKind::NotInTransaction => HealthCheckDBError::TransactionError,
        DbFaultKind::BrokenTransactionManager => HealthCheckDBError::TransactionError,
        DbFaultKind::OtherFault => HealthCheckDBError::UnknownError,
    }
}

pub open spec fn spec_db_error_message(e: HealthCheckDBError) -> Seq<char> {
    match e {
        HealthCheckDBError::DBError => "Error while connecting to database"@,
        HealthCheckDBError::DBWriteError => "Error while writing to database"@,
        HealthCheckDBError::DBReadError => "Error while reading element in the database"@,
        HealthCheckDBError::DBDeleteError => "Error while deleting element in the database"@,
        HealthCheckDBError::UnknownError => "Unpredictable error occurred"@,
        HealthCheckDBError::TransactionError => "Error in database transaction"@,
    }
}

impl HealthCheckDBError {
    /// Exec mirror of [`spec_db_error_from_fault`].
    pub fn from_fault(f: DbFaultKind) -> (r: HealthCheckDBError)
        ensures
            r == spec_db_error_from_fault(f),
    {
        match f {
            DbFaultKind::DatabaseFault => HealthCheckDBError::DBError,
            DbFaultKind::RollbackErrorOnCommit => HealthCheckDBError::TransactionError,
            DbFaultKind::RollbackTransaction => HealthCheckDBError::TransactionError,
            DbFaultKind::AlreadyInTransaction => HealthCheckDBError::TransactionError,
            DbFaultKind::NotInTransaction => HealthCheckDBError::TransactionError,
            DbFaultKind::BrokenTransactionManager => HealthCheckDBError::TransactionError,
            DbFaultKind::OtherFault => HealthCheckDBError::UnknownError,
        }
    }

    /// The human-readable description of this error.
    pub fn message(&self) -> (r: &'static str)
        ensures
            r@ == spec_db_error_message(*self),
    {
        match self {
            HealthCheckDBError::DBError => "Error while connecting to database",
            HealthCheckDBError::DBWriteError => "Error while writing to database",
            HealthCheckDBError::DBReadError => "Error while reading element in the database",
            HealthCheckDBError::DBDeleteError => "Error while deleting element in the database",
            HealthCheckDBError::UnknownError => "Unpredictable error occurred",
            HealthCheckDBError::TransactionError => "Error in database transaction",
        }
    }
}

/// What a Redis health probe can fail with.
#[derive(Clone, Copy, Debug, PartialEq, Eq, Structural)]
pub enum HealthCheckRedisError {
    SetFailed,
    GetFailed,
    DeleteFailed,
    StreamAppendFailed,
    StreamReadFailed,
    StreamTrimFailed,
}

pub open spec fn spec_redis_error_message(e: HealthCheckRedisError) -> Seq<char> {
    match e {
        HealthCheckRedisError::SetFailed => "Failed to set key value in Redis"@,
        HealthCheckRedisError::GetFailed => "Failed to get key value in Redis"@,
        HealthCheckRedisError::DeleteFailed => "Failed to delete key value in Redis"@,
        HealthCheckRedisError::StreamAppendFailed => "Failed to append data to the stream in Redis"@,
        HealthCheckRedisError::StreamReadFailed => "Failed to read data from the stream in Redis"@,
        HealthCheckRedisError::StreamTrimFailed => "Failed to trim data from the stream in Redis"@,
    }
}

impl HealthCheckRedisError {
    /// The human-readable description of this error.
    pub fn message(&self) -> (r: &'static str)
        ensures
            r@ == spec_redis_error_message(*self),
    {
        match self {
            HealthCheckRedisError::SetFailed => "Failed to set key value in Redis",
            HealthCheckRedisError::GetFailed => "Failed to get key value in Redis",
            HealthCheckRedisError::DeleteFailed => "Failed to delete key value in Redis",
            HealthCheckRedisError::StreamAppendFailed => "Failed to append data to the stream in Redis",
            HealthCheckRedisError::StreamReadFailed => "Failed to read data from the stream in Redis",
            HealthCheckRedisError::StreamTrimFailed => "Failed to trim data from the stream in Redis",
        }
    }
}

/// The plain health endpoint's body: the drainer answers it unconditionally.
pub fn health() -> (r: &'static str)
    ensures
        r@ == "Drainer health is good"@,
{
    "Drainer health is good"
}

/// The stream entry to trim up to, read from what the probe's stream read
/// returned: the identifier of the last entry; an empty read is a failed
/// stream read.
pub fn stream_trim_target(entry_ids: &Vec<u64>) -> (r: Result<u64, HealthCheckRedisError>)
    ensures
        r == if entry_ids@.len() == 0 {
            Err::<u64, HealthCheckRedisError>(HealthCheckRedisError::StreamReadFailed)
        } else {
            Ok::<u64, HealthCheckRedisError>(entry_ids@.last())
        },
{
    if entry_ids.len() == 0 {
        Err(HealthCheckRedisError::StreamReadFailed)
    } else {
        Ok(entry_ids[entry_ids.len() - 1])
    }
}

impl Health {
    /// Aggregates the two probe outcomes into the deep-health-check
    /// response: status 200 exactly when both probes passed, and per-store
    /// status lines carrying either the good-health text or the error's
    /// description.
    pub fn evaluate(db: &Result<(), HealthCheckDBError>, redis: &Result<(), HealthCheckRedisError>) -> (r: (u16, DrainerHealthCheckResponse))
        ensures
            r.0 == 200 || r.0 == 500,
            (r.0 == 200) == (db is Ok && redis is Ok),
            r.1.database@ == match db {
                Ok(_) => "Health is good"@,
                Err(e) => spec_db_error_message(*e),
            },
            r.1.redis@ == match redis {
                Ok(_) => "Health is good"@,
                Err(e) => spec_redis_error_message(*e),
            },
    {
        let mut status_code: u16 = 200;
        let database = match db {
            Ok(_) => "Health is good".to_owned(),
            Err(e) => {
                status_code = 500;
                e.message().to_owned()
            },
        };
        let redis_status = match redis {
            Ok(_) => "Health is good".to_owned(),
            Err(e) => {
                status_code = 500;
                e.message().to_owned()
            },
        };
        (status_code, DrainerHealthCheckResponse { database, redis: redis_status })
    }
}

} // verus!
