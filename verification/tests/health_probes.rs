use payments_core::health::{
    stream_trim_target, DbFaultKind, Health, HealthCheckDBError, HealthCheckRedisError,
};

#[test]
fn both_probes_good_is_status_200() {
    let (code, body) = Health::evaluate(&Ok(()), &Ok(()));
    assert_eq!(code, 200);
    assert_eq!(body.database, "Health is good".to_string());
    assert_eq!(body.redis, "Health is good".to_string());
}

#[test]
fn database_failure_is_status_500_with_its_message() {
    let (code, body) = Health::evaluate(&Err(HealthCheckDBError::DBReadError), &Ok(()));
    assert_eq!(code, 500);
    assert_eq!(
        body.database,
        "Error while reading element in the database".to_string()
    );
    assert_eq!(body.redis, "Health is good".to_string());
}

#[test]
fn redis_failure_is_status_500_with_its_message() {
    let (code, body) = Health::evaluate(&Ok(()), &Err(HealthCheckRedisError::StreamTrimFailed));
    assert_eq!(code, 500);
    assert_eq!(body.database, "Health is good".to_string());
    assert_eq!(
        body.redis,
        "Failed to trim data from the stream in Redis".to_string()
    );
}

#[test]
fn driver_faults_classify_like_the_taxonomy() {
    assert_eq!(
        HealthCheckDBError::from_fault(DbFaultKind::DatabaseFault),
        HealthCheckDBError::DBError
    );
    assert_eq!(
        HealthCheckDBError::from_fault(DbFaultKind::RollbackErrorOnCommit),
        HealthCheckDBError::TransactionError
    );
    assert_eq!(
        HealthCheckDBError::from_fault(DbFaultKind::RollbackTransaction),
        HealthCheckDBError::TransactionError
    );
    assert_eq!(
        HealthCheckDBError::from_fault(DbFaultKind::AlreadyInTransaction),
        HealthCheckDBError::TransactionError
    );
    assert_eq!(
        HealthCheckDBError::from_fault(DbFaultKind::NotInTransaction),
        HealthCheckDBError::TransactionError
    );
    assert_eq!(
        HealthCheckDBError::from_fault(DbFaultKind::BrokenTransactionManager),
        HealthCheckDBError::TransactionError
    );
    assert_eq!(
        HealthCheckDBError::from_fault(DbFaultKind::OtherFault),
        HealthCheckDBError::UnknownError
    );
}

#[test]
fn stream_trim_target_is_the_last_entry() {
    let ids: Vec<u64> = vec![3, 9, 27];
    assert_eq!(stream_trim_target(&ids), Ok(27));
}

#[test]
fn empty_stream_read_is_a_failed_read() {
    let ids: Vec<u64> = Vec::new();
    assert_eq!(
        stream_trim_target(&ids),
        Err(HealthCheckRedisError::StreamReadFailed)
    );
}

#[test]
fn plain_health_body_is_constant() {
    assert_eq!(payments_core::health::health(), "Drainer health is good");
}
