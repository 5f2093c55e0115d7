use healthsvc::DatabaseError;
use healthsvc::HealthCheckRepository;
use healthsvc::HealthCheckRepositoryImpl;
use healthsvc::ProbeOutcome;
use healthsvc::connect_database_with;
use healthsvc::health_check;
use healthsvc::health_check_db;
use healthsvc::probe_statement;
use healthsvc::DatabaseConfig;

fn local_config() -> DatabaseConfig {
    DatabaseConfig::new(
        String::from("localhost"),
        5432,
        String::from("app"),
        String::from("passwd"),
        String::from("app"),
    )
}

#[test]
fn health_check_works() {
    let status_code = health_check();
    assert_eq!(status_code, 200);
}

#[test]
fn health_check_db_works() {
    let repo = HealthCheckRepositoryImpl::new(connect_database_with(&local_config()));
    let probe = repo.interpret_probe(ProbeOutcome::Reached);
    let status_code = health_check_db(probe);
    assert_eq!(status_code, 200);
}

#[test]
fn health_check_db_fails_when_store_unreached() {
    let repo = HealthCheckRepositoryImpl::new(connect_database_with(&local_config()));
    let probe = repo.interpret_probe(ProbeOutcome::Unreached);
    assert_eq!(probe, Err(DatabaseError));
    let status_code = health_check_db(probe);
    assert_eq!(status_code, 500);
}

#[test]
fn liveness_unaffected_by_store_fault() {
    let status_db = health_check_db(Err(DatabaseError));
    assert_eq!(status_db, 500);
    assert_eq!(health_check(), 200);
    let status_db_ok = health_check_db(Ok(()));
    assert_eq!(status_db_ok, 200);
    assert_eq!(health_check(), 200);
}

#[test]
fn readiness_reflects_each_probe() {
    let repo = HealthCheckRepositoryImpl::new(connect_database_with(&local_config()));
    let outcomes = vec![
        ProbeOutcome::Reached,
        ProbeOutcome::Unreached,
        ProbeOutcome::Reached,
    ];
    let mut statuses: Vec<u16> = Vec::new();
    for outcome in outcomes {
        statuses.push(health_check_db(repo.interpret_probe(outcome)));
    }
    assert_eq!(statuses, vec![200, 500, 200]);
}

#[test]
fn two_successful_probes_both_succeed() {
    let pool = connect_database_with(&local_config());
    let first = HealthCheckRepositoryImpl::new(pool.clone());
    let second = HealthCheckRepositoryImpl::new(pool);
    let status_first = health_check_db(first.interpret_probe(ProbeOutcome::Reached));
    let status_second = health_check_db(second.interpret_probe(ProbeOutcome::Reached));
    assert_eq!(status_first, 200);
    assert_eq!(status_second, 200);
}

#[test]
fn probe_statement_is_trivial_select() {
    assert_eq!(probe_statement(), "SELECT 1");
}
