use stoic_wisdom_api::dialect::Dialect;
use stoic_wisdom_api::pool::{
    after_connect, contains_ignore_ascii_case, database_url, fallback_settings, has_prefix,
    memory_resident, pool_settings, ConnectStage, ConnectStep, DbPool,
    FALLBACK_DATABASE_URL,
};
use stoic_wisdom_api::readiness::{
    health_response, readiness_response, MigrationAction, MigrationController, MigrationPhase,
};

#[test]
fn memory_storage_gets_one_connection() {
    for url in ["sqlite::memory:", "sqlite::MEMORY:", "sqlite:file::Memory:?cache=shared"] {
        let s = pool_settings(url);
        assert_eq!(s.dialect, Dialect::Sqlite);
        assert_eq!(s.max_connections, 1);
        assert_eq!(s.url, url);
    }
}

#[test]
fn persistent_storage_gets_larger_pool() {
    let s = pool_settings("sqlite:stoic_wisdom.db");
    assert_eq!(s.dialect, Dialect::Sqlite);
    assert_eq!(s.max_connections, 5);
    let pg = pool_settings("postgres://user@localhost/quotes");
    assert_eq!(pg.dialect, Dialect::Postgres);
    assert_eq!(pg.max_connections, 5);
    let pg_named_memory = pool_settings("postgresql://localhost/memory");
    assert_eq!(pg_named_memory.dialect, Dialect::Postgres);
    assert_eq!(pg_named_memory.max_connections, 5);
}

#[test]
fn text_matching_helpers() {
    assert!(has_prefix("postgres://x", "postgres"));
    assert!(!has_prefix("postgre", "postgres"));
    assert!(has_prefix("", ""));
    assert!(contains_ignore_ascii_case("xxMeMoRyxx", "memory"));
    assert!(!contains_ignore_ascii_case("memor", "memory"));
    assert!(!memory_resident("sqlite:data.db"));
    assert!(memory_resident("MEMORY"));
}

#[test]
fn default_database_url() {
    assert_eq!(database_url(None), "sqlite:stoic_wisdom.db");
    assert_eq!(database_url(Some("postgres://h/d".to_string())), "postgres://h/d");
}

#[test]
fn connection_fallback_once() {
    assert!(matches!(after_connect(ConnectStage::Configured, true), ConnectStep::Proceed));
    match after_connect(ConnectStage::Configured, false) {
        ConnectStep::OpenFallback(s) => {
            assert_eq!(s.dialect, Dialect::Sqlite);
            assert_eq!(s.url, FALLBACK_DATABASE_URL);
            assert_eq!(s.max_connections, 1);
        }
        other => panic!("unexpected {:?}", other),
    }
    assert!(matches!(after_connect(ConnectStage::Fallback, false), ConnectStep::Fatal));
    assert!(matches!(after_connect(ConnectStage::Fallback, true), ConnectStep::Proceed));
    let f = fallback_settings();
    assert_eq!(f.url, "sqlite:file::memory:?cache=shared");
}

#[test]
fn pool_handle_accessors() {
    let lite: DbPool<u8, i32> = DbPool::Sqlite(4);
    assert_eq!(lite.dialect(), Dialect::Sqlite);
    assert_eq!(lite.sqlite_pool(), Some(&4));
    assert_eq!(lite.postgres_pool(), None);
    let pg: DbPool<u8, i32> = DbPool::Postgres(-2);
    assert_eq!(pg.dialect(), Dialect::Postgres);
    assert_eq!(pg.sqlite_pool(), None);
    assert_eq!(pg.postgres_pool(), Some(&-2));
}

#[test]
fn migration_ready_on_third_attempt() {
    let mut c = MigrationController::new();
    assert_eq!(c.phase(), MigrationPhase::NotReady);
    assert!(!c.is_ready());
    assert_eq!(c.start(), MigrationAction::RunMigrations);
    assert_eq!(c.on_attempt_result(false), MigrationAction::RetryAfter(500));
    assert!(!c.is_ready());
    assert_eq!(c.attempts(), 2);
    assert_eq!(c.on_attempt_result(false), MigrationAction::RetryAfter(500));
    assert!(!c.is_ready());
    assert_eq!(c.attempts(), 3);
    assert_eq!(c.on_attempt_result(true), MigrationAction::MarkReady);
    assert!(c.is_ready());
    assert_eq!(c.phase(), MigrationPhase::Ready);
    assert_eq!(c.attempts(), 3);
}

#[test]
fn migration_ready_on_first_attempt() {
    let mut c = MigrationController::new();
    c.start();
    assert_eq!(c.on_attempt_result(true), MigrationAction::MarkReady);
    assert_eq!(c.attempts(), 1);
    assert!(c.is_ready());
}

#[test]
fn migration_exhaustion_terminates() {
    let mut c = MigrationController::new();
    c.start();
    assert_eq!(c.on_attempt_result(false), MigrationAction::RetryAfter(500));
    assert_eq!(c.on_attempt_result(false), MigrationAction::RetryAfter(500));
    assert_eq!(c.on_attempt_result(false), MigrationAction::Terminate);
    assert_eq!(c.phase(), MigrationPhase::Aborted);
    assert!(!c.is_ready());
}

#[test]
fn probes() {
    assert_eq!(readiness_response(true), "READY");
    assert_eq!(readiness_response(false), "NOT_READY");
    assert_eq!(health_response(true), Ok("OK".to_string()));
    assert_eq!(health_response(false), Err(500));
}
