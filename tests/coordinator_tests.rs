use rust_backend::coordinator::{import_outcome, Coordinator, Dataset, Step, LOCK_NAMESPACE};
use rust_backend::errors::{DataImportError, MigrationError};
use rust_backend::lock_key::generate_lock_key;

const ORDER: [Dataset; 7] = [
    Dataset::Manufacturers,
    Dataset::Categories,
    Dataset::Parts,
    Dataset::CpuSpecs,
    Dataset::GpuSpecs,
    Dataset::MemorySpecs,
    Dataset::StorageSpecs,
];

#[test]
fn missing_target_fails_before_any_lock() {
    let (c, step) = Coordinator::start(LOCK_NAMESPACE, None);
    assert!(c.is_finished());
    assert!(matches!(step, Step::Finish(Err(MigrationError::EnvVarError(_)))));
}

#[test]
fn first_step_requests_the_namespace_lock() {
    let (c, step) = Coordinator::start("rust_backend", Some(String::from("postgres://db/app")));
    assert!(!c.is_finished());
    assert_eq!(
        step,
        Step::AcquireLock {
            database_url: String::from("postgres://db/app"),
            lock_key: generate_lock_key("rust_backend"),
        }
    );
}

#[test]
fn unreachable_database_ends_with_connection_error() {
    let (mut c, _) = Coordinator::start(LOCK_NAMESPACE, Some(String::from("invalid_url")));
    let step = c.advance(Err(MigrationError::ConnectionError(String::from("bad url"))));
    assert_eq!(
        step,
        Step::Finish(Err(MigrationError::ConnectionError(String::from("bad url"))))
    );
    assert!(c.is_finished());
}

#[test]
fn successful_run_migrates_then_imports_in_dependency_order() {
    let (mut c, first) = Coordinator::start(LOCK_NAMESPACE, Some(String::from("postgres://db")));
    assert!(matches!(first, Step::AcquireLock { .. }));
    assert_eq!(c.advance(Ok(())), Step::RunMigrations);
    for d in ORDER {
        assert_eq!(c.advance(Ok(())), Step::Import(d));
    }
    assert_eq!(c.advance(Ok(())), Step::Finish(Ok(())));
    assert!(c.is_finished());
}

#[test]
fn migration_failure_skips_the_import() {
    let (mut c, _) = Coordinator::start(LOCK_NAMESPACE, Some(String::from("postgres://db")));
    assert_eq!(c.advance(Ok(())), Step::RunMigrations);
    let step = c.advance(Err(MigrationError::MigrationError(String::from("v2 failed"))));
    assert_eq!(step, Step::Finish(Err(MigrationError::MigrationError(String::from("v2 failed")))));
    assert!(c.is_finished());
}

#[test]
fn missing_manufacturers_source_ends_the_import() {
    let (mut c, _) = Coordinator::start(LOCK_NAMESPACE, Some(String::from("postgres://db")));
    c.advance(Ok(()));
    assert_eq!(c.advance(Ok(())), Step::Import(Dataset::Manufacturers));
    let outcome = import_outcome(Err(DataImportError::IOError(String::from("not found"))));
    assert_eq!(
        c.advance(outcome),
        Step::Finish(Err(MigrationError::DataImportError(DataImportError::IOError(String::from(
            "not found"
        )))))
    );
    assert!(c.is_finished());
}

#[test]
fn import_outcome_wraps_failures() {
    assert_eq!(import_outcome(Ok(())), Ok(()));
    assert_eq!(
        import_outcome(Err(DataImportError::CSVError(String::from("x")))),
        Err(MigrationError::DataImportError(DataImportError::CSVError(String::from("x"))))
    );
}

#[test]
fn dataset_order_and_sources() {
    for i in 0..6 {
        assert_eq!(ORDER[i].next(), Some(ORDER[i + 1]));
    }
    assert_eq!(Dataset::StorageSpecs.next(), None);
    assert_eq!(Dataset::Manufacturers.source_path(), "./data/csv/manufacturers.csv");
    assert_eq!(Dataset::GpuSpecs.source_path(), "./data/csv/gpu_specs.csv");
    assert_eq!(Dataset::StorageSpecs.source_path(), "./data/csv/storage_specs.csv");
}

#[test]
fn error_messages_name_the_failure() {
    let e = MigrationError::EnvVarError(String::from("DATABASE_URL is not set"));
    assert_eq!(e.message(), "Environment variable error: DATABASE_URL is not set");
    let e = MigrationError::DataImportError(DataImportError::IOError(String::from("gone")));
    assert_eq!(e.message(), "Data import error: IO error: gone");
    let e = MigrationError::ConnectionError(String::from("refused"));
    assert_eq!(e.message(), "Connection error: refused");
}
