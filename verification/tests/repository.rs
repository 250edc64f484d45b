use gachadata_server::clock::{StalenessThreshold, Timestamp};
use gachadata_server::config::MySQL;
use gachadata_server::domain::GachaDataRepository;
use gachadata_server::error::{ProcessFailure, RefreshError};
use gachadata_server::export::{ProcessOutcome, UpdateAction};
use gachadata_server::infra_repository_impls::MySQLDumpConnection;

fn connection() -> MySQLDumpConnection {
    MySQLDumpConnection::new(MySQL {
        host: "db.internal".to_string(),
        port: 3306,
        user: "exporter".to_string(),
        password: "s3cret".to_string(),
    })
}

fn success(output: &[u8]) -> ProcessOutcome {
    ProcessOutcome::Exited { code: 0, stdout: output.to_vec() }
}

#[test]
fn new_connection_has_no_dump() {
    let repository = connection();
    assert_eq!(repository.connection_information.host, "db.internal");
    assert_eq!(repository.connection_information.port, 3306);
    let held = repository.dump.read();
    assert!(held.dump.is_empty());
    assert_eq!(held.dump_time, None);
}

#[test]
fn successful_run_installs_output_and_time() {
    let mut repository = connection();
    let result = repository.run_gachadata_dump(success(b"DUMP1"), Timestamp::from_secs(100));
    assert_eq!(result, Ok(()));
    let held = repository.dump.read();
    assert_eq!(&held.dump.0[..], b"DUMP1");
    assert_eq!(held.dump_time, Some(Timestamp::from_secs(100)));
}

#[test]
fn successful_run_without_output_is_installed_too() {
    let mut repository = connection();
    repository.run_gachadata_dump(success(b"DUMP1"), Timestamp::from_secs(100)).unwrap();
    let result = repository.run_gachadata_dump(success(b""), Timestamp::from_secs(200));
    assert_eq!(result, Ok(()));
    let held = repository.dump.read();
    assert!(held.dump.is_empty());
    assert_eq!(held.dump_time, Some(Timestamp::from_secs(200)));
}

#[test]
fn nonzero_exit_is_a_failure_and_changes_nothing() {
    let mut repository = connection();
    repository.run_gachadata_dump(success(b"DUMP1"), Timestamp::from_secs(100)).unwrap();
    let result = repository.run_gachadata_dump(
        ProcessOutcome::Exited { code: 2, stdout: b"partial".to_vec() },
        Timestamp::from_secs(200),
    );
    assert_eq!(result, Err(RefreshError::ProcessFailed(ProcessFailure::ExitedWith(2))));
    let held = repository.dump.read();
    assert_eq!(&held.dump.0[..], b"DUMP1");
    assert_eq!(held.dump_time, Some(Timestamp::from_secs(100)));
}

#[test]
fn negative_exit_code_is_a_failure() {
    let mut repository = connection();
    let result = repository.run_gachadata_dump(
        ProcessOutcome::Exited { code: -1, stdout: b"x".to_vec() },
        Timestamp::from_secs(200),
    );
    assert_eq!(result, Err(RefreshError::ProcessFailed(ProcessFailure::ExitedWith(-1))));
    assert!(repository.dump.read().dump.is_empty());
    assert_eq!(repository.dump.read().dump_time, None);
}

#[test]
fn killed_run_is_a_failure_and_changes_nothing() {
    let mut repository = connection();
    repository.run_gachadata_dump(success(b"DUMP1"), Timestamp::from_secs(100)).unwrap();
    let result = repository.run_gachadata_dump(ProcessOutcome::Killed, Timestamp::from_secs(200));
    assert_eq!(result, Err(RefreshError::ProcessFailed(ProcessFailure::Killed)));
    let held = repository.dump.read();
    assert_eq!(&held.dump.0[..], b"DUMP1");
    assert_eq!(held.dump_time, Some(Timestamp::from_secs(100)));
}

#[test]
fn run_that_did_not_start_is_a_failure_and_changes_nothing() {
    let mut repository = connection();
    repository.run_gachadata_dump(success(b"DUMP1"), Timestamp::from_secs(100)).unwrap();
    let result =
        repository.run_gachadata_dump(ProcessOutcome::NotStarted, Timestamp::from_secs(200));
    assert_eq!(result, Err(RefreshError::ProcessFailed(ProcessFailure::NotStarted)));
    let held = repository.dump.read();
    assert_eq!(&held.dump.0[..], b"DUMP1");
    assert_eq!(held.dump_time, Some(Timestamp::from_secs(100)));
}

#[test]
fn timed_out_run_is_a_failure_and_changes_nothing() {
    let mut repository = connection();
    repository.run_gachadata_dump(success(b"DUMP1"), Timestamp::from_secs(100)).unwrap();
    let result = repository.run_gachadata_dump(ProcessOutcome::TimedOut, Timestamp::from_secs(200));
    assert_eq!(result, Err(RefreshError::ProcessFailed(ProcessFailure::TimedOut)));
    let held = repository.dump.read();
    assert_eq!(&held.dump.0[..], b"DUMP1");
    assert_eq!(held.dump_time, Some(Timestamp::from_secs(100)));
}

#[test]
fn failure_on_a_new_connection_leaves_the_initial_snapshot() {
    let mut repository = connection();
    let result = repository.run_gachadata_dump(ProcessOutcome::NotStarted, Timestamp::from_secs(5));
    assert!(result.is_err());
    let held = repository.dump.read();
    assert!(held.dump.is_empty());
    assert_eq!(held.dump_time, None);
}

#[test]
fn update_asks_for_a_dump_when_none_was_taken() {
    let repository = connection();
    let action =
        repository.update_gachadata(Timestamp::from_secs(0), StalenessThreshold::quarter_hour());
    match action {
        UpdateAction::RunDump(command) => {
            assert_eq!(command.program, "mariadb-dump");
            assert_eq!(
                command.arguments,
                vec![
                    "--host",
                    "db.internal",
                    "--port",
                    "3306",
                    "--user",
                    "exporter",
                    "-ps3cret",
                    "seichiassist",
                    "gachadata",
                    "gacha_events",
                ]
            );
        }
        UpdateAction::UpToDate => panic!("a dump that was never taken is stale"),
    }
}

#[test]
fn update_follows_the_age_of_the_dump() {
    let mut repository = connection();
    repository.run_gachadata_dump(success(b"DUMP1"), Timestamp::from_secs(1_000)).unwrap();
    let quarter = StalenessThreshold::quarter_hour();
    assert!(matches!(
        repository.update_gachadata(Timestamp::from_secs(1_300), quarter),
        UpdateAction::UpToDate
    ));
    assert!(matches!(
        repository.update_gachadata(Timestamp::from_secs(1_900), quarter),
        UpdateAction::UpToDate
    ));
    assert!(matches!(
        repository.update_gachadata(Timestamp::from_secs(1_901), quarter),
        UpdateAction::RunDump(_)
    ));
    assert!(matches!(
        repository.update_gachadata(Timestamp::from_secs(1_300), StalenessThreshold::from_secs(60)),
        UpdateAction::RunDump(_)
    ));
    // Asking changes nothing.
    let held = repository.dump.read();
    assert_eq!(&held.dump.0[..], b"DUMP1");
    assert_eq!(held.dump_time, Some(Timestamp::from_secs(1_000)));
}
