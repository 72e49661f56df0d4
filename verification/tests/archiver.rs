use dirbackup::archiver::{ArchiveAction, ArchiveError, ArchiveEvent, ArchivePhase, Archiver};

fn failed(cause: &str) -> ArchiveEvent {
    ArchiveEvent::Failed { cause: String::from(cause) }
}

#[test]
fn archiver_fixes_the_file_name_at_the_start() {
    let archiver = Archiver::new(1_700_000_000);
    assert_eq!(archiver.file_name(), "backup-1700000000.tar.gz");
    assert_eq!(archiver.phase(), ArchivePhase::CheckingSource);
    assert_eq!(archiver.pending(), ArchiveAction::CheckSource);
    assert_eq!(archiver.error(), None);
}

#[test]
fn archiver_succeeds_when_every_step_succeeds() {
    let mut archiver = Archiver::new(42);
    assert_eq!(
        archiver.step(ArchiveEvent::SourceChecked { exists: true }),
        ArchiveAction::CreateFile
    );
    assert_eq!(archiver.step(ArchiveEvent::Completed), ArchiveAction::WriteTree);
    assert_eq!(archiver.step(ArchiveEvent::Completed), ArchiveAction::Finish);
    assert_eq!(archiver.step(ArchiveEvent::Completed), ArchiveAction::Succeed);
    assert_eq!(archiver.phase(), ArchivePhase::Succeeded);
    assert_eq!(archiver.error(), None);
    assert_eq!(archiver.file_name(), "backup-42.tar.gz");
}

#[test]
fn archiver_fails_on_a_missing_source() {
    let mut archiver = Archiver::new(42);
    assert_eq!(archiver.step(ArchiveEvent::SourceChecked { exists: false }), ArchiveAction::Fail);
    assert_eq!(archiver.phase(), ArchivePhase::Failed);
    assert_eq!(archiver.error(), Some(&ArchiveError::SourceNotFound));
}

#[test]
fn archiver_never_asks_for_a_file_after_a_missing_source() {
    let mut archiver = Archiver::new(42);
    archiver.step(ArchiveEvent::SourceChecked { exists: false });
    assert_eq!(archiver.step(ArchiveEvent::SourceChecked { exists: true }), ArchiveAction::Fail);
    assert_eq!(archiver.step(ArchiveEvent::Completed), ArchiveAction::Fail);
    assert_eq!(archiver.step(failed("late")), ArchiveAction::Fail);
    assert_eq!(archiver.error(), Some(&ArchiveError::SourceNotFound));
}

#[test]
fn archiver_keeps_the_cause_of_a_failure() {
    let mut creating = Archiver::new(42);
    creating.step(ArchiveEvent::SourceChecked { exists: true });
    assert_eq!(creating.step(failed("permission denied")), ArchiveAction::Fail);
    assert_eq!(
        creating.error(),
        Some(&ArchiveError::Io { cause: String::from("permission denied") })
    );

    let mut writing = Archiver::new(42);
    writing.step(ArchiveEvent::SourceChecked { exists: true });
    writing.step(ArchiveEvent::Completed);
    assert_eq!(writing.step(failed("disk full")), ArchiveAction::Fail);
    assert_eq!(writing.error(), Some(&ArchiveError::Io { cause: String::from("disk full") }));

    let mut finishing = Archiver::new(42);
    finishing.step(ArchiveEvent::SourceChecked { exists: true });
    finishing.step(ArchiveEvent::Completed);
    finishing.step(ArchiveEvent::Completed);
    assert_eq!(finishing.step(failed("flush")), ArchiveAction::Fail);
    assert_eq!(finishing.phase(), ArchivePhase::Failed);

    let mut checking = Archiver::new(42);
    assert_eq!(checking.step(failed("stat")), ArchiveAction::Fail);
    assert_eq!(checking.error(), Some(&ArchiveError::Io { cause: String::from("stat") }));
}

#[test]
fn archiver_fails_on_a_report_out_of_turn() {
    let mut early = Archiver::new(42);
    assert_eq!(early.step(ArchiveEvent::Completed), ArchiveAction::Fail);
    assert_eq!(early.error(), Some(&ArchiveError::OutOfTurn));

    let mut late = Archiver::new(42);
    late.step(ArchiveEvent::SourceChecked { exists: true });
    assert_eq!(late.step(ArchiveEvent::SourceChecked { exists: true }), ArchiveAction::Fail);
    assert_eq!(late.error(), Some(&ArchiveError::OutOfTurn));
}

#[test]
fn archiver_that_has_succeeded_stays_so() {
    let mut archiver = Archiver::new(42);
    archiver.step(ArchiveEvent::SourceChecked { exists: true });
    archiver.step(ArchiveEvent::Completed);
    archiver.step(ArchiveEvent::Completed);
    archiver.step(ArchiveEvent::Completed);
    assert_eq!(archiver.step(failed("late")), ArchiveAction::Succeed);
    assert_eq!(archiver.step(ArchiveEvent::Completed), ArchiveAction::Succeed);
    assert_eq!(archiver.error(), None);
}

#[test]
fn archive_error_messages() {
    assert_eq!(ArchiveError::SourceNotFound.message(), "Source directory does not exist");
    assert_eq!(ArchiveError::Io { cause: String::from("disk full") }.message(), "disk full");
    assert_eq!(ArchiveError::OutOfTurn.message(), "Unexpected report to the archiver");
}
