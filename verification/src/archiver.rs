//! The archiver: the steps by which the source directory becomes one new
//! archive file in the destination directory. The archiver decides; its
//! driver looks at the file system, writes the archive, and reports each
//! outcome back.

use vstd::prelude::*;
use vstd::string::*;
use crate::naming::{archive_file_name, archive_file_name_spec};

verus! {

/// Where an archiving run stands.
#[derive(Clone, Copy, Debug, PartialEq, Eq, Structural)]
pub enum ArchivePhase {
    /// Waiting to learn whether the source directory exists.
    CheckingSource,
    /// Waiting for the archive file to be created.
    CreatingFile,
    /// Waiting for the source tree to be written into the archive.
    WritingTree,
    /// Waiting for the archive to be finalized and flushed.
    Finishing,
    /// The archive is complete.
    Succeeded,
    /// The run has failed.
    Failed,
}

/// What the driver is to do next.
#[derive(Clone, Copy, Debug, PartialEq, Eq, Structural)]
pub enum ArchiveAction {
    /// Find out whether the source directory exists.
    CheckSource,
    /// Create the archive file, under the archiver's file name, in the
    /// destination directory.
    CreateFile,
    /// Write everything under the source directory into the archive, with
    /// paths relative to the source directory.
    WriteTree,
    /// Finalize the archive and flush it to the file.
    Finish,
    /// Stop: the archive is complete.
    Succeed,
    /// Stop: the run has failed; the archiver holds the error.
    Fail,
}

/// What the driver reports.
#[derive(Clone, Debug, PartialEq, Eq)]
pub enum ArchiveEvent {
    /// Whether the source directory exists.
    SourceChecked { exists: bool },
    /// The operation asked for has succeeded.
    Completed,
    /// The operation asked for has failed, for this cause.
    Failed { cause: String },
}

/// Why no archive was made.
#[derive(Clone, Debug, PartialEq, Eq)]
pub enum ArchiveError {
    /// The source directory does not exist.
    SourceNotFound,
    /// Reading the source or writing the archive failed.
    Io { cause: String },
    /// The driver reported something that the archiver had not asked for.
    OutOfTurn,
}

impl ArchiveError {
    /// The text of the error.
    pub open spec fn message_spec(&self) -> Seq<char> {
        match self {
            ArchiveError::SourceNotFound => "Source directory does not exist"@,
            ArchiveError::Io { cause } => cause@,
            ArchiveError::OutOfTurn => "Unexpected report to the archiver"@,
        }
    }

    /// A description of the error for the operator.
    pub fn message(&self) -> (text: String)
        ensures
            text@ == self.message_spec(),
    {
        match self {
            ArchiveError::SourceNotFound => String::from_str("Source directory does not exist"),
            ArchiveError::Io { cause } => cause.clone(),
            ArchiveError::OutOfTurn => String::from_str("Unexpected report to the archiver"),
        }
    }
}

/// The action that a phase asks of the driver.
pub open spec fn action_of(phase: ArchivePhase) -> ArchiveAction {
    match phase {
        ArchivePhase::CheckingSource => ArchiveAction::CheckSource,
        ArchivePhase::CreatingFile => ArchiveAction::CreateFile,
        ArchivePhase::WritingTree => ArchiveAction::WriteTree,
        ArchivePhase::Finishing => ArchiveAction::Finish,
        ArchivePhase::Succeeded => ArchiveAction::Succeed,
        ArchivePhase::Failed => ArchiveAction::Fail,
    }
}

/// Whether a run in `phase` has ended.
pub open spec fn is_ended(phase: ArchivePhase) -> bool {
    phase == ArchivePhase::Succeeded || phase == ArchivePhase::Failed
}

/// The error that `event` brings to a run in `phase` that has not ended,
/// if it brings one.
pub open spec fn error_of(phase: ArchivePhase, event: ArchiveEvent) -> Option<ArchiveError> {
    match (phase, event) {
        (_, ArchiveEvent::Failed { cause }) => Some(ArchiveError::Io { cause }),
        (ArchivePhase::CheckingSource, ArchiveEvent::SourceChecked { exists }) => {
            if exists {
                None
            } else {
                Some(ArchiveError::SourceNotFound)
            }
        },
        (ArchivePhase::CheckingSource, ArchiveEvent::Completed) => Some(ArchiveError::OutOfTurn),
        (_, ArchiveEvent::SourceChecked { .. }) => Some(ArchiveError::OutOfTurn),
        (_, ArchiveEvent::Completed) => None,
    }
}

/// The phase that follows `phase` on `event`.
pub open spec fn next_phase(phase: ArchivePhase, event: ArchiveEvent) -> ArchivePhase {
    if is_ended(phase) {
        phase
    } else if error_of(phase, event) is Some {
        ArchivePhase::Failed
    } else {
        match phase {
            ArchivePhase::CheckingSource => ArchivePhase::CreatingFile,
            ArchivePhase::CreatingFile => ArchivePhase::WritingTree,
            ArchivePhase::WritingTree => ArchivePhase::Finishing,
            _ => ArchivePhase::Succeeded,
        }
    }
}

/// The error that a run holds after `event`, having held `error` in `phase`.
pub open spec fn next_error(
    phase: ArchivePhase,
    error: Option<ArchiveError>,
    event: ArchiveEvent,
) -> Option<ArchiveError> {
    if is_ended(phase) {
        error
    } else {
        error_of(phase, event)
    }
}

/// How far a run has come, with the error of one that has failed.
enum Progress {
    CheckingSource,
    CreatingFile,
    WritingTree,
    Finishing,
    Succeeded,
    Failed(ArchiveError),
}

/// The decisions of one archiving run.
pub struct Archiver {
    file_name: String,
    progress: Progress,
}

impl Archiver {
    /// The name of the archive file, without the directory.
    pub closed spec fn file_name_spec(&self) -> Seq<char> {
        self.file_name@
    }

    /// Where the run stands.
    pub closed spec fn phase_spec(&self) -> ArchivePhase {
        match self.progress {
            Progress::CheckingSource => ArchivePhase::CheckingSource,
            Progress::CreatingFile => ArchivePhase::CreatingFile,
            Progress::WritingTree => ArchivePhase::WritingTree,
            Progress::Finishing => ArchivePhase::Finishing,
            Progress::Succeeded => ArchivePhase::Succeeded,
            Progress::Failed(_) => ArchivePhase::Failed,
        }
    }

    /// The error of a run that has failed; `None` as long as it has not.
    pub closed spec fn error_spec(&self) -> Option<ArchiveError> {
        match self.progress {
            Progress::Failed(error) => Some(error),
            _ => None,
        }
    }

    /// A run holds an error exactly when it has failed.
    pub proof fn lemma_error_iff_failed(&self)
        ensures
            self.error_spec() is Some <==> self.phase_spec() == ArchivePhase::Failed,
    {
    }

    /// A run that starts at `timestamp`, in seconds since the Unix epoch.
    /// The archive's name is fixed here, once. The run begins by asking
    /// whether the source directory exists.
    pub fn new(timestamp: u64) -> (archiver: Archiver)
        ensures
            archiver.file_name_spec() == archive_file_name_spec(timestamp),
            archiver.phase_spec() == ArchivePhase::CheckingSource,
            archiver.error_spec() is None,
    {
        Archiver { file_name: archive_file_name(timestamp), progress: Progress::CheckingSource }
    }

    /// The name of the archive file, without the directory.
    pub fn file_name(&self) -> (name: &str)
        ensures
            name@ == self.file_name_spec(),
    {
        self.file_name.as_str()
    }

    /// Where the run stands.
    pub fn phase(&self) -> (phase: ArchivePhase)
        ensures
            phase == self.phase_spec(),
    {
        match &self.progress {
            Progress::CheckingSource => ArchivePhase::CheckingSource,
            Progress::CreatingFile => ArchivePhase::CreatingFile,
            Progress::WritingTree => ArchivePhase::WritingTree,
            Progress::Finishing => ArchivePhase::Finishing,
            Progress::Succeeded => ArchivePhase::Succeeded,
            Progress::Failed(_) => ArchivePhase::Failed,
        }
    }

    /// The error of a run that has failed; `None` as long as it has not.
    pub fn error(&self) -> (error: Option<&ArchiveError>)
        ensures
            match error {
                Some(e) => self.error_spec() == Some(*e),
                None => self.error_spec() is None,
            },
    {
        match &self.progress {
            Progress::Failed(error) => Some(error),
            _ => None,
        }
    }

    /// What the driver is to do now.
    pub fn pending(&self) -> (action: ArchiveAction)
        ensures
            action == action_of(self.phase_spec()),
    {
        match self.phase() {
            ArchivePhase::CheckingSource => ArchiveAction::CheckSource,
            ArchivePhase::CreatingFile => ArchiveAction::CreateFile,
            ArchivePhase::WritingTree => ArchiveAction::WriteTree,
            ArchivePhase::Finishing => ArchiveAction::Finish,
            ArchivePhase::Succeeded => ArchiveAction::Succeed,
            ArchivePhase::Failed => ArchiveAction::Fail,
        }
    }

    /// Takes the driver's report and says what to do next.
    pub fn step(&mut self, event: ArchiveEvent) -> (action: ArchiveAction)
        ensures
            final(self).file_name_spec() == old(self).file_name_spec(),
            final(self).phase_spec() == next_phase(old(self).phase_spec(), event),
            final(self).error_spec() == next_error(
                old(self).phase_spec(),
                old(self).error_spec(),
                event,
            ),
            action == action_of(final(self).phase_spec()),
    {
        let phase = self.phase();
        match phase {
            ArchivePhase::Succeeded | ArchivePhase::Failed => {
                return self.pending();
            },
            _ => {},
        }
        let next = match event {
            ArchiveEvent::Failed { cause } => Progress::Failed(ArchiveError::Io { cause }),
            ArchiveEvent::SourceChecked { exists } => {
                match phase {
                    ArchivePhase::CheckingSource => {
                        if exists {
                            Progress::CreatingFile
                        } else {
                            Progress::Failed(ArchiveError::SourceNotFound)
                        }
                    },
                    _ => Progress::Failed(ArchiveError::OutOfTurn),
                }
            },
            ArchiveEvent::Completed => {
                match phase {
                    ArchivePhase::CheckingSource => Progress::Failed(ArchiveError::OutOfTurn),
                    ArchivePhase::CreatingFile => Progress::WritingTree,
                    ArchivePhase::WritingTree => Progress::Finishing,
                    _ => Progress::Succeeded,
                }
            },
        };
        self.progress = next;
        self.pending()
    }
}

/// The phase that a run in `phase` reaches when `events` are reported in
/// their order.
pub open spec fn phase_after(phase: ArchivePhase, events: Seq<ArchiveEvent>) -> ArchivePhase
    decreases events.len(),
{
    if events.len() == 0 {
        phase
    } else {
        next_phase(phase_after(phase, events.drop_last()), events.last())
    }
}

/// A run that has ended stays as it is, whatever is reported.
pub proof fn lemma_ended_run_stays_ended(phase: ArchivePhase, events: Seq<ArchiveEvent>)
    requires
        is_ended(phase),
    ensures
        phase_after(phase, events) == phase,
    decreases events.len(),
{
    if events.len() > 0 {
        lemma_ended_run_stays_ended(phase, events.drop_last());
    }
}

/// The archive file is asked for only in answer to the report that the
/// source directory exists, at the start of a run.
pub proof fn lemma_file_needs_source(phase: ArchivePhase, event: ArchiveEvent)
    requires
        next_phase(phase, event) == ArchivePhase::CreatingFile,
    ensures
        phase == ArchivePhase::CheckingSource,
        event matches ArchiveEvent::SourceChecked { exists } && exists,
{
}

/// Where the source directory is missing, the run fails with
/// `SourceNotFound`, and whatever is reported afterwards, no archive file is
/// ever asked for.
pub proof fn lemma_missing_source_creates_nothing(later: Seq<ArchiveEvent>)
    ensures
        next_phase(ArchivePhase::CheckingSource, ArchiveEvent::SourceChecked { exists: false })
            == ArchivePhase::Failed,
        next_error(
            ArchivePhase::CheckingSource,
            None,
            ArchiveEvent::SourceChecked { exists: false },
        ) == Some(ArchiveError::SourceNotFound),
        action_of(phase_after(ArchivePhase::Failed, later)) == ArchiveAction::Fail,
{
    lemma_ended_run_stays_ended(ArchivePhase::Failed, later);
}

/// Where the source exists and every operation succeeds, the run asks for
/// the file, the tree and the finish in this order, and succeeds.
pub proof fn lemma_run_without_failure()
    ensures
        next_phase(ArchivePhase::CheckingSource, ArchiveEvent::SourceChecked { exists: true })
            == ArchivePhase::CreatingFile,
        next_phase(ArchivePhase::CreatingFile, ArchiveEvent::Completed)
            == ArchivePhase::WritingTree,
        next_phase(ArchivePhase::WritingTree, ArchiveEvent::Completed) == ArchivePhase::Finishing,
        next_phase(ArchivePhase::Finishing, ArchiveEvent::Completed) == ArchivePhase::Succeeded,
{
}

/// A failure reported to a run that has not ended fails the run, with the
/// cause reported.
pub proof fn lemma_failure_fails_run(phase: ArchivePhase, cause: String)
    requires
        !is_ended(phase),
    ensures
        next_phase(phase, ArchiveEvent::Failed { cause }) == ArchivePhase::Failed,
        next_error(phase, None, ArchiveEvent::Failed { cause }) == Some(
            ArchiveError::Io { cause },
        ),
{
}

} // verus!
