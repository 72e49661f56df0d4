//! The retention pruner: which entries of the destination directory are
//! removed. The pruner decides; its driver lists the directory, reads
//! modification times and removes files, and reports each outcome back.

use vstd::prelude::*;
use vstd::string::*;
use crate::extension::{is_archive_name, is_archive_name_spec};
use crate::retention::{is_expired, is_expired_spec};

verus! {

/// Where a pruning run stands.
#[derive(Clone, Copy, Debug, PartialEq, Eq, Structural)]
pub enum PrunePhase {
    /// Waiting for the next entry of the directory.
    Listing,
    /// Waiting for the modification time of the entry last seen.
    Examining,
    /// Waiting for the removal of the entry last seen.
    Removing,
    /// The listing is exhausted; the run has succeeded.
    Finished,
    /// An operation failed, or an event came out of turn; the run has failed.
    Aborted,
}

/// What the driver is to do next.
#[derive(Clone, Copy, Debug, PartialEq, Eq, Structural)]
pub enum PruneAction {
    /// Read the next entry of the directory and report it, or the end.
    ReadEntry,
    /// Read the modification time of the entry last reported.
    ReadModified,
    /// Remove the entry last reported.
    Remove,
    /// Stop: the run has succeeded.
    Finish,
    /// Stop: the run has failed.
    Abort,
}

/// What the driver reports.
#[derive(Clone, Debug, PartialEq, Eq)]
pub enum PruneEvent {
    /// The directory holds another entry, with this file name; `is_file`
    /// says whether it is a regular file.
    Entry { name: String, is_file: bool },
    /// The directory holds no further entry.
    EndOfListing,
    /// The entry last reported was last modified at this time, in seconds
    /// since the Unix epoch.
    Modified(u64),
    /// The entry last reported has been removed.
    Removed,
    /// The operation asked for has failed.
    Failed,
}

/// The action that a phase asks of the driver.
pub open spec fn action_of(phase: PrunePhase) -> PruneAction {
    match phase {
        PrunePhase::Listing => PruneAction::ReadEntry,
        PrunePhase::Examining => PruneAction::ReadModified,
        PrunePhase::Removing => PruneAction::Remove,
        PrunePhase::Finished => PruneAction::Finish,
        PrunePhase::Aborted => PruneAction::Abort,
    }
}

/// Whether an entry is looked at more closely: a regular file whose name
/// carries the archive extension.
pub open spec fn is_candidate_spec(name: Seq<char>, is_file: bool) -> bool {
    is_file && is_archive_name_spec(name)
}

/// The phase that follows `phase` on `event`, for a run at time `now` with
/// a window of `retention_hours` hours.
pub open spec fn next_phase(
    phase: PrunePhase,
    now: u64,
    retention_hours: u64,
    event: PruneEvent,
) -> PrunePhase {
    match (phase, event) {
        (PrunePhase::Finished, _) => PrunePhase::Finished,
        (PrunePhase::Listing, PruneEvent::Entry { name, is_file }) => {
            if is_candidate_spec(name@, is_file) {
                PrunePhase::Examining
            } else {
                PrunePhase::Listing
            }
        },
        (PrunePhase::Listing, PruneEvent::EndOfListing) => PrunePhase::Finished,
        (PrunePhase::Examining, PruneEvent::Modified(modified)) => {
            if is_expired_spec(now, modified, retention_hours) {
                PrunePhase::Removing
            } else {
                PrunePhase::Listing
            }
        },
        (PrunePhase::Removing, PruneEvent::Removed) => PrunePhase::Listing,
        _ => PrunePhase::Aborted,
    }
}

/// The decisions of one pruning run.
pub struct Pruner {
    now: u64,
    retention_hours: u64,
    phase: PrunePhase,
}

impl Pruner {
    /// The time of the run, in seconds since the Unix epoch.
    pub closed spec fn now_spec(&self) -> u64 {
        self.now
    }

    /// The retention window of the run, in hours.
    pub closed spec fn retention_hours_spec(&self) -> u64 {
        self.retention_hours
    }

    /// Where the run stands.
    pub closed spec fn phase_spec(&self) -> PrunePhase {
        self.phase
    }

    /// A run at time `now` that keeps archives for `retention_hours` hours.
    /// It begins by asking for the first entry.
    pub fn new(now: u64, retention_hours: u64) -> (pruner: Pruner)
        ensures
            pruner.now_spec() == now,
            pruner.retention_hours_spec() == retention_hours,
            pruner.phase_spec() == PrunePhase::Listing,
    {
        Pruner { now, retention_hours, phase: PrunePhase::Listing }
    }

    /// Where the run stands.
    pub fn phase(&self) -> (phase: PrunePhase)
        ensures
            phase == self.phase_spec(),
    {
        self.phase
    }

    /// What the driver is to do now.
    pub fn pending(&self) -> (action: PruneAction)
        ensures
            action == action_of(self.phase_spec()),
    {
        match self.phase {
            PrunePhase::Listing => PruneAction::ReadEntry,
            PrunePhase::Examining => PruneAction::ReadModified,
            PrunePhase::Removing => PruneAction::Remove,
            PrunePhase::Finished => PruneAction::Finish,
            PrunePhase::Aborted => PruneAction::Abort,
        }
    }

    /// Takes the driver's report and says what to do next.
    pub fn step(&mut self, event: PruneEvent) -> (action: PruneAction)
        ensures
            final(self).now_spec() == old(self).now_spec(),
            final(self).retention_hours_spec() == old(self).retention_hours_spec(),
            final(self).phase_spec() == next_phase(
                old(self).phase_spec(),
                old(self).now_spec(),
                old(self).retention_hours_spec(),
                event,
            ),
            action == action_of(final(self).phase_spec()),
    {
        let next = match self.phase {
            PrunePhase::Finished => PrunePhase::Finished,
            PrunePhase::Aborted => PrunePhase::Aborted,
            PrunePhase::Listing => match event {
                PruneEvent::Entry { name, is_file } => {
                    if is_file && is_archive_name(name.as_str()) {
                        PrunePhase::Examining
                    } else {
                        PrunePhase::Listing
                    }
                },
                PruneEvent::EndOfListing => PrunePhase::Finished,
                _ => PrunePhase::Aborted,
            },
            PrunePhase::Examining => match event {
                PruneEvent::Modified(modified) => {
                    if is_expired(self.now, modified, self.retention_hours) {
                        PrunePhase::Removing
                    } else {
                        PrunePhase::Listing
                    }
                },
                _ => PrunePhase::Aborted,
            },
            PrunePhase::Removing => match event {
                PruneEvent::Removed => PrunePhase::Listing,
                _ => PrunePhase::Aborted,
            },
        };
        self.phase = next;
        self.pending()
    }
}

/// An entry of the destination directory, as a listing shows it.
#[derive(Clone, Debug, PartialEq, Eq)]
pub struct ListedEntry {
    /// The file name, without the directory.
    pub name: String,
    /// Whether the entry is a regular file.
    pub is_file: bool,
    /// The time of last modification, in seconds since the Unix epoch.
    pub modified: u64,
}

/// Whether a run at time `now` with a window of `retention_hours` hours
/// removes `entry`.
pub open spec fn is_removed_spec(entry: ListedEntry, now: u64, retention_hours: u64) -> bool {
    is_candidate_spec(entry.name@, entry.is_file) && is_expired_spec(
        now,
        entry.modified,
        retention_hours,
    )
}

/// Whether `removed` lists, in rising order, exactly the positions of the
/// entries that a run removes.
pub open spec fn lists_removed(
    removed: Seq<usize>,
    entries: Seq<ListedEntry>,
    now: u64,
    retention_hours: u64,
) -> bool {
    &&& forall|k: int|
        0 <= k < removed.len() ==> (#[trigger] removed[k]) < entries.len() && is_removed_spec(
            entries[removed[k] as int],
            now,
            retention_hours,
        )
    &&& forall|k: int, l: int| 0 <= k < l < removed.len() ==> removed[k] < removed[l]
    &&& forall|i: int|
        0 <= i < entries.len() && is_removed_spec(#[trigger] entries[i], now, retention_hours)
            ==> exists|k: int| 0 <= k < removed.len() && removed[k] == i
}

/// Runs a pruner over a listing and returns the positions of the entries
/// that it asks to remove, taking every operation to succeed.
pub fn removed_entries(entries: &Vec<ListedEntry>, now: u64, retention_hours: u64) -> (removed:
    Vec<usize>)
    ensures
        lists_removed(removed@, entries@, now, retention_hours),
{
    let mut pruner = Pruner::new(now, retention_hours);
    let mut removed: Vec<usize> = Vec::new();
    let mut i: usize = 0;
    while i < entries.len()
        invariant
            i <= entries.len(),
            pruner.now_spec() == now,
            pruner.retention_hours_spec() == retention_hours,
            pruner.phase_spec() == PrunePhase::Listing,
            lists_removed(removed@, entries@.subrange(0, i as int), now, retention_hours),
        decreases entries.len() - i,
    {
        let ghost before = removed@;
        let ghost seen = entries@.subrange(0, i as int);
        let ghost seen_next = entries@.subrange(0, i + 1);
        let entry = &entries[i];
        let event = PruneEvent::Entry { name: entry.name.clone(), is_file: entry.is_file };
        let mut action = pruner.step(event);
        if action == PruneAction::ReadModified {
            action = pruner.step(PruneEvent::Modified(entry.modified));
            if action == PruneAction::Remove {
                removed.push(i);
                pruner.step(PruneEvent::Removed);
            }
        }
        proof {
            assert forall|j: int| 0 <= j < i implies seen_next[j] == seen[j] by {}
            if is_removed_spec(entries@[i as int], now, retention_hours) {
                assert(removed@[before.len() as int] == i);
                assert forall|j: int|
                    0 <= j < seen_next.len() && is_removed_spec(
                        #[trigger] seen_next[j],
                        now,
                        retention_hours,
                    ) implies exists|k: int| 0 <= k < removed@.len() && removed@[k] == j by {
                    if j < i {
                        let k = choose|k: int| 0 <= k < before.len() && before[k] == j;
                        assert(removed@[k] == j);
                    }
                }
            } else {
                assert forall|j: int|
                    0 <= j < seen_next.len() && is_removed_spec(
                        #[trigger] seen_next[j],
                        now,
                        retention_hours,
                    ) implies exists|k: int| 0 <= k < removed@.len() && removed@[k] == j by {
                    assert(is_removed_spec(seen[j], now, retention_hours));
                }
            }
        }
        i += 1;
    }
    assert(entries@.subrange(0, i as int) =~= entries@);
    removed
}

/// The listing that a run leaves behind: the entries it does not remove,
/// in their order.
pub open spec fn survivors(entries: Seq<ListedEntry>, now: u64, retention_hours: u64) -> Seq<
    ListedEntry,
> {
    entries.filter(|e: ListedEntry| !is_removed_spec(e, now, retention_hours))
}

/// An entry whose name does not carry the archive extension is never
/// removed, however old it is: the pruner does not even ask for its
/// modification time.
pub proof fn lemma_other_extension_kept(
    entry: ListedEntry,
    now: u64,
    retention_hours: u64,
)
    requires
        !is_archive_name_spec(entry.name@),
    ensures
        !is_removed_spec(entry, now, retention_hours),
        next_phase(
            PrunePhase::Listing,
            now,
            retention_hours,
            PruneEvent::Entry { name: entry.name, is_file: entry.is_file },
        ) == PrunePhase::Listing,
{
}

/// An entry that is not a regular file is never removed, whatever its name
/// and age: the pruner does not even ask for its modification time.
pub proof fn lemma_directory_kept(entry: ListedEntry, now: u64, retention_hours: u64)
    requires
        !entry.is_file,
    ensures
        !is_removed_spec(entry, now, retention_hours),
        next_phase(
            PrunePhase::Listing,
            now,
            retention_hours,
            PruneEvent::Entry { name: entry.name, is_file: entry.is_file },
        ) == PrunePhase::Listing,
{
}

/// The pruner asks for a removal only in answer to the modification time
/// of a candidate, and only where that time is expired.
pub proof fn lemma_removal_needs_expiry(
    phase: PrunePhase,
    now: u64,
    retention_hours: u64,
    event: PruneEvent,
)
    requires
        next_phase(phase, now, retention_hours, event) == PrunePhase::Removing,
    ensures
        phase == PrunePhase::Examining,
        event matches PruneEvent::Modified(modified) && is_expired_spec(
            now,
            modified,
            retention_hours,
        ),
{
}

/// A run that has finished or failed stays so, whatever is reported.
pub proof fn lemma_ended_run_stays_ended(
    phase: PrunePhase,
    now: u64,
    retention_hours: u64,
    event: PruneEvent,
)
    requires
        phase == PrunePhase::Finished || phase == PrunePhase::Aborted,
    ensures
        next_phase(phase, now, retention_hours, event) == phase,
{
}

/// A second run at the same time and with the same window, over what the
/// first run left, removes nothing.
pub proof fn lemma_second_run_removes_nothing(
    entries: Seq<ListedEntry>,
    now: u64,
    retention_hours: u64,
    removed_again: Seq<usize>,
)
    requires
        lists_removed(removed_again, survivors(entries, now, retention_hours), now, retention_hours),
    ensures
        removed_again.len() == 0,
{
    if removed_again.len() > 0 {
        let left = survivors(entries, now, retention_hours);
        let i = removed_again[0] as int;
        entries.lemma_filter_pred(|e: ListedEntry| !is_removed_spec(e, now, retention_hours), i);
        assert(is_removed_spec(left[i], now, retention_hours));
    }
}

/// A run with a window of zero hours removes every regular file with the
/// archive extension that was modified before the run's time.
pub proof fn lemma_zero_retention_removes(entry: ListedEntry, now: u64)
    requires
        entry.is_file,
        is_archive_name_spec(entry.name@),
        entry.modified < now,
    ensures
        is_removed_spec(entry, now, 0),
{
}

} // verus!
