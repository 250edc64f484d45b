//! The repository that is fed by the database's own export program.

use vstd::prelude::*;
use crate::clock::{StalenessThreshold, Timestamp};
use crate::config::MySQL;
use crate::domain::{GachaDataRepository, GachadataDumpWithTime, SnapshotView};
use crate::error::{ProcessFailure, RefreshError};
use crate::export::{
    dump_command,
    refresh_output,
    refresh_result,
    CommandView,
    DumpCommand,
    ProcessOutcome,
    UpdateAction,
};
use crate::staleness::is_stale;
use crate::store::{initial_snapshot, SharedSnapshotStore};

verus! {

/// The settings of one database and the latest dump taken from it.
#[derive(Debug)]
pub struct MySQLDumpConnection {
    pub connection_information: MySQL,
    pub dump: SharedSnapshotStore,
}

/// The snapshot that is held once `outcome` has been handed in at `now`: a
/// new one, made of the program's output and stamped `now`, if the run counts
/// as a refresh; the one held before, untouched, if it does not.
pub open spec fn refreshed(held: SnapshotView, outcome: ProcessOutcome, now: nat) -> SnapshotView {
    if refresh_result(outcome) is Ok {
        SnapshotView { bytes: refresh_output(outcome), captured_at: Some(now) }
    } else {
        held
    }
}

/// Handing in a run keeps a well-formed snapshot well-formed, whatever came
/// of the run.
pub proof fn refreshed_is_well_formed(held: SnapshotView, outcome: ProcessOutcome, now: nat)
    requires
        held.well_formed(),
    ensures
        refreshed(held, outcome, now).well_formed(),
{
}

/// A run that does not count as a refresh changes nothing, and one that does
/// replaces bytes and time of capture together.
pub proof fn refreshed_is_all_or_nothing(held: SnapshotView, outcome: ProcessOutcome, now: nat)
    ensures
        refresh_result(outcome) is Err ==> refreshed(held, outcome, now) == held,
        refresh_result(outcome) is Ok ==> refreshed(held, outcome, now) == (SnapshotView {
            bytes: refresh_output(outcome),
            captured_at: Some(now),
        }),
        refresh_result(outcome) is Ok <==> (outcome matches ProcessOutcome::Exited { code, .. }
            && code == 0),
{
}

impl MySQLDumpConnection {
    /// A connection that has not taken any dump yet.
    pub fn new(connection_information: MySQL) -> (connection: MySQLDumpConnection)
        ensures
            connection.connection_information == connection_information,
            connection.dump@ == initial_snapshot(),
    {
        MySQLDumpConnection { connection_information, dump: SharedSnapshotStore::new() }
    }

    /// Takes in what came of one run of the export program, finished at `now`.
    ///
    /// A run that counts as a refresh puts a new snapshot in place, whole, in
    /// one step; its output is taken as it is, even if it is empty. Any other
    /// run is reported as an error and leaves everything as it was. Nothing
    /// here asks whether another refresh is under way: that is the caller's
    /// business.
    pub fn run_gachadata_dump(&mut self, outcome: ProcessOutcome, now: Timestamp) -> (result:
        Result<(), RefreshError>)
        ensures
            result == refresh_result(outcome),
            final(self).dump@ == refreshed(old(self).dump@, outcome, now@),
            final(self).connection_information == old(self).connection_information,
            result is Err ==> *final(self) == *old(self),
    {
        match outcome {
            ProcessOutcome::Exited { code, stdout } => {
                if code == 0 {
                    self.dump.replace(GachadataDumpWithTime::captured(stdout, now));
                    Ok(())
                } else {
                    Err(RefreshError::ProcessFailed(ProcessFailure::ExitedWith(code)))
                }
            },
            ProcessOutcome::Killed => Err(RefreshError::ProcessFailed(ProcessFailure::Killed)),
            ProcessOutcome::NotStarted => Err(
                RefreshError::ProcessFailed(ProcessFailure::NotStarted),
            ),
            ProcessOutcome::TimedOut => Err(RefreshError::ProcessFailed(ProcessFailure::TimedOut)),
        }
    }
}

impl GachaDataRepository for MySQLDumpConnection {
    open spec fn last_dump_time(&self) -> Option<nat> {
        self.dump@.captured_at
    }

    open spec fn refresh_command(&self) -> CommandView {
        dump_command(self.connection_information@)
    }

    fn update_gachadata(&self, now: Timestamp, threshold: StalenessThreshold) -> (action:
        UpdateAction) {
        if is_stale(self.dump.dump_time(), now, threshold) {
            UpdateAction::RunDump(DumpCommand::for_connection(&self.connection_information))
        } else {
            UpdateAction::UpToDate
        }
    }
}

} // verus!
