//! Serving requests from the cache: check, refresh if needed, serve.

use vstd::prelude::*;
use crate::clock::{StalenessThreshold, Timestamp};
use crate::domain::{update_action, GachaDataRepository, GachadataDumpWithTime, SnapshotView};
use crate::error::{refresh_failed, CacheError, RefreshError};
use crate::export::{
    dump_command,
    refresh_output,
    refresh_result,
    ActionView,
    CommandView,
    DumpCommand,
    ProcessOutcome,
    UpdateAction,
};
use crate::infra_repository_impls::{refreshed, MySQLDumpConnection};
use crate::staleness::stale;

verus! {

/// Decides, request by request, whether the dump is served as it is or taken
/// again first, and lets at most one refresh run at a time.
///
/// A request goes through three steps. `begin_request` checks the age of the
/// dump and, if it is stale and no refresh is under way, claims the refresh
/// and hands out the command to run. The caller runs it, with nothing locked,
/// and reports through `finish_refresh`. `serve` hands out the dump. A request
/// that finds the dump stale while a refresh is under way does not wait: it is
/// served what is held at that moment.
#[derive(Debug)]
pub struct CacheCoordinator {
    repository: MySQLDumpConnection,
    threshold: StalenessThreshold,
    refresh_in_flight: bool,
}

/// The state of a coordinator, as far as its answers depend on it.
pub struct CoordinatorView {
    /// The snapshot that readers are served.
    pub snapshot: SnapshotView,
    /// The command that takes a fresh dump.
    pub command: CommandView,
    /// The age beyond which the snapshot is stale.
    pub threshold: nat,
    /// Whether a refresh has been claimed and not yet reported back.
    pub refresh_in_flight: bool,
}

impl CoordinatorView {
    /// What holds of every state that a coordinator goes through: the
    /// snapshot is well-formed.
    pub open spec fn well_formed(self) -> bool {
        self.snapshot.well_formed()
    }

    /// The first two steps of a request that comes in at `now`: the state
    /// they leave, and what the caller is to do.
    pub open spec fn begin_request(self, now: nat) -> (CoordinatorView, ActionView) {
        if self.refresh_in_flight {
            (self, ActionView::UpToDate)
        } else {
            let action = update_action(
                self.snapshot.captured_at,
                self.command,
                now,
                self.threshold,
            );
            (CoordinatorView { refresh_in_flight: action is RunDump, ..self }, action)
        }
    }

    /// The end of a refresh whose run gave `outcome` and finished at `now`:
    /// the state it leaves, and what the request that started it is told.
    pub open spec fn finish_refresh(self, outcome: ProcessOutcome, now: nat) -> (
        CoordinatorView,
        Result<(), RefreshError>,
    ) {
        (
            CoordinatorView {
                snapshot: refreshed(self.snapshot, outcome, now),
                refresh_in_flight: false,
                ..self
            },
            refresh_result(outcome),
        )
    }

    /// The last step of a request: the snapshot, unless it holds no data.
    pub open spec fn serve(self) -> Result<SnapshotView, CacheError> {
        if self.snapshot.bytes.len() == 0 {
            Err(CacheError::EmptySnapshot)
        } else {
            Ok(self.snapshot)
        }
    }

    /// A whole request that comes in at `now`, with nothing else going on in
    /// between, where a run of the export program, if one is started, gives
    /// `outcome`: the state the request leaves, and what it is answered.
    pub open spec fn get(self, now: nat, outcome: ProcessOutcome) -> (
        CoordinatorView,
        Result<SnapshotView, CacheError>,
    ) {
        let (claimed, action) = self.begin_request(now);
        match action {
            ActionView::UpToDate => (claimed, claimed.serve()),
            ActionView::RunDump(_) => {
                let (done, result) = claimed.finish_refresh(outcome, now);
                match result {
                    Ok(_) => (done, done.serve()),
                    Err(error) => (done, Err(refresh_failed(error))),
                }
            },
        }
    }
}

/// What a request is answered, as a reader of the answer sees it.
pub open spec fn outcome_view(outcome: Result<GachadataDumpWithTime, CacheError>) -> Result<
    SnapshotView,
    CacheError,
> {
    match outcome {
        Ok(snapshot) => Ok(snapshot@),
        Err(error) => Err(error),
    }
}

impl View for CacheCoordinator {
    type V = CoordinatorView;

    closed spec fn view(&self) -> CoordinatorView {
        CoordinatorView {
            snapshot: self.repository.dump@,
            command: dump_command(self.repository.connection_information@),
            threshold: self.threshold@,
            refresh_in_flight: self.refresh_in_flight,
        }
    }
}

impl CacheCoordinator {
    /// A coordinator over `repository` with no refresh under way.
    pub fn new(repository: MySQLDumpConnection, threshold: StalenessThreshold) -> (coordinator:
        CacheCoordinator)
        ensures
            coordinator@ == (CoordinatorView {
                snapshot: repository.dump@,
                command: dump_command(repository.connection_information@),
                threshold: threshold@,
                refresh_in_flight: false,
            }),
            repository.dump@.well_formed() ==> coordinator@.well_formed(),
    {
        CacheCoordinator { repository, threshold, refresh_in_flight: false }
    }

    /// Whether a refresh has been claimed and not yet reported back.
    pub fn refresh_in_flight(&self) -> (in_flight: bool)
        ensures
            in_flight == self@.refresh_in_flight,
    {
        self.refresh_in_flight
    }

    /// Checks the dump's age at `now` and claims the refresh if one is due
    /// and none is under way.
    pub fn begin_request(&mut self, now: Timestamp) -> (action: UpdateAction)
        ensures
            (final(self)@, action@) == old(self)@.begin_request(now@),
    {
        if self.refresh_in_flight {
            UpdateAction::UpToDate
        } else {
            let action = self.repository.update_gachadata(now, self.threshold);
            match action {
                UpdateAction::UpToDate => {},
                UpdateAction::RunDump(_) => {
                    self.refresh_in_flight = true;
                },
            }
            action
        }
    }

    /// Takes in what came of the run that `begin_request` asked for, finished
    /// at `now`, and gives the claim back, whether the run succeeded or not.
    pub fn finish_refresh(&mut self, outcome: ProcessOutcome, now: Timestamp) -> (result: Result<
        (),
        RefreshError,
    >)
        ensures
            (final(self)@, result) == old(self)@.finish_refresh(outcome, now@),
    {
        let result = self.repository.run_gachadata_dump(outcome, now);
        self.refresh_in_flight = false;
        result
    }

    /// Serves one request from start to end, with `run` standing for the
    /// export program: it is called at most once, with the command to run,
    /// and only if this request claimed the refresh. A dump that is taken is
    /// stamped `now`.
    ///
    /// This is for callers that own the coordinator outright. While `run` is
    /// at work nothing else can reach the coordinator, so behind a lock that
    /// other requests wait for, take the three steps one by one instead.
    pub fn get<F: FnOnce(DumpCommand) -> ProcessOutcome>(&mut self, now: Timestamp, run: F) -> (served:
        Result<GachadataDumpWithTime, CacheError>)
        requires
            forall|command: DumpCommand|
                command@ == old(self)@.command ==> #[trigger] run.requires((command,)),
        ensures
            old(self)@.begin_request(now@).1 is UpToDate ==> final(self)@ == old(self)@
                && outcome_view(served) == old(self)@.serve(),
            old(self)@.begin_request(now@).1 is RunDump ==> exists|
                command: DumpCommand,
                outcome: ProcessOutcome,
            |
                command@ == old(self)@.command && #[trigger] run.ensures((command,), outcome) && (
                final(self)@,
                outcome_view(served),
                ) == old(self)@.get(now@, outcome),
    {
        match self.begin_request(now) {
            UpdateAction::UpToDate => self.serve(),
            UpdateAction::RunDump(command) => {
                let ghost asked = command;
                let outcome = run(command);
                let ghost given = outcome;
                let result = self.finish_refresh(outcome, now);
                let served = match result {
                    Ok(_) => self.serve(),
                    Err(error) => Err(CacheError::from_refresh(error)),
                };
                assert(run.ensures((asked,), given));
                served
            },
        }
    }

    /// Hands out a copy of the snapshot, or says that there is no data.
    pub fn serve(&self) -> (served: Result<GachadataDumpWithTime, CacheError>)
        ensures
            outcome_view(served) == self@.serve(),
    {
        let snapshot = self.repository.dump.read();
        if snapshot.dump.is_empty() {
            Err(CacheError::EmptySnapshot)
        } else {
            Ok(snapshot)
        }
    }
}

/// Every step takes a well-formed state to a well-formed state, so a
/// coordinator that starts without a dump never holds data without a time of
/// capture.
pub proof fn steps_keep_well_formed(state: CoordinatorView, now: nat, outcome: ProcessOutcome)
    requires
        state.well_formed(),
    ensures
        state.begin_request(now).0.well_formed(),
        state.finish_refresh(outcome, now).0.well_formed(),
        state.get(now, outcome).0.well_formed(),
{
}

/// There is no data to serve exactly when the snapshot holds none, which in
/// a well-formed state is the case as long as no refresh ever succeeded.
pub proof fn no_data_without_refresh(state: CoordinatorView)
    requires
        state.well_formed(),
    ensures
        state.serve() is Err <==> state.snapshot.bytes.len() == 0,
        state.serve() is Err ==> state.serve() == Err::<SnapshotView, CacheError>(
            CacheError::EmptySnapshot,
        ),
        state.snapshot.captured_at is None ==> state.serve() is Err,
{
}

/// A request that is not asked to run the export program leaves the state as
/// it was and is served what is held.
pub proof fn request_without_refresh_changes_nothing(
    state: CoordinatorView,
    now: nat,
    outcome: ProcessOutcome,
)
    requires
        state.begin_request(now).1 is UpToDate,
    ensures
        state.begin_request(now).0 == state,
        state.get(now, outcome) == (state, state.serve()),
{
}

/// At most one refresh is under way: while one is, no request is asked to
/// run the export program, whenever it comes in, and every such request is
/// served what is held at that moment.
pub proof fn refresh_is_single_flight(state: CoordinatorView, now: nat, outcome: ProcessOutcome)
    requires
        state.refresh_in_flight,
    ensures
        state.begin_request(now) == (state, ActionView::UpToDate),
        state.get(now, outcome) == (state, state.serve()),
{
}

/// A request claims the refresh exactly when the snapshot is stale and no
/// refresh is under way, and is then handed the command to run.
pub proof fn refresh_is_claimed_when_due(state: CoordinatorView, now: nat)
    ensures
        state.begin_request(now).1 is RunDump <==> !state.refresh_in_flight
            && stale(state.snapshot.captured_at, now, state.threshold),
        state.begin_request(now).1 is RunDump ==> state.begin_request(now).0.refresh_in_flight
            && state.begin_request(now).1 == ActionView::RunDump(state.command),
        state.begin_request(now).0.snapshot == state.snapshot,
{
}

/// A refresh that fails leaves the snapshot as it was, bytes and time of
/// capture, so a read after it gives what a read before it gave. The request
/// that started the refresh is told of the failure.
pub proof fn failed_refresh_keeps_snapshot(state: CoordinatorView, outcome: ProcessOutcome, now: nat)
    requires
        refresh_result(outcome) is Err,
    ensures
        state.finish_refresh(outcome, now).0.snapshot == state.snapshot,
        state.finish_refresh(outcome, now).0.serve() == state.serve(),
        state.get(now, outcome).0.snapshot == state.snapshot,
        state.begin_request(now).1 is RunDump ==> state.get(now, outcome).1 == Err::<
            SnapshotView,
            CacheError,
        >(refresh_failed(refresh_result(outcome)->Err_0)),
{
}

/// A failure does not linger. Whatever came of a refresh, the claim is given
/// back, and the next request decides by the age of the snapshot alone.
pub proof fn finished_refresh_frees_the_claim(
    state: CoordinatorView,
    outcome: ProcessOutcome,
    now: nat,
    later: nat,
)
    ensures
        !state.finish_refresh(outcome, now).0.refresh_in_flight,
        state.finish_refresh(outcome, now).0.begin_request(later).1 == update_action(
            refreshed(state.snapshot, outcome, now).captured_at,
            state.command,
            later,
            state.threshold,
        ),
{
}

/// A refresh that succeeds without output is not served as a success. The
/// request that started it, and every request after it that is served what is
/// held, is told that there is no data.
pub proof fn empty_refresh_is_reported(
    state: CoordinatorView,
    outcome: ProcessOutcome,
    now: nat,
    later: nat,
    next: ProcessOutcome,
)
    requires
        refresh_result(outcome) is Ok,
        refresh_output(outcome).len() == 0,
    ensures
        state.finish_refresh(outcome, now).0.serve() == Err::<SnapshotView, CacheError>(
            CacheError::EmptySnapshot,
        ),
        state.begin_request(now).1 is RunDump ==> state.get(now, outcome).1 == Err::<
            SnapshotView,
            CacheError,
        >(CacheError::EmptySnapshot),
        state.finish_refresh(outcome, now).0.begin_request(later).1 is UpToDate
            ==> state.finish_refresh(outcome, now).0.get(later, next).1 == Err::<
            SnapshotView,
            CacheError,
        >(CacheError::EmptySnapshot),
{
}

/// After a refresh that succeeded at `now`, requests are served from the
/// cache up to and including an age of the threshold, and the first request
/// after that takes the dump again.
pub proof fn fresh_dump_is_served_from_cache(
    state: CoordinatorView,
    outcome: ProcessOutcome,
    now: nat,
    later: nat,
)
    requires
        refresh_result(outcome) is Ok,
        now <= later,
    ensures
        state.finish_refresh(outcome, now).0.begin_request(later).1 is UpToDate <==> later - now
            <= state.threshold,
{
}

/// Of two refreshes the one that is reported last is the one that stays,
/// even if it was started first and its dump is the older one.
pub proof fn last_finished_refresh_wins(
    state: CoordinatorView,
    first: ProcessOutcome,
    first_at: nat,
    last: ProcessOutcome,
    last_at: nat,
)
    requires
        refresh_result(last) is Ok,
    ensures
        state.finish_refresh(first, first_at).0.finish_refresh(last, last_at).0.snapshot
            == (SnapshotView {
            bytes: refresh_output(last),
            captured_at: Some(last_at),
        }),
{
}

} // verus!
