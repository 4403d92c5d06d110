use vstd::prelude::*;
use vstd::pervasive::unreached;
use crate::ghostscript::PdfAnalysis;
use crate::handlers::Reply;
use crate::quota::{is_granted, QuotaReservation, ReserveError};
use crate::upload::{UploadError, UploadedFile};

verus! {

/// The largest upload that is analysed for a signed-in user or for the
/// public trial: 5 MiB.
pub const PREFLIGHT_UPLOAD_LIMIT: usize = 5242880;

/// The largest upload that is analysed for a user with a key: 20 MiB.
pub const API_PREFLIGHT_UPLOAD_LIMIT: usize = 20971520;

/// What a request for an analysis works on. Without a user it is the
/// public trial, which takes no units.
#[derive(Debug, Clone, PartialEq)]
pub struct PreflightJob {
    pub clerk_id: Option<String>,
    pub temp_path: String,
    pub original_name: String,
}

/// Where a request for an analysis stands.
#[derive(Debug, Clone, PartialEq)]
pub enum PreflightState {
    /// Waiting for the upload to be stored.
    AwaitingUpload { clerk_id: Option<String> },
    /// Waiting for the page count.
    CountingPages { job: PreflightJob },
    /// Waiting for the backend's answer to the request for units.
    Reserving { job: PreflightJob, pages: i64, units: i64 },
    /// Waiting for the analysis; with `reservation_id`, units are held.
    Analyzing { job: PreflightJob, reservation_id: Option<String> },
    /// The analysis failed; waiting for the release of the units.
    Releasing { job: PreflightJob, message: String },
    /// The analysis is made; waiting for the commit of the units.
    Committing { job: PreflightJob, analysis: PdfAnalysis },
    /// Waiting for the upload to be deleted.
    Removing { reply: Reply },
    Done,
}

/// What came of the action that the request asked for.
#[derive(Debug, PartialEq)]
pub enum PreflightEvent {
    Upload(Result<UploadedFile, UploadError>),
    /// The page count, or the toolchain's words.
    PageCount(Result<i64, String>),
    /// The reservation, or why none was made.
    Reservation(Result<QuotaReservation, ReserveError>),
    /// The analysis, or the toolchain's words.
    Analysis(Result<PdfAnalysis, String>),
    /// The release was attempted.
    Released,
    /// Whether the backend committed, or the words of the failure.
    Committed(Result<bool, String>),
    /// The deletion was attempted.
    Removed,
}

/// What the request asks for next.
#[derive(Debug, PartialEq)]
pub enum PreflightAction {
    /// Store the upload, no more than this many bytes.
    SaveUpload { max_size_bytes: usize },
    CountPages { path: String },
    Reserve { clerk_id: String, units: i64 },
    Analyze { path: String, pages: i64 },
    Release { clerk_id: String, reservation_id: String },
    Commit { clerk_id: String, reservation_id: String },
    /// Delete the stored upload.
    RemoveFile { path: String },
    Respond(Reply),
}

/// The name under which an action runs in the queue for the toolchain:
/// the actions that start a program of the toolchain run there, and no
/// others.
pub open spec fn preflight_job(action: PreflightAction, trial: bool) -> Option<Seq<char>> {
    match action {
        PreflightAction::CountPages { .. } | PreflightAction::Analyze { .. } => Some(
            if trial {
                "preflight-test"@
            } else {
                "preflight"@
            },
        ),
        _ => None,
    }
}

impl PreflightAction {
    /// The name under which the action runs in the queue for the
    /// toolchain, if it has to run there; `trial` says whether the request
    /// is the public trial.
    pub fn job_name(&self, trial: bool) -> (name: Option<&'static str>)
        ensures
            match name {
                Some(n) => preflight_job(*self, trial) == Some(n@),
                None => preflight_job(*self, trial).is_none(),
            },
    {
        match self {
            PreflightAction::CountPages { .. } | PreflightAction::Analyze { .. } => Some(
                if trial {
                    "preflight-test"
                } else {
                    "preflight"
                },
            ),
            _ => None,
        }
    }
}

/// The units that an analysis of so many pages takes: two for each page.
pub open spec fn preflight_units(pages: i64) -> int {
    2 * pages
}

/// Whether the event answers what the request asked for last.
pub open spec fn preflight_accepts(state: PreflightState, event: PreflightEvent) -> bool {
    match (state, event) {
        (PreflightState::AwaitingUpload { .. }, PreflightEvent::Upload(_)) => true,
        (PreflightState::CountingPages { .. }, PreflightEvent::PageCount(_)) => true,
        (PreflightState::Reserving { .. }, PreflightEvent::Reservation(_)) => true,
        (PreflightState::Analyzing { .. }, PreflightEvent::Analysis(_)) => true,
        (PreflightState::Releasing { .. }, PreflightEvent::Released) => true,
        (PreflightState::Committing { .. }, PreflightEvent::Committed(_)) => true,
        (PreflightState::Removing { .. }, PreflightEvent::Removed) => true,
        _ => false,
    }
}

/// The upload is deleted, then the reply is given.
pub open spec fn preflight_cleanup(job: PreflightJob, reply: Reply) -> (
    PreflightState,
    PreflightAction,
) {
    (PreflightState::Removing { reply }, PreflightAction::RemoveFile { path: job.temp_path })
}

/// The analysis under the name that the sender gave the upload.
pub open spec fn named_analysis(job: PreflightJob, analysis: PdfAnalysis) -> PdfAnalysis {
    PdfAnalysis { file_name: job.original_name, ..analysis }
}

/// What the request does with the page count: a user's request asks
/// for the units of so many pages, and fails where those are beyond the
/// machine's integers; the public trial goes on to the analysis.
pub open spec fn preflight_on_pages(job: PreflightJob, pages: i64) -> (
    PreflightState,
    PreflightAction,
) {
    match job.clerk_id {
        Some(clerk_id) => if i64::MIN <= preflight_units(pages) <= i64::MAX {
            (
                PreflightState::Reserving { job, pages, units: preflight_units(pages) as i64 },
                PreflightAction::Reserve { clerk_id, units: preflight_units(pages) as i64 },
            )
        } else {
            preflight_cleanup(job, Reply::InvalidPageCount)
        },
        None => (
            PreflightState::Analyzing { job, reservation_id: None },
            PreflightAction::Analyze { path: job.temp_path, pages },
        ),
    }
}

/// What the request does with the backend's answer to its request for
/// units.
pub open spec fn preflight_on_reservation(
    job: PreflightJob,
    pages: i64,
    units: i64,
    reservation: QuotaReservation,
) -> (PreflightState, PreflightAction) {
    if !reservation.allowed {
        preflight_cleanup(job, Reply::QuotaExceeded { reservation, units })
    } else {
        match reservation.reservation_id {
            None => preflight_cleanup(job, Reply::NoReservationId),
            Some(reservation_id) => (
                PreflightState::Analyzing { job, reservation_id: Some(reservation_id) },
                PreflightAction::Analyze { path: job.temp_path, pages },
            ),
        }
    }
}

/// What the request does with what came of the analysis.
pub open spec fn preflight_on_analysis(
    job: PreflightJob,
    reservation_id: Option<String>,
    outcome: Result<PdfAnalysis, String>,
) -> (PreflightState, PreflightAction) {
    match (job.clerk_id, reservation_id, outcome) {
        (Some(clerk_id), Some(reservation_id), Err(message)) => (
            PreflightState::Releasing { job, message },
            PreflightAction::Release { clerk_id, reservation_id },
        ),
        (Some(clerk_id), Some(reservation_id), Ok(analysis)) => (
            PreflightState::Committing { job, analysis },
            PreflightAction::Commit { clerk_id, reservation_id },
        ),
        (_, _, Err(message)) => preflight_cleanup(job, Reply::Failed(message)),
        (_, _, Ok(analysis)) => preflight_cleanup(
            job,
            Reply::Analysis(named_analysis(job, analysis)),
        ),
    }
}

/// The next state of the request and what it asks for, given what came of
/// its last action.
pub open spec fn preflight_step(state: PreflightState, event: PreflightEvent) -> (
    PreflightState,
    PreflightAction,
) {
    match (state, event) {
        (PreflightState::AwaitingUpload { clerk_id }, PreflightEvent::Upload(Err(error))) => (
            PreflightState::Done,
            PreflightAction::Respond(Reply::Upload(error)),
        ),
        (PreflightState::AwaitingUpload { clerk_id }, PreflightEvent::Upload(Ok(file))) => (
            PreflightState::CountingPages {
                job: PreflightJob {
                    clerk_id,
                    temp_path: file.temp_path,
                    original_name: file.original_name,
                },
            },
            PreflightAction::CountPages { path: file.temp_path },
        ),
        (PreflightState::CountingPages { job }, PreflightEvent::PageCount(Err(message))) =>
            preflight_cleanup(job, Reply::Failed(message)),
        (PreflightState::CountingPages { job }, PreflightEvent::PageCount(Ok(pages))) =>
            preflight_on_pages(job, pages),
        (
            PreflightState::Reserving { job, pages, units },
            PreflightEvent::Reservation(Err(ReserveError::Backend(message))),
        ) => preflight_cleanup(job, Reply::Failed(message)),
        (
            PreflightState::Reserving { job, pages, units },
            PreflightEvent::Reservation(Err(ReserveError::MissingReservationId)),
        ) => preflight_cleanup(job, Reply::NoReservationId),
        (
            PreflightState::Reserving { job, pages, units },
            PreflightEvent::Reservation(Ok(reservation)),
        ) => preflight_on_reservation(job, pages, units, reservation),
        (PreflightState::Analyzing { job, reservation_id }, PreflightEvent::Analysis(outcome)) =>
            preflight_on_analysis(job, reservation_id, outcome),
        (PreflightState::Releasing { job, message }, PreflightEvent::Released) =>
            preflight_cleanup(job, Reply::Failed(message)),
        (PreflightState::Committing { job, analysis }, PreflightEvent::Committed(Err(message))) =>
            preflight_cleanup(job, Reply::Failed(message)),
        (PreflightState::Committing { job, analysis }, PreflightEvent::Committed(Ok(_))) =>
            preflight_cleanup(job, Reply::Analysis(named_analysis(job, analysis))),
        (PreflightState::Removing { reply }, PreflightEvent::Removed) => (
            PreflightState::Done,
            PreflightAction::Respond(reply),
        ),
        _ => arbitrary(),
    }
}

fn cleanup(job: PreflightJob, reply: Reply) -> (next: (PreflightState, PreflightAction))
    ensures
        next == preflight_cleanup(job, reply),
{
    (PreflightState::Removing { reply }, PreflightAction::RemoveFile { path: job.temp_path })
}

fn cleanup_with_analysis(job: PreflightJob, analysis: PdfAnalysis) -> (next: (
    PreflightState,
    PreflightAction,
))
    ensures
        next == preflight_cleanup(job, Reply::Analysis(named_analysis(job, analysis))),
{
    let PdfAnalysis { file_name, page_count, has_formfields, color_profiles } = analysis;
    let PreflightJob { clerk_id, temp_path, original_name } = job;
    let named = PdfAnalysis { file_name: original_name, page_count, has_formfields, color_profiles };
    (PreflightState::Removing { reply: Reply::Analysis(named) }, PreflightAction::RemoveFile {
        path: temp_path,
    })
}

fn on_pages(job: PreflightJob, pages: i64) -> (next: (PreflightState, PreflightAction))
    ensures
        next == preflight_on_pages(job, pages),
{
    match &job.clerk_id {
        Some(clerk_id) => {
            if pages > 0x3fff_ffff_ffff_ffffi64 || pages < -0x4000_0000_0000_0000i64 {
                return cleanup(job, Reply::InvalidPageCount);
            }
            let units: i64 = 2 * pages;
            let action = PreflightAction::Reserve { clerk_id: clerk_id.clone(), units };
            (PreflightState::Reserving { job, pages, units }, action)
        },
        None => {
            let action = PreflightAction::Analyze { path: job.temp_path.clone(), pages };
            (PreflightState::Analyzing { job, reservation_id: None }, action)
        },
    }
}

fn on_reservation(job: PreflightJob, pages: i64, units: i64, reservation: QuotaReservation) -> (next:
    (PreflightState, PreflightAction))
    ensures
        next == preflight_on_reservation(job, pages, units, reservation),
{
    if !reservation.allowed {
        return cleanup(job, Reply::QuotaExceeded { reservation, units });
    }
    match reservation.reservation_id {
        None => cleanup(job, Reply::NoReservationId),
        Some(reservation_id) => {
            let action = PreflightAction::Analyze { path: job.temp_path.clone(), pages };
            (PreflightState::Analyzing { job, reservation_id: Some(reservation_id) }, action)
        },
    }
}

fn on_analysis(
    job: PreflightJob,
    reservation_id: Option<String>,
    outcome: Result<PdfAnalysis, String>,
) -> (next: (PreflightState, PreflightAction))
    ensures
        next == preflight_on_analysis(job, reservation_id, outcome),
{
    let held = match (&job.clerk_id, reservation_id) {
        (Some(clerk_id), Some(reservation_id)) => Some((clerk_id.clone(), reservation_id)),
        _ => None,
    };
    match (held, outcome) {
        (Some((clerk_id, reservation_id)), Err(message)) => (
            PreflightState::Releasing { job, message },
            PreflightAction::Release { clerk_id, reservation_id },
        ),
        (Some((clerk_id, reservation_id)), Ok(analysis)) => (
            PreflightState::Committing { job, analysis },
            PreflightAction::Commit { clerk_id, reservation_id },
        ),
        (None, Err(message)) => cleanup(job, Reply::Failed(message)),
        (None, Ok(analysis)) => cleanup_with_analysis(job, analysis),
    }
}

impl PreflightState {
    /// A request at its beginning, with what it asks for first. Without a
    /// user it is the public trial.
    pub fn start(clerk_id: Option<String>, max_size_bytes: usize) -> (begun: (
        PreflightState,
        PreflightAction,
    ))
        ensures
            begun.0 == (PreflightState::AwaitingUpload { clerk_id }),
            begun.1 == (PreflightAction::SaveUpload { max_size_bytes }),
    {
        (PreflightState::AwaitingUpload { clerk_id }, PreflightAction::SaveUpload { max_size_bytes })
    }

    /// Whether the event answers what the request asked for last.
    pub fn accepts(&self, event: &PreflightEvent) -> (fits: bool)
        ensures
            fits == preflight_accepts(*self, *event),
    {
        match (self, event) {
            (PreflightState::AwaitingUpload { .. }, PreflightEvent::Upload(_)) => true,
            (PreflightState::CountingPages { .. }, PreflightEvent::PageCount(_)) => true,
            (PreflightState::Reserving { .. }, PreflightEvent::Reservation(_)) => true,
            (PreflightState::Analyzing { .. }, PreflightEvent::Analysis(_)) => true,
            (PreflightState::Releasing { .. }, PreflightEvent::Released) => true,
            (PreflightState::Committing { .. }, PreflightEvent::Committed(_)) => true,
            (PreflightState::Removing { .. }, PreflightEvent::Removed) => true,
            _ => false,
        }
    }

    /// Takes what came of the last action and says what to do next.
    pub fn step(self, event: PreflightEvent) -> (next: (PreflightState, PreflightAction))
        requires
            preflight_accepts(self, event),
        ensures
            next == preflight_step(self, event),
    {
        match (self, event) {
            (PreflightState::AwaitingUpload { clerk_id }, PreflightEvent::Upload(Err(error))) => (
                PreflightState::Done,
                PreflightAction::Respond(Reply::Upload(error)),
            ),
            (PreflightState::AwaitingUpload { clerk_id }, PreflightEvent::Upload(Ok(file))) => {
                let action = PreflightAction::CountPages { path: file.temp_path.clone() };
                (
                    PreflightState::CountingPages {
                        job: PreflightJob {
                            clerk_id,
                            temp_path: file.temp_path,
                            original_name: file.original_name,
                        },
                    },
                    action,
                )
            },
            (PreflightState::CountingPages { job }, PreflightEvent::PageCount(Err(message))) =>
                cleanup(job, Reply::Failed(message)),
            (PreflightState::CountingPages { job }, PreflightEvent::PageCount(Ok(pages))) =>
                on_pages(job, pages),
            (
                PreflightState::Reserving { job, pages, units },
                PreflightEvent::Reservation(Err(ReserveError::Backend(message))),
            ) => cleanup(job, Reply::Failed(message)),
            (
                PreflightState::Reserving { job, pages, units },
                PreflightEvent::Reservation(Err(ReserveError::MissingReservationId)),
            ) => cleanup(job, Reply::NoReservationId),
            (
                PreflightState::Reserving { job, pages, units },
                PreflightEvent::Reservation(Ok(reservation)),
            ) => on_reservation(job, pages, units, reservation),
            (
                PreflightState::Analyzing { job, reservation_id },
                PreflightEvent::Analysis(outcome),
            ) => on_analysis(job, reservation_id, outcome),
            (PreflightState::Releasing { job, message }, PreflightEvent::Released) => cleanup(
                job,
                Reply::Failed(message),
            ),
            (
                PreflightState::Committing { job, analysis },
                PreflightEvent::Committed(Err(message)),
            ) => cleanup(job, Reply::Failed(message)),
            (PreflightState::Committing { job, analysis }, PreflightEvent::Committed(Ok(_))) =>
                cleanup_with_analysis(job, analysis),
            (PreflightState::Removing { reply }, PreflightEvent::Removed) => (
                PreflightState::Done,
                PreflightAction::Respond(reply),
            ),
            _ => unreached(),
        }
    }
}

/// What the request asks for, action by action, when the events come in
/// this order: the run ends where an event does not answer the last
/// action, as after the reply.
pub open spec fn preflight_run(state: PreflightState, events: Seq<PreflightEvent>) -> Seq<
    PreflightAction,
>
    decreases events.len(),
{
    if events.len() == 0 || !preflight_accepts(state, events[0]) {
        Seq::empty()
    } else {
        seq![preflight_step(state, events[0]).1] + preflight_run(
            preflight_step(state, events[0]).0,
            events.drop_first(),
        )
    }
}

/// Whether the state holds units that are neither committed nor released.
pub open spec fn preflight_holds_units(state: PreflightState) -> bool {
    state matches PreflightState::Analyzing { job, reservation_id } && job.clerk_id.is_some()
        && reservation_id.is_some()
}

/// How often the run is granted units: how many of the events that it
/// takes are a reservation that holds units.
pub open spec fn preflight_grants(state: PreflightState, events: Seq<PreflightEvent>) -> nat
    decreases events.len(),
{
    if events.len() == 0 || !preflight_accepts(state, events[0]) {
        0
    } else {
        let here: nat = if events[0] matches PreflightEvent::Reservation(Ok(reservation))
            && is_granted(reservation) {
            1
        } else {
            0
        };
        here + preflight_grants(preflight_step(state, events[0]).0, events.drop_first())
    }
}

/// How many of the actions commit or release units.
pub open spec fn preflight_settlements(actions: Seq<PreflightAction>) -> nat
    decreases actions.len(),
{
    if actions.len() == 0 {
        0
    } else {
        let here: nat = if actions[0] is Commit || actions[0] is Release {
            1
        } else {
            0
        };
        here + preflight_settlements(actions.drop_first())
    }
}

/// A run asks for no more than one thing per event.
pub proof fn lemma_preflight_run_len(state: PreflightState, events: Seq<PreflightEvent>)
    ensures
        preflight_run(state, events).len() <= events.len(),
    decreases events.len(),
{
    if events.len() > 0 && preflight_accepts(state, events[0]) {
        lemma_preflight_run_len(preflight_step(state, events[0]).0, events.drop_first());
    }
}

/// Whether the state is that of a user's request, which alone asks for
/// units.
pub open spec fn preflight_has_user(state: PreflightState) -> bool {
    match state {
        PreflightState::AwaitingUpload { clerk_id } => clerk_id.is_some(),
        PreflightState::CountingPages { job } => job.clerk_id.is_some(),
        PreflightState::Reserving { job, .. } => job.clerk_id.is_some(),
        PreflightState::Analyzing { job, .. } => job.clerk_id.is_some(),
        _ => true,
    }
}

/// A run of a user's request that comes to its reply settles the units
/// that its state holds and those that it is granted on the way, each
/// once.
pub proof fn lemma_preflight_settles(state: PreflightState, events: Seq<PreflightEvent>)
    requires
        preflight_run(state, events).len() > 0,
        preflight_run(state, events).last() is Respond,
        preflight_has_user(state),
    ensures
        preflight_settlements(preflight_run(state, events)) == preflight_grants(state, events) + (
        if preflight_holds_units(state) {
            1nat
        } else {
            0nat
        }),
    decreases events.len(),
{
    let run = preflight_run(state, events);
    let next = preflight_step(state, events[0]).0;
    let action = preflight_step(state, events[0]).1;
    let rest = preflight_run(next, events.drop_first());
    assert(run == seq![action] + rest);
    assert(run[0] == action);
    assert(run.drop_first() == rest);
    let settled: nat = if action is Commit || action is Release {
        1
    } else {
        0
    };
    let granted: nat = if events[0] matches PreflightEvent::Reservation(Ok(reservation))
        && is_granted(reservation) {
        1
    } else {
        0
    };
    assert(preflight_settlements(run) == settled + preflight_settlements(rest));
    assert(preflight_grants(state, events) == granted + preflight_grants(
        next,
        events.drop_first(),
    ));
    assert(preflight_has_user(next));
    assert(settled + (if preflight_holds_units(next) {
        1nat
    } else {
        0nat
    }) == granted + (if preflight_holds_units(state) {
        1nat
    } else {
        0nat
    }));
    if rest.len() > 0 {
        assert(run.last() == rest.last());
        lemma_preflight_settles(next, events.drop_first());
    } else {
        assert(action is Respond);
        assert(!preflight_holds_units(next));
        assert(preflight_grants(next, events.drop_first()) == 0) by {
            if events.drop_first().len() > 0 && preflight_accepts(next, events.drop_first()[0]) {
                assert(preflight_run(next, events.drop_first()).len() > 0);
            }
        }
    }
}

/// Once a request has asked for units, it is not granted units again.
pub proof fn lemma_preflight_grants_once(state: PreflightState, events: Seq<PreflightEvent>)
    ensures
        preflight_grants(state, events) <= 1,
        !(state is AwaitingUpload || state is CountingPages || state is Reserving)
            ==> preflight_grants(state, events) == 0,
    decreases events.len(),
{
    if events.len() > 0 && preflight_accepts(state, events[0]) {
        lemma_preflight_grants_once(preflight_step(state, events[0]).0, events.drop_first());
    }
}

/// For every request that is granted units, exactly one of commit and
/// release is attempted before the reply, and for a request that is not,
/// none: the commits and releases of a run that comes to its reply are as
/// many as its grants, and those are one at most.
pub proof fn lemma_preflight_reservation_settled_once(
    clerk_id: String,
    events: Seq<PreflightEvent>,
)
    requires
        preflight_run(PreflightState::AwaitingUpload { clerk_id: Some(clerk_id) }, events).len()
            > 0,
        preflight_run(
            PreflightState::AwaitingUpload { clerk_id: Some(clerk_id) },
            events,
        ).last() is Respond,
    ensures
        preflight_settlements(
            preflight_run(PreflightState::AwaitingUpload { clerk_id: Some(clerk_id) }, events),
        ) == preflight_grants(PreflightState::AwaitingUpload { clerk_id: Some(clerk_id) }, events),
        preflight_grants(PreflightState::AwaitingUpload { clerk_id: Some(clerk_id) }, events)
            <= 1,
{
    lemma_preflight_settles(PreflightState::AwaitingUpload { clerk_id: Some(clerk_id) }, events);
    lemma_preflight_grants_once(
        PreflightState::AwaitingUpload { clerk_id: Some(clerk_id) },
        events,
    );
}

/// The stored upload that the request still has to delete.
pub open spec fn preflight_holds_upload(state: PreflightState) -> Option<String> {
    match state {
        PreflightState::CountingPages { job } => Some(job.temp_path),
        PreflightState::Reserving { job, .. } => Some(job.temp_path),
        PreflightState::Analyzing { job, .. } => Some(job.temp_path),
        PreflightState::Releasing { job, .. } => Some(job.temp_path),
        PreflightState::Committing { job, .. } => Some(job.temp_path),
        _ => None,
    }
}

/// A run that comes to its reply has asked to delete the upload that its
/// state holds, and every upload that was stored on the way: no file
/// outlives the request, whatever its outcome.
pub proof fn lemma_preflight_leaves_no_file(state: PreflightState, events: Seq<PreflightEvent>)
    requires
        preflight_run(state, events).len() > 0,
        preflight_run(state, events).last() is Respond,
    ensures
        preflight_holds_upload(state) matches Some(path) ==> preflight_run(
            state,
            events,
        ).contains(PreflightAction::RemoveFile { path }),
        forall|i: int|
            0 <= i < preflight_run(state, events).len() ==> (#[trigger] events[i]
                matches PreflightEvent::Upload(Ok(stored)) ==> preflight_run(
                state,
                events,
            ).contains(PreflightAction::RemoveFile { path: stored.temp_path })),
    decreases events.len(),
{
    let run = preflight_run(state, events);
    let next = preflight_step(state, events[0]).0;
    let action = preflight_step(state, events[0]).1;
    let rest = preflight_run(next, events.drop_first());
    assert(run == seq![action] + rest);
    assert(run[0] == action);
    lemma_preflight_run_len(state, events);
    if rest.len() > 0 {
        assert(run.last() == rest.last());
        lemma_preflight_leaves_no_file(next, events.drop_first());
        assert forall|x: PreflightAction| rest.contains(x) implies run.contains(x) by {
            let j = choose|j: int| 0 <= j < rest.len() && rest[j] == x;
            assert(run[j + 1] == x);
        }
        assert forall|i: int| 0 <= i < run.len() implies (#[trigger] events[i]
            matches PreflightEvent::Upload(Ok(stored)) ==> run.contains(
            PreflightAction::RemoveFile { path: stored.temp_path },
        )) by {
            if i > 0 {
                assert(events.drop_first()[i - 1] == events[i]);
            }
        }
    } else {
        assert(run.len() == 1);
    }
}


/// What a request still has to do when it is given up: the units to
/// release, as the user and the reservation, and the upload to delete.
#[derive(Debug, Clone, PartialEq)]
pub struct PreflightOwed {
    pub release: Option<(String, String)>,
    pub upload: Option<String>,
}

/// What is still to be done when the request is given up in `state`
/// while `pending` is the action that it asked for last and that is not
/// known to be done: units that are held are released, and so are units
/// whose release was asked for; the upload that the state holds is
/// deleted, and so is one whose deletion was asked for. Units whose
/// commit was asked for are left to the backend.
pub open spec fn preflight_owed(state: PreflightState, pending: PreflightAction) -> PreflightOwed {
    PreflightOwed {
        release: match (state, pending) {
            (
                PreflightState::Analyzing {
                    job: PreflightJob { clerk_id: Some(clerk_id), .. },
                    reservation_id: Some(reservation_id),
                },
                _,
            ) => Some((clerk_id, reservation_id)),
            (_, PreflightAction::Release { clerk_id, reservation_id }) => Some(
                (clerk_id, reservation_id),
            ),
            _ => None,
        },
        upload: match pending {
            PreflightAction::RemoveFile { path } => Some(path),
            _ => preflight_holds_upload(state),
        },
    }
}

impl PreflightState {
    /// What is still to be done when the request is given up while
    /// `pending` is the action that it asked for last.
    pub fn owed(&self, pending: &PreflightAction) -> (owed: PreflightOwed)
        ensures
            owed == preflight_owed(*self, *pending),
    {
        let held = match self {
            PreflightState::Analyzing { job, reservation_id } => match (
                &job.clerk_id,
                reservation_id,
            ) {
                (Some(clerk_id), Some(reservation_id)) => Some(
                    (clerk_id.clone(), reservation_id.clone()),
                ),
                _ => None,
            },
            _ => None,
        };
        let release = match held {
            Some(units) => Some(units),
            None => match pending {
                PreflightAction::Release { clerk_id, reservation_id } => Some(
                    (clerk_id.clone(), reservation_id.clone()),
                ),
                _ => None,
            },
        };
        let upload = match pending {
            PreflightAction::RemoveFile { path } => Some(path.clone()),
            _ => match self {
                PreflightState::CountingPages { job } => Some(job.temp_path.clone()),
                PreflightState::Reserving { job, .. } => Some(job.temp_path.clone()),
                PreflightState::Analyzing { job, .. } => Some(job.temp_path.clone()),
                PreflightState::Releasing { job, .. } => Some(job.temp_path.clone()),
                PreflightState::Committing { job, .. } => Some(job.temp_path.clone()),
                _ => None,
            },
        };
        PreflightOwed { release, upload }
    }
}

/// A request that is given up leaves nothing behind once what is owed is
/// done: whatever the state holds is owed, after every step, and after
/// the reply nothing is.
pub proof fn lemma_preflight_owed_covers(state: PreflightState, event: PreflightEvent)
    requires
        preflight_accepts(state, event),
    ensures
        ({
            let next = preflight_step(state, event).0;
            let action = preflight_step(state, event).1;
            let owed = preflight_owed(next, action);
            &&& preflight_holds_upload(next) matches Some(path) ==> owed.upload == Some(path)
            &&& preflight_holds_units(next) ==> owed.release.is_some()
            &&& action matches PreflightAction::Release { clerk_id, reservation_id }
                ==> owed.release == Some((clerk_id, reservation_id))
            &&& action matches PreflightAction::RemoveFile { path } ==> owed.upload == Some(path)
            &&& action is Respond ==> owed == (PreflightOwed { release: None, upload: None })
        }),
{
}

} // verus!
