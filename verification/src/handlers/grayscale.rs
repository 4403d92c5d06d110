use vstd::prelude::*;
use vstd::pervasive::unreached;
use crate::ghostscript::{sanitize_base_name, sanitized_base_name};
use crate::handlers::{mode_of, GrayscaleMode, Reply};
use crate::quota::{is_granted, opt_text, QuotaReservation, ReserveError};
use crate::text::{join2, join3};
use crate::upload::{new_uuid_text, UploadError, UploadedPdfRequest};

verus! {

/// The largest upload that is taken for a gray copy: 20 MiB.
pub const GRAYSCALE_UPLOAD_LIMIT: usize = 20971520;

/// The two names of a gray copy: the name under which it is sent, and the
/// name of the file in which it is made.
#[derive(Debug, Clone, PartialEq)]
pub struct OutputNames {
    pub output_name: String,
    pub output_file: String,
}

/// The base name of the gray copy of an upload whose name has this stem;
/// an upload without a stem counts as `document`.
pub open spec fn output_base(stem: Option<&str>) -> Seq<char> {
    sanitized_base_name(
        match stem {
            Some(s) => s@,
            None => "document"@,
        },
    )
}

/// The names of the gray copy of an upload: the base name, then
/// `-grayscale.pdf` for the name under which it is sent, and with `token`
/// between the two for the file.
pub fn output_names(stem: Option<&str>, token: &str) -> (names: OutputNames)
    ensures
        names.output_name@ == output_base(stem) + "-grayscale.pdf"@,
        names.output_file@ == output_base(stem) + "-"@ + token@ + "-grayscale.pdf"@,
{
    let base = sanitize_base_name(
        match stem {
            Some(s) => s,
            None => "document",
        },
    );
    let tail = join3("-", token, "-grayscale.pdf");
    let names = OutputNames {
        output_name: join2(base.as_str(), "-grayscale.pdf"),
        output_file: join2(base.as_str(), tail.as_str()),
    };
    assert(names.output_file@ =~= output_base(stem) + "-"@ + token@ + "-grayscale.pdf"@);
    names
}

/// The names of the gray copy of an upload, with a fresh random token in
/// the name of the file.
pub fn fresh_output_names(stem: Option<&str>) -> (names: OutputNames)
    ensures
        names.output_name@ == output_base(stem) + "-grayscale.pdf"@,
        exists|token: Seq<char>|
            names.output_file@ == output_base(stem) + "-"@ + token + "-grayscale.pdf"@,
{
    let token = new_uuid_text();
    output_names(stem, token.as_str())
}

/// What a request for a gray copy works on.
#[derive(Debug, Clone, PartialEq)]
pub struct GrayscaleJob {
    pub clerk_id: String,
    pub temp_path: String,
    pub output_file: String,
    pub output_name: String,
    pub mode: GrayscaleMode,
}

/// Where a request for a gray copy stands.
#[derive(Debug, Clone, PartialEq)]
pub enum GrayscaleState {
    /// Waiting for the upload to be stored.
    AwaitingUpload { clerk_id: String },
    /// The upload was refused; waiting for its file to be deleted.
    RemovingRejected { reply: Reply },
    /// Waiting for the page count.
    CountingPages { job: GrayscaleJob },
    /// Waiting for the backend's answer to the request for units.
    Reserving { job: GrayscaleJob, units: i64 },
    /// Units are held; waiting for the gray copy.
    Converting { job: GrayscaleJob, reservation_id: String },
    /// The copy failed; waiting for the release of the units.
    Releasing { job: GrayscaleJob, message: String },
    /// The copy is made; waiting for the commit of the units.
    Committing { job: GrayscaleJob },
    /// Waiting for the bytes of the copy.
    Reading { job: GrayscaleJob },
    /// Waiting for the upload to be deleted.
    RemovingUpload { output_file: String, reply: Reply },
    /// Waiting for the copy to be deleted.
    RemovingOutput { reply: Reply },
    Done,
}

/// What came of the action that the request asked for.
#[derive(Debug, PartialEq)]
pub enum GrayscaleEvent {
    /// The stored upload with the names of its gray copy.
    Upload(Result<(UploadedPdfRequest, OutputNames), UploadError>),
    /// The page count, or the toolchain's words.
    PageCount(Result<i64, String>),
    /// The reservation, or why none was made.
    Reservation(Result<QuotaReservation, ReserveError>),
    /// The copy is made, or the toolchain's words.
    Conversion(Result<(), String>),
    /// The release was attempted.
    Released,
    /// The commit was attempted.
    Committed,
    Output(Result<Vec<u8>, ()>),
    /// The deletion was attempted.
    Removed,
}

/// What the request asks for next.
#[derive(Debug, PartialEq)]
pub enum GrayscaleAction {
    /// Store the upload, no more than this many bytes, with its text fields.
    SaveUpload { max_size_bytes: usize },
    CountPages { path: String },
    Reserve { clerk_id: String, units: i64 },
    /// Make the gray copy of `input` in the file `output_file` of the
    /// directory for temporary files.
    Convert { mode: GrayscaleMode, input: String, output_file: String },
    Release { clerk_id: String, reservation_id: String },
    Commit { clerk_id: String, reservation_id: String },
    ReadOutput { output_file: String },
    /// Delete the stored upload.
    RemoveFile { path: String },
    /// Delete the gray copy.
    RemoveOutput { output_file: String },
    Respond(Reply),
}

/// The name under which an action runs in the queue for the toolchain:
/// the actions that start a program of the toolchain run there, and no
/// others.
pub open spec fn grayscale_job(action: GrayscaleAction) -> Option<Seq<char>> {
    match action {
        GrayscaleAction::CountPages { .. } => Some("grayscale-page-count"@),
        GrayscaleAction::Convert { .. } => Some("grayscale-conversion"@),
        _ => None,
    }
}

impl GrayscaleAction {
    /// The name under which the action runs in the queue for the
    /// toolchain, if it has to run there.
    pub fn job_name(&self) -> (name: Option<&'static str>)
        ensures
            match name {
                Some(n) => grayscale_job(*self) == Some(n@),
                None => grayscale_job(*self).is_none(),
            },
    {
        match self {
            GrayscaleAction::CountPages { .. } => Some("grayscale-page-count"),
            GrayscaleAction::Convert { .. } => Some("grayscale-conversion"),
            _ => None,
        }
    }
}

/// Whether the event answers what the request asked for last.
pub open spec fn grayscale_accepts(state: GrayscaleState, event: GrayscaleEvent) -> bool {
    match (state, event) {
        (GrayscaleState::AwaitingUpload { .. }, GrayscaleEvent::Upload(_)) => true,
        (GrayscaleState::RemovingRejected { .. }, GrayscaleEvent::Removed) => true,
        (GrayscaleState::CountingPages { .. }, GrayscaleEvent::PageCount(_)) => true,
        (GrayscaleState::Reserving { .. }, GrayscaleEvent::Reservation(_)) => true,
        (GrayscaleState::Converting { .. }, GrayscaleEvent::Conversion(_)) => true,
        (GrayscaleState::Releasing { .. }, GrayscaleEvent::Released) => true,
        (GrayscaleState::Committing { .. }, GrayscaleEvent::Committed) => true,
        (GrayscaleState::Reading { .. }, GrayscaleEvent::Output(_)) => true,
        (GrayscaleState::RemovingUpload { .. }, GrayscaleEvent::Removed) => true,
        (GrayscaleState::RemovingOutput { .. }, GrayscaleEvent::Removed) => true,
        _ => false,
    }
}

/// The two files are deleted, then the reply is given.
pub open spec fn grayscale_cleanup(job: GrayscaleJob, reply: Reply) -> (
    GrayscaleState,
    GrayscaleAction,
) {
    (
        GrayscaleState::RemovingUpload { output_file: job.output_file, reply },
        GrayscaleAction::RemoveFile { path: job.temp_path },
    )
}

/// What the request does with the backend's answer to its request for
/// units.
pub open spec fn grayscale_on_reservation(
    job: GrayscaleJob,
    units: i64,
    reservation: QuotaReservation,
) -> (GrayscaleState, GrayscaleAction) {
    if !reservation.allowed {
        grayscale_cleanup(job, Reply::QuotaExceeded { reservation, units })
    } else {
        match reservation.reservation_id {
            None => grayscale_cleanup(job, Reply::NoReservationId),
            Some(reservation_id) => (
                GrayscaleState::Converting { job, reservation_id },
                GrayscaleAction::Convert {
                    mode: job.mode,
                    input: job.temp_path,
                    output_file: job.output_file,
                },
            ),
        }
    }
}

/// The next state of the request and what it asks for, given what came of
/// its last action.
pub open spec fn grayscale_step(state: GrayscaleState, event: GrayscaleEvent) -> (
    GrayscaleState,
    GrayscaleAction,
) {
    match (state, event) {
        (GrayscaleState::AwaitingUpload { clerk_id }, GrayscaleEvent::Upload(Err(error))) => (
            GrayscaleState::Done,
            GrayscaleAction::Respond(Reply::Upload(error)),
        ),
        (
            GrayscaleState::AwaitingUpload { clerk_id },
            GrayscaleEvent::Upload(Ok((request, names))),
        ) => match mode_of(opt_text(request.mode)) {
            None => (
                GrayscaleState::RemovingRejected { reply: Reply::InvalidMode },
                GrayscaleAction::RemoveFile { path: request.temp_path },
            ),
            Some(mode) => (
                GrayscaleState::CountingPages {
                    job: GrayscaleJob {
                        clerk_id,
                        temp_path: request.temp_path,
                        output_file: names.output_file,
                        output_name: names.output_name,
                        mode,
                    },
                },
                GrayscaleAction::CountPages { path: request.temp_path },
            ),
        },
        (GrayscaleState::RemovingRejected { reply }, GrayscaleEvent::Removed) => (
            GrayscaleState::Done,
            GrayscaleAction::Respond(reply),
        ),
        (GrayscaleState::CountingPages { job }, GrayscaleEvent::PageCount(Err(message))) =>
            grayscale_cleanup(job, Reply::Failed(message)),
        (GrayscaleState::CountingPages { job }, GrayscaleEvent::PageCount(Ok(pages))) => (
            GrayscaleState::Reserving { job, units: pages },
            GrayscaleAction::Reserve { clerk_id: job.clerk_id, units: pages },
        ),
        (
            GrayscaleState::Reserving { job, units },
            GrayscaleEvent::Reservation(Err(ReserveError::Backend(_))),
        ) => grayscale_cleanup(job, Reply::ReserveFailed),
        (
            GrayscaleState::Reserving { job, units },
            GrayscaleEvent::Reservation(Err(ReserveError::MissingReservationId)),
        ) => grayscale_cleanup(job, Reply::NoReservationId),
        (
            GrayscaleState::Reserving { job, units },
            GrayscaleEvent::Reservation(Ok(reservation)),
        ) => grayscale_on_reservation(job, units, reservation),
        (
            GrayscaleState::Converting { job, reservation_id },
            GrayscaleEvent::Conversion(Err(message)),
        ) => (
            GrayscaleState::Releasing { job, message },
            GrayscaleAction::Release { clerk_id: job.clerk_id, reservation_id },
        ),
        (
            GrayscaleState::Converting { job, reservation_id },
            GrayscaleEvent::Conversion(Ok(_)),
        ) => (
            GrayscaleState::Committing { job },
            GrayscaleAction::Commit { clerk_id: job.clerk_id, reservation_id },
        ),
        (GrayscaleState::Releasing { job, message }, GrayscaleEvent::Released) =>
            grayscale_cleanup(job, Reply::Failed(message)),
        (GrayscaleState::Committing { job }, GrayscaleEvent::Committed) => (
            GrayscaleState::Reading { job },
            GrayscaleAction::ReadOutput { output_file: job.output_file },
        ),
        (GrayscaleState::Reading { job }, GrayscaleEvent::Output(Err(_))) => grayscale_cleanup(
            job,
            Reply::OutputUnreadable,
        ),
        (GrayscaleState::Reading { job }, GrayscaleEvent::Output(Ok(bytes))) => grayscale_cleanup(
            job,
            Reply::Grayscale { file_name: job.output_name, bytes },
        ),
        (GrayscaleState::RemovingUpload { output_file, reply }, GrayscaleEvent::Removed) => (
            GrayscaleState::RemovingOutput { reply },
            GrayscaleAction::RemoveOutput { output_file },
        ),
        (GrayscaleState::RemovingOutput { reply }, GrayscaleEvent::Removed) => (
            GrayscaleState::Done,
            GrayscaleAction::Respond(reply),
        ),
        _ => arbitrary(),
    }
}

fn cleanup(job: GrayscaleJob, reply: Reply) -> (next: (GrayscaleState, GrayscaleAction))
    ensures
        next == grayscale_cleanup(job, reply),
{
    (
        GrayscaleState::RemovingUpload { output_file: job.output_file, reply },
        GrayscaleAction::RemoveFile { path: job.temp_path },
    )
}

fn on_reservation(job: GrayscaleJob, units: i64, reservation: QuotaReservation) -> (next: (
    GrayscaleState,
    GrayscaleAction,
))
    ensures
        next == grayscale_on_reservation(job, units, reservation),
{
    if !reservation.allowed {
        return cleanup(job, Reply::QuotaExceeded { reservation, units });
    }
    match reservation.reservation_id {
        None => cleanup(job, Reply::NoReservationId),
        Some(reservation_id) => {
            let action = GrayscaleAction::Convert {
                mode: job.mode,
                input: job.temp_path.clone(),
                output_file: job.output_file.clone(),
            };
            (GrayscaleState::Converting { job, reservation_id }, action)
        },
    }
}

impl GrayscaleState {
    /// A request of the given user at its beginning, with what it asks for
    /// first.
    pub fn start(clerk_id: String) -> (begun: (GrayscaleState, GrayscaleAction))
        ensures
            begun.0 == (GrayscaleState::AwaitingUpload { clerk_id }),
            begun.1 == (GrayscaleAction::SaveUpload { max_size_bytes: GRAYSCALE_UPLOAD_LIMIT }),
    {
        (
            GrayscaleState::AwaitingUpload { clerk_id },
            GrayscaleAction::SaveUpload { max_size_bytes: GRAYSCALE_UPLOAD_LIMIT },
        )
    }

    /// Whether the event answers what the request asked for last.
    pub fn accepts(&self, event: &GrayscaleEvent) -> (fits: bool)
        ensures
            fits == grayscale_accepts(*self, *event),
    {
        match (self, event) {
            (GrayscaleState::AwaitingUpload { .. }, GrayscaleEvent::Upload(_)) => true,
            (GrayscaleState::RemovingRejected { .. }, GrayscaleEvent::Removed) => true,
            (GrayscaleState::CountingPages { .. }, GrayscaleEvent::PageCount(_)) => true,
            (GrayscaleState::Reserving { .. }, GrayscaleEvent::Reservation(_)) => true,
            (GrayscaleState::Converting { .. }, GrayscaleEvent::Conversion(_)) => true,
            (GrayscaleState::Releasing { .. }, GrayscaleEvent::Released) => true,
            (GrayscaleState::Committing { .. }, GrayscaleEvent::Committed) => true,
            (GrayscaleState::Reading { .. }, GrayscaleEvent::Output(_)) => true,
            (GrayscaleState::RemovingUpload { .. }, GrayscaleEvent::Removed) => true,
            (GrayscaleState::RemovingOutput { .. }, GrayscaleEvent::Removed) => true,
            _ => false,
        }
    }

    /// Takes what came of the last action and says what to do next.
    pub fn step(self, event: GrayscaleEvent) -> (next: (GrayscaleState, GrayscaleAction))
        requires
            grayscale_accepts(self, event),
        ensures
            next == grayscale_step(self, event),
    {
        match (self, event) {
            (GrayscaleState::AwaitingUpload { clerk_id }, GrayscaleEvent::Upload(Err(error))) => (
                GrayscaleState::Done,
                GrayscaleAction::Respond(Reply::Upload(error)),
            ),
            (
                GrayscaleState::AwaitingUpload { clerk_id },
                GrayscaleEvent::Upload(Ok((request, names))),
            ) => {
                let raw = match &request.mode {
                    Some(text) => Some(text.as_str()),
                    None => None,
                };
                match GrayscaleMode::parse(raw) {
                    Err(_) => (
                        GrayscaleState::RemovingRejected { reply: Reply::InvalidMode },
                        GrayscaleAction::RemoveFile { path: request.temp_path },
                    ),
                    Ok(mode) => {
                        let action = GrayscaleAction::CountPages { path: request.temp_path.clone() };
                        (
                            GrayscaleState::CountingPages {
                                job: GrayscaleJob {
                                    clerk_id,
                                    temp_path: request.temp_path,
                                    output_file: names.output_file,
                                    output_name: names.output_name,
                                    mode,
                                },
                            },
                            action,
                        )
                    },
                }
            },
            (GrayscaleState::RemovingRejected { reply }, GrayscaleEvent::Removed) => (
                GrayscaleState::Done,
                GrayscaleAction::Respond(reply),
            ),
            (GrayscaleState::CountingPages { job }, GrayscaleEvent::PageCount(Err(message))) =>
                cleanup(job, Reply::Failed(message)),
            (GrayscaleState::CountingPages { job }, GrayscaleEvent::PageCount(Ok(pages))) => {
                let action = GrayscaleAction::Reserve { clerk_id: job.clerk_id.clone(), units: pages };
                (GrayscaleState::Reserving { job, units: pages }, action)
            },
            (
                GrayscaleState::Reserving { job, units },
                GrayscaleEvent::Reservation(Err(ReserveError::Backend(_))),
            ) => cleanup(job, Reply::ReserveFailed),
            (
                GrayscaleState::Reserving { job, units },
                GrayscaleEvent::Reservation(Err(ReserveError::MissingReservationId)),
            ) => cleanup(job, Reply::NoReservationId),
            (
                GrayscaleState::Reserving { job, units },
                GrayscaleEvent::Reservation(Ok(reservation)),
            ) => on_reservation(job, units, reservation),
            (
                GrayscaleState::Converting { job, reservation_id },
                GrayscaleEvent::Conversion(Err(message)),
            ) => {
                let action = GrayscaleAction::Release {
                    clerk_id: job.clerk_id.clone(),
                    reservation_id,
                };
                (GrayscaleState::Releasing { job, message }, action)
            },
            (
                GrayscaleState::Converting { job, reservation_id },
                GrayscaleEvent::Conversion(Ok(_)),
            ) => {
                let action = GrayscaleAction::Commit {
                    clerk_id: job.clerk_id.clone(),
                    reservation_id,
                };
                (GrayscaleState::Committing { job }, action)
            },
            (GrayscaleState::Releasing { job, message }, GrayscaleEvent::Released) => cleanup(
                job,
                Reply::Failed(message),
            ),
            (GrayscaleState::Committing { job }, GrayscaleEvent::Committed) => {
                let action = GrayscaleAction::ReadOutput { output_file: job.output_file.clone() };
                (GrayscaleState::Reading { job }, action)
            },
            (GrayscaleState::Reading { job }, GrayscaleEvent::Output(Err(_))) => cleanup(
                job,
                Reply::OutputUnreadable,
            ),
            (GrayscaleState::Reading { job }, GrayscaleEvent::Output(Ok(bytes))) => {
                let reply = Reply::Grayscale { file_name: job.output_name.clone(), bytes };
                cleanup(job, reply)
            },
            (GrayscaleState::RemovingUpload { output_file, reply }, GrayscaleEvent::Removed) => (
                GrayscaleState::RemovingOutput { reply },
                GrayscaleAction::RemoveOutput { output_file },
            ),
            (GrayscaleState::RemovingOutput { reply }, GrayscaleEvent::Removed) => (
                GrayscaleState::Done,
                GrayscaleAction::Respond(reply),
            ),
            _ => unreached(),
        }
    }
}


/// What the request asks for, action by action, when the events come in
/// this order: the run ends where an event does not answer the last
/// action, as after the reply.
pub open spec fn grayscale_run(state: GrayscaleState, events: Seq<GrayscaleEvent>) -> Seq<
    GrayscaleAction,
>
    decreases events.len(),
{
    if events.len() == 0 || !grayscale_accepts(state, events[0]) {
        Seq::empty()
    } else {
        seq![grayscale_step(state, events[0]).1] + grayscale_run(
            grayscale_step(state, events[0]).0,
            events.drop_first(),
        )
    }
}

/// How often the run is granted units: how many of the events that it
/// takes are a reservation that holds units.
pub open spec fn grayscale_grants(state: GrayscaleState, events: Seq<GrayscaleEvent>) -> nat
    decreases events.len(),
{
    if events.len() == 0 || !grayscale_accepts(state, events[0]) {
        0
    } else {
        let here: nat = if events[0] matches GrayscaleEvent::Reservation(Ok(reservation))
            && is_granted(reservation) {
            1
        } else {
            0
        };
        here + grayscale_grants(grayscale_step(state, events[0]).0, events.drop_first())
    }
}

/// How many of the actions commit or release units.
pub open spec fn grayscale_settlements(actions: Seq<GrayscaleAction>) -> nat
    decreases actions.len(),
{
    if actions.len() == 0 {
        0
    } else {
        let here: nat = if actions[0] is Commit || actions[0] is Release {
            1
        } else {
            0
        };
        here + grayscale_settlements(actions.drop_first())
    }
}

/// A run asks for no more than one thing per event.
pub proof fn lemma_grayscale_run_len(state: GrayscaleState, events: Seq<GrayscaleEvent>)
    ensures
        grayscale_run(state, events).len() <= events.len(),
    decreases events.len(),
{
    if events.len() > 0 && grayscale_accepts(state, events[0]) {
        lemma_grayscale_run_len(grayscale_step(state, events[0]).0, events.drop_first());
    }
}

/// A run that comes to its reply settles the units that its state holds
/// and those that it is granted on the way, each once.
pub proof fn lemma_grayscale_settles(state: GrayscaleState, events: Seq<GrayscaleEvent>)
    requires
        grayscale_run(state, events).len() > 0,
        grayscale_run(state, events).last() is Respond,
    ensures
        grayscale_settlements(grayscale_run(state, events)) == grayscale_grants(state, events) + (
        if state is Converting {
            1nat
        } else {
            0nat
        }),
    decreases events.len(),
{
    let run = grayscale_run(state, events);
    let next = grayscale_step(state, events[0]).0;
    let action = grayscale_step(state, events[0]).1;
    let rest = grayscale_run(next, events.drop_first());
    assert(run == seq![action] + rest);
    assert(run[0] == action);
    assert(run.drop_first() == rest);
    let settled: nat = if action is Commit || action is Release {
        1
    } else {
        0
    };
    let granted: nat = if events[0] matches GrayscaleEvent::Reservation(Ok(reservation))
        && is_granted(reservation) {
        1
    } else {
        0
    };
    assert(grayscale_settlements(run) == settled + grayscale_settlements(rest));
    assert(grayscale_grants(state, events) == granted + grayscale_grants(
        next,
        events.drop_first(),
    ));
    assert(settled + (if next is Converting {
        1nat
    } else {
        0nat
    }) == granted + (if state is Converting {
        1nat
    } else {
        0nat
    }));
    if rest.len() > 0 {
        assert(run.last() == rest.last());
        lemma_grayscale_settles(next, events.drop_first());
    } else {
        assert(action is Respond);
        assert(!(next is Converting));
        assert(grayscale_grants(next, events.drop_first()) == 0) by {
            if events.drop_first().len() > 0 && grayscale_accepts(next, events.drop_first()[0]) {
                assert(grayscale_run(next, events.drop_first()).len() > 0);
            }
        }
    }
}

/// Once a request has asked for units, it is not granted units again.
pub proof fn lemma_grayscale_grants_once(state: GrayscaleState, events: Seq<GrayscaleEvent>)
    ensures
        grayscale_grants(state, events) <= 1,
        !(state is AwaitingUpload || state is CountingPages || state is Reserving)
            ==> grayscale_grants(state, events) == 0,
    decreases events.len(),
{
    if events.len() > 0 && grayscale_accepts(state, events[0]) {
        lemma_grayscale_grants_once(grayscale_step(state, events[0]).0, events.drop_first());
    }
}

/// For every request that is granted units, exactly one of commit and
/// release is attempted before the reply, and for a request that is not,
/// none: the commits and releases of a run that comes to its reply are as
/// many as its grants, and those are one at most.
pub proof fn lemma_grayscale_reservation_settled_once(
    clerk_id: String,
    events: Seq<GrayscaleEvent>,
)
    requires
        grayscale_run(GrayscaleState::AwaitingUpload { clerk_id }, events).len() > 0,
        grayscale_run(GrayscaleState::AwaitingUpload { clerk_id }, events).last() is Respond,
    ensures
        grayscale_settlements(grayscale_run(GrayscaleState::AwaitingUpload { clerk_id }, events))
            == grayscale_grants(GrayscaleState::AwaitingUpload { clerk_id }, events),
        grayscale_grants(GrayscaleState::AwaitingUpload { clerk_id }, events) <= 1,
{
    lemma_grayscale_settles(GrayscaleState::AwaitingUpload { clerk_id }, events);
    lemma_grayscale_grants_once(GrayscaleState::AwaitingUpload { clerk_id }, events);
}

/// The stored upload that the request still has to delete.
pub open spec fn grayscale_holds_upload(state: GrayscaleState) -> Option<String> {
    match state {
        GrayscaleState::CountingPages { job } => Some(job.temp_path),
        GrayscaleState::Reserving { job, .. } => Some(job.temp_path),
        GrayscaleState::Converting { job, .. } => Some(job.temp_path),
        GrayscaleState::Releasing { job, .. } => Some(job.temp_path),
        GrayscaleState::Committing { job } => Some(job.temp_path),
        GrayscaleState::Reading { job } => Some(job.temp_path),
        _ => None,
    }
}

/// The file of the gray copy that the request still has to delete.
pub open spec fn grayscale_holds_output(state: GrayscaleState) -> Option<String> {
    match state {
        GrayscaleState::CountingPages { job } => Some(job.output_file),
        GrayscaleState::Reserving { job, .. } => Some(job.output_file),
        GrayscaleState::Converting { job, .. } => Some(job.output_file),
        GrayscaleState::Releasing { job, .. } => Some(job.output_file),
        GrayscaleState::Committing { job } => Some(job.output_file),
        GrayscaleState::Reading { job } => Some(job.output_file),
        GrayscaleState::RemovingUpload { output_file, .. } => Some(output_file),
        _ => None,
    }
}

/// A run that comes to its reply has asked to delete the files that its
/// state holds, and every upload that was stored on the way: no file
/// outlives the request, whatever its outcome.
pub proof fn lemma_grayscale_leaves_no_file(state: GrayscaleState, events: Seq<GrayscaleEvent>)
    requires
        grayscale_run(state, events).len() > 0,
        grayscale_run(state, events).last() is Respond,
    ensures
        grayscale_holds_upload(state) matches Some(path) ==> grayscale_run(
            state,
            events,
        ).contains(GrayscaleAction::RemoveFile { path }),
        grayscale_holds_output(state) matches Some(output_file) ==> grayscale_run(
            state,
            events,
        ).contains(GrayscaleAction::RemoveOutput { output_file }),
        forall|i: int|
            0 <= i < grayscale_run(state, events).len() ==> (#[trigger] events[i]
                matches GrayscaleEvent::Upload(Ok(stored)) ==> grayscale_run(
                state,
                events,
            ).contains(GrayscaleAction::RemoveFile { path: stored.0.temp_path })),
        forall|i: int|
            0 <= i < grayscale_run(state, events).len() ==> (#[trigger] grayscale_run(
                state,
                events,
            )[i] matches GrayscaleAction::Convert { output_file, .. } ==> grayscale_run(
                state,
                events,
            ).contains(GrayscaleAction::RemoveOutput { output_file })),
    decreases events.len(),
{
    let run = grayscale_run(state, events);
    let next = grayscale_step(state, events[0]).0;
    let action = grayscale_step(state, events[0]).1;
    let rest = grayscale_run(next, events.drop_first());
    assert(run == seq![action] + rest);
    assert(run[0] == action);
    lemma_grayscale_run_len(state, events);
    if rest.len() > 0 {
        assert(run.last() == rest.last());
        lemma_grayscale_leaves_no_file(next, events.drop_first());
        assert forall|x: GrayscaleAction| rest.contains(x) implies run.contains(x) by {
            let j = choose|j: int| 0 <= j < rest.len() && rest[j] == x;
            assert(run[j + 1] == x);
        }
        assert forall|i: int| 0 <= i < run.len() implies (#[trigger] events[i]
            matches GrayscaleEvent::Upload(Ok(stored)) ==> run.contains(
            GrayscaleAction::RemoveFile { path: stored.0.temp_path },
        )) by {
            if i > 0 {
                assert(events.drop_first()[i - 1] == events[i]);
            }
        }
        assert forall|i: int| 0 <= i < run.len() implies (#[trigger] run[i]
            matches GrayscaleAction::Convert { output_file, .. } ==> run.contains(
            GrayscaleAction::RemoveOutput { output_file },
        )) by {
            if i > 0 {
                assert(rest[i - 1] == run[i]);
            }
        }
    } else {
        assert(run.len() == 1);
    }
}


/// What a request still has to do when it is given up: the units to
/// release, as the user and the reservation, and the files to delete.
#[derive(Debug, Clone, PartialEq)]
pub struct Owed {
    pub release: Option<(String, String)>,
    pub upload: Option<String>,
    pub output: Option<String>,
}

/// What is still to be done when the request is given up in `state`
/// while `pending` is the action that it asked for last and that is not
/// known to be done: units that are held are released, and so are units
/// whose release was asked for; the files that the state holds are
/// deleted, and so is a file whose deletion was asked for. Units whose
/// commit was asked for are left to the backend.
pub open spec fn grayscale_owed(state: GrayscaleState, pending: GrayscaleAction) -> Owed {
    Owed {
        release: match (state, pending) {
            (GrayscaleState::Converting { job, reservation_id }, _) => Some(
                (job.clerk_id, reservation_id),
            ),
            (_, GrayscaleAction::Release { clerk_id, reservation_id }) => Some(
                (clerk_id, reservation_id),
            ),
            _ => None,
        },
        upload: match pending {
            GrayscaleAction::RemoveFile { path } => Some(path),
            _ => grayscale_holds_upload(state),
        },
        output: match pending {
            GrayscaleAction::RemoveOutput { output_file } => Some(output_file),
            _ => grayscale_holds_output(state),
        },
    }
}

fn job_of(state: &GrayscaleState) -> (job: Option<&GrayscaleJob>)
    ensures
        match job {
            Some(j) => grayscale_holds_upload(*state) == Some(j.temp_path)
                && grayscale_holds_output(*state) == Some(j.output_file),
            None => grayscale_holds_upload(*state).is_none() && (grayscale_holds_output(*state)
                matches Some(_) ==> *state is RemovingUpload),
        },
{
    match state {
        GrayscaleState::CountingPages { job } => Some(job),
        GrayscaleState::Reserving { job, .. } => Some(job),
        GrayscaleState::Converting { job, .. } => Some(job),
        GrayscaleState::Releasing { job, .. } => Some(job),
        GrayscaleState::Committing { job } => Some(job),
        GrayscaleState::Reading { job } => Some(job),
        _ => None,
    }
}

impl GrayscaleState {
    /// What is still to be done when the request is given up while
    /// `pending` is the action that it asked for last.
    pub fn owed(&self, pending: &GrayscaleAction) -> (owed: Owed)
        ensures
            owed == grayscale_owed(*self, *pending),
    {
        let release = match (self, pending) {
            (GrayscaleState::Converting { job, reservation_id }, _) => Some(
                (job.clerk_id.clone(), reservation_id.clone()),
            ),
            (_, GrayscaleAction::Release { clerk_id, reservation_id }) => Some(
                (clerk_id.clone(), reservation_id.clone()),
            ),
            _ => None,
        };
        let job = job_of(self);
        let upload = match pending {
            GrayscaleAction::RemoveFile { path } => Some(path.clone()),
            _ => match job {
                Some(j) => Some(j.temp_path.clone()),
                None => None,
            },
        };
        let output = match pending {
            GrayscaleAction::RemoveOutput { output_file } => Some(output_file.clone()),
            _ => match job {
                Some(j) => Some(j.output_file.clone()),
                None => match self {
                    GrayscaleState::RemovingUpload { output_file, .. } => Some(output_file.clone()),
                    _ => None,
                },
            },
        };
        Owed { release, upload, output }
    }
}

/// A request that is given up leaves nothing behind once what is owed is
/// done: whatever the state holds is owed, after every step, and after
/// the reply nothing is.
pub proof fn lemma_grayscale_owed_covers(state: GrayscaleState, event: GrayscaleEvent)
    requires
        grayscale_accepts(state, event),
    ensures
        ({
            let next = grayscale_step(state, event).0;
            let action = grayscale_step(state, event).1;
            let owed = grayscale_owed(next, action);
            &&& grayscale_holds_upload(next) matches Some(path) ==> owed.upload == Some(path)
            &&& grayscale_holds_output(next) matches Some(file) ==> owed.output == Some(file)
            &&& next is Converting ==> owed.release.is_some()
            &&& action matches GrayscaleAction::Release { clerk_id, reservation_id }
                ==> owed.release == Some((clerk_id, reservation_id))
            &&& action matches GrayscaleAction::RemoveFile { path } ==> owed.upload == Some(path)
            &&& action matches GrayscaleAction::RemoveOutput { output_file } ==> owed.output
                == Some(output_file)
            &&& action is Respond ==> owed == (Owed { release: None, upload: None, output: None })
        }),
{
}

} // verus!
