use vstd::prelude::*;
use vstd::pervasive::unreached;
use crate::ghostscript::CommandOutput;
use crate::handlers::{DeleteApiKeyPath, HttpReply, Notice, Reply, ReplyBody, UsageSummary};
use crate::plans::{monthly_units_of, plan_definition};
use crate::quota::{plan_for_subscription, plan_in_force, SubscriptionRecord};
use crate::text::{
    chars_of, is_blank, push_chars, push_str, starts_with, str_eq, str_is_blank,
    string_of, trim, trimmed,
};

verus! {

/// The units that a user took on a day.
#[derive(Debug, Clone, PartialEq)]
pub struct ConvexUsageRecord {
    pub date: String,
    pub count: i64,
}

/// Units that are held for a user.
#[derive(Debug, Clone, PartialEq)]
pub struct ConvexUsageReservationRecord {
    pub date: String,
    pub status: String,
    pub units: i64,
    /// When the hold ends, in milliseconds since 1970.
    pub expires_at: i64,
}

/// The time at which a user's use is summed up: the month, as year and
/// month with a hyphen between them, and the milliseconds since 1970.
#[derive(Debug, Clone, PartialEq)]
pub struct UsageClock {
    pub current_month: String,
    pub now_ms: i64,
}

/// All units of the records.
pub open spec fn total_units(records: Seq<ConvexUsageRecord>) -> int
    decreases records.len(),
{
    if records.len() == 0 {
        0
    } else {
        total_units(records.drop_last()) + records.last().count
    }
}

/// The units of the records whose date begins with the month.
pub open spec fn month_units(records: Seq<ConvexUsageRecord>, month: Seq<char>) -> int
    decreases records.len(),
{
    if records.len() == 0 {
        0
    } else {
        month_units(records.drop_last(), month) + if starts_with(records.last().date@, month) {
            records.last().count as int
        } else {
            0
        }
    }
}

/// Whether a hold counts at the time `now`: it is pending, of the month,
/// and not over.
pub open spec fn is_pending(record: ConvexUsageReservationRecord, month: Seq<char>, now: int) -> bool {
    record.status@ == "pending"@ && starts_with(record.date@, month) && record.expires_at > now
}

/// The units of the holds that count.
pub open spec fn pending_units(
    reservations: Seq<ConvexUsageReservationRecord>,
    month: Seq<char>,
    now: int,
) -> int
    decreases reservations.len(),
{
    if reservations.len() == 0 {
        0
    } else {
        pending_units(reservations.drop_last(), month, now) + if is_pending(
            reservations.last(),
            month,
            now,
        ) {
            reservations.last().units as int
        } else {
            0
        }
    }
}

/// What is left of a quota: nothing below zero, and no number for a plan
/// without a cap.
pub open spec fn remaining_units(quota: Option<i64>, used: int, pending: int) -> Option<int> {
    match quota {
        Some(q) => Some(
            if q - used - pending > 0 {
                q - used - pending
            } else {
                0
            },
        ),
        None => None,
    }
}

pub open spec fn fits_i64(n: int) -> bool {
    i64::MIN <= n <= i64::MAX
}

/// A user's use at a time: the plan in force, all units, those of the
/// month, those held, the quota and what is left of it. There is no
/// summary where one of the numbers is beyond the machine's integers.
pub open spec fn usage_of(
    records: Seq<ConvexUsageRecord>,
    reservations: Seq<ConvexUsageReservationRecord>,
    subscription: Option<SubscriptionRecord>,
    clock: UsageClock,
) -> Option<UsageSummary> {
    let plan = plan_in_force(subscription);
    let total = total_units(records);
    let used = month_units(records, clock.current_month@);
    let pending = pending_units(reservations, clock.current_month@, clock.now_ms as int);
    let quota = monthly_units_of(plan);
    let remaining = remaining_units(quota, used, pending);
    if fits_i64(total) && fits_i64(used) && fits_i64(pending) && (remaining matches Some(r)
        ==> fits_i64(r)) {
        Some(
            UsageSummary {
                plan,
                total_units: total as i64,
                units_this_month: used as i64,
                pending_units: pending as i64,
                monthly_quota: quota,
                remaining_units: match remaining {
                    Some(r) => Some(r as i64),
                    None => None,
                },
            },
        )
    } else {
        None
    }
}

pub open spec fn within(n: int, count: int) -> bool {
    -count * 0x8000_0000_0000_0000 <= n <= count * 0x8000_0000_0000_0000
}

pub fn usage_summary(
    records: &Vec<ConvexUsageRecord>,
    reservations: &Vec<ConvexUsageReservationRecord>,
    subscription: &Option<SubscriptionRecord>,
    clock: &UsageClock,
) -> (summary: Option<UsageSummary>)
    ensures
        summary == usage_of(records@, reservations@, *subscription, *clock),
{
    let month = chars_of(clock.current_month.as_str());
    let mut total: i128 = 0;
    let mut used: i128 = 0;
    let mut i: usize = 0;
    assert(records@.take(0) =~= Seq::<ConvexUsageRecord>::empty());
    while i < records.len()
        invariant
            i <= records.len(),
            month@ == clock.current_month@,
            total == total_units(records@.take(i as int)),
            used == month_units(records@.take(i as int), month@),
            within(total as int, i as int),
            within(used as int, i as int),
        decreases records.len() - i,
    {
        assert(records@.take(i + 1).drop_last() == records@.take(i as int));
        let record = &records[i];
        total = total + record.count as i128;
        let date = chars_of(record.date.as_str());
        assert(date@.skip(0) == date@);
        if crate::text::matches_at(&date, 0, &month) {
            used = used + record.count as i128;
        }
        i += 1;
    }
    assert(records@.take(records.len() as int) == records@);
    let mut pending: i128 = 0;
    let mut j: usize = 0;
    assert(reservations@.take(0) =~= Seq::<ConvexUsageReservationRecord>::empty());
    while j < reservations.len()
        invariant
            j <= reservations.len(),
            month@ == clock.current_month@,
            pending == pending_units(reservations@.take(j as int), month@, clock.now_ms as int),
            within(pending as int, j as int),
        decreases reservations.len() - j,
    {
        assert(reservations@.take(j + 1).drop_last() == reservations@.take(j as int));
        let record = &reservations[j];
        let date = chars_of(record.date.as_str());
        assert(date@.skip(0) == date@);
        if str_eq(record.status.as_str(), "pending") && crate::text::matches_at(&date, 0, &month)
            && record.expires_at > clock.now_ms {
            pending = pending + record.units as i128;
        }
        j += 1;
    }
    assert(reservations@.take(reservations.len() as int) == reservations@);
    let plan = plan_for_subscription(subscription);
    let quota = plan_definition(plan).monthly_units;
    let low: i128 = -0x8000_0000_0000_0000i128;
    let high: i128 = 0x7fff_ffff_ffff_ffffi128;
    if total < low || total > high || used < low || used > high || pending < low || pending
        > high {
        return None;
    }
    let remaining: Option<i64> = match quota {
        Some(q) => {
            let left: i128 = q as i128 - used - pending;
            if left > high {
                return None;
            }
            Some(
                if left > 0 {
                    left as i64
                } else {
                    0
                },
            )
        },
        None => None,
    };
    Some(
        UsageSummary {
            plan,
            total_units: total as i64,
            units_this_month: used as i64,
            pending_units: pending as i64,
            monthly_quota: quota,
            remaining_units: remaining,
        },
    )
}

/// Where a request for a user's use stands.
#[derive(Debug, Clone, PartialEq)]
pub enum UsageState {
    /// Waiting for the records of the units taken.
    AwaitingRecords { clerk_id: String },
    /// Waiting for the units held, and the time.
    AwaitingReservations { clerk_id: String, records: Vec<ConvexUsageRecord> },
    /// Waiting for the subscription.
    AwaitingSubscription {
        records: Vec<ConvexUsageRecord>,
        reservations: Vec<ConvexUsageReservationRecord>,
        clock: UsageClock,
    },
    Done,
}

#[derive(Debug, PartialEq)]
pub enum UsageEvent {
    Records(Result<Vec<ConvexUsageRecord>, ()>),
    /// The units held, with the time at which they were read.
    Reservations(Result<(Vec<ConvexUsageReservationRecord>, UsageClock), ()>),
    Subscription(Result<Option<SubscriptionRecord>, ()>),
}

#[derive(Debug, PartialEq)]
pub enum UsageAction {
    GetUsageData { user_id: String },
    GetUsageReservations { user_id: String },
    GetSubscription { user_id: String },
    Respond(Reply),
}

pub open spec fn usage_accepts(state: UsageState, event: UsageEvent) -> bool {
    match (state, event) {
        (UsageState::AwaitingRecords { .. }, UsageEvent::Records(_)) => true,
        (UsageState::AwaitingReservations { .. }, UsageEvent::Reservations(_)) => true,
        (UsageState::AwaitingSubscription { .. }, UsageEvent::Subscription(_)) => true,
        _ => false,
    }
}

pub open spec fn usage_fails() -> (UsageState, UsageAction) {
    (UsageState::Done, UsageAction::Respond(Reply::Plain(Notice::UsageFailed)))
}

/// The next state of the request and what it asks for: the records, the
/// holds and the subscription are read one after the other, and the reply
/// is the summary of them.
pub open spec fn usage_step(state: UsageState, event: UsageEvent) -> (UsageState, UsageAction) {
    match (state, event) {
        (UsageState::AwaitingRecords { clerk_id }, UsageEvent::Records(Ok(records))) => (
            UsageState::AwaitingReservations { clerk_id, records },
            UsageAction::GetUsageReservations { user_id: clerk_id },
        ),
        (
            UsageState::AwaitingReservations { clerk_id, records },
            UsageEvent::Reservations(Ok(read)),
        ) => (
            UsageState::AwaitingSubscription { records, reservations: read.0, clock: read.1 },
            UsageAction::GetSubscription { user_id: clerk_id },
        ),
        (
            UsageState::AwaitingSubscription { records, reservations, clock },
            UsageEvent::Subscription(Ok(subscription)),
        ) => match usage_of(records@, reservations@, subscription, clock) {
            Some(summary) => (UsageState::Done, UsageAction::Respond(Reply::Usage(summary))),
            None => usage_fails(),
        },
        (UsageState::AwaitingRecords { .. }, UsageEvent::Records(Err(_))) => usage_fails(),
        (UsageState::AwaitingReservations { .. }, UsageEvent::Reservations(Err(_))) =>
            usage_fails(),
        (UsageState::AwaitingSubscription { .. }, UsageEvent::Subscription(Err(_))) =>
            usage_fails(),
        _ => arbitrary(),
    }
}

impl UsageState {
    pub fn start(clerk_id: String) -> (begun: (UsageState, UsageAction))
        ensures
            begun.0 == (UsageState::AwaitingRecords { clerk_id }),
            begun.1 == (UsageAction::GetUsageData { user_id: clerk_id }),
    {
        let action = UsageAction::GetUsageData { user_id: clerk_id.clone() };
        (UsageState::AwaitingRecords { clerk_id }, action)
    }

    pub fn accepts(&self, event: &UsageEvent) -> (fits: bool)
        ensures
            fits == usage_accepts(*self, *event),
    {
        match (self, event) {
            (UsageState::AwaitingRecords { .. }, UsageEvent::Records(_)) => true,
            (UsageState::AwaitingReservations { .. }, UsageEvent::Reservations(_)) => true,
            (UsageState::AwaitingSubscription { .. }, UsageEvent::Subscription(_)) => true,
            _ => false,
        }
    }

    pub fn step(self, event: UsageEvent) -> (next: (UsageState, UsageAction))
        requires
            usage_accepts(self, event),
        ensures
            next == usage_step(self, event),
    {
        let failed = (UsageState::Done, UsageAction::Respond(Reply::Plain(Notice::UsageFailed)));
        match (self, event) {
            (UsageState::AwaitingRecords { clerk_id }, UsageEvent::Records(Ok(records))) => {
                let action = UsageAction::GetUsageReservations { user_id: clerk_id.clone() };
                (UsageState::AwaitingReservations { clerk_id, records }, action)
            },
            (
                UsageState::AwaitingReservations { clerk_id, records },
                UsageEvent::Reservations(Ok(read)),
            ) => (
                UsageState::AwaitingSubscription { records, reservations: read.0, clock: read.1 },
                UsageAction::GetSubscription { user_id: clerk_id },
            ),
            (
                UsageState::AwaitingSubscription { records, reservations, clock },
                UsageEvent::Subscription(Ok(subscription)),
            ) => match usage_summary(&records, &reservations, &subscription, &clock) {
                Some(summary) => (UsageState::Done, UsageAction::Respond(Reply::Usage(summary))),
                None => failed,
            },
            (UsageState::AwaitingRecords { .. }, UsageEvent::Records(Err(_))) => failed,
            (UsageState::AwaitingReservations { .. }, UsageEvent::Reservations(Err(_))) => failed,
            (UsageState::AwaitingSubscription { .. }, UsageEvent::Subscription(Err(_))) => failed,
            _ => unreached(),
        }
    }
}

/// The reply to a request for a new key: the key that the backend made.
pub fn generate_api_key(outcome: Result<String, ()>) -> (reply: Reply)
    ensures
        reply == match outcome {
            Ok(key) => Reply::ApiKeyCreated(key),
            Err(_) => Reply::Plain(Notice::ApiKeyGenerationFailed),
        },
{
    match outcome {
        Ok(key) => Reply::ApiKeyCreated(key),
        Err(_) => Reply::Plain(Notice::ApiKeyGenerationFailed),
    }
}

/// The reply to a request for the user's keys: the list that the backend
/// gave.
pub fn list_api_keys(outcome: Result<String, ()>) -> (reply: Reply)
    ensures
        reply == match outcome {
            Ok(keys) => Reply::Document(keys),
            Err(_) => Reply::Plain(Notice::ApiKeyListingFailed),
        },
{
    match outcome {
        Ok(keys) => Reply::Document(keys),
        Err(_) => Reply::Plain(Notice::ApiKeyListingFailed),
    }
}

/// What is to be done with a request to delete a key.
#[derive(Debug, PartialEq)]
pub enum DeleteApiKeyStep {
    /// Ask the backend to delete the key of the user.
    Delete { clerk_id: String, api_key_id: String },
    Respond(Reply),
}

/// A request to delete a key has to name the key; then the backend is
/// asked to delete it.
pub fn delete_api_key(clerk_id: String, path: DeleteApiKeyPath) -> (step: DeleteApiKeyStep)
    ensures
        step == if is_blank(path.id@) {
            DeleteApiKeyStep::Respond(Reply::Plain(Notice::MissingApiKeyId))
        } else {
            DeleteApiKeyStep::Delete { clerk_id, api_key_id: path.id }
        },
{
    if str_is_blank(path.id.as_str()) {
        DeleteApiKeyStep::Respond(Reply::Plain(Notice::MissingApiKeyId))
    } else {
        DeleteApiKeyStep::Delete { clerk_id, api_key_id: path.id }
    }
}

/// The reply once the backend was asked to delete a key.
pub fn api_key_deleted(outcome: Result<(), ()>) -> (reply: Reply)
    ensures
        reply == match outcome {
            Ok(_) => Reply::ApiKeyDeleted,
            Err(_) => Reply::Plain(Notice::ApiKeyDeletionFailed),
        },
{
    match outcome {
        Ok(_) => Reply::ApiKeyDeleted,
        Err(_) => Reply::Plain(Notice::ApiKeyDeletionFailed),
    }
}

/// The reply to a request for the user's subscription: the subscription
/// that the backend has, as it gave it, or that there is none.
pub fn get_subscription(outcome: Result<Option<String>, ()>) -> (reply: Reply)
    ensures
        reply == match outcome {
            Ok(Some(subscription)) => Reply::Document(subscription),
            Ok(None) => Reply::NoSubscription,
            Err(_) => Reply::Plain(Notice::SubscriptionFailed),
        },
{
    match outcome {
        Ok(Some(subscription)) => Reply::Document(subscription),
        Ok(None) => Reply::NoSubscription,
        Err(_) => Reply::Plain(Notice::SubscriptionFailed),
    }
}

pub fn conversion_placeholder() -> (reply: Reply)
    ensures
        reply == Reply::Plain(Notice::Conversion),
{
    Reply::Plain(Notice::Conversion)
}

pub fn not_found() -> (reply: Reply)
    ensures
        reply == Reply::Plain(Notice::NotFound),
{
    Reply::Plain(Notice::NotFound)
}

/// What the probe of the renderer says: its version where it answered
/// with success, else that it was not checked, with the reason.
pub open spec fn renderer_status(probe: Result<CommandOutput, String>) -> Seq<char> {
    match probe {
        Ok(output) => if output.success {
            trim(output.stdout@)
        } else if is_blank(output.stderr@) {
            "Not checked (Error: Exit status: "@ + output.status@ + ")"@
        } else {
            "Not checked (Error: Stderr: "@ + trim(output.stderr@) + ")"@
        },
        Err(error) => "Not checked (Error: Failed to execute gs -v: "@ + error@ + ")"@,
    }
}

/// What the health check says, given the probe of the renderer and the
/// backend's answer.
pub open spec fn health_text(probe: Result<CommandOutput, String>, backend: Result<String, ()>) -> Seq<
    char,
> {
    match backend {
        Ok(status) => "Express server is online. Convex status: \""@ + status@
            + "\". Ghostscript status: "@ + renderer_status(probe),
        Err(_) => "Failed to connect to Convex. Ghostscript status: "@ + renderer_status(probe),
    }
}

/// The reply of the health check: the status of the backend and of the
/// renderer in words, as a failure where the backend did not answer.
pub fn health(probe: &Result<CommandOutput, String>, backend: &Result<String, ()>) -> (reply:
    HttpReply)
    ensures
        reply.status == if backend.is_ok() {
            200u16
        } else {
            500u16
        },
        reply.body matches ReplyBody::Text(text) && text@ == health_text(*probe, *backend),
{
    let mut out: Vec<char> = Vec::new();
    let status: u16 = match backend {
        Ok(answer) => {
            push_str(&mut out, "Express server is online. Convex status: \"");
            push_str(&mut out, answer.as_str());
            push_str(&mut out, "\". Ghostscript status: ");
            200
        },
        Err(_) => {
            push_str(&mut out, "Failed to connect to Convex. Ghostscript status: ");
            500
        },
    };
    let ghost head = out@;
    match probe {
        Ok(output) => {
            if output.success {
                let version = trimmed(output.stdout.as_str());
                push_chars(&mut out, &version, 0, version.len());
                assert(version@.subrange(0, version.len() as int) == version@);
            } else {
                let errors = trimmed(output.stderr.as_str());
                if errors.len() == 0 {
                    push_str(&mut out, "Not checked (Error: Exit status: ");
                    push_str(&mut out, output.status.as_str());
                } else {
                    push_str(&mut out, "Not checked (Error: Stderr: ");
                    push_chars(&mut out, &errors, 0, errors.len());
                    assert(errors@.subrange(0, errors.len() as int) == errors@);
                }
                push_str(&mut out, ")");
            }
        },
        Err(error) => {
            push_str(&mut out, "Not checked (Error: Failed to execute gs -v: ");
            push_str(&mut out, error.as_str());
            push_str(&mut out, ")");
        },
    }
    assert(out@ =~= head + renderer_status(*probe));
    HttpReply { status, body: ReplyBody::Text(string_of(&out)) }
}


/// Where the health check stands.
#[derive(Debug, PartialEq)]
pub enum HealthState {
    /// Waiting for the probe of the renderer.
    Probing,
    /// Waiting for the backend's answer.
    AwaitingBackend { probe: Result<CommandOutput, String> },
    Done,
}

/// What came of the action that the health check asked for.
#[derive(Debug, PartialEq)]
pub enum HealthEvent {
    /// What the renderer left behind, or why it did not run to its end.
    Probe(Result<CommandOutput, String>),
    /// The backend's status, or that it did not answer.
    Backend(Result<String, ()>),
}

/// What the health check asks for next.
#[derive(Debug, PartialEq)]
pub enum HealthAction {
    /// Run the renderer with the arguments of `health_probe_args`.
    ProbeRenderer,
    /// Ask the backend for its status.
    QueryBackend,
    /// Reply with what `health` makes of the two.
    Respond { probe: Result<CommandOutput, String>, backend: Result<String, ()> },
}

/// The name under which an action of the health check runs in the queue
/// for the toolchain: the probe starts the renderer and runs there like
/// any other job.
pub open spec fn health_job(action: HealthAction) -> Option<Seq<char>> {
    match action {
        HealthAction::ProbeRenderer => Some("health-probe"@),
        _ => None,
    }
}

impl HealthAction {
    /// The name under which the action runs in the queue for the
    /// toolchain, if it has to run there.
    pub fn job_name(&self) -> (name: Option<&'static str>)
        ensures
            match name {
                Some(n) => health_job(*self) == Some(n@),
                None => health_job(*self).is_none(),
            },
    {
        match self {
            HealthAction::ProbeRenderer => Some("health-probe"),
            _ => None,
        }
    }
}

/// The arguments with which the renderer names its version.
pub fn health_probe_args() -> (args: Vec<String>)
    ensures
        args@.len() == 1,
        args@[0]@ == "-v"@,
{
    let mut args: Vec<String> = Vec::new();
    args.push("-v".to_owned());
    args
}

pub open spec fn health_accepts(state: HealthState, event: HealthEvent) -> bool {
    match (state, event) {
        (HealthState::Probing, HealthEvent::Probe(_)) => true,
        (HealthState::AwaitingBackend { .. }, HealthEvent::Backend(_)) => true,
        _ => false,
    }
}

/// The next state of the health check and what it asks for: the renderer
/// is probed, then the backend asked, and the reply made of both.
pub open spec fn health_step(state: HealthState, event: HealthEvent) -> (HealthState, HealthAction) {
    match (state, event) {
        (HealthState::Probing, HealthEvent::Probe(probe)) => (
            HealthState::AwaitingBackend { probe },
            HealthAction::QueryBackend,
        ),
        (HealthState::AwaitingBackend { probe }, HealthEvent::Backend(backend)) => (
            HealthState::Done,
            HealthAction::Respond { probe, backend },
        ),
        _ => arbitrary(),
    }
}

impl HealthState {
    /// The health check at its beginning, with what it asks for first.
    pub fn start() -> (begun: (HealthState, HealthAction))
        ensures
            begun == (HealthState::Probing, HealthAction::ProbeRenderer),
    {
        (HealthState::Probing, HealthAction::ProbeRenderer)
    }

    pub fn accepts(&self, event: &HealthEvent) -> (fits: bool)
        ensures
            fits == health_accepts(*self, *event),
    {
        match (self, event) {
            (HealthState::Probing, HealthEvent::Probe(_)) => true,
            (HealthState::AwaitingBackend { .. }, HealthEvent::Backend(_)) => true,
            _ => false,
        }
    }

    pub fn step(self, event: HealthEvent) -> (next: (HealthState, HealthAction))
        requires
            health_accepts(self, event),
        ensures
            next == health_step(self, event),
    {
        match (self, event) {
            (HealthState::Probing, HealthEvent::Probe(probe)) => (
                HealthState::AwaitingBackend { probe },
                HealthAction::QueryBackend,
            ),
            (HealthState::AwaitingBackend { probe }, HealthEvent::Backend(backend)) => (
                HealthState::Done,
                HealthAction::Respond { probe, backend },
            ),
            _ => unreached(),
        }
    }
}

} // verus!
