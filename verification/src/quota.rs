use vstd::prelude::*;
use crate::plans::{
    is_active_status, is_subscription_active, monthly_units_of, plan_definition, plan_of_name,
    resolve_plan_id, PlanId,
};

verus! {

/// What the backend answered to a request for units, with the plan and the
/// quota under which it was asked.
#[derive(Debug, Clone, PartialEq)]
pub struct QuotaReservation {
    pub allowed: bool,
    pub reservation_id: Option<String>,
    pub plan_id: PlanId,
    pub monthly_quota: Option<i64>,
    pub total_this_month: i64,
    pub pending_units: i64,
}

/// A user's subscription as the backend stores it.
#[derive(Debug, Clone, PartialEq)]
pub struct SubscriptionRecord {
    pub plan: Option<String>,
    pub status: Option<String>,
}

/// The backend's answer to a request for units.
#[derive(Debug, Clone, PartialEq)]
pub struct ReserveResult {
    pub allowed: bool,
    pub reservation_id: Option<String>,
    pub total_this_month: i64,
    pub pending_units: Option<i64>,
}

/// The backend's answer to the commit of a reservation.
#[derive(Debug, Clone, Copy, PartialEq)]
pub struct CommitReservationResult {
    pub committed: bool,
}

/// What is asked of the backend to reserve units.
#[derive(Debug, Clone, PartialEq)]
pub struct ReserveRequest {
    pub clerk_id: String,
    pub units: i64,
    pub monthly_quota: Option<i64>,
}

/// The text of an optional string: nothing is the empty text.
pub open spec fn opt_text(value: Option<String>) -> Seq<char> {
    match value {
        Some(v) => v@,
        None => Seq::empty(),
    }
}

/// The plan that counts for a user: the plan of the subscription where
/// there is one and it is active, else the free plan.
pub open spec fn plan_in_force(subscription: Option<SubscriptionRecord>) -> PlanId {
    match subscription {
        Some(record) => if record.status matches Some(status) && is_active_status(status@) {
            plan_of_name(opt_text(record.plan))
        } else {
            PlanId::Free
        },
        None => PlanId::Free,
    }
}

fn opt_str(value: &Option<String>) -> (text: Option<&str>)
    ensures
        crate::plans::text_or_empty(text) == opt_text(*value),
        match text {
            Some(t) => value matches Some(v) && t@ == v@,
            None => value.is_none(),
        },
{
    match value {
        Some(v) => Some(v.as_str()),
        None => None,
    }
}

pub fn plan_for_subscription(subscription: &Option<SubscriptionRecord>) -> (plan_id: PlanId)
    ensures
        plan_id == plan_in_force(*subscription),
{
    match subscription {
        Some(record) => {
            if is_subscription_active(opt_str(&record.status)) {
                resolve_plan_id(opt_str(&record.plan))
            } else {
                PlanId::Free
            }
        },
        None => PlanId::Free,
    }
}

/// What to ask of the backend to reserve `units` for a user with this
/// subscription: the quota is that of the plan in force.
pub fn reserve_request(
    clerk_id: &str,
    units: i64,
    subscription: &Option<SubscriptionRecord>,
) -> (request: ReserveRequest)
    ensures
        request.clerk_id@ == clerk_id@,
        request.units == units,
        request.monthly_quota == monthly_units_of(plan_in_force(*subscription)),
{
    let plan_id = plan_for_subscription(subscription);
    ReserveRequest {
        clerk_id: clerk_id.to_owned(),
        units,
        monthly_quota: plan_definition(plan_id).monthly_units,
    }
}

/// Why no reservation was made.
#[derive(Debug, Clone, PartialEq)]
pub enum ReserveError {
    /// The backend could not be asked, or did not answer, with the words
    /// of the failure.
    Backend(String),
    /// The backend allowed the units without an identifier under which
    /// to commit or release them.
    MissingReservationId,
}

impl QuotaReservation {
    /// A reservation that allows the units has an identifier.
    pub open spec fn well_formed(&self) -> bool {
        self.allowed ==> self.reservation_id.is_some()
    }
}

/// The reservation that an answer of the backend stands for under a plan;
/// pending units that the backend does not name count as none.
pub open spec fn reservation_of(plan_id: PlanId, result: ReserveResult) -> QuotaReservation {
    QuotaReservation {
        allowed: result.allowed,
        reservation_id: result.reservation_id,
        plan_id,
        monthly_quota: monthly_units_of(plan_id),
        total_this_month: result.total_this_month,
        pending_units: match result.pending_units {
            Some(n) => n,
            None => 0,
        },
    }
}

/// The reservation that the backend's answer makes under a plan. An
/// answer that allows the units without an identifier makes none: a
/// reservation that allows always has its identifier.
pub fn reservation_from_result(plan_id: PlanId, result: ReserveResult) -> (reservation: Result<
    QuotaReservation,
    ReserveError,
>)
    ensures
        reservation == if result.allowed && result.reservation_id.is_none() {
            Err::<QuotaReservation, ReserveError>(ReserveError::MissingReservationId)
        } else {
            Ok(reservation_of(plan_id, result))
        },
        reservation matches Ok(r) ==> r.well_formed(),
{
    if result.allowed && result.reservation_id.is_none() {
        return Err(ReserveError::MissingReservationId);
    }
    Ok(
        QuotaReservation {
            allowed: result.allowed,
            reservation_id: result.reservation_id,
            plan_id,
            monthly_quota: plan_definition(plan_id).monthly_units,
            total_this_month: result.total_this_month,
            pending_units: match result.pending_units {
                Some(n) => n,
                None => 0,
            },
        },
    )
}

/// Whether a reservation holds units: it is allowed and has an
/// identifier under which to commit or release it.
pub open spec fn is_granted(reservation: QuotaReservation) -> bool {
    reservation.allowed && reservation.reservation_id.is_some()
}

} // verus!
