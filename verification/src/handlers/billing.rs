use vstd::prelude::*;
use vstd::pervasive::unreached;
use crate::handlers::{CreateCheckoutRequest, Notice, Reply, SyncStripeSessionRequest};
use crate::plans::{lookup, PlanId, PriceMap};
use crate::quota::SubscriptionRecord;
use crate::stripe_api::{
    session_price, session_price_id, StripeBillingPortalSession, StripeCheckoutSession,
    StripeCustomer,
};
use crate::text::{
    chars_of, is_blank, push_str, str_eq, str_is_blank, string_of, trim, trim_end_matches,
    trim_end_matches_bound,
};

verus! {

/// A user as the backend knows it for the payment provider.
#[derive(Debug, Clone, PartialEq)]
pub struct ConvexUserForStripe {
    pub clerk_id: String,
    pub email: String,
    pub stripe_customer_id: Option<String>,
}

/// The status under which a subscription is stored.
#[derive(Debug, Clone, PartialEq)]
pub enum SyncStatus {
    /// `active`.
    Active,
    /// The status that the payment provider reports.
    Reported(String),
}

/// The text of a status.
pub open spec fn sync_status_text(status: SyncStatus) -> Seq<char> {
    match status {
        SyncStatus::Active => "active"@,
        SyncStatus::Reported(text) => text@,
    }
}

impl SyncStatus {
    pub fn text(&self) -> (text: String)
        ensures
            text@ == sync_status_text(*self),
    {
        match self {
            SyncStatus::Active => "active".to_owned(),
            SyncStatus::Reported(text) => text.clone(),
        }
    }
}

/// A subscription as it is to be stored in the backend: a new one, or
/// with `update` in place of the one that is there.
#[derive(Debug, Clone, PartialEq)]
pub struct SubscriptionSync {
    pub update: bool,
    pub user_id: String,
    pub plan: PlanId,
    pub status: SyncStatus,
    pub stripe_subscription_id: String,
    pub stripe_price_id: Option<String>,
    /// The end of the paid period, in milliseconds since 1970.
    pub ends_at: Option<i64>,
}

/// The name of the backend's function that stores a subscription.
pub open spec fn sync_function(update: bool) -> Seq<char> {
    if update {
        "subscriptions:updateSubscription"@
    } else {
        "subscriptions:createSubscription"@
    }
}

impl SubscriptionSync {
    pub fn function_name(&self) -> (name: &'static str)
        ensures
            name@ == sync_function(self.update),
    {
        if self.update {
            "subscriptions:updateSubscription"
        } else {
            "subscriptions:createSubscription"
        }
    }
}

/// Whether an optional text is there and not blank.
pub open spec fn is_given(value: Option<String>) -> bool {
    match value {
        Some(v) => !is_blank(v@),
        None => false,
    }
}

fn given(value: &Option<String>) -> (there: bool)
    ensures
        there == is_given(*value),
{
    match value {
        Some(v) => !str_is_blank(v.as_str()),
        None => false,
    }
}

/// What a checkout is made of.
#[derive(Debug, Clone, PartialEq)]
pub struct CheckoutOrder {
    pub price_id: String,
    pub success_url: String,
    pub cancel_url: String,
}

/// Where a request for a checkout stands.
#[derive(Debug, Clone, PartialEq)]
pub enum CheckoutState {
    /// Waiting for the user's record.
    AwaitingUser { order: CheckoutOrder },
    /// Waiting for the new customer.
    CreatingCustomer { order: CheckoutOrder, clerk_id: String },
    /// Waiting for the customer to be stored with the user.
    StoringCustomer { order: CheckoutOrder, customer_id: String },
    /// Waiting for the checkout session.
    CreatingSession,
    Done,
}

pub enum CheckoutEvent {
    User(Result<Option<ConvexUserForStripe>, ()>),
    Customer(Result<StripeCustomer, ()>),
    CustomerStored(Result<(), ()>),
    Session(Result<StripeCheckoutSession, ()>),
}

#[derive(Debug, PartialEq)]
pub enum CheckoutAction {
    GetUserForStripe { clerk_id: String },
    CreateCustomer { email: String, clerk_id: String },
    SetStripeCustomerId { clerk_id: String, stripe_customer_id: String },
    CreateCheckoutSession {
        customer_id: String,
        price_id: String,
        success_url: String,
        cancel_url: String,
    },
    Respond(Reply),
}

/// How a request for a checkout begins: the three parameters have to be
/// there and not blank, and the price to be one of the configured ones;
/// then the user's record is asked for.
pub open spec fn checkout_begin(
    clerk_id: String,
    body: CreateCheckoutRequest,
    prices: Map<Seq<char>, PlanId>,
) -> (CheckoutState, CheckoutAction) {
    if !is_given(body.price_id) || !is_given(body.success_url) || !is_given(body.cancel_url) {
        (CheckoutState::Done, CheckoutAction::Respond(Reply::Plain(Notice::CheckoutMissingParameters)))
    } else if lookup(prices, trim(body.price_id.unwrap()@)).is_none() {
        (CheckoutState::Done, CheckoutAction::Respond(Reply::Plain(Notice::UnknownPrice)))
    } else {
        (
            CheckoutState::AwaitingUser {
                order: CheckoutOrder {
                    price_id: body.price_id.unwrap(),
                    success_url: body.success_url.unwrap(),
                    cancel_url: body.cancel_url.unwrap(),
                },
            },
            CheckoutAction::GetUserForStripe { clerk_id },
        )
    }
}

pub open spec fn checkout_accepts(state: CheckoutState, event: CheckoutEvent) -> bool {
    match (state, event) {
        (CheckoutState::AwaitingUser { .. }, CheckoutEvent::User(_)) => true,
        (CheckoutState::CreatingCustomer { .. }, CheckoutEvent::Customer(_)) => true,
        (CheckoutState::StoringCustomer { .. }, CheckoutEvent::CustomerStored(_)) => true,
        (CheckoutState::CreatingSession, CheckoutEvent::Session(_)) => true,
        _ => false,
    }
}

/// The request fails.
pub open spec fn checkout_fails() -> (CheckoutState, CheckoutAction) {
    (CheckoutState::Done, CheckoutAction::Respond(Reply::Plain(Notice::CheckoutFailed)))
}

/// The session is asked for.
pub open spec fn checkout_session_for(order: CheckoutOrder, customer_id: String) -> (
    CheckoutState,
    CheckoutAction,
) {
    (
        CheckoutState::CreatingSession,
        CheckoutAction::CreateCheckoutSession {
            customer_id,
            price_id: order.price_id,
            success_url: order.success_url,
            cancel_url: order.cancel_url,
        },
    )
}

/// The next state of the request and what it asks for: a user without a
/// customer of the payment provider gets one, which is stored with the
/// user, before the session is made; the reply is the session's address.
pub open spec fn checkout_step(state: CheckoutState, event: CheckoutEvent) -> (
    CheckoutState,
    CheckoutAction,
) {
    match (state, event) {
        (CheckoutState::AwaitingUser { order }, CheckoutEvent::User(Err(_))) => checkout_fails(),
        (CheckoutState::AwaitingUser { order }, CheckoutEvent::User(Ok(None))) => (
            CheckoutState::Done,
            CheckoutAction::Respond(Reply::Plain(Notice::UserNotInBackend)),
        ),
        (CheckoutState::AwaitingUser { order }, CheckoutEvent::User(Ok(Some(user)))) => match user.stripe_customer_id {
            Some(customer_id) => checkout_session_for(order, customer_id),
            None => (
                CheckoutState::CreatingCustomer { order, clerk_id: user.clerk_id },
                CheckoutAction::CreateCustomer { email: user.email, clerk_id: user.clerk_id },
            ),
        },
        (CheckoutState::CreatingCustomer { order, clerk_id }, CheckoutEvent::Customer(Err(_))) =>
            checkout_fails(),
        (
            CheckoutState::CreatingCustomer { order, clerk_id },
            CheckoutEvent::Customer(Ok(customer)),
        ) => (
            CheckoutState::StoringCustomer { order, customer_id: customer.id },
            CheckoutAction::SetStripeCustomerId { clerk_id, stripe_customer_id: customer.id },
        ),
        (
            CheckoutState::StoringCustomer { order, customer_id },
            CheckoutEvent::CustomerStored(Err(_)),
        ) => checkout_fails(),
        (
            CheckoutState::StoringCustomer { order, customer_id },
            CheckoutEvent::CustomerStored(Ok(_)),
        ) => checkout_session_for(order, customer_id),
        (CheckoutState::CreatingSession, CheckoutEvent::Session(Err(_))) => checkout_fails(),
        (CheckoutState::CreatingSession, CheckoutEvent::Session(Ok(session))) => match session.url {
            Some(url) => (CheckoutState::Done, CheckoutAction::Respond(Reply::Url(url))),
            None => (
                CheckoutState::Done,
                CheckoutAction::Respond(Reply::Plain(Notice::CheckoutWithoutUrl)),
            ),
        },
        _ => arbitrary(),
    }
}

fn session_for(order: CheckoutOrder, customer_id: String) -> (next: (CheckoutState, CheckoutAction))
    ensures
        next == checkout_session_for(order, customer_id),
{
    (
        CheckoutState::CreatingSession,
        CheckoutAction::CreateCheckoutSession {
            customer_id,
            price_id: order.price_id,
            success_url: order.success_url,
            cancel_url: order.cancel_url,
        },
    )
}

impl CheckoutState {
    pub fn start(clerk_id: String, body: CreateCheckoutRequest, prices: &PriceMap) -> (begun: (
        CheckoutState,
        CheckoutAction,
    ))
        ensures
            begun == checkout_begin(clerk_id, body, prices@),
    {
        if !given(&body.price_id) || !given(&body.success_url) || !given(&body.cancel_url) {
            return (
                CheckoutState::Done,
                CheckoutAction::Respond(Reply::Plain(Notice::CheckoutMissingParameters)),
            );
        }
        let price_id = body.price_id.unwrap();
        let success_url = body.success_url.unwrap();
        let cancel_url = body.cancel_url.unwrap();
        if prices.get_plan_for_price_id(Some(price_id.as_str())).is_none() {
            return (
                CheckoutState::Done,
                CheckoutAction::Respond(Reply::Plain(Notice::UnknownPrice)),
            );
        }
        (
            CheckoutState::AwaitingUser { order: CheckoutOrder { price_id, success_url, cancel_url } },
            CheckoutAction::GetUserForStripe { clerk_id },
        )
    }

    pub fn accepts(&self, event: &CheckoutEvent) -> (fits: bool)
        ensures
            fits == checkout_accepts(*self, *event),
    {
        match (self, event) {
            (CheckoutState::AwaitingUser { .. }, CheckoutEvent::User(_)) => true,
            (CheckoutState::CreatingCustomer { .. }, CheckoutEvent::Customer(_)) => true,
            (CheckoutState::StoringCustomer { .. }, CheckoutEvent::CustomerStored(_)) => true,
            (CheckoutState::CreatingSession, CheckoutEvent::Session(_)) => true,
            _ => false,
        }
    }

    pub fn step(self, event: CheckoutEvent) -> (next: (CheckoutState, CheckoutAction))
        requires
            checkout_accepts(self, event),
        ensures
            next == checkout_step(self, event),
    {
        let failed = (
            CheckoutState::Done,
            CheckoutAction::Respond(Reply::Plain(Notice::CheckoutFailed)),
        );
        match (self, event) {
            (CheckoutState::AwaitingUser { order }, CheckoutEvent::User(Err(_))) => failed,
            (CheckoutState::AwaitingUser { order }, CheckoutEvent::User(Ok(None))) => (
                CheckoutState::Done,
                CheckoutAction::Respond(Reply::Plain(Notice::UserNotInBackend)),
            ),
            (CheckoutState::AwaitingUser { order }, CheckoutEvent::User(Ok(Some(user)))) => {
                match user.stripe_customer_id {
                    Some(customer_id) => session_for(order, customer_id),
                    None => {
                        let action = CheckoutAction::CreateCustomer {
                            email: user.email,
                            clerk_id: user.clerk_id.clone(),
                        };
                        (CheckoutState::CreatingCustomer { order, clerk_id: user.clerk_id }, action)
                    },
                }
            },
            (
                CheckoutState::CreatingCustomer { order, clerk_id },
                CheckoutEvent::Customer(Err(_)),
            ) => failed,
            (
                CheckoutState::CreatingCustomer { order, clerk_id },
                CheckoutEvent::Customer(Ok(customer)),
            ) => {
                let action = CheckoutAction::SetStripeCustomerId {
                    clerk_id,
                    stripe_customer_id: customer.id.clone(),
                };
                (CheckoutState::StoringCustomer { order, customer_id: customer.id }, action)
            },
            (
                CheckoutState::StoringCustomer { order, customer_id },
                CheckoutEvent::CustomerStored(Err(_)),
            ) => failed,
            (
                CheckoutState::StoringCustomer { order, customer_id },
                CheckoutEvent::CustomerStored(Ok(_)),
            ) => session_for(order, customer_id),
            (CheckoutState::CreatingSession, CheckoutEvent::Session(Err(_))) => failed,
            (CheckoutState::CreatingSession, CheckoutEvent::Session(Ok(session))) => {
                match session.url {
                    Some(url) => (CheckoutState::Done, CheckoutAction::Respond(Reply::Url(url))),
                    None => (
                        CheckoutState::Done,
                        CheckoutAction::Respond(Reply::Plain(Notice::CheckoutWithoutUrl)),
                    ),
                }
            },
            _ => unreached(),
        }
    }
}

/// What a finished checkout session gives to store.
#[derive(Debug, Clone, PartialEq)]
pub struct SessionOutcome {
    pub subscription_id: String,
    pub price_id: String,
    pub plan: PlanId,
}

/// Where a request to store a finished checkout stands.
#[derive(Debug, Clone, PartialEq)]
pub enum SyncState {
    /// Waiting for the checkout session.
    RetrievingSession { clerk_id: String },
    /// Waiting for the user's record.
    AwaitingUser { clerk_id: String, outcome: SessionOutcome },
    /// Waiting for the subscription that the backend has.
    AwaitingSubscription { clerk_id: String, outcome: SessionOutcome },
    /// Waiting for the subscription to be stored.
    Storing,
    Done,
}

#[derive(Debug, PartialEq)]
pub enum SyncEvent {
    Session(Result<StripeCheckoutSession, ()>),
    User(Result<Option<ConvexUserForStripe>, ()>),
    Subscription(Result<Option<SubscriptionRecord>, ()>),
    Stored(Result<(), ()>),
}

#[derive(Debug, PartialEq)]
pub enum SyncAction {
    RetrieveCheckoutSession { session_id: String },
    GetUserForStripe { clerk_id: String },
    GetSubscription { user_id: String },
    StoreSubscription(SubscriptionSync),
    Respond(Reply),
}

/// How the request begins: the session has to be named.
pub open spec fn sync_begin(clerk_id: String, body: SyncStripeSessionRequest) -> (
    SyncState,
    SyncAction,
) {
    if !is_given(body.session_id) {
        (SyncState::Done, SyncAction::Respond(Reply::Plain(Notice::MissingSessionId)))
    } else {
        (
            SyncState::RetrievingSession { clerk_id },
            SyncAction::RetrieveCheckoutSession { session_id: body.session_id.unwrap() },
        )
    }
}

pub open spec fn sync_accepts(state: SyncState, event: SyncEvent) -> bool {
    match (state, event) {
        (SyncState::RetrievingSession { .. }, SyncEvent::Session(_)) => true,
        (SyncState::AwaitingUser { .. }, SyncEvent::User(_)) => true,
        (SyncState::AwaitingSubscription { .. }, SyncEvent::Subscription(_)) => true,
        (SyncState::Storing, SyncEvent::Stored(_)) => true,
        _ => false,
    }
}

/// The request ends with this fixed reply.
pub open spec fn sync_ends(notice: Notice) -> (SyncState, SyncAction) {
    (SyncState::Done, SyncAction::Respond(Reply::Plain(notice)))
}

/// Whether a session is complete.
pub open spec fn is_complete(session: StripeCheckoutSession) -> bool {
    match session.status {
        Some(status) => status@ == "complete"@,
        None => false,
    }
}

/// What the request does with the checkout session: the session has to be
/// complete, to name a subscription and a price, and the price to be one
/// of the configured ones.
pub open spec fn sync_on_session(
    clerk_id: String,
    session: StripeCheckoutSession,
    prices: Map<Seq<char>, PlanId>,
) -> (SyncState, SyncAction) {
    if !is_complete(session) {
        sync_ends(Notice::SessionNotComplete)
    } else {
        match (session.subscription, session_price(session)) {
            (Some(subscription), Some(price_id)) => if trim(price_id@).len() == 0 {
                sync_ends(Notice::UnknownPrice)
            } else {
                match lookup(prices, trim(price_id@)) {
                    None => sync_ends(Notice::UnknownPrice),
                    Some(plan) => (
                        SyncState::AwaitingUser {
                            clerk_id,
                            outcome: SessionOutcome {
                                subscription_id: subscription.spec_id(),
                                price_id,
                                plan,
                            },
                        },
                        SyncAction::GetUserForStripe { clerk_id },
                    ),
                }
            },
            _ => sync_ends(Notice::SessionWithoutSubscription),
        }
    }
}

/// The next state of the request and what it asks for: the user has to
/// be known to the backend; the subscription is stored as active, in place
/// of the one that the backend has, if it has one.
pub open spec fn sync_step(state: SyncState, event: SyncEvent, prices: Map<Seq<char>, PlanId>) -> (
    SyncState,
    SyncAction,
) {
    match (state, event) {
        (SyncState::RetrievingSession { clerk_id }, SyncEvent::Session(Err(_))) => sync_ends(
            Notice::SyncFailed,
        ),
        (SyncState::RetrievingSession { clerk_id }, SyncEvent::Session(Ok(session))) =>
            sync_on_session(clerk_id, session, prices),
        (SyncState::AwaitingUser { clerk_id, outcome }, SyncEvent::User(Err(_))) => sync_ends(
            Notice::SyncFailed,
        ),
        (SyncState::AwaitingUser { clerk_id, outcome }, SyncEvent::User(Ok(None))) => sync_ends(
            Notice::UserNotFound,
        ),
        (SyncState::AwaitingUser { clerk_id, outcome }, SyncEvent::User(Ok(Some(_)))) => (
            SyncState::AwaitingSubscription { clerk_id, outcome },
            SyncAction::GetSubscription { user_id: clerk_id },
        ),
        (SyncState::AwaitingSubscription { clerk_id, outcome }, SyncEvent::Subscription(Err(_))) =>
            sync_ends(Notice::SyncFailed),
        (
            SyncState::AwaitingSubscription { clerk_id, outcome },
            SyncEvent::Subscription(Ok(existing)),
        ) => (
            SyncState::Storing,
            SyncAction::StoreSubscription(
                SubscriptionSync {
                    update: existing.is_some(),
                    user_id: clerk_id,
                    plan: outcome.plan,
                    status: SyncStatus::Active,
                    stripe_subscription_id: outcome.subscription_id,
                    stripe_price_id: Some(outcome.price_id),
                    ends_at: None,
                },
            ),
        ),
        (SyncState::Storing, SyncEvent::Stored(Err(_))) => sync_ends(Notice::SyncFailed),
        (SyncState::Storing, SyncEvent::Stored(Ok(_))) => (
            SyncState::Done,
            SyncAction::Respond(Reply::Synced),
        ),
        _ => arbitrary(),
    }
}

fn ends(notice: Notice) -> (next: (SyncState, SyncAction))
    ensures
        next == sync_ends(notice),
{
    (SyncState::Done, SyncAction::Respond(Reply::Plain(notice)))
}

fn on_session(clerk_id: String, session: StripeCheckoutSession, prices: &PriceMap) -> (next: (
    SyncState,
    SyncAction,
))
    ensures
        next == sync_on_session(clerk_id, session, prices@),
{
    let complete = match &session.status {
        Some(status) => str_eq(status.as_str(), "complete"),
        None => false,
    };
    if !complete {
        return ends(Notice::SessionNotComplete);
    }
    let price_id = session_price_id(&session);
    match (session.subscription, price_id) {
        (Some(subscription), Some(price_id)) => {
            match prices.get_plan_for_price_id(Some(price_id.as_str())) {
                None => ends(Notice::UnknownPrice),
                Some(plan) => {
                    let action = SyncAction::GetUserForStripe { clerk_id: clerk_id.clone() };
                    (
                        SyncState::AwaitingUser {
                            clerk_id,
                            outcome: SessionOutcome {
                                subscription_id: subscription.id(),
                                price_id,
                                plan,
                            },
                        },
                        action,
                    )
                },
            }
        },
        _ => ends(Notice::SessionWithoutSubscription),
    }
}

impl SyncState {
    pub fn start(clerk_id: String, body: SyncStripeSessionRequest) -> (begun: (
        SyncState,
        SyncAction,
    ))
        ensures
            begun == sync_begin(clerk_id, body),
    {
        if !given(&body.session_id) {
            return ends(Notice::MissingSessionId);
        }
        (
            SyncState::RetrievingSession { clerk_id },
            SyncAction::RetrieveCheckoutSession { session_id: body.session_id.unwrap() },
        )
    }

    pub fn accepts(&self, event: &SyncEvent) -> (fits: bool)
        ensures
            fits == sync_accepts(*self, *event),
    {
        match (self, event) {
            (SyncState::RetrievingSession { .. }, SyncEvent::Session(_)) => true,
            (SyncState::AwaitingUser { .. }, SyncEvent::User(_)) => true,
            (SyncState::AwaitingSubscription { .. }, SyncEvent::Subscription(_)) => true,
            (SyncState::Storing, SyncEvent::Stored(_)) => true,
            _ => false,
        }
    }

    pub fn step(self, event: SyncEvent, prices: &PriceMap) -> (next: (SyncState, SyncAction))
        requires
            sync_accepts(self, event),
        ensures
            next == sync_step(self, event, prices@),
    {
        match (self, event) {
            (SyncState::RetrievingSession { clerk_id }, SyncEvent::Session(Err(_))) => ends(
                Notice::SyncFailed,
            ),
            (SyncState::RetrievingSession { clerk_id }, SyncEvent::Session(Ok(session))) =>
                on_session(clerk_id, session, prices),
            (SyncState::AwaitingUser { clerk_id, outcome }, SyncEvent::User(Err(_))) => ends(
                Notice::SyncFailed,
            ),
            (SyncState::AwaitingUser { clerk_id, outcome }, SyncEvent::User(Ok(None))) => ends(
                Notice::UserNotFound,
            ),
            (SyncState::AwaitingUser { clerk_id, outcome }, SyncEvent::User(Ok(Some(_)))) => {
                let action = SyncAction::GetSubscription { user_id: clerk_id.clone() };
                (SyncState::AwaitingSubscription { clerk_id, outcome }, action)
            },
            (
                SyncState::AwaitingSubscription { clerk_id, outcome },
                SyncEvent::Subscription(Err(_)),
            ) => ends(Notice::SyncFailed),
            (
                SyncState::AwaitingSubscription { clerk_id, outcome },
                SyncEvent::Subscription(Ok(existing)),
            ) => (
                SyncState::Storing,
                SyncAction::StoreSubscription(
                    SubscriptionSync {
                        update: existing.is_some(),
                        user_id: clerk_id,
                        plan: outcome.plan,
                        status: SyncStatus::Active,
                        stripe_subscription_id: outcome.subscription_id,
                        stripe_price_id: Some(outcome.price_id),
                        ends_at: None,
                    },
                ),
            ),
            (SyncState::Storing, SyncEvent::Stored(Err(_))) => ends(Notice::SyncFailed),
            (SyncState::Storing, SyncEvent::Stored(Ok(_))) => (
                SyncState::Done,
                SyncAction::Respond(Reply::Synced),
            ),
            _ => unreached(),
        }
    }
}

/// Where a request for the customer portal stands.
#[derive(Debug, Clone, PartialEq)]
pub enum PortalState {
    /// Waiting for the user's record.
    AwaitingUser { return_url: String },
    /// Waiting for the portal session.
    CreatingSession,
    Done,
}

#[derive(Debug, PartialEq)]
pub enum PortalEvent {
    User(Result<Option<ConvexUserForStripe>, ()>),
    Session(Result<StripeBillingPortalSession, ()>),
}

#[derive(Debug, PartialEq)]
pub enum PortalAction {
    GetUserForStripe { clerk_id: String },
    CreateBillingPortalSession { customer_id: String, return_url: String },
    Respond(Reply),
}

/// Where the portal sends the user back to: the dashboard of the
/// frontend, whose address counts without slashes at its end and is
/// empty where none is configured.
pub open spec fn portal_return_url(frontend_url: Option<String>) -> Seq<char> {
    trim_end_matches(
        match frontend_url {
            Some(url) => url@,
            None => Seq::empty(),
        },
        '/',
    ) + "/dashboard"@
}

pub open spec fn portal_accepts(state: PortalState, event: PortalEvent) -> bool {
    match (state, event) {
        (PortalState::AwaitingUser { .. }, PortalEvent::User(_)) => true,
        (PortalState::CreatingSession, PortalEvent::Session(_)) => true,
        _ => false,
    }
}

pub open spec fn portal_ends(notice: Notice) -> (PortalState, PortalAction) {
    (PortalState::Done, PortalAction::Respond(Reply::Plain(notice)))
}

/// The next state of the request and what it asks for: the user has to
/// be a customer of the payment provider; the reply is the address of the
/// portal session.
pub open spec fn portal_step(state: PortalState, event: PortalEvent) -> (PortalState, PortalAction) {
    match (state, event) {
        (PortalState::AwaitingUser { return_url }, PortalEvent::User(Err(_))) => portal_ends(
            Notice::PortalFailed,
        ),
        (PortalState::AwaitingUser { return_url }, PortalEvent::User(Ok(None))) => portal_ends(
            Notice::PortalWithoutCustomer,
        ),
        (PortalState::AwaitingUser { return_url }, PortalEvent::User(Ok(Some(user)))) => match user.stripe_customer_id {
            None => portal_ends(Notice::PortalWithoutCustomer),
            Some(customer_id) => (
                PortalState::CreatingSession,
                PortalAction::CreateBillingPortalSession { customer_id, return_url },
            ),
        },
        (PortalState::CreatingSession, PortalEvent::Session(Err(_))) => portal_ends(
            Notice::PortalFailed,
        ),
        (PortalState::CreatingSession, PortalEvent::Session(Ok(session))) => match session.url {
            Some(url) => (PortalState::Done, PortalAction::Respond(Reply::Url(url))),
            None => portal_ends(Notice::PortalWithoutUrl),
        },
        _ => arbitrary(),
    }
}

impl PortalState {
    pub fn start(clerk_id: String, frontend_url: &Option<String>) -> (begun: (
        PortalState,
        PortalAction,
    ))
        ensures
            begun.0 matches PortalState::AwaitingUser { return_url } && return_url@
                == portal_return_url(*frontend_url),
            begun.1 == (PortalAction::GetUserForStripe { clerk_id }),
    {
        let base = match frontend_url {
            Some(url) => chars_of(url.as_str()),
            None => Vec::new(),
        };
        assert(base@.subrange(0, base.len() as int) == base@);
        let end = trim_end_matches_bound(&base, 0, base.len(), '/');
        let mut out: Vec<char> = Vec::new();
        crate::text::push_chars(&mut out, &base, 0, end);
        push_str(&mut out, "/dashboard");
        (
            PortalState::AwaitingUser { return_url: string_of(&out) },
            PortalAction::GetUserForStripe { clerk_id },
        )
    }

    pub fn accepts(&self, event: &PortalEvent) -> (fits: bool)
        ensures
            fits == portal_accepts(*self, *event),
    {
        match (self, event) {
            (PortalState::AwaitingUser { .. }, PortalEvent::User(_)) => true,
            (PortalState::CreatingSession, PortalEvent::Session(_)) => true,
            _ => false,
        }
    }

    pub fn step(self, event: PortalEvent) -> (next: (PortalState, PortalAction))
        requires
            portal_accepts(self, event),
        ensures
            next == portal_step(self, event),
    {
        let failed = (PortalState::Done, PortalAction::Respond(Reply::Plain(Notice::PortalFailed)));
        let without_customer = (
            PortalState::Done,
            PortalAction::Respond(Reply::Plain(Notice::PortalWithoutCustomer)),
        );
        match (self, event) {
            (PortalState::AwaitingUser { return_url }, PortalEvent::User(Err(_))) => failed,
            (PortalState::AwaitingUser { return_url }, PortalEvent::User(Ok(None))) =>
                without_customer,
            (PortalState::AwaitingUser { return_url }, PortalEvent::User(Ok(Some(user)))) => {
                match user.stripe_customer_id {
                    None => without_customer,
                    Some(customer_id) => (
                        PortalState::CreatingSession,
                        PortalAction::CreateBillingPortalSession { customer_id, return_url },
                    ),
                }
            },
            (PortalState::CreatingSession, PortalEvent::Session(Err(_))) => failed,
            (PortalState::CreatingSession, PortalEvent::Session(Ok(session))) => {
                match session.url {
                    Some(url) => (PortalState::Done, PortalAction::Respond(Reply::Url(url))),
                    None => (
                        PortalState::Done,
                        PortalAction::Respond(Reply::Plain(Notice::PortalWithoutUrl)),
                    ),
                }
            },
            _ => unreached(),
        }
    }
}

} // verus!
