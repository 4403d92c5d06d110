use vstd::prelude::*;
use vstd::pervasive::unreached;
use crate::handlers::billing::{SubscriptionSync, SyncStatus};
use crate::handlers::{Notice, Reply};
use crate::plans::{lookup, plan_of_name, resolve_plan_id, PlanId, PriceMap};
use crate::quota::{opt_text, SubscriptionRecord};
use crate::stripe_api::{
    first_price_id, signature_finding, subscription_price_id, subscription_prices, StripeApi,
    StripeCustomer, StripeInvoice, StripeSubscription, WebhookError,
};
use crate::text::{str_eq, trim};

verus! {

/// What an event of the payment provider is about.
#[derive(Debug, Clone, Copy, PartialEq, Eq, Structural)]
pub enum EventKind {
    /// A subscription was created, changed or deleted.
    Subscription,
    /// An invoice was paid, or its payment failed.
    Invoice,
    /// Anything else: taken and not acted on.
    Other,
}

pub open spec fn event_kind(event_type: Seq<char>) -> EventKind {
    if event_type == "customer.subscription.created"@ || event_type
        == "customer.subscription.updated"@ || event_type == "customer.subscription.deleted"@ {
        EventKind::Subscription
    } else if event_type == "invoice.payment_failed"@ || event_type
        == "invoice.payment_succeeded"@ {
        EventKind::Invoice
    } else {
        EventKind::Other
    }
}

pub fn classify_event(event_type: &str) -> (kind: EventKind)
    ensures
        kind == event_kind(event_type@),
{
    if str_eq(event_type, "customer.subscription.created") || str_eq(
        event_type,
        "customer.subscription.updated",
    ) || str_eq(event_type, "customer.subscription.deleted") {
        EventKind::Subscription
    } else if str_eq(event_type, "invoice.payment_failed") || str_eq(
        event_type,
        "invoice.payment_succeeded",
    ) {
        EventKind::Invoice
    } else {
        EventKind::Other
    }
}

/// The user that a customer of the payment provider belongs to: the value
/// of `clerkId` in the metadata, unless the customer is deleted.
pub open spec fn customer_clerk_id(customer: StripeCustomer) -> Option<String> {
    if !customer.deleted && customer.metadata@.contains_key("clerkId"@) {
        Some(customer.metadata@["clerkId"@])
    } else {
        None
    }
}

pub fn get_clerk_id_for_customer(customer: &StripeCustomer) -> (clerk_id: Option<String>)
    ensures
        clerk_id == customer_clerk_id(*customer),
{
    if customer.deleted {
        return None;
    }
    match customer.metadata.get("clerkId") {
        Some(clerk_id) => Some(clerk_id.clone()),
        None => None,
    }
}

/// The plan of an optional price: that of the trimmed identifier in the
/// table, if it is there.
pub open spec fn price_plan(prices: Map<Seq<char>, PlanId>, price_id: Option<String>) -> Option<
    PlanId,
> {
    match price_id {
        Some(id) => if trim(id@).len() == 0 {
            None
        } else {
            lookup(prices, trim(id@))
        },
        None => None,
    }
}

/// The plan under which a subscription of the payment provider is
/// stored: that of its price, or else the plan that the backend has for
/// the user; none where the price is unknown and the backend has nothing.
pub open spec fn synced_plan(
    prices: Map<Seq<char>, PlanId>,
    price_id: Option<String>,
    existing: Option<SubscriptionRecord>,
) -> Option<PlanId> {
    match price_plan(prices, price_id) {
        Some(plan) => Some(plan),
        None => match existing {
            Some(record) => Some(plan_of_name(opt_text(record.plan))),
            None => None,
        },
    }
}

/// The end of the paid period in milliseconds, for an end in seconds.
pub open spec fn period_end_ms(seconds: Option<i64>) -> Option<int> {
    match seconds {
        Some(s) => Some(s * 1000),
        None => None,
    }
}

/// Where the handling of a webhook call stands.
#[derive(Debug, Clone, PartialEq)]
pub enum WebhookState {
    /// Waiting for the event's type.
    Parsing,
    /// Waiting for the subscription that the event holds.
    DecodingSubscription,
    /// Waiting for the invoice that the event holds.
    DecodingInvoice,
    /// Waiting for the subscription that the invoice names.
    RetrievingSubscription,
    /// Waiting for the customer of the subscription.
    RetrievingCustomer { subscription: StripeSubscription },
    /// Waiting for the subscription that the backend has for the user.
    AwaitingSubscription { subscription: StripeSubscription, clerk_id: String },
    /// Waiting for the subscription to be stored.
    Storing,
    Done,
}

pub enum WebhookEvent {
    /// The type of the event, or the payload is no event.
    Parsed(Result<String, ()>),
    Subscription(Result<StripeSubscription, ()>),
    Invoice(Result<StripeInvoice, ()>),
    Customer(Result<StripeCustomer, ()>),
    Existing(Result<Option<SubscriptionRecord>, ()>),
    Stored(Result<(), ()>),
}

#[derive(Debug, PartialEq)]
pub enum WebhookAction {
    /// Read the payload as an event.
    ParseEvent,
    /// Read the event's object as a subscription.
    DecodeSubscription,
    /// Read the event's object as an invoice.
    DecodeInvoice,
    RetrieveSubscription { subscription_id: String },
    RetrieveCustomer { customer_id: String },
    GetSubscription { user_id: String },
    StoreSubscription(SubscriptionSync),
    Respond(Reply),
}

pub open spec fn webhook_ends(reply: Reply) -> (WebhookState, WebhookAction) {
    (WebhookState::Done, WebhookAction::Respond(reply))
}

/// How the handling begins, given the finding on the signature, if the
/// call has a signature header at all: only a call with an accepted
/// signature is read.
pub open spec fn webhook_begin(finding: Option<Result<(), WebhookError>>) -> (
    WebhookState,
    WebhookAction,
) {
    match finding {
        None => webhook_ends(Reply::Plain(Notice::MissingSignature)),
        Some(Err(WebhookError::NotConfigured)) => webhook_ends(
            Reply::Plain(Notice::WebhookNotConfigured),
        ),
        Some(Err(_)) => webhook_ends(Reply::Plain(Notice::InvalidSignature)),
        Some(Ok(_)) => (WebhookState::Parsing, WebhookAction::ParseEvent),
    }
}

/// How the handling of a call begins at the time `now`, in seconds since
/// 1970.
pub open spec fn webhook_begin_at(
    secret: Option<String>,
    signature: Option<&str>,
    payload: Seq<u8>,
    now: int,
) -> (WebhookState, WebhookAction) {
    webhook_begin(
        match signature {
            Some(header) => Some(signature_finding(secret, header@, payload, now)),
            None => None,
        },
    )
}

pub open spec fn webhook_accepts(state: WebhookState, event: WebhookEvent) -> bool {
    match (state, event) {
        (WebhookState::Parsing, WebhookEvent::Parsed(_)) => true,
        (WebhookState::DecodingSubscription, WebhookEvent::Subscription(_)) => true,
        (WebhookState::DecodingInvoice, WebhookEvent::Invoice(_)) => true,
        (WebhookState::RetrievingSubscription, WebhookEvent::Subscription(_)) => true,
        (WebhookState::RetrievingCustomer { .. }, WebhookEvent::Customer(_)) => true,
        (WebhookState::AwaitingSubscription { .. }, WebhookEvent::Existing(_)) => true,
        (WebhookState::Storing, WebhookEvent::Stored(_)) => true,
        _ => false,
    }
}

/// The handling fails, so that the payment provider will call again.
pub open spec fn webhook_fails() -> (WebhookState, WebhookAction) {
    webhook_ends(Reply::Plain(Notice::WebhookFailed))
}

/// A subscription is to be stored: its customer is asked for.
pub open spec fn webhook_sync(subscription: StripeSubscription) -> (WebhookState, WebhookAction) {
    (
        WebhookState::RetrievingCustomer { subscription },
        WebhookAction::RetrieveCustomer { customer_id: subscription.customer.spec_id() },
    )
}

/// What is stored for a subscription of the payment provider, given what
/// the backend has for the user.
pub open spec fn webhook_on_existing(
    subscription: StripeSubscription,
    clerk_id: String,
    existing: Option<SubscriptionRecord>,
    prices: Map<Seq<char>, PlanId>,
) -> (WebhookState, WebhookAction) {
    let price_id = first_price_id(subscription_prices(subscription.items));
    match synced_plan(prices, price_id, existing) {
        None => webhook_ends(Reply::Received),
        Some(plan) => match period_end_ms(subscription.current_period_end) {
            Some(ms) => if i64::MIN <= ms <= i64::MAX {
                (
                    WebhookState::Storing,
                    WebhookAction::StoreSubscription(
                        SubscriptionSync {
                            update: existing.is_some(),
                            user_id: clerk_id,
                            plan,
                            status: SyncStatus::Reported(subscription.status),
                            stripe_subscription_id: subscription.id,
                            stripe_price_id: price_id,
                            ends_at: Some(ms as i64),
                        },
                    ),
                )
            } else {
                webhook_fails()
            },
            None => (
                WebhookState::Storing,
                WebhookAction::StoreSubscription(
                    SubscriptionSync {
                        update: existing.is_some(),
                        user_id: clerk_id,
                        plan,
                        status: SyncStatus::Reported(subscription.status),
                        stripe_subscription_id: subscription.id,
                        stripe_price_id: price_id,
                        ends_at: None,
                    },
                ),
            ),
        },
    }
}

/// The next state of the handling and what it asks for. Events about a
/// subscription store that subscription; events about an invoice store the
/// subscription that the invoice names, if it names one; other events are
/// taken and not acted on. A subscription is stored for the user that its
/// customer belongs to; without such a user, or without a plan to store it
/// under, the event is taken and nothing is stored.
pub open spec fn webhook_step(
    state: WebhookState,
    event: WebhookEvent,
    prices: Map<Seq<char>, PlanId>,
) -> (WebhookState, WebhookAction) {
    match (state, event) {
        (WebhookState::Parsing, WebhookEvent::Parsed(Err(_))) => webhook_ends(
            Reply::Plain(Notice::InvalidSignature),
        ),
        (WebhookState::Parsing, WebhookEvent::Parsed(Ok(event_type))) => match event_kind(
            event_type@,
        ) {
            EventKind::Subscription => (
                WebhookState::DecodingSubscription,
                WebhookAction::DecodeSubscription,
            ),
            EventKind::Invoice => (WebhookState::DecodingInvoice, WebhookAction::DecodeInvoice),
            EventKind::Other => webhook_ends(Reply::Received),
        },
        (WebhookState::DecodingSubscription, WebhookEvent::Subscription(Err(_))) => webhook_fails(),
        (WebhookState::DecodingSubscription, WebhookEvent::Subscription(Ok(subscription))) =>
            webhook_sync(subscription),
        (WebhookState::DecodingInvoice, WebhookEvent::Invoice(Err(_))) => webhook_fails(),
        (WebhookState::DecodingInvoice, WebhookEvent::Invoice(Ok(invoice))) => match invoice.subscription {
            Some(reference) => (
                WebhookState::RetrievingSubscription,
                WebhookAction::RetrieveSubscription { subscription_id: reference.spec_id() },
            ),
            None => webhook_ends(Reply::Received),
        },
        (WebhookState::RetrievingSubscription, WebhookEvent::Subscription(Err(_))) =>
            webhook_fails(),
        (WebhookState::RetrievingSubscription, WebhookEvent::Subscription(Ok(subscription))) =>
            webhook_sync(subscription),
        (WebhookState::RetrievingCustomer { subscription }, WebhookEvent::Customer(Err(_))) =>
            webhook_fails(),
        (WebhookState::RetrievingCustomer { subscription }, WebhookEvent::Customer(Ok(customer))) => match customer_clerk_id(
            customer,
        ) {
            None => webhook_ends(Reply::Received),
            Some(clerk_id) => (
                WebhookState::AwaitingSubscription { subscription, clerk_id },
                WebhookAction::GetSubscription { user_id: clerk_id },
            ),
        },
        (
            WebhookState::AwaitingSubscription { subscription, clerk_id },
            WebhookEvent::Existing(Err(_)),
        ) => webhook_fails(),
        (
            WebhookState::AwaitingSubscription { subscription, clerk_id },
            WebhookEvent::Existing(Ok(existing)),
        ) => webhook_on_existing(subscription, clerk_id, existing, prices),
        (WebhookState::Storing, WebhookEvent::Stored(Err(_))) => webhook_fails(),
        (WebhookState::Storing, WebhookEvent::Stored(Ok(_))) => webhook_ends(Reply::Received),
        _ => arbitrary(),
    }
}

fn ends(reply: Reply) -> (next: (WebhookState, WebhookAction))
    ensures
        next == webhook_ends(reply),
{
    (WebhookState::Done, WebhookAction::Respond(reply))
}

fn sync(subscription: StripeSubscription) -> (next: (WebhookState, WebhookAction))
    ensures
        next == webhook_sync(subscription),
{
    let action = WebhookAction::RetrieveCustomer { customer_id: subscription.customer.id() };
    (WebhookState::RetrievingCustomer { subscription }, action)
}

fn on_existing(
    subscription: StripeSubscription,
    clerk_id: String,
    existing: Option<SubscriptionRecord>,
    prices: &PriceMap,
) -> (next: (WebhookState, WebhookAction))
    ensures
        next == webhook_on_existing(subscription, clerk_id, existing, prices@),
{
    let price_id = subscription_price_id(&subscription);
    let from_price = match &price_id {
        Some(id) => prices.get_plan_for_price_id(Some(id.as_str())),
        None => None,
    };
    let plan = match from_price {
        Some(plan) => Some(plan),
        None => match &existing {
            Some(record) => Some(
                resolve_plan_id(
                    match &record.plan {
                        Some(name) => Some(name.as_str()),
                        None => None,
                    },
                ),
            ),
            None => None,
        },
    };
    let plan = match plan {
        Some(plan) => plan,
        None => {
            return ends(Reply::Received);
        },
    };
    let ends_at = match subscription.current_period_end {
        Some(seconds) => {
            if seconds > 9_223_372_036_854_775i64 || seconds < -9_223_372_036_854_775i64 {
                return ends(Reply::Plain(Notice::WebhookFailed));
            }
            Some(seconds * 1000)
        },
        None => None,
    };
    (
        WebhookState::Storing,
        WebhookAction::StoreSubscription(
            SubscriptionSync {
                update: existing.is_some(),
                user_id: clerk_id,
                plan,
                status: SyncStatus::Reported(subscription.status),
                stripe_subscription_id: subscription.id,
                stripe_price_id: price_id,
                ends_at,
            },
        ),
    )
}

impl WebhookState {
    /// Begins the handling of a call with the given signature header, if
    /// any, at the time `now` in seconds since 1970.
    pub fn start_at(api: &StripeApi, signature: Option<&str>, payload: &[u8], now: i64) -> (begun: (
        WebhookState,
        WebhookAction,
    ))
        ensures
            begun == webhook_begin_at(api.webhook_secret, signature, payload@, now as int),
    {
        match signature {
            None => ends(Reply::Plain(Notice::MissingSignature)),
            Some(header) => match api.verify_webhook_signature_at(header, payload, now) {
                Err(WebhookError::NotConfigured) => ends(Reply::Plain(Notice::WebhookNotConfigured)),
                Err(_) => ends(Reply::Plain(Notice::InvalidSignature)),
                Ok(_) => (WebhookState::Parsing, WebhookAction::ParseEvent),
            },
        }
    }

    /// Begins the handling of a call with the given signature header, if
    /// any, at the present time.
    pub fn start(api: &StripeApi, signature: Option<&str>, payload: &[u8]) -> (begun: (
        WebhookState,
        WebhookAction,
    ))
        ensures
            exists|now: i64|
                begun == webhook_begin_at(api.webhook_secret, signature, payload@, now as int),
    {
        match signature {
            None => {
                let begun = ends(Reply::Plain(Notice::MissingSignature));
                assert(begun == webhook_begin_at(api.webhook_secret, signature, payload@, 0i64 as int));
                begun
            },
            Some(header) => {
                let finding = api.verify_webhook_signature(header, payload);
                let ghost now = choose|now: i64|
                    finding == signature_finding(api.webhook_secret, header@, payload@, now as int);
                let begun = match finding {
                    Err(WebhookError::NotConfigured) => ends(
                        Reply::Plain(Notice::WebhookNotConfigured),
                    ),
                    Err(_) => ends(Reply::Plain(Notice::InvalidSignature)),
                    Ok(_) => (WebhookState::Parsing, WebhookAction::ParseEvent),
                };
                assert(begun == webhook_begin_at(
                    api.webhook_secret,
                    signature,
                    payload@,
                    now as int,
                ));
                begun
            },
        }
    }

    pub fn accepts(&self, event: &WebhookEvent) -> (fits: bool)
        ensures
            fits == webhook_accepts(*self, *event),
    {
        match (self, event) {
            (WebhookState::Parsing, WebhookEvent::Parsed(_)) => true,
            (WebhookState::DecodingSubscription, WebhookEvent::Subscription(_)) => true,
            (WebhookState::DecodingInvoice, WebhookEvent::Invoice(_)) => true,
            (WebhookState::RetrievingSubscription, WebhookEvent::Subscription(_)) => true,
            (WebhookState::RetrievingCustomer { .. }, WebhookEvent::Customer(_)) => true,
            (WebhookState::AwaitingSubscription { .. }, WebhookEvent::Existing(_)) => true,
            (WebhookState::Storing, WebhookEvent::Stored(_)) => true,
            _ => false,
        }
    }

    pub fn step(self, event: WebhookEvent, prices: &PriceMap) -> (next: (
        WebhookState,
        WebhookAction,
    ))
        requires
            webhook_accepts(self, event),
        ensures
            next == webhook_step(self, event, prices@),
    {
        match (self, event) {
            (WebhookState::Parsing, WebhookEvent::Parsed(Err(_))) => ends(
                Reply::Plain(Notice::InvalidSignature),
            ),
            (WebhookState::Parsing, WebhookEvent::Parsed(Ok(event_type))) => {
                match classify_event(event_type.as_str()) {
                    EventKind::Subscription => (
                        WebhookState::DecodingSubscription,
                        WebhookAction::DecodeSubscription,
                    ),
                    EventKind::Invoice => (
                        WebhookState::DecodingInvoice,
                        WebhookAction::DecodeInvoice,
                    ),
                    EventKind::Other => ends(Reply::Received),
                }
            },
            (WebhookState::DecodingSubscription, WebhookEvent::Subscription(Err(_))) => ends(
                Reply::Plain(Notice::WebhookFailed),
            ),
            (WebhookState::DecodingSubscription, WebhookEvent::Subscription(Ok(subscription))) =>
                sync(subscription),
            (WebhookState::DecodingInvoice, WebhookEvent::Invoice(Err(_))) => ends(
                Reply::Plain(Notice::WebhookFailed),
            ),
            (WebhookState::DecodingInvoice, WebhookEvent::Invoice(Ok(invoice))) => {
                match invoice.subscription {
                    Some(reference) => (
                        WebhookState::RetrievingSubscription,
                        WebhookAction::RetrieveSubscription { subscription_id: reference.id() },
                    ),
                    None => ends(Reply::Received),
                }
            },
            (WebhookState::RetrievingSubscription, WebhookEvent::Subscription(Err(_))) => ends(
                Reply::Plain(Notice::WebhookFailed),
            ),
            (WebhookState::RetrievingSubscription, WebhookEvent::Subscription(Ok(subscription))) =>
                sync(subscription),
            (WebhookState::RetrievingCustomer { subscription }, WebhookEvent::Customer(Err(_))) =>
                ends(Reply::Plain(Notice::WebhookFailed)),
            (
                WebhookState::RetrievingCustomer { subscription },
                WebhookEvent::Customer(Ok(customer)),
            ) => {
                match get_clerk_id_for_customer(&customer) {
                    None => ends(Reply::Received),
                    Some(clerk_id) => {
                        let action = WebhookAction::GetSubscription { user_id: clerk_id.clone() };
                        (WebhookState::AwaitingSubscription { subscription, clerk_id }, action)
                    },
                }
            },
            (
                WebhookState::AwaitingSubscription { subscription, clerk_id },
                WebhookEvent::Existing(Err(_)),
            ) => ends(Reply::Plain(Notice::WebhookFailed)),
            (
                WebhookState::AwaitingSubscription { subscription, clerk_id },
                WebhookEvent::Existing(Ok(existing)),
            ) => on_existing(subscription, clerk_id, existing, prices),
            (WebhookState::Storing, WebhookEvent::Stored(Err(_))) => ends(
                Reply::Plain(Notice::WebhookFailed),
            ),
            (WebhookState::Storing, WebhookEvent::Stored(Ok(_))) => ends(Reply::Received),
            _ => unreached(),
        }
    }
}

} // verus!
