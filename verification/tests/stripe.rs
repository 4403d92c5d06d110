use hmac::Mac;
use pdf_gateway::stripe_api::{
    parse_stripe_response, session_price_id, subscription_price_id, IdOrObject, StripeApi,
    StripeCheckoutSession, StripeError, StripeLineItem, StripeLineItems, StripeMethod,
    StripePrice, StripeResponse, StripeSubscription, StripeSubscriptionItem,
    StripeSubscriptionItems, WebhookError,
};

const SECRET: &str = "whsec_test_secret";
const PAYLOAD: &[u8] = b"{\"type\":\"customer.subscription.created\"}";
const SIGNED_AT: i64 = 1_700_000_000;
const SIGNATURE: &str = "ae4051b5500a4352a765c8de280ab89f647b9e74e07b64a3b65b135a27b3b7d1";

fn api() -> StripeApi {
    StripeApi::new(Some("sk_test_key".to_string()), Some(SECRET.to_string()))
}

fn header(timestamp: i64, signature: &str) -> String {
    format!("t={},v1={}", timestamp, signature)
}

fn sign(secret: &str, timestamp: i64, payload: &[u8]) -> String {
    let mut mac = hmac::Hmac::<sha2::Sha256>::new_from_slice(secret.as_bytes()).unwrap();
    mac.update(timestamp.to_string().as_bytes());
    mac.update(b".");
    mac.update(payload);
    hex::encode(mac.finalize().into_bytes())
}

fn pairs(list: &[(&str, &str)]) -> Vec<(String, String)> {
    list.iter().map(|(k, v)| (k.to_string(), v.to_string())).collect()
}

#[test]
fn a_signed_call_is_accepted() {
    assert_eq!(api().verify_webhook_signature_at(&header(SIGNED_AT, SIGNATURE), PAYLOAD, SIGNED_AT), Ok(()));
    assert_eq!(sign(SECRET, SIGNED_AT, PAYLOAD), SIGNATURE);
    assert_eq!(
        api().verify_webhook_signature_at(
            &format!(" v1=wrong , t={} , v0=old,v1={}", SIGNED_AT, SIGNATURE),
            PAYLOAD,
            SIGNED_AT + 10
        ),
        Ok(())
    );
}

#[test]
fn a_tampered_signature_is_refused() {
    let mut altered = SIGNATURE.to_string();
    altered.replace_range(0..1, "b");
    assert_eq!(
        api().verify_webhook_signature_at(&header(SIGNED_AT, &altered), PAYLOAD, SIGNED_AT),
        Err(WebhookError::InvalidSignature)
    );
    assert_eq!(
        api().verify_webhook_signature_at(&header(SIGNED_AT, &SIGNATURE.to_uppercase()), PAYLOAD, SIGNED_AT),
        Err(WebhookError::InvalidSignature)
    );
    assert_eq!(
        api().verify_webhook_signature_at(&header(SIGNED_AT, &SIGNATURE[..63]), PAYLOAD, SIGNED_AT),
        Err(WebhookError::InvalidSignature)
    );
    assert_eq!(
        api().verify_webhook_signature_at(&header(SIGNED_AT, SIGNATURE), b"{\"type\":\"other\"}", SIGNED_AT),
        Err(WebhookError::InvalidSignature)
    );
    let other = StripeApi::new(None, Some("another secret".to_string()));
    assert_eq!(
        other.verify_webhook_signature_at(&header(SIGNED_AT, SIGNATURE), PAYLOAD, SIGNED_AT),
        Err(WebhookError::InvalidSignature)
    );
    assert_eq!(
        api().verify_webhook_signature_at(&header(SIGNED_AT, std::str::from_utf8(PAYLOAD).unwrap()), PAYLOAD, SIGNED_AT),
        Err(WebhookError::InvalidSignature)
    );
}

#[test]
fn the_tolerance_is_three_hundred_seconds() {
    let now = 1_800_000_000i64;
    for (timestamp, accepted) in [
        (now - 300, true),
        (now - 301, false),
        (now + 300, true),
        (now + 301, false),
        (now, true),
        (now - 299, true),
        (0, false),
    ] {
        let finding = api().verify_webhook_signature_at(
            &header(timestamp, &sign(SECRET, timestamp, PAYLOAD)),
            PAYLOAD,
            now,
        );
        if accepted {
            assert_eq!(finding, Ok(()), "t = {}", timestamp);
        } else {
            assert_eq!(finding, Err(WebhookError::OutsideTolerance), "t = {}", timestamp);
        }
    }
    let far = i64::MIN;
    assert_eq!(
        api().verify_webhook_signature_at(&header(far, &sign(SECRET, far, PAYLOAD)), PAYLOAD, i64::MAX),
        Err(WebhookError::OutsideTolerance)
    );
}

#[test]
fn negative_times_are_signed_with_their_sign() {
    let timestamp = -42i64;
    assert_eq!(
        api().verify_webhook_signature_at(&header(timestamp, &sign(SECRET, timestamp, PAYLOAD)), PAYLOAD, 0),
        Ok(())
    );
}

#[test]
fn each_way_to_fail_has_its_error() {
    let unconfigured = StripeApi::new(Some("sk".to_string()), None);
    assert_eq!(
        unconfigured.verify_webhook_signature_at(&header(SIGNED_AT, SIGNATURE), PAYLOAD, SIGNED_AT),
        Err(WebhookError::NotConfigured)
    );
    assert_eq!(
        unconfigured.verify_webhook_signature(&header(SIGNED_AT, SIGNATURE), PAYLOAD),
        Err(WebhookError::NotConfigured)
    );
    for without_time in ["", "v1=abc", "t=,v1=abc", "t=soon,v1=abc", "t=1700000000,v1=abc,t=later", "T=1,v1=abc", "t =1,v1=abc"] {
        assert_eq!(
            api().verify_webhook_signature_at(without_time, PAYLOAD, SIGNED_AT),
            Err(WebhookError::MissingTimestamp),
            "{:?}",
            without_time
        );
    }
    for without_signature in ["t=1700000000", "t=1700000000,v0=abc", "t=1700000000,V1=abc", "t=1700000000,v1x=abc"] {
        assert_eq!(
            api().verify_webhook_signature_at(without_signature, PAYLOAD, SIGNED_AT),
            Err(WebhookError::MissingSignature),
            "{:?}",
            without_signature
        );
    }
    assert_eq!(
        api().verify_webhook_signature_at(&header(SIGNED_AT - 1_000, SIGNATURE), PAYLOAD, SIGNED_AT),
        Err(WebhookError::OutsideTolerance)
    );
    assert_eq!(
        api().verify_webhook_signature_at(&header(SIGNED_AT, "00"), PAYLOAD, SIGNED_AT),
        Err(WebhookError::InvalidSignature)
    );
}

#[test]
fn a_payload_is_signed_as_the_bytes_that_it_is() {
    let not_text: &[u8] = &[0x7b, 0xff, 0xfe, 0x00, 0x7d];
    assert!(std::str::from_utf8(not_text).is_err());
    assert_eq!(
        api().verify_webhook_signature_at(&header(SIGNED_AT, &sign(SECRET, SIGNED_AT, not_text)), not_text, SIGNED_AT),
        Ok(())
    );
    assert_eq!(
        api().verify_webhook_signature_at(&header(SIGNED_AT, &sign(SECRET, SIGNED_AT, PAYLOAD)), not_text, SIGNED_AT),
        Err(WebhookError::InvalidSignature)
    );
    assert_eq!(
        api().verify_webhook_signature_at(&header(SIGNED_AT, &sign(SECRET, SIGNED_AT, b"")), b"", SIGNED_AT),
        Ok(())
    );
}

#[test]
fn an_empty_signature_is_a_signature_that_does_not_match() {
    assert_eq!(
        api().verify_webhook_signature_at("t=1700000000,v1=", PAYLOAD, SIGNED_AT),
        Err(WebhookError::InvalidSignature)
    );
    assert_eq!(
        api().verify_webhook_signature_at("t=1700000000,v1", PAYLOAD, SIGNED_AT),
        Err(WebhookError::InvalidSignature)
    );
}

#[test]
fn a_call_signed_now_is_accepted_now() {
    let now = chrono::Utc::now().timestamp();
    assert_eq!(api().verify_webhook_signature(&header(now, &sign(SECRET, now, PAYLOAD)), PAYLOAD), Ok(()));
    let stale = now - 10_000;
    assert_eq!(
        api().verify_webhook_signature(&header(stale, &sign(SECRET, stale, PAYLOAD)), PAYLOAD),
        Err(WebhookError::OutsideTolerance)
    );
}

#[test]
fn a_reference_gives_its_identifier_in_either_form() {
    assert_eq!(IdOrObject::Id("sub_1".to_string()).id(), "sub_1");
    assert_eq!(IdOrObject::Object { id: "sub_2".to_string() }.id(), "sub_2");
}

#[test]
fn the_price_is_that_of_the_first_item() {
    let price = |id: Option<&str>| Some(StripePrice { id: id.map(String::from) });
    let subscription = |items: Vec<StripeSubscriptionItem>| StripeSubscription {
        id: "sub_1".to_string(),
        customer: IdOrObject::Id("cus_1".to_string()),
        status: "active".to_string(),
        current_period_end: None,
        items: StripeSubscriptionItems { data: items },
    };
    assert_eq!(subscription_price_id(&subscription(vec![])), None);
    assert_eq!(
        subscription_price_id(&subscription(vec![
            StripeSubscriptionItem { price: price(Some("price_a")) },
            StripeSubscriptionItem { price: price(Some("price_b")) },
        ])),
        Some("price_a".to_string())
    );
    assert_eq!(
        subscription_price_id(&subscription(vec![
            StripeSubscriptionItem { price: None },
            StripeSubscriptionItem { price: price(Some("price_b")) },
        ])),
        None
    );
    assert_eq!(
        subscription_price_id(&subscription(vec![StripeSubscriptionItem { price: price(None) }])),
        None
    );
    let session = |items: Option<Vec<StripeLineItem>>| StripeCheckoutSession {
        url: None,
        status: None,
        subscription: None,
        line_items: items.map(|data| StripeLineItems { data }),
    };
    assert_eq!(session_price_id(&session(None)), None);
    assert_eq!(session_price_id(&session(Some(vec![]))), None);
    assert_eq!(
        session_price_id(&session(Some(vec![StripeLineItem { price: price(Some("price_c")) }]))),
        Some("price_c".to_string())
    );
}

#[test]
fn calls_need_a_secret_key() {
    for api in [StripeApi::new(None, None), StripeApi::new(Some("  ".to_string()), None)] {
        assert_eq!(api.require_secret_key(), Err(StripeError::NotConfigured));
        assert_eq!(api.create_customer("a@b.c", "user_1"), Err(StripeError::NotConfigured));
        assert_eq!(api.retrieve_customer("cus_1"), Err(StripeError::NotConfigured));
        assert_eq!(api.create_checkout_session("c", "p", "s", "x"), Err(StripeError::NotConfigured));
        assert_eq!(api.retrieve_checkout_session("cs_1"), Err(StripeError::NotConfigured));
        assert_eq!(api.create_billing_portal_session("c", "r"), Err(StripeError::NotConfigured));
        assert_eq!(api.retrieve_subscription("sub_1"), Err(StripeError::NotConfigured));
    }
    assert_eq!(api().require_secret_key(), Ok("sk_test_key"));
}

#[test]
fn calls_go_to_the_documented_places() {
    let api = api();
    assert_eq!(api.base_url, "https://api.stripe.com/v1");
    let call = api.create_customer("a@b.c", "user_1").unwrap();
    assert_eq!(call.method, StripeMethod::Post);
    assert_eq!(call.url, "https://api.stripe.com/v1/customers");
    assert_eq!(call.path, "customers");
    assert_eq!(call.key, "sk_test_key");
    assert_eq!(call.params, pairs(&[("email", "a@b.c"), ("metadata[clerkId]", "user_1")]));

    let call = api.retrieve_customer("cus_9").unwrap();
    assert_eq!(call.method, StripeMethod::Get);
    assert_eq!(call.url, "https://api.stripe.com/v1/customers/cus_9");
    assert_eq!(call.params, pairs(&[]));

    let call = api.create_checkout_session("cus_9", "price_pro", "https://ok", "https://no").unwrap();
    assert_eq!(call.method, StripeMethod::Post);
    assert_eq!(call.url, "https://api.stripe.com/v1/checkout/sessions");
    assert_eq!(
        call.params,
        pairs(&[
            ("customer", "cus_9"),
            ("payment_method_types[0]", "card"),
            ("line_items[0][price]", "price_pro"),
            ("line_items[0][quantity]", "1"),
            ("mode", "subscription"),
            ("success_url", "https://ok"),
            ("cancel_url", "https://no"),
        ])
    );

    let call = api.retrieve_checkout_session("cs_1").unwrap();
    assert_eq!(call.method, StripeMethod::Get);
    assert_eq!(call.url, "https://api.stripe.com/v1/checkout/sessions/cs_1");
    assert_eq!(call.params, pairs(&[("expand[]", "line_items")]));

    let call = api.create_billing_portal_session("cus_9", "https://app/dashboard").unwrap();
    assert_eq!(call.method, StripeMethod::Post);
    assert_eq!(call.url, "https://api.stripe.com/v1/billing_portal/sessions");
    assert_eq!(call.params, pairs(&[("customer", "cus_9"), ("return_url", "https://app/dashboard")]));

    let call = api.retrieve_subscription("sub_3").unwrap();
    assert_eq!(call.method, StripeMethod::Get);
    assert_eq!(call.url, "https://api.stripe.com/v1/subscriptions/sub_3");
    assert_eq!(call.params, pairs(&[]));
}

#[test]
fn an_answer_is_read_only_when_it_is_a_success() {
    let answer = |success: bool| StripeResponse {
        success,
        status: "402 Payment Required".to_string(),
        body: "{\"id\":\"cus_1\"}".to_string(),
    };
    assert_eq!(parse_stripe_response(answer(true), "customers"), Ok("{\"id\":\"cus_1\"}".to_string()));
    assert_eq!(
        parse_stripe_response(answer(false), "customers"),
        Err("Stripe API customers failed with status 402 Payment Required: {\"id\":\"cus_1\"}".to_string())
    );
}
