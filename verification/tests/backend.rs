use pdf_gateway::clerk::{get_primary_email, ClerkClient, ClerkEmailAddress, ClerkUser};
use pdf_gateway::config::{valid_tls_paths, Config, Environment, TlsChoice, TlsProblem};
use pdf_gateway::mupdf::{mutool_program, recolor_args, supports_recolor};
use pdf_gateway::convex::{
    convex_client_header, interpret_response, request_body, CallKind, ConvexClient, ConvexError,
    ConvexResponse,
};
use pdf_gateway::handlers::{Notice, Reply};
use pdf_gateway::json::{prune_null_object_fields, JsonValue};
use pdf_gateway::middleware::{
    api_key_auth, api_key_of, api_user_clerk_id, client_identity, rate_limited, require_auth,
    user_sync, ApiKeyLookup, AuthenticatedUser, ConvexUser, UserSync,
};
use pdf_gateway::plans::PlanId;
use pdf_gateway::quota::{
    plan_for_subscription, reservation_from_result, reserve_request, QuotaReservation,
    ReserveError, ReserveRequest, ReserveResult, SubscriptionRecord,
};
use pdf_gateway::state::{queue_timing, AppState, QueueTiming};

fn some(text: &str) -> Option<String> {
    Some(text.to_string())
}

fn text(value: &str) -> JsonValue {
    JsonValue::Text(value.to_string())
}

fn object(members: Vec<(&str, JsonValue)>) -> JsonValue {
    JsonValue::Object(members.into_iter().map(|(k, v)| (k.to_string(), v)).collect())
}

fn config(log_queue: bool) -> Config {
    Config::from_env(Environment {
        port: None,
        trust_proxy: None,
        tls_key_path: None,
        tls_cert_path: None,
        convex_url: some("https://backend.example"),
        clerk_secret_key: None,
        clerk_issuer: None,
        clerk_api_base: None,
        stripe_secret_key: None,
        stripe_webhook_secret: None,
        frontend_url: None,
        ghostscript_concurrency: some("4"),
        processing_concurrency: None,
        log_ghostscript_timings: None,
        log_task_queue_timings: if log_queue { some("1") } else { None },
        log_processing_timings: None,
        grayscale_production_force_black_text: None,
        grayscale_production_force_black_vector: None,
        grayscale_production_black_threshold_l: None,
        grayscale_production_black_threshold_c: None,
        stripe_price_id_starter: some("price_starter"),
        stripe_price_id_pro: None,
        stripe_price_id_business: None,
        stripe_price_id_enterprise: some("price_enterprise"),
    })
    .unwrap()
}

#[test]
fn null_members_are_pruned_at_any_depth() {
    let value = object(vec![
        ("clerkId", text("user_1")),
        ("email", JsonValue::Null),
        (
            "nested",
            object(vec![
                ("keep", JsonValue::Bool(false)),
                ("drop", JsonValue::Null),
                ("list", JsonValue::Array(vec![JsonValue::Null, object(vec![("x", JsonValue::Null)]), JsonValue::Number("1.5".to_string())])),
            ]),
        ),
        ("endsAt", JsonValue::Null),
    ]);
    assert_eq!(
        prune_null_object_fields(&value),
        object(vec![
            ("clerkId", text("user_1")),
            (
                "nested",
                object(vec![
                    ("keep", JsonValue::Bool(false)),
                    ("list", JsonValue::Array(vec![JsonValue::Null, object(vec![]), JsonValue::Number("1.5".to_string())])),
                ]),
            ),
        ])
    );
    assert_eq!(prune_null_object_fields(&JsonValue::Null), JsonValue::Null);
    assert_eq!(prune_null_object_fields(&text("null")), text("null"));
    assert_eq!(
        prune_null_object_fields(&JsonValue::Array(vec![JsonValue::Null])),
        JsonValue::Array(vec![JsonValue::Null])
    );
}

#[test]
fn a_call_of_the_backend_wraps_the_pruned_arguments() {
    let arguments = object(vec![("userId", text("user_1")), ("monthlyQuota", JsonValue::Null)]);
    assert_eq!(
        request_body("usage:reserveForClerkUser", &arguments),
        object(vec![
            ("path", text("usage:reserveForClerkUser")),
            ("format", text("convex_encoded_json")),
            ("args", JsonValue::Array(vec![object(vec![("userId", text("user_1"))])])),
        ])
    );
    assert_eq!(convex_client_header(), "npm-1.26.2");
}

#[test]
fn calls_of_the_backend_go_to_its_two_endpoints() {
    assert_eq!(
        ConvexClient::new("https://backend.example/".to_string()).endpoint(CallKind::Query),
        "https://backend.example/api/query"
    );
    assert_eq!(
        ConvexClient::new("https://backend.example".to_string()).endpoint(CallKind::Action),
        "https://backend.example/api/action"
    );
    assert_eq!(CallKind::Query.name(), "query");
    assert_eq!(CallKind::Action.name(), "action");
}

#[test]
fn answers_of_the_backend_are_values_or_errors() {
    let answer = |http_status: u16, status: Option<&str>, value: Option<&str>, message: Option<&str>| ConvexResponse {
        http_status,
        status: status.map(String::from),
        value: value.map(String::from),
        error_message: message.map(String::from),
    };
    assert_eq!(interpret_response(answer(200, Some("success"), Some("{\"a\":1}"), None)), Ok("{\"a\":1}".to_string()));
    assert_eq!(interpret_response(answer(200, Some("success"), None, None)), Ok("null".to_string()));
    assert_eq!(interpret_response(answer(299, Some("success"), Some("1"), Some("ignored"))), Ok("1".to_string()));
    assert_eq!(
        interpret_response(answer(560, Some("error"), None, Some("Quota exceeded"))),
        Err(ConvexError::Function { message: "Quota exceeded".to_string() })
    );
    assert_eq!(
        interpret_response(answer(200, Some("error"), Some("1"), None)),
        Err(ConvexError::Function { message: "Convex function error".to_string() })
    );
    assert_eq!(interpret_response(answer(560, Some("success"), Some("7"), None)), Ok("7".to_string()));
    for status in [199u16, 300, 404, 500, 559, 561] {
        assert_eq!(
            interpret_response(answer(status, Some("success"), Some("1"), None)),
            Err(ConvexError::Http { status })
        );
    }
    assert_eq!(interpret_response(answer(200, None, Some("1"), None)), Err(ConvexError::Invalid));
    assert_eq!(interpret_response(answer(200, Some("Success"), Some("1"), None)), Err(ConvexError::Invalid));
    assert_eq!(interpret_response(answer(560, Some("pending"), None, Some("m"))), Err(ConvexError::Invalid));
}

#[test]
fn the_primary_address_is_the_one_that_the_user_names() {
    let address = |id: &str, email: &str| ClerkEmailAddress { id: id.to_string(), email_address: email.to_string() };
    let user = |primary: Option<&str>| ClerkUser {
        primary_email_address_id: primary.map(String::from),
        email_addresses: vec![address("id_1", "one@example.com"), address("id_2", "two@example.com"), address("id_2", "again@example.com")],
    };
    assert_eq!(get_primary_email(&user(Some("id_2"))), some("two@example.com"));
    assert_eq!(get_primary_email(&user(Some("id_1"))), some("one@example.com"));
    assert_eq!(get_primary_email(&user(Some("id_3"))), None);
    assert_eq!(get_primary_email(&user(None)), None);
    assert_eq!(
        get_primary_email(&ClerkUser { primary_email_address_id: some("id_1"), email_addresses: vec![] }),
        None
    );
}

#[test]
fn the_identity_provider_is_called_with_the_secret() {
    let client = ClerkClient::new("https://api.clerk.com/v1//".to_string(), Some("sk_live"));
    assert_eq!(client.api_base, "https://api.clerk.com/v1");
    assert_eq!(client.authorization, some("Bearer sk_live"));
    assert_eq!(client.user_url("user_1"), "https://api.clerk.com/v1/users/user_1");
    let open = ClerkClient::new("https://api.clerk.com/v1".to_string(), None);
    assert_eq!(open.authorization, None);
    assert_eq!(open.api_base, "https://api.clerk.com/v1");
}

#[test]
fn clients_are_named_by_the_proxy_when_it_is_trusted() {
    assert_eq!(client_identity(Some("203.0.113.7, 10.0.0.1"), Some("198.51.100.2"), Some("10.0.0.9"), true), "203.0.113.7");
    assert_eq!(client_identity(Some("  203.0.113.7  "), None, None, true), "203.0.113.7");
    assert_eq!(client_identity(Some(",203.0.113.7"), Some("10.0.0.1"), None, true), "203.0.113.7");
    assert_eq!(client_identity(Some(" , ,\t203.0.113.7 , 10.0.0.1"), Some("198.51.100.2"), None, true), "203.0.113.7");
    assert_eq!(client_identity(Some(" , "), Some(" 198.51.100.2 "), Some("10.0.0.9"), true), "198.51.100.2");
    assert_eq!(client_identity(Some(",203.0.113.7"), Some("10.0.0.1"), Some("10.0.0.9"), false), "10.0.0.9");
    assert_eq!(client_identity(Some(""), Some("   "), Some("10.0.0.9"), true), "10.0.0.9");
    assert_eq!(client_identity(None, Some("198.51.100.2"), Some("10.0.0.9"), true), "198.51.100.2");
    assert_eq!(client_identity(None, None, Some("10.0.0.9"), true), "10.0.0.9");
    assert_eq!(client_identity(None, None, None, true), "unknown");
    assert_eq!(client_identity(Some("203.0.113.7"), Some("198.51.100.2"), Some("10.0.0.9"), false), "10.0.0.9");
    assert_eq!(client_identity(Some("203.0.113.7"), Some("198.51.100.2"), None, false), "unknown");
}

#[test]
fn requests_by_key_need_a_known_key() {
    assert_eq!(api_key_of(Some("gk_123")), Ok("gk_123"));
    assert_eq!(api_key_of(Some(" gk_123 ")), Ok(" gk_123 "));
    assert_eq!(api_key_of(Some("  ")), Err(Reply::Plain(Notice::ApiKeyRequired)));
    assert_eq!(api_key_of(Some("")), Err(Reply::Plain(Notice::ApiKeyRequired)));
    assert_eq!(api_key_of(None), Err(Reply::Plain(Notice::ApiKeyRequired)));
    let user = ConvexUser { clerk_id: some("user_1") };
    assert_eq!(api_key_auth(Ok(ApiKeyLookup::User(user.clone()))), Ok(user));
    assert_eq!(api_key_auth(Ok(ApiKeyLookup::Unknown)), Err(Reply::Plain(Notice::ApiKeyInvalid)));
    assert_eq!(api_key_auth(Ok(ApiKeyLookup::Unreadable)), Err(Reply::Plain(Notice::InternalServerError)));
    assert_eq!(api_key_auth(Err(())), Err(Reply::Plain(Notice::InternalServerError)));
    assert_eq!(api_user_clerk_id(ConvexUser { clerk_id: some("user_1") }), Ok("user_1".to_string()));
    assert_eq!(api_user_clerk_id(ConvexUser { clerk_id: some(" ") }), Err(Reply::Plain(Notice::MissingClerkId)));
    assert_eq!(api_user_clerk_id(ConvexUser { clerk_id: None }), Err(Reply::Plain(Notice::MissingClerkId)));
}

#[test]
fn requests_by_token_need_a_verified_token() {
    assert_eq!(require_auth(Some(Ok("user_1".to_string()))), Ok(AuthenticatedUser { clerk_id: "user_1".to_string() }));
    assert_eq!(require_auth(Some(Err(()))), Err(Reply::Plain(Notice::Unauthorized)));
    assert_eq!(require_auth(None), Err(Reply::Plain(Notice::Unauthorized)));
    assert_eq!(rate_limited(), Reply::Plain(Notice::TooManyRequests));
}

#[test]
fn a_user_is_synced_only_with_a_primary_address() {
    assert_eq!(
        user_sync("user_1", Ok(some("a@b.c"))),
        Some(UserSync { clerk_id: "user_1".to_string(), email: "a@b.c".to_string() })
    );
    assert_eq!(user_sync("user_1", Ok(None)), None);
    assert_eq!(user_sync("user_1", Err(())), None);
}

#[test]
fn the_plan_in_force_is_that_of_an_active_subscription() {
    let record = |plan: Option<&str>, status: Option<&str>| Some(SubscriptionRecord { plan: plan.map(String::from), status: status.map(String::from) });
    assert_eq!(plan_for_subscription(&record(Some("pro"), Some("active"))), PlanId::Pro);
    assert_eq!(plan_for_subscription(&record(Some("Business"), Some("trialing"))), PlanId::Business);
    assert_eq!(plan_for_subscription(&record(Some("Business"), Some(" Trialing"))), PlanId::Free);
    assert_eq!(plan_for_subscription(&record(Some("pro"), Some("Active"))), PlanId::Free);
    assert_eq!(plan_for_subscription(&record(Some("pro"), Some("canceled"))), PlanId::Free);
    assert_eq!(plan_for_subscription(&record(Some("pro"), None)), PlanId::Free);
    assert_eq!(plan_for_subscription(&record(None, Some("active"))), PlanId::Free);
    assert_eq!(plan_for_subscription(&record(Some("gold"), Some("active"))), PlanId::Free);
    assert_eq!(plan_for_subscription(&None), PlanId::Free);
    assert_eq!(
        reserve_request("user_1", 4, &record(Some("starter"), Some("active"))),
        ReserveRequest { clerk_id: "user_1".to_string(), units: 4, monthly_quota: Some(5_000) }
    );
    assert_eq!(
        reserve_request("user_1", 4, &record(Some("enterprise"), Some("active"))),
        ReserveRequest { clerk_id: "user_1".to_string(), units: 4, monthly_quota: None }
    );
    assert_eq!(
        reserve_request("user_1", 2, &None),
        ReserveRequest { clerk_id: "user_1".to_string(), units: 2, monthly_quota: Some(400) }
    );
}

#[test]
fn a_reservation_is_the_answer_under_the_plan() {
    assert_eq!(
        reservation_from_result(
            PlanId::Pro,
            ReserveResult { allowed: true, reservation_id: some("res_1"), total_this_month: 12, pending_units: None }
        ),
        Ok(QuotaReservation {
            allowed: true,
            reservation_id: some("res_1"),
            plan_id: PlanId::Pro,
            monthly_quota: Some(25_000),
            total_this_month: 12,
            pending_units: 0,
        })
    );
    assert_eq!(
        reservation_from_result(
            PlanId::Free,
            ReserveResult { allowed: false, reservation_id: None, total_this_month: 399, pending_units: Some(3) }
        ),
        Ok(QuotaReservation {
            allowed: false,
            reservation_id: None,
            plan_id: PlanId::Free,
            monthly_quota: Some(400),
            total_this_month: 399,
            pending_units: 3,
        })
    );
    assert_eq!(
        reservation_from_result(
            PlanId::Free,
            ReserveResult { allowed: true, reservation_id: None, total_this_month: 1, pending_units: None }
        ),
        Err(ReserveError::MissingReservationId)
    );
    assert!(matches!(
        reservation_from_result(
            PlanId::Enterprise,
            ReserveResult { allowed: false, reservation_id: some("res_2"), total_this_month: 1, pending_units: None }
        ),
        Ok(QuotaReservation { allowed: false, monthly_quota: None, .. })
    ));
}

#[test]
fn the_shared_state_starts_with_the_price_table_and_two_limiters() {
    let mut state = AppState::new(config(false));
    assert_eq!(state.price_map.get_plan_for_price_id(Some("price_starter")), Some(PlanId::Starter));
    assert_eq!(state.price_map.get_plan_for_price_id(Some("price_enterprise")), Some(PlanId::Enterprise));
    assert_eq!(state.price_map.get_plan_for_price_id(Some("price_pro")), None);
    assert_eq!(state.config.ghostscript_concurrency, 4);
    for request in 0..5 {
        assert!(state.preflight_test_limiter.check_and_count("ip", request));
    }
    assert!(!state.preflight_test_limiter.check_and_count("ip", 5));
    for request in 0..100 {
        assert!(state.api_limiter.check_and_count("ip", request));
    }
    assert!(!state.api_limiter.check_and_count("ip", 100));
}

#[test]
fn queue_timings_are_noted_only_when_asked_for() {
    assert_eq!(queue_timing(&config(false), 5, 10, 1), None);
    assert_eq!(queue_timing(&config(true), 5, 10, 1), Some(QueueTiming { wait_ms: 5, run_ms: 10, running: 3 }));
    assert_eq!(queue_timing(&config(true), 0, 0, 4), Some(QueueTiming { wait_ms: 0, run_ms: 0, running: 0 }));
    assert_eq!(queue_timing(&config(true), 0, 0, 9), Some(QueueTiming { wait_ms: 0, run_ms: 0, running: 0 }));
}

#[test]
fn tls_needs_both_paths_and_both_files() {
    let with = |cert: Option<&str>, key: Option<&str>| {
        let mut settings = config(false);
        settings.tls_cert_path = cert.map(String::from);
        settings.tls_key_path = key.map(String::from);
        settings
    };
    let both = with(Some("/etc/cert.pem"), Some("/etc/key.pem"));
    assert_eq!(
        valid_tls_paths(&both, true, true),
        TlsChoice::Https { cert_path: "/etc/cert.pem".to_string(), key_path: "/etc/key.pem".to_string() }
    );
    assert_eq!(valid_tls_paths(&both, true, false), TlsChoice::HttpBecause(TlsProblem::KeyFileMissing));
    assert_eq!(
        valid_tls_paths(&both, false, true),
        TlsChoice::HttpBecause(TlsProblem::CertificateFileMissing)
    );
    assert_eq!(valid_tls_paths(&both, false, false), TlsChoice::HttpBecause(TlsProblem::BothFilesMissing));
    assert_eq!(
        valid_tls_paths(&with(Some("/etc/cert.pem"), None), true, true),
        TlsChoice::HttpBecause(TlsProblem::KeyPathMissing)
    );
    assert_eq!(
        valid_tls_paths(&with(None, Some("/etc/key.pem")), true, true),
        TlsChoice::HttpBecause(TlsProblem::CertificatePathMissing)
    );
    assert_eq!(valid_tls_paths(&with(None, None), true, true), TlsChoice::Http);
}

#[test]
fn the_recolouring_program_is_asked_for_a_gray_copy() {
    assert_eq!(mutool_program(None), "mutool");
    assert_eq!(mutool_program(some("/opt/bin/mutool")), "/opt/bin/mutool");
    assert_eq!(
        recolor_args("/tmp/in.pdf", "/tmp/out.pdf"),
        vec!["recolor", "-c", "gray", "-o", "/tmp/out.pdf", "/tmp/in.pdf"]
    );
}

#[test]
fn a_program_that_prints_the_usage_knows_the_command() {
    assert!(supports_recolor("", "Usage: mutool recolor [options] <input filename>\n"));
    assert!(supports_recolor("usage: mutool recolor", ""));
    assert!(supports_recolor("x\nUSAGE: MUTOOL RECOLOR\n", "noise"));
    assert!(!supports_recolor("", ""));
    assert!(!supports_recolor("usage: mutool", "recolor"));
    assert!(!supports_recolor("usage: mutool  recolor", "mutool: unknown command"));
    assert!(!supports_recolor("usage: mutool recolo", "sage: mutool recolor"));
}
