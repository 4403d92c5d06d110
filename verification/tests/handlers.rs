use pdf_gateway::config::{Config, Environment};
use pdf_gateway::ghostscript::{analyze_pdf, CommandOutput};
use pdf_gateway::handlers::account::{
    health_probe_args, HealthAction, HealthEvent, HealthState, api_key_deleted, conversion_placeholder, delete_api_key, generate_api_key, get_subscription,
    health, list_api_keys, not_found, usage_summary, ConvexUsageRecord,
    ConvexUsageReservationRecord, DeleteApiKeyStep, UsageAction, UsageClock, UsageEvent,
    UsageState,
};
use pdf_gateway::handlers::billing::{
    CheckoutAction, CheckoutEvent, CheckoutState, ConvexUserForStripe, PortalAction, PortalEvent,
    PortalState, SubscriptionSync, SyncAction, SyncEvent, SyncState, SyncStatus,
};
use pdf_gateway::handlers::grayscale::{
    fresh_output_names, output_names, GrayscaleAction, GrayscaleEvent, GrayscaleState, Owed,
};
use pdf_gateway::handlers::preflight::{
    PreflightAction, PreflightEvent, PreflightOwed, PreflightState,
};
use pdf_gateway::handlers::webhook::{
    classify_event, get_clerk_id_for_customer, EventKind, WebhookAction, WebhookEvent,
    WebhookState,
};
use pdf_gateway::handlers::{
    quota_exceeded_response, sanitize_filename_for_header, upload_error_to_response,
    CreateCheckoutRequest, DeleteApiKeyPath, GrayscaleMode, HttpReply, Notice, QuotaExceededBody,
    Reply, ReplyBody, SyncStripeSessionRequest, UsageSummary,
};
use pdf_gateway::plans::{PlanId, PriceMap};
use pdf_gateway::quota::{QuotaReservation, ReserveError, SubscriptionRecord};
use pdf_gateway::stripe_api::{
    IdOrObject, StripeApi, StripeBillingPortalSession, StripeCheckoutSession, StripeCustomer,
    StripeInvoice, StripeLineItem, StripeLineItems, StripePrice, StripeSubscription,
    StripeSubscriptionItem, StripeSubscriptionItems,
};
use pdf_gateway::upload::{UploadError, UploadedFile, UploadedPdfRequest};

fn some(text: &str) -> Option<String> {
    Some(text.to_string())
}

fn prices() -> PriceMap {
    let environment = Environment {
        port: None,
        trust_proxy: None,
        tls_key_path: None,
        tls_cert_path: None,
        convex_url: some("https://backend.example"),
        clerk_secret_key: None,
        clerk_issuer: None,
        clerk_api_base: None,
        stripe_secret_key: None,
        stripe_webhook_secret: None,
        frontend_url: None,
        ghostscript_concurrency: None,
        processing_concurrency: None,
        log_ghostscript_timings: None,
        log_task_queue_timings: None,
        log_processing_timings: None,
        grayscale_production_force_black_text: None,
        grayscale_production_force_black_vector: None,
        grayscale_production_black_threshold_l: None,
        grayscale_production_black_threshold_c: None,
        stripe_price_id_starter: some("price_starter"),
        stripe_price_id_pro: some("price_pro"),
        stripe_price_id_business: None,
        stripe_price_id_enterprise: None,
    };
    let config: Config = Config::from_env(environment).unwrap();
    PriceMap::from_config(&config)
}

fn plain(notice: Notice) -> Reply {
    Reply::Plain(notice)
}

fn reservation(allowed: bool, id: Option<&str>) -> QuotaReservation {
    QuotaReservation {
        allowed,
        reservation_id: id.map(String::from),
        plan_id: PlanId::Free,
        monthly_quota: Some(400),
        total_this_month: 399,
        pending_units: 0,
    }
}

fn uploaded(mode: Option<&str>) -> GrayscaleEvent {
    GrayscaleEvent::Upload(Ok((
        UploadedPdfRequest {
            temp_path: "/tmp/ghost-upload-1.pdf".to_string(),
            original_name: "doc.pdf".to_string(),
            mode: mode.map(String::from),
            engine: None,
        },
        output_names(Some("doc"), "token"),
    )))
}

fn grayscale(events: Vec<GrayscaleEvent>) -> Vec<GrayscaleAction> {
    let (mut state, first) = GrayscaleState::start("user_1".to_string());
    let mut actions = vec![first];
    for event in events {
        assert!(state.accepts(&event), "{:?} does not answer {:?}", event, actions.last());
        let (next, action) = state.step(event);
        state = next;
        actions.push(action);
    }
    actions
}

fn preflight(clerk_id: Option<&str>, events: Vec<PreflightEvent>) -> Vec<PreflightAction> {
    let (mut state, first) = PreflightState::start(clerk_id.map(String::from), 5 * 1024 * 1024);
    let mut actions = vec![first];
    for event in events {
        assert!(state.accepts(&event), "{:?} does not answer {:?}", event, actions.last());
        let (next, action) = state.step(event);
        state = next;
        actions.push(action);
    }
    actions
}

fn settlements(actions: &[GrayscaleAction]) -> (usize, usize) {
    let commits = actions.iter().filter(|a| matches!(a, GrayscaleAction::Commit { .. })).count();
    let releases = actions.iter().filter(|a| matches!(a, GrayscaleAction::Release { .. })).count();
    (commits, releases)
}

fn removes_both_files(actions: &[GrayscaleAction]) -> bool {
    let upload = actions.iter().position(|a| {
        *a == GrayscaleAction::RemoveFile { path: "/tmp/ghost-upload-1.pdf".to_string() }
    });
    let copy = actions.iter().position(|a| {
        *a == GrayscaleAction::RemoveOutput { output_file: "doc-token-grayscale.pdf".to_string() }
    });
    let reply = actions.iter().position(|a| matches!(a, GrayscaleAction::Respond(_)));
    matches!((upload, copy, reply), (Some(u), Some(c), Some(r)) if u < r && c < r && r == actions.len() - 1)
}

#[test]
fn modes_are_preview_and_production() {
    assert_eq!(GrayscaleMode::parse(None), Ok(GrayscaleMode::Preview));
    assert_eq!(GrayscaleMode::parse(Some("")), Ok(GrayscaleMode::Preview));
    assert_eq!(GrayscaleMode::parse(Some("  ")), Ok(GrayscaleMode::Preview));
    assert_eq!(GrayscaleMode::parse(Some("Preview")), Ok(GrayscaleMode::Preview));
    assert_eq!(GrayscaleMode::parse(Some(" PRODUCTION\n")), Ok(GrayscaleMode::Production));
    assert_eq!(
        GrayscaleMode::parse(Some("draft")),
        Err("Invalid mode. Use \"preview\" or \"production\".")
    );
}

#[test]
fn file_names_in_headers_keep_only_safe_characters() {
    assert_eq!(sanitize_filename_for_header("doc-grayscale.pdf"), "doc-grayscale.pdf");
    assert_eq!(sanitize_filename_for_header("my file (1).pdf"), "my_file__1_.pdf");
    assert_eq!(sanitize_filename_for_header("a\"b\r\nc"), "a_b__c");
    assert_eq!(sanitize_filename_for_header("größe.pdf"), "gr__e.pdf");
    assert_eq!(sanitize_filename_for_header(""), "");
}

#[test]
fn names_of_the_gray_copy_come_from_the_stem() {
    let names = output_names(Some("Annual Report 2024"), "1234");
    assert_eq!(names.output_name, "Annual_Report_2024-grayscale.pdf");
    assert_eq!(names.output_file, "Annual_Report_2024-1234-grayscale.pdf");
    let unnamed = output_names(None, "t");
    assert_eq!(unnamed.output_name, "document-grayscale.pdf");
    assert_eq!(unnamed.output_file, "document-t-grayscale.pdf");
    assert_eq!(output_names(Some("???"), "t").output_name, "document-grayscale.pdf");
    let fresh = fresh_output_names(Some("doc"));
    let again = fresh_output_names(Some("doc"));
    assert_eq!(fresh.output_name, "doc-grayscale.pdf");
    assert!(fresh.output_file.starts_with("doc-"));
    assert!(fresh.output_file.ends_with("-grayscale.pdf"));
    assert_eq!(fresh.output_file.len(), "doc-".len() + 36 + "-grayscale.pdf".len());
    assert_ne!(fresh.output_file, again.output_file);
}

#[test]
fn a_gray_preview_is_made_committed_and_sent() {
    let actions = grayscale(vec![
        uploaded(None),
        GrayscaleEvent::PageCount(Ok(10)),
        GrayscaleEvent::Reservation(Ok(reservation(true, Some("res_1")))),
        GrayscaleEvent::Conversion(Ok(())),
        GrayscaleEvent::Committed,
        GrayscaleEvent::Output(Ok(b"%PDF-gray".to_vec())),
        GrayscaleEvent::Removed,
        GrayscaleEvent::Removed,
    ]);
    assert_eq!(
        actions,
        vec![
            GrayscaleAction::SaveUpload { max_size_bytes: 20 * 1024 * 1024 },
            GrayscaleAction::CountPages { path: "/tmp/ghost-upload-1.pdf".to_string() },
            GrayscaleAction::Reserve { clerk_id: "user_1".to_string(), units: 10 },
            GrayscaleAction::Convert {
                mode: GrayscaleMode::Preview,
                input: "/tmp/ghost-upload-1.pdf".to_string(),
                output_file: "doc-token-grayscale.pdf".to_string(),
            },
            GrayscaleAction::Commit { clerk_id: "user_1".to_string(), reservation_id: "res_1".to_string() },
            GrayscaleAction::ReadOutput { output_file: "doc-token-grayscale.pdf".to_string() },
            GrayscaleAction::RemoveFile { path: "/tmp/ghost-upload-1.pdf".to_string() },
            GrayscaleAction::RemoveOutput { output_file: "doc-token-grayscale.pdf".to_string() },
            GrayscaleAction::Respond(Reply::Grayscale {
                file_name: "doc-grayscale.pdf".to_string(),
                bytes: b"%PDF-gray".to_vec(),
            }),
        ]
    );
    assert_eq!(settlements(&actions), (1, 0));
    let reply = match actions.into_iter().last() {
        Some(GrayscaleAction::Respond(reply)) => reply.into_http(),
        other => panic!("no reply: {:?}", other),
    };
    assert_eq!(
        reply,
        HttpReply {
            status: 200,
            body: ReplyBody::Pdf {
                content_disposition: "attachment; filename=\"doc-grayscale.pdf\"".to_string(),
                bytes: b"%PDF-gray".to_vec(),
            },
        }
    );
}

#[test]
fn production_mode_is_passed_to_the_conversion() {
    let actions = grayscale(vec![
        uploaded(Some(" Production ")),
        GrayscaleEvent::PageCount(Ok(1)),
        GrayscaleEvent::Reservation(Ok(reservation(true, Some("res_1")))),
    ]);
    assert!(matches!(
        actions.last(),
        Some(GrayscaleAction::Convert { mode: GrayscaleMode::Production, .. })
    ));
}

#[test]
fn a_failed_conversion_releases_the_units() {
    let actions = grayscale(vec![
        uploaded(Some("preview")),
        GrayscaleEvent::PageCount(Ok(3)),
        GrayscaleEvent::Reservation(Ok(reservation(true, Some("res_1")))),
        GrayscaleEvent::Conversion(Err("gs timed out after 120000 ms".to_string())),
        GrayscaleEvent::Released,
        GrayscaleEvent::Removed,
        GrayscaleEvent::Removed,
    ]);
    assert_eq!(settlements(&actions), (0, 1));
    assert_eq!(
        actions[4],
        GrayscaleAction::Release { clerk_id: "user_1".to_string(), reservation_id: "res_1".to_string() }
    );
    assert!(removes_both_files(&actions));
    assert_eq!(
        actions.last(),
        Some(&GrayscaleAction::Respond(Reply::Failed("gs timed out after 120000 ms".to_string())))
    );
}

#[test]
fn requests_without_units_settle_nothing_and_leave_no_file() {
    let denied = grayscale(vec![
        uploaded(None),
        GrayscaleEvent::PageCount(Ok(3)),
        GrayscaleEvent::Reservation(Ok(reservation(false, None))),
        GrayscaleEvent::Removed,
        GrayscaleEvent::Removed,
    ]);
    assert_eq!(
        denied.last(),
        Some(&GrayscaleAction::Respond(Reply::QuotaExceeded { reservation: reservation(false, None), units: 3 }))
    );
    let denied_with_id = grayscale(vec![
        uploaded(None),
        GrayscaleEvent::PageCount(Ok(3)),
        GrayscaleEvent::Reservation(Ok(reservation(false, Some("res_9")))),
        GrayscaleEvent::Removed,
        GrayscaleEvent::Removed,
    ]);
    let without_id = grayscale(vec![
        uploaded(None),
        GrayscaleEvent::PageCount(Ok(3)),
        GrayscaleEvent::Reservation(Ok(reservation(true, None))),
        GrayscaleEvent::Removed,
        GrayscaleEvent::Removed,
    ]);
    assert_eq!(without_id.last(), Some(&GrayscaleAction::Respond(Reply::NoReservationId)));
    let backend_down = grayscale(vec![
        uploaded(None),
        GrayscaleEvent::PageCount(Ok(3)),
        GrayscaleEvent::Reservation(Err(ReserveError::Backend("backend down".to_string()))),
        GrayscaleEvent::Removed,
        GrayscaleEvent::Removed,
    ]);
    assert_eq!(backend_down.last(), Some(&GrayscaleAction::Respond(Reply::ReserveFailed)));
    let no_count = grayscale(vec![
        uploaded(None),
        GrayscaleEvent::PageCount(Err("Invalid page count reported by Ghostscript.".to_string())),
        GrayscaleEvent::Removed,
        GrayscaleEvent::Removed,
    ]);
    assert_eq!(
        no_count.last(),
        Some(&GrayscaleAction::Respond(Reply::Failed("Invalid page count reported by Ghostscript.".to_string())))
    );
    for actions in [&denied, &denied_with_id, &without_id, &backend_down, &no_count] {
        assert_eq!(settlements(actions), (0, 0));
        assert!(removes_both_files(actions));
    }
}

#[test]
fn a_copy_that_cannot_be_read_is_still_committed_and_cleaned_up() {
    let actions = grayscale(vec![
        uploaded(None),
        GrayscaleEvent::PageCount(Ok(3)),
        GrayscaleEvent::Reservation(Ok(reservation(true, Some("res_1")))),
        GrayscaleEvent::Conversion(Ok(())),
        GrayscaleEvent::Committed,
        GrayscaleEvent::Output(Err(())),
        GrayscaleEvent::Removed,
        GrayscaleEvent::Removed,
    ]);
    assert_eq!(settlements(&actions), (1, 0));
    assert!(removes_both_files(&actions));
    assert_eq!(actions.last(), Some(&GrayscaleAction::Respond(Reply::OutputUnreadable)));
}

#[test]
fn an_unknown_mode_deletes_the_upload_and_is_refused() {
    let actions = grayscale(vec![uploaded(Some("draft")), GrayscaleEvent::Removed]);
    assert_eq!(
        actions[1..],
        [
            GrayscaleAction::RemoveFile { path: "/tmp/ghost-upload-1.pdf".to_string() },
            GrayscaleAction::Respond(Reply::InvalidMode),
        ]
    );
    assert_eq!(
        Reply::InvalidMode.into_http(),
        HttpReply {
            status: 400,
            body: ReplyBody::Error("Invalid mode. Use \"preview\" or \"production\".".to_string()),
        }
    );
}

#[test]
fn an_upload_that_was_not_stored_is_answered_at_once() {
    let actions = grayscale(vec![GrayscaleEvent::Upload(Err(UploadError::FileTooLarge))]);
    assert_eq!(
        actions,
        vec![
            GrayscaleAction::SaveUpload { max_size_bytes: 20 * 1024 * 1024 },
            GrayscaleAction::Respond(Reply::Upload(UploadError::FileTooLarge)),
        ]
    );
}

#[test]
fn events_have_to_answer_the_last_action() {
    let (state, _) = GrayscaleState::start("user_1".to_string());
    assert!(!state.accepts(&GrayscaleEvent::PageCount(Ok(1))));
    assert!(!state.accepts(&GrayscaleEvent::Removed));
    let (done, _) = state.step(GrayscaleEvent::Upload(Err(UploadError::MissingFile)));
    assert!(!done.accepts(&GrayscaleEvent::Upload(Err(UploadError::MissingFile))));
    assert!(!done.accepts(&GrayscaleEvent::Removed));
    let (counting, _) = PreflightState::start(None, 1).0.step(PreflightEvent::Upload(Ok(UploadedFile {
        temp_path: "/tmp/u.pdf".to_string(),
        original_name: "u.pdf".to_string(),
    })));
    assert!(counting.accepts(&PreflightEvent::PageCount(Ok(i64::MAX))));
    assert!(counting.accepts(&PreflightEvent::PageCount(Ok(i64::MIN))));
    assert!(!counting.accepts(&PreflightEvent::Removed));
}

fn sample_upload() -> PreflightEvent {
    PreflightEvent::Upload(Ok(UploadedFile {
        temp_path: "/tmp/ghost-upload-2.pdf".to_string(),
        original_name: "sample.pdf".to_string(),
    }))
}

fn sample_analysis() -> pdf_gateway::ghostscript::PdfAnalysis {
    analyze_pdf(
        "ghost-upload-2.pdf",
        2,
        " 0.1 0.2 0.3 0.4 CMYK OK\n 0.0 0.0 0.0 0.5 CMYK OK\n",
        "",
        Some(&b"%PDF-1.4 plain".to_vec()),
    )
}

#[test]
fn the_public_trial_analyses_without_units() {
    let actions = preflight(
        None,
        vec![
            sample_upload(),
            PreflightEvent::PageCount(Ok(2)),
            PreflightEvent::Analysis(Ok(sample_analysis())),
            PreflightEvent::Removed,
        ],
    );
    assert_eq!(
        actions[..4],
        [
            PreflightAction::SaveUpload { max_size_bytes: 5 * 1024 * 1024 },
            PreflightAction::CountPages { path: "/tmp/ghost-upload-2.pdf".to_string() },
            PreflightAction::Analyze { path: "/tmp/ghost-upload-2.pdf".to_string(), pages: 2 },
            PreflightAction::RemoveFile { path: "/tmp/ghost-upload-2.pdf".to_string() },
        ]
    );
    let reply = match actions.into_iter().last() {
        Some(PreflightAction::Respond(reply)) => reply.into_http(),
        other => panic!("no reply: {:?}", other),
    };
    assert_eq!(reply.status, 200);
    match reply.body {
        ReplyBody::Analysis(analysis) => {
            assert_eq!(analysis.file_name, "sample.pdf");
            assert_eq!(analysis.page_count, 2);
            assert!(!analysis.has_formfields);
            assert_eq!(analysis.color_profiles.len(), 2);
            assert_eq!(analysis.color_profiles[0].page, 1);
            assert_eq!(analysis.color_profiles[1].page, 2);
            assert_eq!(analysis.color_profiles[1].k, "0.5");
        }
        other => panic!("no analysis: {:?}", other),
    }
}

#[test]
fn an_analysis_for_a_user_takes_two_units_a_page_and_commits() {
    let actions = preflight(
        Some("user_1"),
        vec![
            sample_upload(),
            PreflightEvent::PageCount(Ok(2)),
            PreflightEvent::Reservation(Ok(reservation(true, Some("res_7")))),
            PreflightEvent::Analysis(Ok(sample_analysis())),
            PreflightEvent::Committed(Ok(false)),
            PreflightEvent::Removed,
        ],
    );
    assert_eq!(actions[2], PreflightAction::Reserve { clerk_id: "user_1".to_string(), units: 4 });
    assert_eq!(
        actions[3],
        PreflightAction::Analyze { path: "/tmp/ghost-upload-2.pdf".to_string(), pages: 2 }
    );
    assert_eq!(
        actions[4],
        PreflightAction::Commit { clerk_id: "user_1".to_string(), reservation_id: "res_7".to_string() }
    );
    assert_eq!(actions[5], PreflightAction::RemoveFile { path: "/tmp/ghost-upload-2.pdf".to_string() });
    assert!(matches!(actions.last(), Some(PreflightAction::Respond(Reply::Analysis(a))) if a.file_name == "sample.pdf"));
    assert_eq!(actions.iter().filter(|a| matches!(a, PreflightAction::Release { .. })).count(), 0);
}

#[test]
fn a_free_user_at_the_quota_is_denied() {
    let actions = preflight(
        Some("user_1"),
        vec![
            sample_upload(),
            PreflightEvent::PageCount(Ok(2)),
            PreflightEvent::Reservation(Ok(reservation(false, None))),
            PreflightEvent::Removed,
        ],
    );
    assert_eq!(actions[3], PreflightAction::RemoveFile { path: "/tmp/ghost-upload-2.pdf".to_string() });
    assert!(!actions.iter().any(|a| matches!(a, PreflightAction::Commit { .. } | PreflightAction::Release { .. } | PreflightAction::Analyze { .. })));
    let reply = match actions.into_iter().last() {
        Some(PreflightAction::Respond(reply)) => reply.into_http(),
        other => panic!("no reply: {:?}", other),
    };
    assert_eq!(
        reply,
        HttpReply {
            status: 402,
            body: ReplyBody::QuotaExceeded(QuotaExceededBody {
                error: "Monthly quota exceeded.".to_string(),
                plan: "free".to_string(),
                monthly_quota: Some(400),
                units_this_month: 399,
                pending_units: 0,
                units_requested: 4,
            }),
        }
    );
    assert_eq!(quota_exceeded_response(reservation(false, None), 4), reply);
}

#[test]
fn a_failed_analysis_releases_the_units() {
    let actions = preflight(
        Some("user_1"),
        vec![
            sample_upload(),
            PreflightEvent::PageCount(Ok(2)),
            PreflightEvent::Reservation(Ok(reservation(true, Some("res_7")))),
            PreflightEvent::Analysis(Err("gs failed with status exit status: 1".to_string())),
            PreflightEvent::Released,
            PreflightEvent::Removed,
        ],
    );
    assert_eq!(
        actions[4..],
        [
            PreflightAction::Release { clerk_id: "user_1".to_string(), reservation_id: "res_7".to_string() },
            PreflightAction::RemoveFile { path: "/tmp/ghost-upload-2.pdf".to_string() },
            PreflightAction::Respond(Reply::Failed("gs failed with status exit status: 1".to_string())),
        ]
    );
}

#[test]
fn failures_of_an_analysis_for_a_user_are_answered_after_the_cleanup() {
    let cases: Vec<(Vec<PreflightEvent>, Reply)> = vec![
        (vec![PreflightEvent::PageCount(Err("no pages".to_string()))], Reply::Failed("no pages".to_string())),
        (
            vec![PreflightEvent::PageCount(Ok(1)), PreflightEvent::Reservation(Err(ReserveError::Backend("failed to reserve usage units (clerk_id=user_1, units=2)".to_string())))],
            Reply::Failed("failed to reserve usage units (clerk_id=user_1, units=2)".to_string()),
        ),
        (
            vec![PreflightEvent::PageCount(Ok(1)), PreflightEvent::Reservation(Ok(reservation(true, None)))],
            Reply::NoReservationId,
        ),
        (
            vec![
                PreflightEvent::PageCount(Ok(1)),
                PreflightEvent::Reservation(Ok(reservation(true, Some("r")))),
                PreflightEvent::Analysis(Ok(sample_analysis())),
                PreflightEvent::Committed(Err("failed to commit usage reservation".to_string())),
            ],
            Reply::Failed("failed to commit usage reservation".to_string()),
        ),
    ];
    for (events, reply) in cases {
        let mut all = vec![sample_upload()];
        all.extend(events);
        all.push(PreflightEvent::Removed);
        let actions = preflight(Some("user_1"), all);
        let count = actions.len();
        assert_eq!(actions[count - 2], PreflightAction::RemoveFile { path: "/tmp/ghost-upload-2.pdf".to_string() });
        assert_eq!(actions[count - 1], PreflightAction::Respond(reply));
    }
    assert_eq!(
        preflight(None, vec![PreflightEvent::Upload(Err(UploadError::UnsupportedFileType))]).last(),
        Some(&PreflightAction::Respond(Reply::Upload(UploadError::UnsupportedFileType)))
    );
}

#[test]
fn uploads_that_were_not_stored_have_their_replies() {
    for (error, status, words) in [
        (UploadError::MissingFile, 400, "File not found"),
        (UploadError::UnsupportedFileType, 400, "Only PDF files are supported"),
        (UploadError::FileTooLarge, 400, "File exceeds upload limit"),
        (UploadError::MultipartError, 500, "Failed to parse upload"),
        (UploadError::IoError, 500, "Failed to parse upload"),
    ] {
        let expected = HttpReply { status, body: ReplyBody::Error(words.to_string()) };
        assert_eq!(upload_error_to_response(error), expected);
        assert_eq!(Reply::Upload(error).into_http(), expected);
    }
}

#[test]
fn fixed_replies_have_their_status_and_text() {
    for (notice, status, text) in [
        (Notice::NotFound, 404, "Not Found"),
        (Notice::Conversion, 200, "conversion"),
        (Notice::Unauthorized, 401, "Unauthorized"),
        (Notice::ApiKeyRequired, 401, "Unauthorized: API Key is required."),
        (Notice::ApiKeyInvalid, 401, "Unauthorized: Invalid API Key."),
        (Notice::InternalServerError, 500, "Internal Server Error"),
        (Notice::TooManyRequests, 429, "Too many requests from this IP, please try again after 15 minutes"),
        (Notice::MissingClerkId, 500, "Authenticated user missing Clerk ID."),
        (Notice::ApiKeyGenerationFailed, 500, "Error generating API key"),
        (Notice::ApiKeyListingFailed, 500, "Error listing API keys"),
        (Notice::ApiKeyDeletionFailed, 500, "Error deleting API key."),
        (Notice::MissingApiKeyId, 400, "Missing API key ID."),
        (Notice::SubscriptionFailed, 500, "Error fetching subscription"),
        (Notice::UsageFailed, 500, "Error fetching usage data"),
        (Notice::CheckoutMissingParameters, 400, "Missing required parameters: priceId, successUrl, cancelUrl"),
        (Notice::UnknownPrice, 400, "Unknown or unsupported Stripe price ID."),
        (Notice::CheckoutFailed, 500, "Error creating checkout session"),
        (Notice::UserNotInBackend, 404, "User not found in Convex database."),
        (Notice::CheckoutWithoutUrl, 500, "Error creating Stripe checkout session."),
        (Notice::MissingSessionId, 400, "Missing sessionId"),
        (Notice::SyncFailed, 500, "Error syncing Stripe session"),
        (Notice::SessionNotComplete, 400, "Checkout session not complete."),
        (Notice::SessionWithoutSubscription, 400, "Could not find subscription or price ID in session."),
        (Notice::UserNotFound, 404, "User not found."),
        (Notice::PortalFailed, 500, "Error creating customer portal session"),
        (Notice::PortalWithoutCustomer, 400, "User or Stripe Customer ID not found."),
        (Notice::PortalWithoutUrl, 500, "Error creating Stripe customer portal session."),
        (Notice::MissingSignature, 400, "Missing Stripe signature."),
        (Notice::WebhookNotConfigured, 500, "Webhook not configured."),
        (Notice::InvalidSignature, 400, "Invalid signature."),
        (Notice::WebhookFailed, 500, "Webhook handler failed."),
    ] {
        assert_eq!(notice.status(), status);
        assert_eq!(notice.text(), text);
        assert_eq!(
            plain(notice).into_http(),
            HttpReply { status, body: ReplyBody::Text(text.to_string()) }
        );
    }
}

#[test]
fn other_replies_are_put_into_words() {
    let error = |words: &str| HttpReply { status: 500, body: ReplyBody::Error(words.to_string()) };
    assert_eq!(Reply::Failed("boom".to_string()).into_http(), error("boom"));
    assert_eq!(Reply::ReserveFailed.into_http(), error("Failed to reserve usage quota."));
    assert_eq!(Reply::NoReservationId.into_http(), error("Failed to create usage reservation."));
    assert_eq!(Reply::OutputUnreadable.into_http(), error("Failed to send grayscale PDF"));
    assert_eq!(
        Reply::ApiKeyCreated("\"gk_123\"".to_string()).into_http(),
        HttpReply { status: 201, body: ReplyBody::ApiKey("\"gk_123\"".to_string()) }
    );
    assert_eq!(
        Reply::Document("[]".to_string()).into_http(),
        HttpReply { status: 200, body: ReplyBody::Document("[]".to_string()) }
    );
    assert_eq!(
        Reply::ApiKeyDeleted.into_http(),
        HttpReply { status: 200, body: ReplyBody::Message("API key deleted successfully.".to_string()) }
    );
    assert_eq!(Reply::NoSubscription.into_http(), HttpReply { status: 200, body: ReplyBody::NoSubscription });
    assert_eq!(
        Reply::Url("https://pay".to_string()).into_http(),
        HttpReply { status: 200, body: ReplyBody::Url("https://pay".to_string()) }
    );
    assert_eq!(
        Reply::Synced.into_http(),
        HttpReply { status: 200, body: ReplyBody::Message("Subscription synced successfully.".to_string()) }
    );
    assert_eq!(Reply::Received.into_http(), HttpReply { status: 200, body: ReplyBody::Received });
    assert_eq!(
        Reply::Grayscale { file_name: "a b\".pdf".to_string(), bytes: vec![1, 2] }.into_http(),
        HttpReply {
            status: 200,
            body: ReplyBody::Pdf {
                content_disposition: "attachment; filename=\"a_b_.pdf\"".to_string(),
                bytes: vec![1, 2],
            },
        }
    );
}

fn record(date: &str, count: i64) -> ConvexUsageRecord {
    ConvexUsageRecord { date: date.to_string(), count }
}

fn hold(date: &str, status: &str, units: i64, expires_at: i64) -> ConvexUsageReservationRecord {
    ConvexUsageReservationRecord { date: date.to_string(), status: status.to_string(), units, expires_at }
}

fn clock() -> UsageClock {
    UsageClock { current_month: "2026-03".to_string(), now_ms: 1_000 }
}

fn subscription(plan: &str, status: &str) -> Option<SubscriptionRecord> {
    Some(SubscriptionRecord { plan: some(plan), status: some(status) })
}

#[test]
fn use_is_summed_up_for_the_month() {
    let records = vec![record("2026-02-27", 100), record("2026-03-01", 30), record("2026-03-15", 12), record("2025-03-15", 5)];
    let holds = vec![
        hold("2026-03-15", "pending", 8, 1_001),
        hold("2026-03-15", "pending", 16, 1_000),
        hold("2026-03-15", "committed", 32, 9_999),
        hold("2026-02-28", "pending", 64, 9_999),
    ];
    assert_eq!(
        usage_summary(&records, &holds, &subscription("starter", "active"), &clock()),
        Some(UsageSummary {
            plan: PlanId::Starter,
            total_units: 147,
            units_this_month: 42,
            pending_units: 8,
            monthly_quota: Some(5_000),
            remaining_units: Some(4_950),
        })
    );
    assert_eq!(
        usage_summary(&records, &holds, &subscription("starter", "canceled"), &clock()),
        Some(UsageSummary {
            plan: PlanId::Free,
            total_units: 147,
            units_this_month: 42,
            pending_units: 8,
            monthly_quota: Some(400),
            remaining_units: Some(350),
        })
    );
    assert_eq!(
        usage_summary(&records, &holds, &subscription("enterprise", "trialing"), &clock()),
        Some(UsageSummary {
            plan: PlanId::Enterprise,
            total_units: 147,
            units_this_month: 42,
            pending_units: 8,
            monthly_quota: None,
            remaining_units: None,
        })
    );
}

#[test]
fn what_is_left_of_a_quota_is_never_negative() {
    let summary = usage_summary(&vec![record("2026-03-02", 399)], &vec![hold("2026-03-02", "pending", 4, 5_000)], &None, &clock()).unwrap();
    assert_eq!(summary.remaining_units, Some(0));
    assert_eq!(summary.units_this_month, 399);
    let empty = usage_summary(&vec![], &vec![], &None, &clock()).unwrap();
    assert_eq!(empty.remaining_units, Some(400));
    assert_eq!(empty.total_units, 0);
}

#[test]
fn sums_beyond_the_machine_give_no_summary() {
    let huge = vec![record("2026-03-01", i64::MAX), record("2026-03-02", 1)];
    assert_eq!(usage_summary(&huge, &vec![], &None, &clock()), None);
    let cancelling = vec![record("2026-03-01", i64::MAX), record("2026-03-02", 1), record("2026-03-03", -1)];
    assert_eq!(usage_summary(&cancelling, &vec![], &None, &clock()).map(|s| s.total_units), Some(i64::MAX));
    let negative = vec![record("2026-03-01", i64::MIN)];
    assert_eq!(usage_summary(&negative, &vec![hold("2026-03-01", "pending", i64::MIN, 2_000)], &None, &clock()), None);
}

#[test]
fn a_request_for_use_reads_three_things() {
    let (state, first) = UsageState::start("user_1".to_string());
    assert_eq!(first, UsageAction::GetUsageData { user_id: "user_1".to_string() });
    let (state, second) = state.step(UsageEvent::Records(Ok(vec![record("2026-03-01", 1)])));
    assert_eq!(second, UsageAction::GetUsageReservations { user_id: "user_1".to_string() });
    let (state, third) = state.step(UsageEvent::Reservations(Ok((vec![], clock()))));
    assert_eq!(third, UsageAction::GetSubscription { user_id: "user_1".to_string() });
    assert!(state.accepts(&UsageEvent::Subscription(Ok(None))));
    assert!(!state.accepts(&UsageEvent::Records(Err(()))));
    let (_, reply) = state.step(UsageEvent::Subscription(Ok(None)));
    assert_eq!(
        reply,
        UsageAction::Respond(Reply::Usage(UsageSummary {
            plan: PlanId::Free,
            total_units: 1,
            units_this_month: 1,
            pending_units: 0,
            monthly_quota: Some(400),
            remaining_units: Some(399),
        }))
    );
    let failed = UsageAction::Respond(plain(Notice::UsageFailed));
    assert_eq!(UsageState::start("u".to_string()).0.step(UsageEvent::Records(Err(()))).1, failed);
    let (at_holds, _) = UsageState::start("u".to_string()).0.step(UsageEvent::Records(Ok(vec![])));
    assert_eq!(at_holds.clone().step(UsageEvent::Reservations(Err(()))).1, failed);
    let (at_subscription, _) = at_holds.step(UsageEvent::Reservations(Ok((vec![], clock()))));
    assert_eq!(at_subscription.step(UsageEvent::Subscription(Err(()))).1, failed);
}

#[test]
fn small_handlers_answer_what_the_backend_gave() {
    assert_eq!(generate_api_key(Ok("\"gk\"".to_string())), Reply::ApiKeyCreated("\"gk\"".to_string()));
    assert_eq!(generate_api_key(Err(())), plain(Notice::ApiKeyGenerationFailed));
    assert_eq!(list_api_keys(Ok("[1]".to_string())), Reply::Document("[1]".to_string()));
    assert_eq!(list_api_keys(Err(())), plain(Notice::ApiKeyListingFailed));
    assert_eq!(
        delete_api_key("user_1".to_string(), DeleteApiKeyPath { id: "key_1".to_string() }),
        DeleteApiKeyStep::Delete { clerk_id: "user_1".to_string(), api_key_id: "key_1".to_string() }
    );
    assert_eq!(
        delete_api_key("user_1".to_string(), DeleteApiKeyPath { id: " \t".to_string() }),
        DeleteApiKeyStep::Respond(plain(Notice::MissingApiKeyId))
    );
    assert_eq!(api_key_deleted(Ok(())), Reply::ApiKeyDeleted);
    assert_eq!(api_key_deleted(Err(())), plain(Notice::ApiKeyDeletionFailed));
    assert_eq!(get_subscription(Ok(None)), Reply::NoSubscription);
    assert_eq!(get_subscription(Ok(some("{\"plan\":\"pro\"}"))), Reply::Document("{\"plan\":\"pro\"}".to_string()));
    assert_eq!(get_subscription(Err(())), plain(Notice::SubscriptionFailed));
    assert_eq!(conversion_placeholder(), plain(Notice::Conversion));
    assert_eq!(not_found(), plain(Notice::NotFound));
}

#[test]
fn the_health_check_names_backend_and_renderer() {
    let probe = |success: bool, stdout: &str, stderr: &str| -> Result<CommandOutput, String> {
        Ok(CommandOutput {
            success,
            status: "exit status: 2".to_string(),
            stdout: stdout.to_string(),
            stderr: stderr.to_string(),
        })
    };
    assert_eq!(
        health(&probe(true, "GPL Ghostscript 10.02.1 (2023-11-01)\n", ""), &Ok("ok".to_string())),
        HttpReply {
            status: 200,
            body: ReplyBody::Text(
                "Express server is online. Convex status: \"ok\". Ghostscript status: GPL Ghostscript 10.02.1 (2023-11-01)".to_string()
            ),
        }
    );
    assert_eq!(
        health(&probe(false, "", " bad flag \n"), &Ok("ok".to_string())),
        HttpReply {
            status: 200,
            body: ReplyBody::Text(
                "Express server is online. Convex status: \"ok\". Ghostscript status: Not checked (Error: Stderr: bad flag)".to_string()
            ),
        }
    );
    assert_eq!(
        health(&probe(false, "ignored", ""), &Err(())),
        HttpReply {
            status: 500,
            body: ReplyBody::Text(
                "Failed to connect to Convex. Ghostscript status: Not checked (Error: Exit status: exit status: 2)".to_string()
            ),
        }
    );
    assert_eq!(
        health(&Err("No such file or directory (os error 2)".to_string()), &Err(())),
        HttpReply {
            status: 500,
            body: ReplyBody::Text(
                "Failed to connect to Convex. Ghostscript status: Not checked (Error: Failed to execute gs -v: No such file or directory (os error 2))".to_string()
            ),
        }
    );
}

fn user(customer: Option<&str>) -> ConvexUserForStripe {
    ConvexUserForStripe {
        clerk_id: "user_db".to_string(),
        email: "a@b.c".to_string(),
        stripe_customer_id: customer.map(String::from),
    }
}

fn checkout_body(price: Option<&str>, success: Option<&str>, cancel: Option<&str>) -> CreateCheckoutRequest {
    CreateCheckoutRequest {
        price_id: price.map(String::from),
        success_url: success.map(String::from),
        cancel_url: cancel.map(String::from),
    }
}

fn session_url(url: Option<&str>) -> StripeCheckoutSession {
    StripeCheckoutSession { url: url.map(String::from), status: None, subscription: None, line_items: None }
}

#[test]
fn a_checkout_needs_its_parameters_and_a_known_price() {
    let missing = CheckoutAction::Respond(plain(Notice::CheckoutMissingParameters));
    for body in [
        checkout_body(None, Some("s"), Some("c")),
        checkout_body(Some("price_pro"), None, Some("c")),
        checkout_body(Some("price_pro"), Some("s"), None),
        checkout_body(Some(" "), Some("s"), Some("c")),
        checkout_body(Some("price_pro"), Some(""), Some("c")),
        checkout_body(Some("price_pro"), Some("s"), Some("\n")),
    ] {
        assert_eq!(CheckoutState::start("user_1".to_string(), body, &prices()).1, missing);
    }
    assert_eq!(
        CheckoutState::start("user_1".to_string(), checkout_body(Some("price_gold"), Some("s"), Some("c")), &prices()).1,
        CheckoutAction::Respond(plain(Notice::UnknownPrice))
    );
    assert_eq!(
        CheckoutState::start("user_1".to_string(), checkout_body(Some(" price_pro "), Some("s"), Some("c")), &prices()).1,
        CheckoutAction::GetUserForStripe { clerk_id: "user_1".to_string() }
    );
}

#[test]
fn a_checkout_for_a_known_customer_makes_the_session() {
    let (state, _) = CheckoutState::start("user_1".to_string(), checkout_body(Some("price_pro"), Some("https://ok"), Some("https://no")), &prices());
    let (state, action) = state.step(CheckoutEvent::User(Ok(Some(user(Some("cus_1"))))));
    assert_eq!(
        action,
        CheckoutAction::CreateCheckoutSession {
            customer_id: "cus_1".to_string(),
            price_id: "price_pro".to_string(),
            success_url: "https://ok".to_string(),
            cancel_url: "https://no".to_string(),
        }
    );
    assert!(state.accepts(&CheckoutEvent::Session(Err(()))));
    assert!(!state.accepts(&CheckoutEvent::User(Err(()))));
    assert_eq!(
        state.clone().step(CheckoutEvent::Session(Ok(session_url(Some("https://pay"))))).1,
        CheckoutAction::Respond(Reply::Url("https://pay".to_string()))
    );
    assert_eq!(
        state.clone().step(CheckoutEvent::Session(Ok(session_url(None)))).1,
        CheckoutAction::Respond(plain(Notice::CheckoutWithoutUrl))
    );
    assert_eq!(
        state.step(CheckoutEvent::Session(Err(()))).1,
        CheckoutAction::Respond(plain(Notice::CheckoutFailed))
    );
}

#[test]
fn a_checkout_for_a_new_customer_creates_and_stores_the_customer_first() {
    let begin = || CheckoutState::start("user_1".to_string(), checkout_body(Some("price_pro"), Some("https://ok"), Some("https://no")), &prices()).0;
    let (state, action) = begin().step(CheckoutEvent::User(Ok(Some(user(None)))));
    assert_eq!(action, CheckoutAction::CreateCustomer { email: "a@b.c".to_string(), clerk_id: "user_db".to_string() });
    let customer = StripeCustomer::new("cus_new".to_string(), false, vec![]);
    let (state, action) = state.step(CheckoutEvent::Customer(Ok(customer)));
    assert_eq!(
        action,
        CheckoutAction::SetStripeCustomerId { clerk_id: "user_db".to_string(), stripe_customer_id: "cus_new".to_string() }
    );
    let (_, action) = state.clone().step(CheckoutEvent::CustomerStored(Ok(())));
    assert_eq!(
        action,
        CheckoutAction::CreateCheckoutSession {
            customer_id: "cus_new".to_string(),
            price_id: "price_pro".to_string(),
            success_url: "https://ok".to_string(),
            cancel_url: "https://no".to_string(),
        }
    );
    let failed = CheckoutAction::Respond(plain(Notice::CheckoutFailed));
    assert_eq!(state.step(CheckoutEvent::CustomerStored(Err(()))).1, failed);
    assert_eq!(begin().step(CheckoutEvent::User(Err(()))).1, failed);
    assert_eq!(begin().step(CheckoutEvent::User(Ok(None))).1, CheckoutAction::Respond(plain(Notice::UserNotInBackend)));
    let (creating, _) = begin().step(CheckoutEvent::User(Ok(Some(user(None)))));
    assert_eq!(creating.step(CheckoutEvent::Customer(Err(()))).1, failed);
}

fn finished_session(status: Option<&str>, subscription: Option<IdOrObject>, price: Option<&str>) -> StripeCheckoutSession {
    StripeCheckoutSession {
        url: None,
        status: status.map(String::from),
        subscription,
        line_items: price.map(|id| StripeLineItems {
            data: vec![StripeLineItem { price: Some(StripePrice { id: Some(id.to_string()) }) }],
        }),
    }
}

#[test]
fn a_finished_checkout_is_stored_as_an_active_subscription() {
    let (state, action) = SyncState::start("user_1".to_string(), SyncStripeSessionRequest { session_id: some("cs_1") });
    assert_eq!(action, SyncAction::RetrieveCheckoutSession { session_id: "cs_1".to_string() });
    let session = finished_session(Some("complete"), Some(IdOrObject::Object { id: "sub_1".to_string() }), Some("price_starter"));
    let (state, action) = state.step(SyncEvent::Session(Ok(session)), &prices());
    assert_eq!(action, SyncAction::GetUserForStripe { clerk_id: "user_1".to_string() });
    let (state, action) = state.step(SyncEvent::User(Ok(Some(user(Some("cus_1"))))), &prices());
    assert_eq!(action, SyncAction::GetSubscription { user_id: "user_1".to_string() });
    let stored = |update: bool| SubscriptionSync {
        update,
        user_id: "user_1".to_string(),
        plan: PlanId::Starter,
        status: SyncStatus::Active,
        stripe_subscription_id: "sub_1".to_string(),
        stripe_price_id: some("price_starter"),
        ends_at: None,
    };
    assert_eq!(
        state.clone().step(SyncEvent::Subscription(Ok(None)), &prices()).1,
        SyncAction::StoreSubscription(stored(false))
    );
    let (state, action) = state.step(SyncEvent::Subscription(Ok(subscription("free", "inactive"))), &prices());
    assert_eq!(action, SyncAction::StoreSubscription(stored(true)));
    assert_eq!(stored(true).function_name(), "subscriptions:updateSubscription");
    assert_eq!(stored(false).function_name(), "subscriptions:createSubscription");
    assert_eq!(stored(true).status.text(), "active");
    assert_eq!(SyncStatus::Reported("past_due".to_string()).text(), "past_due");
    assert_eq!(state.clone().step(SyncEvent::Stored(Ok(())), &prices()).1, SyncAction::Respond(Reply::Synced));
    assert_eq!(state.step(SyncEvent::Stored(Err(())), &prices()).1, SyncAction::Respond(plain(Notice::SyncFailed)));
}

#[test]
fn a_checkout_that_cannot_be_stored_is_refused() {
    for body in [SyncStripeSessionRequest { session_id: None }, SyncStripeSessionRequest { session_id: some("  ") }] {
        assert_eq!(SyncState::start("user_1".to_string(), body).1, SyncAction::Respond(plain(Notice::MissingSessionId)));
    }
    let begin = || SyncState::start("user_1".to_string(), SyncStripeSessionRequest { session_id: some("cs_1") }).0;
    let reference = || Some(IdOrObject::Id("sub_1".to_string()));
    for (event, notice) in [
        (SyncEvent::Session(Err(())), Notice::SyncFailed),
        (SyncEvent::Session(Ok(finished_session(Some("open"), reference(), Some("price_pro")))), Notice::SessionNotComplete),
        (SyncEvent::Session(Ok(finished_session(None, reference(), Some("price_pro")))), Notice::SessionNotComplete),
        (SyncEvent::Session(Ok(finished_session(Some("complete"), None, Some("price_pro")))), Notice::SessionWithoutSubscription),
        (SyncEvent::Session(Ok(finished_session(Some("complete"), reference(), None))), Notice::SessionWithoutSubscription),
        (SyncEvent::Session(Ok(finished_session(Some("complete"), reference(), Some("price_gold")))), Notice::UnknownPrice),
        (SyncEvent::Session(Ok(finished_session(Some("complete"), reference(), Some(" ")))), Notice::UnknownPrice),
    ] {
        assert_eq!(begin().step(event, &prices()).1, SyncAction::Respond(plain(notice)));
    }
    let (at_user, _) = begin().step(SyncEvent::Session(Ok(finished_session(Some("complete"), reference(), Some("price_pro")))), &prices());
    assert_eq!(at_user.clone().step(SyncEvent::User(Err(())), &prices()).1, SyncAction::Respond(plain(Notice::SyncFailed)));
    assert_eq!(at_user.clone().step(SyncEvent::User(Ok(None)), &prices()).1, SyncAction::Respond(plain(Notice::UserNotFound)));
    let (at_subscription, _) = at_user.step(SyncEvent::User(Ok(Some(user(None)))), &prices());
    assert_eq!(at_subscription.step(SyncEvent::Subscription(Err(())), &prices()).1, SyncAction::Respond(plain(Notice::SyncFailed)));
}

#[test]
fn the_portal_needs_a_customer() {
    let (state, action) = PortalState::start("user_1".to_string(), &some("https://app.example//"));
    assert_eq!(action, PortalAction::GetUserForStripe { clerk_id: "user_1".to_string() });
    assert_eq!(state, PortalState::AwaitingUser { return_url: "https://app.example/dashboard".to_string() });
    assert_eq!(
        PortalState::start("user_1".to_string(), &None).0,
        PortalState::AwaitingUser { return_url: "/dashboard".to_string() }
    );
    let without = PortalAction::Respond(plain(Notice::PortalWithoutCustomer));
    assert_eq!(state.clone().step(PortalEvent::User(Ok(None))).1, without);
    assert_eq!(state.clone().step(PortalEvent::User(Ok(Some(user(None))))).1, without);
    assert_eq!(state.clone().step(PortalEvent::User(Err(()))).1, PortalAction::Respond(plain(Notice::PortalFailed)));
    let (state, action) = state.step(PortalEvent::User(Ok(Some(user(Some("cus_1"))))));
    assert_eq!(
        action,
        PortalAction::CreateBillingPortalSession {
            customer_id: "cus_1".to_string(),
            return_url: "https://app.example/dashboard".to_string(),
        }
    );
    assert!(!state.accepts(&PortalEvent::User(Ok(None))));
    assert_eq!(
        state.clone().step(PortalEvent::Session(Ok(StripeBillingPortalSession { url: some("https://portal") }))).1,
        PortalAction::Respond(Reply::Url("https://portal".to_string()))
    );
    assert_eq!(
        state.clone().step(PortalEvent::Session(Ok(StripeBillingPortalSession { url: None }))).1,
        PortalAction::Respond(plain(Notice::PortalWithoutUrl))
    );
    assert_eq!(state.step(PortalEvent::Session(Err(()))).1, PortalAction::Respond(plain(Notice::PortalFailed)));
}

const WEBHOOK_SECRET: &str = "whsec_test_secret";
const WEBHOOK_PAYLOAD: &[u8] = b"{\"type\":\"customer.subscription.created\"}";
const WEBHOOK_TIME: i64 = 1_700_000_000;
const WEBHOOK_SIGNATURE: &str = "ae4051b5500a4352a765c8de280ab89f647b9e74e07b64a3b65b135a27b3b7d1";

fn stripe() -> StripeApi {
    StripeApi::new(None, Some(WEBHOOK_SECRET.to_string()))
}

fn provider_subscription(price: Option<&str>, period_end: Option<i64>) -> StripeSubscription {
    StripeSubscription {
        id: "sub_1".to_string(),
        customer: IdOrObject::Id("cus_1".to_string()),
        status: "trialing".to_string(),
        current_period_end: period_end,
        items: StripeSubscriptionItems {
            data: vec![StripeSubscriptionItem { price: price.map(|id| StripePrice { id: Some(id.to_string()) }) }],
        },
    }
}

fn customer(deleted: bool, metadata: &[(&str, &str)]) -> StripeCustomer {
    StripeCustomer::new(
        "cus_1".to_string(),
        deleted,
        metadata.iter().map(|(k, v)| (k.to_string(), v.to_string())).collect(),
    )
}

#[test]
fn a_signed_subscription_event_creates_the_subscription() {
    let signature = format!("t={},v1={}", WEBHOOK_TIME, WEBHOOK_SIGNATURE);
    let (state, action) = WebhookState::start_at(&stripe(), Some(&signature), WEBHOOK_PAYLOAD, WEBHOOK_TIME);
    assert_eq!(action, WebhookAction::ParseEvent);
    let (state, action) = state.step(WebhookEvent::Parsed(Ok("customer.subscription.created".to_string())), &prices());
    assert_eq!(action, WebhookAction::DecodeSubscription);
    let (state, action) = state.step(WebhookEvent::Subscription(Ok(provider_subscription(Some("price_pro"), Some(1_700_086_400)))), &prices());
    assert_eq!(action, WebhookAction::RetrieveCustomer { customer_id: "cus_1".to_string() });
    let (state, action) = state.step(WebhookEvent::Customer(Ok(customer(false, &[("plan", "x"), ("clerkId", "user_1")]))), &prices());
    assert_eq!(action, WebhookAction::GetSubscription { user_id: "user_1".to_string() });
    let (state, action) = state.step(WebhookEvent::Existing(Ok(None)), &prices());
    let expected = SubscriptionSync {
        update: false,
        user_id: "user_1".to_string(),
        plan: PlanId::Pro,
        status: SyncStatus::Reported("trialing".to_string()),
        stripe_subscription_id: "sub_1".to_string(),
        stripe_price_id: some("price_pro"),
        ends_at: Some(1_700_086_400_000),
    };
    assert_eq!(expected.function_name(), "subscriptions:createSubscription");
    assert_eq!(action, WebhookAction::StoreSubscription(expected));
    let (state, action) = state.step(WebhookEvent::Stored(Ok(())), &prices());
    assert_eq!(action, WebhookAction::Respond(Reply::Received));
    assert_eq!(state, WebhookState::Done);
    assert_eq!(Reply::Received.into_http(), HttpReply { status: 200, body: ReplyBody::Received });
}

#[test]
fn a_tampered_webhook_call_is_refused() {
    let mut altered = WEBHOOK_SIGNATURE.to_string();
    altered.replace_range(0..1, "b");
    assert_ne!(altered, WEBHOOK_SIGNATURE);
    let signature = format!("t={},v1={}", WEBHOOK_TIME, altered);
    let (state, action) = WebhookState::start_at(&stripe(), Some(&signature), WEBHOOK_PAYLOAD, WEBHOOK_TIME);
    assert_eq!(action, WebhookAction::Respond(plain(Notice::InvalidSignature)));
    assert_eq!(state, WebhookState::Done);
    assert_eq!(
        plain(Notice::InvalidSignature).into_http(),
        HttpReply { status: 400, body: ReplyBody::Text("Invalid signature.".to_string()) }
    );
}

#[test]
fn webhook_calls_are_refused_before_they_are_read() {
    let signature = format!("t={},v1={}", WEBHOOK_TIME, WEBHOOK_SIGNATURE);
    assert_eq!(
        WebhookState::start_at(&stripe(), None, WEBHOOK_PAYLOAD, WEBHOOK_TIME).1,
        WebhookAction::Respond(plain(Notice::MissingSignature))
    );
    assert_eq!(
        WebhookState::start(&stripe(), None, WEBHOOK_PAYLOAD).1,
        WebhookAction::Respond(plain(Notice::MissingSignature))
    );
    let unconfigured = StripeApi::new(None, None);
    assert_eq!(
        WebhookState::start_at(&unconfigured, Some(&signature), WEBHOOK_PAYLOAD, WEBHOOK_TIME).1,
        WebhookAction::Respond(plain(Notice::WebhookNotConfigured))
    );
    assert_eq!(
        WebhookState::start(&unconfigured, Some(&signature), WEBHOOK_PAYLOAD).1,
        WebhookAction::Respond(plain(Notice::WebhookNotConfigured))
    );
    assert_eq!(
        WebhookState::start_at(&stripe(), Some(&signature), WEBHOOK_PAYLOAD, WEBHOOK_TIME + 301).1,
        WebhookAction::Respond(plain(Notice::InvalidSignature))
    );
    assert_eq!(
        WebhookState::start(&stripe(), Some(&signature), WEBHOOK_PAYLOAD).1,
        WebhookAction::Respond(plain(Notice::InvalidSignature))
    );
    assert_eq!(
        WebhookState::start_at(&stripe(), Some("nonsense"), WEBHOOK_PAYLOAD, WEBHOOK_TIME).1,
        WebhookAction::Respond(plain(Notice::InvalidSignature))
    );
}

#[test]
fn events_are_told_apart_by_their_type() {
    for name in ["customer.subscription.created", "customer.subscription.updated", "customer.subscription.deleted"] {
        assert_eq!(classify_event(name), EventKind::Subscription);
    }
    for name in ["invoice.payment_failed", "invoice.payment_succeeded"] {
        assert_eq!(classify_event(name), EventKind::Invoice);
    }
    for name in ["", "invoice.paid", "customer.created", "Customer.Subscription.Created", "checkout.session.completed"] {
        assert_eq!(classify_event(name), EventKind::Other);
    }
}

#[test]
fn invoice_events_store_the_subscription_that_the_invoice_names() {
    let parsed = || WebhookState::Parsing.step(WebhookEvent::Parsed(Ok("invoice.payment_succeeded".to_string())), &prices());
    assert_eq!(parsed().1, WebhookAction::DecodeInvoice);
    assert_eq!(
        parsed().0.step(WebhookEvent::Invoice(Ok(StripeInvoice { subscription: None })), &prices()).1,
        WebhookAction::Respond(Reply::Received)
    );
    assert_eq!(
        parsed().0.step(WebhookEvent::Invoice(Err(())), &prices()).1,
        WebhookAction::Respond(plain(Notice::WebhookFailed))
    );
    let (state, action) = parsed().0.step(
        WebhookEvent::Invoice(Ok(StripeInvoice { subscription: Some(IdOrObject::Object { id: "sub_1".to_string() }) })),
        &prices(),
    );
    assert_eq!(action, WebhookAction::RetrieveSubscription { subscription_id: "sub_1".to_string() });
    assert_eq!(
        state.clone().step(WebhookEvent::Subscription(Err(())), &prices()).1,
        WebhookAction::Respond(plain(Notice::WebhookFailed))
    );
    assert_eq!(
        state.step(WebhookEvent::Subscription(Ok(provider_subscription(None, None))), &prices()).1,
        WebhookAction::RetrieveCustomer { customer_id: "cus_1".to_string() }
    );
}

#[test]
fn events_that_concern_nobody_are_taken_and_not_acted_on() {
    assert_eq!(
        WebhookState::Parsing.step(WebhookEvent::Parsed(Ok("charge.refunded".to_string())), &prices()).1,
        WebhookAction::Respond(Reply::Received)
    );
    assert_eq!(
        WebhookState::Parsing.step(WebhookEvent::Parsed(Err(())), &prices()).1,
        WebhookAction::Respond(plain(Notice::InvalidSignature))
    );
    let at_customer = || WebhookState::RetrievingCustomer { subscription: provider_subscription(Some("price_gold"), None) };
    for nobody in [customer(true, &[("clerkId", "user_1")]), customer(false, &[]), customer(false, &[("clerkid", "user_1")])] {
        assert_eq!(
            at_customer().step(WebhookEvent::Customer(Ok(nobody)), &prices()).1,
            WebhookAction::Respond(Reply::Received)
        );
    }
    assert_eq!(
        at_customer().step(WebhookEvent::Customer(Err(())), &prices()).1,
        WebhookAction::Respond(plain(Notice::WebhookFailed))
    );
    let (at_existing, _) = at_customer().step(WebhookEvent::Customer(Ok(customer(false, &[("clerkId", "user_1")]))), &prices());
    assert_eq!(
        at_existing.clone().step(WebhookEvent::Existing(Ok(None)), &prices()).1,
        WebhookAction::Respond(Reply::Received)
    );
    assert_eq!(
        at_existing.clone().step(WebhookEvent::Existing(Err(())), &prices()).1,
        WebhookAction::Respond(plain(Notice::WebhookFailed))
    );
    assert_eq!(
        at_existing.step(WebhookEvent::Existing(Ok(subscription("BUSINESS", "canceled"))), &prices()).1,
        WebhookAction::StoreSubscription(SubscriptionSync {
            update: true,
            user_id: "user_1".to_string(),
            plan: PlanId::Business,
            status: SyncStatus::Reported("trialing".to_string()),
            stripe_subscription_id: "sub_1".to_string(),
            stripe_price_id: some("price_gold"),
            ends_at: None,
        })
    );
}

#[test]
fn a_period_end_beyond_the_machine_fails_the_handling() {
    let at_existing = |period_end: i64| WebhookState::AwaitingSubscription {
        subscription: provider_subscription(Some("price_pro"), Some(period_end)),
        clerk_id: "user_1".to_string(),
    };
    let largest = i64::MAX / 1000;
    assert!(matches!(
        at_existing(largest).step(WebhookEvent::Existing(Ok(None)), &prices()).1,
        WebhookAction::StoreSubscription(SubscriptionSync { ends_at: Some(ms), .. }) if ms == largest * 1000
    ));
    assert_eq!(
        at_existing(largest + 1).step(WebhookEvent::Existing(Ok(None)), &prices()).1,
        WebhookAction::Respond(plain(Notice::WebhookFailed))
    );
    assert_eq!(
        at_existing(i64::MIN).step(WebhookEvent::Existing(Ok(None)), &prices()).1,
        WebhookAction::Respond(plain(Notice::WebhookFailed))
    );
    assert!(matches!(
        at_existing(-5).step(WebhookEvent::Existing(Ok(None)), &prices()).1,
        WebhookAction::StoreSubscription(SubscriptionSync { ends_at: Some(-5000), .. })
    ));
}

#[test]
fn the_user_of_a_customer_is_in_its_metadata() {
    assert_eq!(get_clerk_id_for_customer(&customer(false, &[("a", "b"), ("clerkId", "user_9")])), some("user_9"));
    assert_eq!(get_clerk_id_for_customer(&customer(false, &[("clerkId", "first"), ("clerkId", "second")])), some("second"));
    assert_eq!(get_clerk_id_for_customer(&customer(true, &[("clerkId", "user_9")])), None);
    assert_eq!(get_clerk_id_for_customer(&customer(false, &[])), None);
}

#[test]
fn only_the_toolchain_runs_in_the_queue() {
    let path = || "/tmp/u.pdf".to_string();
    assert_eq!(GrayscaleAction::CountPages { path: path() }.job_name(), Some("grayscale-page-count"));
    assert_eq!(
        GrayscaleAction::Convert { mode: GrayscaleMode::Preview, input: path(), output_file: path() }.job_name(),
        Some("grayscale-conversion")
    );
    for action in [
        GrayscaleAction::SaveUpload { max_size_bytes: 1 },
        GrayscaleAction::Reserve { clerk_id: path(), units: 1 },
        GrayscaleAction::Release { clerk_id: path(), reservation_id: path() },
        GrayscaleAction::Commit { clerk_id: path(), reservation_id: path() },
        GrayscaleAction::ReadOutput { output_file: path() },
        GrayscaleAction::RemoveFile { path: path() },
        GrayscaleAction::RemoveOutput { output_file: path() },
        GrayscaleAction::Respond(Reply::Received),
    ] {
        assert_eq!(action.job_name(), None);
    }
    assert_eq!(PreflightAction::CountPages { path: path() }.job_name(false), Some("preflight"));
    assert_eq!(PreflightAction::Analyze { path: path(), pages: 2 }.job_name(false), Some("preflight"));
    assert_eq!(PreflightAction::CountPages { path: path() }.job_name(true), Some("preflight-test"));
    assert_eq!(PreflightAction::Analyze { path: path(), pages: 2 }.job_name(true), Some("preflight-test"));
    for action in [
        PreflightAction::SaveUpload { max_size_bytes: 1 },
        PreflightAction::Reserve { clerk_id: path(), units: 1 },
        PreflightAction::Release { clerk_id: path(), reservation_id: path() },
        PreflightAction::Commit { clerk_id: path(), reservation_id: path() },
        PreflightAction::RemoveFile { path: path() },
        PreflightAction::Respond(Reply::Received),
    ] {
        assert_eq!(action.job_name(false), None);
        assert_eq!(action.job_name(true), None);
    }
}

#[test]
fn units_allowed_without_an_identifier_are_no_reservation() {
    let missing = || GrayscaleEvent::Reservation(Err(ReserveError::MissingReservationId));
    let actions = grayscale(vec![
        uploaded(None),
        GrayscaleEvent::PageCount(Ok(3)),
        missing(),
        GrayscaleEvent::Removed,
        GrayscaleEvent::Removed,
    ]);
    assert_eq!(actions.last(), Some(&GrayscaleAction::Respond(Reply::NoReservationId)));
    assert_eq!(settlements(&actions), (0, 0));
    assert!(removes_both_files(&actions));
    let actions = preflight(
        Some("user_1"),
        vec![
            sample_upload(),
            PreflightEvent::PageCount(Ok(2)),
            PreflightEvent::Reservation(Err(ReserveError::MissingReservationId)),
            PreflightEvent::Removed,
        ],
    );
    assert_eq!(
        actions[3..],
        [
            PreflightAction::RemoveFile { path: "/tmp/ghost-upload-2.pdf".to_string() },
            PreflightAction::Respond(Reply::NoReservationId),
        ]
    );
}

#[test]
fn a_page_count_beyond_the_units_fails_after_the_cleanup() {
    for pages in [i64::MAX / 2 + 1, i64::MAX, i64::MIN / 2 - 1] {
        let actions = preflight(
            Some("user_1"),
            vec![sample_upload(), PreflightEvent::PageCount(Ok(pages)), PreflightEvent::Removed],
        );
        assert_eq!(
            actions[2..],
            [
                PreflightAction::RemoveFile { path: "/tmp/ghost-upload-2.pdf".to_string() },
                PreflightAction::Respond(Reply::InvalidPageCount),
            ]
        );
    }
    assert_eq!(
        Reply::InvalidPageCount.into_http(),
        HttpReply {
            status: 500,
            body: ReplyBody::Error("Invalid page count reported by Ghostscript.".to_string()),
        }
    );
    let largest = preflight(Some("user_1"), vec![sample_upload(), PreflightEvent::PageCount(Ok(i64::MAX / 2))]);
    assert_eq!(
        largest.last(),
        Some(&PreflightAction::Reserve { clerk_id: "user_1".to_string(), units: i64::MAX - 1 })
    );
    let trial = preflight(None, vec![sample_upload(), PreflightEvent::PageCount(Ok(i64::MAX))]);
    assert_eq!(
        trial.last(),
        Some(&PreflightAction::Analyze { path: "/tmp/ghost-upload-2.pdf".to_string(), pages: i64::MAX })
    );
}

#[test]
fn a_gray_copy_that_is_given_up_owes_its_release_and_its_files() {
    let nothing = Owed { release: None, upload: None, output: None };
    let files = |release: Option<(&str, &str)>| Owed {
        release: release.map(|(user, id)| (user.to_string(), id.to_string())),
        upload: some("/tmp/ghost-upload-1.pdf"),
        output: some("doc-token-grayscale.pdf"),
    };
    let (mut state, mut action) = GrayscaleState::start("user_1".to_string());
    assert_eq!(state.owed(&action), nothing);
    let mut seen = Vec::new();
    for event in [
        uploaded(None),
        GrayscaleEvent::PageCount(Ok(10)),
        GrayscaleEvent::Reservation(Ok(reservation(true, Some("res_1")))),
        GrayscaleEvent::Conversion(Err("boom".to_string())),
        GrayscaleEvent::Released,
        GrayscaleEvent::Removed,
        GrayscaleEvent::Removed,
    ] {
        let (next, after) = state.step(event);
        state = next;
        action = after;
        seen.push(state.owed(&action));
    }
    assert_eq!(
        seen,
        vec![
            files(None),
            files(None),
            files(Some(("user_1", "res_1"))),
            files(Some(("user_1", "res_1"))),
            files(None),
            Owed { release: None, upload: None, output: some("doc-token-grayscale.pdf") },
            nothing.clone(),
        ]
    );
    let (committing, commit) = GrayscaleState::start("user_1".to_string())
        .0
        .step(uploaded(None))
        .0
        .step(GrayscaleEvent::PageCount(Ok(1)))
        .0
        .step(GrayscaleEvent::Reservation(Ok(reservation(true, Some("res_1")))))
        .0
        .step(GrayscaleEvent::Conversion(Ok(())));
    assert_eq!(committing.owed(&commit), files(None));
    let (rejected, removal) = GrayscaleState::start("user_1".to_string()).0.step(uploaded(Some("draft")));
    assert_eq!(
        rejected.owed(&removal),
        Owed { release: None, upload: some("/tmp/ghost-upload-1.pdf"), output: None }
    );
}

#[test]
fn an_analysis_that_is_given_up_owes_its_release_and_its_upload() {
    let owes = |release: Option<(&str, &str)>, upload: Option<&str>| PreflightOwed {
        release: release.map(|(user, id)| (user.to_string(), id.to_string())),
        upload: upload.map(String::from),
    };
    let path = Some("/tmp/ghost-upload-2.pdf");
    let (mut state, mut action) = PreflightState::start(Some("user_1".to_string()), 10);
    assert_eq!(state.owed(&action), owes(None, None));
    let mut seen = Vec::new();
    for event in [
        sample_upload(),
        PreflightEvent::PageCount(Ok(2)),
        PreflightEvent::Reservation(Ok(reservation(true, Some("res_7")))),
        PreflightEvent::Analysis(Err("boom".to_string())),
        PreflightEvent::Released,
        PreflightEvent::Removed,
    ] {
        let (next, after) = state.step(event);
        state = next;
        action = after;
        seen.push(state.owed(&action));
    }
    assert_eq!(
        seen,
        vec![
            owes(None, path),
            owes(None, path),
            owes(Some(("user_1", "res_7")), path),
            owes(Some(("user_1", "res_7")), path),
            owes(None, path),
            owes(None, None),
        ]
    );
    let (trial, analyze) = PreflightState::start(None, 10).0.step(sample_upload()).0.step(PreflightEvent::PageCount(Ok(2)));
    assert_eq!(trial.owed(&analyze), owes(None, path));
}

#[test]
fn the_health_check_probes_the_renderer_in_the_queue() {
    let (state, first) = HealthState::start();
    assert_eq!(first, HealthAction::ProbeRenderer);
    assert_eq!(first.job_name(), Some("health-probe"));
    assert_eq!(health_probe_args(), vec!["-v"]);
    assert!(state.accepts(&HealthEvent::Probe(Err(String::new()))));
    assert!(!state.accepts(&HealthEvent::Backend(Err(()))));
    let probe: Result<CommandOutput, String> = Err("gs timed out after 120000 ms".to_string());
    let (state, second) = state.step(HealthEvent::Probe(probe.clone()));
    assert_eq!(second, HealthAction::QueryBackend);
    assert_eq!(second.job_name(), None);
    assert!(!state.accepts(&HealthEvent::Probe(Err(String::new()))));
    let (state, last) = state.step(HealthEvent::Backend(Ok("ok".to_string())));
    assert_eq!(state, HealthState::Done);
    assert_eq!(last.job_name(), None);
    match last {
        HealthAction::Respond { probe: probed, backend } => {
            assert_eq!(probed, probe);
            assert_eq!(
                health(&probed, &backend),
                HttpReply {
                    status: 200,
                    body: ReplyBody::Text(
                        "Express server is online. Convex status: \"ok\". Ghostscript status: Not checked (Error: Failed to execute gs -v: gs timed out after 120000 ms)".to_string()
                    ),
                }
            );
        }
        other => panic!("no reply: {:?}", other),
    }
}
