use vstd::prelude::*;

pub mod account;
pub mod billing;
pub mod grayscale;
pub mod preflight;
pub mod webhook;

use crate::ghostscript::PdfAnalysis;
use crate::plans::{plan_name, PlanId};
use crate::quota::QuotaReservation;
use crate::text::{
    ascii_lowercase, chars_eq_str, chars_of, join3, string_of, to_ascii_lowercase, trim, trimmed,
};
use crate::upload::UploadError;

verus! {

#[derive(Debug, Clone, PartialEq)]
pub struct DeleteApiKeyPath {
    pub id: String,
}

#[derive(Debug, Clone, PartialEq)]
pub struct CreateCheckoutRequest {
    pub price_id: Option<String>,
    pub success_url: Option<String>,
    pub cancel_url: Option<String>,
}

#[derive(Debug, Clone, PartialEq)]
pub struct SyncStripeSessionRequest {
    pub session_id: Option<String>,
}

/// How a gray copy is made: quickly for a preview, or with near-black
/// text and lines forced to black for production.
#[derive(Debug, Clone, Copy, PartialEq, Eq, Structural)]
pub enum GrayscaleMode {
    Preview,
    Production,
}

/// The mode that the text of the field `mode` asks for: the preview where
/// the field is absent or blank, and none where the text names no mode.
/// The text is trimmed and read without regard to the case of letters.
pub open spec fn mode_of(raw: Seq<char>) -> Option<GrayscaleMode> {
    let word = ascii_lowercase(trim(raw));
    if word.len() == 0 || word == "preview"@ {
        Some(GrayscaleMode::Preview)
    } else if word == "production"@ {
        Some(GrayscaleMode::Production)
    } else {
        None
    }
}

impl GrayscaleMode {
    pub fn parse(raw: Option<&str>) -> (mode: Result<GrayscaleMode, &'static str>)
        ensures
            match mode {
                Ok(m) => mode_of(crate::plans::text_or_empty(raw)) == Some(m),
                Err(message) => mode_of(crate::plans::text_or_empty(raw)).is_none() && message@
                    == "Invalid mode. Use \"preview\" or \"production\"."@,
            },
    {
        let word = match raw {
            Some(text) => to_ascii_lowercase(&trimmed(text)),
            None => {
                assert(trim(Seq::<char>::empty()) == Seq::<char>::empty());
                assert(ascii_lowercase(Seq::<char>::empty()) =~= Seq::<char>::empty());
                Vec::new()
            },
        };
        if word.len() == 0 || chars_eq_str(&word, "preview") {
            Ok(GrayscaleMode::Preview)
        } else if chars_eq_str(&word, "production") {
            Ok(GrayscaleMode::Production)
        } else {
            Err("Invalid mode. Use \"preview\" or \"production\".")
        }
    }
}

/// The characters that a file name keeps in a header: ASCII letters and
/// digits, `.`, `_` and `-`.
pub open spec fn is_header_safe(c: char) -> bool {
    ('a' <= c && c <= 'z') || ('A' <= c && c <= 'Z') || ('0' <= c && c <= '9') || c == '.' || c
        == '_' || c == '-'
}

/// A file name for a header: every other character becomes `_`.
pub open spec fn header_file_name(name: Seq<char>) -> Seq<char> {
    Seq::new(
        name.len(),
        |i: int|
            if is_header_safe(name[i]) {
                name[i]
            } else {
                '_'
            },
    )
}

pub fn sanitize_filename_for_header(value: &str) -> (name: String)
    ensures
        name@ == header_file_name(value@),
{
    let chars = chars_of(value);
    let mut out: Vec<char> = Vec::new();
    let mut i: usize = 0;
    while i < chars.len()
        invariant
            i <= chars.len(),
            out@ == header_file_name(chars@.take(i as int)),
        decreases chars.len() - i,
    {
        let c = chars[i];
        let keep = (c >= 'a' && c <= 'z') || (c >= 'A' && c <= 'Z') || (c >= '0' && c <= '9') || c
            == '.' || c == '_' || c == '-';
        out.push(
            if keep {
                c
            } else {
                '_'
            },
        );
        i += 1;
        assert(out@ =~= header_file_name(chars@.take(i as int)));
    }
    assert(chars@.take(chars.len() as int) == chars@);
    string_of(&out)
}

/// The replies that are a fixed text.
#[derive(Debug, Clone, Copy, PartialEq, Eq, Structural)]
pub enum Notice {
    NotFound,
    Conversion,
    Unauthorized,
    ApiKeyRequired,
    ApiKeyInvalid,
    InternalServerError,
    TooManyRequests,
    MissingClerkId,
    ApiKeyGenerationFailed,
    ApiKeyListingFailed,
    ApiKeyDeletionFailed,
    MissingApiKeyId,
    SubscriptionFailed,
    UsageFailed,
    CheckoutMissingParameters,
    UnknownPrice,
    CheckoutFailed,
    UserNotInBackend,
    CheckoutWithoutUrl,
    MissingSessionId,
    SyncFailed,
    SessionNotComplete,
    SessionWithoutSubscription,
    UserNotFound,
    PortalFailed,
    PortalWithoutCustomer,
    PortalWithoutUrl,
    MissingSignature,
    WebhookNotConfigured,
    InvalidSignature,
    WebhookFailed,
}

/// The status of each fixed reply.
pub open spec fn notice_status(notice: Notice) -> u16 {
    match notice {
        Notice::Conversion => 200,
        Notice::MissingApiKeyId | Notice::CheckoutMissingParameters | Notice::UnknownPrice
        | Notice::MissingSessionId | Notice::SessionNotComplete
        | Notice::SessionWithoutSubscription | Notice::PortalWithoutCustomer
        | Notice::MissingSignature | Notice::InvalidSignature => 400,
        Notice::Unauthorized | Notice::ApiKeyRequired | Notice::ApiKeyInvalid => 401,
        Notice::NotFound | Notice::UserNotInBackend | Notice::UserNotFound => 404,
        Notice::TooManyRequests => 429,
        Notice::InternalServerError | Notice::MissingClerkId | Notice::ApiKeyGenerationFailed
        | Notice::ApiKeyListingFailed | Notice::ApiKeyDeletionFailed | Notice::SubscriptionFailed
        | Notice::UsageFailed | Notice::CheckoutFailed | Notice::CheckoutWithoutUrl
        | Notice::SyncFailed | Notice::PortalFailed | Notice::PortalWithoutUrl
        | Notice::WebhookNotConfigured | Notice::WebhookFailed => 500,
    }
}

/// The text of each fixed reply.
pub open spec fn notice_text(notice: Notice) -> Seq<char> {
    match notice {
        Notice::NotFound => "Not Found"@,
        Notice::Conversion => "conversion"@,
        Notice::Unauthorized => "Unauthorized"@,
        Notice::ApiKeyRequired => "Unauthorized: API Key is required."@,
        Notice::ApiKeyInvalid => "Unauthorized: Invalid API Key."@,
        Notice::InternalServerError => "Internal Server Error"@,
        Notice::TooManyRequests => "Too many requests from this IP, please try again after 15 minutes"@,
        Notice::MissingClerkId => "Authenticated user missing Clerk ID."@,
        Notice::ApiKeyGenerationFailed => "Error generating API key"@,
        Notice::ApiKeyListingFailed => "Error listing API keys"@,
        Notice::ApiKeyDeletionFailed => "Error deleting API key."@,
        Notice::MissingApiKeyId => "Missing API key ID."@,
        Notice::SubscriptionFailed => "Error fetching subscription"@,
        Notice::UsageFailed => "Error fetching usage data"@,
        Notice::CheckoutMissingParameters => "Missing required parameters: priceId, successUrl, cancelUrl"@,
        Notice::UnknownPrice => "Unknown or unsupported Stripe price ID."@,
        Notice::CheckoutFailed => "Error creating checkout session"@,
        Notice::UserNotInBackend => "User not found in Convex database."@,
        Notice::CheckoutWithoutUrl => "Error creating Stripe checkout session."@,
        Notice::MissingSessionId => "Missing sessionId"@,
        Notice::SyncFailed => "Error syncing Stripe session"@,
        Notice::SessionNotComplete => "Checkout session not complete."@,
        Notice::SessionWithoutSubscription => "Could not find subscription or price ID in session."@,
        Notice::UserNotFound => "User not found."@,
        Notice::PortalFailed => "Error creating customer portal session"@,
        Notice::PortalWithoutCustomer => "User or Stripe Customer ID not found."@,
        Notice::PortalWithoutUrl => "Error creating Stripe customer portal session."@,
        Notice::MissingSignature => "Missing Stripe signature."@,
        Notice::WebhookNotConfigured => "Webhook not configured."@,
        Notice::InvalidSignature => "Invalid signature."@,
        Notice::WebhookFailed => "Webhook handler failed."@,
    }
}

impl Notice {
    pub fn status(self) -> (status: u16)
        ensures
            status == notice_status(self),
    {
        match self {
            Notice::Conversion => 200,
            Notice::MissingApiKeyId | Notice::CheckoutMissingParameters | Notice::UnknownPrice
            | Notice::MissingSessionId | Notice::SessionNotComplete
            | Notice::SessionWithoutSubscription | Notice::PortalWithoutCustomer
            | Notice::MissingSignature | Notice::InvalidSignature => 400,
            Notice::Unauthorized | Notice::ApiKeyRequired | Notice::ApiKeyInvalid => 401,
            Notice::NotFound | Notice::UserNotInBackend | Notice::UserNotFound => 404,
            Notice::TooManyRequests => 429,
            Notice::InternalServerError | Notice::MissingClerkId
            | Notice::ApiKeyGenerationFailed | Notice::ApiKeyListingFailed
            | Notice::ApiKeyDeletionFailed | Notice::SubscriptionFailed | Notice::UsageFailed
            | Notice::CheckoutFailed | Notice::CheckoutWithoutUrl | Notice::SyncFailed
            | Notice::PortalFailed | Notice::PortalWithoutUrl | Notice::WebhookNotConfigured
            | Notice::WebhookFailed => 500,
        }
    }

    pub fn text(self) -> (text: &'static str)
        ensures
            text@ == notice_text(self),
    {
        match self {
            Notice::NotFound => "Not Found",
            Notice::Conversion => "conversion",
            Notice::Unauthorized => "Unauthorized",
            Notice::ApiKeyRequired => "Unauthorized: API Key is required.",
            Notice::ApiKeyInvalid => "Unauthorized: Invalid API Key.",
            Notice::InternalServerError => "Internal Server Error",
            Notice::TooManyRequests => "Too many requests from this IP, please try again after 15 minutes",
            Notice::MissingClerkId => "Authenticated user missing Clerk ID.",
            Notice::ApiKeyGenerationFailed => "Error generating API key",
            Notice::ApiKeyListingFailed => "Error listing API keys",
            Notice::ApiKeyDeletionFailed => "Error deleting API key.",
            Notice::MissingApiKeyId => "Missing API key ID.",
            Notice::SubscriptionFailed => "Error fetching subscription",
            Notice::UsageFailed => "Error fetching usage data",
            Notice::CheckoutMissingParameters => "Missing required parameters: priceId, successUrl, cancelUrl",
            Notice::UnknownPrice => "Unknown or unsupported Stripe price ID.",
            Notice::CheckoutFailed => "Error creating checkout session",
            Notice::UserNotInBackend => "User not found in Convex database.",
            Notice::CheckoutWithoutUrl => "Error creating Stripe checkout session.",
            Notice::MissingSessionId => "Missing sessionId",
            Notice::SyncFailed => "Error syncing Stripe session",
            Notice::SessionNotComplete => "Checkout session not complete.",
            Notice::SessionWithoutSubscription => "Could not find subscription or price ID in session.",
            Notice::UserNotFound => "User not found.",
            Notice::PortalFailed => "Error creating customer portal session",
            Notice::PortalWithoutCustomer => "User or Stripe Customer ID not found.",
            Notice::PortalWithoutUrl => "Error creating Stripe customer portal session.",
            Notice::MissingSignature => "Missing Stripe signature.",
            Notice::WebhookNotConfigured => "Webhook not configured.",
            Notice::InvalidSignature => "Invalid signature.",
            Notice::WebhookFailed => "Webhook handler failed.",
        }
    }
}

/// What is sent when the quota does not allow a request.
#[derive(Debug, Clone, PartialEq)]
pub struct QuotaExceededBody {
    pub error: String,
    pub plan: String,
    pub monthly_quota: Option<i64>,
    pub units_this_month: i64,
    pub pending_units: i64,
    pub units_requested: i64,
}

/// A user's use of the service.
#[derive(Debug, Clone, Copy, PartialEq)]
pub struct UsageSummary {
    pub plan: PlanId,
    pub total_units: i64,
    pub units_this_month: i64,
    pub pending_units: i64,
    pub monthly_quota: Option<i64>,
    pub remaining_units: Option<i64>,
}

/// What a handler answers, before it is put into words.
#[derive(Debug, Clone, PartialEq)]
pub enum Reply {
    /// A fixed text.
    Plain(Notice),
    /// The upload was not stored.
    Upload(UploadError),
    /// The field `mode` names no mode.
    InvalidMode,
    /// The work failed, with the toolchain's or the backend's words.
    Failed(String),
    /// The request for units failed.
    ReserveFailed,
    /// Units were granted without an identifier.
    NoReservationId,
    /// The gray copy could not be read back.
    OutputUnreadable,
    /// The page count is beyond what can be counted in units.
    InvalidPageCount,
    /// The quota does not allow the request.
    QuotaExceeded { reservation: QuotaReservation, units: i64 },
    Analysis(PdfAnalysis),
    /// The gray copy, to be stored under `file_name`.
    Grayscale { file_name: String, bytes: Vec<u8> },
    /// A new key, as the JSON value that the backend gave.
    ApiKeyCreated(String),
    /// A JSON document of the backend, passed on as it is.
    Document(String),
    ApiKeyDeleted,
    /// The user has no subscription.
    NoSubscription,
    Usage(UsageSummary),
    /// The address to send the user to.
    Url(String),
    /// The subscription is stored.
    Synced,
    /// The event was taken.
    Received,
}

/// The body of a reply.
#[derive(Debug, Clone, PartialEq)]
pub enum ReplyBody {
    /// A plain text.
    Text(String),
    /// A JSON object with the one member `error`.
    Error(String),
    /// A JSON object with the one member `message`.
    Message(String),
    /// A JSON object with the one member `url`.
    Url(String),
    /// A JSON object with the one member `apiKey`, whose value is this JSON text.
    ApiKey(String),
    /// This JSON text.
    Document(String),
    /// The JSON object that says `received` is true.
    Received,
    /// The JSON object of the free plan with the status `inactive`.
    NoSubscription,
    Analysis(PdfAnalysis),
    QuotaExceeded(QuotaExceededBody),
    Usage(UsageSummary),
    /// A PDF, with the value of the header that names it as an attachment.
    Pdf { content_disposition: String, bytes: Vec<u8> },
}

/// A reply: its status and its body.
#[derive(Debug, Clone, PartialEq)]
pub struct HttpReply {
    pub status: u16,
    pub body: ReplyBody,
}

/// The status of the reply to an upload that was not stored.
pub open spec fn upload_error_status(error: UploadError) -> u16 {
    match error {
        UploadError::MissingFile | UploadError::UnsupportedFileType | UploadError::FileTooLarge => 400,
        UploadError::MultipartError | UploadError::IoError => 500,
    }
}

/// What the reply to an upload that was not stored says.
pub open spec fn upload_error_words(error: UploadError) -> Seq<char> {
    match error {
        UploadError::MissingFile => "File not found"@,
        UploadError::UnsupportedFileType => "Only PDF files are supported"@,
        UploadError::FileTooLarge => "File exceeds upload limit"@,
        UploadError::MultipartError | UploadError::IoError => "Failed to parse upload"@,
    }
}

pub fn upload_error_to_response(error: UploadError) -> (reply: HttpReply)
    ensures
        reply.status == upload_error_status(error),
        reply.body matches ReplyBody::Error(words) && words@ == upload_error_words(error),
{
    match error {
        UploadError::MissingFile => HttpReply {
            status: 400,
            body: ReplyBody::Error("File not found".to_owned()),
        },
        UploadError::UnsupportedFileType => HttpReply {
            status: 400,
            body: ReplyBody::Error("Only PDF files are supported".to_owned()),
        },
        UploadError::FileTooLarge => HttpReply {
            status: 400,
            body: ReplyBody::Error("File exceeds upload limit".to_owned()),
        },
        UploadError::MultipartError | UploadError::IoError => HttpReply {
            status: 500,
            body: ReplyBody::Error("Failed to parse upload".to_owned()),
        },
    }
}

pub fn quota_exceeded_response(reservation: QuotaReservation, units: i64) -> (reply: HttpReply)
    ensures
        reply.status == 402,
        reply.body matches ReplyBody::QuotaExceeded(body) && {
            &&& body.error@ == "Monthly quota exceeded."@
            &&& body.plan@ == plan_name(reservation.plan_id)
            &&& body.monthly_quota == reservation.monthly_quota
            &&& body.units_this_month == reservation.total_this_month
            &&& body.pending_units == reservation.pending_units
            &&& body.units_requested == units
        },
{
    HttpReply {
        status: 402,
        body: ReplyBody::QuotaExceeded(
            QuotaExceededBody {
                error: "Monthly quota exceeded.".to_owned(),
                plan: reservation.plan_id.as_str().to_owned(),
                monthly_quota: reservation.monthly_quota,
                units_this_month: reservation.total_this_month,
                pending_units: reservation.pending_units,
                units_requested: units,
            },
        ),
    }
}

/// The value of the header that offers a file under a name.
pub open spec fn attachment_header(file_name: Seq<char>) -> Seq<char> {
    "attachment; filename=\""@ + header_file_name(file_name) + "\""@
}

/// Whether `http` is the reply `reply` put into words.
pub open spec fn renders(reply: Reply, http: HttpReply) -> bool {
    match reply {
        Reply::Plain(notice) => http.status == notice_status(notice) && (http.body
            matches ReplyBody::Text(text) && text@ == notice_text(notice)),
        Reply::Upload(error) => http.status == upload_error_status(error) && (http.body
            matches ReplyBody::Error(words) && words@ == upload_error_words(error)),
        Reply::InvalidMode => http.status == 400 && (http.body matches ReplyBody::Error(words)
            && words@ == "Invalid mode. Use \"preview\" or \"production\"."@),
        Reply::Failed(message) => http.status == 500 && http.body == ReplyBody::Error(message),
        Reply::ReserveFailed => http.status == 500 && (http.body matches ReplyBody::Error(words)
            && words@ == "Failed to reserve usage quota."@),
        Reply::NoReservationId => http.status == 500 && (http.body matches ReplyBody::Error(words)
            && words@ == "Failed to create usage reservation."@),
        Reply::OutputUnreadable => http.status == 500 && (http.body matches ReplyBody::Error(
            words,
        ) && words@ == "Failed to send grayscale PDF"@),
        Reply::InvalidPageCount => http.status == 500 && (http.body matches ReplyBody::Error(
            words,
        ) && words@ == "Invalid page count reported by Ghostscript."@),
        Reply::QuotaExceeded { reservation, units } => http.status == 402 && (http.body
            matches ReplyBody::QuotaExceeded(body) && {
            &&& body.error@ == "Monthly quota exceeded."@
            &&& body.plan@ == plan_name(reservation.plan_id)
            &&& body.monthly_quota == reservation.monthly_quota
            &&& body.units_this_month == reservation.total_this_month
            &&& body.pending_units == reservation.pending_units
            &&& body.units_requested == units
        }),
        Reply::Analysis(analysis) => http.status == 200 && http.body == ReplyBody::Analysis(
            analysis,
        ),
        Reply::Grayscale { file_name, bytes } => http.status == 200 && (http.body
            matches ReplyBody::Pdf { content_disposition, bytes: sent } && sent == bytes
            && content_disposition@ == attachment_header(file_name@)),
        Reply::ApiKeyCreated(key) => http.status == 201 && http.body == ReplyBody::ApiKey(key),
        Reply::Document(document) => http.status == 200 && http.body == ReplyBody::Document(
            document,
        ),
        Reply::ApiKeyDeleted => http.status == 200 && (http.body matches ReplyBody::Message(words)
            && words@ == "API key deleted successfully."@),
        Reply::NoSubscription => http.status == 200 && http.body == ReplyBody::NoSubscription,
        Reply::Usage(usage) => http.status == 200 && http.body == ReplyBody::Usage(usage),
        Reply::Url(url) => http.status == 200 && http.body == ReplyBody::Url(url),
        Reply::Synced => http.status == 200 && (http.body matches ReplyBody::Message(words)
            && words@ == "Subscription synced successfully."@),
        Reply::Received => http.status == 200 && http.body == ReplyBody::Received,
    }
}

impl Reply {
    /// The reply put into words: its status and its body.
    pub fn into_http(self) -> (http: HttpReply)
        ensures
            renders(self, http),
    {
        match self {
            Reply::Plain(notice) => HttpReply {
                status: notice.status(),
                body: ReplyBody::Text(notice.text().to_owned()),
            },
            Reply::Upload(error) => upload_error_to_response(error),
            Reply::InvalidMode => HttpReply {
                status: 400,
                body: ReplyBody::Error(
                    "Invalid mode. Use \"preview\" or \"production\".".to_owned(),
                ),
            },
            Reply::Failed(message) => HttpReply { status: 500, body: ReplyBody::Error(message) },
            Reply::ReserveFailed => HttpReply {
                status: 500,
                body: ReplyBody::Error("Failed to reserve usage quota.".to_owned()),
            },
            Reply::NoReservationId => HttpReply {
                status: 500,
                body: ReplyBody::Error("Failed to create usage reservation.".to_owned()),
            },
            Reply::OutputUnreadable => HttpReply {
                status: 500,
                body: ReplyBody::Error("Failed to send grayscale PDF".to_owned()),
            },
            Reply::InvalidPageCount => HttpReply {
                status: 500,
                body: ReplyBody::Error("Invalid page count reported by Ghostscript.".to_owned()),
            },
            Reply::QuotaExceeded { reservation, units } => quota_exceeded_response(
                reservation,
                units,
            ),
            Reply::Analysis(analysis) => HttpReply {
                status: 200,
                body: ReplyBody::Analysis(analysis),
            },
            Reply::Grayscale { file_name, bytes } => {
                let safe = sanitize_filename_for_header(file_name.as_str());
                HttpReply {
                    status: 200,
                    body: ReplyBody::Pdf {
                        content_disposition: join3("attachment; filename=\"", safe.as_str(), "\""),
                        bytes,
                    },
                }
            },
            Reply::ApiKeyCreated(key) => HttpReply { status: 201, body: ReplyBody::ApiKey(key) },
            Reply::Document(document) => HttpReply {
                status: 200,
                body: ReplyBody::Document(document),
            },
            Reply::ApiKeyDeleted => HttpReply {
                status: 200,
                body: ReplyBody::Message("API key deleted successfully.".to_owned()),
            },
            Reply::NoSubscription => HttpReply { status: 200, body: ReplyBody::NoSubscription },
            Reply::Usage(usage) => HttpReply { status: 200, body: ReplyBody::Usage(usage) },
            Reply::Url(url) => HttpReply { status: 200, body: ReplyBody::Url(url) },
            Reply::Synced => HttpReply {
                status: 200,
                body: ReplyBody::Message("Subscription synced successfully.".to_owned()),
            },
            Reply::Received => HttpReply { status: 200, body: ReplyBody::Received },
        }
    }
}

} // verus!
