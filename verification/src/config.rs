use vstd::prelude::*;
use crate::decimal::{is_float_literal, is_float_text, parse_u64, parse_unsigned};
use crate::text::{
    ascii_lowercase, chars_eq_str, chars_of, chars_start_with, push_chars, push_str, starts_with,
    string_of, to_ascii_lowercase, trim, trimmed,
};

verus! {

/// The settings of the gateway.
#[derive(Clone, Debug, PartialEq)]
pub struct Config {
    pub port: u16,
    pub trust_proxy: bool,
    pub tls_key_path: Option<String>,
    pub tls_cert_path: Option<String>,
    pub convex_url: String,
    pub clerk_secret_key: Option<String>,
    pub clerk_issuer: Option<String>,
    pub clerk_api_base: String,
    pub stripe_secret_key: Option<String>,
    pub stripe_webhook_secret: Option<String>,
    pub frontend_url: Option<String>,
    pub ghostscript_concurrency: usize,
    pub log_ghostscript_timings: bool,
    pub log_task_queue_timings: bool,
    pub log_processing_timings: bool,
    pub grayscale_production_force_black_text: bool,
    pub grayscale_production_force_black_vector: bool,
    /// The lightness threshold, as the text of a floating-point number.
    pub grayscale_production_black_threshold_l: Option<String>,
    /// The chroma threshold, as the text of a floating-point number.
    pub grayscale_production_black_threshold_c: Option<String>,
    pub stripe_price_id_starter: Option<String>,
    pub stripe_price_id_pro: Option<String>,
    pub stripe_price_id_business: Option<String>,
    pub stripe_price_id_enterprise: Option<String>,
}

/// The values of the environment variables that the settings are made of,
/// each absent where the variable is not set.
#[derive(Clone, Debug, PartialEq)]
pub struct Environment {
    pub port: Option<String>,
    pub trust_proxy: Option<String>,
    pub tls_key_path: Option<String>,
    pub tls_cert_path: Option<String>,
    pub convex_url: Option<String>,
    pub clerk_secret_key: Option<String>,
    pub clerk_issuer: Option<String>,
    pub clerk_api_base: Option<String>,
    pub stripe_secret_key: Option<String>,
    pub stripe_webhook_secret: Option<String>,
    pub frontend_url: Option<String>,
    pub ghostscript_concurrency: Option<String>,
    pub processing_concurrency: Option<String>,
    pub log_ghostscript_timings: Option<String>,
    pub log_task_queue_timings: Option<String>,
    pub log_processing_timings: Option<String>,
    pub grayscale_production_force_black_text: Option<String>,
    pub grayscale_production_force_black_vector: Option<String>,
    pub grayscale_production_black_threshold_l: Option<String>,
    pub grayscale_production_black_threshold_c: Option<String>,
    pub stripe_price_id_starter: Option<String>,
    pub stripe_price_id_pro: Option<String>,
    pub stripe_price_id_business: Option<String>,
    pub stripe_price_id_enterprise: Option<String>,
}

/// Why no settings could be made.
#[derive(Clone, Copy, Debug, PartialEq, Eq, Structural)]
pub enum ConfigError {
    /// The address of the backend is not set.
    MissingConvexUrl,
}

/// A positive number read from an optional text, or the fallback where the
/// text is absent, is no number, exceeds `max` or is zero.
pub open spec fn positive_or(value: Option<String>, max: int, fallback: int) -> int {
    match value {
        Some(v) => match parse_unsigned(v@, max) {
            Some(n) => if n > 0 {
                n
            } else {
                fallback
            },
            None => fallback,
        },
        None => fallback,
    }
}

fn parse_positive(value: Option<String>, max: u64, fallback: u64) -> (n: u64)
    requires
        fallback <= max,
    ensures
        n == positive_or(value, max as int, fallback as int),
        n <= max,
{
    match value {
        Some(v) => {
            let chars = chars_of(v.as_str());
            match parse_u64(&chars) {
                Some(n) => if n > 0 && n <= max {
                    n
                } else {
                    fallback
                },
                None => fallback,
            }
        },
        None => fallback,
    }
}

pub fn parse_u16(value: Option<String>, fallback: u16) -> (n: u16)
    ensures
        n == positive_or(value, u16::MAX as int, fallback as int),
{
    parse_positive(value, u16::MAX as u64, fallback as u64) as u16
}

pub fn parse_usize(value: Option<String>, fallback: usize) -> (n: usize)
    ensures
        n == positive_or(value, usize::MAX as int, fallback as int),
{
    parse_positive(value, usize::MAX as u64, fallback as u64) as usize
}

/// The words that switch a setting off.
pub open spec fn is_off_word(word: Seq<char>) -> bool {
    word == "0"@ || word == "false"@ || word == "off"@ || word == "no"@
}

/// A switch read from an optional text: off for one of the words that
/// switch off, in any case of letters and with white space around it; on
/// for any other text; the fallback where there is none.
pub open spec fn switch_or(value: Option<String>, fallback: bool) -> bool {
    match value {
        Some(v) => !is_off_word(ascii_lowercase(trim(v@))),
        None => fallback,
    }
}

pub fn parse_bool(value: Option<String>, fallback: bool) -> (on: bool)
    ensures
        on == switch_or(value, fallback),
{
    match value {
        Some(v) => {
            let word = to_ascii_lowercase(&trimmed(v.as_str()));
            !(chars_eq_str(&word, "0") || chars_eq_str(&word, "false") || chars_eq_str(
                &word,
                "off",
            ) || chars_eq_str(&word, "no"))
        },
        None => fallback,
    }
}

/// A flag that only `1` or the word `true`, in any case of letters,
/// raises.
pub open spec fn flag_raised(value: Option<String>) -> bool {
    match value {
        Some(v) => v@ == "1"@ || ascii_lowercase(v@) == "true"@,
        None => false,
    }
}

pub fn parse_flag(value: Option<String>) -> (raised: bool)
    ensures
        raised == flag_raised(value),
{
    match value {
        Some(v) => {
            let chars = chars_of(v.as_str());
            chars_eq_str(&chars, "1") || chars_eq_str(&to_ascii_lowercase(&chars), "true")
        },
        None => false,
    }
}

/// An optional text that is kept only where it is the text of a
/// floating-point number.
pub open spec fn float_text_or_none(value: Option<String>) -> Option<String> {
    match value {
        Some(v) => if is_float_literal(v@) {
            Some(v)
        } else {
            None
        },
        None => None,
    }
}

pub fn parse_float_text(value: Option<String>) -> (text: Option<String>)
    ensures
        text == float_text_or_none(value),
{
    match value {
        Some(v) => {
            let chars = chars_of(v.as_str());
            if is_float_text(&chars) {
                Some(v)
            } else {
                None
            }
        },
        None => None,
    }
}

/// The address of the backend for requests over HTTP: the trimmed text,
/// with the scheme of a secure web socket replaced by `https` and that of a
/// plain web socket by `http`.
pub open spec fn normalized_convex_url(raw: Seq<char>) -> Seq<char> {
    let t = trim(raw);
    if starts_with(t, "wss://"@) {
        "https://"@ + t.skip("wss://"@.len() as int)
    } else if starts_with(t, "ws://"@) {
        "http://"@ + t.skip("ws://"@.len() as int)
    } else {
        t
    }
}

pub fn normalize_convex_url(raw: &str) -> (url: String)
    ensures
        url@ == normalized_convex_url(raw@),
{
    let t = trimmed(raw);
    let mut out: Vec<char> = Vec::new();
    if chars_start_with(&t, "wss://") {
        let n = chars_of("wss://").len();
        push_str(&mut out, "https://");
        push_chars(&mut out, &t, n, t.len());
    } else if chars_start_with(&t, "ws://") {
        let n = chars_of("ws://").len();
        push_str(&mut out, "http://");
        push_chars(&mut out, &t, n, t.len());
    } else {
        return string_of(&t);
    }
    string_of(&out)
}

/// The first of two optional values that is there.
pub open spec fn first_of(a: Option<String>, b: Option<String>) -> Option<String> {
    if a.is_some() {
        a
    } else {
        b
    }
}

/// The settings that an environment gives, field by field.
pub open spec fn config_of(env: Environment, config: Config) -> bool {
    &&& env.convex_url.is_some()
    &&& config.port == positive_or(env.port, u16::MAX as int, 9001)
    &&& config.trust_proxy == switch_or(env.trust_proxy, true)
    &&& config.tls_key_path == env.tls_key_path
    &&& config.tls_cert_path == env.tls_cert_path
    &&& config.convex_url@ == normalized_convex_url(env.convex_url.unwrap()@)
    &&& config.clerk_secret_key == env.clerk_secret_key
    &&& config.clerk_issuer == env.clerk_issuer
    &&& config.clerk_api_base@ == match env.clerk_api_base {
        Some(base) => base@,
        None => "https://api.clerk.com/v1"@,
    }
    &&& config.stripe_secret_key == env.stripe_secret_key
    &&& config.stripe_webhook_secret == env.stripe_webhook_secret
    &&& config.frontend_url == env.frontend_url
    &&& config.ghostscript_concurrency == positive_or(
        first_of(env.ghostscript_concurrency, env.processing_concurrency),
        usize::MAX as int,
        3,
    )
    &&& config.log_ghostscript_timings == flag_raised(env.log_ghostscript_timings)
    &&& config.log_task_queue_timings == flag_raised(env.log_task_queue_timings)
    &&& config.log_processing_timings == flag_raised(env.log_processing_timings)
    &&& config.grayscale_production_force_black_text == switch_or(
        env.grayscale_production_force_black_text,
        true,
    )
    &&& config.grayscale_production_force_black_vector == switch_or(
        env.grayscale_production_force_black_vector,
        true,
    )
    &&& config.grayscale_production_black_threshold_l == float_text_or_none(
        env.grayscale_production_black_threshold_l,
    )
    &&& config.grayscale_production_black_threshold_c == float_text_or_none(
        env.grayscale_production_black_threshold_c,
    )
    &&& config.stripe_price_id_starter == env.stripe_price_id_starter
    &&& config.stripe_price_id_pro == env.stripe_price_id_pro
    &&& config.stripe_price_id_business == env.stripe_price_id_business
    &&& config.stripe_price_id_enterprise == env.stripe_price_id_enterprise
}

impl Config {
    /// The settings that the values of the environment variables give.
    /// They exist exactly where the address of the backend is set.
    pub fn from_env(env: Environment) -> (made: Result<Config, ConfigError>)
        ensures
            match made {
                Ok(config) => config_of(env, config),
                Err(e) => e == ConfigError::MissingConvexUrl && env.convex_url.is_none(),
            },
    {
        let convex_url = match env.convex_url {
            Some(raw) => normalize_convex_url(raw.as_str()),
            None => {
                return Err(ConfigError::MissingConvexUrl);
            },
        };
        let concurrency = if env.ghostscript_concurrency.is_some() {
            env.ghostscript_concurrency
        } else {
            env.processing_concurrency
        };
        let clerk_api_base = match env.clerk_api_base {
            Some(base) => base,
            None => "https://api.clerk.com/v1".to_owned(),
        };
        Ok(
            Config {
                port: parse_u16(env.port, 9001),
                trust_proxy: parse_bool(env.trust_proxy, true),
                tls_key_path: env.tls_key_path,
                tls_cert_path: env.tls_cert_path,
                convex_url,
                clerk_secret_key: env.clerk_secret_key,
                clerk_issuer: env.clerk_issuer,
                clerk_api_base,
                stripe_secret_key: env.stripe_secret_key,
                stripe_webhook_secret: env.stripe_webhook_secret,
                frontend_url: env.frontend_url,
                ghostscript_concurrency: parse_usize(concurrency, 3),
                log_ghostscript_timings: parse_flag(env.log_ghostscript_timings),
                log_task_queue_timings: parse_flag(env.log_task_queue_timings),
                log_processing_timings: parse_flag(env.log_processing_timings),
                grayscale_production_force_black_text: parse_bool(
                    env.grayscale_production_force_black_text,
                    true,
                ),
                grayscale_production_force_black_vector: parse_bool(
                    env.grayscale_production_force_black_vector,
                    true,
                ),
                grayscale_production_black_threshold_l: parse_float_text(
                    env.grayscale_production_black_threshold_l,
                ),
                grayscale_production_black_threshold_c: parse_float_text(
                    env.grayscale_production_black_threshold_c,
                ),
                stripe_price_id_starter: env.stripe_price_id_starter,
                stripe_price_id_pro: env.stripe_price_id_pro,
                stripe_price_id_business: env.stripe_price_id_business,
                stripe_price_id_enterprise: env.stripe_price_id_enterprise,
            },
        )
    }
}


/// What stands in the way of serving over TLS.
#[derive(Debug, Clone, Copy, PartialEq, Eq, Structural)]
pub enum TlsProblem {
    /// The key file is not there.
    KeyFileMissing,
    /// The certificate file is not there.
    CertificateFileMissing,
    /// Neither file is there.
    BothFilesMissing,
    /// A certificate is configured, but no key.
    KeyPathMissing,
    /// A key is configured, but no certificate.
    CertificatePathMissing,
}

/// How the gateway serves.
#[derive(Debug, Clone, PartialEq)]
pub enum TlsChoice {
    /// Over TLS, with this certificate and this key.
    Https { cert_path: String, key_path: String },
    /// In the clear, because no TLS is configured.
    Http,
    /// In the clear, because the configuration of TLS is not complete.
    HttpBecause(TlsProblem),
}

/// How the gateway serves, given whether the configured files exist: over
/// TLS where both a certificate and a key are configured and both files
/// are there, else in the clear.
pub open spec fn tls_choice(config: Config, cert_exists: bool, key_exists: bool) -> TlsChoice {
    match (config.tls_cert_path, config.tls_key_path) {
        (Some(cert_path), Some(key_path)) => if cert_exists && key_exists {
            TlsChoice::Https { cert_path, key_path }
        } else if cert_exists {
            TlsChoice::HttpBecause(TlsProblem::KeyFileMissing)
        } else if key_exists {
            TlsChoice::HttpBecause(TlsProblem::CertificateFileMissing)
        } else {
            TlsChoice::HttpBecause(TlsProblem::BothFilesMissing)
        },
        (Some(_), None) => TlsChoice::HttpBecause(TlsProblem::KeyPathMissing),
        (None, Some(_)) => TlsChoice::HttpBecause(TlsProblem::CertificatePathMissing),
        (None, None) => TlsChoice::Http,
    }
}

pub fn valid_tls_paths(config: &Config, cert_exists: bool, key_exists: bool) -> (choice: TlsChoice)
    ensures
        choice == tls_choice(*config, cert_exists, key_exists),
{
    match (&config.tls_cert_path, &config.tls_key_path) {
        (Some(cert_path), Some(key_path)) => {
            if cert_exists && key_exists {
                TlsChoice::Https { cert_path: cert_path.clone(), key_path: key_path.clone() }
            } else if cert_exists {
                TlsChoice::HttpBecause(TlsProblem::KeyFileMissing)
            } else if key_exists {
                TlsChoice::HttpBecause(TlsProblem::CertificateFileMissing)
            } else {
                TlsChoice::HttpBecause(TlsProblem::BothFilesMissing)
            }
        },
        (Some(_), None) => TlsChoice::HttpBecause(TlsProblem::KeyPathMissing),
        (None, Some(_)) => TlsChoice::HttpBecause(TlsProblem::CertificatePathMissing),
        (None, None) => TlsChoice::Http,
    }
}

} // verus!
