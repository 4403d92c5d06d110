use vstd::prelude::*;
use vstd::hash_map::StringHashMap;
use vstd::string::StrSliceExecFns;
use vstd::utf8::encode_utf8;
use base64::Engine;
use crate::stripe_api::unix_seconds_now;
use crate::text::{
    ascii_lowercase, chars_eq_str, chars_of, find_char, is_blank, lemma_prefix_before,
    prefix_before, push_chars, push_str, split, split_chars, str_eq, string_of, suffix_after,
    texts, to_ascii_lowercase, trim, trim_bounds, trim_end_matches, trim_end_matches_bound,
};

verus! {

/// What a verified bearer token says: whom it was issued to, by whom, and
/// from when until when it holds, in seconds since 1970.
#[derive(Debug, Clone, PartialEq)]
pub struct ClerkClaims {
    pub sub: String,
    pub iss: String,
    pub exp: usize,
    pub nbf: Option<usize>,
}

/// Why a bearer token was not accepted.
#[derive(Debug, Clone, Copy, PartialEq, Eq, Structural)]
pub enum AuthError {
    /// The header is not `Bearer` and a token.
    InvalidAuthorizationHeader,
    /// The token's header could not be read.
    InvalidTokenHeader,
    /// The token's header names no key.
    MissingKeyId,
    /// The token has no payload.
    MissingPayload,
    /// The payload is not base64.
    UndecodablePayload,
    /// The payload is no JSON object, or a claim has the wrong type.
    UnreadableClaims,
    /// The payload names no issuer.
    MissingIssuer,
    /// The issuer is not the expected one.
    IssuerMismatch,
    /// The key set could not be fetched.
    KeySetUnavailable,
    /// No key of the issuer has the identifier.
    NoMatchingKey,
    /// The key is not an RSA key.
    UnsupportedKeyType,
    /// The key is for another algorithm than RS256.
    UnsupportedAlgorithm,
    MissingModulus,
    MissingExponent,
    /// Modulus or exponent could not be read.
    InvalidKey,
    /// The signature is not that of the token under the key, or the token
    /// is not for this issuer.
    Rejected,
    /// The token has ended to hold.
    Expired,
    /// The token does not hold yet.
    NotYetValid,
}

/// The token of an authorization header: the header is a scheme, a space
/// and the rest; the scheme has to be `bearer` in any case of letters and
/// the rest not to be blank; the token is the rest, trimmed.
pub open spec fn bearer_token(value: Seq<char>) -> Option<Seq<char>> {
    if ascii_lowercase(prefix_before(value, ' ')) == "bearer"@ && !is_blank(
        suffix_after(value, ' '),
    ) {
        Some(trim(suffix_after(value, ' ')))
    } else {
        None
    }
}

pub fn extract_bearer_token(value: &str) -> (token: Result<&str, AuthError>)
    ensures
        match token {
            Ok(t) => bearer_token(value@) == Some(t@),
            Err(e) => e == AuthError::InvalidAuthorizationHeader && bearer_token(value@).is_none(),
        },
{
    let chars = chars_of(value);
    assert(chars@.subrange(0, chars.len() as int) == chars@);
    let space = find_char(&chars, 0, chars.len(), ' ');
    proof {
        lemma_prefix_before(chars@, ' ');
    }
    let mut scheme: Vec<char> = Vec::new();
    push_chars(&mut scheme, &chars, 0, space);
    assert(scheme@ =~= prefix_before(value@, ' '));
    let mut rest: Vec<char> = Vec::new();
    let from: usize = if space < chars.len() {
        space + 1
    } else {
        space
    };
    push_chars(&mut rest, &chars, from, chars.len());
    assert(rest@ =~= suffix_after(value@, ' '));
    let (a, b) = trim_bounds(&rest);
    if !chars_eq_str(&to_ascii_lowercase(&scheme), "bearer") || a == b {
        return Err(AuthError::InvalidAuthorizationHeader);
    }
    assert(rest@.subrange(a as int, b as int) =~= chars@.subrange(from + a, from + b));
    Ok(value.substring_char(from + a, from + b))
}

/// An issuer as it is compared: trimmed, and without slashes at its end.
pub open spec fn normalized_issuer(raw: Seq<char>) -> Seq<char> {
    trim_end_matches(trim(raw), '/')
}

pub fn normalize_issuer(raw: &str) -> (issuer: String)
    ensures
        issuer@ == normalized_issuer(raw@),
{
    let chars = chars_of(raw);
    let (a, b) = trim_bounds(&chars);
    let end = trim_end_matches_bound(&chars, a, b, '/');
    crate::text::string_of_range(&chars, a, end)
}

/// Where the keys of an issuer are published.
pub open spec fn jwks_url_of(issuer: Seq<char>) -> Seq<char> {
    trim_end_matches(issuer, '/') + "/.well-known/jwks.json"@
}

pub fn jwks_url(issuer: &str) -> (url: String)
    ensures
        url@ == jwks_url_of(issuer@),
{
    let chars = chars_of(issuer);
    assert(chars@.subrange(0, chars.len() as int) == chars@);
    let end = trim_end_matches_bound(&chars, 0, chars.len(), '/');
    let mut out: Vec<char> = Vec::new();
    push_chars(&mut out, &chars, 0, end);
    push_str(&mut out, "/.well-known/jwks.json");
    string_of(&out)
}

/// A published key.
#[derive(Debug, Clone, PartialEq)]
pub struct Jwk {
    pub kid: Option<String>,
    pub kty: String,
    pub n: Option<String>,
    pub e: Option<String>,
    pub alg: Option<String>,
}

/// The two numbers of an RSA key, as the key set writes them.
#[derive(Debug, Clone, PartialEq)]
pub struct RsaComponents {
    pub n: String,
    pub e: String,
}

/// The first key with the identifier.
pub open spec fn key_with_id(keys: Seq<Jwk>, kid: Seq<char>) -> Option<Jwk>
    decreases keys.len(),
{
    if keys.len() == 0 {
        None
    } else if keys[0].kid matches Some(id) && id@ == kid {
        Some(keys[0])
    } else {
        key_with_id(keys.drop_first(), kid)
    }
}

/// The numbers of the key that signs tokens with the identifier `kid`:
/// the first key of the set with that identifier, which has to be an RSA
/// key, for RS256 if it names an algorithm, and to have both numbers.
pub open spec fn signing_key(keys: Seq<Jwk>, kid: Seq<char>) -> Result<RsaComponents, AuthError> {
    match key_with_id(keys, kid) {
        None => Err(AuthError::NoMatchingKey),
        Some(key) => if key.kty@ != "RSA"@ {
            Err(AuthError::UnsupportedKeyType)
        } else if key.alg matches Some(alg) && alg@ != "RS256"@ {
            Err(AuthError::UnsupportedAlgorithm)
        } else {
            match (key.n, key.e) {
                (None, _) => Err(AuthError::MissingModulus),
                (Some(_), None) => Err(AuthError::MissingExponent),
                (Some(n), Some(e)) => Ok(RsaComponents { n, e }),
            }
        },
    }
}

pub fn select_signing_key(keys: &Vec<Jwk>, kid: &str) -> (found: Result<RsaComponents, AuthError>)
    ensures
        found == signing_key(keys@, kid@),
{
    let mut i: usize = 0;
    assert(keys@.skip(0) == keys@);
    while i < keys.len()
        invariant
            i <= keys.len(),
            key_with_id(keys@, kid@) == key_with_id(keys@.skip(i as int), kid@),
        decreases keys.len() - i,
    {
        assert(keys@.skip(i as int).drop_first() == keys@.skip(i + 1));
        let key = &keys[i];
        let matches = match &key.kid {
            Some(id) => str_eq(id.as_str(), kid),
            None => false,
        };
        if matches {
            if !str_eq(key.kty.as_str(), "RSA") {
                return Err(AuthError::UnsupportedKeyType);
            }
            if let Some(alg) = &key.alg {
                if !str_eq(alg.as_str(), "RS256") {
                    return Err(AuthError::UnsupportedAlgorithm);
                }
            }
            let n = match &key.n {
                Some(n) => n.clone(),
                None => {
                    return Err(AuthError::MissingModulus);
                },
            };
            let e = match &key.e {
                Some(e) => e.clone(),
                None => {
                    return Err(AuthError::MissingExponent);
                },
            };
            return Ok(RsaComponents { n, e });
        }
        i += 1;
    }
    Err(AuthError::NoMatchingKey)
}

/// The text of an outcome that holds an optional string.
pub open spec fn text_outcome(outcome: Result<Option<String>, ()>) -> Result<Option<Seq<char>>, ()> {
    match outcome {
        Ok(Some(text)) => Ok(Some(text@)),
        Ok(None) => Ok(None),
        Err(_) => Err(()),
    }
}

/// The key identifier in the header of a token, if the header can be read
/// and names one.
pub uninterp spec fn jwt_header_kid(token: Seq<char>) -> Result<Option<Seq<char>>, ()>;

/// `jsonwebtoken::decode_header`: the header of a token, read without any
/// check of the signature; of the header, the key identifier. Reading is a
/// function of the token alone.
#[verifier::external_body]
fn decode_header_kid(token: &str) -> (kid: Result<Option<String>, ()>)
    ensures
        text_outcome(kid) == jwt_header_kid(token@),
{
    match jsonwebtoken::decode_header(token) {
        Ok(header) => Ok(header.kid),
        Err(_) => Err(()),
    }
}

/// The bytes that a text stands for in base64 with the alphabet for
/// addresses and without padding, if it is such a text.
pub uninterp spec fn base64url_decoded(text: Seq<char>) -> Option<Seq<u8>>;

/// `Engine::decode` of `base64::engine::general_purpose::URL_SAFE_NO_PAD`.
#[verifier::external_body]
fn base64url_decode(text: &str) -> (bytes: Option<Vec<u8>>)
    ensures
        match bytes {
            Some(b) => base64url_decoded(text@) == Some(b@),
            None => base64url_decoded(text@).is_none(),
        },
{
    match base64::engine::general_purpose::URL_SAFE_NO_PAD.decode(text.as_bytes()) {
        Ok(bytes) => Some(bytes),
        Err(_) => None,
    }
}

/// The text under a key of a JSON object: `Ok(None)` where the object has
/// no such member or the member is null; an error where the bytes are no
/// JSON object or the member is of another type.
pub uninterp spec fn json_text_member(document: Seq<u8>, key: Seq<char>) -> Result<
    Option<Seq<char>>,
    (),
>;

/// `serde_json::from_slice` to a `serde_json::Value`, and of an object the
/// member under `key`, where it is a string.
#[verifier::external_body]
fn read_text_member(document: &[u8], key: &str) -> (member: Result<Option<String>, ()>)
    ensures
        text_outcome(member) == json_text_member(document@, key@),
{
    match serde_json::from_slice::<serde_json::Value>(document) {
        Ok(serde_json::Value::Object(members)) => match members.get(key) {
            None => Ok(None),
            Some(serde_json::Value::Null) => Ok(None),
            Some(serde_json::Value::String(text)) => Ok(Some(text.clone())),
            Some(_) => Err(()),
        },
        _ => Err(()),
    }
}

/// The natural number under a key of a JSON object: `Ok(None)` where the
/// object has no such member or the member is null; an error where the
/// bytes are no JSON object or the member is no natural number below
/// 2^64.
pub uninterp spec fn json_unsigned_member(document: Seq<u8>, key: Seq<char>) -> Result<
    Option<u64>,
    (),
>;

/// `serde_json::from_slice` to a `serde_json::Value`, and of an object the
/// member under `key`, where it is a number that `Number::as_u64` gives.
#[verifier::external_body]
fn read_unsigned_member(document: &[u8], key: &str) -> (member: Result<Option<u64>, ()>)
    ensures
        member == json_unsigned_member(document@, key@),
{
    match serde_json::from_slice::<serde_json::Value>(document) {
        Ok(serde_json::Value::Object(members)) => match members.get(key) {
            None => Ok(None),
            Some(serde_json::Value::Null) => Ok(None),
            Some(serde_json::Value::Number(number)) => match number.as_u64() {
                Some(value) => Ok(Some(value)),
                None => Err(()),
            },
            Some(_) => Err(()),
        },
        _ => Err(()),
    }
}

/// Why the token's signature was not accepted.
#[derive(Debug, Clone, Copy, PartialEq, Eq, Structural)]
pub enum JwtFailure {
    /// Modulus or exponent is not base64.
    InvalidKey,
    /// The signature is not that of the token under the key, or the
    /// token is not for this issuer.
    Rejected,
}

/// The claims of a token as JSON text, if the token is signed with RS256
/// under the RSA key of the modulus and the exponent and is for the
/// issuer; whether it holds at some time is not looked at.
pub uninterp spec fn rs256_claims(
    token: Seq<char>,
    modulus: Seq<char>,
    exponent: Seq<char>,
    issuer: Seq<char>,
) -> Result<Seq<char>, JwtFailure>;

/// The text of a finding on a token's signature.
pub open spec fn finding_view(verified: Result<String, JwtFailure>) -> Result<
    Seq<char>,
    JwtFailure,
> {
    match verified {
        Ok(json) => Ok(json@),
        Err(e) => Err(e),
    }
}

/// `jsonwebtoken::decode` with `DecodingKey::from_rsa_components` and a
/// `Validation` for RS256 with the one issuer and without the check of
/// the end of validity: the claims of the token as JSON text, if the token
/// is accepted. Without the checks of time the finding is a function of
/// the token, the key and the issuer alone.
#[verifier::external_body]
fn verify_rs256(token: &str, key: &RsaComponents, issuer: &str) -> (claims: Result<
    String,
    JwtFailure,
>)
    ensures
        finding_view(claims) == rs256_claims(token@, key.n@, key.e@, issuer@),
{
    let decoding_key = match jsonwebtoken::DecodingKey::from_rsa_components(&key.n, &key.e) {
        Ok(decoding_key) => decoding_key,
        Err(_) => return Err(JwtFailure::InvalidKey),
    };
    let mut validation = jsonwebtoken::Validation::new(jsonwebtoken::Algorithm::RS256);
    validation.validate_exp = false;
    validation.set_issuer(&[issuer]);
    match jsonwebtoken::decode::<serde_json::Value>(token, &decoding_key, &validation) {
        Ok(data) => Ok(data.claims.to_string()),
        Err(_) => Err(JwtFailure::Rejected),
    }
}

/// The payload of a token: what stands between its first and its second
/// point.
pub open spec fn payload_segment(token: Seq<char>) -> Option<Seq<char>> {
    if split(token, '.').len() >= 2 {
        Some(split(token, '.')[1])
    } else {
        None
    }
}

/// The issuer that a token names, read without any check of the
/// signature, and normalized.
pub open spec fn unverified_issuer(token: Seq<char>) -> Result<Seq<char>, AuthError> {
    match payload_segment(token) {
        None => Err(AuthError::MissingPayload),
        Some(segment) => match base64url_decoded(segment) {
            None => Err(AuthError::UndecodablePayload),
            Some(bytes) => match json_text_member(bytes, "iss"@) {
                Err(_) => Err(AuthError::UnreadableClaims),
                Ok(None) => Err(AuthError::MissingIssuer),
                Ok(Some(issuer)) => Ok(normalized_issuer(issuer)),
            },
        },
    }
}

pub fn parse_unverified_claims(token: &str) -> (issuer: Result<String, AuthError>)
    ensures
        match issuer {
            Ok(i) => unverified_issuer(token@) == Ok::<Seq<char>, AuthError>(i@),
            Err(e) => unverified_issuer(token@) == Err::<Seq<char>, AuthError>(e),
        },
{
    let chars = chars_of(token);
    let parts = split_chars(&chars, '.');
    if parts.len() < 2 {
        return Err(AuthError::MissingPayload);
    }
    assert(texts(parts@)[1] == parts[1]@);
    let segment = string_of(&parts[1]);
    let bytes = match base64url_decode(segment.as_str()) {
        Some(bytes) => bytes,
        None => {
            return Err(AuthError::UndecodablePayload);
        },
    };
    match read_text_member(bytes.as_slice(), "iss") {
        Err(_) => Err(AuthError::UnreadableClaims),
        Ok(None) => Err(AuthError::MissingIssuer),
        Ok(Some(issuer)) => Ok(normalize_issuer(issuer.as_str())),
    }
}

/// What is known of a token before its signature is checked.
#[derive(Debug, Clone, PartialEq)]
pub struct TokenHead {
    pub kid: String,
    pub issuer: String,
}

/// What is known of a token before its signature is checked, as texts.
pub struct TokenHeadView {
    pub kid: Seq<char>,
    pub issuer: Seq<char>,
}

/// The key and the issuer that a token names: the header has to be
/// readable and to name a key, the payload to name an issuer, and the
/// issuer to be the expected one, where one is expected.
pub open spec fn token_head(expected_issuer: Option<String>, token: Seq<char>) -> Result<
    TokenHeadView,
    AuthError,
> {
    match jwt_header_kid(token) {
        Err(_) => Err(AuthError::InvalidTokenHeader),
        Ok(None) => Err(AuthError::MissingKeyId),
        Ok(Some(kid)) => match unverified_issuer(token) {
            Err(e) => Err(e),
            Ok(issuer) => if expected_issuer matches Some(expected) && expected@ != issuer {
                Err(AuthError::IssuerMismatch)
            } else {
                Ok(TokenHeadView { kid, issuer })
            },
        },
    }
}

/// Whether the JSON text of verified claims holds all that is claimed, in
/// the right types and within the machine's integers: the subject and the
/// issuer as texts, the end of validity as a natural number, and its
/// beginning as a natural number if it is there.
pub open spec fn has_claims(json: Seq<char>) -> bool {
    &&& json_text_member(encode_utf8(json), "sub"@) matches Ok(Some(_))
    &&& json_text_member(encode_utf8(json), "iss"@) matches Ok(Some(_))
    &&& json_unsigned_member(encode_utf8(json), "exp"@) matches Ok(Some(exp)) && exp <= usize::MAX
    &&& json_unsigned_member(encode_utf8(json), "nbf"@) matches Ok(nbf) && (nbf matches Some(n)
        ==> n <= usize::MAX)
}

/// The text under a key of the JSON text of claims.
pub open spec fn claim_text(json: Seq<char>, key: Seq<char>) -> Seq<char> {
    json_text_member(encode_utf8(json), key)->Ok_0->Some_0
}

/// The time under a key of the JSON text of claims, in seconds since
/// 1970, if it is there.
pub open spec fn claim_time(json: Seq<char>, key: Seq<char>) -> Option<u64> {
    json_unsigned_member(encode_utf8(json), key)->Ok_0
}

/// Whether a token with these times holds at the time `now`, in seconds
/// since 1970: its end has to be in the future, and its beginning, if it
/// names one, not to be.
pub open spec fn holds_at(exp: int, nbf: Option<int>, now: int) -> bool {
    exp > now && (nbf matches Some(n) ==> n <= now)
}

/// Whether `outcome` is what the finding `verified` on a token's
/// signature means for the request at the time `now`, in seconds since
/// 1970. A token that was not accepted is refused with the failure of the
/// check. An accepted token is refused where its claims cannot be read,
/// where its issuer is not `issuer` once it is normalized, where its end
/// of validity is not in the future, and where its beginning is; else the
/// outcome is its claims, with the issuer normalized.
pub open spec fn follows_from(
    verified: Result<Seq<char>, JwtFailure>,
    issuer: Seq<char>,
    now: int,
    outcome: Result<ClerkClaims, AuthError>,
) -> bool {
    match verified {
        Err(JwtFailure::InvalidKey) => outcome == Err::<ClerkClaims, AuthError>(
            AuthError::InvalidKey,
        ),
        Err(JwtFailure::Rejected) => outcome == Err::<ClerkClaims, AuthError>(AuthError::Rejected),
        Ok(json) => if !has_claims(json) {
            outcome == Err::<ClerkClaims, AuthError>(AuthError::UnreadableClaims)
        } else if normalized_issuer(claim_text(json, "iss"@)) != issuer {
            outcome == Err::<ClerkClaims, AuthError>(AuthError::IssuerMismatch)
        } else if claim_time(json, "exp"@)->Some_0 <= now {
            outcome == Err::<ClerkClaims, AuthError>(AuthError::Expired)
        } else if claim_time(json, "nbf"@) matches Some(nbf) && nbf > now {
            outcome == Err::<ClerkClaims, AuthError>(AuthError::NotYetValid)
        } else {
            outcome matches Ok(claims) && {
                &&& claims.sub@ == claim_text(json, "sub"@)
                &&& claims.iss@ == issuer
                &&& Some(claims.exp as u64) == claim_time(json, "exp"@)
                &&& claim_time(json, "nbf"@) == match claims.nbf {
                    Some(nbf) => Some(nbf as u64),
                    None => None,
                }
                &&& holds_at(
                    claims.exp as int,
                    match claims.nbf {
                        Some(nbf) => Some(nbf as int),
                        None => None,
                    },
                    now,
                )
            }
        },
    }
}

/// What the finding on a token's signature means for the request at the
/// time `now`, in seconds since 1970: the claims of an accepted token, if
/// they are all there, are of the issuer, and hold at that time.
pub fn claims_outcome(verified: Result<String, JwtFailure>, issuer: &str, now: u64) -> (outcome:
    Result<ClerkClaims, AuthError>)
    ensures
        follows_from(finding_view(verified), issuer@, now as int, outcome),
{
    let json = match verified {
        Ok(json) => json,
        Err(JwtFailure::InvalidKey) => {
            return Err(AuthError::InvalidKey);
        },
        Err(JwtFailure::Rejected) => {
            return Err(AuthError::Rejected);
        },
    };
    let document = json.as_str().as_bytes();
    let sub = match read_text_member(document, "sub") {
        Ok(Some(sub)) => sub,
        _ => {
            return Err(AuthError::UnreadableClaims);
        },
    };
    let iss = match read_text_member(document, "iss") {
        Ok(Some(iss)) => iss,
        _ => {
            return Err(AuthError::UnreadableClaims);
        },
    };
    let exp = match read_unsigned_member(document, "exp") {
        Ok(Some(exp)) => exp,
        _ => {
            return Err(AuthError::UnreadableClaims);
        },
    };
    if exp > usize::MAX as u64 {
        return Err(AuthError::UnreadableClaims);
    }
    let nbf = match read_unsigned_member(document, "nbf") {
        Ok(Some(nbf)) => {
            if nbf > usize::MAX as u64 {
                return Err(AuthError::UnreadableClaims);
            }
            Some(nbf as usize)
        },
        Ok(None) => None,
        Err(_) => {
            return Err(AuthError::UnreadableClaims);
        },
    };
    let normalized = normalize_issuer(iss.as_str());
    if !str_eq(normalized.as_str(), issuer) {
        return Err(AuthError::IssuerMismatch);
    }
    if exp <= now {
        return Err(AuthError::Expired);
    }
    if let Some(begins) = nbf {
        if begins as u64 > now {
            return Err(AuthError::NotYetValid);
        }
    }
    Ok(ClerkClaims { sub, iss: normalized, exp: exp as usize, nbf })
}

/// A key set with the time at which it was fetched, in milliseconds.
pub struct CachedJwks {
    pub keys: Vec<Jwk>,
    pub fetched_at: u64,
}

/// How long a fetched key set is used: ten minutes, in milliseconds.
pub const JWKS_TTL_MS: u64 = 600_000;

/// Whether a key set that was fetched at `fetched_at` is still used at
/// `now`.
pub open spec fn is_fresh(fetched_at: u64, now: u64, ttl: u64) -> bool {
    now - fetched_at < ttl
}

/// The verifier of bearer tokens: the issuer that it expects, if any, and
/// the key sets that it has fetched, by issuer.
pub struct AuthService {
    expected_issuer: Option<String>,
    jwks_ttl_ms: u64,
    jwks_cache: StringHashMap<CachedJwks>,
}

impl AuthService {
    pub closed spec fn expected_issuer(&self) -> Option<String> {
        self.expected_issuer
    }

    pub closed spec fn jwks_ttl_ms(&self) -> u64 {
        self.jwks_ttl_ms
    }

    /// The key sets that were fetched, by issuer.
    pub closed spec fn cached(&self) -> Map<Seq<char>, CachedJwks> {
        self.jwks_cache@
    }

    /// The keys of an issuer that are used at the time `now`: those that
    /// were fetched last, unless that is the time to live ago or longer.
    pub open spec fn fresh_keys(&self, issuer: Seq<char>, now: u64) -> Option<Vec<Jwk>> {
        if self.cached().contains_key(issuer) && is_fresh(
            self.cached()[issuer].fetched_at,
            now,
            self.jwks_ttl_ms(),
        ) {
            Some(self.cached()[issuer].keys)
        } else {
            None
        }
    }

    /// A verifier without key sets. An expected issuer that is blank once
    /// it is normalized counts as none.
    pub fn new(expected_issuer: Option<String>) -> (service: AuthService)
        ensures
            service.jwks_ttl_ms() == JWKS_TTL_MS,
            service.cached() == Map::<Seq<char>, CachedJwks>::empty(),
            match service.expected_issuer() {
                Some(issuer) => expected_issuer matches Some(raw) && issuer@ == normalized_issuer(
                    raw@,
                ) && issuer@.len() > 0,
                None => expected_issuer matches Some(raw) ==> normalized_issuer(raw@).len() == 0,
            },
    {
        let expected_issuer = match expected_issuer {
            Some(raw) => {
                let issuer = normalize_issuer(raw.as_str());
                if issuer.as_str().unicode_len() == 0 {
                    None
                } else {
                    Some(issuer)
                }
            },
            None => None,
        };
        AuthService {
            expected_issuer,
            jwks_ttl_ms: JWKS_TTL_MS,
            jwks_cache: StringHashMap::new(),
        }
    }

    /// Reads the key and the issuer that a token names, without any check
    /// of the signature.
    pub fn inspect_token(&self, token: &str) -> (head: Result<TokenHead, AuthError>)
        ensures
            match head {
                Ok(h) => token_head(self.expected_issuer(), token@) == Ok::<
                    TokenHeadView,
                    AuthError,
                >(TokenHeadView { kid: h.kid@, issuer: h.issuer@ }),
                Err(e) => token_head(self.expected_issuer(), token@) == Err::<
                    TokenHeadView,
                    AuthError,
                >(e),
            },
    {
        let kid = match decode_header_kid(token) {
            Err(_) => {
                return Err(AuthError::InvalidTokenHeader);
            },
            Ok(None) => {
                return Err(AuthError::MissingKeyId);
            },
            Ok(Some(kid)) => kid,
        };
        let issuer = match parse_unverified_claims(token) {
            Ok(issuer) => issuer,
            Err(e) => {
                return Err(e);
            },
        };
        if let Some(expected) = &self.expected_issuer {
            if !str_eq(expected.as_str(), issuer.as_str()) {
                return Err(AuthError::IssuerMismatch);
            }
        }
        Ok(TokenHead { kid, issuer })
    }

    /// The keys of an issuer that are used at the time `now`, in
    /// milliseconds; without them the key set has to be fetched.
    pub fn cached_keys(&self, issuer: &str, now: u64) -> (keys: Option<&Vec<Jwk>>)
        ensures
            match keys {
                Some(k) => self.fresh_keys(issuer@, now) == Some(*k),
                None => self.fresh_keys(issuer@, now).is_none(),
            },
    {
        match self.jwks_cache.get(issuer) {
            Some(entry) => {
                if now < entry.fetched_at || now - entry.fetched_at < self.jwks_ttl_ms {
                    Some(&entry.keys)
                } else {
                    None
                }
            },
            None => None,
        }
    }

    /// Keeps the key set of an issuer that was fetched at the time `now`.
    pub fn store_keys(&mut self, issuer: &str, keys: Vec<Jwk>, now: u64)
        ensures
            final(self).expected_issuer() == old(self).expected_issuer(),
            final(self).jwks_ttl_ms() == old(self).jwks_ttl_ms(),
            final(self).cached() == old(self).cached().insert(
                issuer@,
                CachedJwks { keys, fetched_at: now },
            ),
    {
        self.jwks_cache.insert(issuer.to_owned(), CachedJwks { keys, fetched_at: now });
    }

    /// Checks the signature of a token against a key of its issuer and
    /// that the token is for the issuer, then reads its claims and decides
    /// whether they hold at the time `now`, in seconds since 1970.
    pub fn verify_with_key_at(token: &str, key: &RsaComponents, issuer: &str, now: u64) -> (outcome:
        Result<ClerkClaims, AuthError>)
        ensures
            follows_from(
                rs256_claims(token@, key.n@, key.e@, issuer@),
                issuer@,
                now as int,
                outcome,
            ),
    {
        claims_outcome(verify_rs256(token, key, issuer), issuer, now)
    }

    /// Checks a token as `verify_with_key_at` does, at the present time.
    pub fn verify_with_key(token: &str, key: &RsaComponents, issuer: &str) -> (outcome: Result<
        ClerkClaims,
        AuthError,
    >)
        ensures
            exists|now: u64|
                follows_from(
                    rs256_claims(token@, key.n@, key.e@, issuer@),
                    issuer@,
                    now as int,
                    outcome,
                ),
    {
        let seconds = unix_seconds_now();
        let now: u64 = if seconds < 0 {
            0
        } else {
            seconds as u64
        };
        let outcome = AuthService::verify_with_key_at(token, key, issuer, now);
        assert(follows_from(
            rs256_claims(token@, key.n@, key.e@, issuer@),
            issuer@,
            now as int,
            outcome,
        ));
        outcome
    }
}

/// A key set that was fetched is used for the time to live and no longer:
/// from the time it was kept until just before the time to live has
/// passed the keys are served, and from then on they have to be fetched
/// again.
pub proof fn lemma_key_set_lifetime(
    before: AuthService,
    after: AuthService,
    issuer: Seq<char>,
    keys: Vec<Jwk>,
    fetched_at: u64,
    now: u64,
)
    requires
        after.jwks_ttl_ms() == before.jwks_ttl_ms(),
        after.cached() == before.cached().insert(issuer, CachedJwks { keys, fetched_at }),
        fetched_at <= now,
    ensures
        now - fetched_at < after.jwks_ttl_ms() ==> after.fresh_keys(issuer, now) == Some(keys),
        now - fetched_at >= after.jwks_ttl_ms() ==> after.fresh_keys(issuer, now).is_none(),
{
}


/// A token whose signature is still to be checked.
#[derive(Debug, Clone, PartialEq)]
pub struct PendingToken {
    pub token: String,
    pub kid: String,
    pub issuer: String,
}

/// What is to be done with a bearer token.
#[derive(Debug, PartialEq)]
pub enum AuthStep {
    /// The finding.
    Done(Result<ClerkClaims, AuthError>),
    /// Fetch the key set of the issuer at `url`, then go on with
    /// `verify_with_fetched_keys`.
    FetchKeys { pending: PendingToken, url: String },
}

/// The seconds of a time in milliseconds.
pub open spec fn seconds_of(now_ms: u64) -> int {
    now_ms as int / 1000
}

/// Whether `outcome` is the finding on a token of the issuer with the key
/// identifier `kid` under the key set `keys` at the time `now`, in seconds
/// since 1970: without a key that can sign, it is the error of that; else
/// it is what the check of the signature under that key, of the claims
/// and of the time gives.
pub open spec fn is_finding(
    keys: Seq<Jwk>,
    kid: Seq<char>,
    token: Seq<char>,
    issuer: Seq<char>,
    now: int,
    outcome: Result<ClerkClaims, AuthError>,
) -> bool {
    match signing_key(keys, kid) {
        Err(e) => outcome == Err::<ClerkClaims, AuthError>(e),
        Ok(key) => follows_from(rs256_claims(token, key.n@, key.e@, issuer), issuer, now, outcome),
    }
}

fn finding(keys: &Vec<Jwk>, pending: &PendingToken, now: u64) -> (outcome: Result<
    ClerkClaims,
    AuthError,
>)
    ensures
        is_finding(keys@, pending.kid@, pending.token@, pending.issuer@, now as int, outcome),
{
    match select_signing_key(keys, pending.kid.as_str()) {
        Err(e) => Err(e),
        Ok(key) => AuthService::verify_with_key_at(
            pending.token.as_str(),
            &key,
            pending.issuer.as_str(),
            now,
        ),
    }
}

/// What is to be done with an authorization header at the time `now`, in
/// milliseconds since 1970: a header without a bearer token, or with a
/// token that is refused before its signature is checked, is refused at
/// once; a token whose issuer's keys are at hand is given its finding; for
/// any other the keys have to be fetched.
pub open spec fn is_first_step(service: AuthService, header: Seq<char>, now: u64, step: AuthStep) -> bool {
    match bearer_token(header) {
        None => step == AuthStep::Done(Err(AuthError::InvalidAuthorizationHeader)),
        Some(token) => match token_head(service.expected_issuer(), token) {
            Err(e) => step == AuthStep::Done(Err(e)),
            Ok(head) => match service.fresh_keys(head.issuer, now) {
                Some(keys) => step matches AuthStep::Done(outcome) && is_finding(
                    keys@,
                    head.kid,
                    token,
                    head.issuer,
                    seconds_of(now),
                    outcome,
                ),
                None => step matches AuthStep::FetchKeys { pending, url } && pending.token@ == token
                    && pending.kid@ == head.kid && pending.issuer@ == head.issuer && url@
                    == jwks_url_of(head.issuer),
            },
        },
    }
}

impl AuthService {
    /// Takes the authorization header of a request at the time `now`, in
    /// milliseconds since 1970, and says what is to be done.
    pub fn verify_bearer_token(&self, authorization_header: &str, now: u64) -> (step: AuthStep)
        ensures
            is_first_step(*self, authorization_header@, now, step),
    {
        let token = match extract_bearer_token(authorization_header) {
            Ok(token) => token,
            Err(e) => {
                return AuthStep::Done(Err(e));
            },
        };
        let head = match self.inspect_token(token) {
            Ok(head) => head,
            Err(e) => {
                return AuthStep::Done(Err(e));
            },
        };
        let pending = PendingToken { token: token.to_owned(), kid: head.kid, issuer: head.issuer };
        match self.cached_keys(pending.issuer.as_str(), now) {
            Some(keys) => AuthStep::Done(finding(keys, &pending, now / 1000)),
            None => {
                let url = jwks_url(pending.issuer.as_str());
                AuthStep::FetchKeys { pending, url }
            },
        }
    }

    /// Takes the key set that was fetched for a token at the time `now`,
    /// in milliseconds since 1970, or that it could not be fetched, and
    /// gives the finding. A key set that was fetched is kept for the
    /// issuer.
    pub fn verify_with_fetched_keys(
        &mut self,
        pending: &PendingToken,
        fetched: Result<Vec<Jwk>, ()>,
        now: u64,
    ) -> (outcome: Result<ClerkClaims, AuthError>)
        ensures
            final(self).expected_issuer() == old(self).expected_issuer(),
            final(self).jwks_ttl_ms() == old(self).jwks_ttl_ms(),
            match fetched {
                Ok(keys) => final(self).cached() == old(self).cached().insert(
                    pending.issuer@,
                    CachedJwks { keys, fetched_at: now },
                ) && is_finding(
                    keys@,
                    pending.kid@,
                    pending.token@,
                    pending.issuer@,
                    seconds_of(now),
                    outcome,
                ),
                Err(_) => final(self).cached() == old(self).cached() && outcome == Err::<
                    ClerkClaims,
                    AuthError,
                >(AuthError::KeySetUnavailable),
            },
    {
        match fetched {
            Err(_) => Err(AuthError::KeySetUnavailable),
            Ok(keys) => {
                let outcome = finding(&keys, pending, now / 1000);
                self.store_keys(pending.issuer.as_str(), keys, now);
                outcome
            },
        }
    }
}

/// A key set that was kept is not fetched again while it is used: from
/// the time it was kept until just before the time to live has passed, no
/// token of the issuer has its keys fetched.
pub proof fn lemma_no_second_fetch(
    before: AuthService,
    after: AuthService,
    keys: Vec<Jwk>,
    fetched_at: u64,
    header: Seq<char>,
    now: u64,
    step: AuthStep,
)
    requires
        after.jwks_ttl_ms() == before.jwks_ttl_ms(),
        after.expected_issuer() == before.expected_issuer(),
        bearer_token(header) matches Some(token) && (token_head(after.expected_issuer(), token)
            matches Ok(head) && after.cached() == before.cached().insert(
            head.issuer,
            CachedJwks { keys, fetched_at },
        )),
        fetched_at <= now,
        now - fetched_at < after.jwks_ttl_ms(),
        is_first_step(after, header, now, step),
    ensures
        step is Done,
{
}

} // verus!
