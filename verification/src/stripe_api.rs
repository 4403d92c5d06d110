use vstd::prelude::*;
use vstd::hash_map::StringHashMap;
use hmac::Mac;
use subtle::ConstantTimeEq;
use vstd::utf8::{encode_utf8, encode_utf8_decode_utf8};
use crate::decimal::{
    decimal_text, i64_to_chars, lemma_parse_decimal_text, parse_i64, parse_signed,
};
use crate::text::{
    chars_eq_str, chars_of, find_char, is_blank, join2, join3, lemma_prefix_before,
    lemma_prefix_before_at, lemma_split_at, lemma_trim_of_plain, prefix_before, split,
    split_chars, str_is_blank, string_of, suffix_after, texts, trim, trim_bounds,
};

verus! {

/// A customer of the payment provider.
pub struct StripeCustomer {
    pub id: String,
    pub deleted: bool,
    pub metadata: StringHashMap<String>,
}

/// The mapping that a list of pairs of key and value stands for: a later
/// pair for a key replaces an earlier one.
pub open spec fn pairs_map(pairs: Seq<(String, String)>) -> Map<Seq<char>, String>
    decreases pairs.len(),
{
    if pairs.len() == 0 {
        Map::empty()
    } else {
        pairs_map(pairs.drop_last()).insert(pairs.last().0@, pairs.last().1)
    }
}

impl StripeCustomer {
    /// The customer with the metadata of the pairs.
    pub fn new(id: String, deleted: bool, metadata: Vec<(String, String)>) -> (customer:
        StripeCustomer)
        ensures
            customer.id == id,
            customer.deleted == deleted,
            customer.metadata@ == pairs_map(metadata@),
    {
        let mut map: StringHashMap<String> = StringHashMap::new();
        let mut i: usize = 0;
        assert(metadata@.take(0) =~= Seq::<(String, String)>::empty());
        while i < metadata.len()
            invariant
                i <= metadata.len(),
                map@ == pairs_map(metadata@.take(i as int)),
            decreases metadata.len() - i,
        {
            assert(metadata@.take(i + 1).drop_last() == metadata@.take(i as int));
            map.insert(metadata[i].0.clone(), metadata[i].1.clone());
            i += 1;
        }
        assert(metadata@.take(metadata.len() as int) == metadata@);
        StripeCustomer { id, deleted, metadata: map }
    }
}

#[derive(Debug, Clone, PartialEq)]
pub struct StripeCheckoutSession {
    pub url: Option<String>,
    pub status: Option<String>,
    pub subscription: Option<IdOrObject>,
    pub line_items: Option<StripeLineItems>,
}

#[derive(Debug, Clone, PartialEq)]
pub struct StripeBillingPortalSession {
    pub url: Option<String>,
}

#[derive(Debug, Clone, PartialEq)]
pub struct StripeSubscription {
    pub id: String,
    pub customer: IdOrObject,
    pub status: String,
    pub current_period_end: Option<i64>,
    pub items: StripeSubscriptionItems,
}

#[derive(Debug, Clone, PartialEq)]
pub struct StripeSubscriptionItems {
    pub data: Vec<StripeSubscriptionItem>,
}

#[derive(Debug, Clone, PartialEq)]
pub struct StripeSubscriptionItem {
    pub price: Option<StripePrice>,
}

#[derive(Debug, Clone, PartialEq)]
pub struct StripePrice {
    pub id: Option<String>,
}

#[derive(Debug, Clone, PartialEq)]
pub struct StripeLineItems {
    pub data: Vec<StripeLineItem>,
}

#[derive(Debug, Clone, PartialEq)]
pub struct StripeLineItem {
    pub price: Option<StripePrice>,
}

/// A reference that the payment provider sends either as an identifier or
/// as the object that has it.
#[derive(Debug, Clone, PartialEq)]
pub enum IdOrObject {
    Id(String),
    Object { id: String },
}

impl IdOrObject {
    /// The identifier, in either form.
    pub open spec fn spec_id(self) -> String {
        match self {
            IdOrObject::Id(value) => value,
            IdOrObject::Object { id } => id,
        }
    }

    pub fn id(&self) -> (id: String)
        ensures
            id == self.spec_id(),
    {
        match self {
            IdOrObject::Id(value) => value.clone(),
            IdOrObject::Object { id } => id.clone(),
        }
    }
}

#[derive(Debug, Clone, PartialEq)]
pub struct StripeInvoice {
    pub subscription: Option<IdOrObject>,
}

/// The identifier of the price of the first item, if there is such an
/// item and it names its price.
pub open spec fn first_price_id(prices: Seq<Option<StripePrice>>) -> Option<String> {
    if prices.len() == 0 {
        None
    } else {
        match prices[0] {
            Some(price) => price.id,
            None => None,
        }
    }
}

/// The prices of the items of a subscription, in order.
pub open spec fn subscription_prices(items: StripeSubscriptionItems) -> Seq<Option<StripePrice>> {
    Seq::new(items.data@.len(), |i: int| items.data@[i].price)
}

/// The prices of the line items of a checkout session, in order.
pub open spec fn line_item_prices(items: StripeLineItems) -> Seq<Option<StripePrice>> {
    Seq::new(items.data@.len(), |i: int| items.data@[i].price)
}

/// The price of a subscription: that of its first item.
pub fn subscription_price_id(subscription: &StripeSubscription) -> (price_id: Option<String>)
    ensures
        price_id == first_price_id(subscription_prices(subscription.items)),
{
    if subscription.items.data.len() == 0 {
        return None;
    }
    match &subscription.items.data[0].price {
        Some(price) => price.id.clone(),
        None => None,
    }
}

/// The price of a checkout session: that of its first line item.
pub open spec fn session_price(session: StripeCheckoutSession) -> Option<String> {
    match session.line_items {
        Some(items) => first_price_id(line_item_prices(items)),
        None => None,
    }
}

pub fn session_price_id(session: &StripeCheckoutSession) -> (price_id: Option<String>)
    ensures
        price_id == session_price(*session),
{
    match &session.line_items {
        Some(items) => {
            if items.data.len() == 0 {
                return None;
            }
            match &items.data[0].price {
                Some(price) => price.id.clone(),
                None => None,
            }
        },
        None => None,
    }
}


/// The settings of the payment provider's client.
#[derive(Debug, Clone, PartialEq)]
pub struct StripeApi {
    pub secret_key: Option<String>,
    pub webhook_secret: Option<String>,
    pub base_url: String,
}

/// Why the signature of a webhook call was not accepted.
#[derive(Debug, Clone, Copy, PartialEq, Eq, Structural)]
pub enum WebhookError {
    /// No secret is configured to check signatures against.
    NotConfigured,
    /// The header names no time, or none that is an integer.
    MissingTimestamp,
    /// The header holds no signature.
    MissingSignature,
    /// The time of the signature is more than five minutes away.
    OutsideTolerance,
    /// None of the signatures is that of the payload.
    InvalidSignature,
}

/// How far the time of a signature may be from the present, in seconds.
pub const SIGNATURE_TOLERANCE_SECONDS: i64 = 300;

/// What a signature header says: the time named last, if it is an
/// integer, and the signatures of version 1, in order. The header is a
/// list of `key=value` separated by commas; white space around an element
/// does not count.
pub open spec fn signature_reading(parts: Seq<Seq<char>>) -> (Option<int>, Seq<Seq<char>>)
    decreases parts.len(),
{
    if parts.len() == 0 {
        (None, Seq::empty())
    } else {
        let (timestamp, signatures) = signature_reading(parts.drop_last());
        let element = trim(parts.last());
        let key = prefix_before(element, '=');
        let value = suffix_after(element, '=');
        if key == "t"@ {
            (parse_signed(value, i64::MIN as int, i64::MAX as int), signatures)
        } else if key == "v1"@ {
            (timestamp, signatures.push(value))
        } else {
            (timestamp, signatures)
        }
    }
}

/// The two hexadecimal digits of a byte, in lower case.
pub open spec fn hex_digit(n: int) -> char {
    if n < 10 {
        (('0' as u8) + n) as char
    } else {
        (('a' as u8) + (n - 10)) as char
    }
}

/// The bytes in hexadecimal, two digits in lower case for each.
pub open spec fn hex_lower(bytes: Seq<u8>) -> Seq<char>
    decreases bytes.len(),
{
    if bytes.len() == 0 {
        Seq::empty()
    } else {
        hex_lower(bytes.drop_last()) + seq![
            hex_digit(bytes.last() as int / 16),
            hex_digit(bytes.last() as int % 16),
        ]
    }
}

/// The bytes of a text of ASCII characters.
pub open spec fn ascii_bytes(s: Seq<char>) -> Seq<u8> {
    Seq::new(s.len(), |i: int| s[i] as u8)
}

/// What is signed: the time in decimal, a point, and the payload.
pub open spec fn signed_payload(timestamp: int, payload: Seq<u8>) -> Seq<u8> {
    ascii_bytes(decimal_text(timestamp)) + seq![0x2eu8] + payload
}

/// The HMAC with SHA-256 of a message under a key.
pub uninterp spec fn hmac_sha256(key: Seq<u8>, message: Seq<u8>) -> Seq<u8>;

/// `Hmac::<Sha256>::new_from_slice`, `update` and `finalize` of the
/// crates hmac and sha2: the HMAC with SHA-256 of the message under the
/// key. An HMAC takes a key of any length, so that no key is refused.
#[verifier::external_body]
fn hmac_sha256_digest(key: &[u8], message: &[u8]) -> (digest: Vec<u8>)
    ensures
        digest@ == hmac_sha256(key@, message@),
{
    let mut mac = match hmac::Hmac::<sha2::Sha256>::new_from_slice(key) {
        Ok(mac) => mac,
        Err(_) => return Vec::new(),
    };
    mac.update(message);
    mac.finalize().into_bytes().to_vec()
}

/// `hex::encode`: each byte as two hexadecimal digits in lower case.
#[verifier::external_body]
fn hex_encode(bytes: &[u8]) -> (text: String)
    ensures
        text@ == hex_lower(bytes@),
{
    hex::encode(bytes)
}

/// `ConstantTimeEq::ct_eq` of the crate subtle on two slices of bytes:
/// whether they are equal, found in a time that does not depend on where
/// they differ.
#[verifier::external_body]
fn constant_time_eq(a: &[u8], b: &[u8]) -> (same: bool)
    ensures
        same == (a@ == b@),
{
    a.ct_eq(b).into()
}

/// `chrono::Utc::now` and `timestamp`: the present time in seconds since
/// 1970, as the clock of the machine has it.
#[verifier::external_body]
pub(crate) fn unix_seconds_now() -> (now: i64) {
    chrono::Utc::now().timestamp()
}

/// Whether a time is within the tolerance of the present.
pub open spec fn within_tolerance(now: int, timestamp: int) -> bool {
    -(SIGNATURE_TOLERANCE_SECONDS as int) <= now - timestamp <= SIGNATURE_TOLERANCE_SECONDS as int
}

/// Whether a webhook call is accepted at the time `now`: a secret has to
/// be configured, the header to name a time and at least one signature,
/// the time to be within five minutes of `now`, and one of the signatures
/// to be the HMAC of the signed payload under the secret, in hexadecimal.
/// The payload is taken as the bytes that it is. The first of these that
/// fails is the error.
pub open spec fn signature_finding(
    secret: Option<String>,
    header: Seq<char>,
    payload: Seq<u8>,
    now: int,
) -> Result<(), WebhookError> {
    let (timestamp, signatures) = signature_reading(split(header, ','));
    match secret {
        None => Err(WebhookError::NotConfigured),
        Some(secret) => match timestamp {
            None => Err(WebhookError::MissingTimestamp),
            Some(t) => if signatures.len() == 0 {
                Err(WebhookError::MissingSignature)
            } else if !within_tolerance(now, t) {
                Err(WebhookError::OutsideTolerance)
            } else if signatures.contains(
                hex_lower(hmac_sha256(encode_utf8(secret@), signed_payload(t, payload))),
            ) {
                Ok(())
            } else {
                Err(WebhookError::InvalidSignature)
            },
        },
    }
}

fn read_signature_header(header: &str) -> (reading: (Option<i64>, Vec<Vec<char>>))
    ensures
        texts(reading.1@) == signature_reading(split(header@, ',')).1,
        match signature_reading(split(header@, ',')).0 {
            Some(t) => reading.0 == Some(t as i64) && i64::MIN <= t <= i64::MAX,
            None => reading.0.is_none(),
        },
{
    let chars = chars_of(header);
    let parts = split_chars(&chars, ',');
    let mut timestamp: Option<i64> = None;
    let mut signatures: Vec<Vec<char>> = Vec::new();
    let mut i: usize = 0;
    assert(texts(parts@).take(0) =~= Seq::<Seq<char>>::empty());
    assert(texts(signatures@) =~= Seq::<Seq<char>>::empty());
    while i < parts.len()
        invariant
            i <= parts.len(),
            texts(signatures@) == signature_reading(texts(parts@).take(i as int)).1,
            match signature_reading(texts(parts@).take(i as int)).0 {
                Some(t) => timestamp == Some(t as i64) && i64::MIN <= t <= i64::MAX,
                None => timestamp.is_none(),
            },
        decreases parts.len() - i,
    {
        let ghost upto = texts(parts@).take(i + 1);
        assert(upto.drop_last() == texts(parts@).take(i as int));
        assert(upto.last() == parts[i as int]@);
        let part = &parts[i];
        let (a, b) = trim_bounds(part);
        let ghost element = trim(part@);
        let eq = find_char(part, a, b, '=');
        proof {
            lemma_prefix_before(element, '=');
        }
        let mut key: Vec<char> = Vec::new();
        crate::text::push_chars(&mut key, part, a, eq);
        assert(key@ =~= prefix_before(element, '='));
        let mut value: Vec<char> = Vec::new();
        if eq < b {
            crate::text::push_chars(&mut value, part, eq + 1, b);
            assert(value@ =~= element.skip(eq - a + 1));
        }
        assert(value@ == suffix_after(element, '='));
        if chars_eq_str(&key, "t") {
            timestamp = parse_i64(&value);
        } else if chars_eq_str(&key, "v1") {
            let ghost before = texts(signatures@);
            signatures.push(value);
            assert(texts(signatures@) =~= before.push(value@));
        }
        i += 1;
    }
    assert(texts(parts@).take(parts.len() as int) == texts(parts@));
    (timestamp, signatures)
}

/// The bytes of what is signed.
fn build_signed_payload(timestamp: i64, payload: &[u8]) -> (message: Vec<u8>)
    ensures
        message@ == signed_payload(timestamp as int, payload@),
{
    let digits = i64_to_chars(timestamp);
    let mut message: Vec<u8> = Vec::new();
    let mut i: usize = 0;
    while i < digits.len()
        invariant
            i <= digits.len(),
            message@ == ascii_bytes(digits@.take(i as int)),
        decreases digits.len() - i,
    {
        message.push(digits[i] as u8);
        i += 1;
        assert(message@ =~= ascii_bytes(digits@.take(i as int)));
    }
    assert(digits@.take(digits.len() as int) == digits@);
    message.push(0x2eu8);
    let ghost head = message@;
    let mut j: usize = 0;
    while j < payload.len()
        invariant
            j <= payload.len(),
            message@ == head + payload@.take(j as int),
        decreases payload.len() - j,
    {
        message.push(payload[j]);
        j += 1;
        assert(message@ =~= head + payload@.take(j as int));
    }
    assert(payload@.take(payload.len() as int) == payload@);
    message
}

/// Whether one of the signatures is the expected one.
fn any_signature_matches(signatures: &Vec<Vec<char>>, expected: &String) -> (found: bool)
    ensures
        found == texts(signatures@).contains(expected@),
{
    let mut i: usize = 0;
    while i < signatures.len()
        invariant
            i <= signatures.len(),
            forall|j: int| 0 <= j < i ==> texts(signatures@)[j] != expected@,
        decreases signatures.len() - i,
    {
        let candidate = string_of(&signatures[i]);
        let same = constant_time_eq(expected.as_str().as_bytes(), candidate.as_str().as_bytes());
        proof {
            encode_utf8_decode_utf8(expected@);
            encode_utf8_decode_utf8(candidate@);
        }
        if same {
            assert(texts(signatures@)[i as int] == expected@);
            return true;
        }
        i += 1;
    }
    false
}

impl StripeApi {
    /// The client's settings for the payment provider's service.
    pub fn new(secret_key: Option<String>, webhook_secret: Option<String>) -> (api: StripeApi)
        ensures
            api.secret_key == secret_key,
            api.webhook_secret == webhook_secret,
            api.base_url@ == "https://api.stripe.com/v1"@,
    {
        StripeApi { secret_key, webhook_secret, base_url: "https://api.stripe.com/v1".to_owned() }
    }

    /// Checks the signature of a webhook call against the time `now`, in
    /// seconds since 1970.
    pub fn verify_webhook_signature_at(
        &self,
        signature_header: &str,
        payload: &[u8],
        now: i64,
    ) -> (finding: Result<(), WebhookError>)
        ensures
            finding == signature_finding(
                self.webhook_secret,
                signature_header@,
                payload@,
                now as int,
            ),
    {
        let secret = match &self.webhook_secret {
            Some(secret) => secret,
            None => {
                return Err(WebhookError::NotConfigured);
            },
        };
        let (timestamp, signatures) = read_signature_header(signature_header);
        let timestamp = match timestamp {
            Some(t) => t,
            None => {
                return Err(WebhookError::MissingTimestamp);
            },
        };
        if signatures.len() == 0 {
            return Err(WebhookError::MissingSignature);
        }
        let distance: i128 = now as i128 - timestamp as i128;
        if distance > 300 || distance < -300 {
            return Err(WebhookError::OutsideTolerance);
        }
        let message = build_signed_payload(timestamp, payload);
        let digest = hmac_sha256_digest(secret.as_str().as_bytes(), message.as_slice());
        let expected = hex_encode(digest.as_slice());
        if any_signature_matches(&signatures, &expected) {
            Ok(())
        } else {
            Err(WebhookError::InvalidSignature)
        }
    }

    /// Checks the signature of a webhook call against the present time.
    /// Without a configured secret the call is refused as not configured,
    /// whatever the time.
    pub fn verify_webhook_signature(&self, signature_header: &str, payload: &[u8]) -> (finding:
        Result<(), WebhookError>)
        ensures
            exists|now: i64|
                finding == signature_finding(
                    self.webhook_secret,
                    signature_header@,
                    payload@,
                    now as int,
                ),
            self.webhook_secret.is_none() ==> finding == Err::<(), WebhookError>(
                WebhookError::NotConfigured,
            ),
    {
        let now = unix_seconds_now();
        let finding = self.verify_webhook_signature_at(signature_header, payload, now);
        assert(finding == signature_finding(
            self.webhook_secret,
            signature_header@,
            payload@,
            now as int,
        ));
        finding
    }
}

/// The characters of hexadecimal digits in lower case.
pub open spec fn is_hex_char(c: char) -> bool {
    ('0' <= c && c <= '9') || ('a' <= c && c <= 'f')
}

/// A text of hexadecimal digits in lower case.
pub open spec fn is_hex_text(h: Seq<char>) -> bool {
    forall|i: int| 0 <= i < h.len() ==> is_hex_char(#[trigger] h[i])
}

/// The header that names one time and one signature, without white
/// space: `t=`, the time in decimal, `,v1=` and the signature.
pub open spec fn plain_header(t: int, h: Seq<char>) -> Seq<char> {
    seq!['t', '='] + decimal_text(t) + seq![','] + (seq!['v', '1', '='] + h)
}

/// Bytes in hexadecimal are a text of hexadecimal digits.
pub proof fn lemma_hex_lower_is_hex(bytes: Seq<u8>)
    ensures
        is_hex_text(hex_lower(bytes)),
    decreases bytes.len(),
{
    if bytes.len() > 0 {
        lemma_hex_lower_is_hex(bytes.drop_last());
        let b = bytes.last() as int;
        assert(0 <= b / 16 < 16 && 0 <= b % 16 < 16);
        assert(is_hex_char(hex_digit(b / 16)));
        assert(is_hex_char(hex_digit(b % 16)));
    }
}

/// The plain header says what it was made of: its time, and its one
/// signature.
pub proof fn lemma_plain_header_reading(t: i64, h: Seq<char>)
    requires
        is_hex_text(h),
    ensures
        signature_reading(split(plain_header(t as int, h), ',')) == (Some(t as int), seq![h]),
{
    reveal_strlit("t");
    reveal_strlit("v1");
    let time = decimal_text(t as int);
    lemma_parse_decimal_text(t as int);
    let first = seq!['t', '='] + time;
    let second = seq!['v', '1', '='] + h;
    assert forall|i: int| 0 <= i < first.len() implies first[i] != ',' by {
        if i >= 2 {
            assert(first[i] == time[i - 2]);
        }
    }
    assert forall|i: int| 0 <= i < second.len() implies second[i] != ',' by {
        if i >= 3 {
            assert(second[i] == h[i - 3]);
        }
    }
    lemma_split_at(first, second, ',');
    assert(plain_header(t as int, h) == first + seq![','] + second);
    let parts = seq![first, second];
    // the element that names the time
    assert(first.last() == time.last());
    lemma_trim_of_plain(first);
    assert(first =~= seq!['t'] + seq!['='] + time);
    assert(!seq!['t'].contains('='));
    lemma_prefix_before_at(seq!['t'], time, '=');
    assert(seq!['t'] =~= "t"@);
    // the element that holds the signature
    assert(second.last() == '=' || second.last() == h.last());
    assert(!crate::text::is_whitespace(second.last())) by {
        if h.len() > 0 {
            assert(second.last() == h[h.len() - 1]);
        } else {
            assert(second.last() == '=');
        }
    }
    lemma_trim_of_plain(second);
    assert(second =~= seq!['v', '1'] + seq!['='] + h);
    assert(!seq!['v', '1'].contains('='));
    lemma_prefix_before_at(seq!['v', '1'], h, '=');
    assert(seq!['v', '1'] =~= "v1"@);
    assert("v1"@ != "t"@);
    // the reading, element by element
    assert(parts.drop_last() =~= seq![first]);
    assert(seq![first].drop_last() =~= Seq::<Seq<char>>::empty());
    assert(signature_reading(Seq::<Seq<char>>::empty()) == (None::<int>, Seq::<Seq<char>>::empty()));
    assert(signature_reading(seq![first]) == (Some(t as int), Seq::<Seq<char>>::empty()));
    assert(signature_reading(parts) == (Some(t as int), Seq::<Seq<char>>::empty().push(h)));
    assert(Seq::<Seq<char>>::empty().push(h) =~= seq![h]);
}

/// A call that is signed as the payment provider signs is accepted from
/// 300 seconds before its time until 300 seconds after it, and at no
/// other time: with the plain header of the time `t` and of the HMAC of
/// the signed payload under the secret, the call is accepted where `now`
/// is no more than 300 seconds from `t`, and refused for its time
/// elsewhere.
pub proof fn lemma_signed_call_at(secret: String, payload: Seq<u8>, t: i64, now: i64)
    ensures
        ({
            let h = hex_lower(hmac_sha256(encode_utf8(secret@), signed_payload(t as int, payload)));
            let header = plain_header(t as int, h);
            &&& -300 <= now - t <= 300 ==> signature_finding(
                Some(secret),
                header,
                payload,
                now as int,
            ) == Ok::<(), WebhookError>(())
            &&& !(-300 <= now - t <= 300) ==> signature_finding(
                Some(secret),
                header,
                payload,
                now as int,
            ) == Err::<(), WebhookError>(WebhookError::OutsideTolerance)
        }),
{
    let h = hex_lower(hmac_sha256(encode_utf8(secret@), signed_payload(t as int, payload)));
    lemma_hex_lower_is_hex(hmac_sha256(encode_utf8(secret@), signed_payload(t as int, payload)));
    lemma_plain_header_reading(t, h);
    assert(seq![h][0] == h);
    assert(seq![h].contains(h));
}

/// The tolerance is five minutes to either side: with a secret, a time
/// and a signature there, a call is refused for its time exactly where
/// that is more than 300 seconds before or after the present.
pub proof fn lemma_signature_tolerance(
    secret: String,
    header: Seq<char>,
    payload: Seq<u8>,
    now: int,
)
    requires
        signature_reading(split(header, ',')).0.is_some(),
        signature_reading(split(header, ',')).1.len() > 0,
    ensures
        signature_finding(Some(secret), header, payload, now) == Err::<(), WebhookError>(
            WebhookError::OutsideTolerance,
        ) <==> {
            let t = signature_reading(split(header, ',')).0.unwrap();
            now - t > 300 || t - now > 300
        },
{
}


/// Why a call of the payment provider was not made.
#[derive(Debug, Clone, Copy, PartialEq, Eq, Structural)]
pub enum StripeError {
    /// No secret key is configured, or a blank one.
    NotConfigured,
}

/// How a call is sent.
#[derive(Debug, Clone, Copy, PartialEq, Eq, Structural)]
pub enum StripeMethod {
    /// With the parameters in the address.
    Get,
    /// With the parameters as a form.
    Post,
}

/// A call of the payment provider: where it goes, under which key, and
/// with which parameters.
#[derive(Debug, Clone, PartialEq)]
pub struct StripeCall {
    pub method: StripeMethod,
    pub path: String,
    pub url: String,
    pub key: String,
    pub params: Vec<(String, String)>,
}

/// The parameters of a call, as texts.
pub open spec fn param_views(params: Seq<(String, String)>) -> Seq<(Seq<char>, Seq<char>)> {
    Seq::new(params.len(), |i: int| (params[i].0@, params[i].1@))
}

/// Whether `call` is the call of `method` to `path` with the parameters
/// `params` under the settings `api`.
pub open spec fn is_call(
    api: StripeApi,
    call: StripeCall,
    method: StripeMethod,
    path: Seq<char>,
    params: Seq<(Seq<char>, Seq<char>)>,
) -> bool {
    &&& call.method == method
    &&& call.path@ == path
    &&& call.url@ == api.base_url@ + "/"@ + path
    &&& Some(call.key) == api.secret_key
    &&& param_views(call.params@) == params
}

/// Whether a secret key is configured that is not blank.
pub open spec fn has_secret_key(api: StripeApi) -> bool {
    match api.secret_key {
        Some(key) => !is_blank(key@),
        None => false,
    }
}

fn pair(name: &str, value: &str) -> (p: (String, String))
    ensures
        p.0@ == name@,
        p.1@ == value@,
{
    (name.to_owned(), value.to_owned())
}

impl StripeApi {
    /// The secret key, which has to be configured and not blank.
    pub fn require_secret_key(&self) -> (key: Result<&str, StripeError>)
        ensures
            match key {
                Ok(k) => has_secret_key(*self) && (self.secret_key matches Some(s) && s@ == k@),
                Err(e) => e == StripeError::NotConfigured && !has_secret_key(*self),
            },
    {
        match &self.secret_key {
            Some(key) => {
                if str_is_blank(key.as_str()) {
                    Err(StripeError::NotConfigured)
                } else {
                    Ok(key.as_str())
                }
            },
            None => Err(StripeError::NotConfigured),
        }
    }

    fn call(&self, method: StripeMethod, path: String, params: Vec<(String, String)>) -> (call:
        Result<StripeCall, StripeError>)
        ensures
            match call {
                Ok(c) => has_secret_key(*self) && is_call(
                    *self,
                    c,
                    method,
                    path@,
                    param_views(params@),
                ),
                Err(e) => e == StripeError::NotConfigured && !has_secret_key(*self),
            },
    {
        match &self.secret_key {
            Some(key) => {
                if str_is_blank(key.as_str()) {
                    return Err(StripeError::NotConfigured);
                }
                let url = join3(self.base_url.as_str(), "/", path.as_str());
                Ok(StripeCall { method, path, url, key: key.clone(), params })
            },
            None => Err(StripeError::NotConfigured),
        }
    }

    /// The call that creates a customer for a user.
    pub fn create_customer(&self, email: &str, clerk_id: &str) -> (call: Result<
        StripeCall,
        StripeError,
    >)
        ensures
            match call {
                Ok(c) => has_secret_key(*self) && is_call(
                    *self,
                    c,
                    StripeMethod::Post,
                    "customers"@,
                    seq![("email"@, email@), ("metadata[clerkId]"@, clerk_id@)],
                ),
                Err(e) => e == StripeError::NotConfigured && !has_secret_key(*self),
            },
    {
        let mut params: Vec<(String, String)> = Vec::new();
        params.push(pair("email", email));
        params.push(pair("metadata[clerkId]", clerk_id));
        assert(param_views(params@) =~= seq![
            ("email"@, email@),
            ("metadata[clerkId]"@, clerk_id@),
        ]);
        self.call(StripeMethod::Post, "customers".to_owned(), params)
    }

    /// The call that reads a customer.
    pub fn retrieve_customer(&self, customer_id: &str) -> (call: Result<StripeCall, StripeError>)
        ensures
            match call {
                Ok(c) => has_secret_key(*self) && is_call(
                    *self,
                    c,
                    StripeMethod::Get,
                    "customers/"@ + customer_id@,
                    Seq::empty(),
                ),
                Err(e) => e == StripeError::NotConfigured && !has_secret_key(*self),
            },
    {
        let params: Vec<(String, String)> = Vec::new();
        assert(param_views(params@) =~= Seq::<(Seq<char>, Seq<char>)>::empty());
        self.call(StripeMethod::Get, join2("customers/", customer_id), params)
    }

    /// The call that creates a checkout session for one subscription at
    /// the given price, paid by card.
    pub fn create_checkout_session(
        &self,
        customer_id: &str,
        price_id: &str,
        success_url: &str,
        cancel_url: &str,
    ) -> (call: Result<StripeCall, StripeError>)
        ensures
            match call {
                Ok(c) => has_secret_key(*self) && is_call(
                    *self,
                    c,
                    StripeMethod::Post,
                    "checkout/sessions"@,
                    seq![
                        ("customer"@, customer_id@),
                        ("payment_method_types[0]"@, "card"@),
                        ("line_items[0][price]"@, price_id@),
                        ("line_items[0][quantity]"@, "1"@),
                        ("mode"@, "subscription"@),
                        ("success_url"@, success_url@),
                        ("cancel_url"@, cancel_url@),
                    ],
                ),
                Err(e) => e == StripeError::NotConfigured && !has_secret_key(*self),
            },
    {
        let mut params: Vec<(String, String)> = Vec::new();
        params.push(pair("customer", customer_id));
        params.push(pair("payment_method_types[0]", "card"));
        params.push(pair("line_items[0][price]", price_id));
        params.push(pair("line_items[0][quantity]", "1"));
        params.push(pair("mode", "subscription"));
        params.push(pair("success_url", success_url));
        params.push(pair("cancel_url", cancel_url));
        assert(param_views(params@) =~= seq![
            ("customer"@, customer_id@),
            ("payment_method_types[0]"@, "card"@),
            ("line_items[0][price]"@, price_id@),
            ("line_items[0][quantity]"@, "1"@),
            ("mode"@, "subscription"@),
            ("success_url"@, success_url@),
            ("cancel_url"@, cancel_url@),
        ]);
        self.call(StripeMethod::Post, "checkout/sessions".to_owned(), params)
    }

    /// The call that reads a checkout session with its line items.
    pub fn retrieve_checkout_session(&self, session_id: &str) -> (call: Result<
        StripeCall,
        StripeError,
    >)
        ensures
            match call {
                Ok(c) => has_secret_key(*self) && is_call(
                    *self,
                    c,
                    StripeMethod::Get,
                    "checkout/sessions/"@ + session_id@,
                    seq![("expand[]"@, "line_items"@)],
                ),
                Err(e) => e == StripeError::NotConfigured && !has_secret_key(*self),
            },
    {
        let mut params: Vec<(String, String)> = Vec::new();
        params.push(pair("expand[]", "line_items"));
        assert(param_views(params@) =~= seq![("expand[]"@, "line_items"@)]);
        self.call(StripeMethod::Get, join2("checkout/sessions/", session_id), params)
    }

    /// The call that creates a session of the customer portal.
    pub fn create_billing_portal_session(&self, customer_id: &str, return_url: &str) -> (call:
        Result<StripeCall, StripeError>)
        ensures
            match call {
                Ok(c) => has_secret_key(*self) && is_call(
                    *self,
                    c,
                    StripeMethod::Post,
                    "billing_portal/sessions"@,
                    seq![("customer"@, customer_id@), ("return_url"@, return_url@)],
                ),
                Err(e) => e == StripeError::NotConfigured && !has_secret_key(*self),
            },
    {
        let mut params: Vec<(String, String)> = Vec::new();
        params.push(pair("customer", customer_id));
        params.push(pair("return_url", return_url));
        assert(param_views(params@) =~= seq![
            ("customer"@, customer_id@),
            ("return_url"@, return_url@),
        ]);
        self.call(StripeMethod::Post, "billing_portal/sessions".to_owned(), params)
    }

    /// The call that reads a subscription.
    pub fn retrieve_subscription(&self, subscription_id: &str) -> (call: Result<
        StripeCall,
        StripeError,
    >)
        ensures
            match call {
                Ok(c) => has_secret_key(*self) && is_call(
                    *self,
                    c,
                    StripeMethod::Get,
                    "subscriptions/"@ + subscription_id@,
                    Seq::empty(),
                ),
                Err(e) => e == StripeError::NotConfigured && !has_secret_key(*self),
            },
    {
        let params: Vec<(String, String)> = Vec::new();
        assert(param_views(params@) =~= Seq::<(Seq<char>, Seq<char>)>::empty());
        self.call(StripeMethod::Get, join2("subscriptions/", subscription_id), params)
    }
}

/// What the payment provider answered: whether the status is a success,
/// the status in words, and the body.
#[derive(Debug, Clone, PartialEq)]
pub struct StripeResponse {
    pub success: bool,
    pub status: String,
    pub body: String,
}

/// What is said of an answer that is no success.
pub open spec fn stripe_failure(path: Seq<char>, response: StripeResponse) -> Seq<char> {
    "Stripe API "@ + path + " failed with status "@ + response.status@ + ": "@ + response.body@
}

/// The body of an answer that is a success, to be read as the value that
/// the call asks for, or what is said of a failure.
pub fn parse_stripe_response(response: StripeResponse, path: &str) -> (body: Result<String, String>)
    ensures
        match body {
            Ok(text) => response.success && text == response.body,
            Err(message) => !response.success && message@ == stripe_failure(path@, response),
        },
{
    if response.success {
        return Ok(response.body);
    }
    let mut out = chars_of("Stripe API ");
    crate::text::push_str(&mut out, path);
    crate::text::push_str(&mut out, " failed with status ");
    crate::text::push_str(&mut out, response.status.as_str());
    crate::text::push_str(&mut out, ": ");
    crate::text::push_str(&mut out, response.body.as_str());
    Err(string_of(&out))
}

} // verus!
