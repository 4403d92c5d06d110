use vstd::prelude::*;
use crate::handlers::{Notice, Reply};
use crate::text::{
    chars_of, is_blank, split, split_chars, str_is_blank, string_of, string_of_range, texts, trim,
    trim_bounds, trimmed,
};

verus! {

/// The user that a bearer token was issued to.
#[derive(Debug, Clone, PartialEq)]
pub struct AuthenticatedUser {
    pub clerk_id: String,
}

/// The user that a key belongs to, as the backend knows it.
#[derive(Debug, Clone, PartialEq)]
pub struct ConvexUser {
    pub clerk_id: Option<String>,
}

/// The trimmed text of an optional header, or nothing where the header is
/// absent or blank.
pub open spec fn header_value(value: Option<&str>) -> Option<Seq<char>> {
    match value {
        Some(v) => if is_blank(v@) {
            None
        } else {
            Some(trim(v@))
        },
        None => None,
    }
}

/// The first piece that is not blank, trimmed.
pub open spec fn first_nonblank(pieces: Seq<Seq<char>>) -> Option<Seq<char>>
    decreases pieces.len(),
{
    if pieces.len() == 0 {
        None
    } else if !is_blank(pieces[0]) {
        Some(trim(pieces[0]))
    } else {
        first_nonblank(pieces.drop_first())
    }
}

/// The first address of a list of forwarding addresses: of the pieces
/// between the commas the first that is not blank, trimmed.
pub open spec fn first_forwarded(value: Option<&str>) -> Option<Seq<char>> {
    match value {
        Some(v) => first_nonblank(split(v@, ',')),
        None => None,
    }
}

fn first_forwarded_address(value: &str) -> (address: Option<String>)
    ensures
        match address {
            Some(a) => first_forwarded(Some(value)) == Some(a@),
            None => first_forwarded(Some(value)).is_none(),
        },
{
    let chars = chars_of(value);
    let pieces = split_chars(&chars, ',');
    let mut i: usize = 0;
    assert(texts(pieces@).skip(0) == texts(pieces@));
    while i < pieces.len()
        invariant
            i <= pieces.len(),
            texts(pieces@) == split(value@, ','),
            first_nonblank(texts(pieces@)) == first_nonblank(texts(pieces@).skip(i as int)),
        decreases pieces.len() - i,
    {
        assert(texts(pieces@).skip(i as int).drop_first() == texts(pieces@).skip(i + 1));
        assert(texts(pieces@).skip(i as int)[0] == pieces[i as int]@);
        let (a, b) = trim_bounds(&pieces[i]);
        if a < b {
            return Some(string_of_range(&pieces[i], a, b));
        }
        i += 1;
    }
    None
}

/// The name under which a client is counted. Where the proxy is trusted it
/// is the first address that the proxy names as forwarded for, or else the
/// address that it names as the real one; without those, or without trust,
/// it is the address of the socket, or `unknown` where that is not known.
pub open spec fn client_identity_of(
    forwarded_for: Option<&str>,
    real_ip: Option<&str>,
    socket_ip: Option<&str>,
    trust_proxy: bool,
) -> Seq<char> {
    if trust_proxy && first_forwarded(forwarded_for).is_some() {
        first_forwarded(forwarded_for).unwrap()
    } else if trust_proxy && header_value(real_ip).is_some() {
        header_value(real_ip).unwrap()
    } else {
        match socket_ip {
            Some(ip) => ip@,
            None => "unknown"@,
        }
    }
}

pub fn client_identity(
    forwarded_for: Option<&str>,
    real_ip: Option<&str>,
    socket_ip: Option<&str>,
    trust_proxy: bool,
) -> (identity: String)
    ensures
        identity@ == client_identity_of(forwarded_for, real_ip, socket_ip, trust_proxy),
{
    if trust_proxy {
        if let Some(value) = forwarded_for {
            if let Some(address) = first_forwarded_address(value) {
                return address;
            }
        }
        if let Some(value) = real_ip {
            let candidate = trimmed(value);
            if candidate.len() > 0 {
                return string_of(&candidate);
            }
        }
    }
    match socket_ip {
        Some(ip) => ip.to_owned(),
        None => "unknown".to_owned(),
    }
}

/// The key that a request presents: the header as it is, unless it is
/// absent or blank.
pub fn api_key_of(header: Option<&str>) -> (key: Result<&str, Reply>)
    ensures
        match key {
            Ok(k) => header == Some(k) && !is_blank(k@),
            Err(reply) => reply == Reply::Plain(Notice::ApiKeyRequired) && (header matches Some(h)
                ==> is_blank(h@)),
        },
{
    match header {
        Some(value) => {
            if str_is_blank(value) {
                Err(Reply::Plain(Notice::ApiKeyRequired))
            } else {
                Ok(value)
            }
        },
        None => Err(Reply::Plain(Notice::ApiKeyRequired)),
    }
}

/// What the backend said of a key: the user that it belongs to, that it
/// knows no such key, or nothing that could be read.
#[derive(Debug, PartialEq)]
pub enum ApiKeyLookup {
    User(ConvexUser),
    Unknown,
    Unreadable,
}

/// The user of a key, or the reply that refuses the request.
pub fn api_key_auth(lookup: Result<ApiKeyLookup, ()>) -> (user: Result<ConvexUser, Reply>)
    ensures
        user == match lookup {
            Ok(ApiKeyLookup::User(found)) => Ok::<ConvexUser, Reply>(found),
            Ok(ApiKeyLookup::Unknown) => Err(Reply::Plain(Notice::ApiKeyInvalid)),
            Ok(ApiKeyLookup::Unreadable) => Err(Reply::Plain(Notice::InternalServerError)),
            Err(_) => Err(Reply::Plain(Notice::InternalServerError)),
        },
{
    match lookup {
        Ok(ApiKeyLookup::User(found)) => Ok(found),
        Ok(ApiKeyLookup::Unknown) => Err(Reply::Plain(Notice::ApiKeyInvalid)),
        Ok(ApiKeyLookup::Unreadable) => Err(Reply::Plain(Notice::InternalServerError)),
        Err(_) => Err(Reply::Plain(Notice::InternalServerError)),
    }
}

/// The user of a request by key, for the handlers: the user has to have an
/// identifier that is not blank.
pub fn api_user_clerk_id(user: ConvexUser) -> (clerk_id: Result<String, Reply>)
    ensures
        clerk_id == match user.clerk_id {
            Some(id) => if is_blank(id@) {
                Err::<String, Reply>(Reply::Plain(Notice::MissingClerkId))
            } else {
                Ok(id)
            },
            None => Err(Reply::Plain(Notice::MissingClerkId)),
        },
{
    match user.clerk_id {
        Some(id) => {
            if str_is_blank(id.as_str()) {
                Err(Reply::Plain(Notice::MissingClerkId))
            } else {
                Ok(id)
            }
        },
        None => Err(Reply::Plain(Notice::MissingClerkId)),
    }
}

/// The user of a request by bearer token, or the reply that refuses it:
/// the request has to have the header, and the token to be verified.
pub fn require_auth(verified: Option<Result<String, ()>>) -> (user: Result<AuthenticatedUser, Reply>)
    ensures
        user == match verified {
            Some(Ok(subject)) => Ok::<AuthenticatedUser, Reply>(
                AuthenticatedUser { clerk_id: subject },
            ),
            _ => Err(Reply::Plain(Notice::Unauthorized)),
        },
{
    match verified {
        Some(Ok(subject)) => Ok(AuthenticatedUser { clerk_id: subject }),
        _ => Err(Reply::Plain(Notice::Unauthorized)),
    }
}

/// What is written to the backend about a signed-in user.
#[derive(Debug, Clone, PartialEq)]
pub struct UserSync {
    pub clerk_id: String,
    pub email: String,
}

/// What to write to the backend about a signed-in user, given the
/// primary address that the identity provider has for the user: nothing
/// without an address.
pub fn user_sync(clerk_id: &str, primary_email: Result<Option<String>, ()>) -> (sync: Option<
    UserSync,
>)
    ensures
        match sync {
            Some(s) => s.clerk_id@ == clerk_id@ && primary_email == Ok::<Option<String>, ()>(
                Some(s.email),
            ),
            None => !(primary_email matches Ok(Some(_))),
        },
{
    match primary_email {
        Ok(Some(email)) => Some(UserSync { clerk_id: clerk_id.to_owned(), email }),
        _ => None,
    }
}

/// The reply to a request that the limiter refused.
pub fn rate_limited() -> (reply: Reply)
    ensures
        reply == Reply::Plain(Notice::TooManyRequests),
{
    Reply::Plain(Notice::TooManyRequests)
}

} // verus!
