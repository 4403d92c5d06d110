use vstd::prelude::*;
use crate::text::{
    chars_of, join2, join3, str_eq, string_of_range, trim_end_matches,
    trim_end_matches_bound,
};

verus! {

/// The settings of the identity provider's client.
#[derive(Debug, Clone, PartialEq)]
pub struct ClerkClient {
    pub api_base: String,
    /// The value of the authorization header, where a secret is configured.
    pub authorization: Option<String>,
}

#[derive(Debug, Clone, PartialEq)]
pub struct ClerkUser {
    pub primary_email_address_id: Option<String>,
    pub email_addresses: Vec<ClerkEmailAddress>,
}

#[derive(Debug, Clone, PartialEq)]
pub struct ClerkEmailAddress {
    pub id: String,
    pub email_address: String,
}

/// The first address with the identifier.
pub open spec fn address_with_id(addresses: Seq<ClerkEmailAddress>, id: Seq<char>) -> Option<
    String,
>
    decreases addresses.len(),
{
    if addresses.len() == 0 {
        None
    } else if addresses[0].id@ == id {
        Some(addresses[0].email_address)
    } else {
        address_with_id(addresses.drop_first(), id)
    }
}

/// The primary address of a user: the address that the user names as
/// primary, if it is among the user's addresses.
pub open spec fn primary_email(user: ClerkUser) -> Option<String> {
    match user.primary_email_address_id {
        Some(id) => address_with_id(user.email_addresses@, id@),
        None => None,
    }
}

pub fn get_primary_email(user: &ClerkUser) -> (email: Option<String>)
    ensures
        email == primary_email(*user),
{
    let primary_id = match &user.primary_email_address_id {
        Some(id) => id,
        None => {
            return None;
        },
    };
    let mut i: usize = 0;
    assert(user.email_addresses@.skip(0) == user.email_addresses@);
    while i < user.email_addresses.len()
        invariant
            i <= user.email_addresses.len(),
            user.primary_email_address_id == Some(*primary_id),
            primary_email(*user) == address_with_id(
                user.email_addresses@.skip(i as int),
                primary_id@,
            ),
        decreases user.email_addresses.len() - i,
    {
        assert(user.email_addresses@.skip(i as int).drop_first() == user.email_addresses@.skip(
            i + 1,
        ));
        if str_eq(user.email_addresses[i].id.as_str(), primary_id.as_str()) {
            return Some(user.email_addresses[i].email_address.clone());
        }
        i += 1;
    }
    None
}

impl ClerkClient {
    /// The client for the service at `api_base`, whose slashes at the end
    /// do not count, with the secret as a bearer token.
    pub fn new(api_base: String, secret_key: Option<&str>) -> (client: ClerkClient)
        ensures
            client.api_base@ == trim_end_matches(api_base@, '/'),
            match client.authorization {
                Some(value) => secret_key matches Some(secret) && value@ == "Bearer "@ + secret@,
                None => secret_key.is_none(),
            },
    {
        let chars = chars_of(api_base.as_str());
        assert(chars@.subrange(0, chars.len() as int) == chars@);
        let end = trim_end_matches_bound(&chars, 0, chars.len(), '/');
        let authorization = match secret_key {
            Some(secret) => Some(join2("Bearer ", secret)),
            None => None,
        };
        ClerkClient { api_base: string_of_range(&chars, 0, end), authorization }
    }

    /// The address of a user's record.
    pub fn user_url(&self, user_id: &str) -> (url: String)
        ensures
            url@ == self.api_base@ + "/users/"@ + user_id@,
    {
        join3(self.api_base.as_str(), "/users/", user_id)
    }
}

} // verus!
