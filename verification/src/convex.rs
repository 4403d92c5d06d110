use vstd::prelude::*;
use crate::json::{json_view, prune_null_object_fields, pruned, JsonValue, JsonView};
use crate::text::{
    chars_of, push_chars, push_str, str_eq, string_of, trim_end_matches, trim_end_matches_bound,
};

verus! {

/// The settings of the backend's client.
#[derive(Debug, Clone, PartialEq)]
pub struct ConvexClient {
    pub base_url: String,
}

/// The two kinds of function that the backend offers.
#[derive(Debug, Clone, Copy, PartialEq, Eq, Structural)]
pub enum CallKind {
    Query,
    Action,
}

pub open spec fn call_kind_name(kind: CallKind) -> Seq<char> {
    match kind {
        CallKind::Query => "query"@,
        CallKind::Action => "action"@,
    }
}

impl CallKind {
    pub fn name(self) -> (name: &'static str)
        ensures
            name@ == call_kind_name(self),
    {
        match self {
            CallKind::Query => "query",
            CallKind::Action => "action",
        }
    }
}

/// What the backend answered: the status of the answer over HTTP, and of
/// its JSON body the members `status` and `errorMessage`, where they are
/// strings, and the member `value` as JSON text, where it is there.
#[derive(Debug, Clone, PartialEq)]
pub struct ConvexResponse {
    pub http_status: u16,
    pub status: Option<String>,
    pub value: Option<String>,
    pub error_message: Option<String>,
}

/// Why a call of the backend gave no value.
#[derive(Debug, Clone, PartialEq)]
pub enum ConvexError {
    /// The answer has a status that is neither a success nor 560.
    Http { status: u16 },
    /// The function failed, with these words.
    Function { message: String },
    /// The answer is neither a success nor an error.
    Invalid,
}

/// Whether an answer with this status over HTTP is read at all: a success,
/// or the status 560, under which the backend reports the failure of a
/// function.
pub open spec fn is_readable_status(http_status: u16) -> bool {
    (200 <= http_status <= 299) || http_status == 560
}

/// Whether `outcome` is what the answer means: the value of a success,
/// `null` where it has none; the words of an error, or `Convex function
/// error` where it has none.
pub open spec fn interprets(response: ConvexResponse, outcome: Result<String, ConvexError>) -> bool {
    if !is_readable_status(response.http_status) {
        outcome matches Err(ConvexError::Http { status }) && status == response.http_status
    } else if response.status matches Some(s) && s@ == "success"@ {
        outcome matches Ok(value) && value@ == match response.value {
            Some(v) => v@,
            None => "null"@,
        }
    } else if response.status matches Some(s) && s@ == "error"@ {
        outcome matches Err(ConvexError::Function { message }) && message@
            == match response.error_message {
            Some(m) => m@,
            None => "Convex function error"@,
        }
    } else {
        outcome matches Err(ConvexError::Invalid)
    }
}

/// The value that the backend's answer holds, as JSON text, or why it
/// holds none.
pub fn interpret_response(response: ConvexResponse) -> (outcome: Result<String, ConvexError>)
    ensures
        interprets(response, outcome),
{
    let status = response.http_status;
    if !((status >= 200 && status <= 299) || status == 560) {
        return Err(ConvexError::Http { status });
    }
    let word = match &response.status {
        Some(s) => if str_eq(s.as_str(), "success") {
            1u8
        } else if str_eq(s.as_str(), "error") {
            2u8
        } else {
            0u8
        },
        None => 0u8,
    };
    if word == 1 {
        Ok(
            match response.value {
                Some(v) => v,
                None => "null".to_owned(),
            },
        )
    } else if word == 2 {
        proof {
            reveal_strlit("success");
            reveal_strlit("error");
        }
        Err(
            ConvexError::Function {
                message: match response.error_message {
                    Some(m) => m,
                    None => "Convex function error".to_owned(),
                },
            },
        )
    } else {
        Err(ConvexError::Invalid)
    }
}

impl ConvexClient {
    pub fn new(base_url: String) -> (client: ConvexClient)
        ensures
            client.base_url == base_url,
    {
        ConvexClient { base_url }
    }

    /// The address to which calls of a kind are posted.
    pub fn endpoint(&self, kind: CallKind) -> (url: String)
        ensures
            url@ == trim_end_matches(self.base_url@, '/') + "/api/"@ + call_kind_name(kind),
    {
        let chars = chars_of(self.base_url.as_str());
        assert(chars@.subrange(0, chars.len() as int) == chars@);
        let end = trim_end_matches_bound(&chars, 0, chars.len(), '/');
        let mut out: Vec<char> = Vec::new();
        push_chars(&mut out, &chars, 0, end);
        push_str(&mut out, "/api/");
        push_str(&mut out, kind.name());
        string_of(&out)
    }
}


/// The version of the client that calls of the backend name.
pub open spec fn client_version() -> Seq<char> {
    "npm-1.26.2"@
}

/// The value of the header `Convex-Client`.
pub fn convex_client_header() -> (value: &'static str)
    ensures
        value@ == client_version(),
{
    "npm-1.26.2"
}

/// The body of a call of the backend's function at `path` with the
/// arguments `args`: the path, the format of the arguments, and the
/// arguments without their null members as the one item of a list.
pub open spec fn call_body(path: Seq<char>, args: JsonView) -> JsonView {
    JsonView::Object(
        seq![
            ("path"@, JsonView::Text(path)),
            ("format"@, JsonView::Text("convex_encoded_json"@)),
            ("args"@, JsonView::Array(seq![pruned(args)])),
        ],
    )
}

pub fn request_body(path: &str, args: &JsonValue) -> (body: JsonValue)
    ensures
        json_view(body) == call_body(path@, json_view(*args)),
{
    let clean = prune_null_object_fields(args);
    let mut list: Vec<JsonValue> = Vec::new();
    list.push(clean);
    let path_value = JsonValue::Text(path.to_owned());
    let format_value = JsonValue::Text("convex_encoded_json".to_owned());
    let args_value = JsonValue::Array(list);
    assert(json_view(path_value) == JsonView::Text(path@));
    assert(json_view(format_value) == JsonView::Text("convex_encoded_json"@));
    assert(json_view(args_value)->Array_0 =~= seq![pruned(json_view(*args))]);
    assert(json_view(args_value) == JsonView::Array(seq![pruned(json_view(*args))]));
    let mut members: Vec<(String, JsonValue)> = Vec::new();
    members.push(("path".to_owned(), path_value));
    members.push(("format".to_owned(), format_value));
    members.push(("args".to_owned(), args_value));
    let body = JsonValue::Object(members);
    assert(json_view(body)->Object_0[0] == ("path"@, json_view(path_value)));
    assert(json_view(body)->Object_0[1] == ("format"@, json_view(format_value)));
    assert(json_view(body)->Object_0[2] == ("args"@, json_view(args_value)));
    assert(json_view(body)->Object_0 =~= call_body(path@, json_view(*args))->Object_0);
    body
}

} // verus!
