//! Refreshing the tokens with which OpenAI is asked.
//!
//! The request names the public client of the Codex command line and asks for a fixed scope. The
//! answer holds a new access token and, as a rule, new refresh and identity tokens, of which all
//! three are worth keeping.

use vstd::prelude::*;
use vstd::utf8::encode_utf8;
use crate::double::{law_cut_drops_the_fraction, one, Double};
use crate::error::{AppError, AppErrorView};
use crate::http::{is_success, success_status};
use crate::json::{as_double, index, json_parsed, json_tree, parse, JsonNumber, JsonTree};
use crate::nearest::{
    law_negative_integers_cut_to_zero, law_one_double_is_nearest, nearest_double,
};
use crate::text::join;

verus! {

pub const TOKEN_URL: &'static str = "https://auth.openai.com/oauth/token";

pub const CLIENT_ID: &'static str = "app_EMoamEEZ73f0CkXaXp7hrann";

pub const SCOPE: &'static str = "openid profile email";

/// How many seconds before it expires a token is renewed.
pub const REFRESH_BUFFER_SECS: i64 = 300;

/// The body of the request.
#[derive(Debug, Clone, PartialEq, Eq)]
pub struct RefreshRequest {
    pub client_id: String,
    pub grant_type: String,
    pub refresh_token: String,
    pub scope: String,
}

/// The request: where it goes, its headers, and its body.
#[derive(Debug, Clone, PartialEq, Eq)]
pub struct RefreshCall {
    pub url: String,
    pub headers: Vec<(String, String)>,
    pub body: RefreshRequest,
}

#[derive(Debug, Clone, PartialEq, Eq)]
pub struct RefreshResponse {
    pub access_token: String,
    pub refresh_token: Option<String>,
    pub id_token: Option<String>,
    pub expires_in: Option<u64>,
}

/// What came of the request. `parsed` is what deserializing the body gave, or the text of its
/// error.
pub enum RefreshReply {
    Failed(AppError),
    Answered { status: u16, body: String, parsed: Result<RefreshResponse, String> },
}

/// The description that a JSON document gives of an error.
pub open spec fn described_in(t: JsonTree) -> Option<Seq<char>> {
    t.entry("error_description"@).as_text()
}

/// The description of an error in a body.
pub open spec fn description_of(body: Seq<char>) -> Option<Seq<char>> {
    match json_parsed(encode_utf8(body)) {
        Ok(t) => described_in(t),
        Err(_) => None,
    }
}

/// The error that a refusal stands for.
pub open spec fn refusal_of(status: u16, description: Option<Seq<char>>) -> AppErrorView {
    AppErrorView::Http {
        status,
        body: match description {
            Some(d) => d,
            None => "Refresh failed"@,
        },
    }
}

impl RefreshReply {
    /// The tokens where a reply holds some, else the error it stands for.
    pub open spec fn tokens(self) -> Result<RefreshResponse, AppErrorView> {
        match self {
            RefreshReply::Failed(e) => Err(e@),
            RefreshReply::Answered { status, body, parsed } => if !success_status(status) {
                Err(refusal_of(status, description_of(body@)))
            } else {
                match parsed {
                    Ok(tokens) => Ok(tokens),
                    Err(e) => Err(
                        AppErrorView::Schema(
                            "openai token response: "@ + e@ + "; body: "@ + body@,
                        ),
                    ),
                }
            },
        }
    }
}

/// The number of seconds that a JSON value stands for: a number without its fraction, kept
/// within `u64`. Anything that is no number stands for none.
pub open spec fn lifetime_secs(t: JsonTree) -> Option<u64> {
    match t.as_unsigned() {
        Some(n) => Some(n),
        None => match t.as_double() {
            Some(bits) => Some((Double { bits }).cut(0, u64::MAX as int) as u64),
            None => None,
        },
    }
}

/// Reads the number of seconds after which a token expires.
pub fn de_expires_in(v: &serde_json::Value) -> (r: Option<u64>)
    ensures
        r == lifetime_secs(json_tree(*v)),
        json_tree(*v) matches JsonTree::Number(JsonNumber::Negative(n)) ==> n < 0 ==> r == Some(
            0u64,
        ),
{
    match v.as_u64() {
        Some(n) => Some(n),
        None => match as_double(v) {
            Some(d) => {
                proof {
                    if let JsonTree::Number(JsonNumber::Negative(n)) = json_tree(*v) {
                        if n < 0 {
                            law_negative_integers_cut_to_zero(d, n as int, u64::MAX as int);
                        }
                    }
                }
                Some(d.to_u64())
            },
            None => None,
        },
    }
}

/// Builds the request for new tokens.
pub fn refresh_call(endpoint: &str, refresh_token: &str) -> (c: RefreshCall)
    ensures
        c.url@ == endpoint@,
        c.headers@.map_values(|h: (String, String)| (h.0@, h.1@)) == seq![
            ("Content-Type"@, "application/json"@),
        ],
        c.body.client_id@ == CLIENT_ID@,
        c.body.grant_type@ == "refresh_token"@,
        c.body.refresh_token@ == refresh_token@,
        c.body.scope@ == SCOPE@,
{
    let mut headers: Vec<(String, String)> = Vec::new();
    headers.push(("Content-Type".to_string(), "application/json".to_string()));
    RefreshCall {
        url: endpoint.to_string(),
        headers,
        body: RefreshRequest {
            client_id: CLIENT_ID.to_string(),
            grant_type: "refresh_token".to_string(),
            refresh_token: refresh_token.to_string(),
            scope: SCOPE.to_string(),
        },
    }
}

/// Reads the description of an error from a document.
pub fn read_description(v: &serde_json::Value) -> (r: Option<String>)
    ensures
        match described_in(json_tree(*v)) {
            Some(d) => r is Some && r->0@ == d,
            None => r is None,
        },
{
    match index(v, "error_description").as_str() {
        Some(d) => Some(d.to_string()),
        None => None,
    }
}

/// Reads the description of an error from a body.
pub fn parse_error_body(body: &str) -> (r: Option<String>)
    ensures
        match description_of(body@) {
            Some(d) => r is Some && r->0@ == d,
            None => r is None,
        },
{
    match parse(body.as_bytes()) {
        Ok(v) => read_description(&v),
        Err(_) => None,
    }
}

/// The error that a refusal stands for.
pub fn refusal(status: u16, description: Option<String>) -> (e: AppError)
    ensures
        e@ == refusal_of(
            status,
            match description {
                Some(d) => Some(d@),
                None => None,
            },
        ),
        e matches AppError::Http { status: told, body } && {
            &&& told == status
            &&& description matches Some(d) ==> body@ == d@
            &&& description is None ==> body@ == "Refresh failed"@
        },
{
    AppError::Http {
        status,
        body: match description {
            Some(d) => d,
            None => "Refresh failed".to_string(),
        },
    }
}

/// Takes the reply to a request for new tokens.
pub fn refresh(reply: RefreshReply) -> (r: Result<RefreshResponse, AppError>)
    ensures
        match reply.tokens() {
            Ok(tokens) => r == Ok::<RefreshResponse, AppError>(tokens),
            Err(e) => r is Err && r->Err_0@ == e,
        },
        reply matches RefreshReply::Failed(e) ==> r == Err::<RefreshResponse, AppError>(e),
        reply matches RefreshReply::Answered { status, body, parsed } ==> !(200 <= status < 300)
            ==> (r matches Err(AppError::Http { status: told, body: text }) && {
            &&& told == status
            &&& description_of(body@) matches Some(d) ==> text@ == d
            &&& description_of(body@) is None ==> text@ == "Refresh failed"@
        }),
        reply matches RefreshReply::Answered { status, body, parsed: Ok(tokens) } ==> 200 <= status
            < 300 ==> r == Ok::<RefreshResponse, AppError>(tokens),
        reply matches RefreshReply::Answered { status, body, parsed: Err(e) } ==> 200 <= status
            < 300 ==> (r matches Err(AppError::Schema(text)) && text@ == "openai token response: "@
            + e@ + "; body: "@ + body@),
{
    match reply {
        RefreshReply::Failed(e) => Err(e),
        RefreshReply::Answered { status, body, parsed } => {
            if !is_success(status) {
                return Err(refusal(status, parse_error_body(body.as_str())));
            }
            match parsed {
                Ok(tokens) => Ok(tokens),
                Err(e) => {
                    let what = join("openai token response: ", e.as_str());
                    let told = join(what.as_str(), "; body: ");
                    Err(AppError::Schema(join(told.as_str(), body.as_str())))
                },
            }
        },
    }
}

/// A token that expires at one time has to be renewed at another.
pub open spec fn refresh_due(expires_at_secs: int, now_secs: int) -> bool {
    expires_at_secs < now_secs + REFRESH_BUFFER_SECS
}

/// Tells whether a token has to be renewed.
pub fn needs_refresh(expires_at_secs: i64, now_secs: i64) -> (due: bool)
    requires
        now_secs + REFRESH_BUFFER_SECS <= i64::MAX,
    ensures
        due == refresh_due(expires_at_secs as int, now_secs as int),
        due <==> expires_at_secs - now_secs < 300,
{
    expires_at_secs < now_secs + REFRESH_BUFFER_SECS
}

/// Tokens that came with a success are handed on as they are: all four fields are unchanged,
/// whichever of them are missing. Nothing else is ever taken for tokens.
pub proof fn law_tokens_are_handed_on(reply: RefreshReply)
    ensures
        reply.tokens() is Ok <==> {
            &&& reply matches RefreshReply::Answered { status, body, parsed } && 200 <= status < 300
                && parsed is Ok
        },
        reply matches RefreshReply::Answered { status, body, parsed: Ok(t) } ==> 200 <= status < 300
            ==> (reply.tokens() matches Ok(tokens) && {
            &&& tokens.access_token@ == t.access_token@
            &&& tokens.refresh_token == t.refresh_token
            &&& tokens.id_token == t.id_token
            &&& tokens.expires_in == t.expires_in
        }),
{
}

/// A refusal keeps its status, and is told in the words of the body where it describes the error:
/// whatever tokens could be read from the body are not used.
pub proof fn law_refusal_of_tokens_is_an_error(
    status: u16,
    body: String,
    parsed: Result<RefreshResponse, String>,
    other: Result<RefreshResponse, String>,
)
    requires
        status < 200 || status >= 300,
    ensures
        ({
            let r = (RefreshReply::Answered { status, body, parsed }).tokens();
            &&& r == (RefreshReply::Answered { status, body, parsed: other }).tokens()
            &&& r is Err
            &&& r->Err_0 matches AppErrorView::Http { status: told, body: text } && {
                &&& told == status
                &&& text == match description_of(body@) {
                    Some(d) => d,
                    None => "Refresh failed"@,
                }
            }
        }),
{
}

/// A success whose tokens could not be read tells why and what came; a request that failed tells
/// its own error.
pub proof fn law_unread_tokens_tell_why(reply: RefreshReply)
    ensures
        reply matches RefreshReply::Failed(e) ==> reply.tokens() == Err::<
            RefreshResponse,
            AppErrorView,
        >(e@),
        reply matches RefreshReply::Answered { status, body, parsed: Err(e) } ==> 200 <= status
            < 300 ==> reply.tokens() == Err::<RefreshResponse, AppErrorView>(
            AppErrorView::Schema("openai token response: "@ + e@ + "; body: "@ + body@),
        ),
{
}

/// The description of an error is the text under `error_description` in a body that is a JSON
/// object; any other body has none.
pub proof fn law_descriptions_are_texts_in_objects(body: Seq<char>)
    ensures
        json_parsed(encode_utf8(body)) matches Ok(JsonTree::Object(m)) ==> m.contains_key(
            "error_description"@,
        ) && m["error_description"@] is Text ==> description_of(body) == Some(
            m["error_description"@]->Text_0,
        ),
        json_parsed(encode_utf8(body)) matches Ok(JsonTree::Object(m)) ==> !(m.contains_key(
            "error_description"@,
        ) && m["error_description"@] is Text) ==> description_of(body) is None,
        !(json_parsed(encode_utf8(body)) is Ok && json_parsed(encode_utf8(body))->Ok_0 is Object)
            ==> description_of(body) is None,
{
}

/// An integer that is a lifetime is taken as it is, and a negative one as none left. Other
/// numbers lose their fraction and stay within bounds; what is no number is no lifetime.
pub proof fn law_lifetimes_are_numbers(t: JsonTree)
    ensures
        t matches JsonTree::Number(JsonNumber::Unsigned(n)) ==> lifetime_secs(t) == Some(n),
        t matches JsonTree::Number(JsonNumber::Negative(n)) ==> n < 0 ==> lifetime_secs(t) == Some(
            0u64,
        ),
        t matches JsonTree::Number(JsonNumber::Float(bits)) ==> (Double { bits }).is_finite() ==> {
            let d = Double { bits };
            &&& lifetime_secs(t) is Some
            &&& d.units() <= 0 ==> lifetime_secs(t) == Some(0u64)
            &&& d.units() >= u64::MAX * one() ==> lifetime_secs(t) == Some(u64::MAX)
            &&& 0 < d.units() < u64::MAX * one() ==> {
                let kept = lifetime_secs(t)->0 * one();
                0 <= d.units() - kept < one()
            }
        },
        !(t is Number) ==> lifetime_secs(t) is None,
{
    if let JsonTree::Number(JsonNumber::Negative(n)) = t {
        if n < 0 {
            law_one_double_is_nearest(n as int);
            law_negative_integers_cut_to_zero(
                Double { bits: nearest_double(n as int) },
                n as int,
                u64::MAX as int,
            );
        }
    }
    if let JsonTree::Number(JsonNumber::Float(bits)) = t {
        if (Double { bits }).is_finite() {
            law_cut_drops_the_fraction(Double { bits }, 0, u64::MAX as int);
        }
    }
}

/// A token that has to be renewed still has to be later, and so has one that expires earlier.
pub proof fn law_refresh_stays_due(expires: int, now: int, sooner: int, later: int)
    requires
        refresh_due(expires, now),
        sooner <= expires,
        now <= later,
    ensures
        refresh_due(sooner, later),
{
}

/// A token has been renewed by the time it expires, and the time left is the buffer at least
/// where it need not be.
pub proof fn law_refresh_precedes_expiry(expires: int, now: int)
    ensures
        now >= expires ==> refresh_due(expires, now),
        !refresh_due(expires, now) <==> expires - now >= 300,
{
}

}
