//! Requests to the vendors and what comes back.

use vstd::prelude::*;
use crate::error::{AppError, AppErrorView};
use crate::text::{body_excerpt, excerpt_of, join, lossy_utf8};

verus! {

/// How many seconds a vendor has to answer.
pub const HTTP_TIMEOUT_SECS: u64 = 10;

/// A request without a body.
#[derive(Debug, Clone, PartialEq, Eq)]
pub struct GetRequest {
    pub url: String,
    pub headers: Vec<(String, String)>,
    pub timeout_secs: u64,
}

/// A request with its texts as sequences of characters.
#[verifier::ext_equal]
pub struct GetRequestView {
    pub url: Seq<char>,
    pub headers: Seq<(Seq<char>, Seq<char>)>,
    pub timeout_secs: u64,
}

impl View for GetRequest {
    type V = GetRequestView;

    open spec fn view(&self) -> GetRequestView {
        GetRequestView {
            url: self.url@,
            headers: self.headers@.map_values(|h: (String, String)| (h.0@, h.1@)),
            timeout_secs: self.timeout_secs,
        }
    }
}

/// What came of a request. `parsed` is what deserializing the body gave, or the text of its
/// error.
pub enum Reply<T> {
    TimedOut,
    Failed(AppError),
    Response { status: u16, body: Vec<u8>, parsed: Result<T, String> },
}

pub open spec fn success_status(status: u16) -> bool {
    200 <= status < 300
}

impl<T> Reply<T> {
    /// The body and the value in it, where a reply is a success, else the error it stands for.
    pub open spec fn settled(self, timeout: Seq<char>, schema: Seq<char>) -> Result<
        (Seq<u8>, T),
        AppErrorView,
    > {
        match self {
            Reply::TimedOut => Err(AppErrorView::Transport(timeout)),
            Reply::Failed(e) => Err(e@),
            Reply::Response { status, body, parsed } => if !success_status(status) {
                Err(AppErrorView::Http { status, body: excerpt_of(lossy_utf8(body@)) })
            } else {
                match parsed {
                    Ok(value) => Ok((body@, value)),
                    Err(e) => Err(AppErrorView::Schema(schema + e@)),
                }
            },
        }
    }
}

/// A body with the value in it, or an error, with texts as sequences.
pub open spec fn settled_view<T>(r: Result<(Vec<u8>, T), AppError>) -> Result<
    (Seq<u8>, T),
    AppErrorView,
> {
    match r {
        Ok(live) => Ok((live.0@, live.1)),
        Err(e) => Err(e@),
    }
}

pub fn is_success(status: u16) -> (success: bool)
    ensures
        success == success_status(status),
        success <==> 200 <= status < 300,
{
    200 <= status && status < 300
}

/// Takes a reply for what it is: a status that is no success is an error with an excerpt of the
/// body, and a body that cannot be read is a schema error, which begins with `schema`.
pub fn settle<T>(reply: Reply<T>, timeout: String, schema: &str) -> (r: Result<
    (Vec<u8>, T),
    AppError,
>)
    ensures
        settled_view(r) == reply.settled(timeout@, schema@),
        reply is TimedOut ==> (r matches Err(AppError::Transport(text)) && text@ == timeout@),
        reply matches Reply::Failed(e) ==> r == Err::<(Vec<u8>, T), AppError>(e),
        reply matches Reply::Response { status, body, parsed } ==> !(200 <= status < 300)
            ==> (r matches Err(AppError::Http { status: told, body: text }) && {
            let whole = lossy_utf8(body@);
            &&& told == status
            &&& text@.len() == if whole.len() < 200 { whole.len() } else { 200 }
            &&& text@ == whole.take(text@.len() as int)
        }),
        reply matches Reply::Response { status, body, parsed: Ok(value) } ==> 200 <= status < 300
            ==> r == Ok::<(Vec<u8>, T), AppError>((body, value)),
        reply matches Reply::Response { status, body, parsed: Err(e) } ==> 200 <= status < 300
            ==> (r matches Err(AppError::Schema(text)) && text@ == schema@ + e@),
{
    match reply {
        Reply::TimedOut => Err(AppError::Transport(timeout)),
        Reply::Failed(e) => Err(e),
        Reply::Response { status, body, parsed } => {
            if !is_success(status) {
                let text = body_excerpt(body.as_slice());
                assert(text@ =~= lossy_utf8(body@).take(text@.len() as int));
                return Err(AppError::Http { status, body: text });
            }
            match parsed {
                Ok(value) => Ok((body, value)),
                Err(e) => Err(AppError::Schema(join(schema, e.as_str()))),
            }
        },
    }
}

/// A status that is no success is an error with that very status and the beginning of the body,
/// whatever could be read from the body: two such replies that differ in `parsed` alone come to
/// the same.
pub proof fn law_refusal_is_an_error<T>(
    status: u16,
    body: Vec<u8>,
    parsed: Result<T, String>,
    other: Result<T, String>,
    timeout: Seq<char>,
    schema: Seq<char>,
)
    requires
        status < 200 || status >= 300,
    ensures
        ({
            let r = (Reply::Response { status, body, parsed }).settled(timeout, schema);
            let text = lossy_utf8(body@);
            &&& r == (Reply::Response { status, body, parsed: other }).settled(timeout, schema)
            &&& r is Err
            &&& r->Err_0 matches AppErrorView::Http { status: told, body: shown } && {
                &&& told == status
                &&& shown.len() == if text.len() < 200 { text.len() } else { 200 }
                &&& forall|i: int|
                    0 <= i < text.len() && i < 200 ==> #[trigger] shown[i] == text[i]
            }
        }),
{
}

/// A reply counts as an answer exactly where it is a response with a status from 200 to 299 whose
/// body could be read, and the answer is that body with what was read from it.
pub proof fn law_answers_are_readable_successes<T>(
    reply: Reply<T>,
    timeout: Seq<char>,
    schema: Seq<char>,
)
    ensures
        reply.settled(timeout, schema) is Ok <==> {
            &&& reply matches Reply::Response { status, body, parsed } && 200 <= status < 300
                && parsed is Ok
        },
        reply.settled(timeout, schema) matches Ok(live) ==> {
            &&& live.0 == reply->body@
            &&& Ok::<T, String>(live.1) == reply->parsed
        },
{
}

/// Where no answer came, the error tells why: the vendor did not answer in time, the request
/// failed, or a successful body could not be read.
pub proof fn law_missing_answers_tell_why<T>(
    reply: Reply<T>,
    timeout: Seq<char>,
    schema: Seq<char>,
)
    ensures
        reply is TimedOut ==> reply.settled(timeout, schema) == Err::<(Seq<u8>, T), AppErrorView>(
            AppErrorView::Transport(timeout),
        ),
        reply matches Reply::Failed(e) ==> reply.settled(timeout, schema) == Err::<
            (Seq<u8>, T),
            AppErrorView,
        >(e@),
        reply matches Reply::Response { status, body, parsed: Err(e) } ==> 200 <= status < 300
            ==> reply.settled(timeout, schema) == Err::<(Seq<u8>, T), AppErrorView>(
            AppErrorView::Schema(schema + e@),
        ),
{
}

}
