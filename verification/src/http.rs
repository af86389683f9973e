//! Plain values exchanged with the transport layer: what came back for one
//! request, and why a reply is not usable.

use crate::text::decimal;
use crate::text::decimal_text;
use vstd::prelude::*;
use vstd::string::*;

verus! {

/// What the transport hands back for one request.
#[derive(Debug, Clone, PartialEq, Eq)]
pub enum HttpReply {
    /// The server answered: its status code and the whole body.
    Response { status: u16, body: Vec<u8> },
    /// No answer was received; `message` is the transport's error text.
    TransportError { message: String },
}

/// The mathematical content of an [`HttpReply`].
pub enum ReplyView {
    Response { status: u16, body: Seq<u8> },
    TransportError { message: Seq<char> },
}

impl View for HttpReply {
    type V = ReplyView;

    open spec fn view(&self) -> ReplyView {
        match self {
            HttpReply::Response { status, body } => ReplyView::Response { status: *status, body: body@ },
            HttpReply::TransportError { message } => ReplyView::TransportError { message: message@ },
        }
    }
}

/// Why a reply is not usable.
#[derive(Debug, Clone, PartialEq, Eq)]
pub enum ReplyFailure {
    /// The request did not get an answer.
    Transport(String),
    /// The server answered with a status outside 200..=299.
    Status(u16),
    /// The status was fine and the body is not what the endpoint promises.
    Malformed,
}

/// The mathematical content of a [`ReplyFailure`].
pub enum FailureView {
    Transport(Seq<char>),
    Status(u16),
    Malformed,
}

impl View for ReplyFailure {
    type V = FailureView;

    open spec fn view(&self) -> FailureView {
        match self {
            ReplyFailure::Transport(message) => FailureView::Transport(message@),
            ReplyFailure::Status(code) => FailureView::Status(*code),
            ReplyFailure::Malformed => FailureView::Malformed,
        }
    }
}

/// Whether an HTTP status code is in the successful class, 200 to 299.
pub open spec fn is_success(status: u16) -> bool {
    200 <= status < 300
}

/// The body of a successful reply, or the reason why the reply is none.
pub open spec fn checked_body(reply: ReplyView) -> Result<Seq<u8>, FailureView> {
    match reply {
        ReplyView::TransportError { message } => Err(FailureView::Transport(message)),
        ReplyView::Response { status, body } => if is_success(status) {
            Ok(body)
        } else {
            Err(FailureView::Status(status))
        },
    }
}

/// The words that describe a failure: `HTTP ` and the status code for a
/// refused request, the transport's own text for a request that got no
/// answer, and `malformed response body`.
pub open spec fn failure_text(failure: FailureView) -> Seq<char> {
    match failure {
        FailureView::Transport(message) => message,
        FailureView::Status(code) => "HTTP "@ + decimal_text(code as nat),
        FailureView::Malformed => "malformed response body"@,
    }
}

/// Whether a text parses as an absolute URL.
pub uninterp spec fn is_url(text: Seq<char>) -> bool;

/// `reqwest::Url::parse`, which parses an absolute URL from a string:
/// whether it accepts a text depends on the text alone.
#[verifier::external_body]
pub(crate) fn url_parses(text: &str) -> (ok: bool)
    ensures
        ok == is_url(text@),
{
    reqwest::Url::parse(text).is_ok()
}

/// Decides whether `status` is in the successful class.
pub fn status_is_success(status: u16) -> (ok: bool)
    ensures
        ok == is_success(status),
{
    200 <= status && status < 300
}

impl HttpReply {
    /// The body of a reply with a successful status, borrowed.
    pub fn body(&self) -> (r: Result<&Vec<u8>, ReplyFailure>)
        ensures
            r matches Ok(body) ==> checked_body(self@) == Ok::<Seq<u8>, FailureView>(body@),
            r matches Err(failure) ==> checked_body(self@) == Err::<Seq<u8>, FailureView>(failure@),
    {
        match self {
            HttpReply::TransportError { message } => Err(ReplyFailure::Transport(message.clone())),
            HttpReply::Response { status, body } => {
                if status_is_success(*status) {
                    Ok(body)
                } else {
                    Err(ReplyFailure::Status(*status))
                }
            },
        }
    }

    /// The body of a reply with a successful status. A transport error and
    /// any other status are failures, whatever the body holds.
    pub fn into_body(self) -> (r: Result<Vec<u8>, ReplyFailure>)
        ensures
            r matches Ok(body) ==> checked_body(self@) == Ok::<Seq<u8>, FailureView>(body@),
            r matches Err(failure) ==> checked_body(self@) == Err::<Seq<u8>, FailureView>(failure@),
    {
        match self {
            HttpReply::TransportError { message } => Err(ReplyFailure::Transport(message)),
            HttpReply::Response { status, body } => {
                if status_is_success(status) {
                    Ok(body)
                } else {
                    Err(ReplyFailure::Status(status))
                }
            },
        }
    }
}

impl ReplyFailure {
    /// The failure in words.
    pub fn describe(&self) -> (text: String)
        ensures
            text@ == failure_text(self@),
    {
        match self {
            ReplyFailure::Transport(message) => message.clone(),
            ReplyFailure::Status(code) => {
                let mut text = String::from_str("HTTP ");
                let numeral = decimal(*code as u64);
                text.append(numeral.as_str());
                text
            },
            ReplyFailure::Malformed => String::from_str("malformed response body"),
        }
    }
}

} // verus!
