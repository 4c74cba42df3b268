//! The response classifier: what one upstream request came to.

use vstd::prelude::*;
use vstd::string::*;
use crate::model::{Response, ResponseView};
use crate::report::{Context, Report, ReportView, Severity};
use crate::status::{spec_status_phrase, status_phrase};

verus! {

/// Why a body could not be decoded into a batch.
#[derive(Debug, Clone, PartialEq, Eq)]
pub struct DecodeFailure {
    /// The decoder's complaint.
    pub message: String,
    /// The size of the raw body in bytes, where it is known.
    pub body_size: Option<u64>,
}

/// A [`DecodeFailure`] as a mathematical value.
pub struct DecodeFailureView {
    pub message: Seq<char>,
    pub body_size: Option<u64>,
}

impl View for DecodeFailure {
    type V = DecodeFailureView;

    open spec fn view(&self) -> DecodeFailureView {
        DecodeFailureView { message: self.message@, body_size: self.body_size }
    }
}

/// What reading the body of an answer gave.
#[derive(Debug, Clone, PartialEq, Eq)]
pub enum Body {
    /// The body held a batch.
    Decoded(Response),
    /// The body was to hold a batch and could not be decoded.
    Undecodable(DecodeFailure),
    /// The body as text.
    Text(String),
    /// The body was to be read as text and could not be read.
    Unreadable,
}

/// A [`Body`] as a mathematical value.
pub enum BodyView {
    Decoded(ResponseView),
    Undecodable(DecodeFailureView),
    Text(Seq<char>),
    Unreadable,
}

impl View for Body {
    type V = BodyView;

    open spec fn view(&self) -> BodyView {
        match *self {
            Body::Decoded(batch) => BodyView::Decoded(batch@),
            Body::Undecodable(failure) => BodyView::Undecodable(failure@),
            Body::Text(text) => BodyView::Text(text@),
            Body::Unreadable => BodyView::Unreadable,
        }
    }
}

/// The status with which the upstream hands out a batch.
pub const STATUS_OK: u16 = 200;

/// What is done with the body of an answer.
#[derive(Debug, Clone, Copy, PartialEq, Eq, Structural)]
pub enum BodyPlan {
    /// Decode it into a batch.
    Decode,
    /// Read it as text.
    ReadText,
}

/// The body of an answer with status 200 is decoded; any other is read as
/// text.
pub open spec fn spec_body_plan(status: u16) -> BodyPlan {
    if status == STATUS_OK {
        BodyPlan::Decode
    } else {
        BodyPlan::ReadText
    }
}

/// Decides what to do with the body of an answer.
pub fn body_plan(status: u16) -> (plan: BodyPlan)
    ensures
        plan == spec_body_plan(status),
{
    if status == STATUS_OK {
        BodyPlan::Decode
    } else {
        BodyPlan::ReadText
    }
}

impl BodyView {
    /// Whether this is what the plan for `status` gives: a decoded or
    /// undecodable body for status 200, a text or an unreadable body for any
    /// other.
    pub open spec fn answers(self, status: u16) -> bool {
        match spec_body_plan(status) {
            BodyPlan::Decode => self is Decoded || self is Undecodable,
            BodyPlan::ReadText => self is Text || self is Unreadable,
        }
    }
}

impl Body {
    /// Tells whether this body is what the plan for `status` gives.
    pub fn answers(&self, status: u16) -> (fits: bool)
        ensures
            fits == self@.answers(status),
    {
        match body_plan(status) {
            BodyPlan::Decode => match self {
                Body::Decoded(_) => true,
                Body::Undecodable(_) => true,
                _ => false,
            },
            BodyPlan::ReadText => match self {
                Body::Text(_) => true,
                Body::Unreadable => true,
                _ => false,
            },
        }
    }
}

/// What came back from one upstream request.
#[derive(Debug, Clone, PartialEq, Eq)]
pub enum Reply {
    /// No answer: the connection, the name lookup or the transfer failed.
    Unreachable { cause: String },
    /// An answer with a status, and what reading its body gave.
    Answered { status: u16, body: Body },
}

/// A [`Reply`] as a mathematical value.
pub enum ReplyView {
    Unreachable { cause: Seq<char> },
    Answered { status: u16, body: BodyView },
}

impl View for Reply {
    type V = ReplyView;

    open spec fn view(&self) -> ReplyView {
        match *self {
            Reply::Unreachable { cause } => ReplyView::Unreachable { cause: cause@ },
            Reply::Answered { status, body } => ReplyView::Answered { status, body: body@ },
        }
    }
}

impl ReplyView {
    /// The body of an answer is what the plan for its status gives.
    pub open spec fn well_formed(self) -> bool {
        self matches ReplyView::Answered { status, body } ==> body.answers(status)
    }
}

/// What one upstream request came to.
#[derive(Debug, Clone, PartialEq, Eq)]
pub enum PollOutcome {
    /// A batch of questions.
    Success(Response),
    /// An answer with another status than 200, and its body if it could be
    /// read.
    ApiError(u16, Option<String>),
    /// No answer at all.
    TransportError(String),
    /// An answer with status 200 whose body held no batch.
    DecodeError(DecodeFailure),
}

/// A [`PollOutcome`] as a mathematical value.
pub enum PollOutcomeView {
    Success(ResponseView),
    ApiError(u16, Option<Seq<char>>),
    TransportError(Seq<char>),
    DecodeError(DecodeFailureView),
}

impl View for PollOutcome {
    type V = PollOutcomeView;

    open spec fn view(&self) -> PollOutcomeView {
        match *self {
            PollOutcome::Success(batch) => PollOutcomeView::Success(batch@),
            PollOutcome::ApiError(status, body) => PollOutcomeView::ApiError(
                status,
                match body {
                    Some(text) => Some(text@),
                    None => None,
                },
            ),
            PollOutcome::TransportError(cause) => PollOutcomeView::TransportError(cause@),
            PollOutcome::DecodeError(failure) => PollOutcomeView::DecodeError(failure@),
        }
    }
}

/// The outcome of a reply. No answer is a transport error. A decoded batch
/// is a success and is kept as it came; a body that could not be decoded is
/// a decode error. An answer with another status is an API error, with its
/// body if that could be read.
pub open spec fn spec_classify(reply: ReplyView) -> PollOutcomeView
    recommends
        reply.well_formed(),
{
    match reply {
        ReplyView::Unreachable { cause } => PollOutcomeView::TransportError(cause),
        ReplyView::Answered { status, body } => match body {
            BodyView::Decoded(batch) => PollOutcomeView::Success(batch),
            BodyView::Undecodable(failure) => PollOutcomeView::DecodeError(failure),
            BodyView::Text(text) => PollOutcomeView::ApiError(status, Some(text)),
            BodyView::Unreadable => PollOutcomeView::ApiError(status, None),
        },
    }
}

/// Classifies what came back from one upstream request.
pub fn classify(reply: Reply) -> (outcome: PollOutcome)
    requires
        reply@.well_formed(),
    ensures
        outcome@ == spec_classify(reply@),
        outcome is Success <==> (reply matches Reply::Answered { status, body } && status
            == STATUS_OK && body is Decoded),
        outcome is DecodeError <==> (reply matches Reply::Answered { status, body } && status
            == STATUS_OK && body is Undecodable),
        outcome is ApiError <==> (reply matches Reply::Answered { status, .. } && status
            != STATUS_OK),
        outcome is TransportError <==> reply is Unreachable,
{
    match reply {
        Reply::Unreachable { cause } => PollOutcome::TransportError(cause),
        Reply::Answered { status, body } => match body {
            Body::Decoded(batch) => PollOutcome::Success(batch),
            Body::Undecodable(failure) => PollOutcome::DecodeError(failure),
            Body::Text(text) => PollOutcome::ApiError(status, Some(text)),
            Body::Unreadable => PollOutcome::ApiError(status, None),
        },
    }
}

/// The message that stands for an error body that could not be read.
pub open spec fn spec_no_body_message(status_text: Seq<char>) -> Seq<char> {
    "Call failed with status "@ + status_text + " and no body."@
}

/// Builds the message that stands for an error body that could not be read,
/// from the status as it reads in a message.
pub fn no_body_message(status_text: &str) -> (message: String)
    ensures
        message@ == spec_no_body_message(status_text@),
{
    let mut message = String::from_str("Call failed with status ");
    message.append(status_text);
    message.append(" and no body.");
    message
}

/// The message that tells of a transport error.
pub open spec fn spec_transport_message(cause: Seq<char>, url: Seq<char>) -> Seq<char> {
    "Failed with error: "@ + cause + ", on stackoverflow_url: "@ + url
}

/// What is reported of an outcome of the request for `url`. A success is
/// not reported. A transport error is a warning. The rest are errors: a
/// decode error with the decoder's complaint and the body's size, an API
/// error with the body word for word and the status, or, where there is no
/// body, with the message that says so.
pub open spec fn spec_outcome_report(outcome: PollOutcomeView, url: Seq<char>) -> Option<
    ReportView,
> {
    match outcome {
        PollOutcomeView::Success(_) => None,
        PollOutcomeView::TransportError(cause) => Some(
            ReportView {
                severity: Severity::Warning,
                message: spec_transport_message(cause, url),
                context: Context::Nothing,
            },
        ),
        PollOutcomeView::DecodeError(failure) => Some(
            ReportView {
                severity: Severity::Error,
                message: failure.message,
                context: match failure.body_size {
                    Some(size) => Context::BodySize(size),
                    None => Context::Nothing,
                },
            },
        ),
        PollOutcomeView::ApiError(status, Some(text)) => Some(
            ReportView {
                severity: Severity::Error,
                message: text,
                context: Context::HttpStatus(status),
            },
        ),
        PollOutcomeView::ApiError(status, None) => Some(
            ReportView {
                severity: Severity::Error,
                message: spec_no_body_message(spec_status_phrase(status)),
                context: Context::Nothing,
            },
        ),
    }
}

/// Builds the report of an outcome of the request for `url`, if it is one
/// to report.
pub fn outcome_report(outcome: &PollOutcome, url: &str) -> (report: Option<Report>)
    ensures
        report is Some <==> !(outcome is Success),
        match report {
            Some(r) => Some(r@),
            None => None,
        } == spec_outcome_report(outcome@, url@),
{
    match outcome {
        PollOutcome::Success(_) => None,
        PollOutcome::TransportError(cause) => {
            let mut message = String::from_str("Failed with error: ");
            message.append(cause.as_str());
            message.append(", on stackoverflow_url: ");
            message.append(url);
            Some(Report { severity: Severity::Warning, message, context: Context::Nothing })
        },
        PollOutcome::DecodeError(failure) => {
            let context = match failure.body_size {
                Some(size) => Context::BodySize(size),
                None => Context::Nothing,
            };
            Some(Report { severity: Severity::Error, message: failure.message.clone(), context })
        },
        PollOutcome::ApiError(status, Some(text)) => Some(
            Report {
                severity: Severity::Error,
                message: text.clone(),
                context: Context::HttpStatus(*status),
            },
        ),
        PollOutcome::ApiError(status, None) => {
            let phrase = status_phrase(*status);
            Some(
                Report {
                    severity: Severity::Error,
                    message: no_body_message(phrase.as_str()),
                    context: Context::Nothing,
                },
            )
        },
    }
}

} // verus!
