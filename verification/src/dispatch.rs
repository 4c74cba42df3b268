//! The item dispatcher: what is sent for one question, and what is told of
//! the sending.

use vstd::prelude::*;
use vstd::string::*;
use crate::model::{Question, QuestionView};
use crate::report::{Context, Report, ReportView, Severity};

verus! {

/// The message that announces one question on the webhook.
#[derive(Debug, Clone, PartialEq, Eq)]
pub struct Notification {
    /// The line above the embed.
    pub content: String,
    /// The embed's headline.
    pub title: String,
    /// The name of the embed's one field.
    pub field_name: String,
    /// The value of that field.
    pub field_value: String,
    /// Whether the field is shown inline.
    pub field_inline: bool,
    /// The picture shown in the embed.
    pub image_url: String,
    /// The author block: name, link and icon.
    pub author_name: String,
    pub author_url: String,
    pub author_icon_url: Option<String>,
}

/// A [`Notification`] as a mathematical value.
pub struct NotificationView {
    pub content: Seq<char>,
    pub title: Seq<char>,
    pub field_name: Seq<char>,
    pub field_value: Seq<char>,
    pub field_inline: bool,
    pub image_url: Seq<char>,
    pub author_name: Seq<char>,
    pub author_url: Seq<char>,
    pub author_icon_url: Option<Seq<char>>,
}

impl View for Notification {
    type V = NotificationView;

    open spec fn view(&self) -> NotificationView {
        NotificationView {
            content: self.content@,
            title: self.title@,
            field_name: self.field_name@,
            field_value: self.field_value@,
            field_inline: self.field_inline,
            image_url: self.image_url@,
            author_name: self.author_name@,
            author_url: self.author_url@,
            author_icon_url: match self.author_icon_url {
                Some(url) => Some(url@),
                None => None,
            },
        }
    }
}

/// The message for a question: a fixed header line, the question's title as
/// headline, its link as an inline field named `link`, the owner's picture
/// as image, and the owner's name, profile link and picture as author.
pub open spec fn spec_notification(item: QuestionView) -> NotificationView {
    NotificationView {
        content: "New Question From Stack Overflow."@,
        title: item.title,
        field_name: "link"@,
        field_value: item.link,
        field_inline: true,
        image_url: item.owner.profile_image,
        author_name: item.owner.display_name,
        author_url: item.owner.link,
        author_icon_url: Some(item.owner.profile_image),
    }
}

/// The trace left before a question is sent.
pub open spec fn spec_processing_trace(item: QuestionView) -> ReportView {
    ReportView {
        severity: Severity::Trace,
        message: "Processing question "@ + item.title,
        context: Context::Item(item.question_id),
    }
}

/// The report of a send that failed: it names the question by its id and
/// quotes the sink's failure.
pub open spec fn spec_delivery_failure(item: QuestionView, cause: Seq<char>) -> ReportView {
    ReportView {
        severity: Severity::Error,
        message: "Call to Discord failed with status "@ + cause + " and no body."@,
        context: Context::Item(item.question_id),
    }
}

/// Builds the message that announces `item`.
pub fn notification_for(item: &Question) -> (message: Notification)
    ensures
        message@ == spec_notification(item@),
{
    Notification {
        content: String::from_str("New Question From Stack Overflow."),
        title: item.title.clone(),
        field_name: String::from_str("link"),
        field_value: item.link.clone(),
        field_inline: true,
        image_url: item.owner.profile_image.clone(),
        author_name: item.owner.display_name.clone(),
        author_url: item.owner.link.clone(),
        author_icon_url: Some(item.owner.profile_image.clone()),
    }
}

/// Builds the trace that is left before `item` is sent.
pub fn processing_trace(item: &Question) -> (report: Report)
    ensures
        report@ == spec_processing_trace(item@),
{
    let mut message = String::from_str("Processing question ");
    message.append(item.title.as_str());
    Report { severity: Severity::Trace, message, context: Context::Item(item.question_id) }
}

/// Builds the report of a failed send of `item`.
pub fn delivery_failure(item: &Question, cause: &str) -> (report: Report)
    ensures
        report@ == spec_delivery_failure(item@, cause@),
{
    let mut message = String::from_str("Call to Discord failed with status ");
    message.append(cause);
    message.append(" and no body.");
    Report { severity: Severity::Error, message, context: Context::Item(item.question_id) }
}

} // verus!
