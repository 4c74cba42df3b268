//! What the poll cycle tells the telemetry sink.

use vstd::prelude::*;

verus! {

/// How grave a report is.
#[derive(Debug, Clone, Copy, PartialEq, Eq, Structural)]
pub enum Severity {
    /// A trace of progress; nothing went wrong.
    Trace,
    /// An expected failure that the next iteration recovers from.
    Warning,
    /// A failure that somebody should look at.
    Error,
}

/// The structured context that goes with a report.
#[derive(Debug, Clone, Copy, PartialEq, Eq, Structural)]
pub enum Context {
    /// Nothing beyond the message.
    Nothing,
    /// The HTTP status of the upstream's answer.
    HttpStatus(u16),
    /// The size in bytes of the body that could not be decoded.
    BodySize(u64),
    /// The id of the question that the report is about.
    Item(u64),
    /// The iteration that begins: the bounds of its window, in seconds since
    /// the Unix epoch, and its number, counted from one.
    Iteration { from: u64, to: u64, count: u64 },
}

/// One event for the telemetry sink.
#[derive(Debug, Clone, PartialEq, Eq)]
pub struct Report {
    pub severity: Severity,
    pub message: String,
    pub context: Context,
}

/// A [`Report`] as a mathematical value.
pub struct ReportView {
    pub severity: Severity,
    pub message: Seq<char>,
    pub context: Context,
}

impl View for Report {
    type V = ReportView;

    open spec fn view(&self) -> ReportView {
        ReportView { severity: self.severity, message: self.message@, context: self.context }
    }
}

/// The reports of a vector as mathematical values, in the vector's order.
pub open spec fn reports_view(reports: Seq<Report>) -> Seq<ReportView> {
    Seq::new(reports.len(), |i: int| reports[i]@)
}

} // verus!
