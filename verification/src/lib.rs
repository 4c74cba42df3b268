//! A polling bridge from a question-listing API to a chat webhook: the
//! decisions of the poll cycle, verified.

pub mod classify;
pub mod decimal;
pub mod dispatch;
pub mod model;
pub mod poller;
pub mod query;
pub mod report;
pub mod run;
pub mod status;
pub mod window;
