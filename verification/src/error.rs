//! The ways in which an invocation fails.

use vstd::prelude::*;
use vstd::string::StringExecFns;

verus! {

/// What the cost provider's answer lacked.
#[derive(Debug, Clone, Copy, PartialEq, Eq, Structural)]
pub enum MissingField {
    /// The answer held no period at all.
    Periods,
    /// The last period carried no total.
    Total,
    /// The last period's total carried no percentage.
    Percentage,
}

/// A terminal failure of one invocation, named after the phase it arose in.
#[derive(Debug, Clone, PartialEq, Eq)]
pub enum BridgeError {
    /// The cost provider rejected or failed the query; its words are kept.
    Query(String),
    /// The query was answered without a usable utilization figure.
    MissingData(MissingField),
    /// The utilization figure does not read as a number; the text is kept.
    InvalidValue(String),
    /// The monitoring service rejected or failed the write; its words are kept.
    Publish(String),
}

/// A `BridgeError` as sequences of characters.
pub enum ErrorView {
    Query(Seq<char>),
    MissingData(MissingField),
    InvalidValue(Seq<char>),
    Publish(Seq<char>),
}

impl View for BridgeError {
    type V = ErrorView;

    open spec fn view(&self) -> ErrorView {
        match *self {
            BridgeError::Query(detail) => ErrorView::Query(detail@),
            BridgeError::MissingData(field) => ErrorView::MissingData(field),
            BridgeError::InvalidValue(text) => ErrorView::InvalidValue(text@),
            BridgeError::Publish(detail) => ErrorView::Publish(detail@),
        }
    }
}

/// The message that describes an error to the invoker.
pub open spec fn message_of(e: ErrorView) -> Seq<char> {
    match e {
        ErrorView::Query(detail) => "cost query failed: "@ + detail,
        ErrorView::MissingData(MissingField::Periods) =>
            "cost query answered with no period"@,
        ErrorView::MissingData(MissingField::Total) =>
            "last period carries no total"@,
        ErrorView::MissingData(MissingField::Percentage) =>
            "last period's total carries no utilization percentage"@,
        ErrorView::InvalidValue(text) => "utilization is not a number: "@ + text,
        ErrorView::Publish(detail) => "metric write failed: "@ + detail,
    }
}

impl BridgeError {
    /// A human-readable message: the phase that failed, then the detail it
    /// failed with.
    pub fn message(&self) -> (r: String)
        ensures
            r@ == message_of(self@),
    {
        match self {
            BridgeError::Query(detail) =>
                String::from_str("cost query failed: ").concat(detail.as_str()),
            BridgeError::MissingData(MissingField::Periods) =>
                String::from_str("cost query answered with no period"),
            BridgeError::MissingData(MissingField::Total) =>
                String::from_str("last period carries no total"),
            BridgeError::MissingData(MissingField::Percentage) =>
                String::from_str("last period's total carries no utilization percentage"),
            BridgeError::InvalidValue(text) =>
                String::from_str("utilization is not a number: ").concat(text.as_str()),
            BridgeError::Publish(detail) =>
                String::from_str("metric write failed: ").concat(detail.as_str()),
        }
    }
}

} // verus!
