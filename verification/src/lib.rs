//! Republishes a reserved-instance utilization percentage as a monitoring metric.
//!
//! One invocation turns a filter specification into a cost query over the
//! trailing seven days, reads the utilization of the last reported period out
//! of the answer, and shapes a single metric datum tagged with the same
//! filter fields. The network calls themselves belong to the caller; this
//! library decides what is asked, what is read and what is written.

pub mod calendar;
pub mod decimal;
pub mod error;
pub mod handler;
pub mod metric;
pub mod query;
pub mod request;
pub mod response;
