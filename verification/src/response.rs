//! The cost provider's answer and the one figure that is read out of it.

use vstd::prelude::*;
use crate::error::{BridgeError, ErrorView, MissingField};

verus! {

/// The aggregate of one period; the provider may leave the percentage out.
#[derive(Debug, Clone, PartialEq, Eq)]
pub struct PeriodTotal {
    pub utilization_percentage: Option<String>,
}

/// The utilization summary of one period; the provider may leave the total
/// out.
#[derive(Debug, Clone, PartialEq, Eq)]
pub struct PeriodSummary {
    pub total: Option<PeriodTotal>,
}

/// What reading the last of `periods` gives: its total's percentage, or the
/// first thing on the way to it that is missing.
pub open spec fn last_percentage(periods: Seq<PeriodSummary>) -> Result<Seq<char>, MissingField> {
    if periods.len() == 0 {
        Err(MissingField::Periods)
    } else {
        match periods.last().total {
            None => Err(MissingField::Total),
            Some(total) => match total.utilization_percentage {
                None => Err(MissingField::Percentage),
                Some(text) => Ok(text@),
            },
        }
    }
}

/// A figure or a failure as sequences of characters.
pub open spec fn figure_view(r: Result<String, BridgeError>) -> Result<Seq<char>, ErrorView> {
    match r {
        Ok(text) => Ok(text@),
        Err(e) => Err(e@),
    }
}

/// What `extract_percentage` returns on `periods`.
pub open spec fn extracted(periods: Seq<PeriodSummary>) -> Result<Seq<char>, ErrorView> {
    match last_percentage(periods) {
        Ok(text) => Ok(text),
        Err(field) => Err(ErrorView::MissingData(field)),
    }
}

/// Reads the total utilization percentage of the last period, as the text
/// the provider sent. Earlier periods are never consulted, and a missing
/// figure is a failure, not a zero.
pub fn extract_percentage(periods: &Vec<PeriodSummary>) -> (r: Result<String, BridgeError>)
    ensures
        figure_view(r) == extracted(periods@),
{
    let count = periods.len();
    if count == 0 {
        return Err(BridgeError::MissingData(MissingField::Periods));
    }
    match &periods[count - 1].total {
        None => Err(BridgeError::MissingData(MissingField::Total)),
        Some(total) => match &total.utilization_percentage {
            None => Err(BridgeError::MissingData(MissingField::Percentage)),
            Some(text) => Ok(text.clone()),
        },
    }
}

/// Only the last period counts: two answers that end in the same period
/// give the same figure or the same failure, whatever stands before it.
pub proof fn lemma_only_last_period_counts(a: Seq<PeriodSummary>, b: Seq<PeriodSummary>)
    requires
        a.len() > 0,
        b.len() > 0,
        a.last() == b.last(),
    ensures
        extracted(a) == extracted(b),
{
}

} // verus!
