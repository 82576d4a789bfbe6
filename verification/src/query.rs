//! The query builder: from a request to what is asked of the cost provider.

use vstd::prelude::*;
use crate::calendar::{window_ending, DateRange, DateRangeView};
use crate::request::{
    appended, bindings_of, copy_text, lemma_one_binding_per_field, occurrences, opt_text,
    presence, present_fields, Binding, InvocationRequest, RequestView,
};

verus! {

/// One predicate of a filter: the provider's dimension `key` must take the
/// single value `value`.
#[derive(Debug, Clone, PartialEq, Eq)]
pub struct DimensionPredicate {
    pub key: String,
    pub value: String,
}

impl View for DimensionPredicate {
    type V = Binding;

    open spec fn view(&self) -> Binding {
        Binding { name: self.key@, value: self.value@ }
    }
}

/// The bindings that a sequence of predicates stands for.
pub open spec fn predicates_view(predicates: Seq<DimensionPredicate>) -> Seq<Binding> {
    predicates.map_values(|p: DimensionPredicate| p@)
}

/// A conjunction of predicates. With none it filters nothing out.
#[derive(Debug, Clone, PartialEq, Eq)]
pub struct FilterExpression {
    pub and: Vec<DimensionPredicate>,
}

impl View for FilterExpression {
    type V = Seq<Binding>;

    open spec fn view(&self) -> Seq<Binding> {
        predicates_view(self.and@)
    }
}

/// What is asked of the cost provider.
#[derive(Debug, Clone, PartialEq, Eq)]
pub struct UtilizationQuery {
    pub filter: FilterExpression,
    pub granularity: Option<String>,
    pub time_period: DateRange,
}

/// A `UtilizationQuery` as sequences.
pub struct QueryView {
    pub filter: Seq<Binding>,
    pub granularity: Option<Seq<char>>,
    pub time_period: DateRangeView,
}

impl View for UtilizationQuery {
    type V = QueryView;

    open spec fn view(&self) -> QueryView {
        QueryView {
            filter: self.filter@,
            granularity: opt_text(self.granularity),
            time_period: self.time_period@,
        }
    }
}

/// The view of an optional query.
pub open spec fn opt_query(o: Option<UtilizationQuery>) -> Option<QueryView> {
    match o {
        Some(query) => Some(query@),
        None => None,
    }
}

/// The filter that a request asks for: its present fields under the
/// provider's dimension keys.
pub open spec fn filter_of(r: RequestView) -> Seq<Binding> {
    bindings_of(r, "REGION"@, "SERVICE"@, "LINKED_ACCOUNT"@)
}

/// The query that a request asks for on day `today`, if the trailing window
/// of that day exists.
pub open spec fn query_of(r: RequestView, today: int) -> Option<QueryView> {
    match window_ending(today) {
        Some(time_period) => Some(
            QueryView { filter: filter_of(r), granularity: r.granularity, time_period },
        ),
        None => None,
    }
}

/// Appends the predicate `key = element` to `exps` when `element` is
/// present, and leaves `exps` untouched when it is absent.
pub fn push_filter(event_element: &Option<String>, exps: &mut Vec<DimensionPredicate>, key: String)
    ensures
        predicates_view(final(exps)@) == appended(
            predicates_view(old(exps)@),
            opt_text(*event_element),
            key@,
        ),
{
    if let Some(value) = event_element {
        let predicate = DimensionPredicate { key, value: value.clone() };
        exps.push(predicate);
        assert(predicates_view(exps@) =~= predicates_view(old(exps)@).push(predicate@));
    }
}

/// The filter of a request: one predicate for each of region, service and
/// linked account that is present, in that order.
pub fn build_filter(request: &InvocationRequest) -> (filter: FilterExpression)
    ensures
        filter@ == filter_of(request@),
{
    let mut and: Vec<DimensionPredicate> = Vec::new();
    assert(predicates_view(and@) =~= Seq::empty());
    push_filter(&request.region, &mut and, "REGION".to_string());
    push_filter(&request.service, &mut and, "SERVICE".to_string());
    push_filter(&request.linked_account, &mut and, "LINKED_ACCOUNT".to_string());
    FilterExpression { and }
}

/// The query for `request` over the trailing window that ends on day number
/// `today`: the request's filter, its granularity unchanged, and the window.
/// `None` only when that window reaches outside the calendar. The caller
/// reads the clock and hands in the current UTC day.
pub fn build_query_on(request: &InvocationRequest, today: i32) -> (r: Option<UtilizationQuery>)
    ensures
        opt_query(r) == query_of(request@, today as int),
{
    match DateRange::ending(today) {
        Some(time_period) => Some(
            UtilizationQuery {
                filter: build_filter(request),
                granularity: copy_text(&request.granularity),
                time_period,
            },
        ),
        None => None,
    }
}

/// A filter holds exactly one predicate for each filter field that is
/// present, under the provider's key for that field and with the field's
/// value, and none for a field that is absent; so it is empty exactly when
/// region, service and linked account are all absent.
pub proof fn lemma_filter_one_predicate_per_field(r: RequestView)
    ensures
        filter_of(r).len() == present_fields(r),
        filter_of(r).len() == 0 <==> r.region is None && r.service is None
            && r.linked_account is None,
        occurrences(filter_of(r), "REGION"@) == presence(r.region),
        occurrences(filter_of(r), "SERVICE"@) == presence(r.service),
        occurrences(filter_of(r), "LINKED_ACCOUNT"@) == presence(r.linked_account),
        r.region matches Some(value) ==> filter_of(r)[0] == (Binding { name: "REGION"@, value }),
        r.service matches Some(value) ==> filter_of(r)[presence(r.region)] == (Binding {
            name: "SERVICE"@,
            value,
        }),
        r.linked_account matches Some(value) ==> filter_of(r)[presence(r.region) + presence(
            r.service,
        )] == (Binding { name: "LINKED_ACCOUNT"@, value }),
{
    reveal_strlit("REGION");
    reveal_strlit("SERVICE");
    reveal_strlit("LINKED_ACCOUNT");
    assert("REGION"@.len() != "SERVICE"@.len());
    assert("REGION"@.len() != "LINKED_ACCOUNT"@.len());
    assert("SERVICE"@.len() != "LINKED_ACCOUNT"@.len());
    lemma_one_binding_per_field(r, "REGION"@, "SERVICE"@, "LINKED_ACCOUNT"@);
}

} // verus!
