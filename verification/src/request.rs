//! The invocation payload and its mathematical model.

use vstd::prelude::*;

verus! {

/// The payload of one invocation. The first three fields select what is
/// measured, `granularity` is handed to the cost provider untouched, and the
/// last two say where the metric is published.
#[derive(Debug, Clone, PartialEq, Eq)]
pub struct InvocationRequest {
    pub region: Option<String>,
    pub service: Option<String>,
    pub linked_account: Option<String>,
    pub granularity: Option<String>,
    pub namespace: String,
    pub metric_name: String,
}

/// An `InvocationRequest` as sequences of characters.
pub struct RequestView {
    pub region: Option<Seq<char>>,
    pub service: Option<Seq<char>>,
    pub linked_account: Option<Seq<char>>,
    pub granularity: Option<Seq<char>>,
    pub namespace: Seq<char>,
    pub metric_name: Seq<char>,
}

/// The characters of an optional string.
pub open spec fn opt_text(o: Option<String>) -> Option<Seq<char>> {
    match o {
        Some(s) => Some(s@),
        None => None,
    }
}

impl View for InvocationRequest {
    type V = RequestView;

    open spec fn view(&self) -> RequestView {
        RequestView {
            region: opt_text(self.region),
            service: opt_text(self.service),
            linked_account: opt_text(self.linked_account),
            granularity: opt_text(self.granularity),
            namespace: self.namespace@,
            metric_name: self.metric_name@,
        }
    }
}

/// A name bound to a value: the model of a filter predicate and of a metric
/// dimension alike.
pub struct Binding {
    pub name: Seq<char>,
    pub value: Seq<char>,
}

/// `list` with `name` bound to `element` at its end when `element` is
/// present, and `list` itself when it is absent.
pub open spec fn appended(list: Seq<Binding>, element: Option<Seq<char>>, name: Seq<char>) -> Seq<
    Binding,
> {
    match element {
        Some(value) => list.push(Binding { name, value }),
        None => list,
    }
}

/// The bindings of the three filter fields under the names given for them:
/// one for each field that is present, in the order region, service, linked
/// account, and none for a field that is absent.
pub open spec fn bindings_of(
    r: RequestView,
    region: Seq<char>,
    service: Seq<char>,
    linked_account: Seq<char>,
) -> Seq<Binding> {
    appended(
        appended(appended(Seq::empty(), r.region, region), r.service, service),
        r.linked_account,
        linked_account,
    )
}

/// How many members of `list` bind `name`.
pub open spec fn occurrences(list: Seq<Binding>, name: Seq<char>) -> nat
    decreases list.len(),
{
    if list.len() == 0 {
        0
    } else {
        occurrences(list.drop_last(), name) + if list.last().name == name {
            1nat
        } else {
            0nat
        }
    }
}

/// 1 for a field that is present, 0 for one that is absent.
pub open spec fn presence(field: Option<Seq<char>>) -> int {
    if field is Some {
        1
    } else {
        0
    }
}

/// The number of the three filter fields that are present.
pub open spec fn present_fields(r: RequestView) -> int {
    presence(r.region) + presence(r.service) + presence(r.linked_account)
}

/// Appending an optional element adds one occurrence of its name when it is
/// present, and leaves every other count as it was.
pub proof fn lemma_occurrences_appended(
    list: Seq<Binding>,
    element: Option<Seq<char>>,
    name: Seq<char>,
    counted: Seq<char>,
)
    ensures
        occurrences(appended(list, element, name), counted) == occurrences(list, counted) + (
        if name == counted {
            presence(element)
        } else {
            0
        }),
        appended(list, element, name).len() == list.len() + presence(element),
{
    if let Some(value) = element {
        let b = Binding { name, value };
        assert(list.push(b).drop_last() =~= list);
    }
}

/// Each of the three fields is bound once if it is present and not at all
/// if it is absent, under its own name, and nothing else is bound: the list
/// is as long as the number of fields present, so it is empty exactly when
/// all three are absent.
pub proof fn lemma_one_binding_per_field(
    r: RequestView,
    region: Seq<char>,
    service: Seq<char>,
    linked_account: Seq<char>,
)
    requires
        region != service,
        region != linked_account,
        service != linked_account,
    ensures
        bindings_of(r, region, service, linked_account).len() == present_fields(r),
        bindings_of(r, region, service, linked_account).len() == 0 <==> r.region is None
            && r.service is None && r.linked_account is None,
        occurrences(bindings_of(r, region, service, linked_account), region) == presence(r.region),
        occurrences(bindings_of(r, region, service, linked_account), service) == presence(
            r.service,
        ),
        occurrences(bindings_of(r, region, service, linked_account), linked_account) == presence(
            r.linked_account,
        ),
        r.region matches Some(value) ==> bindings_of(r, region, service, linked_account)[0]
            == (Binding { name: region, value }),
        r.service matches Some(value) ==> bindings_of(
            r,
            region,
            service,
            linked_account,
        )[presence(r.region)] == (Binding { name: service, value }),
        r.linked_account matches Some(value) ==> bindings_of(
            r,
            region,
            service,
            linked_account,
        )[presence(r.region) + presence(r.service)] == (Binding { name: linked_account, value }),
{
    let none = Seq::<Binding>::empty();
    let first = appended(none, r.region, region);
    let second = appended(first, r.service, service);
    lemma_occurrences_appended(none, r.region, region, region);
    lemma_occurrences_appended(none, r.region, region, service);
    lemma_occurrences_appended(none, r.region, region, linked_account);
    lemma_occurrences_appended(first, r.service, service, region);
    lemma_occurrences_appended(first, r.service, service, service);
    lemma_occurrences_appended(first, r.service, service, linked_account);
    lemma_occurrences_appended(second, r.linked_account, linked_account, region);
    lemma_occurrences_appended(second, r.linked_account, linked_account, service);
    lemma_occurrences_appended(second, r.linked_account, linked_account, linked_account);
}

/// A copy of an optional string.
pub fn copy_text(o: &Option<String>) -> (r: Option<String>)
    ensures
        opt_text(r) == opt_text(*o),
{
    match o {
        Some(s) => Some(s.clone()),
        None => None,
    }
}

} // verus!
