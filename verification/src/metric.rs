//! The metric publisher: from a figure and a request to what is written to
//! the monitoring service.

use vstd::prelude::*;
use crate::decimal::{is_float_text, reads_as_float};
use crate::error::{BridgeError, ErrorView};
use crate::request::{
    appended, bindings_of, lemma_one_binding_per_field, occurrences, opt_text, presence,
    present_fields, Binding, InvocationRequest, RequestView,
};

verus! {

/// A name/value tag on a metric datum.
#[derive(Debug, Clone, PartialEq, Eq)]
pub struct Dimension {
    pub name: String,
    pub value: String,
}

impl View for Dimension {
    type V = Binding;

    open spec fn view(&self) -> Binding {
        Binding { name: self.name@, value: self.value@ }
    }
}

/// The bindings that a sequence of dimensions stands for.
pub open spec fn dimensions_view(dimensions: Seq<Dimension>) -> Seq<Binding> {
    dimensions.map_values(|d: Dimension| d@)
}

/// One value of one metric. The value is kept as the text it arrived in,
/// which reads as a floating-point number.
#[derive(Debug, Clone, PartialEq, Eq)]
pub struct MetricDatum {
    pub metric_name: String,
    pub value: String,
    pub dimensions: Vec<Dimension>,
}

/// A `MetricDatum` as sequences.
pub struct DatumView {
    pub metric_name: Seq<char>,
    pub value: Seq<char>,
    pub dimensions: Seq<Binding>,
}

impl View for MetricDatum {
    type V = DatumView;

    open spec fn view(&self) -> DatumView {
        DatumView {
            metric_name: self.metric_name@,
            value: self.value@,
            dimensions: dimensions_view(self.dimensions@),
        }
    }
}

impl MetricDatum {
    /// The value of a well-formed datum reads as a number.
    pub open spec fn wf(&self) -> bool {
        is_float_text(self.value@)
    }
}

/// What is written to the monitoring service: the data of one namespace.
#[derive(Debug, Clone, PartialEq, Eq)]
pub struct MetricWrite {
    pub namespace: String,
    pub metric_data: Vec<MetricDatum>,
}

/// A `MetricWrite` as sequences.
pub struct WriteView {
    pub namespace: Seq<char>,
    pub metric_data: Seq<DatumView>,
}

impl View for MetricWrite {
    type V = WriteView;

    open spec fn view(&self) -> WriteView {
        WriteView {
            namespace: self.namespace@,
            metric_data: self.metric_data@.map_values(|d: MetricDatum| d@),
        }
    }
}

/// A write or a failure as sequences.
pub open spec fn write_view(r: Result<MetricWrite, BridgeError>) -> Result<WriteView, ErrorView> {
    match r {
        Ok(write) => Ok(write@),
        Err(e) => Err(e@),
    }
}

/// The dimensions that a request tags its metric with: its present fields
/// under their readable names.
pub open spec fn dimensions_of(r: RequestView) -> Seq<Binding> {
    bindings_of(r, "Region"@, "Service"@, "LinkedAccount"@)
}

/// The write that publishes `value` for request `r`: a single datum under
/// the given names, tagged with the request's dimensions. A `value` that
/// does not read as a number is refused, and named in the error.
pub open spec fn write_of(
    namespace: Seq<char>,
    metric_name: Seq<char>,
    value: Seq<char>,
    r: RequestView,
) -> Result<WriteView, ErrorView> {
    if is_float_text(value) {
        Ok(
            WriteView {
                namespace,
                metric_data: seq![DatumView { metric_name, value, dimensions: dimensions_of(r) }],
            },
        )
    } else {
        Err(ErrorView::InvalidValue(value))
    }
}

/// Appends the dimension `name = element` to `dimensions` when `element` is
/// present, and leaves `dimensions` untouched when it is absent.
pub fn push_dimension(event_element: &Option<String>, dimensions: &mut Vec<Dimension>, name: String)
    ensures
        dimensions_view(final(dimensions)@) == appended(
            dimensions_view(old(dimensions)@),
            opt_text(*event_element),
            name@,
        ),
{
    if let Some(value) = event_element {
        let dimension = Dimension { name, value: value.clone() };
        dimensions.push(dimension);
        assert(dimensions_view(dimensions@) =~= dimensions_view(old(dimensions)@).push(
            dimension@,
        ));
    }
}

/// The dimensions of a request: one for each of region, service and linked
/// account that is present, in that order.
pub fn build_dimensions(request: &InvocationRequest) -> (dimensions: Vec<Dimension>)
    ensures
        dimensions_view(dimensions@) == dimensions_of(request@),
{
    let mut dimensions: Vec<Dimension> = Vec::new();
    assert(dimensions_view(dimensions@) =~= Seq::empty());
    push_dimension(&request.region, &mut dimensions, "Region".to_string());
    push_dimension(&request.service, &mut dimensions, "Service".to_string());
    push_dimension(&request.linked_account, &mut dimensions, "LinkedAccount".to_string());
    dimensions
}

/// Shapes the one write of an invocation: `value` as the single datum of
/// metric `metric_name` in `namespace`, tagged with the dimensions of
/// `request`. Fails with `InvalidValue` when `value` does not read as a
/// number; nothing is to be written then.
pub fn build_metric_write(
    namespace: String,
    metric_name: String,
    value: String,
    request: &InvocationRequest,
) -> (r: Result<MetricWrite, BridgeError>)
    ensures
        write_view(r) == write_of(namespace@, metric_name@, value@, request@),
        r matches Ok(write) ==> write.metric_data@.len() == 1 && write.metric_data@[0].wf(),
{
    if !reads_as_float(value.as_str()) {
        return Err(BridgeError::InvalidValue(value));
    }
    let datum = MetricDatum { metric_name, value, dimensions: build_dimensions(request) };
    let mut metric_data: Vec<MetricDatum> = Vec::new();
    metric_data.push(datum);
    let write = MetricWrite { namespace, metric_data };
    assert(write@.metric_data =~= seq![datum@]);
    Ok(write)
}

/// A datum carries exactly one dimension for each filter field that is
/// present, under the readable name of that field and with the field's
/// value, and none for a field that is absent.
pub proof fn lemma_dimensions_one_per_field(r: RequestView)
    ensures
        dimensions_of(r).len() == present_fields(r),
        dimensions_of(r).len() == 0 <==> r.region is None && r.service is None
            && r.linked_account is None,
        occurrences(dimensions_of(r), "Region"@) == presence(r.region),
        occurrences(dimensions_of(r), "Service"@) == presence(r.service),
        occurrences(dimensions_of(r), "LinkedAccount"@) == presence(r.linked_account),
        r.region matches Some(value) ==> dimensions_of(r)[0] == (Binding {
            name: "Region"@,
            value,
        }),
        r.service matches Some(value) ==> dimensions_of(r)[presence(r.region)] == (Binding {
            name: "Service"@,
            value,
        }),
        r.linked_account matches Some(value) ==> dimensions_of(r)[presence(r.region) + presence(
            r.service,
        )] == (Binding { name: "LinkedAccount"@, value }),
{
    reveal_strlit("Region");
    reveal_strlit("Service");
    reveal_strlit("LinkedAccount");
    assert("Region"@.len() != "Service"@.len());
    assert("Region"@.len() != "LinkedAccount"@.len());
    assert("Service"@.len() != "LinkedAccount"@.len());
    lemma_one_binding_per_field(r, "Region"@, "Service"@, "LinkedAccount"@);
}

} // verus!
