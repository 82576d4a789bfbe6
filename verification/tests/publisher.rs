use ri_utilization::error::BridgeError;
use ri_utilization::metric::{
    build_dimensions, build_metric_write, push_dimension, Dimension, MetricDatum, MetricWrite,
};
use ri_utilization::request::InvocationRequest;

fn text(s: &str) -> Option<String> {
    Some(s.to_string())
}

fn request(
    region: Option<String>,
    service: Option<String>,
    linked_account: Option<String>,
) -> InvocationRequest {
    InvocationRequest {
        region,
        service,
        linked_account,
        granularity: None,
        namespace: "Custom/Reservations".to_string(),
        metric_name: "UtilizationPct".to_string(),
    }
}

fn dimension(name: &str, value: &str) -> Dimension {
    Dimension { name: name.to_string(), value: value.to_string() }
}

#[test]
fn publisher_builds_one_datum_with_region() {
    let req = request(text("us-east-1"), None, None);
    let write =
        build_metric_write("Billing".to_string(), "Utilization".to_string(), "45.6".to_string(), &req)
            .unwrap();
    assert_eq!(write.namespace, "Billing");
    assert_eq!(write.metric_data.len(), 1);
    let datum = &write.metric_data[0];
    assert_eq!(datum.metric_name, "Utilization");
    assert_eq!(datum.value, "45.6");
    assert_eq!(datum.value.parse::<f64>().unwrap(), 45.6);
    assert_eq!(datum.dimensions, vec![dimension("Region", "us-east-1")]);
}

#[test]
fn publisher_refuses_text_that_is_no_number() {
    let req = request(text("us-east-1"), None, None);
    let r = build_metric_write(
        "Billing".to_string(),
        "Utilization".to_string(),
        "not-a-number".to_string(),
        &req,
    );
    assert_eq!(r, Err(BridgeError::InvalidValue("not-a-number".to_string())));
}

#[test]
fn publisher_refuses_empty_text() {
    let r = build_metric_write(
        "Billing".to_string(),
        "Utilization".to_string(),
        String::new(),
        &request(None, None, None),
    );
    assert_eq!(r, Err(BridgeError::InvalidValue(String::new())));
}

#[test]
fn publisher_without_fields_gives_no_dimension() {
    let write = build_metric_write(
        "Billing".to_string(),
        "Utilization".to_string(),
        "100".to_string(),
        &request(None, None, None),
    )
    .unwrap();
    assert_eq!(
        write,
        MetricWrite {
            namespace: "Billing".to_string(),
            metric_data: vec![MetricDatum {
                metric_name: "Utilization".to_string(),
                value: "100".to_string(),
                dimensions: vec![],
            }],
        }
    );
}

#[test]
fn dimensions_hold_one_entry_per_present_field() {
    for mask in 0..8u32 {
        let region = if mask & 1 != 0 { text("eu-west-1") } else { None };
        let service = if mask & 2 != 0 { text("AmazonEC2") } else { None };
        let account = if mask & 4 != 0 { text("123456789012") } else { None };
        let mut expected = vec![];
        if mask & 1 != 0 {
            expected.push(dimension("Region", "eu-west-1"));
        }
        if mask & 2 != 0 {
            expected.push(dimension("Service", "AmazonEC2"));
        }
        if mask & 4 != 0 {
            expected.push(dimension("LinkedAccount", "123456789012"));
        }
        assert_eq!(build_dimensions(&request(region, service, account)), expected);
    }
}

#[test]
fn push_dimension_appends_a_present_element() {
    let mut dimensions = vec![];
    push_dimension(&text("AmazonEC2"), &mut dimensions, "Service".to_string());
    assert_eq!(dimensions, vec![dimension("Service", "AmazonEC2")]);
}

#[test]
fn push_dimension_skips_an_absent_element() {
    let mut dimensions = vec![dimension("Region", "us-east-1")];
    push_dimension(&None, &mut dimensions, "Service".to_string());
    assert_eq!(dimensions, vec![dimension("Region", "us-east-1")]);
}
