use ddog::builder::Builder;
use ddog::endpoints::{Distribution, Endpoint, GetMetrics, Metric, Series, Tags};
use ddog::response::{
    read_response, transport_failure, DistributionResponse, ExecuteError, GetMetricsResponse,
    MetricResponse, MetricTag, MetricType, Response, SeriesResponse, SpaceEnum, TagsResponse,
    TimeEnum,
};

const TAGS_BODY: &str = r#"{
    "data": {
        "type": "manage_tags",
        "id": "test.metric.latency",
        "attributes": {
            "aggregations": [ { "space": "sum", "time": "sum" }, { "space": "avg", "time": "count" } ],
            "created_at": 1585129717,
            "included_percentiles": true,
            "metric_type": "count",
            "modified_at": null,
            "tags": [ "app", "datacenter" ]
        }
    }
}"#;

fn all_endpoints() -> Vec<Endpoint> {
    vec![
        Endpoint::Series(Series::new()),
        Endpoint::Distribution(Distribution::new()),
        Endpoint::Tags(Tags::new("rpc_latency")),
        Endpoint::GetMetrics(GetMetrics::new(0, None, None)),
        Endpoint::Metric(Metric::new()),
    ]
}

#[test]
fn distribution_accepted_answer_is_parsed() {
    let (status, res) = DistributionResponse::read(202, r#"{"status":"ok"}"#);
    assert_eq!(status, 202);
    assert_eq!(res.unwrap().status, "ok");
    let route = Builder::new().v1().post_distribution().unwrap();
    match route.read_response(202, r#"{"status":"ok"}"#) {
        (202, Ok(Response::Distribution(d))) => assert_eq!(d.status, "ok"),
        other => panic!("unexpected answer {:?}", other),
    }
}

#[test]
fn forbidden_is_an_error_for_every_endpoint_and_body() {
    for e in all_endpoints() {
        for body in ["", "{}", r#"{"status":"ok"}"#, TAGS_BODY, "not json"] {
            let (status, res) = read_response(&e, 403, body);
            assert_eq!(status, 403);
            assert_eq!(res.unwrap_err(), ExecuteError::Status);
        }
    }
    assert_eq!(SeriesResponse::read(403, r#"{"errors":[]}"#).1.unwrap_err(), ExecuteError::Status);
    assert_eq!(TagsResponse::read(403, TAGS_BODY).0, 403);
}

#[test]
fn tags_answer_keeps_id_and_tags() {
    let (status, res) = TagsResponse::read(201, TAGS_BODY);
    assert_eq!(status, 201);
    let t = res.unwrap();
    assert_eq!(t.data.id, "test.metric.latency");
    assert_eq!(t.data.attributes.tags, vec!["app".to_string(), "datacenter".to_string()]);
    assert_eq!(t.data.type_, MetricTag::ManageTags);
    assert_eq!(t.data.attributes.type_, MetricType::Count);
    assert!(t.data.attributes.included_percentiles);
    assert_eq!(t.data.attributes.created_at, Some(1585129717));
    assert_eq!(t.data.attributes.modified_at, None);
    assert_eq!(t.data.attributes.aggregations.len(), 2);
    assert_eq!(t.data.attributes.aggregations[1].space, SpaceEnum::Avg);
    assert_eq!(t.data.attributes.aggregations[1].time, TimeEnum::Count);
}

#[test]
fn tags_answer_with_optional_members_left_out() {
    let body = r#"{"data":{"type":"manage_tags","id":"m","attributes":{"tags":[],"metric_type":"gauge"}}}"#;
    let t = TagsResponse::read(201, body).1.unwrap();
    assert!(t.data.attributes.tags.is_empty());
    assert!(t.data.attributes.aggregations.is_empty());
    assert!(!t.data.attributes.included_percentiles);
    assert_eq!(t.data.attributes.created_at, None);
    assert_eq!(t.data.attributes.type_, MetricType::Gauge);
}

#[test]
fn tags_answer_of_another_shape_is_a_schema_error() {
    let wrong_kind = TAGS_BODY.replace("manage_tags", "other");
    let (status, res) = TagsResponse::read(201, &wrong_kind);
    assert_eq!(status, 400);
    assert_eq!(res.unwrap_err(), ExecuteError::Schema);
    let wrong_space = TAGS_BODY.replace("\"space\": \"sum\"", "\"space\": \"median\"");
    assert_eq!(TagsResponse::read(201, &wrong_space).1.unwrap_err(), ExecuteError::Schema);
    let text_time = TAGS_BODY.replace("1585129717", "\"2020-03-25T09:48:37Z\"");
    assert_eq!(TagsResponse::read(201, &text_time).1.unwrap_err(), ExecuteError::Schema);
    let far_future = TAGS_BODY.replace("1585129717", "9000000000000000000");
    assert_eq!(TagsResponse::read(201, &far_future).1.unwrap_err(), ExecuteError::Schema);
}

#[test]
fn success_with_malformed_body_is_a_client_error() {
    let (status, res) = SeriesResponse::read(202, r#"{"errors": [}"#);
    assert_eq!(status, 400);
    assert_eq!(res.unwrap_err(), ExecuteError::Malformed);
    let (status, res) = DistributionResponse::read(202, r#"{"state":"ok"}"#);
    assert_eq!(status, 400);
    assert_eq!(res.unwrap_err(), ExecuteError::Schema);
}

#[test]
fn series_and_listing_answers_are_parsed() {
    let (status, res) = SeriesResponse::read(202, r#"{"errors": []}"#);
    assert_eq!(status, 202);
    assert!(res.unwrap().errors.is_empty());
    let errors = SeriesResponse::read(202, r#"{"errors": ["bad point", 3]}"#).1.unwrap();
    assert_eq!(errors.errors.len(), 2);
    assert_eq!(errors.errors[0].as_str(), Some("bad point"));
    let (status, res) = GetMetricsResponse::read(200, r#"{"from": "0", "metrics": ["rpc_latency"]}"#);
    assert_eq!(status, 200);
    let listing = res.unwrap();
    assert_eq!(listing.from, "0");
    assert_eq!(listing.metrics, vec!["rpc_latency".to_string()]);
    assert_eq!(GetMetricsResponse::read(201, "{}").0, 201);
}

#[test]
fn metric_answer_uses_milliseconds() {
    let body = r#"{"data":{"type":"manage_tags","id":"m","attributes":{"tags":["a"],"metric_type":"distribution","created_at":1585129717463,"modified_at":1585129717463}}}"#;
    let (status, res) = MetricResponse::read(200, body);
    assert_eq!(status, 200);
    let m = res.unwrap();
    assert_eq!(m.data.attributes.created_at, Some(1585129717463));
    assert_eq!(m.data.attributes.type_, MetricType::Distribution);
    assert_eq!(m.data.id, "m");
    let (status, _) = MetricResponse::read(201, body);
    assert_eq!(status, 201);
}

#[test]
fn transport_failures_keep_a_status_or_fall_back_to_400() {
    assert_eq!(transport_failure(Some(504)), (504, ExecuteError::Transport));
    assert_eq!(transport_failure(None), (400, ExecuteError::Transport));
}
