use ddog::builder::Builder;
use ddog::endpoints::Method;
use ddog::headers::HeaderError;
use ddog::response::ExecuteError;

fn series_route() -> ddog::route::Route {
    Builder::new().post_series().unwrap()
}

#[test]
fn same_header_twice_keeps_only_the_last_value() {
    let route = series_route()
        .with_header("Accept", "text/plain")
        .unwrap()
        .with_header("Accept", "application/json")
        .unwrap();
    assert_eq!(route.headers.get_all("accept").iter().count(), 1);
    assert_eq!(route.headers.get("accept").unwrap().to_str().unwrap(), "application/json");
    assert_eq!(route.headers.keys_len(), 1);
}

#[test]
fn header_names_differing_in_case_are_one_name() {
    let route = series_route()
        .with_header("content-type", "text/plain")
        .unwrap()
        .with_header("Content-Type", "application/json")
        .unwrap();
    assert_eq!(route.headers.keys_len(), 1);
    assert_eq!(route.headers.get("CONTENT-TYPE").unwrap().to_str().unwrap(), "application/json");
}

#[test]
fn header_list_is_applied_in_order() {
    let route = series_route()
        .headers(vec![
            ("Accept", "application/json"),
            ("Content-Type", "application/json"),
            ("DD-API-KEY", "first"),
            ("DD-API-KEY", "second"),
        ])
        .unwrap();
    assert_eq!(route.headers.keys_len(), 3);
    assert_eq!(route.headers.get("dd-api-key").unwrap().to_str().unwrap(), "second");
}

#[test]
fn key_setters_use_vendor_header_names() {
    let route = series_route()
        .with_api_key("api_key")
        .unwrap()
        .with_application_key("application_key")
        .unwrap();
    assert_eq!(route.headers.get("DD-API-KEY").unwrap().to_str().unwrap(), "api_key");
    assert_eq!(route.headers.get("DD-APPLICATION-KEY").unwrap().to_str().unwrap(), "application_key");
}

#[test]
fn malformed_headers_are_refused() {
    assert_eq!(series_route().with_header("", "x").unwrap_err(), HeaderError::InvalidName);
    assert_eq!(series_route().with_header("bad name", "x").unwrap_err(), HeaderError::InvalidName);
    assert_eq!(series_route().with_header("a:b", "x").unwrap_err(), HeaderError::InvalidName);
    assert_eq!(series_route().with_header("ok", "line\nbreak").unwrap_err(), HeaderError::InvalidValue);
    assert_eq!(series_route().with_api_key("x\u{7f}").unwrap_err(), HeaderError::InvalidValue);
    assert!(series_route().with_header("ok", "tab\tis fine").is_ok());
    assert_eq!(
        series_route().headers(vec![("ok", "1"), ("bad name", "2")]).unwrap_err(),
        HeaderError::InvalidName
    );
}

#[test]
fn header_limit_is_enforced() {
    let mut route = series_route();
    for i in 0..3000 {
        let name = format!("x-h{}", i);
        route = route.with_header(&name, "v").unwrap();
    }
    assert_eq!(route.headers.keys_len(), 3000);
    assert_eq!(route.with_header("x-one-more", "v").unwrap_err(), HeaderError::TooMany);
}

#[test]
fn body_defaults_to_empty_and_can_be_set() {
    let route = series_route();
    assert_eq!(route.body, "");
    let route = route.body("{\"series\": []}");
    assert_eq!(route.body, "{\"series\": []}");
    assert_eq!(route.path(), "v2/series");
}

#[test]
fn request_for_series_posts_to_the_base_url() {
    let route = series_route().body("{}");
    let req = route.request().unwrap();
    assert_eq!(req.method, Method::Post);
    assert_eq!(req.url, "https://api.datadoghq.com/api/v2/series");
    assert_eq!(req.body, "{}");
}

#[test]
fn request_for_metric_listing_carries_the_query() {
    let mut b = Builder::new();
    let route = b
        .v1()
        .get_metrics(1660157680, None, Some("metric_name:rpc_latency".to_string()))
        .unwrap();
    let req = route.request().unwrap();
    assert_eq!(req.method, Method::Get);
    assert_eq!(
        req.url,
        "https://api.datadoghq.com/api/v1/metrics?from=1660157680&host=&tag_filter=metric_name:rpc_latency"
    );
    let route = b.get_metrics(0, Some("web-1".to_string()), None).unwrap();
    assert_eq!(
        route.request().unwrap().url,
        "https://api.datadoghq.com/api/v1/metrics?from=0&host=web-1&tag_filter="
    );
}

#[test]
fn request_for_tags_needs_a_metric_name() {
    let route = Builder::new().create_new_tag_config("rpc_latency").unwrap();
    assert_eq!(
        route.request().unwrap().url,
        "https://api.datadoghq.com/api/v2/metrics/rpc_latency/tags"
    );
    let unnamed = Builder::new().metrics().unwrap();
    assert_eq!(
        unnamed.request().unwrap_err(),
        (400, ExecuteError::MissingPathParameter)
    );
    let named = unnamed.route("my.metric".to_string());
    assert_eq!(
        named.request().unwrap().url,
        "https://api.datadoghq.com/api/v2/metrics/my.metric"
    );
}
