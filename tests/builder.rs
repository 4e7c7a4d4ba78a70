use ddog::builder::{Builder, BuilderError};
use ddog::endpoints::{
    Distribution, Endpoint, GetMetrics, Method, Metric, Series, Tags, V1Routes, V2Routes,
};
use ddog::version::ApiVersion;

#[test]
fn builder_defaults_to_v2() {
    let b = Builder::new();
    assert_eq!(b.version, ApiVersion::V2);
    assert!(b.headers.is_empty());
    assert_eq!(ApiVersion::default(), ApiVersion::V2);
}

#[test]
fn builder_switches_versions() {
    let mut b = Builder::new();
    assert_eq!(b.v1().version, ApiVersion::V1);
    assert_eq!(b.version, ApiVersion::V1);
    assert_eq!(b.v2().version, ApiVersion::V2);
    assert_eq!(b.version, ApiVersion::V2);
}

#[test]
fn version_and_route_names() {
    assert_eq!(ApiVersion::V1.to_string(), "v1");
    assert_eq!(ApiVersion::V2.to_string(), "v2");
    assert_eq!(V1Routes::Metrics.to_string(), "metrics");
    assert_eq!(V2Routes::Metrics.to_string(), "metrics");
}

#[test]
fn v2_routes_have_documented_paths() {
    let mut b = Builder::new();
    let b = b.v2();
    assert_eq!(b.post_series().unwrap().path(), "v2/series");
    assert_eq!(
        b.create_new_tag_config("rpc_latency").unwrap().path(),
        "v2/metrics/rpc_latency/tags"
    );
    let metric = b.metrics().unwrap().route("my.metric.name".to_string());
    assert_eq!(metric.path(), "v2/metrics/my.metric.name");
}

#[test]
fn v1_routes_have_documented_paths() {
    let mut b = Builder::new();
    let b = b.v1();
    assert_eq!(b.post_distribution().unwrap().path(), "v1/distribution_points");
    assert_eq!(b.get_metrics(0, None, None).unwrap().path(), "v1/metrics");
}

#[test]
fn endpoints_outside_their_version_are_refused() {
    let mut b = Builder::new();
    assert_eq!(b.v1().post_series().unwrap_err(), BuilderError::UnsupportedVersion);
    assert_eq!(b.v1().create_new_tag_config("x").unwrap_err(), BuilderError::UnsupportedVersion);
    assert_eq!(b.v1().metrics().unwrap_err(), BuilderError::UnsupportedVersion);
    assert_eq!(b.v2().post_distribution().unwrap_err(), BuilderError::UnsupportedVersion);
    assert_eq!(
        b.v2().get_metrics(0, None, None).unwrap_err(),
        BuilderError::UnsupportedVersion
    );
}

#[test]
fn select_covers_every_pair() {
    let endpoints = vec![
        (Endpoint::Series(Series::new()), ApiVersion::V2, "v2/series"),
        (Endpoint::Distribution(Distribution::new()), ApiVersion::V1, "v1/distribution_points"),
        (Endpoint::Tags(Tags::new("m")), ApiVersion::V2, "v2/metrics/m/tags"),
        (Endpoint::GetMetrics(GetMetrics::new(5, None, None)), ApiVersion::V1, "v1/metrics"),
        (Endpoint::Metric(Metric::new().clone()), ApiVersion::V2, "v2/metrics/"),
    ];
    for (endpoint, version, path) in endpoints {
        for candidate in [ApiVersion::V1, ApiVersion::V2] {
            let b = Builder { version: candidate, headers: vec![] };
            let r = b.select(endpoint.clone());
            if candidate == version {
                let route = r.unwrap();
                assert_eq!(route.path(), path);
                assert!(route.headers.is_empty());
                assert_eq!(route.body, "");
            } else {
                assert_eq!(r.unwrap_err(), BuilderError::UnsupportedVersion);
            }
        }
    }
}

#[test]
fn endpoint_targets_and_setters() {
    assert_eq!(Series::target(), "v2/series");
    assert_eq!(Distribution::target(), "v1/distribution_points");
    assert_eq!(Tags::target(), "v2/metrics/{metric_name}/tags");
    assert_eq!(GetMetrics::target(), "v1/metrics");
    assert_eq!(Metric::target(), "v2/metrics");
    let t = Tags::new("a").set_metric_name("b".to_string());
    assert_eq!(t.name, Some("b".to_string()));
    let g = GetMetrics::new(1, None, None)
        .set_from(7)
        .set_host("h".to_string())
        .set_tag_filter("f".to_string());
    assert_eq!(g.from, 7);
    assert_eq!(g.host, Some("h".to_string()));
    assert_eq!(g.tag_filter, Some("f".to_string()));
    assert_eq!(g.version, ApiVersion::V1);
    assert_eq!(Distribution::new().version, ApiVersion::V1);
    assert!(Metric::new().name.is_none());
    assert_eq!(ddog::v1::Metric::new().name, "");
}

#[test]
fn endpoint_methods_and_success_codes() {
    assert_eq!(Endpoint::Series(Series::new()).method(), Method::Post);
    assert_eq!(Endpoint::GetMetrics(GetMetrics::new(0, None, None)).method(), Method::Get);
    assert_eq!(Endpoint::Series(Series::new()).success_status(), 202);
    assert_eq!(Endpoint::Distribution(Distribution::new()).success_status(), 202);
    assert_eq!(Endpoint::Tags(Tags::new("x")).success_status(), 201);
    assert_eq!(Endpoint::GetMetrics(GetMetrics::new(0, None, None)).success_status(), 200);
    assert_eq!(Endpoint::Metric(Metric::new()).success_status(), 200);
}
