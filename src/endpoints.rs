//! The endpoints of the API that the library can reach, with their fixed
//! paths, methods and success codes.

use vstd::prelude::*;
use vstd::string::StringExecFns;

use crate::version::ApiVersion;

verus! {

/// Series metrics endpoint: `v2/series` [POST].
#[derive(Clone, Copy, Debug, PartialEq, Eq, Structural)]
pub struct Series {}

/// Distribution points endpoint: `v1/distribution_points` [POST].
#[derive(Clone, Copy, Debug, PartialEq, Eq, Structural)]
pub struct Distribution {
    /// The API version the endpoint belongs to.
    pub version: ApiVersion,
}

/// Tag configuration endpoint: `v2/metrics/{metric_name}/tags` [POST].
#[derive(Clone, Debug)]
pub struct Tags {
    /// The metric whose tags are configured; required before the request is sent.
    pub name: Option<String>,
}

/// Metric listing endpoint: `v1/metrics` [GET].
#[derive(Clone, Debug)]
pub struct GetMetrics {
    /// Seconds since the Unix epoch.
    pub from: usize,
    /// Host name used to filter the list of metrics.
    pub host: Option<String>,
    /// Tag filter used to filter the list of metrics.
    pub tag_filter: Option<String>,
    /// The API version the endpoint belongs to.
    pub version: ApiVersion,
}

/// Single metric endpoint: `v2/metrics/{metric_name}` [POST].
#[derive(Clone, Debug)]
pub struct Metric {
    /// The metric name, appended to the path; required before the request is sent.
    pub name: Option<String>,
}

/// One endpoint of the API, with its path parameters.
#[derive(Clone, Debug)]
pub enum Endpoint {
    /// `v2/series`
    Series(Series),
    /// `v1/distribution_points`
    Distribution(Distribution),
    /// `v2/metrics/{metric_name}/tags`
    Tags(Tags),
    /// `v1/metrics`
    GetMetrics(GetMetrics),
    /// `v2/metrics/{metric_name}`
    Metric(Metric),
}

/// The HTTP method of a request.
#[derive(Clone, Copy, Debug, PartialEq, Eq, Structural)]
pub enum Method {
    /// HTTP GET
    Get,
    /// HTTP POST
    Post,
}

/// The V2 routes of the API.
#[derive(Clone, Copy, Debug, PartialEq, Eq, Structural)]
pub enum V2Routes {
    /// Metrics
    Metrics,
}

/// The V1 routes of the API.
#[derive(Clone, Copy, Debug, PartialEq, Eq, Structural)]
pub enum V1Routes {
    /// Metrics
    Metrics,
}

impl V2Routes {
    /// The route's path segment.
    pub fn to_string(&self) -> (r: String)
        ensures
            r@ == "metrics"@,
    {
        "metrics".to_owned()
    }
}

impl V1Routes {
    /// The route's path segment.
    pub fn to_string(&self) -> (r: String)
        ensures
            r@ == "metrics"@,
    {
        "metrics".to_owned()
    }
}

/// The text of an optional path parameter; an absent one reads as empty.
pub open spec fn param_text(p: Option<String>) -> Seq<char> {
    match p {
        Some(s) => s@,
        None => Seq::empty(),
    }
}

/// The documented path of each endpoint, below the API's base URL.
pub open spec fn endpoint_path(e: Endpoint) -> Seq<char> {
    match e {
        Endpoint::Series(_) => "v2/series"@,
        Endpoint::Distribution(_) => "v1/distribution_points"@,
        Endpoint::Tags(t) => "v2/metrics/"@ + param_text(t.name) + "/tags"@,
        Endpoint::GetMetrics(_) => "v1/metrics"@,
        Endpoint::Metric(m) => "v2/metrics/"@ + param_text(m.name),
    }
}

/// The API version that offers each endpoint.
pub open spec fn endpoint_version(e: Endpoint) -> ApiVersion {
    match e {
        Endpoint::Series(_) => ApiVersion::V2,
        Endpoint::Distribution(_) => ApiVersion::V1,
        Endpoint::Tags(_) => ApiVersion::V2,
        Endpoint::GetMetrics(_) => ApiVersion::V1,
        Endpoint::Metric(_) => ApiVersion::V2,
    }
}

/// Whether an endpoint exists in an API version.
pub open spec fn supported(v: ApiVersion, e: Endpoint) -> bool {
    endpoint_version(e) == v
}

/// The HTTP method of each endpoint: GET for the metric listing, POST for
/// the rest.
pub open spec fn endpoint_method(e: Endpoint) -> Method {
    match e {
        Endpoint::GetMetrics(_) => Method::Get,
        _ => Method::Post,
    }
}

/// The status code each endpoint answers with on success.
pub open spec fn success_status(e: Endpoint) -> u16 {
    match e {
        Endpoint::Series(_) => 202,
        Endpoint::Distribution(_) => 202,
        Endpoint::Tags(_) => 201,
        Endpoint::GetMetrics(_) => 200,
        Endpoint::Metric(_) => 200,
    }
}

/// Whether the endpoint's path parameter, if it has one, is set.
pub open spec fn params_ready(e: Endpoint) -> bool {
    match e {
        Endpoint::Tags(t) => t.name is Some,
        Endpoint::Metric(m) => m.name is Some,
        _ => true,
    }
}

impl Series {
    /// The series endpoint.
    pub fn new() -> (r: Series) {
        Series {  }
    }

    /// The endpoint's path, as an identifier for logs.
    pub fn target() -> (r: String)
        ensures
            r@ == "v2/series"@,
    {
        "v2/series".to_owned()
    }
}

impl Distribution {
    /// The distribution points endpoint, which belongs to V1.
    pub fn new() -> (r: Distribution)
        ensures
            r.version == ApiVersion::V1,
    {
        Distribution { version: ApiVersion::V1 }
    }

    /// The endpoint's path, as an identifier for logs.
    pub fn target() -> (r: String)
        ensures
            r@ == "v1/distribution_points"@,
    {
        "v1/distribution_points".to_owned()
    }
}

impl Tags {
    /// The tag configuration endpoint of a metric.
    pub fn new(metric_name: &str) -> (r: Tags)
        ensures
            r.name matches Some(n) && n@ == metric_name@,
    {
        Tags { name: Some(metric_name.to_owned()) }
    }

    /// Sets the metric whose tags are configured.
    pub fn set_metric_name(self, metric_name: String) -> (r: Tags)
        ensures
            r.name == Some(metric_name),
    {
        Tags { name: Some(metric_name) }
    }

    /// The endpoint's path template, as an identifier for logs.
    pub fn target() -> (r: String)
        ensures
            r@ == "v2/metrics/{metric_name}/tags"@,
    {
        "v2/metrics/{metric_name}/tags".to_owned()
    }
}

impl GetMetrics {
    /// The metric listing endpoint, which belongs to V1.
    pub fn new(from: usize, host: Option<String>, tag_filter: Option<String>) -> (r: GetMetrics)
        ensures
            r.from == from,
            r.host == host,
            r.tag_filter == tag_filter,
            r.version == ApiVersion::V1,
    {
        GetMetrics { from, host, tag_filter, version: ApiVersion::V1 }
    }

    /// Sets the start of the listing, in seconds since the Unix epoch.
    pub fn set_from(self, from: usize) -> (r: GetMetrics)
        ensures
            r == (GetMetrics { from, ..self }),
    {
        GetMetrics { from, ..self }
    }

    /// Sets the host filter.
    pub fn set_host(self, host: String) -> (r: GetMetrics)
        ensures
            r == (GetMetrics { host: Some(host), ..self }),
    {
        GetMetrics { host: Some(host), ..self }
    }

    /// Sets the tag filter.
    pub fn set_tag_filter(self, tag_filter: String) -> (r: GetMetrics)
        ensures
            r == (GetMetrics { tag_filter: Some(tag_filter), ..self }),
    {
        GetMetrics { tag_filter: Some(tag_filter), ..self }
    }

    /// The endpoint's path, as an identifier for logs.
    pub fn target() -> (r: String)
        ensures
            r@ == "v1/metrics"@,
    {
        "v1/metrics".to_owned()
    }
}

impl Metric {
    /// The single metric endpoint; its name is set later.
    pub fn new() -> (r: Metric)
        ensures
            r.name is None,
    {
        Metric { name: None }
    }

    /// The endpoint's path prefix, as an identifier for logs.
    pub fn target() -> (r: String)
        ensures
            r@ == "v2/metrics"@,
    {
        "v2/metrics".to_owned()
    }
}

/// Appends an optional path parameter; an absent one adds nothing.
fn append_param(out: &mut String, p: &Option<String>)
    ensures
        final(out)@ == old(out)@ + param_text(*p),
{
    match p {
        Some(s) => out.append(s.as_str()),
        None => {
            assert(old(out)@ + Seq::<char>::empty() =~= old(out)@);
        },
    }
}

impl Endpoint {
    /// The endpoint's path below the API's base URL.
    pub fn path(&self) -> (r: String)
        ensures
            r@ == endpoint_path(*self),
    {
        match self {
            Endpoint::Series(_) => "v2/series".to_owned(),
            Endpoint::Distribution(_) => "v1/distribution_points".to_owned(),
            Endpoint::Tags(t) => {
                let mut s = "v2/metrics/".to_owned();
                append_param(&mut s, &t.name);
                s.append("/tags");
                s
            },
            Endpoint::GetMetrics(_) => "v1/metrics".to_owned(),
            Endpoint::Metric(m) => {
                let mut s = "v2/metrics/".to_owned();
                append_param(&mut s, &m.name);
                s
            },
        }
    }

    /// The API version that offers the endpoint.
    pub fn version(&self) -> (r: ApiVersion)
        ensures
            r == endpoint_version(*self),
    {
        match self {
            Endpoint::Series(_) => ApiVersion::V2,
            Endpoint::Distribution(_) => ApiVersion::V1,
            Endpoint::Tags(_) => ApiVersion::V2,
            Endpoint::GetMetrics(_) => ApiVersion::V1,
            Endpoint::Metric(_) => ApiVersion::V2,
        }
    }

    /// The endpoint's HTTP method.
    pub fn method(&self) -> (r: Method)
        ensures
            r == endpoint_method(*self),
    {
        match self {
            Endpoint::GetMetrics(_) => Method::Get,
            _ => Method::Post,
        }
    }

    /// The status code the endpoint answers with on success.
    pub fn success_status(&self) -> (r: u16)
        ensures
            r == success_status(*self),
    {
        match self {
            Endpoint::Series(_) => 202,
            Endpoint::Distribution(_) => 202,
            Endpoint::Tags(_) => 201,
            Endpoint::GetMetrics(_) => 200,
            Endpoint::Metric(_) => 200,
        }
    }

    /// Sets the path parameter of the endpoints that have one; the others
    /// have a fixed path and are returned unchanged.
    pub fn route(self, route: String) -> (r: Endpoint)
        ensures
            r == (match self {
                Endpoint::Tags(_) => Endpoint::Tags(Tags { name: Some(route) }),
                Endpoint::Metric(_) => Endpoint::Metric(Metric { name: Some(route) }),
                _ => self,
            }),
    {
        match self {
            Endpoint::Tags(_) => Endpoint::Tags(Tags { name: Some(route) }),
            Endpoint::Metric(_) => Endpoint::Metric(Metric { name: Some(route) }),
            _ => self,
        }
    }
}

} // verus!
