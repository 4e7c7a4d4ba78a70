//! The front door of the library: pick an API version, then an endpoint.

use vstd::prelude::*;

use crate::endpoints::{
    endpoint_path, supported, Distribution, Endpoint, GetMetrics, Metric, Series, Tags,
};
use crate::headers::header_entries;
use crate::json::{json_parse, parse_json};
use crate::route::Route;
use crate::version::ApiVersion;

verus! {

/// Builder for requests to the API: holds the selected version (V2 unless
/// changed) and hands out routes to the endpoints of that version.
#[derive(Clone, Debug)]
pub struct Builder {
    /// API version
    pub version: ApiVersion,
    /// Request headers
    pub headers: Vec<(String, String)>,
}

/// Why a route could not be handed out.
#[derive(Clone, Copy, Debug, PartialEq, Eq, Structural)]
pub enum BuilderError {
    /// The endpoint does not exist in the selected API version.
    UnsupportedVersion,
}

/// A route that `select` hands out for `endpoint`: no headers, empty body.
pub open spec fn fresh_route(r: Route, endpoint: Endpoint) -> bool {
    &&& r.endpoint == endpoint
    &&& header_entries(r.headers).dom().is_empty()
    &&& r.body@ == Seq::<char>::empty()
}

impl Default for Builder {
    /// A builder for V2 with no headers.
    fn default() -> (r: Builder)
        ensures
            r.version == ApiVersion::V2,
            r.headers@.len() == 0,
    {
        Builder { version: ApiVersion::V2, headers: Vec::new() }
    }
}

impl Builder {
    /// A builder for V2 with no headers.
    pub fn new() -> (r: Builder)
        ensures
            r.version == ApiVersion::V2,
            r.headers@.len() == 0,
    {
        Builder::default()
    }

    /// Checks that `body` is JSON text: `None` if it is, else the parser's
    /// error.
    pub fn is_body_valid_json(body: &str) -> (r: Option<serde_json::Error>)
        ensures
            r is None <==> json_parse(body@) is Some,
    {
        match parse_json(body) {
            Ok(_) => None,
            Err(e) => Some(e),
        }
    }

    /// Selects API version 1.
    pub fn v1(&mut self) -> (r: &mut Builder)
        ensures
            r.version == ApiVersion::V1,
            r.headers == old(self).headers,
            *final(self) == *final(r),
    {
        self.version = ApiVersion::V1;
        self
    }

    /// Selects API version 2.
    pub fn v2(&mut self) -> (r: &mut Builder)
        ensures
            r.version == ApiVersion::V2,
            r.headers == old(self).headers,
            *final(self) == *final(r),
    {
        self.version = ApiVersion::V2;
        self
    }

    /// A route to `endpoint`, if the selected version offers it.
    pub fn select(&self, endpoint: Endpoint) -> (r: Result<Route, BuilderError>)
        ensures
            r is Ok <==> supported(self.version, endpoint),
            r matches Ok(route) ==> fresh_route(route, endpoint),
            r is Err ==> r == Err::<Route, BuilderError>(BuilderError::UnsupportedVersion),
    {
        if endpoint.version() == self.version {
            Ok(Route::new(endpoint))
        } else {
            Err(BuilderError::UnsupportedVersion)
        }
    }

    /// A route that creates a tag configuration for `metric_name`
    /// (`v2/metrics/{metric_name}/tags`); V2 only.
    pub fn create_new_tag_config(&self, metric_name: &str) -> (r: Result<Route, BuilderError>)
        ensures
            r is Ok <==> self.version == ApiVersion::V2,
            r is Err ==> r == Err::<Route, BuilderError>(BuilderError::UnsupportedVersion),
            r matches Ok(route) ==> route.endpoint matches Endpoint::Tags(t) && t.name matches Some(
                n,
            ) && n@ == metric_name@ && fresh_route(route, route.endpoint) && endpoint_path(
                route.endpoint,
            ) == "v2/metrics/"@ + metric_name@ + "/tags"@,
    {
        self.select(Endpoint::Tags(Tags::new(metric_name)))
    }

    /// A route that posts series data (`v2/series`); V2 only.
    pub fn post_series(&self) -> (r: Result<Route, BuilderError>)
        ensures
            r is Ok <==> self.version == ApiVersion::V2,
            r is Err ==> r == Err::<Route, BuilderError>(BuilderError::UnsupportedVersion),
            r matches Ok(route) ==> fresh_route(route, Endpoint::Series(Series {  }))
                && endpoint_path(route.endpoint) == "v2/series"@,
    {
        self.select(Endpoint::Series(Series::new()))
    }

    /// A route that posts distribution points (`v1/distribution_points`);
    /// V1 only.
    pub fn post_distribution(&self) -> (r: Result<Route, BuilderError>)
        ensures
            r is Ok <==> self.version == ApiVersion::V1,
            r is Err ==> r == Err::<Route, BuilderError>(BuilderError::UnsupportedVersion),
            r matches Ok(route) ==> fresh_route(
                route,
                Endpoint::Distribution(Distribution { version: ApiVersion::V1 }),
            ) && endpoint_path(route.endpoint) == "v1/distribution_points"@,
    {
        self.select(Endpoint::Distribution(Distribution::new()))
    }

    /// A route that lists the metrics active since `from` (`v1/metrics`);
    /// V1 only.
    pub fn get_metrics(&self, from: usize, host: Option<String>, tag_filter: Option<String>) -> (r:
        Result<Route, BuilderError>)
        ensures
            r is Ok <==> self.version == ApiVersion::V1,
            r is Err ==> r == Err::<Route, BuilderError>(BuilderError::UnsupportedVersion),
            r matches Ok(route) ==> fresh_route(
                route,
                Endpoint::GetMetrics(
                    GetMetrics { from, host, tag_filter, version: ApiVersion::V1 },
                ),
            ) && endpoint_path(route.endpoint) == "v1/metrics"@,
    {
        self.select(Endpoint::GetMetrics(GetMetrics::new(from, host, tag_filter)))
    }

    /// A route to a single metric (`v2/metrics/{metric_name}`), whose name
    /// is set with `route`; V2 only.
    pub fn metrics(&self) -> (r: Result<Route, BuilderError>)
        ensures
            r is Ok <==> self.version == ApiVersion::V2,
            r is Err ==> r == Err::<Route, BuilderError>(BuilderError::UnsupportedVersion),
            r matches Ok(route) ==> fresh_route(route, Endpoint::Metric(Metric { name: None })),
    {
        self.select(Endpoint::Metric(Metric::new()))
    }
}

} // verus!
