//! A route: one endpoint with the headers and body of the request that
//! will be sent to it.

use vstd::prelude::*;
use vstd::string::StringExecFns;

use crate::endpoints::{
    endpoint_method, endpoint_path, param_text, params_ready, Endpoint, Method,
};
use crate::headers::{
    empty_headers, header_check, header_entries, set_header, with_entry, HeaderError,
};
use crate::response::{
    read_response, answer_of, response_failure, ExecuteError, Response, CLIENT_ERROR_STATUS,
};
use crate::json::json_parse;

verus! {

/// A route to one endpoint, with the request's headers and body.
#[derive(Debug)]
pub struct Route {
    /// The endpoint and its path parameters.
    pub endpoint: Endpoint,
    /// The request headers.
    pub headers: reqwest::header::HeaderMap,
    /// The request body; empty unless set.
    pub body: String,
}

/// A request ready to be sent: method, full URL and body. The headers are
/// those of the route it was planned from.
#[derive(Clone, Debug)]
pub struct Request {
    /// GET or POST, fixed by the endpoint.
    pub method: Method,
    /// The base URL, the path and, for the listing, the query.
    pub url: String,
    /// The route's body.
    pub body: String,
}

/// The base URL of the API.
pub open spec fn base_url() -> Seq<char> {
    "https://api.datadoghq.com/api/"@
}

pub open spec fn digit_char(d: nat) -> char {
    (('0' as u32) + d) as char
}

/// The decimal digits of a number, most significant first.
pub open spec fn decimal(n: nat) -> Seq<char>
    decreases n,
{
    if n < 10 {
        seq![digit_char(n)]
    } else {
        decimal(n / 10).push(digit_char(n % 10))
    }
}

/// The query string of the metric listing.
pub open spec fn listing_query(from: nat, host: Option<String>, tag_filter: Option<String>) -> Seq<
    char,
> {
    "?from="@ + decimal(from) + "&host="@ + param_text(host) + "&tag_filter="@ + param_text(
        tag_filter,
    )
}

/// The full URL of an endpoint.
pub open spec fn endpoint_url(e: Endpoint) -> Seq<char> {
    match e {
        Endpoint::GetMetrics(g) => base_url() + endpoint_path(e) + listing_query(
            g.from as nat,
            g.host,
            g.tag_filter,
        ),
        _ => base_url() + endpoint_path(e),
    }
}

/// The result of setting each pair of `list` in turn, stopping at the first
/// that cannot be set.
pub open spec fn apply_headers(
    entries: Map<Seq<char>, Seq<Seq<u8>>>,
    list: Seq<(Seq<char>, Seq<char>)>,
) -> Result<Map<Seq<char>, Seq<Seq<u8>>>, HeaderError>
    decreases list.len(),
{
    if list.len() == 0 {
        Ok(entries)
    } else {
        match header_check(entries, list[0].0, list[0].1) {
            Err(e) => Err(e),
            Ok(_) => apply_headers(with_entry(entries, list[0].0, list[0].1), list.drop_first()),
        }
    }
}

/// The text of a list of header pairs.
pub open spec fn pairs_text(list: Seq<(&str, &str)>) -> Seq<(Seq<char>, Seq<char>)> {
    list.map_values(|p: (&str, &str)| (p.0@, p.1@))
}

/// The text of one decimal digit.
fn digit_str(d: usize) -> (r: &'static str)
    requires
        d < 10,
    ensures
        r@ == seq![digit_char(d as nat)],
{
    proof {
        reveal_strlit("0");
        reveal_strlit("1");
        reveal_strlit("2");
        reveal_strlit("3");
        reveal_strlit("4");
        reveal_strlit("5");
        reveal_strlit("6");
        reveal_strlit("7");
        reveal_strlit("8");
        reveal_strlit("9");
    }
    match d {
        0 => "0",
        1 => "1",
        2 => "2",
        3 => "3",
        4 => "4",
        5 => "5",
        6 => "6",
        7 => "7",
        8 => "8",
        _ => "9",
    }
}

/// Appends the decimal digits of `n`.
fn append_decimal(out: &mut String, n: usize)
    ensures
        final(out)@ == old(out)@ + decimal(n as nat),
    decreases n,
{
    if n >= 10 {
        append_decimal(out, n / 10);
    }
    out.append(digit_str(n % 10));
    proof {
        if n < 10 {
            assert(old(out)@ + decimal(n as nat) =~= old(out)@ + seq![digit_char(n as nat)]);
        } else {
            assert(old(out)@ + decimal(n as nat) =~= old(out)@ + decimal((n / 10) as nat) + seq![
                digit_char((n % 10) as nat),
            ]);
        }
    }
}

/// Appends an optional query value; an absent one adds nothing.
fn append_opt(out: &mut String, p: &Option<String>)
    ensures
        final(out)@ == old(out)@ + param_text(*p),
{
    match p {
        Some(s) => out.append(s.as_str()),
        None => {
            assert(old(out)@ + Seq::<char>::empty() =~= old(out)@);
        },
    }
}

impl Route {
    /// A route to `endpoint` with no headers and an empty body.
    pub fn new(endpoint: Endpoint) -> (r: Route)
        ensures
            r.endpoint == endpoint,
            header_entries(r.headers).dom().is_empty(),
            r.body@ == Seq::<char>::empty(),
    {
        Route { endpoint, headers: empty_headers(), body: String::new() }
    }

    /// The route's path below the API's base URL.
    pub fn path(&self) -> (r: String)
        ensures
            r@ == endpoint_path(self.endpoint),
    {
        self.endpoint.path()
    }

    /// Sets the path parameter (the metric name) of the endpoints that have
    /// one; the others have a fixed path.
    pub fn route(self, route: String) -> (r: Route)
        ensures
            r.endpoint == (match self.endpoint {
                Endpoint::Tags(_) => Endpoint::Tags(crate::endpoints::Tags { name: Some(route) }),
                Endpoint::Metric(_) => Endpoint::Metric(
                    crate::endpoints::Metric { name: Some(route) },
                ),
                _ => self.endpoint,
            }),
            r.headers == self.headers,
            r.body == self.body,
    {
        let Route { endpoint, headers, body } = self;
        Route { endpoint: endpoint.route(route), headers, body }
    }

    /// Adds the header `key: value`, replacing every earlier value of that
    /// name. Fails if the name or the value is malformed, or if the request
    /// already carries the most header names it may.
    pub fn with_header(self, key: &str, value: &str) -> (r: Result<Route, HeaderError>)
        ensures
            r.is_ok() == (header_check(header_entries(self.headers), key@, value@) is Ok),
            r matches Err(e) ==> header_check(header_entries(self.headers), key@, value@) == Err::<(), HeaderError>(e),
            r matches Ok(route) ==> route.endpoint == self.endpoint && route.body == self.body
                && header_entries(route.headers) == with_entry(
                header_entries(self.headers),
                key@,
                value@,
            ),
    {
        let mut route = self;
        match set_header(&mut route.headers, key, value) {
            Ok(()) => Ok(route),
            Err(e) => Err(e),
        }
    }

    /// Adds each header of `headers` in turn, as `with_header` does; fails
    /// at the first that cannot be set.
    pub fn headers(self, headers: Vec<(&str, &str)>) -> (r: Result<Route, HeaderError>)
        ensures
            apply_headers(header_entries(self.headers), pairs_text(headers@)) matches Ok(m) ==> (
            r matches Ok(route) && route.endpoint == self.endpoint && route.body == self.body
                && header_entries(route.headers) == m),
            apply_headers(header_entries(self.headers), pairs_text(headers@)) matches Err(e) ==> r
                == Err::<Route, HeaderError>(e),
    {
        let ghost list = pairs_text(headers@);
        let ghost start = header_entries(self.headers);
        let mut route = self;
        let mut i: usize = 0;
        proof {
            assert(list.subrange(0, list.len() as int) =~= list);
        }
        while i < headers.len()
            invariant
                0 <= i <= headers.len(),
                list == pairs_text(headers@),
                list.len() == headers@.len(),
                start == header_entries(self.headers),
                route.endpoint == self.endpoint,
                route.body == self.body,
                apply_headers(start, list) == apply_headers(
                    header_entries(route.headers),
                    list.subrange(i as int, list.len() as int),
                ),
            decreases headers.len() - i,
        {
            let (key, value) = headers[i];
            let ghost before = header_entries(route.headers);
            proof {
                let rest = list.subrange(i as int, list.len() as int);
                assert(rest[0] == (key@, value@));
                assert(rest.drop_first() =~= list.subrange(i + 1, list.len() as int));
            }
            match set_header(&mut route.headers, key, value) {
                Ok(()) => {},
                Err(e) => {
                    proof {
                        let rest = list.subrange(i as int, list.len() as int);
                        assert(apply_headers(before, rest) == Err::<Map<Seq<char>, Seq<Seq<u8>>>, HeaderError>(e));
                    }
                    return Err(e);
                },
            }
            i = i + 1;
        }
        proof {
            assert(list.subrange(i as int, list.len() as int) =~= Seq::<(Seq<char>, Seq<char>)>::empty());
        }
        Ok(route)
    }

    /// Adds the API key header, `DD-API-KEY`.
    pub fn with_api_key(self, key: &str) -> (r: Result<Route, HeaderError>)
        ensures
            r.is_ok() == (header_check(header_entries(self.headers), "DD-API-KEY"@, key@) is Ok),
            r matches Ok(route) ==> route.endpoint == self.endpoint && route.body == self.body
                && header_entries(route.headers) == with_entry(
                header_entries(self.headers),
                "DD-API-KEY"@,
                key@,
            ),
    {
        self.with_header("DD-API-KEY", key)
    }

    /// Adds the application key header, `DD-APPLICATION-KEY`.
    pub fn with_application_key(self, key: &str) -> (r: Result<Route, HeaderError>)
        ensures
            r.is_ok() == (header_check(header_entries(self.headers), "DD-APPLICATION-KEY"@, key@) is Ok),
            r matches Ok(route) ==> route.endpoint == self.endpoint && route.body == self.body
                && header_entries(route.headers) == with_entry(
                header_entries(self.headers),
                "DD-APPLICATION-KEY"@,
                key@,
            ),
    {
        self.with_header("DD-APPLICATION-KEY", key)
    }

    /// Sets the request body.
    pub fn body(self, body: &str) -> (r: Route)
        ensures
            r.endpoint == self.endpoint,
            r.headers == self.headers,
            r.body@ == body@,
    {
        let Route { endpoint, headers, body: _ } = self;
        Route { endpoint, headers, body: body.to_owned() }
    }

    /// The full URL of the route's request.
    pub fn url(&self) -> (r: String)
        ensures
            r@ == endpoint_url(self.endpoint),
    {
        let mut url = "https://api.datadoghq.com/api/".to_owned();
        let path = self.endpoint.path();
        url.append(path.as_str());
        match &self.endpoint {
            Endpoint::GetMetrics(g) => {
                url.append("?from=");
                append_decimal(&mut url, g.from);
                url.append("&host=");
                append_opt(&mut url, &g.host);
                url.append("&tag_filter=");
                append_opt(&mut url, &g.tag_filter);
            },
            _ => {},
        }
        url
    }

    /// Plans the request: fails with status 400, before anything is sent,
    /// when the endpoint's path parameter is not set.
    pub fn request(&self) -> (r: Result<Request, (u16, ExecuteError)>)
        ensures
            r is Ok <==> params_ready(self.endpoint),
            r is Err ==> r == Err::<Request, (u16, ExecuteError)>(
                (CLIENT_ERROR_STATUS, ExecuteError::MissingPathParameter),
            ),
            r matches Ok(req) ==> req.method == endpoint_method(self.endpoint) && req.url@
                == endpoint_url(self.endpoint) && req.body@ == self.body@,
    {
        let ready = match &self.endpoint {
            Endpoint::Tags(t) => t.name.is_some(),
            Endpoint::Metric(m) => m.name.is_some(),
            _ => true,
        };
        if !ready {
            return Err((CLIENT_ERROR_STATUS, ExecuteError::MissingPathParameter));
        }
        Ok(Request { method: self.endpoint.method(), url: self.url(), body: self.body.clone() })
    }

    /// Turns the answer to the route's request into a status and a typed
    /// result, as `read_response` does for its endpoint.
    pub fn read_response(&self, status: u16, body: &str) -> (r: (u16, Result<Response, ExecuteError>))
        ensures
            response_failure(self.endpoint, status, body@) matches Some(f) ==> r.0 == f.0 && r.1
                == Err::<Response, ExecuteError>(f.1),
            response_failure(self.endpoint, status, body@) is None ==> r.0 == status && (
            r.1 matches Ok(a) && answer_of(self.endpoint, a, json_parse(body@)->0)),
    {
        read_response(&self.endpoint, status, body)
    }
}

} // verus!
