//! The typed answers of each endpoint, read from the response body, and the
//! rule that turns a status code and a body into a result.
//!
//! The status is checked first: any status but the endpoint's success code
//! is an error carrying that status, and the body is not read. On success
//! the body must be JSON of the documented shape; if it is not, the result
//! is a client-side error with status 400.

use vstd::prelude::*;

use crate::json::{
    field, json_field, json_i64, json_items, json_null, json_parse, json_str, json_bool,
    parse_json,
};
use crate::endpoints::{success_status, Endpoint};
use crate::text::same_text;
use crate::timestamp::{timestamp_in_range, timestamp_ok};

verus! {

/// The status reported for errors found on the client side.
pub const CLIENT_ERROR_STATUS: u16 = 400;

/// Why a request did not produce a typed answer.
#[derive(Clone, Copy, Debug, PartialEq, Eq, Structural)]
pub enum ExecuteError {
    /// The endpoint's path parameter was not set; nothing was sent.
    MissingPathParameter,
    /// The request failed before an answer came (connection, DNS, TLS).
    Transport,
    /// The server answered with a status other than the endpoint's success code.
    Status,
    /// The body of a successful answer is not JSON.
    Malformed,
    /// The body of a successful answer is JSON of another shape.
    Schema,
}

/// Answer of the distribution points endpoint.
#[derive(Clone, Debug)]
pub struct DistributionResponse {
    /// Status of payload acceptance
    pub status: String,
}

/// Answer of the series endpoint.
#[derive(Clone, Debug)]
pub struct SeriesResponse {
    /// The errors the server reports, as JSON values.
    pub errors: Vec<serde_json::Value>,
}

/// Answer of the metric listing endpoint.
#[derive(Clone, Debug)]
pub struct GetMetricsResponse {
    /// Time when the metrics were active, seconds since the Unix epoch.
    pub from: String,
    /// List of metric names.
    pub metrics: Vec<String>,
}

/// The text of each string of a list.
pub open spec fn texts(l: Seq<String>) -> Seq<Seq<char>> {
    l.map_values(|s: String| s@)
}

impl View for DistributionResponse {
    type V = Seq<char>;

    open spec fn view(&self) -> Seq<char> {
        self.status@
    }
}

impl View for SeriesResponse {
    type V = Seq<serde_json::Value>;

    open spec fn view(&self) -> Seq<serde_json::Value> {
        self.errors@
    }
}

impl View for GetMetricsResponse {
    type V = (Seq<char>, Seq<Seq<char>>);

    open spec fn view(&self) -> (Seq<char>, Seq<Seq<char>>) {
        (self.from@, texts(self.metrics@))
    }
}

/// The text of a string member of an object.
pub open spec fn str_member(v: serde_json::Value, key: Seq<char>) -> Option<Seq<char>> {
    match json_field(v, key) {
        Some(f) => json_str(f),
        None => None,
    }
}

/// The texts of an array of strings; `None` if it is not one.
pub open spec fn string_list(v: serde_json::Value) -> Option<Seq<Seq<char>>> {
    match json_items(v) {
        Some(items) => if forall|i: int| 0 <= i < items.len() ==> (#[trigger] json_str(items[i])) is Some {
            Some(Seq::new(items.len(), |i: int| json_str(items[i])->0))
        } else {
            None
        },
        None => None,
    }
}

/// A member that is an array of strings.
pub open spec fn string_list_member(v: serde_json::Value, key: Seq<char>) -> Option<Seq<Seq<char>>> {
    match json_field(v, key) {
        Some(f) => string_list(f),
        None => None,
    }
}

/// The body of the distribution endpoint: `{"status": string}`.
pub open spec fn distribution_of(v: serde_json::Value) -> Option<Seq<char>> {
    str_member(v, "status"@)
}

/// The body of the series endpoint: `{"errors": [value]}`.
pub open spec fn series_of(v: serde_json::Value) -> Option<Seq<serde_json::Value>> {
    match json_field(v, "errors"@) {
        Some(f) => json_items(f),
        None => None,
    }
}

/// The body of the metric listing: `{"from": string, "metrics": [string]}`.
pub open spec fn listing_of(v: serde_json::Value) -> Option<(Seq<char>, Seq<Seq<char>>)> {
    match (str_member(v, "from"@), string_list_member(v, "metrics"@)) {
        (Some(from), Some(metrics)) => Some((from, metrics)),
        _ => None,
    }
}

/// The model that `read` gives of a body text, if it is JSON.
pub open spec fn of_text<T>(body: Seq<char>, read: spec_fn(serde_json::Value) -> Option<T>) -> Option<T> {
    match json_parse(body) {
        Some(v) => read(v),
        None => None,
    }
}

/// The error, with its status, that an answer gives; `None` when it gives
/// a typed result.
pub open spec fn failure(status: u16, expected: u16, parsed: bool, readable: bool) -> Option<
    (u16, ExecuteError),
> {
    if status != expected {
        Some((status, ExecuteError::Status))
    } else if !parsed {
        Some((CLIENT_ERROR_STATUS, ExecuteError::Malformed))
    } else if !readable {
        Some((CLIENT_ERROR_STATUS, ExecuteError::Schema))
    } else {
        None
    }
}

/// The error of an answer to an endpoint whose body model is `read`.
pub open spec fn failure_of<T>(
    status: u16,
    expected: u16,
    body: Seq<char>,
    read: spec_fn(serde_json::Value) -> Option<T>,
) -> Option<(u16, ExecuteError)> {
    failure(status, expected, json_parse(body) is Some, of_text(body, read) is Some)
}

/// Reads a string member of an object.
fn read_str_member(v: &serde_json::Value, key: &str) -> (r: Option<String>)
    ensures
        r is Some <==> str_member(*v, key@) is Some,
        r matches Some(s) ==> str_member(*v, key@) == Some(s@),
{
    match field(v, key) {
        Some(f) => match f.as_str() {
            Some(s) => Some(s.to_owned()),
            None => None,
        },
        None => None,
    }
}

/// Reads an array of strings.
fn read_string_list(v: &serde_json::Value) -> (r: Option<Vec<String>>)
    ensures
        r is Some <==> string_list(*v) is Some,
        r matches Some(l) ==> string_list(*v) == Some(texts(l@)),
{
    let items = match v.as_array() {
        Some(a) => a,
        None => return None,
    };
    let mut out: Vec<String> = Vec::new();
    let mut i: usize = 0;
    while i < items.len()
        invariant
            0 <= i <= items.len(),
            json_items(*v) == Some(items@),
            out@.len() == i,
            forall|j: int| 0 <= j < i ==> json_str(items@[j]) == Some(#[trigger] out@[j]@),
        decreases items.len() - i,
    {
        match items[i].as_str() {
            Some(s) => out.push(s.to_owned()),
            None => {
                assert(json_str(items@[i as int]) is None);
                return None;
            },
        }
        i = i + 1;
    }
    proof {
        assert forall|j: int| 0 <= j < items@.len() implies (#[trigger] json_str(items@[j])) is Some by {
            assert(json_str(items@[j]) == Some(out@[j]@));
        }
        assert(texts(out@) =~= Seq::new(items@.len(), |j: int| json_str(items@[j])->0));
    }
    Some(out)
}

/// Reads a member that is an array of strings.
fn read_string_list_member(v: &serde_json::Value, key: &str) -> (r: Option<Vec<String>>)
    ensures
        r is Some <==> string_list_member(*v, key@) is Some,
        r matches Some(l) ==> string_list_member(*v, key@) == Some(texts(l@)),
{
    match field(v, key) {
        Some(f) => read_string_list(f),
        None => None,
    }
}

impl DistributionResponse {
    /// Reads the answer from a JSON value.
    pub fn from_json(v: &serde_json::Value) -> (r: Option<DistributionResponse>)
        ensures
            r is Some <==> distribution_of(*v) is Some,
            r matches Some(d) ==> distribution_of(*v) == Some(d@),
    {
        match read_str_member(v, "status") {
            Some(status) => Some(DistributionResponse { status }),
            None => None,
        }
    }
}

impl SeriesResponse {
    /// Reads the answer from a JSON value.
    pub fn from_json(v: &serde_json::Value) -> (r: Option<SeriesResponse>)
        ensures
            r is Some <==> series_of(*v) is Some,
            r matches Some(s) ==> series_of(*v) == Some(s@),
    {
        match field(v, "errors") {
            Some(f) => match f.as_array() {
                Some(items) => {
                    let errors = items.clone();
                    assert(errors@ =~= items@);
                    Some(SeriesResponse { errors })
                },
                None => None,
            },
            None => None,
        }
    }
}

impl GetMetricsResponse {
    /// Reads the answer from a JSON value.
    pub fn from_json(v: &serde_json::Value) -> (r: Option<GetMetricsResponse>)
        ensures
            r is Some <==> listing_of(*v) is Some,
            r matches Some(g) ==> listing_of(*v) == Some(g@),
    {
        let from = match read_str_member(v, "from") {
            Some(s) => s,
            None => return None,
        };
        match read_string_list_member(v, "metrics") {
            Some(metrics) => Some(GetMetricsResponse { from, metrics }),
            None => None,
        }
    }
}

/// A space aggregation for use in query.
#[derive(Clone, Copy, Debug, PartialEq, Eq, Structural)]
pub enum SpaceEnum {
    /// `avg`
    Avg,
    /// `max`
    Max,
    /// `min`
    Min,
    /// `sum`
    Sum,
}

/// A time aggregation for use in query.
#[derive(Clone, Copy, Debug, PartialEq, Eq, Structural)]
pub enum TimeEnum {
    /// `avg`
    Avg,
    /// `count`
    Count,
    /// `max`
    Max,
    /// `min`
    Min,
    /// `sum`
    Sum,
}

/// The type of a metric.
#[derive(Clone, Copy, Debug, PartialEq, Eq, Structural)]
pub enum MetricType {
    /// `gauge`
    Gauge,
    /// `count`
    Count,
    /// `rate`
    Rate,
    /// `distribution`
    Distribution,
}

/// The resource type of a tag configuration.
#[derive(Clone, Copy, Debug, PartialEq, Eq, Structural)]
pub enum MetricTag {
    /// `manage_tags`
    ManageTags,
}

/// A queryable aggregation: a space and a time aggregation.
#[derive(Clone, Copy, Debug, PartialEq, Eq, Structural)]
pub struct Aggregation {
    /// A space aggregation for use in query.
    pub space: SpaceEnum,
    /// A time aggregation for use in query.
    pub time: TimeEnum,
}

/// The attributes of a tag configuration. Timestamps are seconds since the
/// Unix epoch; absent or null ones are `None`.
#[derive(Clone, Debug)]
pub struct TagsResponseAttributes {
    /// The time of creation
    pub created_at: Option<i64>,
    /// Whether percentiles are included
    pub included_percentiles: bool,
    /// The metric's type
    pub type_: MetricType,
    /// The time of the last change
    pub modified_at: Option<i64>,
    /// The queryable tag keys
    pub tags: Vec<String>,
    /// The queryable aggregations
    pub aggregations: Vec<Aggregation>,
}

/// The data of a tag configuration answer.
#[derive(Clone, Debug)]
pub struct TagsResponseData {
    /// The resource type
    pub type_: MetricTag,
    /// The metric name
    pub id: String,
    /// The configuration
    pub attributes: TagsResponseAttributes,
}

/// Answer of the tag configuration endpoint.
#[derive(Clone, Debug)]
pub struct TagsResponse {
    /// The configuration created
    pub data: TagsResponseData,
}

/// The attributes of a metric. Timestamps are milliseconds since the Unix
/// epoch; absent or null ones are `None`.
#[derive(Clone, Debug)]
pub struct MetricResponseAttributes {
    /// The time of creation
    pub created_at: Option<i64>,
    /// Whether percentiles are included
    pub included_percentiles: bool,
    /// The metric's type
    pub type_: MetricType,
    /// The time of the last change
    pub modified_at: Option<i64>,
    /// The queryable tag keys
    pub tags: Vec<String>,
    /// The queryable aggregations
    pub aggregations: Vec<Aggregation>,
}

/// The data of a metric answer.
#[derive(Clone, Debug)]
pub struct MetricResponseData {
    /// The resource type
    pub type_: MetricTag,
    /// The metric name
    pub id: String,
    /// The metric's attributes
    pub attributes: MetricResponseAttributes,
}

/// Answer of the single metric endpoint.
#[derive(Clone, Debug)]
pub struct MetricResponse {
    /// The metric
    pub data: MetricResponseData,
}

/// What the attributes of a tag configuration or a metric hold.
pub struct AttributesModel {
    pub created_at: Option<i64>,
    pub included_percentiles: bool,
    pub metric_type: MetricType,
    pub modified_at: Option<i64>,
    pub tags: Seq<Seq<char>>,
    pub aggregations: Seq<Aggregation>,
}

/// What the data of a tag configuration or a metric answer holds.
pub struct ConfigModel {
    pub kind: MetricTag,
    pub id: Seq<char>,
    pub attributes: AttributesModel,
}

impl View for TagsResponseAttributes {
    type V = AttributesModel;

    open spec fn view(&self) -> AttributesModel {
        AttributesModel {
            created_at: self.created_at,
            included_percentiles: self.included_percentiles,
            metric_type: self.type_,
            modified_at: self.modified_at,
            tags: texts(self.tags@),
            aggregations: self.aggregations@,
        }
    }
}

impl View for MetricResponseAttributes {
    type V = AttributesModel;

    open spec fn view(&self) -> AttributesModel {
        AttributesModel {
            created_at: self.created_at,
            included_percentiles: self.included_percentiles,
            metric_type: self.type_,
            modified_at: self.modified_at,
            tags: texts(self.tags@),
            aggregations: self.aggregations@,
        }
    }
}

impl View for TagsResponse {
    type V = ConfigModel;

    open spec fn view(&self) -> ConfigModel {
        ConfigModel { kind: self.data.type_, id: self.data.id@, attributes: self.data.attributes@ }
    }
}

impl View for MetricResponse {
    type V = ConfigModel;

    open spec fn view(&self) -> ConfigModel {
        ConfigModel { kind: self.data.type_, id: self.data.id@, attributes: self.data.attributes@ }
    }
}

pub open spec fn space_of(s: Seq<char>) -> Option<SpaceEnum> {
    if s == "avg"@ {
        Some(SpaceEnum::Avg)
    } else if s == "max"@ {
        Some(SpaceEnum::Max)
    } else if s == "min"@ {
        Some(SpaceEnum::Min)
    } else if s == "sum"@ {
        Some(SpaceEnum::Sum)
    } else {
        None
    }
}

pub open spec fn time_of(s: Seq<char>) -> Option<TimeEnum> {
    if s == "avg"@ {
        Some(TimeEnum::Avg)
    } else if s == "count"@ {
        Some(TimeEnum::Count)
    } else if s == "max"@ {
        Some(TimeEnum::Max)
    } else if s == "min"@ {
        Some(TimeEnum::Min)
    } else if s == "sum"@ {
        Some(TimeEnum::Sum)
    } else {
        None
    }
}

pub open spec fn metric_type_of(s: Seq<char>) -> Option<MetricType> {
    if s == "gauge"@ {
        Some(MetricType::Gauge)
    } else if s == "count"@ {
        Some(MetricType::Count)
    } else if s == "rate"@ {
        Some(MetricType::Rate)
    } else if s == "distribution"@ {
        Some(MetricType::Distribution)
    } else {
        None
    }
}

pub open spec fn metric_tag_of(s: Seq<char>) -> Option<MetricTag> {
    if s == "manage_tags"@ {
        Some(MetricTag::ManageTags)
    } else {
        None
    }
}

/// An aggregation object: `{"space": string, "time": string}`.
pub open spec fn aggregation_of(v: serde_json::Value) -> Option<Aggregation> {
    match (str_member(v, "space"@), str_member(v, "time"@)) {
        (Some(s), Some(t)) => match (space_of(s), time_of(t)) {
            (Some(space), Some(time)) => Some(Aggregation { space, time }),
            _ => None,
        },
        _ => None,
    }
}

/// An array of aggregation objects.
pub open spec fn aggregation_list(v: serde_json::Value) -> Option<Seq<Aggregation>> {
    match json_items(v) {
        Some(items) => if forall|i: int| 0 <= i < items.len() ==> (#[trigger] aggregation_of(items[i])) is Some {
            Some(Seq::new(items.len(), |i: int| aggregation_of(items[i])->0))
        } else {
            None
        },
        None => None,
    }
}

/// An optional timestamp member: absent or null gives `Some(None)`; an
/// integer naming a representable date gives `Some(Some(n))`; anything else
/// is malformed (`None`).
pub open spec fn timestamp_member(v: serde_json::Value, key: Seq<char>, millis: bool) -> Option<Option<i64>> {
    match json_field(v, key) {
        None => Some(None),
        Some(f) => if json_null(f) {
            Some(None)
        } else {
            match json_i64(f) {
                Some(n) => if timestamp_ok(n, millis) {
                    Some(Some(n))
                } else {
                    None
                },
                None => None,
            }
        },
    }
}

/// An optional boolean member, false when absent.
pub open spec fn flag_member(v: serde_json::Value, key: Seq<char>) -> Option<bool> {
    match json_field(v, key) {
        None => Some(false),
        Some(f) => json_bool(f),
    }
}

/// An optional member holding aggregations, none when absent.
pub open spec fn aggregations_member(v: serde_json::Value) -> Option<Seq<Aggregation>> {
    match json_field(v, "aggregations"@) {
        None => Some(Seq::empty()),
        Some(f) => aggregation_list(f),
    }
}

/// The member holding the metric type.
pub open spec fn metric_type_member(v: serde_json::Value) -> Option<MetricType> {
    match str_member(v, "metric_type"@) {
        Some(s) => metric_type_of(s),
        None => None,
    }
}

/// An attributes object: `tags` and `metric_type` are required;
/// `created_at`, `modified_at`, `included_percentiles` and `aggregations`
/// may be left out.
pub open spec fn attributes_of(v: serde_json::Value, millis: bool) -> Option<AttributesModel> {
    let created = timestamp_member(v, "created_at"@, millis);
    let included = flag_member(v, "included_percentiles"@);
    let kind = metric_type_member(v);
    let modified = timestamp_member(v, "modified_at"@, millis);
    let tags = string_list_member(v, "tags"@);
    let aggregations = aggregations_member(v);
    if created is Some && included is Some && kind is Some && modified is Some && tags is Some
        && aggregations is Some {
        Some(
            AttributesModel {
                created_at: created->0,
                included_percentiles: included->0,
                metric_type: kind->0,
                modified_at: modified->0,
                tags: tags->0,
                aggregations: aggregations->0,
            },
        )
    } else {
        None
    }
}

/// A configuration answer:
/// `{"data": {"type": "manage_tags", "id": string, "attributes": {...}}}`.
pub open spec fn config_of(v: serde_json::Value, millis: bool) -> Option<ConfigModel> {
    match json_field(v, "data"@) {
        None => None,
        Some(d) => {
            let kind = match str_member(d, "type"@) {
                Some(s) => metric_tag_of(s),
                None => None,
            };
            let id = str_member(d, "id"@);
            let attributes = match json_field(d, "attributes"@) {
                Some(a) => attributes_of(a, millis),
                None => None,
            };
            if kind is Some && id is Some && attributes is Some {
                Some(ConfigModel { kind: kind->0, id: id->0, attributes: attributes->0 })
            } else {
                None
            }
        },
    }
}

/// The body of the tag configuration endpoint, timestamps in seconds.
pub open spec fn tags_of(v: serde_json::Value) -> Option<ConfigModel> {
    config_of(v, false)
}

/// The body of the single metric endpoint, timestamps in milliseconds.
pub open spec fn metric_of(v: serde_json::Value) -> Option<ConfigModel> {
    config_of(v, true)
}

fn read_space(s: &str) -> (r: Option<SpaceEnum>)
    ensures
        r == space_of(s@),
{
    if same_text(s, "avg") {
        Some(SpaceEnum::Avg)
    } else if same_text(s, "max") {
        Some(SpaceEnum::Max)
    } else if same_text(s, "min") {
        Some(SpaceEnum::Min)
    } else if same_text(s, "sum") {
        Some(SpaceEnum::Sum)
    } else {
        None
    }
}

fn read_time(s: &str) -> (r: Option<TimeEnum>)
    ensures
        r == time_of(s@),
{
    if same_text(s, "avg") {
        Some(TimeEnum::Avg)
    } else if same_text(s, "count") {
        Some(TimeEnum::Count)
    } else if same_text(s, "max") {
        Some(TimeEnum::Max)
    } else if same_text(s, "min") {
        Some(TimeEnum::Min)
    } else if same_text(s, "sum") {
        Some(TimeEnum::Sum)
    } else {
        None
    }
}

fn read_metric_type(s: &str) -> (r: Option<MetricType>)
    ensures
        r == metric_type_of(s@),
{
    if same_text(s, "gauge") {
        Some(MetricType::Gauge)
    } else if same_text(s, "count") {
        Some(MetricType::Count)
    } else if same_text(s, "rate") {
        Some(MetricType::Rate)
    } else if same_text(s, "distribution") {
        Some(MetricType::Distribution)
    } else {
        None
    }
}

fn read_metric_tag(s: &str) -> (r: Option<MetricTag>)
    ensures
        r == metric_tag_of(s@),
{
    if same_text(s, "manage_tags") {
        Some(MetricTag::ManageTags)
    } else {
        None
    }
}

impl Aggregation {
    /// Reads an aggregation from a JSON value.
    pub fn from_json(v: &serde_json::Value) -> (r: Option<Aggregation>)
        ensures
            r == aggregation_of(*v),
    {
        let s = match read_str_member(v, "space") {
            Some(s) => s,
            None => return None,
        };
        let t = match read_str_member(v, "time") {
            Some(t) => t,
            None => return None,
        };
        match (read_space(s.as_str()), read_time(t.as_str())) {
            (Some(space), Some(time)) => Some(Aggregation { space, time }),
            _ => None,
        }
    }
}

fn read_aggregation_list(v: &serde_json::Value) -> (r: Option<Vec<Aggregation>>)
    ensures
        r is Some <==> aggregation_list(*v) is Some,
        r matches Some(l) ==> aggregation_list(*v) == Some(l@),
{
    let items = match v.as_array() {
        Some(a) => a,
        None => return None,
    };
    let mut out: Vec<Aggregation> = Vec::new();
    let mut i: usize = 0;
    while i < items.len()
        invariant
            0 <= i <= items.len(),
            json_items(*v) == Some(items@),
            out@.len() == i,
            forall|j: int| 0 <= j < i ==> aggregation_of(items@[j]) == Some(#[trigger] out@[j]),
        decreases items.len() - i,
    {
        match Aggregation::from_json(&items[i]) {
            Some(a) => out.push(a),
            None => {
                return None;
            },
        }
        i = i + 1;
    }
    proof {
        assert forall|j: int| 0 <= j < items@.len() implies (#[trigger] aggregation_of(items@[j])) is Some by {
            assert(aggregation_of(items@[j]) == Some(out@[j]));
        }
        assert(out@ =~= Seq::new(items@.len(), |j: int| aggregation_of(items@[j])->0));
    }
    Some(out)
}

fn read_timestamp_member(v: &serde_json::Value, key: &str, millis: bool) -> (r: Option<Option<i64>>)
    ensures
        r == timestamp_member(*v, key@, millis),
{
    match field(v, key) {
        None => Some(None),
        Some(f) => if f.is_null() {
            Some(None)
        } else {
            match f.as_i64() {
                Some(n) => if timestamp_in_range(n, millis) {
                    Some(Some(n))
                } else {
                    None
                },
                None => None,
            }
        },
    }
}

fn read_flag_member(v: &serde_json::Value, key: &str) -> (r: Option<bool>)
    ensures
        r == flag_member(*v, key@),
{
    match field(v, key) {
        None => Some(false),
        Some(f) => f.as_bool(),
    }
}

fn read_metric_type_member(v: &serde_json::Value) -> (r: Option<MetricType>)
    ensures
        r == metric_type_member(*v),
{
    match read_str_member(v, "metric_type") {
        Some(s) => read_metric_type(s.as_str()),
        None => None,
    }
}

fn read_aggregations_member(v: &serde_json::Value) -> (r: Option<Vec<Aggregation>>)
    ensures
        r is Some <==> aggregations_member(*v) is Some,
        r matches Some(l) ==> aggregations_member(*v) == Some(l@),
{
    match field(v, "aggregations") {
        None => Some(Vec::new()),
        Some(f) => read_aggregation_list(f),
    }
}

impl TagsResponseAttributes {
    /// Reads the attributes from a JSON value; timestamps are in seconds,
    /// or in milliseconds when `millis` is set.
    pub fn from_json(v: &serde_json::Value, millis: bool) -> (r: Option<TagsResponseAttributes>)
        ensures
            r is Some <==> attributes_of(*v, millis) is Some,
            r matches Some(a) ==> attributes_of(*v, millis) == Some(a@),
    {
        let created_at = match read_timestamp_member(v, "created_at", millis) {
            Some(t) => t,
            None => return None,
        };
        let included_percentiles = match read_flag_member(v, "included_percentiles") {
            Some(b) => b,
            None => return None,
        };
        let type_ = match read_metric_type_member(v) {
            Some(k) => k,
            None => return None,
        };
        let modified_at = match read_timestamp_member(v, "modified_at", millis) {
            Some(t) => t,
            None => return None,
        };
        let tags = match read_string_list_member(v, "tags") {
            Some(l) => l,
            None => return None,
        };
        let aggregations = match read_aggregations_member(v) {
            Some(l) => l,
            None => return None,
        };
        Some(
            TagsResponseAttributes {
                created_at,
                included_percentiles,
                type_,
                modified_at,
                tags,
                aggregations,
            },
        )
    }
}

/// Reads the data member of a configuration answer.
fn read_config(v: &serde_json::Value, millis: bool) -> (r: Option<TagsResponseData>)
    ensures
        r is Some <==> config_of(*v, millis) is Some,
        r matches Some(d) ==> config_of(*v, millis) == Some(
            ConfigModel { kind: d.type_, id: d.id@, attributes: d.attributes@ },
        ),
{
    let d = match field(v, "data") {
        Some(d) => d,
        None => return None,
    };
    let kind = match read_str_member(d, "type") {
        Some(s) => read_metric_tag(s.as_str()),
        None => None,
    };
    let id = read_str_member(d, "id");
    let attributes = match field(d, "attributes") {
        Some(a) => TagsResponseAttributes::from_json(a, millis),
        None => None,
    };
    match (kind, id, attributes) {
        (Some(type_), Some(id), Some(attributes)) => Some(TagsResponseData { type_, id, attributes }),
        _ => None,
    }
}

impl TagsResponse {
    /// Reads the answer from a JSON value.
    pub fn from_json(v: &serde_json::Value) -> (r: Option<TagsResponse>)
        ensures
            r is Some <==> tags_of(*v) is Some,
            r matches Some(t) ==> tags_of(*v) == Some(t@),
    {
        match read_config(v, false) {
            Some(data) => Some(TagsResponse { data }),
            None => None,
        }
    }
}

impl MetricResponse {
    /// Reads the answer from a JSON value.
    pub fn from_json(v: &serde_json::Value) -> (r: Option<MetricResponse>)
        ensures
            r is Some <==> metric_of(*v) is Some,
            r matches Some(m) ==> metric_of(*v) == Some(m@),
    {
        match read_config(v, true) {
            Some(d) => {
                let a = d.attributes;
                let attributes = MetricResponseAttributes {
                    created_at: a.created_at,
                    included_percentiles: a.included_percentiles,
                    type_: a.type_,
                    modified_at: a.modified_at,
                    tags: a.tags,
                    aggregations: a.aggregations,
                };
                Some(MetricResponse { data: MetricResponseData { type_: d.type_, id: d.id, attributes } })
            },
            None => None,
        }
    }
}

/// The typed answer of any endpoint.
#[derive(Clone, Debug)]
pub enum Response {
    /// Answer of `v2/series`
    Series(SeriesResponse),
    /// Answer of `v1/distribution_points`
    Distribution(DistributionResponse),
    /// Answer of `v2/metrics/{metric_name}/tags`
    Tags(TagsResponse),
    /// Answer of `v1/metrics`
    Metrics(GetMetricsResponse),
    /// Answer of `v2/metrics/{metric_name}`
    Metric(MetricResponse),
}

/// Whether a JSON value has the shape of the endpoint's answer.
pub open spec fn readable(e: Endpoint, v: serde_json::Value) -> bool {
    match e {
        Endpoint::Series(_) => series_of(v) is Some,
        Endpoint::Distribution(_) => distribution_of(v) is Some,
        Endpoint::Tags(_) => tags_of(v) is Some,
        Endpoint::GetMetrics(_) => listing_of(v) is Some,
        Endpoint::Metric(_) => metric_of(v) is Some,
    }
}

/// Whether a typed answer is the one the endpoint's reading gives of `v`.
pub open spec fn answer_of(e: Endpoint, r: Response, v: serde_json::Value) -> bool {
    match (e, r) {
        (Endpoint::Series(_), Response::Series(x)) => series_of(v) == Some(x@),
        (Endpoint::Distribution(_), Response::Distribution(x)) => distribution_of(v) == Some(x@),
        (Endpoint::Tags(_), Response::Tags(x)) => tags_of(v) == Some(x@),
        (Endpoint::GetMetrics(_), Response::Metrics(x)) => listing_of(v) == Some(x@),
        (Endpoint::Metric(_), Response::Metric(x)) => metric_of(v) == Some(x@),
        _ => false,
    }
}

/// The error, with its status, that an answer to the endpoint gives; `None`
/// when it gives a typed result.
pub open spec fn response_failure(e: Endpoint, status: u16, body: Seq<char>) -> Option<
    (u16, ExecuteError),
> {
    failure(
        status,
        success_status(e),
        json_parse(body) is Some,
        match json_parse(body) {
            Some(v) => readable(e, v),
            None => false,
        },
    )
}

/// Checks the status and parses the body of an answer.
fn parse_success(status: u16, expected: u16, body: &str) -> (r: Result<
    serde_json::Value,
    (u16, ExecuteError),
>)
    ensures
        status != expected ==> r == Err::<serde_json::Value, (u16, ExecuteError)>(
            (status, ExecuteError::Status),
        ),
        status == expected && json_parse(body@) is None ==> r == Err::<
            serde_json::Value,
            (u16, ExecuteError),
        >((CLIENT_ERROR_STATUS, ExecuteError::Malformed)),
        status == expected && json_parse(body@) is Some ==> r == Ok::<
            serde_json::Value,
            (u16, ExecuteError),
        >(json_parse(body@)->0),
{
    if status != expected {
        return Err((status, ExecuteError::Status));
    }
    match parse_json(body) {
        Ok(v) => Ok(v),
        Err(_) => Err((CLIENT_ERROR_STATUS, ExecuteError::Malformed)),
    }
}

impl DistributionResponse {
    /// Turns an answer of the distribution endpoint (success code 202) into
    /// a status and a typed result.
    pub fn read(status: u16, body: &str) -> (r: (u16, Result<DistributionResponse, ExecuteError>))
        ensures
            failure_of(status, 202, body@, |v: serde_json::Value| distribution_of(v)) matches Some(f) ==> r.0 == f.0 && r.1 == Err::<DistributionResponse, ExecuteError>(f.1),
            failure_of(status, 202, body@, |v: serde_json::Value| distribution_of(v)) is None ==> r.0 == status && (r.1 matches Ok(d) && of_text(body@, |v: serde_json::Value| distribution_of(v)) == Some(d@)),
    {
        match parse_success(status, 202, body) {
            Err((code, e)) => (code, Err(e)),
            Ok(v) => match DistributionResponse::from_json(&v) {
                Some(d) => (status, Ok(d)),
                None => (CLIENT_ERROR_STATUS, Err(ExecuteError::Schema)),
            },
        }
    }
}

impl SeriesResponse {
    /// Turns an answer of the series endpoint (success code 202) into a
    /// status and a typed result.
    pub fn read(status: u16, body: &str) -> (r: (u16, Result<SeriesResponse, ExecuteError>))
        ensures
            failure_of(status, 202, body@, |v: serde_json::Value| series_of(v)) matches Some(f) ==> r.0 == f.0 && r.1 == Err::<SeriesResponse, ExecuteError>(f.1),
            failure_of(status, 202, body@, |v: serde_json::Value| series_of(v)) is None ==> r.0 == status && (r.1 matches Ok(d) && of_text(body@, |v: serde_json::Value| series_of(v)) == Some(d@)),
    {
        match parse_success(status, 202, body) {
            Err((code, e)) => (code, Err(e)),
            Ok(v) => match SeriesResponse::from_json(&v) {
                Some(d) => (status, Ok(d)),
                None => (CLIENT_ERROR_STATUS, Err(ExecuteError::Schema)),
            },
        }
    }
}

impl GetMetricsResponse {
    /// Turns an answer of the metric listing (success code 200) into a
    /// status and a typed result.
    pub fn read(status: u16, body: &str) -> (r: (u16, Result<GetMetricsResponse, ExecuteError>))
        ensures
            failure_of(status, 200, body@, |v: serde_json::Value| listing_of(v)) matches Some(f) ==> r.0 == f.0 && r.1 == Err::<GetMetricsResponse, ExecuteError>(f.1),
            failure_of(status, 200, body@, |v: serde_json::Value| listing_of(v)) is None ==> r.0 == status && (r.1 matches Ok(d) && of_text(body@, |v: serde_json::Value| listing_of(v)) == Some(d@)),
    {
        match parse_success(status, 200, body) {
            Err((code, e)) => (code, Err(e)),
            Ok(v) => match GetMetricsResponse::from_json(&v) {
                Some(d) => (status, Ok(d)),
                None => (CLIENT_ERROR_STATUS, Err(ExecuteError::Schema)),
            },
        }
    }
}

impl TagsResponse {
    /// Turns an answer of the tag configuration endpoint (success code 201)
    /// into a status and a typed result.
    pub fn read(status: u16, body: &str) -> (r: (u16, Result<TagsResponse, ExecuteError>))
        ensures
            failure_of(status, 201, body@, |v: serde_json::Value| tags_of(v)) matches Some(f) ==> r.0 == f.0 && r.1 == Err::<TagsResponse, ExecuteError>(f.1),
            failure_of(status, 201, body@, |v: serde_json::Value| tags_of(v)) is None ==> r.0 == status && (r.1 matches Ok(d) && of_text(body@, |v: serde_json::Value| tags_of(v)) == Some(d@)),
    {
        match parse_success(status, 201, body) {
            Err((code, e)) => (code, Err(e)),
            Ok(v) => match TagsResponse::from_json(&v) {
                Some(d) => (status, Ok(d)),
                None => (CLIENT_ERROR_STATUS, Err(ExecuteError::Schema)),
            },
        }
    }
}

impl MetricResponse {
    /// Turns an answer of the single metric endpoint (success code 200)
    /// into a status and a typed result.
    pub fn read(status: u16, body: &str) -> (r: (u16, Result<MetricResponse, ExecuteError>))
        ensures
            failure_of(status, 200, body@, |v: serde_json::Value| metric_of(v)) matches Some(f) ==> r.0 == f.0 && r.1 == Err::<MetricResponse, ExecuteError>(f.1),
            failure_of(status, 200, body@, |v: serde_json::Value| metric_of(v)) is None ==> r.0 == status && (r.1 matches Ok(d) && of_text(body@, |v: serde_json::Value| metric_of(v)) == Some(d@)),
    {
        match parse_success(status, 200, body) {
            Err((code, e)) => (code, Err(e)),
            Ok(v) => match MetricResponse::from_json(&v) {
                Some(d) => (status, Ok(d)),
                None => (CLIENT_ERROR_STATUS, Err(ExecuteError::Schema)),
            },
        }
    }
}

/// Turns an answer of `endpoint` into a status and a typed result: any
/// status but the endpoint's success code is reported as it came, with a
/// `Status` error, whatever the body holds.
pub fn read_response(endpoint: &Endpoint, status: u16, body: &str) -> (r: (u16, Result<Response, ExecuteError>))
    ensures
        response_failure(*endpoint, status, body@) matches Some(f) ==> r.0 == f.0 && r.1 == Err::<Response, ExecuteError>(f.1),
        response_failure(*endpoint, status, body@) is None ==> r.0 == status && (r.1 matches Ok(a) && answer_of(*endpoint, a, json_parse(body@)->0)),
{
    let expected = endpoint.success_status();
    match parse_success(status, expected, body) {
        Err((code, e)) => (code, Err(e)),
        Ok(v) => {
            let answer = match endpoint {
                Endpoint::Series(_) => match SeriesResponse::from_json(&v) {
                    Some(x) => Some(Response::Series(x)),
                    None => None,
                },
                Endpoint::Distribution(_) => match DistributionResponse::from_json(&v) {
                    Some(x) => Some(Response::Distribution(x)),
                    None => None,
                },
                Endpoint::Tags(_) => match TagsResponse::from_json(&v) {
                    Some(x) => Some(Response::Tags(x)),
                    None => None,
                },
                Endpoint::GetMetrics(_) => match GetMetricsResponse::from_json(&v) {
                    Some(x) => Some(Response::Metrics(x)),
                    None => None,
                },
                Endpoint::Metric(_) => match MetricResponse::from_json(&v) {
                    Some(x) => Some(Response::Metric(x)),
                    None => None,
                },
            };
            match answer {
                Some(a) => (status, Ok(a)),
                None => (CLIENT_ERROR_STATUS, Err(ExecuteError::Schema)),
            }
        },
    }
}

/// The status and error of a request that failed before an answer came:
/// the status the failure carries, or 400 when it carries none.
pub fn transport_failure(status: Option<u16>) -> (r: (u16, ExecuteError))
    ensures
        r.1 == ExecuteError::Transport,
        status matches Some(s) ==> r.0 == s,
        status is None ==> r.0 == CLIENT_ERROR_STATUS,
{
    match status {
        Some(s) => (s, ExecuteError::Transport),
        None => (CLIENT_ERROR_STATUS, ExecuteError::Transport),
    }
}

/// Whatever the endpoint and the body, an answer with a status other than
/// the endpoint's success code is reported with that status as a `Status`
/// error.
pub proof fn non_success_status_is_an_error(e: Endpoint, status: u16, body: Seq<char>)
    requires
        status != success_status(e),
    ensures
        response_failure(e, status, body) == Some((status, ExecuteError::Status)),
{
}

/// For every endpoint and every body, an answer with status 403 is
/// reported with status 403 and a `Status` error.
pub proof fn forbidden_is_an_error(e: Endpoint, body: Seq<char>)
    ensures
        response_failure(e, 403, body) == Some((403u16, ExecuteError::Status)),
{
}

} // verus!
