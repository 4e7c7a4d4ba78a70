//! API versions.

use vstd::prelude::*;

verus! {

/// The API version that selects an endpoint family.
#[derive(Clone, Copy, Debug, PartialEq, Eq, Structural)]
pub enum ApiVersion {
    /// API version 1
    V1,
    /// API version 2
    V2,
}

/// The path segment that names a version.
pub open spec fn version_segment(v: ApiVersion) -> Seq<char> {
    match v {
        ApiVersion::V1 => seq!['v', '1'],
        ApiVersion::V2 => seq!['v', '2'],
    }
}

impl Default for ApiVersion {
    /// The default version is V2.
    fn default() -> (r: ApiVersion)
        ensures
            r == ApiVersion::V2,
    {
        ApiVersion::V2
    }
}

impl ApiVersion {
    /// The version as its path segment, `v1` or `v2`.
    pub fn to_string(&self) -> (r: String)
        ensures
            r@ == version_segment(*self),
    {
        let r = match self {
            ApiVersion::V1 => "v1".to_owned(),
            ApiVersion::V2 => "v2".to_owned(),
        };
        proof {
            reveal_strlit("v1");
            reveal_strlit("v2");
        }
        r
    }
}

} // verus!
