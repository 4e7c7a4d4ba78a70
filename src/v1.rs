//! Items of API version 1.

use vstd::prelude::*;

verus! {

/// A V1 metric, known by its name.
#[derive(Clone, Debug)]
pub struct Metric {
    /// The metric name
    pub name: String,
}

impl Metric {
    /// A metric with an empty name.
    pub fn new() -> (r: Metric)
        ensures
            r.name@ == Seq::<char>::empty(),
    {
        Metric { name: String::new() }
    }
}

} // verus!
