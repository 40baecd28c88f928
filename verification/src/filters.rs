//! Simple key/value filters with a comparison operation, used by search
//! helpers.

use vstd::prelude::*;

verus! {

/// How a filter compares the property named by its key to its value.
pub enum Operation {
    Equal,
    NotEqual,
    GreaterThan,
    LessThan,
    GreaterThanOrEqual,
    LessThanOrEqual,
    Contains,
    NotContains,
    StartsWith,
}

/// A conjunction of filters.
pub struct Filters {
    pub filters: Vec<Filter>,
}

/// One key/value comparison.
pub struct Filter {
    pub key: String,
    pub value: String,
    pub operation: Operation,
}

impl Filters {
    /// An equality filter on the given property.
    pub fn prefix(key: &str, value: &str) -> (r: Filter)
        ensures
            r.key@ == key@,
            r.value@ == value@,
            r.operation is Equal,
    {
        Filter { key: key.to_owned(), value: value.to_owned(), operation: Operation::Equal }
    }

    /// A containment filter on the given property.
    pub fn search(key: &str, value: &str) -> (r: Filter)
        ensures
            r.key@ == key@,
            r.value@ == value@,
            r.operation is Contains,
    {
        Filter { key: key.to_owned(), value: value.to_owned(), operation: Operation::Contains }
    }

    /// The conjunction of exactly the two given filters.
    pub fn and(self, filter_a: Filter, filter_b: Filter) -> (r: Filters)
        ensures
            r.filters@.len() == 2,
            r.filters@[0] == filter_a,
            r.filters@[1] == filter_b,
    {
        let mut filters: Vec<Filter> = Vec::new();
        filters.push(filter_a);
        filters.push(filter_b);
        Filters { filters }
    }
}

} // verus!
