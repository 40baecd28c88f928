//! Event filtering payloads: the flat per-field filter, time-window
//! filters, and the recursive advanced filter tree the list endpoint
//! accepts.

use std::collections::HashMap;

use vstd::prelude::*;

verus! {

/// A window over event timestamps (epoch milliseconds): between two
/// bounds, after a lower bound, or before an upper bound.
#[derive(Debug, Clone, Copy, PartialEq, Eq, Structural)]
pub enum TimeFilter {
    Between { min: i64, max: i64 },
    After { min: i64 },
    Before { max: i64 },
}

/// Field-by-field event criteria; every field left `None` matches
/// everything.
#[derive(Debug, Clone)]
pub struct BasicEventFilter {
    pub id: Option<u64>,
    pub external_id_prefix: Option<String>,
    pub description: Option<String>,
    pub source: Option<String>,
    pub event_type: Option<String>,
    pub sub_type: Option<String>,
    pub data_set_ids: Option<Vec<u64>>,
    pub event_time: Option<TimeFilter>,
    pub metadata: Option<HashMap<String, String>>,
    pub related_resource_ids: Option<Vec<u64>>,
    pub related_resource_external_ids: Option<Vec<String>>,
    pub created_time: Option<TimeFilter>,
    pub last_updated_time: Option<TimeFilter>,
}

/// A filter with every criterion unset.
pub open spec fn basic_event_filter_unset(f: BasicEventFilter) -> bool {
    &&& f.id is None
    &&& f.external_id_prefix is None
    &&& f.description is None
    &&& f.source is None
    &&& f.event_type is None
    &&& f.sub_type is None
    &&& f.data_set_ids is None
    &&& f.event_time is None
    &&& f.metadata is None
    &&& f.related_resource_ids is None
    &&& f.related_resource_external_ids is None
    &&& f.created_time is None
    &&& f.last_updated_time is None
}

impl BasicEventFilter {
    pub fn new() -> (r: BasicEventFilter)
        ensures
            basic_event_filter_unset(r),
    {
        BasicEventFilter {
            id: None,
            external_id_prefix: None,
            description: None,
            source: None,
            event_type: None,
            sub_type: None,
            data_set_ids: None,
            event_time: None,
            metadata: None,
            related_resource_ids: None,
            related_resource_external_ids: None,
            created_time: None,
            last_updated_time: None,
        }
    }

    pub fn set_id(&mut self, id: &u64)
        ensures
            *final(self) == (BasicEventFilter { id: Some(*id), ..*old(self) }),
    {
        self.id = Some(*id);
    }

    pub fn set_external_id_prefix(&mut self, external_id: &str)
        ensures
            final(self).external_id_prefix is Some && final(self).external_id_prefix->0@
                == external_id@,
            *final(self) == (BasicEventFilter {
                external_id_prefix: final(self).external_id_prefix,
                ..*old(self)
            }),
    {
        self.external_id_prefix = Some(external_id.to_owned());
    }

    pub fn set_description(&mut self, description: &str)
        ensures
            final(self).description is Some && final(self).description->0@ == description@,
            *final(self) == (BasicEventFilter {
                description: final(self).description,
                ..*old(self)
            }),
    {
        self.description = Some(description.to_owned());
    }

    pub fn set_source(&mut self, source: &str)
        ensures
            final(self).source is Some && final(self).source->0@ == source@,
            *final(self) == (BasicEventFilter { source: final(self).source, ..*old(self) }),
    {
        self.source = Some(source.to_owned());
    }

    pub fn set_type(&mut self, event_type: &str)
        ensures
            final(self).event_type is Some && final(self).event_type->0@ == event_type@,
            *final(self) == (BasicEventFilter {
                event_type: final(self).event_type,
                ..*old(self)
            }),
    {
        self.event_type = Some(event_type.to_owned());
    }

    pub fn set_sub_type(&mut self, sub_type: &str)
        ensures
            final(self).sub_type is Some && final(self).sub_type->0@ == sub_type@,
            *final(self) == (BasicEventFilter { sub_type: final(self).sub_type, ..*old(self) }),
    {
        self.sub_type = Some(sub_type.to_owned());
    }

    pub fn set_data_set_ids(&mut self, data_set_ids: Vec<u64>)
        ensures
            *final(self) == (BasicEventFilter { data_set_ids: Some(data_set_ids), ..*old(self) }),
    {
        self.data_set_ids = Some(data_set_ids);
    }

    pub fn set_event_time(&mut self, event_time: &TimeFilter)
        ensures
            *final(self) == (BasicEventFilter { event_time: Some(*event_time), ..*old(self) }),
    {
        self.event_time = Some(*event_time);
    }

    pub fn set_metadata(&mut self, metadata: HashMap<String, String>)
        ensures
            *final(self) == (BasicEventFilter { metadata: Some(metadata), ..*old(self) }),
    {
        self.metadata = Some(metadata);
    }

    pub fn set_related_resource_ids(&mut self, related_resource_ids: Vec<u64>)
        ensures
            *final(self) == (BasicEventFilter {
                related_resource_ids: Some(related_resource_ids),
                ..*old(self)
            }),
    {
        self.related_resource_ids = Some(related_resource_ids);
    }

    pub fn set_related_resource_external_ids(&mut self, related_resource_external_ids: Vec<String>)
        ensures
            *final(self) == (BasicEventFilter {
                related_resource_external_ids: Some(related_resource_external_ids),
                ..*old(self)
            }),
    {
        self.related_resource_external_ids = Some(related_resource_external_ids);
    }

    pub fn set_created_time(&mut self, created_time: &TimeFilter)
        ensures
            *final(self) == (BasicEventFilter { created_time: Some(*created_time), ..*old(self) }),
    {
        self.created_time = Some(*created_time);
    }

    pub fn set_last_updated_time(&mut self, last_updated_time: &TimeFilter)
        ensures
            *final(self) == (BasicEventFilter {
                last_updated_time: Some(*last_updated_time),
                ..*old(self)
            }),
    {
        self.last_updated_time = Some(*last_updated_time);
    }

    /// Finishes the builder, yielding the assembled filter.
    pub fn build(self) -> (r: BasicEventFilter)
        ensures
            r == self,
    {
        self
    }
}

/// One node of the advanced filter tree.
#[derive(Debug)]
pub enum Filter {
    And(Vec<Filter>),
    Or(Vec<Filter>),
    Not(Box<Filter>),
    Equals { property: String, value: String },
    In { property: String, values: Vec<String> },
    Range { max: Option<String>, min: Option<String>, property: String },
    IsSet { property: Vec<String> },
    ContainsAny { any_of: Vec<String>, property: String },
    ContainsAll { all_of: Vec<String>, property: String },
}

impl Filter {
    /// The conjunction of the given filters.
    pub fn and(filters: Vec<Filter>) -> (r: Filter)
        ensures
            r == Filter::And(filters),
    {
        Filter::And(filters)
    }

    /// The disjunction of the given filters.
    pub fn or(filters: Vec<Filter>) -> (r: Filter)
        ensures
            r == Filter::Or(filters),
    {
        Filter::Or(filters)
    }

    /// The negation of the given filter.
    pub fn not(filter: Filter) -> (r: Filter)
        ensures
            (r matches Filter::Not(b) && *b == filter),
    {
        Filter::Not(Box::new(filter))
    }

    /// Property equals value.
    pub fn eq(property: &str, value: &str) -> (r: Filter)
        ensures
            (r matches Filter::Equals { property: p, value: v } && p@ == property@ && v@
                == value@),
    {
        Filter::Equals { property: property.to_owned(), value: value.to_owned() }
    }

    /// Property takes one of the given values.
    pub fn in_values(property: &str, values: Vec<String>) -> (r: Filter)
        ensures
            (r matches Filter::In { property: p, values: vs } && p@ == property@ && vs
                == values),
    {
        Filter::In { property: property.to_owned(), values }
    }

    /// Property lies in the given range.
    pub fn range(property: &str, min: Option<String>, max: Option<String>) -> (r: Filter)
        ensures
            (r matches Filter::Range { max: mx, min: mn, property: p } && p@ == property@ && mn
                == min && mx == max),
    {
        Filter::Range { property: property.to_owned(), min, max }
    }

    /// The property at the given path is set.
    pub fn is_set(property: Vec<String>) -> (r: Filter)
        ensures
            r == (Filter::IsSet { property }),
    {
        Filter::IsSet { property }
    }

    /// Property contains at least one of the given values.
    pub fn contains_any(property: &str, any_of: Vec<String>) -> (r: Filter)
        ensures
            (r matches Filter::ContainsAny { any_of: a, property: p } && p@ == property@ && a
                == any_of),
    {
        Filter::ContainsAny { property: property.to_owned(), any_of }
    }

    /// Property contains all of the given values.
    pub fn contains_all(property: &str, all_of: Vec<String>) -> (r: Filter)
        ensures
            (r matches Filter::ContainsAll { all_of: a, property: p } && p@ == property@ && a
                == all_of),
    {
        Filter::ContainsAll { property: property.to_owned(), all_of }
    }

    /// Finishes the builder, yielding the assembled filter.
    pub fn build(self) -> (r: Filter)
        ensures
            r == self,
    {
        self
    }
}

/// Criteria on an event's related resources: the neighbor must satisfy
/// the filter, optionally only across the given relation types.
#[derive(Debug)]
pub struct RelatedResourceFilter {
    pub filter: Filter,
    pub relation_types: Option<Vec<String>>,
}

/// The advanced half of an event listing request: a filter tree over the
/// event itself and, optionally, one over its related resources.
#[derive(Debug)]
pub struct AdvancedEventFilter {
    pub filter: Option<Filter>,
    pub related_resource_filter: Option<RelatedResourceFilter>,
}

impl AdvancedEventFilter {
    pub fn new() -> (r: AdvancedEventFilter)
        ensures
            r.filter is None,
            r.related_resource_filter is None,
    {
        AdvancedEventFilter { filter: None, related_resource_filter: None }
    }

    pub fn set_filter(&mut self, filter: Filter)
        ensures
            *final(self) == (AdvancedEventFilter { filter: Some(filter), ..*old(self) }),
    {
        self.filter = Some(filter);
    }

    pub fn set_related_resource_filter(&mut self, filter: RelatedResourceFilter)
        ensures
            *final(self) == (AdvancedEventFilter {
                related_resource_filter: Some(filter),
                ..*old(self)
            }),
    {
        self.related_resource_filter = Some(filter);
    }

    /// Finishes the builder, yielding the assembled filter.
    pub fn build(self) -> (r: AdvancedEventFilter)
        ensures
            r == self,
    {
        self
    }
}

/// The full event listing request: a basic filter, paging, and an
/// optional advanced filter tree.
#[derive(Debug)]
pub struct EventFilter {
    pub filter: Option<BasicEventFilter>,
    pub limit: Option<u64>,
    pub cursor: Option<String>,
    pub advanced_filter: Option<AdvancedEventFilter>,
}

impl EventFilter {
    pub fn new() -> (r: EventFilter)
        ensures
            r.filter is None,
            r.limit is None,
            r.cursor is None,
            r.advanced_filter is None,
    {
        EventFilter { filter: None, limit: None, cursor: None, advanced_filter: None }
    }

    pub fn set_filter(&mut self, filter: BasicEventFilter)
        ensures
            *final(self) == (EventFilter { filter: Some(filter), ..*old(self) }),
    {
        self.filter = Some(filter);
    }

    pub fn set_limit(&mut self, limit: u64)
        ensures
            *final(self) == (EventFilter { limit: Some(limit), ..*old(self) }),
    {
        self.limit = Some(limit);
    }
}

} // verus!
