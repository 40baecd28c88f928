//! Time series: the series record itself, its builder-style setters, the
//! listing limit parameter, and the update payloads.

use std::collections::HashMap;

use vstd::prelude::*;
use vstd::string::*;

use crate::fields::{field_unset, list_field_unset, map_field_unset, Field, ListField, MapField};
use crate::generic::{Identifiable, RelationForm};

verus! {

/// One time series as the API stores it. Creation and update timestamps
/// are epoch milliseconds assigned by the server.
#[derive(Debug, Clone)]
pub struct TimeSeries {
    pub id: u64,
    pub external_id: String,
    pub name: String,
    pub metadata: Option<HashMap<String, String>>,
    pub unit: Option<String>,
    pub description: Option<String>,
    pub unit_external_id: Option<String>,
    pub security_categories: Option<Vec<u64>>,
    pub data_set_id: Option<u64>,
    pub value_type: String,
    pub created_time: Option<u64>,
    pub last_updated_time: Option<u64>,
    pub relations_from: Vec<RelationForm>,
    pub is_string: bool,
    pub is_step: bool,
}

impl TimeSeries {
    /// A fresh float-valued series with the given external id and name
    /// and every optional attribute unset.
    pub fn new(external_id: &str, name: &str) -> (r: TimeSeries)
        ensures
            r.id == 0,
            r.external_id@ == external_id@,
            r.name@ == name@,
            r.metadata is None,
            r.unit is None,
            r.description is None,
            r.unit_external_id is None,
            r.security_categories is None,
            r.data_set_id is None,
            r.value_type@ == "float"@,
            r.created_time is None,
            r.last_updated_time is None,
            r.relations_from@ =~= Seq::<RelationForm>::empty(),
            !r.is_string,
            !r.is_step,
    {
        TimeSeries {
            id: 0,
            external_id: external_id.to_owned(),
            name: name.to_owned(),
            metadata: None,
            unit: None,
            description: None,
            unit_external_id: None,
            security_categories: None,
            data_set_id: None,
            value_type: String::from_str("float"),
            created_time: None,
            last_updated_time: None,
            relations_from: Vec::new(),
            is_string: false,
            is_step: false,
        }
    }

    /// A blank series to fill in with the setters.
    pub fn builder() -> (r: TimeSeries)
        ensures
            r.id == 0,
            r.external_id@ == ""@,
            r.name@ == ""@,
            r.metadata is None,
            r.value_type@ == "float"@,
    {
        TimeSeries::new("", "")
    }

    pub fn set_name(&mut self, name: &str)
        ensures
            final(self).name@ == name@,
            *final(self) == (TimeSeries { name: final(self).name, ..*old(self) }),
    {
        self.name = name.to_owned();
    }

    pub fn set_metadata(&mut self, metadata: HashMap<String, String>)
        ensures
            *final(self) == (TimeSeries { metadata: Some(metadata), ..*old(self) }),
    {
        self.metadata = Some(metadata);
    }

    pub fn set_external_id(&mut self, external_id: &str)
        ensures
            final(self).external_id@ == external_id@,
            *final(self) == (TimeSeries { external_id: final(self).external_id, ..*old(self) }),
    {
        self.external_id = external_id.to_owned();
    }

    pub fn set_unit(&mut self, unit: &str)
        ensures
            final(self).unit is Some && final(self).unit->0@ == unit@,
            *final(self) == (TimeSeries { unit: final(self).unit, ..*old(self) }),
    {
        self.unit = Some(unit.to_owned());
    }

    pub fn set_description(&mut self, description: &str)
        ensures
            final(self).description is Some && final(self).description->0@ == description@,
            *final(self) == (TimeSeries { description: final(self).description, ..*old(self) }),
    {
        self.description = Some(description.to_owned());
    }

    pub fn set_unit_external_id(&mut self, unit_external_id: &str)
        ensures
            final(self).unit_external_id is Some && final(self).unit_external_id->0@
                == unit_external_id@,
            *final(self) == (TimeSeries {
                unit_external_id: final(self).unit_external_id,
                ..*old(self)
            }),
    {
        self.unit_external_id = Some(unit_external_id.to_owned());
    }

    pub fn set_security_categories(&mut self, security_categories: Vec<u64>)
        ensures
            *final(self) == (TimeSeries {
                security_categories: Some(security_categories),
                ..*old(self)
            }),
    {
        self.security_categories = Some(security_categories);
    }

    pub fn set_data_set_id(&mut self, data_set_id: u64)
        ensures
            *final(self) == (TimeSeries { data_set_id: Some(data_set_id), ..*old(self) }),
    {
        self.data_set_id = Some(data_set_id);
    }

    pub fn set_value_type(&mut self, value_type: &str)
        ensures
            final(self).value_type@ == value_type@,
            *final(self) == (TimeSeries { value_type: final(self).value_type, ..*old(self) }),
    {
        self.value_type = value_type.to_owned();
    }

    pub fn set_created_time(&mut self, created_time: u64)
        ensures
            *final(self) == (TimeSeries { created_time: Some(created_time), ..*old(self) }),
    {
        self.created_time = Some(created_time);
    }

    pub fn set_last_updated_time(&mut self, last_updated_time: u64)
        ensures
            *final(self) == (TimeSeries {
                last_updated_time: Some(last_updated_time),
                ..*old(self)
            }),
    {
        self.last_updated_time = Some(last_updated_time);
    }

    pub fn set_relations_from(&mut self, relations_from: Vec<RelationForm>)
        ensures
            *final(self) == (TimeSeries { relations_from, ..*old(self) }),
    {
        self.relations_from = relations_from;
    }

    pub fn set_is_string(&mut self, is_string: bool)
        ensures
            *final(self) == (TimeSeries { is_string, ..*old(self) }),
    {
        self.is_string = is_string;
    }

    pub fn set_is_step(&mut self, is_step: bool)
        ensures
            *final(self) == (TimeSeries { is_step, ..*old(self) }),
    {
        self.is_step = is_step;
    }
}

impl Identifiable for TimeSeries {
    open spec fn spec_id(&self) -> u64 {
        self.id
    }

    open spec fn spec_external_id(&self) -> Seq<char> {
        self.external_id@
    }

    fn id(&self) -> u64 {
        self.id
    }

    fn external_id(&self) -> &str {
        self.external_id.as_str()
    }
}

/// The `limit` query parameter of the listing endpoint.
#[derive(Debug, Clone)]
pub struct LimitParam {
    pub limit: i64,
}

impl LimitParam {
    /// The default listing limit of 100.
    pub fn new() -> (r: LimitParam)
        ensures
            r.limit == 100,
    {
        LimitParam { limit: 100 }
    }

    pub fn set_limit(&mut self, limit: i64)
        ensures
            final(self).limit == limit,
    {
        self.limit = limit;
    }

    pub fn get_limit(&self) -> (r: i64)
        ensures
            r == self.limit,
    {
        self.limit
    }
}

/// The per-field changes of one time-series update.
#[derive(Debug, Clone)]
pub struct TimeSeriesUpdateFields {
    pub external_id: Field<String>,
    pub name: Field<String>,
    pub metadata: MapField,
    pub unit: Field<String>,
    pub description: Field<String>,
    pub unit_external_id: Field<String>,
    pub security_categories: ListField<u64>,
    pub data_set_id: Field<u64>,
    pub relations_from: ListField<u64>,
    pub is_string: Field<bool>,
    pub is_step: Field<bool>,
    pub value_type: Field<String>,
}

impl TimeSeriesUpdateFields {
    /// An update that touches nothing.
    pub fn new() -> (r: TimeSeriesUpdateFields)
        ensures
            field_unset(r.external_id),
            field_unset(r.name),
            map_field_unset(r.metadata),
            field_unset(r.unit),
            field_unset(r.description),
            field_unset(r.unit_external_id),
            list_field_unset(r.security_categories),
            field_unset(r.data_set_id),
            list_field_unset(r.relations_from),
            field_unset(r.is_string),
            field_unset(r.is_step),
            field_unset(r.value_type),
    {
        TimeSeriesUpdateFields {
            external_id: Field::new(),
            name: Field::new(),
            metadata: MapField::new(),
            unit: Field::new(),
            description: Field::new(),
            unit_external_id: Field::new(),
            security_categories: ListField::new(),
            data_set_id: Field::new(),
            relations_from: ListField::new(),
            is_string: Field::new(),
            is_step: Field::new(),
            value_type: Field::new(),
        }
    }
}

/// One series' update: which series, and the field changes.
#[derive(Debug, Clone)]
pub struct TimeSeriesUpdate {
    pub id: Option<u64>,
    pub external_id: Option<String>,
    pub update: TimeSeriesUpdateFields,
}

/// A batch of time-series updates.
#[derive(Debug, Clone)]
pub struct TimeSeriesUpdateCollection {
    pub items: Vec<TimeSeriesUpdate>,
}

impl TimeSeriesUpdateCollection {
    pub fn new() -> (r: TimeSeriesUpdateCollection)
        ensures
            r.items@ =~= Seq::<TimeSeriesUpdate>::empty(),
    {
        TimeSeriesUpdateCollection { items: Vec::new() }
    }

    pub fn get_items(&self) -> (r: &Vec<TimeSeriesUpdate>)
        ensures
            r@ == self.items@,
    {
        &self.items
    }

    pub fn set_items(&mut self, items: Vec<TimeSeriesUpdate>)
        ensures
            final(self).items == items,
    {
        self.items = items;
    }

    pub fn add_item(&mut self, item: TimeSeriesUpdate)
        ensures
            final(self).items@ == old(self).items@.push(item),
    {
        self.items.push(item);
    }
}

} // verus!
