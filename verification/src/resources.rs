//! Graph resource update payloads.

use vstd::prelude::*;

use crate::fields::{Field, ListField, MapField};
use crate::graph_data_wrapper::GraphNode;

verus! {

/// The per-field changes of one resource update.
#[derive(Debug, Clone)]
pub struct ResourceUpdateFields {
    pub external_id: Field<String>,
    pub name: Field<String>,
    pub description: Field<String>,
    pub data_set_id: Field<u64>,
    pub metadata: MapField,
    pub source: Field<String>,
    pub labels: ListField<String>,
}

/// One resource's update: the field changes and the relation changes.
#[derive(Debug, Clone)]
pub struct ResourceUpdate {
    pub update: Option<ResourceUpdateFields>,
    pub relation_update: Option<Vec<String>>,
}

impl GraphNode for ResourceUpdate {

}

} // verus!
