//! Update-payload field wrappers: each field of an update request can be
//! left alone, set to a value, or cleared, and list- and map-valued
//! fields can add or remove entries.

use std::collections::HashMap;

use vstd::prelude::*;

verus! {

/// One scalar field of an update: a new value, an explicit null, or
/// untouched.
#[derive(Debug, Clone)]
pub struct Field<T> {
    pub set: Option<T>,
    pub set_null: bool,
}

/// A field that neither sets a value nor clears one.
pub open spec fn field_unset<T>(f: Field<T>) -> bool {
    f.set is None && !f.set_null
}

impl<T> Field<T> {
    pub fn new() -> (r: Field<T>)
        ensures
            field_unset(r),
    {
        Field { set: None, set_null: false }
    }

    pub fn set(&mut self, value: T) where T: Clone
        ensures
            final(self).set == Some(value),
            final(self).set_null == old(self).set_null,
    {
        self.set = Some(value);
    }

    pub fn set_null(&mut self, is_null: bool)
        ensures
            final(self).set_null == is_null,
            final(self).set == old(self).set,
    {
        self.set_null = is_null;
    }

    pub fn get_null(&self) -> (r: bool)
        ensures
            r == self.set_null,
    {
        self.set_null
    }
}

/// One list-valued field of an update: replace the list, add entries, or
/// remove entries.
#[derive(Debug, Clone)]
pub struct ListField<T> {
    pub set: Option<Vec<T>>,
    pub add: Option<Vec<T>>,
    pub remove: Option<Vec<T>>,
}

/// A list field with no pending change.
pub open spec fn list_field_unset<T>(f: ListField<T>) -> bool {
    f.set is None && f.add is None && f.remove is None
}

impl<T> ListField<T> {
    pub fn new() -> (r: ListField<T>)
        ensures
            list_field_unset(r),
    {
        ListField { set: None, add: None, remove: None }
    }

    pub fn set(&mut self, s: Vec<T>)
        ensures
            final(self).set == Some(s),
            final(self).add == old(self).add,
            final(self).remove == old(self).remove,
    {
        self.set = Some(s);
    }

    pub fn add(&mut self, s: Vec<T>)
        ensures
            final(self).add == Some(s),
            final(self).set == old(self).set,
            final(self).remove == old(self).remove,
    {
        self.add = Some(s);
    }

    pub fn remove(&mut self, s: Vec<T>)
        ensures
            final(self).remove == Some(s),
            final(self).set == old(self).set,
            final(self).add == old(self).add,
    {
        self.remove = Some(s);
    }
}

/// One map-valued field of an update: replace the map, add entries, or
/// remove keys.
#[derive(Debug, Clone)]
pub struct MapField {
    pub set: Option<HashMap<String, String>>,
    pub add: Option<HashMap<String, String>>,
    pub remove: Option<Vec<String>>,
}

/// A map field with no pending change.
pub open spec fn map_field_unset(f: MapField) -> bool {
    f.set is None && f.add is None && f.remove is None
}

impl MapField {
    pub fn new() -> (r: MapField)
        ensures
            map_field_unset(r),
    {
        MapField { set: None, add: None, remove: None }
    }

    pub fn set(&mut self, s: HashMap<String, String>)
        ensures
            final(self).set == Some(s),
            final(self).add == old(self).add,
            final(self).remove == old(self).remove,
    {
        self.set = Some(s);
    }

    pub fn add(&mut self, s: HashMap<String, String>)
        ensures
            final(self).add == Some(s),
            final(self).set == old(self).set,
            final(self).remove == old(self).remove,
    {
        self.add = Some(s);
    }

    pub fn remove(&mut self, s: Vec<String>)
        ensures
            final(self).remove == Some(s),
            final(self).set == old(self).set,
            final(self).add == old(self).add,
    {
        self.remove = Some(s);
    }
}

} // verus!
