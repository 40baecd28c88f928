//! Events: the event record, its key/value metadata store, and the
//! listing filter whose property setter parses numeric ids.

use vstd::prelude::*;
use vstd::string::*;

use crate::event_filters::AdvancedEventFilter;
use crate::naming::{snake_case_of, to_snake_lower_cased_allow_start_with_digits};
use crate::numeric::{all_digit_chars, digits_value, parse_u64};

verus! {

/// Unique keys: no two entries share a key.
pub open spec fn md_wf(entries: Seq<(String, String)>) -> bool {
    forall|i: int, j: int| 0 <= i < j < entries.len() ==> entries[i].0@ != entries[j].0@
}

/// Some entry has this key.
pub open spec fn md_has_key(entries: Seq<(String, String)>, k: Seq<char>) -> bool {
    exists|i: int| 0 <= i < entries.len() && (#[trigger] entries[i]).0@ == k
}

/// How inserting a pair changes the entries: an existing entry with the
/// key is replaced in place, otherwise the pair is appended.
pub open spec fn md_insert_relates(
    o: Seq<(String, String)>,
    n: Seq<(String, String)>,
    key: String,
    value: String,
) -> bool {
    if md_has_key(o, key@) {
        exists|i: int|
            0 <= i < o.len() && (#[trigger] o[i]).0@ == key@ && n == o.update(i, (key, value))
    } else {
        n == o.push((key, value))
    }
}

/// How removing a key changes the entries: the entry with the key
/// disappears, everything else keeps its order; absent keys change
/// nothing.
pub open spec fn md_remove_relates(
    o: Seq<(String, String)>,
    n: Seq<(String, String)>,
    k: Seq<char>,
) -> bool {
    if md_has_key(o, k) {
        exists|i: int| 0 <= i < o.len() && (#[trigger] o[i]).0@ == k && n == o.remove(i)
    } else {
        n == o
    }
}

/// An insertion-ordered key/value store with unique keys, the verified
/// stand-in for a string-keyed hash map.
#[derive(Debug, Clone)]
pub struct Metadata {
    pub entries: Vec<(String, String)>,
}

impl Metadata {
    pub fn new() -> (r: Metadata)
        ensures
            r.entries@ =~= Seq::<(String, String)>::empty(),
            md_wf(r.entries@),
    {
        Metadata { entries: Vec::new() }
    }

    /// The index of the entry with this key, when one exists.
    fn find(&self, key: &str) -> (r: Option<usize>)
        ensures
            match r {
                Some(i) => i < self.entries@.len() && self.entries@[i as int].0@ == key@,
                None => !md_has_key(self.entries@, key@),
            },
    {
        let mut i: usize = 0;
        while i < self.entries.len()
            invariant
                i <= self.entries@.len(),
                forall|j: int| 0 <= j < i ==> (#[trigger] self.entries@[j]).0@ != key@,
            decreases self.entries@.len() - i,
        {
            if self.entries[i].0.eq(&key.to_owned()) {
                return Some(i);
            }
            i = i + 1;
        }
        None
    }

    /// Sets `key` to `value`, replacing an existing entry in place or
    /// appending a new one.
    pub fn insert(&mut self, key: String, value: String)
        requires
            md_wf(old(self).entries@),
        ensures
            md_insert_relates(old(self).entries@, final(self).entries@, key, value),
            md_wf(final(self).entries@),
            md_has_key(final(self).entries@, key@),
    {
        let ghost o = self.entries@;
        match self.find(key.as_str()) {
            Some(i) => {
                let _ = self.entries.remove(i);
                self.entries.insert(i, (key, value));
                proof {
                    assert(self.entries@ =~= o.update(i as int, self.entries@[i as int]));
                    assert(md_has_key(o, self.entries@[i as int].0@));
                }
            },
            None => {
                self.entries.push((key, value));
                proof {
                    assert(self.entries@.last() == self.entries@[o.len() as int]);
                }
            },
        }
    }

    /// Removes the entry with this key, when one exists.
    pub fn remove(&mut self, key: &str)
        requires
            md_wf(old(self).entries@),
        ensures
            md_remove_relates(old(self).entries@, final(self).entries@, key@),
            md_wf(final(self).entries@),
            !md_has_key(final(self).entries@, key@),
    {
        let ghost o = self.entries@;
        match self.find(key) {
            Some(i) => {
                let _ = self.entries.remove(i);
                proof {
                    assert(md_has_key(o, key@));
                    assert forall|j: int|
                        0 <= j < self.entries@.len() implies (#[trigger] self.entries@[j]).0@
                        != key@ by {
                        if j < i {
                            assert(self.entries@[j] == o[j]);
                        } else {
                            assert(self.entries@[j] == o[j + 1]);
                        }
                    }
                }
            },
            None => {},
        }
    }

    /// The value stored under this key, when one exists.
    pub fn get(&self, key: &str) -> (r: Option<&String>)
        requires
            md_wf(self.entries@),
        ensures
            r is Some <==> md_has_key(self.entries@, key@),
            r is Some ==> exists|i: int|
                0 <= i < self.entries@.len() && (#[trigger] self.entries@[i]).0@ == key@
                    && r->0@ == self.entries@[i].1@,
    {
        match self.find(key) {
            Some(i) => Some(&self.entries[i].1),
            None => None,
        }
    }

    /// The keys, in insertion order.
    pub fn keys(&self) -> (r: Vec<String>)
        ensures
            r@.len() == self.entries@.len(),
            forall|i: int| 0 <= i < r@.len() ==> (#[trigger] r@[i])@ == self.entries@[i].0@,
    {
        let mut keys: Vec<String> = Vec::new();
        let mut i: usize = 0;
        while i < self.entries.len()
            invariant
                i <= self.entries@.len(),
                keys@.len() == i,
                forall|j: int| 0 <= j < i ==> (#[trigger] keys@[j])@ == self.entries@[j].0@,
            decreases self.entries@.len() - i,
        {
            keys.push(self.entries[i].0.clone());
            i = i + 1;
        }
        keys
    }

    pub fn len(&self) -> (r: usize)
        ensures
            r == self.entries@.len(),
    {
        self.entries.len()
    }
}

/// One event. The id is the server-assigned identifier; timestamps are
/// epoch milliseconds.
#[derive(Debug, Clone)]
pub struct Event {
    pub id: Option<String>,
    pub external_id: String,
    pub metadata: Option<Metadata>,
    pub description: Option<String>,
    pub event_type: Option<String>,
    pub sub_type: Option<String>,
    pub status: Option<String>,
    pub data_set_id: Option<u64>,
    pub created_time: Option<i64>,
    pub last_updated_time: Option<i64>,
    pub related_resource_ids: Vec<u64>,
    pub related_resource_external_ids: Vec<String>,
    pub source: Option<String>,
    pub event_time: Option<i64>,
}

/// An event's metadata entries are well formed when present.
pub open spec fn event_wf(e: Event) -> bool {
    match e.metadata {
        Some(m) => md_wf(m.entries@),
        None => true,
    }
}

impl Event {
    /// A fresh event with only the external id set.
    pub fn new(external_id: String) -> (r: Event)
        ensures
            r.external_id == external_id,
            r.id is None,
            r.metadata is None,
            r.description is None,
            r.event_type is None,
            r.sub_type is None,
            r.status is None,
            r.data_set_id is None,
            r.created_time is None,
            r.last_updated_time is None,
            r.related_resource_ids@ =~= Seq::<u64>::empty(),
            r.related_resource_external_ids@ =~= Seq::<String>::empty(),
            r.source is None,
            r.event_time is None,
            event_wf(r),
    {
        Event {
            id: None,
            external_id,
            metadata: None,
            description: None,
            event_type: None,
            sub_type: None,
            status: None,
            data_set_id: None,
            created_time: None,
            last_updated_time: None,
            related_resource_ids: Vec::new(),
            related_resource_external_ids: Vec::new(),
            source: None,
            event_time: None,
        }
    }

    /// Sets `key` to `value` in the event's metadata, starting the store
    /// when there is none.
    pub fn add_metadata(&mut self, key: String, value: String)
        requires
            event_wf(*old(self)),
        ensures
            final(self).metadata is Some,
            old(self).metadata is None ==> final(self).metadata->0.entries@ == Seq::<(
                String,
                String,
            )>::empty().push((key, value)),
            old(self).metadata is Some ==> md_insert_relates(
                old(self).metadata->0.entries@,
                final(self).metadata->0.entries@,
                key,
                value,
            ),
            event_wf(*final(self)),
            *final(self) == (Event { metadata: final(self).metadata, ..*old(self) }),
    {
        if self.metadata.is_none() {
            self.metadata = Some(Metadata::new());
        }
        match &mut self.metadata {
            Some(m) => m.insert(key, value),
            None => (),
        }
    }

    /// Removes `key` from the event's metadata, when both exist.
    pub fn remove_metadata(&mut self, key: String)
        requires
            event_wf(*old(self)),
        ensures
            old(self).metadata is None ==> *final(self) == *old(self),
            old(self).metadata is Some ==> final(self).metadata is Some && md_remove_relates(
                old(self).metadata->0.entries@,
                final(self).metadata->0.entries@,
                key@,
            ),
            event_wf(*final(self)),
            *final(self) == (Event { metadata: final(self).metadata, ..*old(self) }),
    {
        match &mut self.metadata {
            Some(m) => m.remove(key.as_str()),
            None => (),
        }
    }

    pub fn add_related_resource_id(&mut self, id: u64)
        ensures
            final(self).related_resource_ids@ == old(self).related_resource_ids@.push(id),
            *final(self) == (Event {
                related_resource_ids: final(self).related_resource_ids,
                ..*old(self)
            }),
    {
        self.related_resource_ids.push(id);
    }

    /// Drops every occurrence of `id`, keeping the rest in order.
    pub fn remove_related_resource_id(&mut self, id: u64)
        ensures
            final(self).related_resource_ids@ == old(self).related_resource_ids@.filter(
                |x: u64| x != id,
            ),
            *final(self) == (Event {
                related_resource_ids: final(self).related_resource_ids,
                ..*old(self)
            }),
    {
        let ghost pred = |x: u64| x != id;
        let ghost orig = self.related_resource_ids@;
        let mut i: usize = 0;
        let ghost mut seen: int = 0;
        proof {
            reveal(Seq::filter);
            assert(orig.take(0int).filter(pred) =~= Seq::<u64>::empty());
            assert(orig.skip(0int) =~= orig);
        }
        while i < self.related_resource_ids.len()
            invariant
                0 <= seen <= orig.len(),
                i == orig.take(seen).filter(pred).len(),
                self.related_resource_ids@ == orig.take(seen).filter(pred) + orig.skip(seen),
                pred == (|x: u64| x != id),
                *self == (Event {
                    related_resource_ids: self.related_resource_ids,
                    ..*old(self)
                }),
            decreases orig.len() - seen,
        {
            proof {
                assert(seen < orig.len()) by {
                    if seen == orig.len() {
                        assert(orig.take(seen) =~= orig);
                        assert(orig.skip(seen) =~= Seq::<u64>::empty());
                        orig.lemma_filter_len(pred);
                    }
                };
                assert(self.related_resource_ids@[i as int] == orig[seen]);
                reveal(Seq::filter);
                assert(orig.take(seen + 1).drop_last() =~= orig.take(seen));
            }
            let x = self.related_resource_ids[i];
            if x != id {
                i = i + 1;
                proof {
                    assert(self.related_resource_ids@ =~= orig.take(seen + 1).filter(pred)
                        + orig.skip(seen + 1));
                }
            } else {
                let _ = self.related_resource_ids.remove(i);
                proof {
                    assert(self.related_resource_ids@ =~= orig.take(seen + 1).filter(pred)
                        + orig.skip(seen + 1));
                }
            }
            proof {
                seen = seen + 1;
            }
        }
        proof {
            assert(seen == orig.len()) by {
                if seen < orig.len() {
                    orig.take(seen).lemma_filter_len(pred);
                    assert(self.related_resource_ids@.len() >= orig.skip(seen).len());
                }
            };
            assert(orig.take(seen) =~= orig);
            assert(orig.skip(seen) =~= Seq::<u64>::empty());
            assert(self.related_resource_ids@ =~= orig.filter(pred));
        }
    }

    pub fn add_related_resource_external_id(&mut self, external_id: String)
        ensures
            final(self).related_resource_external_ids@ == old(
                self,
            ).related_resource_external_ids@.push(external_id),
            *final(self) == (Event {
                related_resource_external_ids: final(self).related_resource_external_ids,
                ..*old(self)
            }),
    {
        self.related_resource_external_ids.push(external_id);
    }

    /// Drops every occurrence of `external_id`, keeping the rest in
    /// order.
    pub fn remove_related_resource_external_id(&mut self, external_id: String)
        ensures
            final(self).related_resource_external_ids@ == old(
                self,
            ).related_resource_external_ids@.filter(|x: String| x@ != external_id@),
            *final(self) == (Event {
                related_resource_external_ids: final(self).related_resource_external_ids,
                ..*old(self)
            }),
    {
        let ghost pred = |x: String| x@ != external_id@;
        let ghost orig = self.related_resource_external_ids@;
        let mut i: usize = 0;
        let ghost mut seen: int = 0;
        proof {
            reveal(Seq::filter);
            assert(orig.take(0int).filter(pred) =~= Seq::<String>::empty());
            assert(orig.skip(0int) =~= orig);
        }
        while i < self.related_resource_external_ids.len()
            invariant
                0 <= seen <= orig.len(),
                i == orig.take(seen).filter(pred).len(),
                self.related_resource_external_ids@ == orig.take(seen).filter(pred) + orig.skip(
                    seen,
                ),
                pred == (|x: String| x@ != external_id@),
                *self == (Event {
                    related_resource_external_ids: self.related_resource_external_ids,
                    ..*old(self)
                }),
            decreases orig.len() - seen,
        {
            proof {
                assert(seen < orig.len()) by {
                    if seen == orig.len() {
                        assert(orig.take(seen) =~= orig);
                        assert(orig.skip(seen) =~= Seq::<String>::empty());
                        orig.lemma_filter_len(pred);
                    }
                };
                assert(self.related_resource_external_ids@[i as int] == orig[seen]);
                reveal(Seq::filter);
                assert(orig.take(seen + 1).drop_last() =~= orig.take(seen));
            }
            let keep = !self.related_resource_external_ids[i].eq(&external_id);
            proof {
                assert(keep == pred(orig[seen]));
            }
            if keep {
                i = i + 1;
                proof {
                    assert(self.related_resource_external_ids@ =~= orig.take(seen + 1).filter(pred)
                        + orig.skip(seen + 1));
                }
            } else {
                let _ = self.related_resource_external_ids.remove(i);
                proof {
                    assert(self.related_resource_external_ids@ =~= orig.take(seen + 1).filter(pred)
                        + orig.skip(seen + 1));
                }
            }
            proof {
                seen = seen + 1;
            }
        }
        proof {
            assert(seen == orig.len()) by {
                if seen < orig.len() {
                    orig.take(seen).lemma_filter_len(pred);
                    assert(self.related_resource_external_ids@.len() >= orig.skip(seen).len());
                }
            };
            assert(orig.take(seen) =~= orig);
            assert(orig.skip(seen) =~= Seq::<String>::empty());
            assert(self.related_resource_external_ids@ =~= orig.filter(pred));
        }
    }

    pub fn get_id(&self) -> (r: Option<&String>)
        ensures
            r is Some <==> self.id is Some,
            r is Some ==> *r->0 == self.id->0,
    {
        self.id.as_ref()
    }

    pub fn get_external_id(&self) -> (r: &str)
        ensures
            r@ == self.external_id@,
    {
        self.external_id.as_str()
    }

    pub fn set_external_id(&mut self, external_id: String)
        ensures
            *final(self) == (Event { external_id, ..*old(self) }),
    {
        self.external_id = external_id;
    }

    pub fn get_metadata(&self) -> (r: Option<&Metadata>)
        ensures
            r is Some <==> self.metadata is Some,
            r is Some ==> *r->0 == self.metadata->0,
    {
        self.metadata.as_ref()
    }

    pub fn get_type(&self) -> (r: Option<&str>)
        ensures
            r is Some <==> self.event_type is Some,
            r is Some ==> r->0@ == self.event_type->0@,
    {
        match &self.event_type {
            Some(t) => Some(t.as_str()),
            None => None,
        }
    }

    pub fn set_type(&mut self, event_type: String)
        ensures
            *final(self) == (Event { event_type: Some(event_type), ..*old(self) }),
    {
        self.event_type = Some(event_type);
    }

    pub fn get_sub_type(&self) -> (r: Option<&str>)
        ensures
            r is Some <==> self.sub_type is Some,
            r is Some ==> r->0@ == self.sub_type->0@,
    {
        match &self.sub_type {
            Some(t) => Some(t.as_str()),
            None => None,
        }
    }

    pub fn set_sub_type(&mut self, sub_type: String)
        ensures
            *final(self) == (Event { sub_type: Some(sub_type), ..*old(self) }),
    {
        self.sub_type = Some(sub_type);
    }

    pub fn get_data_set_id(&self) -> (r: Option<u64>)
        ensures
            r == self.data_set_id,
    {
        self.data_set_id
    }

    pub fn get_data_set_id_as_ref(&self) -> (r: Option<&u64>)
        ensures
            r is Some <==> self.data_set_id is Some,
            r is Some ==> *r->0 == self.data_set_id->0,
    {
        self.data_set_id.as_ref()
    }

    pub fn set_data_set_id(&mut self, data_set_id: u64)
        ensures
            *final(self) == (Event { data_set_id: Some(data_set_id), ..*old(self) }),
    {
        self.data_set_id = Some(data_set_id);
    }

    pub fn get_description(&self) -> (r: Option<&str>)
        ensures
            r is Some <==> self.description is Some,
            r is Some ==> r->0@ == self.description->0@,
    {
        match &self.description {
            Some(d) => Some(d.as_str()),
            None => None,
        }
    }

    pub fn set_description(&mut self, description: String)
        ensures
            *final(self) == (Event { description: Some(description), ..*old(self) }),
    {
        self.description = Some(description);
    }

    pub fn get_source(&self) -> (r: Option<&str>)
        ensures
            r is Some <==> self.source is Some,
            r is Some ==> r->0@ == self.source->0@,
    {
        match &self.source {
            Some(s) => Some(s.as_str()),
            None => None,
        }
    }

    pub fn set_source(&mut self, source: String)
        ensures
            *final(self) == (Event { source: Some(source), ..*old(self) }),
    {
        self.source = Some(source);
    }

    pub fn get_status(&self) -> (r: Option<&str>)
        ensures
            r is Some <==> self.status is Some,
            r is Some ==> r->0@ == self.status->0@,
    {
        match &self.status {
            Some(s) => Some(s.as_str()),
            None => None,
        }
    }

    pub fn set_status(&mut self, status: &str)
        ensures
            final(self).status is Some && final(self).status->0@ == status@,
            *final(self) == (Event { status: final(self).status, ..*old(self) }),
    {
        self.status = Some(status.to_owned());
    }

    pub fn get_event_time(&self) -> (r: Option<&i64>)
        ensures
            r is Some <==> self.event_time is Some,
            r is Some ==> *r->0 == self.event_time->0,
    {
        self.event_time.as_ref()
    }

    pub fn set_event_time(&mut self, event_time: i64)
        ensures
            *final(self) == (Event { event_time: Some(event_time), ..*old(self) }),
    {
        self.event_time = Some(event_time);
    }

    pub fn get_related_resource_ids(&self) -> (r: &Vec<u64>)
        ensures
            r@ == self.related_resource_ids@,
    {
        &self.related_resource_ids
    }

    pub fn get_related_resource_external_ids(&self) -> (r: &Vec<String>)
        ensures
            r@ == self.related_resource_external_ids@,
    {
        &self.related_resource_external_ids
    }

    /// The metadata keys, in insertion order, when metadata exists.
    pub fn get_metadata_keys(&self) -> (r: Option<Vec<String>>)
        ensures
            r is Some <==> self.metadata is Some,
            r is Some ==> r->0@.len() == self.metadata->0.entries@.len() && (forall|i: int|
                0 <= i < r->0@.len() ==> (#[trigger] r->0@[i])@
                    == self.metadata->0.entries@[i].0@),
    {
        match &self.metadata {
            Some(m) => Some(m.keys()),
            None => None,
        }
    }

    /// The metadata value under this key, when metadata exists and holds
    /// the key.
    pub fn get_metadata_value(&self, key: &str) -> (r: Option<&str>)
        requires
            event_wf(*self),
        ensures
            self.metadata is None ==> r is None,
            self.metadata is Some ==> (r is Some <==> md_has_key(
                self.metadata->0.entries@,
                key@,
            )),
            r is Some ==> exists|i: int|
                0 <= i < self.metadata->0.entries@.len()
                    && (#[trigger] self.metadata->0.entries@[i]).0@ == key@ && r->0@
                    == self.metadata->0.entries@[i].1@,
    {
        match &self.metadata {
            Some(m) => match m.get(key) {
                Some(v) => Some(v.as_str()),
                None => None,
            },
            None => None,
        }
    }

    pub fn get_created_time(&self) -> (r: Option<&i64>)
        ensures
            r is Some <==> self.created_time is Some,
            r is Some ==> *r->0 == self.created_time->0,
    {
        self.created_time.as_ref()
    }

    pub fn get_last_updated_time(&self) -> (r: Option<&i64>)
        ensures
            r is Some <==> self.last_updated_time is Some,
            r is Some ==> *r->0 == self.last_updated_time->0,
    {
        self.last_updated_time.as_ref()
    }
}

/// The flat criteria of an event listing request. The event timestamp
/// bound is epoch milliseconds.
#[derive(Debug, Clone)]
pub struct EventsFilter {
    pub id: Option<u64>,
    pub external_id_prefix: Option<String>,
    pub source: Option<String>,
    pub event_type: Option<String>,
    pub sub_type: Option<String>,
    pub data_set_ids: Option<Vec<u64>>,
    pub event_time: Option<i64>,
    pub related_resource_ids: Option<Vec<u64>>,
    pub related_resource_external_ids: Option<Vec<String>>,
}

/// The filter with every criterion unset.
pub open spec fn empty_events_filter() -> EventsFilter {
    EventsFilter {
        id: None,
        external_id_prefix: None,
        source: None,
        event_type: None,
        sub_type: None,
        data_set_ids: None,
        event_time: None,
        related_resource_ids: None,
        related_resource_external_ids: None,
    }
}

/// How `set_property` changes a filter: the `id` property parses as a
/// decimal id and is ignored when it does not parse; the string
/// properties store the value; every other property name changes
/// nothing.
pub open spec fn set_property_relates(
    o: EventsFilter,
    n: EventsFilter,
    prop: Seq<char>,
    value: Seq<char>,
) -> bool {
    if prop == "id"@ {
        if value.len() > 0 && all_digit_chars(value) && digits_value(value) <= u64::MAX {
            n == (EventsFilter { id: Some(digits_value(value) as u64), ..o })
        } else {
            n == o
        }
    } else if prop == "external_id_prefix"@ {
        n.external_id_prefix is Some && n.external_id_prefix->0@ == value && n == (EventsFilter {
            external_id_prefix: n.external_id_prefix,
            ..o
        })
    } else if prop == "source"@ {
        n.source is Some && n.source->0@ == value && n == (EventsFilter { source: n.source, ..o })
    } else if prop == "type"@ {
        n.event_type is Some && n.event_type->0@ == value && n == (EventsFilter {
            event_type: n.event_type,
            ..o
        })
    } else if prop == "sub_type"@ {
        n.sub_type is Some && n.sub_type->0@ == value && n == (EventsFilter {
            sub_type: n.sub_type,
            ..o
        })
    } else {
        n == o
    }
}

/// Whether two strings hold the same characters.
fn str_eq(a: &str, b: &str) -> (r: bool)
    ensures
        r == (a@ == b@),
{
    a.to_owned().eq(&b.to_owned())
}

impl EventsFilter {
    pub fn new() -> (r: EventsFilter)
        ensures
            r == empty_events_filter(),
    {
        EventsFilter {
            id: None,
            external_id_prefix: None,
            source: None,
            event_type: None,
            sub_type: None,
            data_set_ids: None,
            event_time: None,
            related_resource_ids: None,
            related_resource_external_ids: None,
        }
    }

    /// Sets the named property from its string form; the numeric `id`
    /// property is parsed first and left alone when the value is not a
    /// decimal number. Unknown names and the list-valued `data_set_ids`
    /// change nothing.
    pub fn set_property(&mut self, property_name: &str, value: &str)
        ensures
            set_property_relates(*old(self), *final(self), property_name@, value@),
    {
        proof {
            reveal_strlit("id");
            reveal_strlit("external_id_prefix");
            reveal_strlit("source");
            reveal_strlit("type");
            reveal_strlit("sub_type");
        }
        if str_eq(property_name, "id") {
            match parse_u64(value) {
                Some(id) => {
                    self.id = Some(id);
                },
                None => (),
            }
        } else if str_eq(property_name, "external_id_prefix") {
            self.external_id_prefix = Some(value.to_owned());
        } else if str_eq(property_name, "source") {
            self.source = Some(value.to_owned());
        } else if str_eq(property_name, "type") {
            self.event_type = Some(value.to_owned());
        } else if str_eq(property_name, "sub_type") {
            self.sub_type = Some(value.to_owned());
        }
    }

    pub fn set_data_set_ids(&mut self, data_set_ids: Vec<u64>)
        ensures
            *final(self) == (EventsFilter { data_set_ids: Some(data_set_ids), ..*old(self) }),
    {
        self.data_set_ids = Some(data_set_ids);
    }
}

/// An event listing request: the flat filter, paging and sorting, the
/// advanced filter tree, and the status code of the response it was
/// answered with.
#[derive(Debug)]
pub struct RetrieveEventsFilter {
    pub filter: Option<EventsFilter>,
    pub limit: Option<u64>,
    pub cursor: Option<String>,
    pub sort: Option<String>,
    pub advanced_filter: Option<AdvancedEventFilter>,
    pub http_status_code: Option<u16>,
}

impl RetrieveEventsFilter {
    pub fn new() -> (r: RetrieveEventsFilter)
        ensures
            r.filter is None,
            r.limit is None,
            r.cursor is None,
            r.sort is None,
            r.advanced_filter is None,
            r.http_status_code is None,
    {
        RetrieveEventsFilter {
            filter: None,
            limit: None,
            cursor: None,
            sort: None,
            advanced_filter: None,
            http_status_code: None,
        }
    }

    /// A listing request whose filter sets one property to the
    /// snake-cased form of `value`.
    pub fn new_with_prefix(property: &str, value: &str) -> (r: RetrieveEventsFilter)
        ensures
            r.limit is None,
            r.cursor is None,
            r.sort is None,
            r.advanced_filter is None,
            r.http_status_code is None,
            r.filter is Some && set_property_relates(
                empty_events_filter(),
                r.filter->0,
                property@,
                snake_case_of(value@),
            ),
    {
        let new_value = to_snake_lower_cased_allow_start_with_digits(value);
        let mut filter = EventsFilter::new();
        filter.set_property(property, new_value.as_str());
        RetrieveEventsFilter {
            filter: Some(filter),
            limit: None,
            cursor: None,
            sort: None,
            advanced_filter: None,
            http_status_code: None,
        }
    }

    pub fn set_http_status_code(&mut self, http_status_code: u16)
        ensures
            *final(self) == (RetrieveEventsFilter {
                http_status_code: Some(http_status_code),
                ..*old(self)
            }),
    {
        self.http_status_code = Some(http_status_code);
    }
}

} // verus!
