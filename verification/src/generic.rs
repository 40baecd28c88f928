//! Shared request/response building blocks: id/external-id references,
//! datapoint collections, filter forms, and the `DataWrapper` envelope
//! that every endpoint returns.

use std::collections::hash_map::DefaultHasher;
use std::hash::Hasher;

use vstd::bytes::{spec_u64_to_le_bytes, u64_to_le_bytes};
use vstd::prelude::*;
use vstd::std_specs::hash::DefaultHasherAdditionalSpecFns;
use vstd::string::*;

use crate::numeric::{decimal_digits, u64_to_string};

verus! {

/// Reference to a series or other entity by numeric id or string
/// external id. The remote API requires exactly one of the two to be
/// set; that rule is enforced server-side, so the type allows any
/// combination locally.
#[derive(Debug, Clone)]
pub struct IdAndExtId {
    pub id: Option<u64>,
    pub external_id: Option<String>,
}

impl IdAndExtId {
    pub fn from_id(id: u64) -> (r: IdAndExtId)
        ensures
            r.id == Some(id),
            r.external_id is None,
    {
        IdAndExtId { id: Some(id), external_id: None }
    }

    pub fn from_external_id(external_id: &str) -> (r: IdAndExtId)
        ensures
            r.id is None,
            r.external_id is Some && r.external_id->0@ == external_id@,
    {
        IdAndExtId { id: None, external_id: Some(external_id.to_owned()) }
    }
}

/// A datapoint whose timestamp and value are both kept as strings,
/// exactly as they will be sent on the wire.
#[derive(Debug, Clone)]
pub struct DatapointString {
    pub timestamp: String,
    pub value: String,
}

impl DatapointString {
    pub fn from(timestamp: &str, value: &str) -> (r: DatapointString)
        ensures
            r.timestamp@ == timestamp@,
            r.value@ == value@,
    {
        DatapointString { timestamp: timestamp.to_owned(), value: value.to_owned() }
    }
}

/// One series' datapoints inside an insert or retrieve payload, keyed by
/// id or external id, plus the cursor and unit details the server
/// attaches on retrieval.
#[derive(Debug, Clone)]
pub struct DatapointsCollection<T> {
    pub id: Option<u64>,
    pub external_id: Option<String>,
    pub datapoints: Vec<T>,
    pub next_cursor: Option<String>,
    pub unit: Option<String>,
    pub unit_external_id: Option<String>,
    pub is_step: bool,
    pub is_string: bool,
}

/// The planner tracks a series by this key, derived from its
/// id/external-id pair.
pub open spec fn col_key<T>(c: DatapointsCollection<T>) -> (Option<u64>, Option<Seq<char>>) {
    (
        c.id,
        match c.external_id {
            Some(s) => Some(s@),
            None => None,
        },
    )
}

impl<T> DatapointsCollection<T> {
    pub fn from_id(id: u64) -> (r: DatapointsCollection<T>)
        ensures
            r.id == Some(id),
            r.external_id is None,
            r.datapoints@ =~= Seq::<T>::empty(),
            r.next_cursor is None,
            r.unit is None,
            r.unit_external_id is None,
            !r.is_step,
            !r.is_string,
    {
        DatapointsCollection {
            id: Some(id),
            external_id: None,
            datapoints: Vec::new(),
            next_cursor: None,
            unit: None,
            unit_external_id: None,
            is_step: false,
            is_string: false,
        }
    }

    pub fn from_external_id(external_id: &str) -> (r: DatapointsCollection<T>)
        ensures
            r.id is None,
            r.external_id is Some && r.external_id->0@ == external_id@,
            r.datapoints@ =~= Seq::<T>::empty(),
            r.next_cursor is None,
            r.unit is None,
            r.unit_external_id is None,
            !r.is_step,
            !r.is_string,
    {
        DatapointsCollection {
            id: None,
            external_id: Some(external_id.to_owned()),
            datapoints: Vec::new(),
            next_cursor: None,
            unit: None,
            unit_external_id: None,
            is_step: false,
            is_string: false,
        }
    }

    /// Builds an empty collection carrying over the given key. Either the
    /// id or the external id must be provided: a collection with neither
    /// cannot name a series.
    pub fn from(id: Option<u64>, external_id: Option<String>) -> (r: DatapointsCollection<T>)
        requires
            id is Some || external_id is Some,
        ensures
            id is Some ==> r.id == id && r.external_id is None,
            id is None ==> r.id is None && r.external_id is Some && r.external_id->0@
                == external_id->0@,
            r.datapoints@ =~= Seq::<T>::empty(),
            r.next_cursor is None,
            r.unit is None,
            r.unit_external_id is None,
            !r.is_step,
            !r.is_string,
    {
        if let Some(id) = id {
            DatapointsCollection::from_id(id)
        } else {
            let external_id = external_id.unwrap();
            DatapointsCollection::from_external_id(external_id.as_str())
        }
    }
}

/// The byte sequences a collection's key feeds to the hasher: the id's
/// little-endian bytes when present, then the external id's UTF-8 bytes
/// when present.
pub open spec fn collection_hash_input(id: Option<u64>, ext: Option<Seq<char>>) -> Seq<Seq<u8>> {
    let s0 = Seq::<Seq<u8>>::empty();
    let s1 = match id {
        Some(v) => s0.push(spec_u64_to_le_bytes(v)),
        None => s0,
    };
    match ext {
        Some(e) => s1.push(vstd::utf8::encode_utf8(e)),
        None => s1,
    }
}

/// The deterministic hash of a collection's key.
pub open spec fn spec_collection_hash(id: Option<u64>, ext: Option<Seq<char>>) -> u64 {
    DefaultHasher::spec_finish(collection_hash_input(id, ext))
}

/// Rendering of an optional number, `Some(v)` or `None`.
pub open spec fn render_of_opt_u64(o: Option<u64>) -> Seq<char> {
    match o {
        None => "None"@,
        Some(v) => "Some("@ + decimal_digits(v as nat) + ")"@,
    }
}

/// Rendering of an optional string, `Some("s")` or `None`.
pub open spec fn render_of_opt_str(o: Option<Seq<char>>) -> Seq<char> {
    match o {
        None => "None"@,
        Some(s) => "Some(\""@ + s + "\")"@,
    }
}

fn render_opt_u64(o: &Option<u64>) -> (r: String)
    ensures
        r@ == render_of_opt_u64(*o),
{
    match o {
        None => String::from_str("None"),
        Some(v) => {
            let mut s = String::from_str("Some(");
            let digits = u64_to_string(*v);
            s.append(digits.as_str());
            s.append(")");
            proof {
                assert(s@ =~= render_of_opt_u64(*o));
            }
            s
        },
    }
}

fn render_opt_str(o: &Option<String>) -> (r: String)
    ensures
        r@ == render_of_opt_str(opt_str_view(*o)),
{
    match o {
        None => String::from_str("None"),
        Some(v) => {
            let mut s = String::from_str("Some(\"");
            s.append(v.as_str());
            s.append("\")");
            proof {
                assert(s@ =~= render_of_opt_str(opt_str_view(*o)));
            }
            s
        },
    }
}

/// The rendering `DatapointsCollection::to_string` produces.
pub open spec fn render_of_collection(
    id: Option<u64>,
    ext: Option<Seq<char>>,
    n_datapoints: nat,
) -> Seq<char> {
    "DatapointsCollection { id: "@ + render_of_opt_u64(id) + ", external_id: "@
        + render_of_opt_str(ext) + ", datapoints: "@ + decimal_digits(n_datapoints) + " }"@
}

impl<T> DatapointsCollection<T> {
    /// A short description of the collection: its key and how many
    /// datapoints it holds.
    pub fn to_string(&self) -> (r: String)
        ensures
            r@ == render_of_collection(
                self.id,
                opt_str_view(self.external_id),
                self.datapoints@.len(),
            ),
    {
        let mut s = String::from_str("DatapointsCollection { id: ");
        let id_part = render_opt_u64(&self.id);
        s.append(id_part.as_str());
        s.append(", external_id: ");
        let ext_part = render_opt_str(&self.external_id);
        s.append(ext_part.as_str());
        s.append(", datapoints: ");
        let count_part = u64_to_string(self.datapoints.len() as u64);
        s.append(count_part.as_str());
        s.append(" }");
        proof {
            assert(s@ =~= render_of_collection(
                self.id,
                opt_str_view(self.external_id),
                self.datapoints@.len(),
            ));
        }
        s
    }

    /// The deterministic key hash used to track a series: the id's bytes
    /// when set, then the external id's bytes when set, run through the
    /// standard hasher.
    pub fn hash(&self) -> (r: u64)
        ensures
            r == spec_collection_hash(self.id, opt_str_view(self.external_id)),
    {
        let mut hasher = DefaultHasher::new();
        if let Some(id_value) = self.id {
            let bytes = u64_to_le_bytes(id_value);
            hasher.write(bytes.as_slice());
        }
        if let Some(external_id_value) = &self.external_id {
            hasher.write(external_id_value.as_str().as_bytes());
        }
        hasher.finish()
    }
}

/// The rendering `DataWrapper::to_string` produces.
pub open spec fn render_of_wrapper(n_items: nat, status: Option<u16>) -> Seq<char> {
    "DataWrapper { items: "@ + decimal_digits(n_items) + ", http_status_code: "@
        + render_of_opt_u64(
        match status {
            Some(c) => Some(c as u64),
            None => None,
        },
    ) + " }"@
}

/// The typed envelope around a list of result items: the items, the HTTP
/// status code of the response they came from, and, for error responses
/// whose body was not valid JSON, the raw body.
#[derive(Debug, Clone)]
pub struct DataWrapper<T> {
    pub items: Vec<T>,
    pub http_status_code: Option<u16>,
    pub error_body: Option<String>,
}

impl<T> DataWrapper<T> {
    pub fn new() -> (r: DataWrapper<T>)
        ensures
            r.items@ =~= Seq::<T>::empty(),
            r.http_status_code is None,
            r.error_body is None,
    {
        DataWrapper { items: Vec::new(), http_status_code: None, error_body: None }
    }

    pub fn get_items(&self) -> (r: &Vec<T>)
        ensures
            r@ == self.items@,
    {
        &self.items
    }

    pub fn get_items_mut(&mut self) -> (r: &mut Vec<T>)
        ensures
            *r == old(self).items,
            final(self).items == *final(r),
            final(self).http_status_code == old(self).http_status_code,
            final(self).error_body == old(self).error_body,
    {
        &mut self.items
    }

    pub fn set_items(&mut self, items: Vec<T>)
        ensures
            final(self).items == items,
            final(self).http_status_code == old(self).http_status_code,
            final(self).error_body == old(self).error_body,
    {
        self.items = items;
    }

    pub fn add_item(&mut self, item: T)
        ensures
            final(self).items@ == old(self).items@.push(item),
            final(self).http_status_code == old(self).http_status_code,
            final(self).error_body == old(self).error_body,
    {
        self.items.push(item);
    }

    pub fn length(&self) -> (r: u64)
        requires
            self.items@.len() <= u64::MAX,
        ensures
            r == self.items@.len(),
    {
        self.items.len() as u64
    }

    pub fn get_http_status_code(&self) -> (r: Option<u16>)
        ensures
            r == self.http_status_code,
    {
        self.http_status_code
    }

    pub fn set_http_status_code(&mut self, http_status_code: u16)
        ensures
            final(self).http_status_code == Some(http_status_code),
            final(self).items == old(self).items,
            final(self).error_body == old(self).error_body,
    {
        self.http_status_code = Some(http_status_code);
    }

    /// A short description of the envelope: how many items it holds and
    /// the status code it came with.
    pub fn to_string(&self) -> (r: String)
        ensures
            r@ == render_of_wrapper(self.items@.len(), self.http_status_code),
    {
        let mut s = String::from_str("DataWrapper { items: ");
        let count_part = u64_to_string(self.items.len() as u64);
        s.append(count_part.as_str());
        s.append(", http_status_code: ");
        let status_u64: Option<u64> = match self.http_status_code {
            Some(c) => Some(c as u64),
            None => None,
        };
        let status_part = render_opt_u64(&status_u64);
        s.append(status_part.as_str());
        s.append(" }");
        proof {
            assert(s@ =~= render_of_wrapper(self.items@.len(), self.http_status_code));
        }
        s
    }
}

/// Entities that expose both halves of an id/external-id pair, so that
/// envelopes of them can be filtered by either.
pub trait Identifiable {
    spec fn spec_id(&self) -> u64;

    spec fn spec_external_id(&self) -> Seq<char>;

    fn id(&self) -> (r: u64)
        ensures
            r == self.spec_id(),
    ;

    fn external_id(&self) -> (r: &str)
        ensures
            r@ == self.spec_external_id(),
    ;
}

/// The character-level view of an optional string.
pub open spec fn opt_str_view(o: Option<String>) -> Option<Seq<char>> {
    match o {
        Some(s) => Some(s@),
        None => None,
    }
}

/// Whether `remove_item` keeps an element, given the optional id and
/// external id being removed.
pub open spec fn keeps_item<T: Identifiable>(
    item: T,
    id: Option<u64>,
    external_id: Option<Seq<char>>,
) -> bool {
    &&& (id is Some ==> item.spec_id() != id->0)
    &&& (external_id is Some ==> item.spec_external_id() != external_id->0)
}

/// The items that survive `remove_item`, in their original order.
pub open spec fn kept_items<T: Identifiable>(
    s: Seq<T>,
    id: Option<u64>,
    external_id: Option<Seq<char>>,
) -> Seq<T> {
    s.filter(|item: T| keeps_item(item, id, external_id))
}

impl<T: Identifiable> DataWrapper<T> {
    /// Drops every item whose id equals `id_to_remove` (when given) or
    /// whose external id equals `external_id_to_remove` (when given),
    /// keeping the rest in order.
    pub fn remove_item(&mut self, id_to_remove: Option<u64>, external_id_to_remove: Option<String>)
        ensures
            final(self).items@ == kept_items(
                old(self).items@,
                id_to_remove,
                opt_str_view(external_id_to_remove),
            ),
            final(self).http_status_code == old(self).http_status_code,
            final(self).error_body == old(self).error_body,
    {
        let ghost ext: Option<Seq<char>> = opt_str_view(external_id_to_remove);
        let ghost pred = |item: T| keeps_item(item, id_to_remove, ext);
        let ghost orig = self.items@;
        let ghost orig_status = self.http_status_code;
        let ghost orig_error = self.error_body;
        let mut i: usize = 0;
        let ghost mut seen: int = 0;
        proof {
            reveal(Seq::filter);
            assert(orig.take(0int).filter(pred) =~= Seq::<T>::empty());
            assert(orig.skip(0int) =~= orig);
        }
        while i < self.items.len()
            invariant
                0 <= seen <= orig.len(),
                i == orig.take(seen).filter(pred).len(),
                self.items@ == orig.take(seen).filter(pred) + orig.skip(seen),
                self.http_status_code == orig_status,
                self.error_body == orig_error,
                ext == opt_str_view(external_id_to_remove),
                pred == (|item: T| keeps_item(item, id_to_remove, ext)),
            decreases orig.len() - seen,
        {
            proof {
                assert(seen < orig.len()) by {
                    if seen == orig.len() {
                        assert(orig.take(seen) =~= orig);
                        assert(orig.skip(seen) =~= Seq::<T>::empty());
                        orig.lemma_filter_len(pred);
                    }
                };
                assert(self.items@[i as int] == orig.skip(seen)[0]);
                assert(orig.skip(seen)[0] == orig[seen]);
            }
            let item = &self.items[i];
            let mut keep = true;
            if let Some(id_val) = id_to_remove {
                if item.id() == id_val {
                    keep = false;
                }
            }
            if let Some(ext_val) = &external_id_to_remove {
                if item.external_id().to_owned().eq(ext_val) {
                    keep = false;
                }
            }
            proof {
                assert(keep == pred(orig[seen]));
                reveal(Seq::filter);
                assert(orig.take(seen + 1).drop_last() =~= orig.take(seen));
                assert(orig.take(seen + 1).last() == orig[seen]);
                if keep {
                    assert(orig.take(seen + 1).filter(pred)
                        =~= orig.take(seen).filter(pred).push(orig[seen]));
                } else {
                    assert(orig.take(seen + 1).filter(pred) =~= orig.take(seen).filter(pred));
                }
            }
            if keep {
                i = i + 1;
                proof {
                    assert(self.items@ =~= orig.take(seen + 1).filter(pred) + orig.skip(seen + 1));
                }
            } else {
                let _ = self.items.remove(i);
                proof {
                    assert(self.items@ =~= orig.take(seen + 1).filter(pred) + orig.skip(seen + 1));
                }
            }
            proof {
                seen = seen + 1;
            }
        }
        proof {
            assert(seen == orig.len()) by {
                if seen < orig.len() {
                    orig.take(seen).lemma_filter_len(pred);
                    assert(self.items@.len() >= orig.skip(seen).len());
                }
            };
            assert(orig.take(seen) =~= orig);
            assert(orig.skip(seen) =~= Seq::<T>::empty());
            assert(self.items@ =~= orig.filter(pred));
        }
    }
}

/// A reference to another entity together with the relationship's type.
#[derive(Debug, Clone)]
pub struct RelationForm {
    pub id: Option<u64>,
    pub external_id: Option<String>,
    pub relationship_type: String,
}

impl RelationForm {
    pub fn from_id(id: u64, relationship_type: String) -> (r: RelationForm)
        ensures
            r.id == Some(id),
            r.external_id is None,
            r.relationship_type == relationship_type,
    {
        RelationForm { id: Some(id), external_id: None, relationship_type }
    }

    pub fn from_external_id(external_id: String, relationship_type: String) -> (r: RelationForm)
        ensures
            r.id is None,
            r.external_id == Some(external_id),
            r.relationship_type == relationship_type,
    {
        RelationForm { id: None, external_id: Some(external_id), relationship_type }
    }
}

/// Free-text search criteria for the search endpoints.
#[derive(Debug, Clone)]
pub struct SearchForm {
    pub name: Option<String>,
    pub description: Option<String>,
    pub query: Option<String>,
}

impl SearchForm {
    pub fn new() -> (r: SearchForm)
        ensures
            r.name is None,
            r.description is None,
            r.query is None,
    {
        SearchForm { name: None, description: None, query: None }
    }
}

/// A search request: an optional filter id, the search criteria, and a
/// result limit.
#[derive(Debug, Clone)]
pub struct SearchAndFilterForm {
    pub filter: Option<u64>,
    pub search: Option<SearchForm>,
    pub limit: Option<u64>,
}

impl SearchAndFilterForm {
    pub fn new() -> (r: SearchAndFilterForm)
        ensures
            r.filter is None,
            r.search is None,
            r.limit is None,
    {
        SearchAndFilterForm { filter: None, search: None, limit: None }
    }
}

/// A batch of id/external-id references.
#[derive(Debug, Clone)]
pub struct IdAndExtIdCollection {
    pub items: Vec<IdAndExtId>,
}

impl IdAndExtIdCollection {
    pub fn new() -> (r: IdAndExtIdCollection)
        ensures
            r.items@ =~= Seq::<IdAndExtId>::empty(),
    {
        IdAndExtIdCollection { items: Vec::new() }
    }

    /// One reference per numeric id, in order.
    pub fn from_id_vec(ids: Vec<u64>) -> (r: IdAndExtIdCollection)
        ensures
            r.items@.len() == ids@.len(),
            forall|i: int|
                0 <= i < ids@.len() ==> (#[trigger] r.items@[i]).id == Some(ids@[i])
                    && r.items@[i].external_id is None,
    {
        let mut items: Vec<IdAndExtId> = Vec::new();
        let mut i: usize = 0;
        while i < ids.len()
            invariant
                i <= ids@.len(),
                items@.len() == i,
                forall|j: int|
                    0 <= j < i ==> (#[trigger] items@[j]).id == Some(ids@[j])
                        && items@[j].external_id is None,
            decreases ids@.len() - i,
        {
            items.push(IdAndExtId::from_id(ids[i]));
            i = i + 1;
        }
        IdAndExtIdCollection { items }
    }

    /// One reference per external id, in order.
    pub fn from_external_id_vec(external_ids: Vec<&str>) -> (r: IdAndExtIdCollection)
        ensures
            r.items@.len() == external_ids@.len(),
            forall|i: int|
                0 <= i < external_ids@.len() ==> (#[trigger] r.items@[i]).id is None
                    && r.items@[i].external_id is Some && r.items@[i].external_id->0@
                    == external_ids@[i]@,
    {
        let mut items: Vec<IdAndExtId> = Vec::new();
        let mut i: usize = 0;
        while i < external_ids.len()
            invariant
                i <= external_ids@.len(),
                items@.len() == i,
                forall|j: int|
                    0 <= j < i ==> (#[trigger] items@[j]).id is None && items@[j].external_id
                        is Some && items@[j].external_id->0@ == external_ids@[j]@,
            decreases external_ids@.len() - i,
        {
            items.push(IdAndExtId::from_external_id(external_ids[i]));
            i = i + 1;
        }
        IdAndExtIdCollection { items }
    }

    pub fn set_items(&mut self, items: Vec<IdAndExtId>)
        ensures
            final(self).items == items,
    {
        self.items = items;
    }

    pub fn add_item(&mut self, item: IdAndExtId)
        ensures
            final(self).items@ == old(self).items@.push(item),
    {
        self.items.push(item);
    }
}

/// A datapoint deletion request: which series, and the half-open
/// timestamp range to clear. Timestamps are epoch milliseconds.
#[derive(Debug, Clone)]
pub struct DeleteFilter {
    pub id: Option<u64>,
    pub external_id: Option<String>,
    pub inclusive_begin: Option<i64>,
    pub exclusive_end: Option<i64>,
}

impl DeleteFilter {
    pub fn new() -> (r: DeleteFilter)
        ensures
            r.id is None,
            r.external_id is None,
            r.inclusive_begin is None,
            r.exclusive_end is None,
    {
        DeleteFilter { id: None, external_id: None, inclusive_begin: None, exclusive_end: None }
    }

    pub fn from_external_id(
        external_id: String,
        inclusive_begin: Option<i64>,
        exclusive_end: Option<i64>,
    ) -> (r: DeleteFilter)
        ensures
            r.id is None,
            r.external_id == Some(external_id),
            r.inclusive_begin == inclusive_begin,
            r.exclusive_end == exclusive_end,
    {
        DeleteFilter { id: None, external_id: Some(external_id), inclusive_begin, exclusive_end }
    }

    pub fn from_id(id: u64, inclusive_begin: Option<i64>, exclusive_end: Option<i64>) -> (r:
        DeleteFilter)
        ensures
            r.id == Some(id),
            r.external_id is None,
            r.inclusive_begin == inclusive_begin,
            r.exclusive_end == exclusive_end,
    {
        DeleteFilter { id: Some(id), external_id: None, inclusive_begin, exclusive_end }
    }

    /// Whether the filter covers a datapoint with this timestamp: the
    /// begin bound is inclusive, the end bound exclusive, and a missing
    /// bound covers that whole side. The server deletes exactly the
    /// datapoints whose timestamps the filter covers and leaves every
    /// other datapoint of the series intact.
    pub fn selects_timestamp(&self, timestamp_millis: i64) -> (r: bool)
        ensures
            r == ((match self.inclusive_begin {
                Some(b) => timestamp_millis >= b,
                None => true,
            }) && (match self.exclusive_end {
                Some(e) => timestamp_millis < e,
                None => true,
            })),
    {
        let after_begin = match self.inclusive_begin {
            Some(b) => timestamp_millis >= b,
            None => true,
        };
        let before_end = match self.exclusive_end {
            Some(e) => timestamp_millis < e,
            None => true,
        };
        after_begin && before_end
    }
}

/// A datapoint retrieval request: the series, the time window, paging,
/// and optional aggregate selection. Timestamps are epoch milliseconds.
#[derive(Debug, Clone)]
pub struct RetrieveFilter {
    pub start: Option<i64>,
    pub end: Option<i64>,
    pub limit: Option<i64>,
    pub aggregates: Option<Vec<String>>,
    pub granularity: Option<String>,
    pub cursor: Option<String>,
    pub id: Option<u64>,
    pub external_id: Option<String>,
}

impl RetrieveFilter {
    pub fn new() -> (r: RetrieveFilter)
        ensures
            r.start is None,
            r.end is None,
            r.limit is None,
            r.aggregates is None,
            r.granularity is None,
            r.cursor is None,
            r.id is None,
            r.external_id is None,
    {
        RetrieveFilter {
            start: None,
            end: None,
            limit: None,
            aggregates: None,
            granularity: None,
            cursor: None,
            id: None,
            external_id: None,
        }
    }

    pub fn set_start(&mut self, start: i64)
        ensures
            *final(self) == (RetrieveFilter { start: Some(start), ..*old(self) }),
    {
        self.start = Some(start);
    }

    pub fn set_end(&mut self, end: i64)
        ensures
            *final(self) == (RetrieveFilter { end: Some(end), ..*old(self) }),
    {
        self.end = Some(end);
    }

    pub fn set_limit(&mut self, limit: i64)
        ensures
            *final(self) == (RetrieveFilter { limit: Some(limit), ..*old(self) }),
    {
        self.limit = Some(limit);
    }

    pub fn set_aggregates(&mut self, aggregates: Vec<String>)
        ensures
            *final(self) == (RetrieveFilter { aggregates: Some(aggregates), ..*old(self) }),
    {
        self.aggregates = Some(aggregates);
    }

    /// Appends one aggregate name, starting the list when there is none.
    pub fn add_aggregate(&mut self, aggregate: &str)
        ensures
            final(self).aggregates is Some,
            old(self).aggregates is Some ==> final(self).aggregates->0@ == old(
                self,
            ).aggregates->0@.push(final(self).aggregates->0@.last()),
            old(self).aggregates is None ==> final(self).aggregates->0@.len() == 1,
            final(self).aggregates->0@.last()@ == aggregate@,
            final(self).start == old(self).start,
            final(self).end == old(self).end,
            final(self).limit == old(self).limit,
            final(self).granularity == old(self).granularity,
            final(self).cursor == old(self).cursor,
            final(self).id == old(self).id,
            final(self).external_id == old(self).external_id,
    {
        if self.aggregates.is_none() {
            self.aggregates = Some(Vec::new());
        }
        match &mut self.aggregates {
            Some(v) => v.push(aggregate.to_owned()),
            None => (),
        }
    }

    pub fn set_granularity(&mut self, granularity: &str)
        ensures
            final(self).granularity is Some && final(self).granularity->0@ == granularity@,
            final(self).start == old(self).start,
            final(self).end == old(self).end,
            final(self).limit == old(self).limit,
            final(self).aggregates == old(self).aggregates,
            final(self).cursor == old(self).cursor,
            final(self).id == old(self).id,
            final(self).external_id == old(self).external_id,
    {
        self.granularity = Some(granularity.to_owned());
    }

    pub fn set_id(&mut self, id: u64)
        ensures
            *final(self) == (RetrieveFilter { id: Some(id), ..*old(self) }),
    {
        self.id = Some(id);
    }

    pub fn set_external_id(&mut self, external_id: &str)
        ensures
            final(self).external_id is Some && final(self).external_id->0@ == external_id@,
            final(self).start == old(self).start,
            final(self).end == old(self).end,
            final(self).limit == old(self).limit,
            final(self).aggregates == old(self).aggregates,
            final(self).granularity == old(self).granularity,
            final(self).cursor == old(self).cursor,
            final(self).id == old(self).id,
    {
        self.external_id = Some(external_id.to_owned());
    }
}

} // verus!
