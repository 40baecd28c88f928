//! The JSON wire form of the advanced event filter tree. The list
//! endpoint expects each node as a one-key object named after the
//! operator, so the payload shape is part of this library's contract and
//! is emitted here, verified against its character-level specification.

use vstd::prelude::*;
use vstd::string::*;

use crate::event_filters::{AdvancedEventFilter, Filter, RelatedResourceFilter};

verus! {

/// How one character appears inside a JSON string: quotes and
/// backslashes carry an escape, everything else stands for itself.
pub open spec fn json_escaped_char(c: char) -> Seq<char> {
    if c == '"' {
        "\\\""@
    } else if c == '\\' {
        "\\\\"@
    } else {
        seq![c]
    }
}

pub open spec fn json_escaped(s: Seq<char>) -> Seq<char>
    decreases s.len(),
{
    if s.len() == 0 {
        Seq::empty()
    } else {
        json_escaped(s.drop_last()) + json_escaped_char(s.last())
    }
}

/// A JSON string literal: the escaped characters between quotes.
pub open spec fn json_string_of(s: Seq<char>) -> Seq<char> {
    "\""@ + json_escaped(s) + "\""@
}

/// A JSON string or `null`.
pub open spec fn json_of_opt_string(o: Option<String>) -> Seq<char> {
    match o {
        None => "null"@,
        Some(s) => json_string_of(s@),
    }
}

/// Comma-joined JSON strings, without the surrounding brackets.
pub open spec fn json_of_string_seq(vs: Seq<String>) -> Seq<char>
    decreases vs.len(),
{
    if vs.len() == 0 {
        Seq::empty()
    } else if vs.len() == 1 {
        json_string_of(vs[0]@)
    } else {
        json_of_string_seq(vs.drop_last()) + ","@ + json_string_of(vs.last()@)
    }
}

/// The JSON form of one filter node: a one-key object named after the
/// operator, with the node's fields in declaration order.
pub open spec fn json_of_filter(f: Filter) -> Seq<char>
    decreases f,
{
    match f {
        Filter::And(fs) => "{\"and\":["@ + json_of_filter_seq(fs@) + "]}"@,
        Filter::Or(fs) => "{\"or\":["@ + json_of_filter_seq(fs@) + "]}"@,
        Filter::Not(b) => "{\"not\":"@ + json_of_filter(*b) + "}"@,
        Filter::Equals { property, value } => "{\"equals\":{\"property\":"@ + json_string_of(
            property@,
        ) + ",\"value\":"@ + json_string_of(value@) + "}}"@,
        Filter::In { property, values } => "{\"in\":{\"property\":"@ + json_string_of(property@)
            + ",\"values\":["@ + json_of_string_seq(values@) + "]}}"@,
        Filter::Range { max, min, property } => "{\"range\":{\"max\":"@ + json_of_opt_string(max)
            + ",\"min\":"@ + json_of_opt_string(min) + ",\"property\":"@ + json_string_of(
            property@,
        ) + "}}"@,
        Filter::IsSet { property } => "{\"isSet\":{\"property\":["@ + json_of_string_seq(property@)
            + "]}}"@,
        Filter::ContainsAny { any_of, property } => "{\"containsAny\":{\"anyOf\":["@
            + json_of_string_seq(any_of@) + "],\"property\":"@ + json_string_of(property@) + "}}"@,
        Filter::ContainsAll { all_of, property } => "{\"containsAll\":{\"allOf\":["@
            + json_of_string_seq(all_of@) + "],\"property\":"@ + json_string_of(property@) + "}}"@,
    }
}

/// Comma-joined filter nodes, without the surrounding brackets.
pub open spec fn json_of_filter_seq(fs: Seq<Filter>) -> Seq<char>
    decreases fs,
{
    if fs.len() == 0 {
        Seq::empty()
    } else if fs.len() == 1 {
        json_of_filter(fs[0])
    } else {
        json_of_filter_seq(fs.drop_last()) + ","@ + json_of_filter(fs.last())
    }
}

/// The JSON form of the related-resource criteria.
pub open spec fn json_of_related(r: RelatedResourceFilter) -> Seq<char> {
    "{\"filter\":"@ + json_of_filter(r.filter) + ",\"relationTypes\":"@ + (match r.relation_types {
        None => "null"@,
        Some(ts) => "["@ + json_of_string_seq(ts@) + "]"@,
    }) + "}"@
}

/// The JSON form of the advanced filter: the filter tree (or `null`),
/// and the related-resource criteria only when present.
pub open spec fn json_of_advanced(a: AdvancedEventFilter) -> Seq<char> {
    "{\"filter\":"@ + (match a.filter {
        None => "null"@,
        Some(f) => json_of_filter(f),
    }) + (match a.related_resource_filter {
        None => Seq::<char>::empty(),
        Some(r) => ",\"relatedResourceFilter\":"@ + json_of_related(r),
    }) + "}"@
}

fn json_escape(s: &str) -> (r: String)
    ensures
        r@ == json_escaped(s@),
{
    let len = s.unicode_len();
    let mut out = String::new();
    let mut i: usize = 0;
    proof {
        assert(json_escaped(s@.take(0int)) =~= Seq::<char>::empty());
    }
    while i < len
        invariant
            i <= len,
            len == s@.len(),
            out@ == json_escaped(s@.take(i as int)),
        decreases len - i,
    {
        proof {
            assert(s@.take(i as int + 1).drop_last() =~= s@.take(i as int));
            assert(s@.take(i as int + 1).last() == s@[i as int]);
        }
        let c = s.get_char(i);
        if c == '"' {
            out.append("\\\"");
        } else if c == '\\' {
            out.append("\\\\");
        } else {
            out.append(s.substring_char(i, i + 1));
            proof {
                assert(s@.subrange(i as int, i as int + 1) =~= seq![s@[i as int]]);
            }
        }
        proof {
            assert(out@ =~= json_escaped(s@.take(i as int + 1)));
        }
        i = i + 1;
    }
    proof {
        assert(s@.take(len as int) =~= s@);
    }
    out
}

fn json_string(s: &str) -> (r: String)
    ensures
        r@ == json_string_of(s@),
{
    let mut out = String::from_str("\"");
    let escaped = json_escape(s);
    out.append(escaped.as_str());
    out.append("\"");
    proof {
        assert(out@ =~= json_string_of(s@));
    }
    out
}

fn json_opt_string(o: &Option<String>) -> (r: String)
    ensures
        r@ == json_of_opt_string(*o),
{
    match o {
        None => String::from_str("null"),
        Some(s) => json_string(s.as_str()),
    }
}

fn json_string_list(vs: &Vec<String>) -> (r: String)
    ensures
        r@ == json_of_string_seq(vs@),
{
    let mut out = String::new();
    let mut i: usize = 0;
    proof {
        assert(json_of_string_seq(vs@.take(0int)) =~= Seq::<char>::empty());
    }
    while i < vs.len()
        invariant
            i <= vs@.len(),
            out@ == json_of_string_seq(vs@.take(i as int)),
        decreases vs@.len() - i,
    {
        proof {
            assert(vs@.take(i as int + 1).drop_last() =~= vs@.take(i as int));
            assert(vs@.take(i as int + 1).last() == vs@[i as int]);
        }
        if i > 0 {
            out.append(",");
        }
        let quoted = json_string(vs[i].as_str());
        out.append(quoted.as_str());
        proof {
            assert(out@ =~= json_of_string_seq(vs@.take(i as int + 1)));
        }
        i = i + 1;
    }
    proof {
        assert(vs@.take(vs@.len() as int) =~= vs@);
    }
    out
}

fn filters_to_json(fs: &Vec<Filter>) -> (r: String)
    ensures
        r@ == json_of_filter_seq(fs@),
    decreases fs@,
{
    let mut out = String::new();
    let mut i: usize = 0;
    proof {
        assert(json_of_filter_seq(fs@.take(0int)) =~= Seq::<char>::empty());
    }
    while i < fs.len()
        invariant
            i <= fs@.len(),
            out@ == json_of_filter_seq(fs@.take(i as int)),
        decreases fs@.len() - i,
    {
        proof {
            assert(fs@.take(i as int + 1).drop_last() =~= fs@.take(i as int));
            assert(fs@.take(i as int + 1).last() == fs@[i as int]);
            assert(decreases_to!(fs@ => fs@[i as int]));
        }
        if i > 0 {
            out.append(",");
        }
        let child = fs[i].to_json_string();
        out.append(child.as_str());
        proof {
            assert(out@ =~= json_of_filter_seq(fs@.take(i as int + 1)));
        }
        i = i + 1;
    }
    proof {
        assert(fs@.take(fs@.len() as int) =~= fs@);
    }
    out
}

impl Filter {
    /// Renders this node as the JSON the list endpoint expects.
    pub fn to_json_string(&self) -> (r: String)
        ensures
            r@ == json_of_filter(*self),
        decreases *self,
    {
        match self {
            Filter::And(fs) => {
                let mut out = String::from_str("{\"and\":[");
                proof {
                    assert(decreases_to!(*self => fs@));
                }
                let inner = filters_to_json(fs);
                out.append(inner.as_str());
                out.append("]}");
                proof {
                    assert(out@ =~= json_of_filter(*self));
                }
                out
            },
            Filter::Or(fs) => {
                let mut out = String::from_str("{\"or\":[");
                proof {
                    assert(decreases_to!(*self => fs@));
                }
                let inner = filters_to_json(fs);
                out.append(inner.as_str());
                out.append("]}");
                proof {
                    assert(out@ =~= json_of_filter(*self));
                }
                out
            },
            Filter::Not(b) => {
                let mut out = String::from_str("{\"not\":");
                let inner = (&**b).to_json_string();
                out.append(inner.as_str());
                out.append("}");
                proof {
                    assert(out@ =~= json_of_filter(*self));
                }
                out
            },
            Filter::Equals { property, value } => {
                let mut out = String::from_str("{\"equals\":{\"property\":");
                let p = json_string(property.as_str());
                out.append(p.as_str());
                out.append(",\"value\":");
                let v = json_string(value.as_str());
                out.append(v.as_str());
                out.append("}}");
                proof {
                    assert(out@ =~= json_of_filter(*self));
                }
                out
            },
            Filter::In { property, values } => {
                let mut out = String::from_str("{\"in\":{\"property\":");
                let p = json_string(property.as_str());
                out.append(p.as_str());
                out.append(",\"values\":[");
                let vs = json_string_list(values);
                out.append(vs.as_str());
                out.append("]}}");
                proof {
                    assert(out@ =~= json_of_filter(*self));
                }
                out
            },
            Filter::Range { max, min, property } => {
                let mut out = String::from_str("{\"range\":{\"max\":");
                let mx = json_opt_string(max);
                out.append(mx.as_str());
                out.append(",\"min\":");
                let mn = json_opt_string(min);
                out.append(mn.as_str());
                out.append(",\"property\":");
                let p = json_string(property.as_str());
                out.append(p.as_str());
                out.append("}}");
                proof {
                    assert(out@ =~= json_of_filter(*self));
                }
                out
            },
            Filter::IsSet { property } => {
                let mut out = String::from_str("{\"isSet\":{\"property\":[");
                let ps = json_string_list(property);
                out.append(ps.as_str());
                out.append("]}}");
                proof {
                    assert(out@ =~= json_of_filter(*self));
                }
                out
            },
            Filter::ContainsAny { any_of, property } => {
                let mut out = String::from_str("{\"containsAny\":{\"anyOf\":[");
                let vs = json_string_list(any_of);
                out.append(vs.as_str());
                out.append("],\"property\":");
                let p = json_string(property.as_str());
                out.append(p.as_str());
                out.append("}}");
                proof {
                    assert(out@ =~= json_of_filter(*self));
                }
                out
            },
            Filter::ContainsAll { all_of, property } => {
                let mut out = String::from_str("{\"containsAll\":{\"allOf\":[");
                let vs = json_string_list(all_of);
                out.append(vs.as_str());
                out.append("],\"property\":");
                let p = json_string(property.as_str());
                out.append(p.as_str());
                out.append("}}");
                proof {
                    assert(out@ =~= json_of_filter(*self));
                }
                out
            },
        }
    }
}

impl AdvancedEventFilter {
    /// Renders the advanced filter as the JSON the list endpoint
    /// expects: the filter tree (or `null`), and the related-resource
    /// criteria only when present.
    pub fn to_json_string(&self) -> (r: String)
        ensures
            r@ == json_of_advanced(*self),
    {
        let mut out = String::from_str("{\"filter\":");
        match &self.filter {
            None => out.append("null"),
            Some(f) => {
                let inner = f.to_json_string();
                out.append(inner.as_str());
            },
        }
        match &self.related_resource_filter {
            None => (),
            Some(r) => {
                out.append(",\"relatedResourceFilter\":");
                out.append("{\"filter\":");
                let inner = r.filter.to_json_string();
                out.append(inner.as_str());
                out.append(",\"relationTypes\":");
                match &r.relation_types {
                    None => out.append("null"),
                    Some(ts) => {
                        out.append("[");
                        let list = json_string_list(ts);
                        out.append(list.as_str());
                        out.append("]");
                    },
                }
                out.append("}");
            },
        }
        out.append("}");
        proof {
            assert(out@ =~= json_of_advanced(*self));
        }
        out
    }
}

} // verus!
