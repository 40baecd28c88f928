//! The datapoint batch planner. A submission whose total datapoint count
//! exceeds the per-request ceiling is split, in place, into a sequence of
//! bounded sub-requests plus a final remainder: each round divides the
//! ceiling evenly across the series that still have datapoints, drains at
//! most that share from the front of every such series into one
//! sub-request, and repeats until the remainder fits in a single request.

use vstd::arithmetic::div_mod::{lemma_fundamental_div_mod, lemma_mod_bound};
use vstd::prelude::*;

use crate::generic::{col_key, DataWrapper, DatapointsCollection};

verus! {

/// The maximum number of datapoints the remote API accepts in one insert
/// request.
pub const MAX_DATAPOINTS_PER_REQUEST: usize = 100000;

/// Total number of datapoints across all collections.
pub open spec fn total_points<T>(cols: Seq<DatapointsCollection<T>>) -> nat
    decreases cols.len(),
{
    if cols.len() == 0 {
        0
    } else {
        total_points(cols.drop_last()) + cols.last().datapoints@.len()
    }
}

/// Number of collections that still have at least one datapoint.
pub open spec fn active_count<T>(cols: Seq<DatapointsCollection<T>>) -> nat
    decreases cols.len(),
{
    if cols.len() == 0 {
        0
    } else {
        active_count(cols.drop_last()) + if cols.last().datapoints@.len() > 0 {
            1nat
        } else {
            0nat
        }
    }
}

/// No two collections refer to the same series.
pub open spec fn distinct_keys<T>(cols: Seq<DatapointsCollection<T>>) -> bool {
    forall|i: int, j: int|
        0 <= i < j < cols.len() ==> col_key(cols[i]) != col_key(cols[j])
}

/// Every collection names its series by id or by external id.
pub open spec fn keyed_entries<T>(cols: Seq<DatapointsCollection<T>>) -> bool {
    forall|i: int|
        0 <= i < cols.len() ==> (#[trigger] cols[i].id) is Some || cols[i].external_id is Some
}

/// The datapoints that `cols` holds for the series with key `k`, in
/// order.
pub open spec fn points_for<T>(
    cols: Seq<DatapointsCollection<T>>,
    k: (Option<u64>, Option<Seq<char>>),
) -> Seq<T>
    decreases cols.len(),
{
    if cols.len() == 0 {
        Seq::empty()
    } else {
        let rest = points_for(cols.drop_last(), k);
        if col_key(cols.last()) == k {
            rest + cols.last().datapoints@
        } else {
            rest
        }
    }
}

/// The datapoints that a sequence of sub-requests holds for the series
/// with key `k`, in sub-request order.
pub open spec fn batched_points_for<T>(
    subs: Seq<DataWrapper<DatapointsCollection<T>>>,
    k: (Option<u64>, Option<Seq<char>>),
) -> Seq<T>
    decreases subs.len(),
{
    if subs.len() == 0 {
        Seq::empty()
    } else {
        batched_points_for(subs.drop_last(), k) + points_for(subs.last().items@, k)
    }
}

/// Two collections describe the same series the same way: everything but
/// the datapoints agrees.
pub open spec fn same_series<T>(a: DatapointsCollection<T>, b: DatapointsCollection<T>) -> bool {
    &&& a.id == b.id
    &&& a.external_id == b.external_id
    &&& a.next_cursor == b.next_cursor
    &&& a.unit == b.unit
    &&& a.unit_external_id == b.unit_external_id
    &&& a.is_step == b.is_step
    &&& a.is_string == b.is_string
}

proof fn lemma_total_take_succ<T>(cols: Seq<DatapointsCollection<T>>, i: int)
    requires
        0 <= i < cols.len(),
    ensures
        total_points(cols.take(i + 1)) == total_points(cols.take(i)) + cols[i].datapoints@.len(),
{
    assert(cols.take(i + 1).drop_last() =~= cols.take(i));
    assert(cols.take(i + 1).last() == cols[i]);
}

proof fn lemma_total_take_le<T>(cols: Seq<DatapointsCollection<T>>, i: int)
    requires
        0 <= i <= cols.len(),
    ensures
        total_points(cols.take(i)) <= total_points(cols),
    decreases cols.len() - i,
{
    if i == cols.len() {
        assert(cols.take(i) =~= cols);
    } else {
        lemma_total_take_succ(cols, i);
        lemma_total_take_le(cols, i + 1);
    }
}

proof fn lemma_active_take_succ<T>(cols: Seq<DatapointsCollection<T>>, i: int)
    requires
        0 <= i < cols.len(),
    ensures
        active_count(cols.take(i + 1)) == active_count(cols.take(i)) + if cols[i].datapoints@.len()
            > 0 {
            1nat
        } else {
            0nat
        },
{
    assert(cols.take(i + 1).drop_last() =~= cols.take(i));
    assert(cols.take(i + 1).last() == cols[i]);
}

proof fn lemma_total_ge_item<T>(cols: Seq<DatapointsCollection<T>>, i: int)
    requires
        0 <= i < cols.len(),
    ensures
        total_points(cols) >= total_points(cols.take(i)) + cols[i].datapoints@.len(),
{
    lemma_total_take_succ(cols, i);
    lemma_total_take_le(cols, i + 1);
}

/// Changing one collection changes the total by the difference of the two
/// datapoint counts.
proof fn lemma_total_update<T>(
    cols: Seq<DatapointsCollection<T>>,
    i: int,
    c: DatapointsCollection<T>,
)
    requires
        0 <= i < cols.len(),
    ensures
        total_points(cols.update(i, c)) + cols[i].datapoints@.len() == total_points(cols)
            + c.datapoints@.len(),
    decreases cols.len(),
{
    if i == cols.len() - 1 {
        assert(cols.update(i, c).drop_last() =~= cols.drop_last());
        assert(cols.update(i, c).last() == c);
    } else {
        assert(cols.update(i, c).drop_last() =~= cols.drop_last().update(i, c));
        assert(cols.update(i, c).last() == cols.last());
        lemma_total_update(cols.drop_last(), i, c);
    }
}

/// If collections are pairwise no more active in `b` than in `a`, the
/// active count cannot grow.
proof fn lemma_active_monotone<T>(a: Seq<DatapointsCollection<T>>, b: Seq<DatapointsCollection<T>>)
    requires
        a.len() == b.len(),
        forall|i: int|
            0 <= i < b.len() && (#[trigger] b[i].datapoints@.len()) > 0 ==> a[i].datapoints@.len()
                > 0,
    ensures
        active_count(b) <= active_count(a),
    decreases a.len(),
{
    if a.len() > 0 {
        assert(forall|i: int|
            0 <= i < b.drop_last().len() && (#[trigger] b.drop_last()[i].datapoints@.len()) > 0
                ==> a.drop_last()[i].datapoints@.len() > 0);
        lemma_active_monotone(a.drop_last(), b.drop_last());
    }
}

/// A collection set with at least one datapoint has an active series.
proof fn lemma_active_pos<T>(cols: Seq<DatapointsCollection<T>>)
    requires
        total_points(cols) > 0,
    ensures
        active_count(cols) > 0,
    decreases cols.len(),
{
    if cols.len() > 0 && cols.last().datapoints@.len() == 0 {
        lemma_active_pos(cols.drop_last());
    }
}

proof fn lemma_div_share(c: int, a: int)
    requires
        1 <= a <= c,
    ensures
        c / a >= 1,
        a * (c / a) <= c,
{
    lemma_fundamental_div_mod(c, a);
    lemma_mod_bound(c, a);
    assert(c / a >= 1 && a * (c / a) <= c) by (nonlinear_arith)
        requires
            1 <= a <= c,
            c == a * (c / a) + c % a,
            0 <= c % a < a,
    ;
}

/// Removes the first `n` elements of `v` and returns them, in order.
fn drain_prefix<T>(v: &mut Vec<T>, n: usize) -> (chunk: Vec<T>)
    requires
        n <= old(v)@.len(),
    ensures
        chunk@ == old(v)@.take(n as int),
        final(v)@ == old(v)@.skip(n as int),
{
    let mut rest = v.split_off(n);
    core::mem::swap(v, &mut rest);
    proof {
        assert(rest@ =~= old(v)@.take(n as int));
        assert(v@ =~= old(v)@.skip(n as int));
    }
    rest
}

/// Counts the datapoints across all collections.
fn total_datapoints<T>(cols: &Vec<DatapointsCollection<T>>) -> (t: usize)
    requires
        total_points(cols@) <= usize::MAX,
    ensures
        t == total_points(cols@),
{
    let mut t: usize = 0;
    let mut i: usize = 0;
    proof {
        assert(cols@.take(0int) =~= Seq::<DatapointsCollection<T>>::empty());
    }
    while i < cols.len()
        invariant
            i <= cols@.len(),
            t == total_points(cols@.take(i as int)),
            total_points(cols@) <= usize::MAX,
        decreases cols@.len() - i,
    {
        proof {
            lemma_total_take_succ(cols@, i as int);
            lemma_total_take_le(cols@, i as int + 1);
        }
        t = t + cols[i].datapoints.len();
        i = i + 1;
    }
    proof {
        assert(cols@.take(i as int) =~= cols@);
    }
    t
}

/// Counts the collections that still have datapoints.
fn active_series<T>(cols: &Vec<DatapointsCollection<T>>) -> (a: usize)
    ensures
        a == active_count(cols@),
{
    let mut a: usize = 0;
    let mut i: usize = 0;
    proof {
        assert(cols@.take(0int) =~= Seq::<DatapointsCollection<T>>::empty());
        lemma_active_le_len(cols@);
    }
    while i < cols.len()
        invariant
            i <= cols@.len(),
            a == active_count(cols@.take(i as int)),
            a <= i,
        decreases cols@.len() - i,
    {
        proof {
            lemma_active_take_succ(cols@, i as int);
        }
        if cols[i].datapoints.len() > 0 {
            a = a + 1;
        }
        i = i + 1;
    }
    proof {
        assert(cols@.take(i as int) =~= cols@);
    }
    a
}

proof fn lemma_active_le_len<T>(cols: Seq<DatapointsCollection<T>>)
    ensures
        active_count(cols) <= cols.len(),
    decreases cols.len(),
{
    if cols.len() > 0 {
        lemma_active_le_len(cols.drop_last());
    }
}

impl<T> DataWrapper<DatapointsCollection<T>> {
    /// Splits this submission into bounded sub-requests, leaving the final
    /// remainder in place.
    ///
    /// While the total datapoint count exceeds `ceiling`, one round runs:
    /// the ceiling is divided evenly across the series that still have
    /// datapoints, and each such series gives up at most that share, from
    /// the front, into a fresh sub-request. Series drained empty stop
    /// counting toward the division in later rounds, so the per-series
    /// share grows as series are exhausted.
    ///
    /// Every emitted sub-request and the remainder hold at most `ceiling`
    /// datapoints, and for each series the emitted chunks followed by the
    /// remainder reassemble the original datapoints exactly, in order.
    pub fn drain_batches(&mut self, ceiling: usize) -> (subs: Vec<
        DataWrapper<DatapointsCollection<T>>,
    >)
        requires
            ceiling >= 1,
            active_count(old(self).items@) <= ceiling,
            distinct_keys(old(self).items@),
            keyed_entries(old(self).items@),
            total_points(old(self).items@) <= usize::MAX,
        ensures
            final(self).items@.len() == old(self).items@.len(),
            forall|i: int|
                0 <= i < old(self).items@.len() ==> same_series(
                    #[trigger] final(self).items@[i],
                    old(self).items@[i],
                ),
            total_points(final(self).items@) <= ceiling,
            forall|r: int|
                0 <= r < subs@.len() ==> total_points(#[trigger] subs@[r].items@) <= ceiling,
            forall|i: int|
                0 <= i < old(self).items@.len() ==> (#[trigger] old(
                    self,
                ).items@[i]).datapoints@ == batched_points_for(
                    subs@,
                    col_key(old(self).items@[i]),
                ) + final(self).items@[i].datapoints@,
            total_points(old(self).items@) <= ceiling ==> subs@.len() == 0 && final(self).items@
                == old(self).items@,
            final(self).http_status_code == old(self).http_status_code,
            final(self).error_body == old(self).error_body,
    {
        let ghost orig = self.items@;
        let ghost orig_status = self.http_status_code;
        let ghost orig_error = self.error_body;
        let mut subs: Vec<DataWrapper<DatapointsCollection<T>>> = Vec::new();
        let mut total = total_datapoints(&self.items);
        while total > ceiling
            invariant
                ceiling >= 1,
                active_count(orig) <= ceiling,
                distinct_keys(orig),
                keyed_entries(orig),
                total == total_points(self.items@),
                total <= total_points(orig) <= usize::MAX,
                self.items@.len() == orig.len(),
                forall|i: int|
                    0 <= i < orig.len() ==> same_series(#[trigger] self.items@[i], orig[i]),
                forall|i: int|
                    0 <= i < orig.len() && (#[trigger] self.items@[i].datapoints@.len()) > 0
                        ==> orig[i].datapoints@.len() > 0,
                forall|i: int|
                    0 <= i < orig.len() ==> (#[trigger] orig[i]).datapoints@ == batched_points_for(
                        subs@,
                        col_key(orig[i]),
                    ) + self.items@[i].datapoints@,
                forall|r: int|
                    0 <= r < subs@.len() ==> total_points(#[trigger] subs@[r].items@) <= ceiling,
                total_points(orig) <= ceiling ==> subs@.len() == 0 && self.items@ == orig,
                self.http_status_code == orig_status,
                self.error_body == orig_error,
            decreases total,
        {
            proof {
                lemma_active_pos(self.items@);
                lemma_active_monotone(orig, self.items@);
            }
            let active = active_series(&self.items);
            proof {
                lemma_div_share(ceiling as int, active as int);
            }
            let batch_size = ceiling / active;
            let ghost round_start = self.items@;
            let mut sub: DataWrapper<DatapointsCollection<T>> = DataWrapper::new();
            let mut sub_total: usize = 0;
            let mut i: usize = 0;
            proof {
                assert(round_start.take(0int) =~= Seq::<DatapointsCollection<T>>::empty());
            }
            while i < self.items.len()
                invariant
                    ceiling >= 1,
                    1 <= active,
                    batch_size == ceiling as int / active as int,
                    batch_size >= 1,
                    active as int * batch_size as int <= ceiling,
                    active == active_count(round_start),
                    i <= orig.len(),
                    self.items@.len() == orig.len(),
                    round_start.len() == orig.len(),
                    distinct_keys(orig),
                    keyed_entries(orig),
                    total_points(round_start) <= usize::MAX,
                    forall|j: int|
                        0 <= j < orig.len() ==> same_series(#[trigger] round_start[j], orig[j]),
                    forall|j: int|
                        0 <= j < orig.len() ==> same_series(#[trigger] self.items@[j], orig[j]),
                    forall|j: int|
                        i <= j < orig.len() ==> #[trigger] self.items@[j] == round_start[j],
                    forall|j: int|
                        0 <= j < orig.len() && (#[trigger] self.items@[j].datapoints@.len()) > 0
                            ==> round_start[j].datapoints@.len() > 0,
                    forall|j: int|
                        0 <= j < i ==> (#[trigger] round_start[j]).datapoints@ == points_for(
                            sub.items@,
                            col_key(orig[j]),
                        ) + self.items@[j].datapoints@,
                    forall|j: int|
                        i <= j < orig.len() ==> points_for(sub.items@, col_key(#[trigger] orig[j]))
                            == Seq::<T>::empty(),
                    sub_total == total_points(sub.items@),
                    sub_total as int <= active_count(round_start.take(i as int)) * batch_size
                        as int,
                    sub_total >= active_count(round_start.take(i as int)),
                    total_points(self.items@) + sub_total == total_points(round_start),
                    sub.http_status_code is None,
                    sub.error_body is None,
                    self.http_status_code == orig_status,
                    self.error_body == orig_error,
                decreases orig.len() - i,
            {
                proof {
                    lemma_active_take_succ(round_start, i as int);
                    lemma_active_le_len(round_start.take(i as int));
                }
                let ghost items_before = self.items@;
                let mut col = self.items.remove(i);
                let len_i = col.datapoints.len();
                if len_i > 0 {
                    let take_n = if len_i > batch_size {
                        batch_size
                    } else {
                        len_i
                    };
                    proof {
                        lemma_total_ge_item(items_before, i as int);
                        lemma_total_take_le(items_before, i as int);
                    }
                    let chunk = drain_prefix(&mut col.datapoints, take_n);
                    let external_id_copy: Option<String> = match &col.external_id {
                        Some(s) => Some(s.clone()),
                        None => None,
                    };
                    let entry = DatapointsCollection {
                        id: col.id,
                        external_id: external_id_copy,
                        datapoints: chunk,
                        next_cursor: None,
                        unit: None,
                        unit_external_id: None,
                        is_step: false,
                        is_string: false,
                    };
                    proof {
                        assert(col_key(entry) == col_key(orig[i as int]));
                        assert(sub.items@.push(entry).drop_last() =~= sub.items@);
                    }
                    let ghost sub_before = sub.items@;
                    sub.add_item(entry);
                    proof {
                        assert(forall|j: int|
                            0 <= j < orig.len() && j != i ==> points_for(
                                sub.items@,
                                col_key(#[trigger] orig[j]),
                            ) == points_for(sub_before, col_key(orig[j])));
                        assert(points_for(sub.items@, col_key(orig[i as int])) == points_for(
                            sub_before,
                            col_key(orig[i as int]),
                        ) + entry.datapoints@);
                        assert(total_points(sub.items@) == total_points(sub_before)
                            + take_n as nat);
                        let ghost ac = active_count(round_start.take(i as int)) as int;
                        assert((ac + 1) * batch_size as int == ac * batch_size as int + batch_size
                            as int) by (nonlinear_arith);
                    }
                    sub_total = sub_total + take_n;
                }
                self.items.insert(i, col);
                proof {
                    assert(self.items@ =~= items_before.update(i as int, self.items@[i as int]));
                    lemma_total_update(items_before, i as int, self.items@[i as int]);
                    assert(round_start[i as int].datapoints@ =~= points_for(
                        sub.items@,
                        col_key(orig[i as int]),
                    ) + self.items@[i as int].datapoints@);
                }
                i = i + 1;
            }
            proof {
                assert(round_start.take(i as int) =~= round_start);
                assert(sub_total <= ceiling);
                assert(sub_total >= active_count(round_start));
                assert(active_count(round_start) >= 1) by {
                    lemma_active_pos(round_start);
                };
                assert(subs@.push(sub).drop_last() =~= subs@);
                assert(forall|j: int|
                    0 <= j < orig.len() ==> batched_points_for(
                        subs@.push(sub),
                        col_key(#[trigger] orig[j]),
                    ) == batched_points_for(subs@, col_key(orig[j])) + points_for(
                        sub.items@,
                        col_key(orig[j]),
                    ));
            }
            subs.push(sub);
            total = total - sub_total;
        }
        proof {
            assert(total_points(self.items@) <= ceiling);
        }
        subs
    }
}

} // verus!
