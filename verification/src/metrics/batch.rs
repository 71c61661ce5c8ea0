//! Which metrics a heartbeat carries.

use vstd::prelude::*;
use vstd::string::*;

use crate::proto::metric_views;
use crate::proto::text_view;
use crate::proto::ClientMetrics;
use crate::proto::Metric;
use crate::proto::MetricType;
use crate::proto::MetricView;
use crate::text::same;

verus! {

/// Tells whether two entries speak of the same metric.
pub open spec fn same_metric(a: MetricView, b: MetricView) -> bool {
    a.name == b.name && a.metric_type == b.metric_type
}

/// The place of the first entry at or after `from` that speaks of the same metric
/// as `m`, or the length of the list.
pub open spec fn place_of(list: Seq<MetricView>, m: MetricView, from: int) -> int
    decreases list.len() - from,
{
    if from >= list.len() {
        list.len() as int
    } else if same_metric(list[from], m) {
        from
    } else {
        place_of(list, m, from + 1)
    }
}

/// The sum of two values, where an absent one adds nothing.
pub open spec fn added(a: Option<i64>, b: Option<i64>) -> Option<i64> {
    match (a, b) {
        (Some(x), Some(y)) => Some(i64::wrapping_add(x, y)),
        (None, _) => b,
        (_, None) => a,
    }
}

/// A waiting entry once a fresh one for the same metric has come in: a counter has
/// moved by both, and a gauge is where it was seen last.
pub open spec fn combined(waiting: MetricView, fresh: MetricView) -> MetricView {
    if fresh.metric_type == MetricType::Counter.number() {
        MetricView { value: added(waiting.value, fresh.value), ..fresh }
    } else {
        fresh
    }
}

/// The waiting entries with the fresh ones taken in: each joins the waiting entry
/// for the same metric, or goes to the end if there is none.
pub open spec fn joined(waiting: Seq<MetricView>, fresh: Seq<MetricView>) -> Seq<MetricView>
    decreases fresh.len(),
{
    if fresh.len() == 0 {
        waiting
    } else {
        let before = joined(waiting, fresh.drop_last());
        let m = fresh.last();
        let k = place_of(waiting, m, 0);
        if k < waiting.len() {
            before.update(k, combined(before[k], m))
        } else {
            before.push(m)
        }
    }
}

/// An entry with the source filled in where it has none.
pub open spec fn stamped(m: MetricView, source: Seq<char>) -> MetricView {
    MetricView {
        source: match m.source {
            None => Some(source),
            Some(s) => Some(s),
        },
        ..m
    }
}

/// Entries with the source filled in.
pub open spec fn all_stamped(list: Seq<MetricView>, source: Seq<char>) -> Seq<MetricView> {
    list.map_values(|m: MetricView| stamped(m, source))
}

/// How many of `len` entries go out at once.
pub open spec fn batch_len(len: nat, limit: usize) -> int {
    if len <= limit {
        len as int
    } else {
        limit as int
    }
}

/// Tells whether `payload` is what goes out, and `left` what still waits, when
/// `fresh` is taken into a queue of `waiting` entries: the first `limit` of them go
/// out, in the name of `app_id`, and nothing goes out if there are none.
pub open spec fn batch_goes_out(
    waiting: Seq<MetricView>,
    fresh: Seq<MetricView>,
    app_id: Seq<char>,
    limit: usize,
    left: Seq<MetricView>,
    payload: Option<ClientMetrics>,
) -> bool {
    let all = joined(waiting, fresh);
    let n = batch_len(all.len(), limit);
    &&& left == all.skip(n)
    &&& payload is None <==> n == 0
    &&& payload matches Some(p) ==> text_view(p.source) == Some(app_id) && metric_views(
        p.metrics@,
    ) == all_stamped(all.take(n), app_id)
}

/// Tells whether two optional texts are the same.
fn same_text(a: &Option<String>, b: &Option<String>) -> (r: bool)
    ensures
        r == (text_view(*a) == text_view(*b)),
{
    match (a, b) {
        (Some(x), Some(y)) => same(x, y),
        (None, None) => true,
        _ => false,
    }
}

/// Takes a fresh entry into a waiting one.
fn combine(waiting: Option<i64>, fresh: Metric) -> (r: Metric)
    ensures
        forall|w: MetricView| w.value == waiting ==> r@ == #[trigger] combined(w, fresh@),
{
    if fresh.metric_type == MetricType::Counter.as_i32() {
        let mut m = fresh;
        m.value = match (waiting, m.value) {
            (Some(x), Some(y)) => Some(x.wrapping_add(y)),
            (None, v) => v,
            (v, None) => v,
        };
        m
    } else {
        fresh
    }
}

/// The entries that are still to be reported: those that were over the limit of
/// the heartbeats so far.
#[derive(Debug)]
pub struct HeartbeatQueue {
    waiting: Vec<Metric>,
}

impl View for HeartbeatQueue {
    type V = Seq<MetricView>;

    closed spec fn view(&self) -> Seq<MetricView> {
        metric_views(self.waiting@)
    }
}

impl HeartbeatQueue {
    /// A queue in which nothing waits.
    pub fn new() -> (r: Self)
        ensures
            r@ == Seq::<MetricView>::empty(),
    {
        let r = HeartbeatQueue { waiting: Vec::new() };
        assert(r@ =~= Seq::<MetricView>::empty());
        r
    }

    /// Takes in what a snapshot reports.
    pub fn take_in(&mut self, fresh: Vec<Metric>)
        ensures
            final(self)@ == joined(old(self)@, metric_views(fresh@)),
    {
        let ghost first = self@;
        let ghost all = metric_views(fresh@);
        let n: usize = self.waiting.len();
        let mut left = fresh;
        let mut turned: Vec<Metric> = Vec::new();
        // The entries come off the end of the list, so they are turned round first.
        while left.len() > 0
            invariant
                left@ + turned@.reverse() == fresh@,
            decreases left.len(),
        {
            let ghost was = left@;
            let m = left.pop().unwrap();
            let ghost seen = turned@;
            turned.push(m);
            proof {
                assert(left@ + turned@.reverse() =~= was + seen.reverse());
            }
        }
        proof {
            assert(turned@.reverse() =~= fresh@);
            assert(metric_views(turned@) =~= all.reverse());
            assert(all.take(0) =~= Seq::<MetricView>::empty());
        }
        while turned.len() > 0
            invariant
                n == first.len(),
                turned@.len() <= all.len(),
                metric_views(turned@) == all.skip(all.len() - turned@.len()).reverse(),
                self@ == joined(first, all.take(all.len() - turned@.len())),
                self.waiting@.len() >= n,
                forall|i: int| 0 <= i < n ==> same_metric(#[trigger] self@[i], first[i]),
            decreases turned.len(),
        {
            let ghost done = all.len() - turned@.len();
            let ghost queued = self@;
            let ghost was = turned@;
            let m = turned.pop().unwrap();
            proof {
                assert(metric_views(was)[was.len() - 1] == m@);
                assert(all.skip(done).reverse()[was.len() - 1] == all[done]);
                assert(metric_views(turned@) =~= all.skip(done + 1).reverse()) by {
                    assert forall|i: int| 0 <= i < turned@.len() implies #[trigger] metric_views(
                        turned@,
                    )[i] == all.skip(done + 1).reverse()[i] by {
                        assert(metric_views(was)[i] == all.skip(done).reverse()[i]);
                    }
                }
                assert(all.take(done + 1).drop_last() =~= all.take(done));
                assert(all.take(done + 1).last() == m@);
            }
            let mut k: usize = 0;
            while k < n && !(self.waiting[k].metric_type == m.metric_type && same_text(
                &self.waiting[k].name,
                &m.name,
            ))
                invariant
                    k <= n,
                    n == first.len(),
                    self.waiting@.len() >= n,
                    self@ == queued,
                    forall|i: int| 0 <= i < n ==> same_metric(#[trigger] self@[i], first[i]),
                    place_of(first, m@, k as int) == place_of(first, m@, 0),
                decreases n - k,
            {
                assert(self@[k as int] == self.waiting@[k as int]@);
                k += 1;
            }
            if k < n {
                assert(self@[k as int] == self.waiting@[k as int]@);
                let ghost fresh_view = m@;
                let merged = combine(self.waiting[k].value, m);
                assert(merged@ == combined(queued[k as int], fresh_view));
                self.waiting.set(k, merged);
                assert(self@ =~= queued.update(k as int, merged@));
            } else {
                self.waiting.push(m);
                assert(self@ =~= queued.push(m@));
            }
        }
        proof {
            assert(all.take(all.len() as int) =~= all);
        }
    }

    /// Takes in what a snapshot reports, and gives out the next batch of at most
    /// `limit` entries, in the name of `app_id`. There is none if nothing is to be
    /// reported; then no heartbeat is sent.
    pub fn next_payload(&mut self, fresh: Vec<Metric>, app_id: &str, limit: usize) -> (r: Option<
        ClientMetrics,
    >)
        ensures
            batch_goes_out(
                old(self)@,
                metric_views(fresh@),
                app_id@,
                limit,
                final(self)@,
                r,
            ),
    {
        self.take_in(fresh);
        let ghost all = self@;
        let n: usize = if self.waiting.len() <= limit {
            self.waiting.len()
        } else {
            limit
        };
        let rest = self.waiting.split_off(n);
        let mut batch: Vec<Metric> = Vec::new();
        std::mem::swap(&mut batch, &mut self.waiting);
        self.waiting = rest;
        proof {
            assert(self@ =~= all.skip(n as int));
            assert(metric_views(batch@) =~= all.take(n as int));
        }
        if n == 0 {
            return None;
        }
        let ghost plain = metric_views(batch@);
        let mut i: usize = 0;
        while i < n
            invariant
                i <= n,
                n == batch.len(),
                n == plain.len(),
                forall|j: int|
                    0 <= j < i ==> (#[trigger] batch@[j])@ == stamped(plain[j], app_id@),
                forall|j: int| i <= j < n ==> (#[trigger] batch@[j])@ == plain[j],
            decreases n - i,
        {
            if batch[i].source.is_none() {
                batch[i].source = Some(app_id.to_owned());
            }
            i += 1;
        }
        proof {
            assert(metric_views(batch@) =~= all_stamped(all.take(n as int), app_id@));
        }
        Some(ClientMetrics { source: Some(app_id.to_owned()), metrics: batch })
    }
}

/// How far the entries of a list say that the counter has moved.
pub open spec fn total(list: Seq<MetricView>, name: Option<Seq<char>>) -> i64
    decreases list.len(),
{
    if list.len() == 0 {
        0
    } else {
        i64::wrapping_add(total(list.drop_last(), name), share(list.last(), name))
    }
}

/// How far one entry says that the counter has moved.
pub open spec fn share(m: MetricView, name: Option<Seq<char>>) -> i64 {
    if m.name == name && m.metric_type == MetricType::Counter.number() {
        match m.value {
            Some(v) => v,
            None => 0,
        }
    } else {
        0
    }
}

/// The total of a list with one entry replaced.
proof fn lemma_total_update(
    list: Seq<MetricView>,
    k: int,
    m: MetricView,
    extra: i64,
    name: Option<Seq<char>>,
)
    requires
        0 <= k < list.len(),
        share(m, name) == i64::wrapping_add(share(list[k], name), extra),
    ensures
        total(list.update(k, m), name) == i64::wrapping_add(total(list, name), extra),
    decreases list.len(),
{
    let changed = list.update(k, m);
    if k == list.len() - 1 {
        assert(changed.drop_last() =~= list.drop_last());
    } else {
        assert(changed.drop_last() =~= list.drop_last().update(k, m));
        lemma_total_update(list.drop_last(), k, m, extra, name);
    }
}

/// The total of two lists, one after the other.
proof fn lemma_total_add(a: Seq<MetricView>, b: Seq<MetricView>, name: Option<Seq<char>>)
    ensures
        total(a + b, name) == i64::wrapping_add(total(a, name), total(b, name)),
    decreases b.len(),
{
    if b.len() == 0 {
        assert(a + b =~= a);
    } else {
        assert((a + b).drop_last() =~= a + b.drop_last());
        lemma_total_add(a, b.drop_last(), name);
    }
}

/// `place_of` finds an entry for the same metric, or there is none.
pub proof fn lemma_place_of(list: Seq<MetricView>, m: MetricView, from: int)
    requires
        0 <= from <= list.len(),
    ensures
        from <= place_of(list, m, from) <= list.len(),
        place_of(list, m, from) < list.len() ==> same_metric(list[place_of(list, m, from)], m),
    decreases list.len() - from,
{
    if from < list.len() && !same_metric(list[from], m) {
        lemma_place_of(list, m, from + 1);
    }
}

/// The waiting entries keep their places, and their metrics, as fresh ones come in.
proof fn lemma_joined_keeps_places(waiting: Seq<MetricView>, fresh: Seq<MetricView>)
    ensures
        joined(waiting, fresh).len() >= waiting.len(),
        forall|i: int|
            0 <= i < waiting.len() ==> same_metric(#[trigger] joined(waiting, fresh)[i], waiting[i]),
    decreases fresh.len(),
{
    if fresh.len() > 0 {
        lemma_joined_keeps_places(waiting, fresh.drop_last());
        lemma_place_of(waiting, fresh.last(), 0);
    }
}

/// Taking fresh entries in neither loses nor repeats a move of a counter.
proof fn lemma_joined_total(
    waiting: Seq<MetricView>,
    fresh: Seq<MetricView>,
    name: Option<Seq<char>>,
)
    ensures
        total(joined(waiting, fresh), name) == i64::wrapping_add(
            total(waiting, name),
            total(fresh, name),
        ),
    decreases fresh.len(),
{
    if fresh.len() > 0 {
        let front = fresh.drop_last();
        let m = fresh.last();
        lemma_joined_total(waiting, front, name);
        lemma_joined_keeps_places(waiting, front);
        lemma_place_of(waiting, m, 0);
        let before = joined(waiting, front);
        let k = place_of(waiting, m, 0);
        if k < waiting.len() {
            assert(same_metric(before[k], waiting[k]));
            assert(share(combined(before[k], m), name) == i64::wrapping_add(
                share(before[k], name),
                share(m, name),
            ));
            lemma_total_update(before, k, combined(before[k], m), share(m, name), name);
        } else {
            assert(before.push(m).drop_last() =~= before);
        }
    } else {
        assert(total(fresh, name) == 0);
    }
}

/// No move of a counter is lost, and none is reported twice: what goes out and what
/// still waits come to what waited and what came in. A limit only puts entries off.
pub proof fn law_no_move_is_lost(
    waiting: Seq<MetricView>,
    fresh: Seq<MetricView>,
    limit: usize,
    source: Seq<char>,
    name: Option<Seq<char>>,
)
    ensures
        ({
            let all = joined(waiting, fresh);
            let n = batch_len(all.len(), limit);
            i64::wrapping_add(
                total(all_stamped(all.take(n), source), name),
                total(all.skip(n), name),
            ) == i64::wrapping_add(total(waiting, name), total(fresh, name))
        }),
{
    let all = joined(waiting, fresh);
    let n = batch_len(all.len(), limit);
    lemma_joined_total(waiting, fresh, name);
    lemma_total_add(all.take(n), all.skip(n), name);
    assert(all.take(n) + all.skip(n) =~= all);
    lemma_stamped_total(all.take(n), source, name);
}

/// The source of an entry does not change how far the counter has moved.
proof fn lemma_stamped_total(
    list: Seq<MetricView>,
    source: Seq<char>,
    name: Option<Seq<char>>,
)
    ensures
        total(all_stamped(list, source), name) == total(list, name),
    decreases list.len(),
{
    if list.len() > 0 {
        assert(all_stamped(list, source).drop_last() =~= all_stamped(list.drop_last(), source));
        lemma_stamped_total(list.drop_last(), source, name);
    }
}

/// An entry that waits goes out with the next heartbeat, or moves up in the queue by
/// as many places as the heartbeat takes: with a limit above 0 it goes out in the end.
pub proof fn law_waiting_entries_move_up(
    waiting: Seq<MetricView>,
    fresh: Seq<MetricView>,
    limit: usize,
    i: int,
)
    requires
        0 <= i < waiting.len(),
    ensures
        ({
            let all = joined(waiting, fresh);
            let n = batch_len(all.len(), limit);
            if i < limit {
                i < n && same_metric(all.take(n)[i], waiting[i])
            } else {
                0 <= i - limit < all.skip(n).len() && same_metric(
                    all.skip(n)[i - limit],
                    waiting[i],
                )
            }
        }),
{
    lemma_joined_keeps_places(waiting, fresh);
    assert(same_metric(joined(waiting, fresh)[i], waiting[i]));
}

/// A snapshot that stays within the limit goes out whole, in order, when nothing
/// waits.
pub proof fn law_small_snapshot_goes_out_whole(fresh: Seq<MetricView>, limit: usize)
    requires
        fresh.len() <= limit,
    ensures
        joined(Seq::empty(), fresh) == fresh,
        batch_len(joined(Seq::empty(), fresh).len(), limit) == fresh.len(),
    decreases fresh.len(),
{
    if fresh.len() > 0 {
        law_small_snapshot_goes_out_whole(fresh.drop_last(), limit);
        assert(fresh.drop_last().push(fresh.last()) =~= fresh);
        assert(place_of(Seq::<MetricView>::empty(), fresh.last(), 0) == 0);
    } else {
        assert(fresh =~= Seq::<MetricView>::empty());
    }
}

} // verus!
