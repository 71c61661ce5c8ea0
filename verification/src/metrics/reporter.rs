//! What has changed since the last report.

use vstd::hash_map::StringHashMap;
use vstd::prelude::*;

use crate::metrics::registry::lists;
use crate::metrics::registry::Registry;
use crate::proto::metric_views;
use crate::proto::text_view;
use crate::proto::Metric;
use crate::proto::MetricType;
use crate::proto::MetricView;
use crate::text::chars_of;
use crate::text::find_char_from;
use crate::text::first_from;

verus! {

/// The kind of process that a client reports as.
pub const INSTANCE_CLIENT: &'static str = "Client";

/// The name that follows the first dot of `full`, or `full` if it has none.
pub open spec fn bare_name(full: Seq<char>) -> Seq<char> {
    let dot = first_from(full, '.', 0);
    if dot < full.len() {
        full.skip(dot + 1)
    } else {
        full
    }
}

/// Drops the kind of process, and its dot, from the front of a metric's name.
pub fn strip_instance_prefix(full: &str) -> (r: String)
    ensures
        r@ == bare_name(full@),
{
    let chars = chars_of(full);
    let dot: usize = find_char_from(&chars, '.', 0);
    let n: usize = chars.len();
    let mut i: usize = if dot < n {
        dot + 1
    } else {
        0
    };
    let ghost from = i as int;
    let mut out = String::new();
    while i < n
        invariant
            0 <= from <= i <= n,
            n == chars.len(),
            chars@ == full@,
            out@ == full@.subrange(from, i as int),
        decreases n - i,
    {
        out.push(chars[i]);
        i += 1;
        assert(full@.subrange(from, i as int) =~= full@.subrange(from, i - 1).push(full@[i - 1]));
    }
    assert(out@ =~= bare_name(full@));
    out
}

/// A list of names with values.
pub open spec fn named(list: Seq<(String, i64)>) -> Seq<(Seq<char>, i64)> {
    list.map_values(|e: (String, i64)| (e.0@, e.1))
}

/// What a client reports of a metric: no source yet, and the name without the kind
/// of process.
pub open spec fn reported(name: Seq<char>, value: i64, kind: MetricType) -> MetricView {
    MetricView {
        instance: Some(INSTANCE_CLIENT@),
        source: None,
        name: Some(bare_name(name)),
        value: Some(value),
        metric_type: kind.number(),
    }
}

/// How far `cur` is from what was last seen of the counter: all of it, if the
/// counter was never seen.
pub open spec fn delta(baseline: Map<Seq<char>, i64>, name: Seq<char>, cur: i64) -> i64 {
    if baseline.dom().contains(name) {
        i64::wrapping_sub(cur, baseline[name])
    } else {
        cur
    }
}

/// The baseline once the counters have been seen: every one of them counts as seen,
/// whether it has moved or not.
pub open spec fn baseline_after(
    baseline: Map<Seq<char>, i64>,
    counters: Seq<(Seq<char>, i64)>,
) -> Map<Seq<char>, i64>
    decreases counters.len(),
{
    if counters.len() == 0 {
        baseline
    } else {
        baseline_after(baseline, counters.drop_last()).insert(
            counters.last().0,
            counters.last().1,
        )
    }
}

/// The counters that have moved, in order, each with how far.
pub open spec fn moved(
    baseline: Map<Seq<char>, i64>,
    counters: Seq<(Seq<char>, i64)>,
) -> Seq<MetricView>
    decreases counters.len(),
{
    if counters.len() == 0 {
        Seq::empty()
    } else {
        let before = moved(baseline, counters.drop_last());
        let (name, cur) = counters.last();
        let diff = delta(baseline_after(baseline, counters.drop_last()), name, cur);
        if diff != 0 {
            before.push(reported(name, diff, MetricType::Counter))
        } else {
            before
        }
    }
}

/// The gauges, in order, each at its value.
pub open spec fn measured(gauges: Seq<(Seq<char>, i64)>) -> Seq<MetricView> {
    gauges.map_values(|e: (Seq<char>, i64)| reported(e.0, e.1, MetricType::Gauge))
}

/// Tells whether `metrics` is what a snapshot says when the counters and the gauges
/// are walked in some order.
pub open spec fn is_snapshot(
    metrics: Seq<MetricView>,
    baseline: Map<Seq<char>, i64>,
    counters: Map<Seq<char>, i64>,
    gauges: Map<Seq<char>, i64>,
) -> bool {
    exists|cs: Seq<(String, i64)>, gs: Seq<(String, i64)>| #[trigger]
        walk_gives(cs, gs, metrics, baseline, counters, gauges)
}

/// Tells whether a walk in the order of `cs` and `gs` gives `metrics`.
pub open spec fn walk_gives(
    cs: Seq<(String, i64)>,
    gs: Seq<(String, i64)>,
    metrics: Seq<MetricView>,
    baseline: Map<Seq<char>, i64>,
    counters: Map<Seq<char>, i64>,
    gauges: Map<Seq<char>, i64>,
) -> bool {
    &&& lists(cs, counters)
    &&& lists(gs, gauges)
    &&& metrics == moved(baseline, named(cs)) + measured(named(gs))
}

/// Builds a reported metric.
fn metric(name: &String, value: i64, kind: MetricType) -> (r: Metric)
    ensures
        r@ == reported(name@, value, kind),
{
    Metric {
        instance: Some(INSTANCE_CLIENT.to_owned()),
        source: None,
        name: Some(strip_instance_prefix(name)),
        value: Some(value),
        metric_type: kind.as_i32(),
    }
}

/// Tells how far each counter has moved since the last report.
pub struct ClientMetricsReporter {
    last_counter: StringHashMap<i64>,
}

impl View for ClientMetricsReporter {
    type V = Map<Seq<char>, i64>;

    /// The value of each counter at the last report.
    closed spec fn view(&self) -> Map<Seq<char>, i64> {
        self.last_counter@
    }
}

impl Default for ClientMetricsReporter {
    fn default() -> (r: Self)
        ensures
            r@ == Map::<Seq<char>, i64>::empty(),
    {
        ClientMetricsReporter::new()
    }
}

impl ClientMetricsReporter {
    /// A reporter that has not reported yet.
    pub fn new() -> (r: Self)
        ensures
            r@ == Map::<Seq<char>, i64>::empty(),
    {
        ClientMetricsReporter { last_counter: StringHashMap::new() }
    }

    /// Reports on a list of counters and a list of gauges: each counter that has
    /// moved by how far it has, and each gauge at its value.
    pub fn snapshot_of(
        &mut self,
        counters: &Vec<(String, i64)>,
        gauges: &Vec<(String, i64)>,
    ) -> (r: Vec<Metric>)
        ensures
            metric_views(r@) == moved(old(self)@, named(counters@)) + measured(named(gauges@)),
            final(self)@ == baseline_after(old(self)@, named(counters@)),
    {
        let ghost before = self@;
        let mut out: Vec<Metric> = Vec::new();
        let n: usize = counters.len();
        let mut i: usize = 0;
        while i < n
            invariant
                i <= n,
                n == counters.len(),
                metric_views(out@) == moved(before, named(counters@.take(i as int))),
                self@ == baseline_after(before, named(counters@.take(i as int))),
            decreases n - i,
        {
            let cur: i64 = counters[i].1;
            let diff: i64 = match self.last_counter.get(counters[i].0.as_str()) {
                Some(prev) => cur.wrapping_sub(*prev),
                None => cur,
            };
            proof {
                let next = named(counters@.take(i + 1));
                assert(next.drop_last() =~= named(counters@.take(i as int)));
                assert(next.last() == (counters@[i as int].0@, cur));
            }
            self.last_counter.insert(counters[i].0.clone(), cur);
            if diff != 0 {
                let m = metric(&counters[i].0, diff, MetricType::Counter);
                out.push(m);
                assert(metric_views(out@) =~= metric_views(out@.drop_last()).push(m@));
                assert(out@.drop_last() =~= out@.take(out@.len() - 1));
            }
            i += 1;
        }
        assert(counters@.take(n as int) =~= counters@);
        let k: usize = gauges.len();
        let mut j: usize = 0;
        let ghost first = metric_views(out@);
        while j < k
            invariant
                j <= k,
                k == gauges.len(),
                metric_views(out@) == first + measured(named(gauges@.take(j as int))),
            decreases k - j,
        {
            let m = metric(&gauges[j].0, gauges[j].1, MetricType::Gauge);
            let ghost shorter = out@;
            out.push(m);
            proof {
                assert(metric_views(out@) =~= metric_views(shorter).push(m@));
                assert(measured(named(gauges@.take(j + 1))) =~= measured(
                    named(gauges@.take(j as int)),
                ).push(m@));
            }
            j += 1;
        }
        assert(gauges@.take(k as int) =~= gauges@);
        out
    }

    /// Reports on every counter and gauge of the registry. Nothing is to be reported
    /// if no counter has moved and there are no gauges.
    pub fn snapshot(&mut self, registry: &Registry) -> (r: Vec<Metric>)
        requires
            registry.wf(),
        ensures
            is_snapshot(metric_views(r@), old(self)@, registry.counters(), registry.gauges()),
            final(self)@ == old(self)@.union_prefer_right(registry.counters()),
    {
        let counters = registry.counter_values();
        let gauges = registry.gauge_values();
        let ghost before = self@;
        let r = self.snapshot_of(&counters, &gauges);
        proof {
            assert(walk_gives(
                counters@,
                gauges@,
                metric_views(r@),
                before,
                registry.counters(),
                registry.gauges(),
            ));
            lemma_baseline_of_listing(before, counters@, registry.counters());
        }
        r
    }
}

/// Tells whether no name stands twice in the list.
pub open spec fn names_differ(list: Seq<(Seq<char>, i64)>) -> bool {
    forall|i: int, j: int|
        0 <= i < j < list.len() ==> (#[trigger] list[i]).0 != (#[trigger] list[j]).0
}

/// What the baseline says once a list without repeated names has been seen.
proof fn lemma_baseline(baseline: Map<Seq<char>, i64>, list: Seq<(Seq<char>, i64)>)
    requires
        names_differ(list),
    ensures
        forall|i: int|
            0 <= i < list.len() ==> baseline_after(baseline, list).dom().contains(
                (#[trigger] list[i]).0,
            ) && baseline_after(baseline, list)[list[i].0] == list[i].1,
        forall|name: Seq<char>|
            (forall|i: int| 0 <= i < list.len() ==> (#[trigger] list[i]).0 != name) ==> (
            #[trigger] baseline_after(baseline, list).dom().contains(name)
                == baseline.dom().contains(name)) && baseline_after(baseline, list)[name]
                == baseline[name],
    decreases list.len(),
{
    if list.len() > 0 {
        let front = list.drop_last();
        assert(names_differ(front)) by {
            assert forall|i: int, j: int| 0 <= i < j < front.len() implies (#[trigger] front[i]).0
                != (#[trigger] front[j]).0 by {
                assert(list[i].0 != list[j].0);
            }
        }
        lemma_baseline(baseline, front);
        assert forall|i: int| 0 <= i < list.len() implies baseline_after(
            baseline,
            list,
        ).dom().contains((#[trigger] list[i]).0) && baseline_after(baseline, list)[list[i].0]
            == list[i].1 by {
            if i < front.len() {
                assert(front[i] == list[i]);
                assert(list[i].0 != list.last().0);
            }
        }
        assert forall|name: Seq<char>|
            (forall|i: int| 0 <= i < list.len() ==> (#[trigger] list[i]).0 != name) implies (
        #[trigger] baseline_after(baseline, list).dom().contains(name) == baseline.dom().contains(
            name,
        )) && baseline_after(baseline, list)[name] == baseline[name] by {
            assert(list.last().0 != name);
            assert forall|i: int| 0 <= i < front.len() implies (#[trigger] front[i]).0 != name by {
                assert(front[i] == list[i]);
            }
            assert(baseline_after(baseline, front).dom().contains(name) == baseline.dom().contains(
                name,
            ));
        }
    }
}

/// Once every entry of a map has been seen, the baseline holds them all.
proof fn lemma_baseline_of_listing(
    baseline: Map<Seq<char>, i64>,
    list: Seq<(String, i64)>,
    entries: Map<Seq<char>, i64>,
)
    requires
        lists(list, entries),
    ensures
        names_differ(named(list)),
        baseline_after(baseline, named(list)) == baseline.union_prefer_right(entries),
{
    let flat = named(list);
    assert forall|i: int, j: int| 0 <= i < j < flat.len() implies (#[trigger] flat[i]).0 != (
    #[trigger] flat[j]).0 by {
        assert(list[i].0@ != list[j].0@);
    }
    lemma_baseline(baseline, flat);
    let after = baseline_after(baseline, flat);
    let both = baseline.union_prefer_right(entries);
    assert forall|name: Seq<char>| after.dom().contains(name) == both.dom().contains(name) && (
    after.dom().contains(name) ==> #[trigger] after[name] == both[name]) by {
        if entries.dom().contains(name) {
            let i = choose|i: int| 0 <= i < list.len() && (#[trigger] list[i]).0@ == name;
            assert(flat[i].0 == name);
        } else {
            assert forall|i: int| 0 <= i < flat.len() implies (#[trigger] flat[i]).0 != name by {
                assert(entries.dom().contains(list[i].0@));
            }
            assert(after.dom().contains(name) == baseline.dom().contains(name));
        }
    }
    assert(after =~= both);
}

/// What a counter comes to over its reports: the sum of the distances that the
/// reporter finds, when it sees the counter at each of `values` in turn.
pub open spec fn total_reported(
    baseline: Map<Seq<char>, i64>,
    name: Seq<char>,
    values: Seq<i64>,
) -> i64
    decreases values.len(),
{
    if values.len() == 0 {
        0
    } else {
        i64::wrapping_add(
            total_reported(baseline, name, values.drop_last()),
            delta(
                baseline_after(baseline, seen_at(name, values.drop_last())),
                name,
                values.last(),
            ),
        )
    }
}

/// One counter at several values in turn.
pub open spec fn seen_at(name: Seq<char>, values: Seq<i64>) -> Seq<(Seq<char>, i64)> {
    values.map_values(|v: i64| (name, v))
}

/// The reports of a counter that starts unseen add up to its value, however often
/// it is reported, whether or not it moves in between.
pub proof fn law_reports_add_up(
    baseline: Map<Seq<char>, i64>,
    name: Seq<char>,
    values: Seq<i64>,
)
    requires
        !baseline.dom().contains(name),
    ensures
        values.len() > 0 ==> total_reported(baseline, name, values) == values.last(),
    decreases values.len(),
{
    if values.len() > 0 {
        let front = values.drop_last();
        law_reports_add_up(baseline, name, front);
        assert(seen_at(name, values).drop_last() =~= seen_at(name, front));
        if front.len() > 0 {
            assert(seen_at(name, front).drop_last() =~= seen_at(name, front.drop_last()));
            assert(seen_at(name, front).last() == (name, front.last()));
        } else {
            assert(seen_at(name, front) =~= Seq::<(Seq<char>, i64)>::empty());
            assert(total_reported(baseline, name, front) == 0);
        }
    }
}

/// What the moved counters of a list without repeated names are.
proof fn lemma_moved(baseline: Map<Seq<char>, i64>, list: Seq<(Seq<char>, i64)>)
    requires
        names_differ(list),
    ensures
        forall|i: int|
            0 <= i < list.len() && delta(baseline, list[i].0, list[i].1) != 0 ==> moved(
                baseline,
                list,
            ).contains(
                #[trigger] reported(
                    list[i].0,
                    delta(baseline, list[i].0, list[i].1),
                    MetricType::Counter,
                ),
            ),
        forall|k: int|
            0 <= k < moved(baseline, list).len() ==> exists|i: int|
                0 <= i < list.len() && moved_by(
                    baseline,
                    #[trigger] list[i],
                    #[trigger] moved(baseline, list)[k],
                ),
    decreases list.len(),
{
    if list.len() > 0 {
        let front = list.drop_last();
        assert(names_differ(front)) by {
            assert forall|i: int, j: int| 0 <= i < j < front.len() implies (#[trigger] front[i]).0
                != (#[trigger] front[j]).0 by {
                assert(list[i].0 != list[j].0);
            }
        }
        lemma_moved(baseline, front);
        lemma_baseline(baseline, front);
        let (name, cur) = list.last();
        assert forall|i: int| 0 <= i < front.len() implies (#[trigger] front[i]).0 != name by {
            assert(list[i].0 != list[list.len() - 1].0);
        }
        assert(baseline_after(baseline, front).dom().contains(name) == baseline.dom().contains(
            name,
        ));
        assert(delta(baseline_after(baseline, front), name, cur) == delta(baseline, name, cur));
        let all = moved(baseline, list);
        let before = moved(baseline, front);
        assert forall|i: int|
            0 <= i < list.len() && delta(baseline, list[i].0, list[i].1) != 0 implies all.contains(
            #[trigger] reported(
                list[i].0,
                delta(baseline, list[i].0, list[i].1),
                MetricType::Counter,
            ),
        ) by {
            let m = reported(
                list[i].0,
                delta(baseline, list[i].0, list[i].1),
                MetricType::Counter,
            );
            if i < front.len() {
                assert(front[i] == list[i]);
                assert(before.contains(m));
                let k = choose|k: int| 0 <= k < before.len() && before[k] == m;
                assert(all[k] == m);
            } else {
                assert(all[all.len() - 1] == m);
            }
        }
        assert forall|k: int| 0 <= k < all.len() implies exists|i: int|
            0 <= i < list.len() && moved_by(baseline, #[trigger] list[i], #[trigger] all[k]) by {
            if k < before.len() {
                assert(all[k] == before[k]);
                let i = choose|i: int|
                    0 <= i < front.len() && moved_by(baseline, #[trigger] front[i], before[k]);
                assert(list[i] == front[i]);
            } else {
                assert(moved_by(baseline, list[list.len() - 1], all[k]));
            }
        }
    }
}

/// Tells whether `m` reports how far the counter has moved, and it has.
pub open spec fn moved_by(
    baseline: Map<Seq<char>, i64>,
    counter: (Seq<char>, i64),
    m: MetricView,
) -> bool {
    let diff = delta(baseline, counter.0, counter.1);
    diff != 0 && m == reported(counter.0, diff, MetricType::Counter)
}

/// Tells whether `m` reports a counter that has moved, or a gauge.
pub open spec fn accounted_for(
    m: MetricView,
    baseline: Map<Seq<char>, i64>,
    counters: Map<Seq<char>, i64>,
    gauges: Map<Seq<char>, i64>,
) -> bool {
    ||| exists|name: Seq<char>|
        counters.dom().contains(name) && #[trigger] moved_by(baseline, (name, counters[name]), m)
    ||| exists|name: Seq<char>|
        gauges.dom().contains(name) && #[trigger] reported(name, gauges[name], MetricType::Gauge)
            == m
}

/// A snapshot reports every counter that has moved and every gauge, and reports
/// nothing else: a counter that stands where it was last seen is left out.
pub proof fn law_snapshot_reports_every_move(
    metrics: Seq<MetricView>,
    baseline: Map<Seq<char>, i64>,
    counters: Map<Seq<char>, i64>,
    gauges: Map<Seq<char>, i64>,
)
    requires
        is_snapshot(metrics, baseline, counters, gauges),
    ensures
        forall|name: Seq<char>| #[trigger]
            counters.dom().contains(name) && delta(baseline, name, counters[name]) != 0
                ==> metrics.contains(
                reported(name, delta(baseline, name, counters[name]), MetricType::Counter),
            ),
        forall|name: Seq<char>| #[trigger]
            gauges.dom().contains(name) ==> metrics.contains(
                reported(name, gauges[name], MetricType::Gauge),
            ),
        forall|k: int|
            0 <= k < metrics.len() ==> accounted_for(#[trigger] metrics[k], baseline, counters, gauges),
{
    let (cs, gs) = choose|cs: Seq<(String, i64)>, gs: Seq<(String, i64)>| #[trigger]
        walk_gives(cs, gs, metrics, baseline, counters, gauges);
    lemma_baseline_of_listing(baseline, cs, counters);
    lemma_moved(baseline, named(cs));
    let first = moved(baseline, named(cs));
    let second = measured(named(gs));
    assert forall|name: Seq<char>| #[trigger]
        counters.dom().contains(name) && delta(baseline, name, counters[name])
            != 0 implies metrics.contains(
        reported(name, delta(baseline, name, counters[name]), MetricType::Counter),
    ) by {
        let m = reported(name, delta(baseline, name, counters[name]), MetricType::Counter);
        let i = choose|i: int| 0 <= i < cs.len() && (#[trigger] cs[i]).0@ == name;
        let at = named(cs)[i];
        assert(at == (name, counters[name]));
        assert(m == reported(at.0, delta(baseline, at.0, at.1), MetricType::Counter));
        let k = choose|k: int| 0 <= k < first.len() && first[k] == m;
        assert(metrics[k] == m);
    }
    assert forall|name: Seq<char>| #[trigger]
        gauges.dom().contains(name) implies metrics.contains(
        reported(name, gauges[name], MetricType::Gauge),
    ) by {
        let i = choose|i: int| 0 <= i < gs.len() && (#[trigger] gs[i]).0@ == name;
        assert(metrics[first.len() + i] == reported(name, gauges[name], MetricType::Gauge));
    }
    assert forall|k: int| 0 <= k < metrics.len() implies accounted_for(
        #[trigger] metrics[k],
        baseline,
        counters,
        gauges,
    ) by {
        if k < first.len() {
            let list = named(cs);
            let i = choose|i: int|
                0 <= i < list.len() && moved_by(baseline, #[trigger] list[i], first[k]);
            let name = cs[i].0@;
            assert(counters.dom().contains(name));
            assert(list[i] == (name, counters[name]));
            assert(moved_by(baseline, (name, counters[name]), metrics[k]));
        } else {
            let name = gs[k - first.len()].0@;
            assert(gauges.dom().contains(name));
            assert(reported(name, gauges[name], MetricType::Gauge) == metrics[k]);
        }
    }
}

/// Nothing is reported when every counter stands where it was last seen and there
/// is no gauge, as is so right after a report.
pub proof fn law_nothing_to_report_when_nothing_moved(
    metrics: Seq<MetricView>,
    baseline: Map<Seq<char>, i64>,
    counters: Map<Seq<char>, i64>,
    gauges: Map<Seq<char>, i64>,
)
    requires
        is_snapshot(metrics, baseline.union_prefer_right(counters), counters, gauges),
        gauges.dom().is_empty(),
    ensures
        metrics.len() == 0,
{
    let seen = baseline.union_prefer_right(counters);
    law_snapshot_reports_every_move(metrics, seen, counters, gauges);
    if metrics.len() > 0 {
        let m = metrics[0];
        if exists|name: Seq<char>|
            counters.dom().contains(name) && #[trigger] moved_by(seen, (name, counters[name]), m) {
            let name = choose|name: Seq<char>|
                counters.dom().contains(name) && #[trigger] moved_by(
                    seen,
                    (name, counters[name]),
                    m,
                );
            assert(seen[name] == counters[name]);
        } else {
            let name = choose|name: Seq<char>|
                gauges.dom().contains(name) && #[trigger] reported(
                    name,
                    gauges[name],
                    MetricType::Gauge,
                ) == m;
            assert(!gauges.dom().contains(name));
        }
    }
}

/// A counter that has moved since the last report is reported by how much, and one that
/// has not is left out; a gauge is reported with its value. What was reported is not
/// reported again.
pub proof fn law_moves_are_reported_once(
    reporter: &mut ClientMetricsReporter,
    again: &mut ClientMetricsReporter,
    counters: Vec<(String, i64)>,
    gauges: Vec<(String, i64)>,
    none: Vec<(String, i64)>,
    r: Vec<Metric>,
    second: Vec<Metric>,
    i: int,
    j: int,
    bare: String,
    full: &str,
    gauge_bare: String,
    gauge_full: &str,
)
    requires
        call_ensures(ClientMetricsReporter::snapshot_of, (reporter, &counters, &gauges), r),
        *old(again) == *final(reporter),
        call_ensures(ClientMetricsReporter::snapshot_of, (again, &counters, &none), second),
        none@.len() == 0,
        names_differ(named(counters@)),
        0 <= i < counters@.len(),
        0 <= j < gauges@.len(),
        full@ == counters@[i].0@,
        gauge_full@ == gauges@[j].0@,
        call_ensures(strip_instance_prefix, (full,), bare),
        call_ensures(strip_instance_prefix, (gauge_full,), gauge_bare),
    ensures
        ({
            let prev = if old(reporter)@.contains_key(full@) {
                old(reporter)@[full@] as int
            } else {
                0
            };
            let diff = counters@[i].1 - prev;
            i64::MIN <= diff <= i64::MAX && diff != 0 ==> exists|k: int|
                0 <= k < r@.len() && text_view((#[trigger] r@[k]).name) == Some(bare@)
                    && r@[k].value == Some(diff as i64) && r@[k].metric_type == 1 && text_view(
                    r@[k].instance,
                ) == Some("Client"@)
        }),
        exists|k: int|
            0 <= k < r@.len() && text_view((#[trigger] r@[k]).name) == Some(gauge_bare@)
                && r@[k].value == Some(gauges@[j].1) && r@[k].metric_type == 0 && text_view(
                r@[k].instance,
            ) == Some("Client"@),
        final(reporter)@.contains_key(full@) && final(reporter)@[full@] == counters@[i].1,
        r@.len() <= counters@.len() + gauges@.len(),
        second@.len() == 0,
{
    let base = old(reporter)@;
    let list = named(counters@);
    let views = metric_views(r@);
    assert(list[i] == (counters@[i].0@, counters@[i].1));
    assert(views.len() == r@.len());
    lemma_baseline(base, list);
    lemma_moved(base, list);
    lemma_moved_length(base, list);
    let first = moved(base, list);
    let rest = measured(named(gauges@));
    let g = reported(gauges@[j].0@, gauges@[j].1, MetricType::Gauge);
    assert(rest[j] == g);
    assert(views[first.len() + j] == g);
    assert(r@[first.len() + j]@ == g);
    let prev = if base.contains_key(full@) {
        base[full@] as int
    } else {
        0
    };
    let diff = counters@[i].1 - prev;
    if i64::MIN <= diff <= i64::MAX && diff != 0 {
        let d = delta(base, list[i].0, list[i].1);
        assert(d == diff);
        let m = reported(list[i].0, d, MetricType::Counter);
        assert(first.contains(m));
        let k = choose|k: int| 0 <= k < first.len() && first[k] == m;
        assert(views[k] == m);
        assert(r@[k]@ == m);
    }
    let after = baseline_after(base, list);
    lemma_nothing_moves(after, list);
    assert(measured(named(none@)) =~= Seq::<MetricView>::empty());
    assert(metric_views(second@).len() == second@.len());
}

proof fn lemma_moved_length(baseline: Map<Seq<char>, i64>, list: Seq<(Seq<char>, i64)>)
    ensures
        moved(baseline, list).len() <= list.len(),
    decreases list.len(),
{
    if list.len() > 0 {
        lemma_moved_length(baseline, list.drop_last());
    }
}

proof fn lemma_nothing_moves(baseline: Map<Seq<char>, i64>, list: Seq<(Seq<char>, i64)>)
    requires
        forall|i: int|
            0 <= i < list.len() ==> baseline.dom().contains((#[trigger] list[i]).0)
                && baseline[list[i].0] == list[i].1,
    ensures
        moved(baseline, list).len() == 0,
        baseline_after(baseline, list) == baseline,
    decreases list.len(),
{
    if list.len() > 0 {
        let front = list.drop_last();
        assert forall|i: int| 0 <= i < front.len() implies baseline.dom().contains(
            (#[trigger] front[i]).0,
        ) && baseline[front[i].0] == front[i].1 by {
            assert(front[i] == list[i]);
        }
        lemma_nothing_moves(baseline, front);
        assert(list.last() == list[list.len() - 1]);
        assert(baseline.insert(list.last().0, list.last().1) =~= baseline);
    }
}

} // verus!
