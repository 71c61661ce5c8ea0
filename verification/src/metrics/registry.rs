//! Counters and gauges, by name.

use dashmap::DashMap;
use vstd::prelude::*;

verus! {

/// A sum that grows, or shrinks, by increments.
#[derive(Debug)]
pub struct Counter {
    v: i64,
}

impl View for Counter {
    type V = i64;

    closed spec fn view(&self) -> i64 {
        self.v
    }
}

impl Default for Counter {
    fn default() -> (r: Self)
        ensures
            r@ == 0,
    {
        Counter { v: 0 }
    }
}

impl Counter {
    /// Adds `n`. The sum wraps around at the ends of its range.
    pub fn inc(&mut self, n: i64)
        ensures
            final(self)@ == i64::wrapping_add(old(self)@, n),
    {
        self.v = self.v.wrapping_add(n);
    }

    /// The present sum.
    pub fn get(&self) -> (r: i64)
        ensures
            r == self@,
    {
        self.v
    }
}

/// A value at a point in time.
#[derive(Debug)]
pub struct Gauge {
    v: i64,
}

impl View for Gauge {
    type V = i64;

    closed spec fn view(&self) -> i64 {
        self.v
    }
}

impl Default for Gauge {
    fn default() -> (r: Self)
        ensures
            r@ == 0,
    {
        Gauge { v: 0 }
    }
}

impl Gauge {
    /// Sets the value.
    pub fn set(&mut self, val: i64)
        ensures
            final(self)@ == val,
    {
        self.v = val;
    }

    /// The present value.
    pub fn get(&self) -> (r: i64)
        ensures
            r == self@,
    {
        self.v
    }
}

/// A concurrent map.
#[verifier::external_type_specification]
#[verifier::external_body]
#[verifier::reject_recursive_types(K)]
#[verifier::reject_recursive_types(V)]
#[verifier::reject_recursive_types(S)]
pub struct ExDashMap<K, V, S>(DashMap<K, V, S>);

/// The places by name that an index holds.
pub uninterp spec fn index_entries(index: DashMap<String, usize>) -> Map<Seq<char>, usize>;

/// Tells whether `list` holds each entry of `entries` once, and nothing else.
pub open spec fn lists<V>(list: Seq<(String, V)>, entries: Map<Seq<char>, V>) -> bool {
    &&& forall|i: int|
        0 <= i < list.len() ==> entries.dom().contains((#[trigger] list[i]).0@)
            && entries[list[i].0@] == list[i].1
    &&& forall|i: int, j: int|
        0 <= i < j < list.len() ==> (#[trigger] list[i]).0@ != (#[trigger] list[j]).0@
    &&& forall|name: Seq<char>| #[trigger]
        entries.dom().contains(name) ==> exists|i: int|
            0 <= i < list.len() && (#[trigger] list[i]).0@ == name
}

/// `dashmap::DashMap::new`: a map that holds nothing.
#[verifier::external_body]
fn index_new() -> (r: DashMap<String, usize>)
    ensures
        forall|name: Seq<char>| !(#[trigger] index_entries(r).dom().contains(name)),
{
    DashMap::new()
}

/// `dashmap::DashMap::get`: the value that is held under the key, if there is one.
#[verifier::external_body]
fn index_get(index: &DashMap<String, usize>, name: &str) -> (r: Option<usize>)
    ensures
        r == (if index_entries(*index).dom().contains(name@) {
            Some(index_entries(*index)[name@])
        } else {
            None
        }),
{
    index.get(name).map(|entry| *entry.value())
}

/// `dashmap::DashMap::entry` with `or_insert`: the value is put under the key unless
/// the key has one already.
#[verifier::external_body]
fn index_or_insert(index: &mut DashMap<String, usize>, name: &str, place: usize)
    ensures
        index_entries(*final(index)) == (if index_entries(*old(index)).dom().contains(name@) {
            index_entries(*old(index))
        } else {
            index_entries(*old(index)).insert(name@, place)
        }),
{
    index.entry(name.to_string()).or_insert(place);
}

/// `dashmap::DashMap::iter`: every entry once, in an order of which nothing is
/// promised.
#[verifier::external_body]
fn index_list(index: &DashMap<String, usize>) -> (r: Vec<(String, usize)>)
    ensures
        lists(r@, index_entries(*index)),
{
    index.iter().map(|entry| (entry.key().clone(), *entry.value())).collect()
}

/// Every named counter and gauge.
pub struct Registry {
    counter_index: DashMap<String, usize>,
    counter_cells: Vec<Counter>,
    gauge_index: DashMap<String, usize>,
    gauge_cells: Vec<Gauge>,
}

/// Tells whether each name has a cell of its own among `cells` cells.
pub open spec fn index_fits(index: Map<Seq<char>, usize>, cells: nat) -> bool {
    &&& forall|name: Seq<char>| #[trigger] index.dom().contains(name) ==> index[name] < cells
    &&& forall|a: Seq<char>, b: Seq<char>|
        index.dom().contains(a) && index.dom().contains(b) && a != b ==> #[trigger] index[a]
            != #[trigger] index[b]
}

/// The value of each name, given where its cell is.
pub open spec fn values_at(index: Map<Seq<char>, usize>, cells: Seq<i64>) -> Map<Seq<char>, i64> {
    Map::new(|name: Seq<char>| index.dom().contains(name), |name: Seq<char>| cells[index[name] as int])
}

/// The value under `name`, or 0 if there is none.
pub open spec fn value_or_zero(values: Map<Seq<char>, i64>, name: Seq<char>) -> i64 {
    if values.dom().contains(name) {
        values[name]
    } else {
        0
    }
}

impl Registry {
    /// Tells whether each name has a cell of its own.
    pub closed spec fn wf(&self) -> bool {
        &&& index_fits(index_entries(self.counter_index), self.counter_cells@.len())
        &&& index_fits(index_entries(self.gauge_index), self.gauge_cells@.len())
    }

    /// The counters by name.
    pub closed spec fn counters(&self) -> Map<Seq<char>, i64> {
        values_at(
            index_entries(self.counter_index),
            self.counter_cells@.map_values(|c: Counter| c@),
        )
    }

    /// The gauges by name.
    pub closed spec fn gauges(&self) -> Map<Seq<char>, i64> {
        values_at(index_entries(self.gauge_index), self.gauge_cells@.map_values(|g: Gauge| g@))
    }

    /// Each counter with its value, in any order.
    pub fn counter_values(&self) -> (r: Vec<(String, i64)>)
        requires
            self.wf(),
        ensures
            lists(r@, self.counters()),
    {
        let places = index_list(&self.counter_index);
        let mut out: Vec<(String, i64)> = Vec::new();
        let n: usize = places.len();
        let mut i: usize = 0;
        while i < n
            invariant
                i <= n,
                n == places@.len(),
                self.wf(),
                lists(places@, index_entries(self.counter_index)),
                out@.len() == i,
                forall|j: int|
                    0 <= j < i ==> (#[trigger] out@[j]).0@ == places@[j].0@ && out@[j].1
                        == self.counter_cells@[places@[j].1 as int]@,
            decreases n - i,
        {
            assert(index_entries(self.counter_index).dom().contains(places@[i as int].0@));
            out.push((places[i].0.clone(), self.counter_cells[places[i].1].get()));
            i += 1;
        }
        proof {
            lemma_values_listed(places@, out@, index_entries(self.counter_index), self.counters());
        }
        out
    }

    /// Each gauge with its value, in any order.
    pub fn gauge_values(&self) -> (r: Vec<(String, i64)>)
        requires
            self.wf(),
        ensures
            lists(r@, self.gauges()),
    {
        let places = index_list(&self.gauge_index);
        let mut out: Vec<(String, i64)> = Vec::new();
        let n: usize = places.len();
        let mut i: usize = 0;
        while i < n
            invariant
                i <= n,
                n == places@.len(),
                self.wf(),
                lists(places@, index_entries(self.gauge_index)),
                out@.len() == i,
                forall|j: int|
                    0 <= j < i ==> (#[trigger] out@[j]).0@ == places@[j].0@ && out@[j].1
                        == self.gauge_cells@[places@[j].1 as int]@,
            decreases n - i,
        {
            assert(index_entries(self.gauge_index).dom().contains(places@[i as int].0@));
            out.push((places[i].0.clone(), self.gauge_cells[places[i].1].get()));
            i += 1;
        }
        proof {
            lemma_values_listed(places@, out@, index_entries(self.gauge_index), self.gauges());
        }
        out
    }
}

/// A list of places turns into a list of values when each place is read.
proof fn lemma_values_listed(
    places: Seq<(String, usize)>,
    values: Seq<(String, i64)>,
    index: Map<Seq<char>, usize>,
    entries: Map<Seq<char>, i64>,
)
    requires
        lists(places, index),
        values.len() == places.len(),
        index.dom() =~= entries.dom(),
        forall|j: int|
            0 <= j < places.len() ==> (#[trigger] values[j]).0@ == places[j].0@ && values[j].1
                == entries[places[j].0@],
    ensures
        lists(values, entries),
{
    assert forall|i: int| 0 <= i < values.len() implies entries.dom().contains(
        (#[trigger] values[i]).0@,
    ) && entries[values[i].0@] == values[i].1 by {
        assert(index.dom().contains(places[i].0@));
    }
    assert forall|i: int, j: int| 0 <= i < j < values.len() implies (#[trigger] values[i]).0@ != (
    #[trigger] values[j]).0@ by {
        assert(places[i].0@ != places[j].0@);
    }
    assert forall|name: Seq<char>| #[trigger] entries.dom().contains(name) implies exists|i: int|
        0 <= i < values.len() && (#[trigger] values[i]).0@ == name by {
        assert(index.dom().contains(name));
        let i = choose|i: int| 0 <= i < places.len() && (#[trigger] places[i]).0@ == name;
        assert(values[i].0@ == name);
    }
}

impl Default for Registry {
    fn default() -> (r: Self)
        ensures
            r.wf(),
            r.counters() == Map::<Seq<char>, i64>::empty(),
            r.gauges() == Map::<Seq<char>, i64>::empty(),
    {
        let r = Registry {
            counter_index: index_new(),
            counter_cells: Vec::new(),
            gauge_index: index_new(),
            gauge_cells: Vec::new(),
        };
        assert(r.counters() =~= Map::<Seq<char>, i64>::empty());
        assert(r.gauges() =~= Map::<Seq<char>, i64>::empty());
        r
    }
}

/// The counter under `name`, which is made, at 0, if there is none.
pub fn counter<'a>(registry: &'a mut Registry, name: &str) -> (r: &'a mut Counter)
    requires
        old(registry).wf(),
    ensures
        r@ == value_or_zero(old(registry).counters(), name@),
        final(registry).wf(),
        final(registry).counters() == old(registry).counters().insert(name@, final(r)@),
        final(registry).gauges() == old(registry).gauges(),
{
    let place: usize = match index_get(&registry.counter_index, name) {
        Some(place) => place,
        None => {
            let place: usize = registry.counter_cells.len();
            registry.counter_cells.push(Counter::default());
            index_or_insert(&mut registry.counter_index, name, place);
            place
        },
    };
    &mut registry.counter_cells[place]
}

/// The gauge under `name`, which is made, at 0, if there is none.
pub fn gauge<'a>(registry: &'a mut Registry, name: &str) -> (r: &'a mut Gauge)
    requires
        old(registry).wf(),
    ensures
        r@ == value_or_zero(old(registry).gauges(), name@),
        final(registry).wf(),
        final(registry).gauges() == old(registry).gauges().insert(name@, final(r)@),
        final(registry).counters() == old(registry).counters(),
{
    let place: usize = match index_get(&registry.gauge_index, name) {
        Some(place) => place,
        None => {
            let place: usize = registry.gauge_cells.len();
            registry.gauge_cells.push(Gauge::default());
            index_or_insert(&mut registry.gauge_index, name, place);
            place
        },
    };
    &mut registry.gauge_cells[place]
}

} // verus!
