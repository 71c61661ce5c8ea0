//! Range coalescing planner.
//!
//! Many small reads of one file cost more than a few larger ones. Given the
//! `(offset, len)` ranges that a caller wants, [`plan`] says which merged
//! fetches to issue and where in them each range is found. It performs no I/O.

use vstd::prelude::*;

verus! {

/// Where one requested range lies inside the merged fetch that holds it.
#[derive(Debug, Clone, Copy, PartialEq, Eq, Structural)]
pub struct SliceMap {
    /// Index of the fetch in [`CoalescePlan::fetches`].
    pub fetch_index: usize,
    /// Offset of the range inside the fetch.
    pub offset_in_fetch: usize,
    /// Length of the range.
    pub len: usize,
}

/// One fetch to issue, in absolute file coordinates.
#[derive(Debug, Clone, Copy, PartialEq, Eq, Structural)]
pub struct MergedFetch {
    /// First byte of the fetch.
    pub offset: u64,
    /// Number of bytes.
    pub len: u64,
}

/// What [`plan`] decides.
#[derive(Debug, Clone)]
pub struct CoalescePlan {
    /// The merged fetches, in ascending order of their offsets.
    pub fetches: Vec<MergedFetch>,
    /// One entry for each requested range, in the caller's order; its
    /// `fetch_index` is [`NO_FETCH`] iff the range is empty.
    pub slices: Vec<SliceMap>,
    /// Sum of the lengths of the requested ranges.
    pub total_input_bytes: u64,
    /// Sum of the lengths of the fetches.
    pub total_fetch_bytes: u64,
}

/// The `fetch_index` of an empty range, for which nothing is fetched.
pub const NO_FETCH: usize = usize::MAX;

/// The larger of two numbers.
pub open spec fn larger(a: int, b: int) -> int {
    if a >= b {
        a
    } else {
        b
    }
}

/// Inserts the index `x` behind the indices whose range starts no later.
pub open spec fn insert_by_offset(ranges: Seq<(u64, u64)>, s: Seq<usize>, x: usize) -> Seq<usize>
    decreases s.len(),
{
    if s.len() == 0 || ranges[s.last() as int].0 <= ranges[x as int].0 {
        s.push(x)
    } else {
        insert_by_offset(ranges, s.drop_last(), x).push(s.last())
    }
}

/// The indices of the nonempty ranges among the first `k`, by ascending
/// offset; ranges that start at one offset keep their order.
pub open spec fn offset_order(ranges: Seq<(u64, u64)>, k: nat) -> Seq<usize>
    decreases k,
{
    if k == 0 {
        Seq::empty()
    } else if ranges[k - 1].1 == 0 {
        offset_order(ranges, (k - 1) as nat)
    } else {
        insert_by_offset(ranges, offset_order(ranges, (k - 1) as nat), (k - 1) as usize)
    }
}

/// Where the fetch would end if it took in the range.
pub open spec fn joined_end(f: MergedFetch, off: u64, len: u64) -> int {
    larger(f.offset + f.len, off + len)
}

/// The range is merged into the fetch: it starts at most `gap` bytes behind
/// the fetch's end, and the fetch does not grow past `cap`.
pub open spec fn joins(f: MergedFetch, off: u64, len: u64, gap: u64, cap: int) -> bool {
    &&& off <= f.offset + f.len + gap
    &&& joined_end(f, off, len) - f.offset <= larger(cap, f.len as int)
}

/// The fetches after one more range: the last fetch takes it in, or it starts
/// a fetch of its own.
pub open spec fn absorb(
    fetches: Seq<MergedFetch>,
    off: u64,
    len: u64,
    gap: u64,
    cap: int,
) -> Seq<MergedFetch> {
    if fetches.len() > 0 && joins(fetches.last(), off, len, gap, cap) {
        fetches.drop_last().push(
            MergedFetch {
                offset: fetches.last().offset,
                len: (joined_end(fetches.last(), off, len) - fetches.last().offset) as u64,
            },
        )
    } else {
        fetches.push(MergedFetch { offset: off, len })
    }
}

/// The fetches for the first `j` ranges of `order`.
pub open spec fn merged(
    ranges: Seq<(u64, u64)>,
    order: Seq<usize>,
    gap: u64,
    cap: int,
    j: nat,
) -> Seq<MergedFetch>
    decreases j,
{
    if j == 0 {
        Seq::empty()
    } else {
        let r = ranges[order[j - 1] as int];
        absorb(merged(ranges, order, gap, cap, (j - 1) as nat), r.0, r.1, gap, cap)
    }
}

/// The cap that `max_bytes` stands for: a fetch cannot be empty.
pub open spec fn cap_of(max_bytes: u64) -> int {
    larger(max_bytes as int, 1)
}

/// The fetches for all ranges.
pub open spec fn planned_fetches(ranges: Seq<(u64, u64)>, gap: u64, max_bytes: u64) -> Seq<
    MergedFetch,
> {
    let order = offset_order(ranges, ranges.len());
    merged(ranges, order, gap, cap_of(max_bytes), order.len())
}

/// The sum of the lengths of the first `k` ranges.
pub open spec fn input_total(ranges: Seq<(u64, u64)>, k: nat) -> int
    decreases k,
{
    if k == 0 {
        0
    } else {
        input_total(ranges, (k - 1) as nat) + ranges[k - 1].1
    }
}

/// The sum of the lengths of the fetches.
pub open spec fn fetch_total(fetches: Seq<MergedFetch>) -> int
    decreases fetches.len(),
{
    if fetches.len() == 0 {
        0
    } else {
        fetch_total(fetches.drop_last()) + fetches.last().len
    }
}

/// Where the `j`-th range of `order` is found: in the fetch that was the last
/// one when it was placed.
pub open spec fn placement(
    ranges: Seq<(u64, u64)>,
    order: Seq<usize>,
    gap: u64,
    cap: int,
    j: int,
) -> SliceMap {
    let fetches = merged(ranges, order, gap, cap, (j + 1) as nat);
    let r = ranges[order[j] as int];
    SliceMap {
        fetch_index: (fetches.len() - 1) as usize,
        offset_in_fetch: (r.0 - fetches.last().offset) as usize,
        len: r.1 as usize,
    }
}

/// No range reaches past the largest file offset.
pub open spec fn in_bounds(ranges: Seq<(u64, u64)>) -> bool {
    forall|i: int| 0 <= i < ranges.len() ==> (#[trigger] ranges[i]).0 + ranges[i].1 <= u64::MAX
}

impl CoalescePlan {
    /// `self` is the plan for `ranges`.
    pub open spec fn plans(self, ranges: Seq<(u64, u64)>, gap: u64, max_bytes: u64) -> bool {
        let order = offset_order(ranges, ranges.len());
        &&& self.fetches@ == planned_fetches(ranges, gap, max_bytes)
        &&& self.slices@.len() == ranges.len()
        &&& forall|i: int|
            0 <= i < ranges.len() && ranges[i].1 == 0 ==> #[trigger] self.slices@[i] == (SliceMap {
                fetch_index: NO_FETCH,
                offset_in_fetch: 0,
                len: 0,
            })
        &&& forall|j: int|
            0 <= j < order.len() ==> self.slices@[#[trigger] order[j] as int] == placement(
                ranges,
                order,
                gap,
                cap_of(max_bytes),
                j,
            )
        &&& self.total_input_bytes == input_total(ranges, ranges.len())
        &&& self.total_fetch_bytes == fetch_total(planned_fetches(ranges, gap, max_bytes))
    }

    /// The bytes that are fetched but not handed to the caller.
    pub fn wasted_bytes(&self) -> (r: u64)
        ensures
            r == larger(self.total_fetch_bytes - self.total_input_bytes, 0),
    {
        self.total_fetch_bytes.saturating_sub(self.total_input_bytes)
    }
}

/// Inserting behind the indices that start no later is `Seq::insert` there.
proof fn lemma_insert_at(ranges: Seq<(u64, u64)>, s: Seq<usize>, x: usize, p: int)
    requires
        0 <= p <= s.len(),
        p > 0 ==> ranges[s[p - 1] as int].0 <= ranges[x as int].0,
        forall|i: int| p <= i < s.len() ==> ranges[#[trigger] s[i] as int].0 > ranges[x as int].0,
    ensures
        insert_by_offset(ranges, s, x) == s.insert(p, x),
    decreases s.len(),
{
    if s.len() == 0 {
        assert(s.insert(p, x) =~= s.push(x));
    } else if p == s.len() {
        assert(s.insert(p, x) =~= s.push(x));
    } else {
        assert(s[s.len() - 1] == s.last());
        lemma_insert_at(ranges, s.drop_last(), x, p);
        assert(s.insert(p, x) =~= s.drop_last().insert(p, x).push(s.last()));
    }
}

/// `s` lists nonempty ranges of the first `k`, each once, by ascending offset.
pub open spec fn ordered(ranges: Seq<(u64, u64)>, s: Seq<usize>, k: nat) -> bool {
    &&& forall|i: int| 0 <= i < s.len() ==> #[trigger] s[i] < k && ranges[s[i] as int].1 > 0
    &&& forall|i: int, j: int|
        0 <= i < j < s.len() ==> s[i] != s[j] && ranges[#[trigger] s[i] as int].0
            <= ranges[#[trigger] s[j] as int].0
}

proof fn lemma_insert_ordered(ranges: Seq<(u64, u64)>, s: Seq<usize>, x: usize) -> (p: int)
    requires
        ordered(ranges, s, x as nat),
        x < ranges.len(),
        ranges[x as int].1 > 0,
    ensures
        0 <= p <= s.len(),
        insert_by_offset(ranges, s, x) == s.insert(p, x),
        ordered(ranges, s.insert(p, x), (x + 1) as nat),
    decreases s.len(),
{
    if s.len() == 0 || ranges[s.last() as int].0 <= ranges[x as int].0 {
        let p = s.len() as int;
        assert(s.insert(p, x) =~= s.push(x));
        let t = s.push(x);
        assert forall|i: int, j: int| 0 <= i < j < t.len() implies t[i] != t[j] && ranges[
            #[trigger] t[i] as int].0 <= ranges[#[trigger] t[j] as int].0 by {
            if j == s.len() {
                assert(s[i] < x);
                if i < s.len() - 1 {
                    assert(ranges[s[i] as int].0 <= ranges[s[s.len() - 1] as int].0);
                }
            }
        }
        p
    } else {
        assert(s[s.len() - 1] == s.last());
        let d = s.drop_last();
        assert(ordered(ranges, d, x as nat)) by {
            assert forall|i: int, j: int| 0 <= i < j < d.len() implies d[i] != d[j] && ranges[
                #[trigger] d[i] as int].0 <= ranges[#[trigger] d[j] as int].0 by {
                assert(s[i] == d[i] && s[j] == d[j]);
            }
            assert forall|i: int| 0 <= i < d.len() implies #[trigger] d[i] < x && ranges[d[i]
                as int].1 > 0 by {
                assert(s[i] == d[i]);
            }
        }
        let p = lemma_insert_ordered(ranges, d, x);
        let t = s.insert(p, x);
        let u = d.insert(p, x);
        assert(t =~= u.push(s.last()));
        assert forall|i: int| 0 <= i < t.len() implies #[trigger] t[i] < x + 1 && ranges[t[i]
            as int].1 > 0 by {
            if i < u.len() {
                assert(t[i] == u[i]);
            }
        }
        assert forall|i: int, j: int| 0 <= i < j < t.len() implies t[i] != t[j] && ranges[
            #[trigger] t[i] as int].0 <= ranges[#[trigger] t[j] as int].0 by {
            if j < u.len() {
                assert(t[i] == u[i] && t[j] == u[j]);
            } else {
                assert(t[j] == s.last());
                if i < p {
                    assert(t[i] == s[i]);
                } else if i == p {
                    assert(t[i] == x);
                } else {
                    assert(t[i] == s[i - 1]);
                }
            }
        }
        p
    }
}

/// `offset_order` lists exactly the nonempty ranges, by ascending offset.
pub proof fn lemma_offset_order(ranges: Seq<(u64, u64)>, k: nat)
    requires
        k <= ranges.len() <= usize::MAX,
    ensures
        ordered(ranges, offset_order(ranges, k), k),
        offset_order(ranges, k).len() <= k,
        forall|i: int|
            0 <= i < k && (#[trigger] ranges[i]).1 > 0 ==> offset_order(ranges, k).contains(
                i as usize,
            ),
    decreases k,
{
    if k > 0 {
        lemma_offset_order(ranges, (k - 1) as nat);
        let s = offset_order(ranges, (k - 1) as nat);
        if ranges[k - 1].1 > 0 {
            let x = (k - 1) as usize;
            let p = lemma_insert_ordered(ranges, s, x);
            let t = s.insert(p, x);
            assert forall|i: int| 0 <= i < k && (#[trigger] ranges[i]).1 > 0 implies t.contains(
                i as usize,
            ) by {
                if i == k - 1 {
                    assert(t[p] == x);
                } else {
                    let q = choose|q: int| 0 <= q < s.len() && s[q] == i as usize;
                    if q < p {
                        assert(t[q] == s[q]);
                    } else {
                        assert(t[q + 1] == s[q]);
                    }
                }
            }
        }
    }
}

/// The fetches for the first `j` ranges are well placed: the last one starts
/// no later than the `j`-th range and no fetch leaves the file space.
proof fn lemma_merged_shape(
    ranges: Seq<(u64, u64)>,
    order: Seq<usize>,
    gap: u64,
    cap: int,
    j: nat,
)
    requires
        ordered(ranges, order, ranges.len()),
        in_bounds(ranges),
        j <= order.len(),
    ensures
        ({
            let f = merged(ranges, order, gap, cap, j);
            &&& f.len() <= j
            &&& j > 0 ==> f.len() > 0
            &&& forall|i: int|
                0 <= i < f.len() ==> (#[trigger] f[i]).offset + f[i].len <= u64::MAX && f[i].len > 0
            &&& forall|i: int, k: int|
                0 <= i < k < f.len() ==> (#[trigger] f[i]).offset <= (#[trigger] f[k]).offset
            &&& j > 0 ==> {
                let r = ranges[order[j - 1] as int];
                &&& f.last().offset <= r.0
                &&& r.0 + r.1 <= f.last().offset + f.last().len
            }
        }),
    decreases j,
{
    if j > 0 {
        lemma_merged_shape(ranges, order, gap, cap, (j - 1) as nat);
        let g = merged(ranges, order, gap, cap, (j - 1) as nat);
        let f = merged(ranges, order, gap, cap, j);
        let r = ranges[order[j - 1] as int];
        assert(order[j - 1] < ranges.len());
        if j > 1 {
            assert(ranges[order[j - 2] as int].0 <= ranges[order[j - 1] as int].0);
        }
        assert(g.len() > 0 ==> g[g.len() - 1] == g.last());
        assert forall|i: int| 0 <= i < f.len() implies (#[trigger] f[i]).offset + f[i].len
            <= u64::MAX && f[i].len > 0 by {
            if i < g.len() {
                assert(g[i].offset + g[i].len <= u64::MAX);
            }
        }
        assert forall|i: int, k: int| 0 <= i < k < f.len() implies (#[trigger] f[i]).offset <= (
        #[trigger] f[k]).offset by {
            if k < g.len() {
                assert(g[i].offset <= g[k].offset);
            } else {
                assert(g[i].offset <= g.last().offset);
            }
        }
    }
}

/// A fetch that is no longer the last one never changes.
proof fn lemma_merged_grows(
    ranges: Seq<(u64, u64)>,
    order: Seq<usize>,
    gap: u64,
    cap: int,
    j: nat,
    m: nat,
)
    requires
        ordered(ranges, order, ranges.len()),
        in_bounds(ranges),
        0 < j <= m <= order.len(),
    ensures
        ({
            let f = merged(ranges, order, gap, cap, j);
            let g = merged(ranges, order, gap, cap, m);
            &&& f.len() <= g.len()
            &&& forall|i: int| 0 <= i < f.len() ==> (#[trigger] g[i]).offset == f[i].offset
            &&& forall|i: int| 0 <= i < f.len() ==> (#[trigger] g[i]).len >= f[i].len
            &&& forall|i: int| 0 <= i < f.len() - 1 ==> #[trigger] g[i] == f[i]
        }),
    decreases m,
{
    if j < m {
        lemma_merged_grows(ranges, order, gap, cap, j, (m - 1) as nat);
        lemma_merged_shape(ranges, order, gap, cap, j);
        lemma_merged_shape(ranges, order, gap, cap, (m - 1) as nat);
        lemma_merged_shape(ranges, order, gap, cap, m);
        let f = merged(ranges, order, gap, cap, j);
        let h = merged(ranges, order, gap, cap, (m - 1) as nat);
        let g = merged(ranges, order, gap, cap, m);
        assert(h.last() == h[h.len() - 1]);
        assert forall|i: int| 0 <= i < f.len() implies (#[trigger] g[i]).offset == f[i].offset
            && g[i].len >= f[i].len by {
            assert(h[i].offset == f[i].offset);
        }
        assert forall|i: int| 0 <= i < f.len() - 1 implies #[trigger] g[i] == f[i] by {
            assert(h[i] == f[i]);
        }
    }
}

/// The indices of the nonempty ranges, by ascending offset.
fn order_by_offset(ranges: &[(u64, u64)]) -> (order: Vec<usize>)
    ensures
        order@ == offset_order(ranges@, ranges@.len()),
{
    let n: usize = ranges.len();
    let mut order: Vec<usize> = Vec::new();
    let mut k: usize = 0;
    while k < n
        invariant
            k <= n,
            n == ranges@.len(),
            order@ == offset_order(ranges@, k as nat),
        decreases n - k,
    {
        proof {
            lemma_offset_order(ranges@, k as nat);
        }
        if ranges[k].1 > 0 {
            let mut p: usize = order.len();
            while p > 0 && ranges[order[p - 1]].0 > ranges[k].0
                invariant
                    p <= order@.len(),
                    k < n,
                    n == ranges@.len(),
                    ordered(ranges@, order@, k as nat),
                    forall|i: int|
                        p <= i < order@.len() ==> ranges@[#[trigger] order@[i] as int].0
                            > ranges@[k as int].0,
                decreases p,
            {
                p = p - 1;
            }
            proof {
                lemma_insert_at(ranges@, order@, k, p as int);
            }
            order.insert(p, k);
        }
        k = k + 1;
    }
    order
}

/// Builds the plan for `ranges`.
///
/// Two neighbouring ranges are merged when at most `gap` bytes lie between
/// them and the merged fetch does not grow past `max_bytes` (at least 1). A
/// single range that is longer than `max_bytes` is fetched whole.
pub fn plan(ranges: &[(u64, u64)], gap: u64, max_bytes: u64) -> (r: CoalescePlan)
    requires
        in_bounds(ranges@),
        input_total(ranges@, ranges@.len()) <= u64::MAX,
        fetch_total(planned_fetches(ranges@, gap, max_bytes)) <= u64::MAX,
        forall|i: int|
            0 <= i < planned_fetches(ranges@, gap, max_bytes).len() ==> (
            #[trigger] planned_fetches(ranges@, gap, max_bytes)[i]).len <= usize::MAX,
    ensures
        r.plans(ranges@, gap, max_bytes),
{
    let n: usize = ranges.len();
    let cap: u64 = if max_bytes >= 1 {
        max_bytes
    } else {
        1
    };
    let mut slices: Vec<SliceMap> = Vec::new();
    let mut total_input_bytes: u64 = 0;
    let mut i: usize = 0;
    while i < n
        invariant
            i <= n,
            n == ranges@.len(),
            total_input_bytes == input_total(ranges@, i as nat),
            input_total(ranges@, ranges@.len()) <= u64::MAX,
            slices@.len() == i,
            forall|k: int|
                0 <= k < i ==> #[trigger] slices@[k] == (SliceMap {
                    fetch_index: NO_FETCH,
                    offset_in_fetch: 0,
                    len: 0,
                }),
        decreases n - i,
    {
        proof {
            lemma_input_total_monotone(ranges@, (i + 1) as nat, ranges@.len());
        }
        slices.push(SliceMap { fetch_index: NO_FETCH, offset_in_fetch: 0, len: 0 });
        total_input_bytes = total_input_bytes + ranges[i].1;
        i = i + 1;
    }

    let order = order_by_offset(ranges);
    proof {
        lemma_offset_order(ranges@, ranges@.len());
    }
    let ghost all = planned_fetches(ranges@, gap, max_bytes);
    let mut fetches: Vec<MergedFetch> = Vec::new();
    let mut j: usize = 0;
    while j < order.len()
        invariant
            j <= order@.len(),
            n == ranges@.len(),
            order@ == offset_order(ranges@, ranges@.len()),
            ordered(ranges@, order@, ranges@.len()),
            in_bounds(ranges@),
            cap == cap_of(max_bytes),
            all == merged(ranges@, order@, gap, cap as int, order@.len()),
            forall|i: int| 0 <= i < all.len() ==> (#[trigger] all[i]).len <= usize::MAX,
            fetches@ == merged(ranges@, order@, gap, cap as int, j as nat),
            slices@.len() == n,
            forall|k: int|
                0 <= k < n && ranges@[k].1 == 0 ==> #[trigger] slices@[k] == (SliceMap {
                    fetch_index: NO_FETCH,
                    offset_in_fetch: 0,
                    len: 0,
                }),
            forall|k: int|
                0 <= k < j ==> slices@[#[trigger] order@[k] as int] == placement(
                    ranges@,
                    order@,
                    gap,
                    cap as int,
                    k,
                ),
        decreases order@.len() - j,
    {
        let idx: usize = order[j];
        let off: u64 = ranges[idx].0;
        let len: u64 = ranges[idx].1;
        proof {
            lemma_merged_shape(ranges@, order@, gap, cap as int, j as nat);
            lemma_merged_shape(ranges@, order@, gap, cap as int, (j + 1) as nat);
            lemma_merged_grows(
                ranges@,
                order@,
                gap,
                cap as int,
                (j + 1) as nat,
                order@.len(),
            );
            let next = merged(ranges@, order@, gap, cap as int, (j + 1) as nat);
            assert(all[next.len() - 1].len >= next.last().len);
            assert(next.last().len <= usize::MAX);
            assert(ranges@[idx as int].0 + ranges@[idx as int].1 <= u64::MAX);
            if j > 0 {
                assert(ranges@[order@[j - 1] as int].0 <= ranges@[order@[j as int] as int].0);
                assert(fetches@.last() == fetches@[fetches@.len() - 1]);
            }
        }
        let mut merge = false;
        let mut base: u64 = off;
        let mut grown: u64 = len;
        if fetches.len() > 0 {
            let last: MergedFetch = fetches[fetches.len() - 1];
            let end: u64 = last.offset + last.len;
            let candidate_end: u64 = if end >= off + len {
                end
            } else {
                off + len
            };
            let candidate_len: u64 = candidate_end - last.offset;
            let effective_cap: u64 = if cap >= last.len {
                cap
            } else {
                last.len
            };
            if off <= end.saturating_add(gap) && candidate_len <= effective_cap {
                merge = true;
                base = last.offset;
                grown = candidate_len;
            }
        }
        if merge {
            let ghost before = fetches@;
            let last_index: usize = fetches.len() - 1;
            fetches.set(last_index, MergedFetch { offset: base, len: grown });
            proof {
                assert(fetches@ =~= before.drop_last().push(
                    MergedFetch { offset: base, len: grown },
                ));
            }
        } else {
            fetches.push(MergedFetch { offset: off, len });
        }
        slices.set(
            idx,
            SliceMap {
                fetch_index: fetches.len() - 1,
                offset_in_fetch: (off - base) as usize,
                len: len as usize,
            },
        );
        j = j + 1;
    }

    let mut total_fetch_bytes: u64 = 0;
    let mut t: usize = 0;
    proof {
        assert(fetches@.take(fetches@.len() as int) =~= fetches@);
    }
    while t < fetches.len()
        invariant
            t <= fetches@.len(),
            fetch_total(fetches@) <= u64::MAX,
            total_fetch_bytes == fetch_total(fetches@.take(t as int)),
        decreases fetches@.len() - t,
    {
        proof {
            assert(fetches@.take(t + 1).drop_last() =~= fetches@.take(t as int));
            lemma_fetch_total_monotone(fetches@, (t + 1) as int);
        }
        total_fetch_bytes = total_fetch_bytes + fetches[t].len;
        t = t + 1;
    }
    CoalescePlan { fetches, slices, total_input_bytes, total_fetch_bytes }
}

proof fn lemma_input_total_monotone(ranges: Seq<(u64, u64)>, a: nat, b: nat)
    requires
        a <= b <= ranges.len(),
    ensures
        0 <= input_total(ranges, a) <= input_total(ranges, b),
    decreases b,
{
    if a < b {
        lemma_input_total_monotone(ranges, a, (b - 1) as nat);
    } else if a > 0 {
        lemma_input_total_monotone(ranges, (a - 1) as nat, (a - 1) as nat);
    }
}

proof fn lemma_fetch_total_monotone(fetches: Seq<MergedFetch>, t: int)
    requires
        0 <= t <= fetches.len(),
    ensures
        0 <= fetch_total(fetches.take(t)) <= fetch_total(fetches),
    decreases fetches.len() - t,
{
    if t == fetches.len() {
        assert(fetches.take(t) =~= fetches);
        lemma_fetch_total_nonnegative(fetches);
    } else {
        lemma_fetch_total_monotone(fetches, t + 1);
        assert(fetches.take(t + 1).drop_last() =~= fetches.take(t));
        lemma_fetch_total_nonnegative(fetches.take(t));
    }
}

proof fn lemma_fetch_total_nonnegative(fetches: Seq<MergedFetch>)
    ensures
        fetch_total(fetches) >= 0,
    decreases fetches.len(),
{
    if fetches.len() > 0 {
        lemma_fetch_total_nonnegative(fetches.drop_last());
    }
}

/// What every plan rests on: the ranges lie in the file space, and a fetch
/// fits in memory.
pub open spec fn plannable(ranges: Seq<(u64, u64)>, gap: u64, max_bytes: u64) -> bool {
    &&& in_bounds(ranges)
    &&& ranges.len() <= usize::MAX
    &&& forall|i: int|
        0 <= i < planned_fetches(ranges, gap, max_bytes).len() ==> (#[trigger] planned_fetches(
            ranges,
            gap,
            max_bytes,
        )[i]).len <= usize::MAX
}

/// The bytes from `offset` on of a file whose byte at position `k` is `file(k)`.
pub open spec fn bytes_at(file: spec_fn(int) -> u8, offset: int, len: nat) -> Seq<u8> {
    Seq::new(len, |k: int| file(offset + k))
}

proof fn lemma_cut_of_bytes(file: spec_fn(int) -> u8, offset: int, len: nat, from: int, n: nat)
    requires
        0 <= from,
        from + n <= len,
    ensures
        bytes_at(file, offset, len).subrange(from, from + n) == bytes_at(file, offset + from, n),
{
    assert(bytes_at(file, offset, len).subrange(from, from + n) =~= bytes_at(
        file,
        offset + from,
        n,
    ));
}

proof fn lemma_slice_lies_in_fetch(
    p: CoalescePlan,
    ranges: Seq<(u64, u64)>,
    gap: u64,
    max_bytes: u64,
    i: int,
)
    requires
        plannable(ranges, gap, max_bytes),
        p.plans(ranges, gap, max_bytes),
        0 <= i < ranges.len(),
        ranges[i].1 > 0,
    ensures
        ({
            let s = p.slices@[i];
            let f = p.fetches@[s.fetch_index as int];
            &&& s.fetch_index < p.fetches@.len()
            &&& s.len == ranges[i].1
            &&& s.offset_in_fetch + s.len <= f.len
            &&& f.offset + s.offset_in_fetch == ranges[i].0
        }),
{
    let cap = cap_of(max_bytes);
    let order = offset_order(ranges, ranges.len());
    lemma_offset_order(ranges, ranges.len());
    let j = choose|j: int| 0 <= j < order.len() && order[j] == i as usize;
    assert(order[j] as int == i);
    lemma_merged_shape(ranges, order, gap, cap, (j + 1) as nat);
    lemma_merged_grows(ranges, order, gap, cap, (j + 1) as nat, order.len());
    let part = merged(ranges, order, gap, cap, (j + 1) as nat);
    assert(p.slices@[order[j] as int] == placement(ranges, order, gap, cap, j));
    let k = part.len() - 1;
    assert(p.fetches@[k].offset == part[k].offset);
    assert(p.fetches@[k].len >= part[k].len);
    assert(p.fetches@[k].len <= usize::MAX);
    assert(part.len() <= j + 1);
}

/// Reading the merged fetches and cutting out the slices gives, for every
/// range, the bytes that a read of that range alone would give.
#[verifier::spinoff_prover]
pub proof fn law_slices_recover_ranges(
    p: CoalescePlan,
    ranges: Seq<(u64, u64)>,
    gap: u64,
    max_bytes: u64,
    file: spec_fn(int) -> u8,
    i: int,
)
    requires
        plannable(ranges, gap, max_bytes),
        p.plans(ranges, gap, max_bytes),
        0 <= i < ranges.len(),
        ranges[i].1 > 0,
    ensures
        ({
            let s = p.slices@[i];
            let f = p.fetches@[s.fetch_index as int];
            &&& s.fetch_index < p.fetches@.len()
            &&& s.len == ranges[i].1
            &&& s.offset_in_fetch + s.len <= f.len
            &&& f.offset + s.offset_in_fetch == ranges[i].0
            &&& bytes_at(file, f.offset as int, f.len as nat).subrange(
                s.offset_in_fetch as int,
                s.offset_in_fetch + s.len,
            ) == bytes_at(file, ranges[i].0 as int, ranges[i].1 as nat)
        }),
{
    lemma_slice_lies_in_fetch(p, ranges, gap, max_bytes, i);
    let s = p.slices@[i];
    let f = p.fetches@[s.fetch_index as int];
    lemma_cut_of_bytes(
        file,
        f.offset as int,
        f.len as nat,
        s.offset_in_fetch as int,
        s.len as nat,
    );
}

/// There is one slice for each range, in the caller's order and with the
/// range's length, and exactly the empty ranges have no fetch.
pub proof fn law_slices_keep_order_and_length(
    p: CoalescePlan,
    ranges: Seq<(u64, u64)>,
    gap: u64,
    max_bytes: u64,
)
    requires
        plannable(ranges, gap, max_bytes),
        p.plans(ranges, gap, max_bytes),
    ensures
        p.slices@.len() == ranges.len(),
        forall|i: int|
            0 <= i < ranges.len() ==> (#[trigger] p.slices@[i]).len == ranges[i].1 && (
            p.slices@[i].fetch_index == NO_FETCH <==> ranges[i].1 == 0),
{
    lemma_offset_order(ranges, ranges.len());
    let order = offset_order(ranges, ranges.len());
    lemma_merged_shape(ranges, order, gap, cap_of(max_bytes), order.len());
    assert forall|i: int| 0 <= i < ranges.len() implies (#[trigger] p.slices@[i]).len
        == ranges[i].1 && (p.slices@[i].fetch_index == NO_FETCH <==> ranges[i].1 == 0) by {
        if ranges[i].1 > 0 {
            lemma_slice_lies_in_fetch(p, ranges, gap, max_bytes, i);
        }
    }
}

/// The fetches are in ascending order of their offsets, and none is empty.
pub proof fn law_fetches_ascend(
    p: CoalescePlan,
    ranges: Seq<(u64, u64)>,
    gap: u64,
    max_bytes: u64,
)
    requires
        in_bounds(ranges),
        ranges.len() <= usize::MAX,
        p.plans(ranges, gap, max_bytes),
    ensures
        forall|i: int, k: int|
            0 <= i < k < p.fetches@.len() ==> (#[trigger] p.fetches@[i]).offset <= (
            #[trigger] p.fetches@[k]).offset,
        forall|i: int| 0 <= i < p.fetches@.len() ==> (#[trigger] p.fetches@[i]).len > 0,
{
    let order = offset_order(ranges, ranges.len());
    lemma_offset_order(ranges, ranges.len());
    lemma_merged_shape(ranges, order, gap, cap_of(max_bytes), order.len());
}

/// `m` is the position in `order` of a range of fetch `k` that is as long as
/// the fetch, or the fetch is within the cap.
spec fn cap_witness(
    ranges: Seq<(u64, u64)>,
    order: Seq<usize>,
    gap: u64,
    cap: int,
    fetch_len: int,
    k: int,
    m: int,
) -> bool {
    &&& merged(ranges, order, gap, cap, (m + 1) as nat).len() - 1 == k
    &&& fetch_len <= larger(cap, ranges[order[m] as int].1 as int)
}

/// Some range among the first `j` of `order` is a witness for fetch `k`.
spec fn cap_held(
    ranges: Seq<(u64, u64)>,
    order: Seq<usize>,
    gap: u64,
    cap: int,
    j: nat,
    k: int,
) -> bool {
    exists|m: int|
        0 <= m < j && cap_witness(
            ranges,
            order,
            gap,
            cap,
            merged(ranges, order, gap, cap, j)[k].len as int,
            k,
            m,
        )
}

proof fn lemma_cap(
    ranges: Seq<(u64, u64)>,
    order: Seq<usize>,
    gap: u64,
    cap: int,
    j: nat,
    k: int,
)
    requires
        ordered(ranges, order, ranges.len()),
        in_bounds(ranges),
        j <= order.len(),
        0 <= k < merged(ranges, order, gap, cap, j).len(),
    ensures
        cap_held(ranges, order, gap, cap, j, k),
    decreases j,
{
    if j > 0 {
        lemma_merged_shape(ranges, order, gap, cap, (j - 1) as nat);
        lemma_merged_shape(ranges, order, gap, cap, j);
        let g = merged(ranges, order, gap, cap, (j - 1) as nat);
        let f = merged(ranges, order, gap, cap, j);
        if k == f.len() - 1 && (f.len() > g.len() || f[k].len <= cap) {
            assert(cap_witness(ranges, order, gap, cap, f[k].len as int, k, j - 1));
        } else {
            assert(g.len() > 0 ==> g.last() == g[g.len() - 1]);
            assert(f[k].len == g[k].len);
            lemma_cap(ranges, order, gap, cap, (j - 1) as nat, k);
            let m = choose|m: int|
                0 <= m < j - 1 && cap_witness(ranges, order, gap, cap, g[k].len as int, k, m);
            assert(cap_witness(ranges, order, gap, cap, f[k].len as int, k, m));
        }
    }
}

/// No fetch exceeds the larger of `max_bytes` (at least 1) and the longest
/// single range in it: merging alone never takes a fetch past the cap.
pub proof fn law_fetches_respect_cap(
    p: CoalescePlan,
    ranges: Seq<(u64, u64)>,
    gap: u64,
    max_bytes: u64,
    k: int,
)
    requires
        in_bounds(ranges),
        ranges.len() <= usize::MAX,
        p.plans(ranges, gap, max_bytes),
        0 <= k < p.fetches@.len(),
    ensures
        exists|i: int|
            0 <= i < ranges.len() && (#[trigger] p.slices@[i]).fetch_index == k
                && p.fetches@[k].len <= larger(cap_of(max_bytes), ranges[i].1 as int),
{
    let cap = cap_of(max_bytes);
    let order = offset_order(ranges, ranges.len());
    lemma_offset_order(ranges, ranges.len());
    lemma_cap(ranges, order, gap, cap, order.len(), k);
    let f = p.fetches@[k];
    let m = choose|m: int|
        0 <= m < order.len() && cap_witness(ranges, order, gap, cap, f.len as int, k, m);
    let i = order[m] as int;
    assert(p.slices@[order[m] as int] == placement(ranges, order, gap, cap, m));
    lemma_merged_shape(ranges, order, gap, cap, (m + 1) as nat);
    assert(p.slices@[i].fetch_index == k);
}

/// The sum of the lengths of the ranges that `s` lists.
pub open spec fn listed_total(ranges: Seq<(u64, u64)>, s: Seq<usize>) -> int
    decreases s.len(),
{
    if s.len() == 0 {
        0
    } else {
        listed_total(ranges, s.drop_last()) + ranges[s.last() as int].1
    }
}

proof fn lemma_insert_total(ranges: Seq<(u64, u64)>, s: Seq<usize>, x: usize)
    ensures
        listed_total(ranges, insert_by_offset(ranges, s, x)) == listed_total(ranges, s)
            + ranges[x as int].1,
    decreases s.len(),
{
    if s.len() == 0 || ranges[s.last() as int].0 <= ranges[x as int].0 {
        assert(s.push(x).drop_last() =~= s);
    } else {
        lemma_insert_total(ranges, s.drop_last(), x);
        let t = insert_by_offset(ranges, s.drop_last(), x);
        assert(t.push(s.last()).drop_last() =~= t);
    }
}

proof fn lemma_order_total(ranges: Seq<(u64, u64)>, k: nat)
    requires
        k <= ranges.len() <= usize::MAX,
    ensures
        listed_total(ranges, offset_order(ranges, k)) == input_total(ranges, k),
    decreases k,
{
    if k > 0 {
        lemma_order_total(ranges, (k - 1) as nat);
        lemma_insert_total(ranges, offset_order(ranges, (k - 1) as nat), (k - 1) as usize);
    }
}

proof fn lemma_waste(ranges: Seq<(u64, u64)>, order: Seq<usize>, gap: u64, cap: int, j: nat)
    requires
        ordered(ranges, order, ranges.len()),
        in_bounds(ranges),
        j <= order.len(),
    ensures
        ({
            let f = merged(ranges, order, gap, cap, j);
            fetch_total(f) <= listed_total(ranges, order.take(j as int)) + gap * (j - f.len())
        }),
    decreases j,
{
    if j == 0 {
        assert(order.take(0) =~= Seq::<usize>::empty());
        assert(gap * 0 == 0) by (nonlinear_arith);
    } else {
        lemma_waste(ranges, order, gap, cap, (j - 1) as nat);
        lemma_merged_shape(ranges, order, gap, cap, (j - 1) as nat);
        lemma_merged_shape(ranges, order, gap, cap, j);
        let g = merged(ranges, order, gap, cap, (j - 1) as nat);
        let f = merged(ranges, order, gap, cap, j);
        let r = ranges[order[j - 1] as int];
        assert(order.take(j as int).drop_last() =~= order.take(j - 1));
        if f.len() == g.len() {
            assert(f.drop_last() =~= g.drop_last());
            assert(gap * (j - f.len()) == gap * (j - 1 - g.len()) + gap) by (nonlinear_arith)
                requires
                    f.len() == g.len(),
            ;
        } else {
            assert(f.drop_last() =~= g);
            assert(gap * (j - f.len()) == gap * (j - 1 - g.len())) by (nonlinear_arith)
                requires
                    f.len() == g.len() + 1,
            ;
        }
    }
}

/// How many of the first `k` ranges are not empty.
pub open spec fn nonempty(ranges: Seq<(u64, u64)>, k: nat) -> nat
    decreases k,
{
    if k == 0 {
        0
    } else {
        nonempty(ranges, (k - 1) as nat) + if ranges[k - 1].1 > 0 {
            1nat
        } else {
            0
        }
    }
}

proof fn lemma_insert_length(ranges: Seq<(u64, u64)>, s: Seq<usize>, x: usize)
    ensures
        insert_by_offset(ranges, s, x).len() == s.len() + 1,
    decreases s.len(),
{
    if s.len() > 0 && ranges[s.last() as int].0 > ranges[x as int].0 {
        lemma_insert_length(ranges, s.drop_last(), x);
    }
}

proof fn lemma_order_length(ranges: Seq<(u64, u64)>, k: nat)
    ensures
        offset_order(ranges, k).len() == nonempty(ranges, k),
    decreases k,
{
    if k > 0 {
        lemma_order_length(ranges, (k - 1) as nat);
        lemma_insert_length(ranges, offset_order(ranges, (k - 1) as nat), (k - 1) as usize);
    }
}

/// What is fetched beyond the requested bytes is at most `gap` bytes for each
/// merge, that is for each nonempty range that has no fetch of its own.
pub proof fn law_waste_is_bounded_by_gaps(
    p: CoalescePlan,
    ranges: Seq<(u64, u64)>,
    gap: u64,
    max_bytes: u64,
)
    requires
        in_bounds(ranges),
        ranges.len() <= usize::MAX,
        p.plans(ranges, gap, max_bytes),
    ensures
        ({
            let merges = nonempty(ranges, ranges.len()) - p.fetches@.len();
            &&& merges >= 0
            &&& p.total_fetch_bytes == fetch_total(p.fetches@)
            &&& p.total_input_bytes == input_total(ranges, ranges.len())
            &&& larger(p.total_fetch_bytes - p.total_input_bytes, 0) <= gap * merges
        }),
{
    let order = offset_order(ranges, ranges.len());
    let cap = cap_of(max_bytes);
    let merges = nonempty(ranges, ranges.len()) - p.fetches@.len();
    lemma_order_length(ranges, ranges.len());
    assert(merges >= 0 ==> gap * merges >= 0) by (nonlinear_arith);
    lemma_offset_order(ranges, ranges.len());
    lemma_merged_shape(ranges, order, gap, cap, order.len());
    lemma_waste(ranges, order, gap, cap, order.len());
    lemma_order_total(ranges, ranges.len());
    assert(order.take(order.len() as int) =~= order);
}

/// No two nonempty ranges share a byte.
pub open spec fn disjoint(ranges: Seq<(u64, u64)>) -> bool {
    forall|i: int, k: int|
        0 <= i < ranges.len() && 0 <= k < ranges.len() && i != k && ranges[i].1 > 0 && ranges[k].1
            > 0 ==> (#[trigger] ranges[i]).0 + ranges[i].1 <= (#[trigger] ranges[k]).0
            || ranges[k].0 + ranges[k].1 <= ranges[i].0
}

proof fn lemma_cover(ranges: Seq<(u64, u64)>, order: Seq<usize>, gap: u64, cap: int, j: nat)
    requires
        ordered(ranges, order, ranges.len()),
        in_bounds(ranges),
        disjoint(ranges),
        j <= order.len(),
    ensures
        ({
            let f = merged(ranges, order, gap, cap, j);
            &&& fetch_total(f) >= listed_total(ranges, order.take(j as int))
            &&& j > 0 ==> f.last().offset + f.last().len == ranges[order[j - 1] as int].0
                + ranges[order[j - 1] as int].1
        }),
    decreases j,
{
    if j == 0 {
        assert(order.take(0) =~= Seq::<usize>::empty());
    } else {
        lemma_cover(ranges, order, gap, cap, (j - 1) as nat);
        lemma_merged_shape(ranges, order, gap, cap, (j - 1) as nat);
        lemma_merged_shape(ranges, order, gap, cap, j);
        let g = merged(ranges, order, gap, cap, (j - 1) as nat);
        let f = merged(ranges, order, gap, cap, j);
        let r = ranges[order[j - 1] as int];
        assert(order[j - 1] < ranges.len());
        assert(order.take(j as int).drop_last() =~= order.take(j - 1));
        if j > 1 {
            let q = ranges[order[j - 2] as int];
            assert(order[j - 2] < ranges.len());
            assert(order[j - 2] != order[j - 1] && q.0 <= r.0);
            assert(q.0 + q.1 <= r.0);
        }
        if f.len() == g.len() {
            assert(f.drop_last() =~= g.drop_last());
        } else {
            assert(f.drop_last() =~= g);
        }
    }
}

/// Ranges that do not overlap are fetched in full: at least as many bytes are
/// fetched as were requested.
pub proof fn law_disjoint_ranges_are_fetched_in_full(
    p: CoalescePlan,
    ranges: Seq<(u64, u64)>,
    gap: u64,
    max_bytes: u64,
)
    requires
        in_bounds(ranges),
        ranges.len() <= usize::MAX,
        p.plans(ranges, gap, max_bytes),
        disjoint(ranges),
    ensures
        p.total_fetch_bytes >= p.total_input_bytes,
{
    let order = offset_order(ranges, ranges.len());
    lemma_offset_order(ranges, ranges.len());
    lemma_cover(ranges, order, gap, cap_of(max_bytes), order.len());
    lemma_order_total(ranges, ranges.len());
    assert(order.take(order.len() as int) =~= order);
}

proof fn lemma_extent(
    ranges: Seq<(u64, u64)>,
    order: Seq<usize>,
    gap: u64,
    cap: int,
    j: nat,
    low: int,
    high: int,
)
    requires
        ordered(ranges, order, ranges.len()),
        in_bounds(ranges),
        j <= order.len(),
        forall|i: int|
            0 <= i < ranges.len() && ranges[i].1 > 0 ==> low <= (#[trigger] ranges[i]).0
                && ranges[i].0 + ranges[i].1 <= high,
    ensures
        ({
            let f = merged(ranges, order, gap, cap, j);
            &&& forall|k: int|
                0 <= k < f.len() ==> low <= (#[trigger] f[k]).offset && f[k].offset + f[k].len
                    <= high
            &&& low <= high ==> fetch_total(f) <= (high - low) * f.len()
        }),
    decreases j,
{
    if j > 0 {
        lemma_extent(ranges, order, gap, cap, (j - 1) as nat, low, high);
        lemma_merged_shape(ranges, order, gap, cap, (j - 1) as nat);
        lemma_merged_shape(ranges, order, gap, cap, j);
        let g = merged(ranges, order, gap, cap, (j - 1) as nat);
        let f = merged(ranges, order, gap, cap, j);
        let r = ranges[order[j - 1] as int];
        assert(order[j - 1] < ranges.len());
        assert forall|k: int| 0 <= k < f.len() implies low <= (#[trigger] f[k]).offset
            && f[k].offset + f[k].len <= high by {
            if k < g.len() {
                assert(low <= g[k].offset);
            }
        }
        if f.len() == g.len() {
            assert(f.drop_last() =~= g.drop_last());
            lemma_extent_total(f, low, high);
        } else {
            assert(f.drop_last() =~= g);
            lemma_extent_total(f, low, high);
        }
    }
}

proof fn lemma_extent_total(f: Seq<MergedFetch>, low: int, high: int)
    requires
        forall|k: int|
            0 <= k < f.len() ==> low <= (#[trigger] f[k]).offset && f[k].offset + f[k].len <= high,
        low <= high,
    ensures
        fetch_total(f) <= (high - low) * f.len(),
    decreases f.len(),
{
    if f.len() > 0 {
        let d = f.drop_last();
        assert forall|k: int| 0 <= k < d.len() implies low <= (#[trigger] d[k]).offset && d[k].offset
            + d[k].len <= high by {
            assert(d[k] == f[k]);
        }
        lemma_extent_total(d, low, high);
        assert(f.last() == f[f.len() - 1]);
        assert((high - low) * f.len() == (high - low) * d.len() + (high - low)) by (nonlinear_arith)
            requires
                f.len() == d.len() + 1,
        ;
    } else {
        assert((high - low) * 0 == 0) by (nonlinear_arith);
    }
}

/// No fetch reads outside the stretch of the file that the ranges span, and
/// what is fetched in all is at most that stretch for each fetch.
pub proof fn law_fetches_stay_in_extent(
    ranges: Seq<(u64, u64)>,
    gap: u64,
    max_bytes: u64,
    low: int,
    high: int,
)
    requires
        in_bounds(ranges),
        ranges.len() <= usize::MAX,
        low <= high,
        forall|i: int|
            0 <= i < ranges.len() && ranges[i].1 > 0 ==> low <= (#[trigger] ranges[i]).0
                && ranges[i].0 + ranges[i].1 <= high,
    ensures
        ({
            let f = planned_fetches(ranges, gap, max_bytes);
            &&& f.len() <= ranges.len()
            &&& forall|k: int|
                0 <= k < f.len() ==> low <= (#[trigger] f[k]).offset && f[k].offset + f[k].len
                    <= high
            &&& fetch_total(f) <= (high - low) * f.len()
        }),
{
    let order = offset_order(ranges, ranges.len());
    lemma_offset_order(ranges, ranges.len());
    lemma_merged_shape(ranges, order, gap, cap_of(max_bytes), order.len());
    lemma_extent(ranges, order, gap, cap_of(max_bytes), order.len(), low, high);
    lemma_extent_total(planned_fetches(ranges, gap, max_bytes), low, high);
}

/// The range `k` starts the fetch `g`, and it could not have been merged into the fetch
/// `f`: it is farther off than `gap`, or the fetch would have grown past `cap`.
pub open spec fn parted(
    ranges: Seq<(u64, u64)>,
    f: MergedFetch,
    g: MergedFetch,
    gap: u64,
    cap: int,
    k: int,
) -> bool {
    &&& 0 <= k < ranges.len()
    &&& ranges[k].1 > 0
    &&& ranges[k].0 == g.offset
    &&& ranges[k].0 > f.offset + f.len + gap || (ranges[k].0 + ranges[k].1 - f.offset > cap
        && ranges[k].0 + ranges[k].1 - f.offset > f.len)
}

/// Some range starts the fetch `g` that could not have been merged into the fetch `f`.
pub open spec fn apart(
    ranges: Seq<(u64, u64)>,
    f: MergedFetch,
    g: MergedFetch,
    gap: u64,
    cap: int,
) -> bool {
    exists|k: int| parted(ranges, f, g, gap, cap, k)
}

proof fn lemma_parted(ranges: Seq<(u64, u64)>, order: Seq<usize>, gap: u64, cap: int, j: nat)
    requires
        ordered(ranges, order, ranges.len()),
        in_bounds(ranges),
        j <= order.len(),
    ensures
        ({
            let f = merged(ranges, order, gap, cap, j);
            forall|i: int|
                0 <= i < f.len() - 1 ==> apart(ranges, #[trigger] f[i], f[i + 1], gap, cap)
        }),
    decreases j,
{
    if j > 0 {
        lemma_parted(ranges, order, gap, cap, (j - 1) as nat);
        lemma_merged_shape(ranges, order, gap, cap, (j - 1) as nat);
        let g = merged(ranges, order, gap, cap, (j - 1) as nat);
        let f = merged(ranges, order, gap, cap, j);
        let x = order[j - 1] as int;
        assert(order[j - 1] < ranges.len() && ranges[x].1 > 0);
        assert forall|i: int| 0 <= i < f.len() - 1 implies apart(
            ranges,
            #[trigger] f[i],
            f[i + 1],
            gap,
            cap,
        ) by {
            if i < g.len() - 1 {
                assert(apart(ranges, g[i], g[i + 1], gap, cap));
                let (a, b) = (g[i], g[i + 1]);
                let k = choose|k: int| parted(ranges, a, b, gap, cap, k);
                assert(g[i] == f[i]);
                assert(f[i + 1].offset == g[i + 1].offset);
                assert(parted(ranges, f[i], f[i + 1], gap, cap, k));
            } else {
                assert(f[i] == g.last());
                assert(parted(ranges, f[i], f[i + 1], gap, cap, x));
            }
        }
    }
}

/// Neighbouring ranges are merged wherever that is allowed: each fetch but the first one
/// starts with a range that lies farther than `gap` behind the fetch before it, or that
/// would have made that fetch longer than `max_bytes`.
pub proof fn law_what_can_be_merged_is_merged(
    ranges: &[(u64, u64)],
    gap: u64,
    max_bytes: u64,
    p: CoalescePlan,
    i: int,
)
    requires
        call_ensures(plan, (ranges, gap, max_bytes), p),
        in_bounds(ranges@),
        ranges@.len() <= usize::MAX,
        0 <= i < p.fetches@.len() - 1,
    ensures
        ({
            let f = p.fetches@[i];
            let g = p.fetches@[i + 1];
            exists|k: int|
                0 <= k < ranges@.len() && (#[trigger] ranges@[k]).0 == g.offset && ranges@[k].1 > 0
                    && (ranges@[k].0 > f.offset + f.len + gap || (ranges@[k].0 + ranges@[k].1
                    - f.offset > max_bytes && ranges@[k].0 + ranges@[k].1 - f.offset > f.len))
        }),
{
    let order = offset_order(ranges@, ranges@.len());
    lemma_offset_order(ranges@, ranges@.len());
    lemma_parted(ranges@, order, gap, cap_of(max_bytes), order.len());
    let f = p.fetches@[i];
    let g = p.fetches@[i + 1];
    assert(apart(ranges@, f, g, gap, cap_of(max_bytes)));
    let k = choose|k: int| parted(ranges@, f, g, gap, cap_of(max_bytes), k);
    assert(parted(ranges@, f, g, gap, cap_of(max_bytes), k));
    assert(ranges@[k].0 == g.offset);
}

/// Each range is found, whole, at its place in the fetch that its slice names, and an
/// empty range in none.
pub proof fn law_ranges_are_found_in_the_fetches(
    ranges: &[(u64, u64)],
    gap: u64,
    max_bytes: u64,
    p: CoalescePlan,
    i: int,
)
    requires
        call_ensures(plan, (ranges, gap, max_bytes), p),
        plannable(ranges@, gap, max_bytes),
        0 <= i < ranges@.len(),
    ensures
        p.slices@.len() == ranges@.len(),
        p.slices@[i].len == ranges@[i].1,
        ranges@[i].1 == 0 ==> p.slices@[i].fetch_index == usize::MAX,
        ranges@[i].1 > 0 ==> p.slices@[i].fetch_index < p.fetches@.len() && p.fetches@[
        p.slices@[i].fetch_index as int].offset + p.slices@[i].offset_in_fetch == ranges@[i].0
            && p.slices@[i].offset_in_fetch + ranges@[i].1 <= p.fetches@[
        p.slices@[i].fetch_index as int].len,
{
    if ranges@[i].1 > 0 {
        lemma_slice_lies_in_fetch(p, ranges@, gap, max_bytes, i);
    }
}

/// A range alone is fetched as it is. Of two, the second is merged into the fetch of the
/// first exactly if it starts at most `gap` behind its end and both together, or the first
/// one alone, are as long as the fetch may become.
pub proof fn law_one_range_and_two(
    ranges: &[(u64, u64)],
    gap: u64,
    max_bytes: u64,
    p: CoalescePlan,
    wasted: u64,
)
    requires
        call_ensures(plan, (ranges, gap, max_bytes), p),
        call_ensures(CoalescePlan::wasted_bytes, (&p,), wasted),
        in_bounds(ranges@),
        forall|i: int| 0 <= i < ranges@.len() ==> (#[trigger] ranges@[i]).1 > 0,
    ensures
        ranges@.len() == 0 ==> p.fetches@.len() == 0 && p.total_input_bytes == 0,
        ranges@.len() == 1 ==> p.fetches@ == seq![
            MergedFetch { offset: ranges@[0].0, len: ranges@[0].1 },
        ] && p.total_input_bytes == ranges@[0].1 && wasted == 0,
        ranges@.len() == 2 && ranges@[0].0 <= ranges@[1].0 ==> {
            let (a, b) = (ranges@[0], ranges@[1]);
            let end = if a.0 + a.1 >= b.0 + b.1 {
                a.0 + a.1
            } else {
                b.0 + b.1
            };
            &&& p.total_input_bytes == a.1 + b.1
            &&& (p.fetches@.len() == 1) == (b.0 <= a.0 + a.1 + gap && (end - a.0 <= max_bytes
                || end - a.0 == a.1))
            &&& p.fetches@.len() == 1 ==> p.fetches@[0].offset == a.0 && p.fetches@[0].len == end
                - a.0 && p.total_fetch_bytes == end - a.0 && (end - a.0 >= a.1 + b.1 ==> wasted
                == end - a.0 - a.1 - b.1)
            &&& p.fetches@.len() != 1 ==> p.fetches@ == seq![
                MergedFetch { offset: a.0, len: a.1 },
                MergedFetch { offset: b.0, len: b.1 },
            ] && wasted == 0
        },
{
    reveal_with_fuel(offset_order, 3);
    reveal_with_fuel(merged, 3);
    reveal_with_fuel(input_total, 3);
    reveal_with_fuel(fetch_total, 3);
    let order = offset_order(ranges@, ranges@.len());
    if ranges@.len() == 0 {
        assert(order =~= Seq::<usize>::empty());
    } else if ranges@.len() == 1 {
        assert(order =~= seq![0usize]);
        let one = MergedFetch { offset: ranges@[0].0, len: ranges@[0].1 };
        assert(p.fetches@ =~= seq![one]);
        assert(p.fetches@.drop_last() =~= Seq::<MergedFetch>::empty());
    } else if ranges@.len() == 2 && ranges@[0].0 <= ranges@[1].0 {
        assert(order =~= seq![0usize, 1usize]);
        let (a, b) = (ranges@[0], ranges@[1]);
        let one = MergedFetch { offset: a.0, len: a.1 };
        assert(a.0 + a.1 <= u64::MAX && b.0 + b.1 <= u64::MAX);
        assert(merged(ranges@, order, gap, cap_of(max_bytes), 1) =~= seq![one]);
        assert(seq![one].drop_last() =~= Seq::<MergedFetch>::empty());
        let f = p.fetches@;
        assert(f == absorb(seq![one], b.0, b.1, gap, cap_of(max_bytes)));
        if f.len() == 1 {
            assert(f.drop_last() =~= Seq::<MergedFetch>::empty());
        } else {
            assert(f =~= seq![one, MergedFetch { offset: b.0, len: b.1 }]);
            assert(f.drop_last() =~= seq![one]);
        }
    }
}

} // verus!
