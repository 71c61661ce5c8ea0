//! Plans that merge neighbouring ranges.

use goosefs_sdk::io::range_coalesce::{plan, MergedFetch, NO_FETCH};
use std::collections::hash_map::DefaultHasher;
use std::hash::{Hash, Hasher};

#[test]
fn empty_input_produces_empty_plan() {
    let p = plan(&[], 64 * 1024, 4 * 1024 * 1024);
    assert!(p.fetches.is_empty());
    assert!(p.slices.is_empty());
    assert_eq!(p.total_input_bytes, 0);
    assert_eq!(p.total_fetch_bytes, 0);
    assert_eq!(p.wasted_bytes(), 0);
}

#[test]
fn all_zero_len_inputs_produce_no_fetches_but_preserve_slots() {
    let p = plan(&[(0, 0), (100, 0), (7, 0)], 64 * 1024, 4 * 1024 * 1024);
    assert!(p.fetches.is_empty());
    assert_eq!(p.slices.len(), 3);
    for s in &p.slices {
        assert_eq!(s.fetch_index, NO_FETCH);
        assert_eq!(s.len, 0);
    }
}

#[test]
fn zero_len_mixed_with_real_ranges_preserves_order_and_indices() {
    let inputs = &[(100, 0), (200, 10), (0, 0), (500, 20)];
    let p = plan(inputs, 0, 1024);
    assert_eq!(p.slices.len(), 4);
    assert_eq!(p.slices[0].fetch_index, NO_FETCH);
    assert_eq!(p.slices[0].len, 0);
    assert_eq!(p.slices[2].fetch_index, NO_FETCH);
    assert_eq!(p.slices[2].len, 0);
    assert_eq!(p.fetches.len(), 2);
    assert_eq!(p.slices[1].len, 10);
    assert_eq!(p.slices[3].len, 20);
}

#[test]
fn adjacent_ranges_merge_when_gap_permits() {
    let p = plan(&[(0, 10), (10, 10)], 0, 1024);
    assert_eq!(p.fetches.len(), 1);
    assert_eq!(p.fetches[0], MergedFetch { offset: 0, len: 20 });
    assert_eq!(p.slices[0].offset_in_fetch, 0);
    assert_eq!(p.slices[1].offset_in_fetch, 10);
    assert_eq!(p.wasted_bytes(), 0);
}

#[test]
fn ranges_within_gap_merge() {
    let p = plan(&[(0, 10), (15, 10)], 8, 1024);
    assert_eq!(p.fetches.len(), 1);
    assert_eq!(p.fetches[0], MergedFetch { offset: 0, len: 25 });
    assert_eq!(p.slices[1].offset_in_fetch, 15);
    assert_eq!(p.wasted_bytes(), 5);
}

#[test]
fn ranges_beyond_gap_do_not_merge() {
    let p = plan(&[(0, 10), (20, 10)], 4, 1024);
    assert_eq!(p.fetches.len(), 2);
    assert_eq!(p.wasted_bytes(), 0);
}

#[test]
fn overlapping_ranges_merge_and_map_correctly() {
    let p = plan(&[(0, 20), (10, 15)], 0, 1024);
    assert_eq!(p.fetches.len(), 1);
    assert_eq!(p.fetches[0], MergedFetch { offset: 0, len: 25 });
    assert_eq!(p.slices[0].offset_in_fetch, 0);
    assert_eq!(p.slices[0].len, 20);
    assert_eq!(p.slices[1].offset_in_fetch, 10);
    assert_eq!(p.slices[1].len, 15);
}

#[test]
fn max_bytes_cap_forces_split_even_when_gap_permits() {
    let p = plan(&[(0, 100), (100, 100)], 1024, 100);
    assert_eq!(p.fetches.len(), 2);
    assert_eq!(p.fetches[0].len, 100);
    assert_eq!(
        p.fetches[1],
        MergedFetch {
            offset: 100,
            len: 100
        }
    );
}

#[test]
fn max_bytes_zero_is_clamped_to_one() {
    let p = plan(&[(0, 5), (10, 5)], 1024, 0);
    assert_eq!(p.fetches.len(), 2);
}

#[test]
fn cap_larger_than_gap_still_respects_gap() {
    let p = plan(&[(0, 10), (1000, 10)], 100, 1_000_000);
    assert_eq!(p.fetches.len(), 2);
}

#[test]
fn caller_order_is_preserved_across_reorders() {
    let inputs = &[(200, 10), (0, 20), (100, 5)];
    let p = plan(inputs, 0, 4096);
    assert_eq!(p.fetches.len(), 3);
    for (i, &(_, l)) in inputs.iter().enumerate() {
        assert_eq!(p.slices[i].len as u64, l);
    }
    let s0 = p.slices[0];
    assert_eq!(p.fetches[s0.fetch_index].offset, 200);
    assert_eq!(s0.offset_in_fetch, 0);
    let s1 = p.slices[1];
    assert_eq!(p.fetches[s1.fetch_index].offset, 0);
    assert_eq!(s1.offset_in_fetch, 0);
}

#[test]
fn slice_mapping_is_byte_equivalent_on_random_inputs() {
    fn simulated_byte(off: u64) -> u8 {
        let mut h = DefaultHasher::new();
        off.hash(&mut h);
        (h.finish() & 0xff) as u8
    }
    fn read_range(off: u64, len: u64) -> Vec<u8> {
        (0..len).map(|i| simulated_byte(off + i)).collect()
    }

    let cases: &[Vec<(u64, u64)>] = &[
        vec![(0, 0)],
        vec![(0, 10), (10, 10), (30, 5)],
        vec![(100, 50), (0, 20), (200, 10), (155, 5)],
        vec![(0, 1), (2, 1), (4, 1), (6, 1), (8, 1)],
        vec![(0, 1000), (500, 10)],
        vec![(0, 100), (100, 100), (200, 100), (300, 100)],
    ];

    for gap in [0u64, 1, 4, 64, 4096] {
        for max_bytes in [1u64, 8, 128, 4096, u64::MAX] {
            for input in cases {
                let p = plan(input, gap, max_bytes);
                let fetch_bufs: Vec<Vec<u8>> = p
                    .fetches
                    .iter()
                    .map(|f| read_range(f.offset, f.len))
                    .collect();
                for (i, &(off, len)) in input.iter().enumerate() {
                    let expected = read_range(off, len);
                    let s = p.slices[i];
                    let got: Vec<u8> = if s.fetch_index == NO_FETCH {
                        assert_eq!(len, 0, "NO_FETCH must only be used for empty ranges");
                        Vec::new()
                    } else {
                        let buf = &fetch_bufs[s.fetch_index];
                        buf[s.offset_in_fetch..s.offset_in_fetch + s.len].to_vec()
                    };
                    assert_eq!(
                        got, expected,
                        "byte mismatch at input #{i} = ({off},{len}), gap={gap}, cap={max_bytes}"
                    );
                }
                let cap = max_bytes.max(1);
                let mut per_fetch_max_input: Vec<u64> = vec![0; p.fetches.len()];
                for (i, &(_, l)) in input.iter().enumerate() {
                    let s = p.slices[i];
                    if s.fetch_index != NO_FETCH {
                        per_fetch_max_input[s.fetch_index] =
                            per_fetch_max_input[s.fetch_index].max(l);
                    }
                }
                for (fi, f) in p.fetches.iter().enumerate() {
                    let allowed = cap.max(per_fetch_max_input[fi]);
                    assert!(
                        f.len <= allowed,
                        "fetch {:?} exceeds cap-or-largest-input {}",
                        f,
                        allowed
                    );
                }
            }
        }
    }
}

#[test]
fn fetches_ascend_and_stay_within_the_ranges() {
    let p = plan(&[(50, 10), (0, 10), (12, 4), (200, 1)], 2, 1000);
    assert_eq!(p.total_input_bytes, 25);
    assert_eq!(p.total_fetch_bytes, 27);
    assert_eq!(p.wasted_bytes(), 2);
    let starts: Vec<u64> = p.fetches.iter().map(|f| f.offset).collect();
    assert_eq!(starts, vec![0, 50, 200]);
    assert_eq!(p.fetches[0], MergedFetch { offset: 0, len: 16 });
    assert_eq!(p.fetches[2].offset + p.fetches[2].len, 201);
}

#[test]
fn overlap_is_fetched_once() {
    let p = plan(&[(0, 20), (10, 5)], 0, 1000);
    assert_eq!(p.total_input_bytes, 25);
    assert_eq!(p.total_fetch_bytes, 20);
    assert_eq!(p.wasted_bytes(), 0);
}
