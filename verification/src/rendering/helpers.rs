//! Lookups over the chart's candles: the nearest candle in time, and the
//! index range of the candles a viewport shows.

use std::collections::BTreeMap;
use vstd::std_specs::iter::IteratorSpec;
use vstd::prelude::*;

verus! {

/// Whether `key` is the key that [`find_nearest_candle`] picks for `t`:
/// the closest key to `t`, the earlier one on a tie.
pub open spec fn is_nearest_key<V>(m: Map<i64, V>, key: i64, t: i64) -> bool {
    &&& m.contains_key(key)
    &&& forall|k: i64| #[trigger] m.contains_key(k) ==> abs_diff(key, t) <= abs_diff(k, t)
    &&& forall|k: i64| #[trigger] m.contains_key(k) && abs_diff(k, t) == abs_diff(key, t) ==> key <= k
}

/// `|a - b|`.
pub open spec fn abs_diff(a: i64, b: i64) -> nat {
    if a >= b {
        (a - b) as nat
    } else {
        (b - a) as nat
    }
}

/// The candle closest in time to `target_time`; on a tie the earlier one;
/// `None` for an empty map.
pub fn find_nearest_candle<'a, V>(candles: &'a BTreeMap<i64, V>, target_time: i64) -> (nearest:
    Option<(&'a i64, &'a V)>)
    ensures
        candles@.dom().len() == 0 <==> nearest is None,
        nearest matches Some((k, v)) ==> is_nearest_key(candles@, *k, target_time)
            && candles@[*k] == *v,
{
    broadcast use vstd::std_specs::btree::group_btree_axioms;
    let mut before: Option<(&'a i64, &'a V)> = None;
    let mut after: Option<(&'a i64, &'a V)> = None;
    for (k, v) in it: candles.iter()
        invariant
            it.seq() == vstd::std_specs::btree::spec_btree_map_iter(candles).remaining(),
            it.seq().len() == candles@.dom().len(),
            it.index() > 0 ==> (before is Some || after is Some),
            before matches Some((bk, bv)) ==> candles@.contains_key(*bk) && candles@[*bk] == *bv && *bk <= target_time,
            after matches Some((ak, av)) ==> candles@.contains_key(*ak) && candles@[*ak] == *av && *ak >= target_time,
            forall|j: int| 0 <= j < it.index() && *it.seq()[j].0 <= target_time ==> (before matches Some((bk, bv)) && *it.seq()[j].0 <= *bk),
            forall|j: int| 0 <= j < it.index() && *it.seq()[j].0 >= target_time ==> (after matches Some((ak, av)) && *it.seq()[j].0 >= *ak),
    {
        if *k <= target_time {
            let better = match before {
                None => true,
                Some((bk, _)) => *k > *bk,
            };
            if better {
                before = Some((k, v));
            }
        }
        if *k >= target_time {
            let better = match after {
                None => true,
                Some((ak, _)) => *k < *ak,
            };
            if better {
                after = Some((k, v));
            }
        }
    }
    match (before, after) {
        (Some((t1, c1)), Some((t2, c2))) => {
            if (target_time as i128) - (*t1 as i128) <= (*t2 as i128) - (target_time as i128) {
                Some((t1, c1))
            } else {
                Some((t2, c2))
            }
        },
        (Some(entry), None) => Some(entry),
        (None, Some(entry)) => Some(entry),
        (None, None) => None,
    }
}

/// The candle indices `start..end` a viewport starting at candle `start`
/// and `count` candles wide shows out of `len` candles: `end` is
/// `min(start + count, len)`, and there is nothing to show (`None`) when
/// the range is empty.
pub fn visible_range(start: usize, count: usize, len: usize) -> (range: Option<(usize, usize)>)
    requires
        start + count <= usize::MAX,
    ensures
        ({
            let end = if start + count <= len { start + count } else { len as int };
            &&& range is None <==> start >= end
            &&& range matches Some((s, e)) ==> s == start && e == end
        }),
{
    let sum = start + count;
    let end = if sum <= len { sum } else { len };
    if start >= end {
        None
    } else {
        Some((start, end))
    }
}

} // verus!
