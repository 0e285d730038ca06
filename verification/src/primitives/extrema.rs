//! Windowed maximum and minimum over a series of ordered keys: what they are, and
//! the batch computation that folds each window afresh.
//!
//! Keys are `i64`. A caller whose values are not integers maps them to keys by an
//! order-preserving injection and maps the result back.

use vstd::prelude::*;
use crate::types::{invalid_parameter, IndicatorResult};

verus! {

/// The greatest key of a non-empty sequence (`i64::MIN` for the empty one).
pub open spec fn window_max(keys: Seq<i64>) -> i64
    decreases keys.len(),
{
    if keys.len() == 0 {
        i64::MIN
    } else {
        let rest = window_max(keys.drop_last());
        if keys.last() > rest {
            keys.last()
        } else {
            rest
        }
    }
}

/// The least key of a non-empty sequence (`i64::MAX` for the empty one).
pub open spec fn window_min(keys: Seq<i64>) -> i64
    decreases keys.len(),
{
    if keys.len() == 0 {
        i64::MAX
    } else {
        let rest = window_min(keys.drop_last());
        if keys.last() < rest {
            keys.last()
        } else {
            rest
        }
    }
}

/// The maximum of the `period` keys ending at position `i`, absent while fewer than
/// `period` keys precede position `i + 1`.
pub open spec fn rolling_max_at(keys: Seq<i64>, period: nat, i: int) -> Option<i64> {
    if 0 <= i < keys.len() && i + 1 >= period {
        Some(window_max(keys.subrange(i + 1 - period, i + 1)))
    } else {
        None
    }
}

/// The minimum of the `period` keys ending at position `i`, absent while fewer than
/// `period` keys precede position `i + 1`.
pub open spec fn rolling_min_at(keys: Seq<i64>, period: nat, i: int) -> Option<i64> {
    if 0 <= i < keys.len() && i + 1 >= period {
        Some(window_min(keys.subrange(i + 1 - period, i + 1)))
    } else {
        None
    }
}

/// `window_max` of a non-empty sequence is one of its keys and bounds them all.
pub proof fn lemma_window_max_is_greatest(keys: Seq<i64>)
    requires
        keys.len() > 0,
    ensures
        keys.contains(window_max(keys)),
        forall|i: int| 0 <= i < keys.len() ==> keys[i] <= window_max(keys),
    decreases keys.len(),
{
    let rest = keys.drop_last();
    if rest.len() == 0 {
        assert(keys[keys.len() - 1] == window_max(keys));
    } else {
        lemma_window_max_is_greatest(rest);
        let m = window_max(rest);
        let j = choose|j: int| 0 <= j < rest.len() && rest[j] == m;
        assert(keys[j] == m);
        assert(keys[keys.len() - 1] == keys.last());
        assert forall|i: int| 0 <= i < keys.len() implies keys[i] <= window_max(keys) by {
            if i < rest.len() {
                assert(rest[i] == keys[i]);
            }
        }
    }
}

/// A key of the sequence that bounds all the others is its `window_max`.
pub proof fn lemma_window_max_unique(keys: Seq<i64>, m: i64)
    requires
        keys.contains(m),
        forall|i: int| 0 <= i < keys.len() ==> keys[i] <= m,
    ensures
        m == window_max(keys),
{
    lemma_window_max_is_greatest(keys);
    let j = choose|j: int| 0 <= j < keys.len() && keys[j] == window_max(keys);
    let k = choose|k: int| 0 <= k < keys.len() && keys[k] == m;
    assert(keys[j] <= m);
    assert(keys[k] <= window_max(keys));
}

/// `window_min` of a non-empty sequence is one of its keys and bounds them all.
pub proof fn lemma_window_min_is_least(keys: Seq<i64>)
    requires
        keys.len() > 0,
    ensures
        keys.contains(window_min(keys)),
        forall|i: int| 0 <= i < keys.len() ==> keys[i] >= window_min(keys),
    decreases keys.len(),
{
    let rest = keys.drop_last();
    if rest.len() == 0 {
        assert(keys[keys.len() - 1] == window_min(keys));
    } else {
        lemma_window_min_is_least(rest);
        let m = window_min(rest);
        let j = choose|j: int| 0 <= j < rest.len() && rest[j] == m;
        assert(keys[j] == m);
        assert(keys[keys.len() - 1] == keys.last());
        assert forall|i: int| 0 <= i < keys.len() implies keys[i] >= window_min(keys) by {
            if i < rest.len() {
                assert(rest[i] == keys[i]);
            }
        }
    }
}

/// A key of the sequence that is below all the others is its `window_min`.
pub proof fn lemma_window_min_unique(keys: Seq<i64>, m: i64)
    requires
        keys.contains(m),
        forall|i: int| 0 <= i < keys.len() ==> keys[i] >= m,
    ensures
        m == window_min(keys),
{
    lemma_window_min_is_least(keys);
    let j = choose|j: int| 0 <= j < keys.len() && keys[j] == window_min(keys);
    let k = choose|k: int| 0 <= k < keys.len() && keys[k] == m;
    assert(keys[j] >= m);
    assert(keys[k] >= window_min(keys));
}

/// The value at a position depends only on the keys up to that position: a stream,
/// which has seen no more, computes what a batch call computes there.
pub proof fn lemma_rolling_max_is_causal(keys: Seq<i64>, period: nat, i: int)
    requires
        0 <= i < keys.len(),
        period >= 1,
    ensures
        rolling_max_at(keys.subrange(0, i + 1), period, i) == rolling_max_at(keys, period, i),
{
    if i + 1 >= period {
        assert(keys.subrange(0, i + 1).subrange(i + 1 - period, i + 1) =~= keys.subrange(
            i + 1 - period,
            i + 1,
        ));
    }
}

/// The value at a position depends only on the keys up to that position.
pub proof fn lemma_rolling_min_is_causal(keys: Seq<i64>, period: nat, i: int)
    requires
        0 <= i < keys.len(),
        period >= 1,
    ensures
        rolling_min_at(keys.subrange(0, i + 1), period, i) == rolling_min_at(keys, period, i),
{
    if i + 1 >= period {
        assert(keys.subrange(0, i + 1).subrange(i + 1 - period, i + 1) =~= keys.subrange(
            i + 1 - period,
            i + 1,
        ));
    }
}

/// Batch windowed maximum: position `i` holds the maximum of the `period` keys
/// ending there, `None` inside the warm-up. A zero period is rejected.
pub fn window_maxima(keys: &[i64], period: usize) -> (r: IndicatorResult<Vec<Option<i64>>>)
    ensures
        period == 0 ==> r is Err && r->Err_0.is_invalid("period must be greater than 0"@),
        period > 0 ==> r is Ok && r->Ok_0@.len() == keys@.len() && forall|i: int|
            0 <= i < keys@.len() ==> #[trigger] r->Ok_0@[i] == rolling_max_at(
                keys@,
                period as nat,
                i,
            ),
{
    if period == 0 {
        return Err(invalid_parameter("period must be greater than 0"));
    }
    let len = keys.len();
    let mut result: Vec<Option<i64>> = Vec::new();
    let mut i: usize = 0;
    while i < len
        invariant
            len == keys@.len(),
            period >= 1,
            i <= len,
            result@.len() == i,
            forall|j: int|
                0 <= j < i ==> #[trigger] result@[j] == rolling_max_at(keys@, period as nat, j),
        decreases len - i,
    {
        if i >= period - 1 {
            let start = i - (period - 1);
            let mut best = i64::MIN;
            let mut j: usize = start;
            while j <= i
                invariant
                    start <= j <= i + 1,
                    i < keys@.len(),
                    best == window_max(keys@.subrange(start as int, j as int)),
                decreases i + 1 - j,
            {
                proof {
                    assert(keys@.subrange(start as int, j + 1).drop_last() =~= keys@.subrange(
                        start as int,
                        j as int,
                    ));
                }
                if keys[j] > best {
                    best = keys[j];
                }
                j += 1;
            }
            result.push(Some(best));
        } else {
            result.push(None);
        }
        i += 1;
    }
    Ok(result)
}

/// Batch windowed minimum: position `i` holds the minimum of the `period` keys
/// ending there, `None` inside the warm-up. A zero period is rejected.
pub fn window_minima(keys: &[i64], period: usize) -> (r: IndicatorResult<Vec<Option<i64>>>)
    ensures
        period == 0 ==> r is Err && r->Err_0.is_invalid("period must be greater than 0"@),
        period > 0 ==> r is Ok && r->Ok_0@.len() == keys@.len() && forall|i: int|
            0 <= i < keys@.len() ==> #[trigger] r->Ok_0@[i] == rolling_min_at(
                keys@,
                period as nat,
                i,
            ),
{
    if period == 0 {
        return Err(invalid_parameter("period must be greater than 0"));
    }
    let len = keys.len();
    let mut result: Vec<Option<i64>> = Vec::new();
    let mut i: usize = 0;
    while i < len
        invariant
            len == keys@.len(),
            period >= 1,
            i <= len,
            result@.len() == i,
            forall|j: int|
                0 <= j < i ==> #[trigger] result@[j] == rolling_min_at(keys@, period as nat, j),
        decreases len - i,
    {
        if i >= period - 1 {
            let start = i - (period - 1);
            let mut best = i64::MAX;
            let mut j: usize = start;
            while j <= i
                invariant
                    start <= j <= i + 1,
                    i < keys@.len(),
                    best == window_min(keys@.subrange(start as int, j as int)),
                decreases i + 1 - j,
            {
                proof {
                    assert(keys@.subrange(start as int, j + 1).drop_last() =~= keys@.subrange(
                        start as int,
                        j as int,
                    ));
                }
                if keys[j] < best {
                    best = keys[j];
                }
                j += 1;
            }
            result.push(Some(best));
        } else {
            result.push(None);
        }
        i += 1;
    }
    Ok(result)
}

} // verus!
