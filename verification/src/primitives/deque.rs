//! Streaming windowed maximum and minimum by monotonic deques.
//!
//! A deque of `(index, key)` pairs holds, front to back, the keys of the window
//! that no later key bounds. A new key first drops from the back every key it
//! bounds, then enters at the back; the front entry leaves once its index falls out
//! of the window. The front is the window's maximum, and every key enters and leaves
//! at most once. The insertion index only grows: it is never wrapped.

use vstd::prelude::*;
use std::collections::VecDeque;
use crate::primitives::extrema::{
    lemma_rolling_max_is_causal, lemma_rolling_min_is_causal, lemma_window_max_is_greatest,
    lemma_window_max_unique, lemma_window_min_is_least, rolling_max_at, rolling_min_at,
    window_max, window_min,
};
use crate::types::{invalid_parameter, IndicatorResult};

verus! {

/// First index of the window of `period` keys that ends just before `count`.
pub open spec fn window_start(count: int, period: int) -> int {
    if count > period {
        count - period
    } else {
        0
    }
}

/// Index below every key that entry `k` of the deque answers for: the entry before
/// it, or the position just outside the window for the front entry.
spec fn guard(deque: Seq<(int, i64)>, start: int, k: int) -> int {
    if k == 0 {
        start - 1
    } else {
        deque[k - 1].0
    }
}

/// The deque invariant for the window `history[start..]`, over entries that carry
/// their index into the whole history: entries name keys of the window by
/// increasing index, the newest key is the back entry, and each entry bounds every
/// key after its guard.
#[verifier::opaque]
spec fn tracks(deque: Seq<(int, i64)>, history: Seq<i64>, start: int) -> bool {
    let n = history.len() as int;
    &&& 0 <= start <= n
    &&& start < n ==> deque.len() > 0 && deque.last().0 == n - 1
    &&& forall|k: int|
        0 <= k < deque.len() ==> start <= (#[trigger] deque[k]).0 < n && deque[k].1
            == history[deque[k].0]
    &&& forall|k: int|
        0 <= k < deque.len() - 1 ==> (#[trigger] deque[k]).0 < deque[k + 1].0
    &&& forall|k: int, j: int|
        0 <= k < deque.len() && guard(deque, start, k) < j < n ==> #[trigger] history[j]
            <= (#[trigger] deque[k]).1
}

/// The entries of the deque with their indices counted from the start of the
/// history: the deque itself counts from `base`, so that its indices fit the
/// machine however long the history grows.
spec fn absolute(deque: Seq<(usize, i64)>, base: nat) -> Seq<(int, i64)> {
    Seq::new(deque.len(), |k: int| (deque[k].0 + base, deque[k].1))
}

/// Every entry names a key of the window.
proof fn lemma_entry_in_window(deque: Seq<(int, i64)>, history: Seq<i64>, start: int, k: int)
    requires
        tracks(deque, history, start),
        0 <= k < deque.len(),
    ensures
        start <= deque[k].0 < history.len(),
{
    reveal(tracks);
}

/// The empty deque tracks the empty history.
proof fn lemma_tracks_empty()
    ensures
        tracks(Seq::empty(), Seq::empty(), 0),
{
    reveal(tracks);
}

/// Nothing lies behind the back entry.
proof fn lemma_back_is_newest(deque: Seq<(int, i64)>, history: Seq<i64>, start: int)
    requires
        tracks(deque, history, start),
    ensures
        guard(deque, start, deque.len() as int) >= history.len() - 1,
{
    reveal(tracks);
}

/// Everything behind a back entry that `key` bounds is bounded by `key` too.
proof fn lemma_pop_back(deque: Seq<(int, i64)>, history: Seq<i64>, start: int, m: int, key: i64)
    requires
        tracks(deque, history, start),
        0 <= m < deque.len(),
        deque[m].1 <= key,
        forall|j: int| guard(deque, start, m + 1) < j < history.len() ==> history[j] <= key,
    ensures
        forall|j: int| guard(deque, start, m) < j < history.len() ==> history[j] <= key,
{
    reveal(tracks);
    assert forall|j: int| guard(deque, start, m) < j < history.len() implies history[j] <= key by {
        assert(history[j] <= deque[m].1);
    }
}

/// Entries are ordered by key as well: an earlier entry bounds a later one.
proof fn lemma_entries_descend(
    deque: Seq<(int, i64)>,
    history: Seq<i64>,
    start: int,
    k: int,
    m: int,
)
    requires
        tracks(deque, history, start),
        0 <= k <= m < deque.len(),
    ensures
        deque[m].1 <= deque[k].1,
        deque[k].0 <= deque[m].0,
    decreases m - k,
{
    reveal(tracks);
    if k < m {
        lemma_entries_descend(deque, history, start, k + 1, m);
        assert(deque[k].0 < deque[k + 1].0);
        assert(history[deque[m].0] <= deque[k].1);
    }
}

/// Dropping the back entries that `key` bounds and appending `key` keeps the deque
/// invariant for the longer history.
proof fn lemma_push(deque: Seq<(int, i64)>, history: Seq<i64>, start: int, m: int, key: i64)
    requires
        tracks(deque, history, start),
        0 <= m <= deque.len(),
        m > 0 ==> deque[m - 1].1 > key,
        forall|j: int| guard(deque, start, m) < j < history.len() ==> history[j] <= key,
    ensures
        tracks(
            deque.subrange(0, m).push((history.len() as int, key)),
            history.push(key),
            start,
        ),
{
    reveal(tracks);
    let n = history.len() as int;
    let d1 = deque.subrange(0, m).push((n, key));
    let h1 = history.push(key);
    assert(d1.last() == (n, key));
    assert forall|k: int| 0 <= k < d1.len() implies start <= (#[trigger] d1[k]).0 < n + 1 && d1[k].1
        == h1[d1[k].0] by {
        if k < m {
            assert(d1[k] == deque[k]);
        }
    }
    assert forall|k: int| 0 <= k < d1.len() - 1 implies (#[trigger] d1[k]).0 < d1[k + 1].0 by {
        assert(d1[k] == deque[k]);
        if k + 1 < m {
            assert(d1[k + 1] == deque[k + 1]);
        }
    }
    assert forall|k: int, j: int|
        0 <= k < d1.len() && guard(d1, start, k) < j < n + 1 implies #[trigger] h1[j] <= (
        #[trigger] d1[k]).1 by {
        if k > 0 {
            assert(d1[k - 1] == deque[k - 1]);
        }
        if k < m {
            assert(d1[k] == deque[k]);
            if j < n {
                assert(history[j] <= deque[k].1);
            } else {
                lemma_entries_descend(deque, history, start, k, m - 1);
            }
        }
    }
}

/// Once the front entry's key has left the window, the rest of the deque keeps the
/// invariant for the window that starts one later.
proof fn lemma_evict_front(deque: Seq<(int, i64)>, history: Seq<i64>, start: int)
    requires
        tracks(deque, history, start),
        start + 1 < history.len(),
        deque.len() > 0,
        deque[0].0 < start + 1,
    ensures
        deque.len() > 1,
        tracks(deque.subrange(1, deque.len() as int), history, start + 1),
{
    reveal(tracks);
    let n = history.len() as int;
    let d2 = deque.subrange(1, deque.len() as int);
    assert(deque.last().0 == n - 1);
    assert(deque.len() > 1);
    assert(d2.last() == deque.last());
    assert forall|k: int| 0 <= k < d2.len() implies start + 1 <= (#[trigger] d2[k]).0 < n && d2[k].1
        == history[d2[k].0] by {
        assert(d2[k] == deque[k + 1]);
        lemma_entries_descend(deque, history, start, 1, k + 1);
        assert(deque[0].0 < deque[1].0);
    }
    assert forall|k: int| 0 <= k < d2.len() - 1 implies (#[trigger] d2[k]).0 < d2[k + 1].0 by {
        assert(d2[k] == deque[k + 1]);
        assert(d2[k + 1] == deque[k + 2]);
        assert(deque[k + 1].0 < deque[k + 2].0);
    }
    assert forall|k: int, j: int|
        0 <= k < d2.len() && guard(d2, start + 1, k) < j < n implies #[trigger] history[j] <= (
        #[trigger] d2[k]).1 by {
        assert(d2[k] == deque[k + 1]);
        if k > 0 {
            assert(d2[k - 1] == deque[k]);
        }
        assert(history[j] <= deque[k + 1].1);
    }
}

/// A deque whose front entry is still inside the narrower window keeps the
/// invariant for it.
proof fn lemma_keep_front(deque: Seq<(int, i64)>, history: Seq<i64>, start: int)
    requires
        tracks(deque, history, start),
        start + 1 <= history.len(),
        deque.len() > 0 ==> deque[0].0 >= start + 1,
    ensures
        tracks(deque, history, start + 1),
{
    reveal(tracks);
    let n = history.len() as int;
    assert forall|k: int| 0 <= k < deque.len() implies start + 1 <= (#[trigger] deque[k]).0 < n
        && deque[k].1 == history[deque[k].0] by {
        lemma_entries_descend(deque, history, start, 0, k);
    }
    assert forall|k: int, j: int|
        0 <= k < deque.len() && guard(deque, start + 1, k) < j < n implies #[trigger] history[j]
        <= (#[trigger] deque[k]).1 by {
        assert(history[j] <= deque[k].1);
    }
}

/// The front entry carries the maximum of the window.
proof fn lemma_front_is_max(deque: Seq<(int, i64)>, history: Seq<i64>, start: int)
    requires
        tracks(deque, history, start),
        start < history.len(),
    ensures
        deque.len() > 0,
        deque[0].1 == window_max(history.subrange(start, history.len() as int)),
{
    reveal(tracks);
    let window = history.subrange(start, history.len() as int);
    let front = deque[0];
    assert(window[front.0 - start] == front.1);
    assert forall|i: int| 0 <= i < window.len() implies window[i] <= front.1 by {
        assert(history[i + start] <= deque[0].1);
    }
    lemma_window_max_unique(window, front.1);
}

/// Streaming windowed maximum over the last `period` keys, by a monotonic deque.
pub struct RollingMax {
    period: usize,
    /// Number of keys pushed since position `base` of the history; also the next
    /// insertion index. It only grows between two rebasings, so eviction never
    /// confuses two keys.
    count: usize,
    /// Entries `(index, key)`, the index counted from `base`.
    deque: VecDeque<(usize, i64)>,
    history: Ghost<Seq<i64>>,
    /// Position of the history that index 0 stands for. It moves, to the start of
    /// the window, only when the insertion index has reached `usize::MAX`.
    base: Ghost<nat>,
}

impl RollingMax {
    #[verifier::type_invariant]
    spec fn inv(self) -> bool {
        &&& self.period >= 1
        &&& self.base@ + self.count == self.history@.len()
        &&& self.base@ > 0 ==> self.count >= self.period
        &&& tracks(
            absolute(self.deque@, self.base@),
            self.history@,
            window_start(self.history@.len() as int, self.period as int),
        )
    }

    /// The window length.
    pub closed spec fn spec_period(&self) -> usize {
        self.period
    }

    /// Every key pushed since creation or the last reset, oldest first.
    pub closed spec fn history(&self) -> Seq<i64> {
        self.history@
    }

    /// A fresh stream for a period already known to be positive.
    pub(crate) fn starting(period: usize) -> (s: Self)
        requires
            period >= 1,
        ensures
            s.spec_period() == period,
            s.history() == Seq::<i64>::empty(),
    {
        let deque: VecDeque<(usize, i64)> = VecDeque::new();
        proof {
            lemma_tracks_empty();
            assert(absolute(deque@, 0) =~= Seq::<(int, i64)>::empty());
        }
        RollingMax { period, count: 0, deque, history: Ghost(Seq::empty()), base: Ghost(0) }
    }

    /// A fresh stream. A zero period is rejected.
    pub fn new(period: usize) -> (r: IndicatorResult<Self>)
        ensures
            period == 0 ==> r is Err && r->Err_0.is_invalid("period must be greater than 0"@),
            period > 0 ==> r is Ok && r->Ok_0.spec_period() == period && r->Ok_0.history()
                == Seq::<i64>::empty(),
    {
        if period == 0 {
            return Err(invalid_parameter("period must be greater than 0"));
        }
        Ok(Self::starting(period))
    }

    /// The window length.
    #[verifier::when_used_as_spec(spec_period)]
    pub fn period(&self) -> (p: usize)
        ensures
            p == self.spec_period(),
            p >= 1,
    {
        proof {
            use_type_invariant(self);
        }
        self.period
    }

    /// True once a full window has been seen.
    pub fn is_ready(&self) -> (b: bool)
        ensures
            b == (self.history().len() >= self.spec_period()),
    {
        proof {
            use_type_invariant(self);
        }
        self.count >= self.period
    }

    /// The deque with every index lowered by `shift`, for a history counted from
    /// `shift` positions further on.
    fn rebased(deque: &VecDeque<(usize, i64)>, shift: usize, Ghost(base): Ghost<nat>) -> (shifted:
        VecDeque<(usize, i64)>)
        requires
            forall|k: int| 0 <= k < deque@.len() ==> (#[trigger] deque@[k]).0 >= shift,
        ensures
            absolute(shifted@, base + shift as nat) == absolute(deque@, base),
    {
        let mut shifted: VecDeque<(usize, i64)> = VecDeque::new();
        let mut i: usize = 0;
        while i < deque.len()
            invariant
                i <= deque@.len(),
                shifted@.len() == i,
                forall|k: int| 0 <= k < deque@.len() ==> (#[trigger] deque@[k]).0 >= shift,
                forall|k: int|
                    0 <= k < i ==> (#[trigger] shifted@[k]).0 + shift == deque@[k].0
                        && shifted@[k].1 == deque@[k].1,
            decreases deque@.len() - i,
        {
            let entry = deque[i];
            assert(deque@[i as int].0 >= shift);
            shifted.push_back((entry.0 - shift, entry.1));
            i += 1;
        }
        assert(absolute(shifted@, base + shift as nat) =~= absolute(deque@, base));
        shifted
    }

    /// Pushes `key` and returns the maximum of the last `period` keys, `None` while
    /// fewer than `period` keys have been pushed.
    pub fn next(&mut self, key: i64) -> (out: Option<i64>)
        ensures
            final(self).spec_period() == old(self).spec_period(),
            final(self).history() == old(self).history().push(key),
            out == rolling_max_at(
                final(self).history(),
                old(self).spec_period() as nat,
                old(self).history().len() as int,
            ),
    {
        proof {
            use_type_invariant(&*self);
        }
        let period = self.period;
        let index = self.count;
        let ghost h0 = self.history@;
        let ghost base0 = self.base@;
        let ghost a0 = absolute(self.deque@, base0);
        let ghost start0 = window_start(h0.len() as int, period as int);
        proof {
            lemma_back_is_newest(a0, h0, start0);
        }
        let mut work = Self::starting(period);
        core::mem::swap(self, &mut work);
        let mut deque = work.deque;

        // Keys that `key` bounds can never again be a window's maximum.
        while deque.len() > 0 && deque[deque.len() - 1].1 <= key
            invariant
                tracks(a0, h0, start0),
                deque@.len() <= a0.len(),
                absolute(deque@, base0) == a0.subrange(0, deque@.len() as int),
                forall|j: int|
                    guard(a0, start0, deque@.len() as int) < j < h0.len() ==> h0[j] <= key,
            decreases deque@.len(),
        {
            proof {
                let m = deque@.len() as int - 1;
                assert(absolute(deque@, base0)[m] == a0[m]);
                lemma_pop_back(a0, h0, start0, m, key);
            }
            let ghost before = deque@;
            deque.pop_back();
            assert(absolute(deque@, base0) =~= a0.subrange(0, deque@.len() as int)) by {
                assert(forall|k: int|
                    0 <= k < deque@.len() ==> absolute(deque@, base0)[k] == absolute(
                        before,
                        base0,
                    )[k]);
            }
        }
        proof {
            let m = deque@.len() as int;
            if m > 0 {
                assert(absolute(deque@, base0)[m - 1] == a0[m - 1]);
            }
            lemma_push(a0, h0, start0, m, key);
        }
        let ghost kept = deque@;
        deque.push_back((index, key));
        let ghost h1 = h0.push(key);
        let ghost start1 = window_start(h1.len() as int, period as int);
        let ghost a1 = absolute(deque@, base0);
        assert(a1 =~= a0.subrange(0, kept.len() as int).push((h0.len() as int, key))) by {
            assert(forall|k: int|
                0 <= k < kept.len() ==> absolute(deque@, base0)[k] == absolute(kept, base0)[k]);
        }

        // At most one key leaves the window for each key that enters.
        if index >= period {
            if deque[0].0 <= index - period {
                proof {
                    assert(a1[0].0 == deque@[0].0 + base0);
                    lemma_evict_front(a1, h1, start0);
                }
                let ghost before = deque@;
                deque.pop_front();
                assert(absolute(deque@, base0) =~= a1.subrange(1, a1.len() as int)) by {
                    assert(forall|k: int|
                        0 <= k < deque@.len() ==> absolute(deque@, base0)[k] == absolute(
                            before,
                            base0,
                        )[k + 1]);
                }
            } else {
                proof {
                    assert(a1[0].0 == deque@[0].0 + base0);
                    lemma_keep_front(a1, h1, start0);
                }
            }
        }
        let ghost a2 = absolute(deque@, base0);
        assert(tracks(a2, h1, start1));
        let out = if index >= period - 1 {
            proof {
                lemma_front_is_max(a2, h1, start1);
                assert(a2[0].1 == deque@[0].1);
            }
            Some(deque[0].1)
        } else {
            None
        };
        if index < usize::MAX {
            *self = RollingMax {
                period,
                count: index + 1,
                deque,
                history: Ghost(h1),
                base: Ghost(base0),
            };
        } else {
            // The insertion index cannot grow: count from the start of the window.
            let shift = index - period + 1;
            proof {
                assert forall|k: int| 0 <= k < deque@.len() implies (#[trigger] deque@[k]).0
                    >= shift by {
                    lemma_entry_in_window(a2, h1, start1, k);
                    assert(a2[k].0 == deque@[k].0 + base0);
                }
            }
            let shifted = Self::rebased(&deque, shift, Ghost(base0));
            *self = RollingMax {
                period,
                count: period,
                deque: shifted,
                history: Ghost(h1),
                base: Ghost(base0 + shift as nat),
            };
        }
        out
    }

    /// Forgets every key.
    pub fn reset(&mut self)
        ensures
            final(self).spec_period() == old(self).spec_period(),
            final(self).history() == Seq::<i64>::empty(),
    {
        proof {
            use_type_invariant(&*self);
        }
        *self = Self::starting(self.period);
    }

    /// Forgets every key, then pushes `keys` in order; the result is what
    /// [`window_maxima`](crate::primitives::extrema::window_maxima) gives for the
    /// same keys.
    pub fn init(&mut self, keys: &[i64]) -> (outputs: Vec<Option<i64>>)
        ensures
            final(self).spec_period() == old(self).spec_period(),
            final(self).history() == keys@,
            outputs@.len() == keys@.len(),
            forall|i: int|
                0 <= i < keys@.len() ==> #[trigger] outputs@[i] == rolling_max_at(
                    keys@,
                    old(self).spec_period() as nat,
                    i,
                ),
    {
        let window = self.period();
        self.reset();
        let ghost period = window as nat;
        let mut outputs: Vec<Option<i64>> = Vec::new();
        let mut i: usize = 0;
        proof {
            assert(keys@.subrange(0, 0) =~= Seq::<i64>::empty());
        }
        while i < keys.len()
            invariant
                period >= 1,
                self.spec_period() as nat == period,
                i <= keys@.len(),
                self.history() == keys@.subrange(0, i as int),
                outputs@.len() == i,
                forall|j: int|
                    0 <= j < i ==> #[trigger] outputs@[j] == rolling_max_at(keys@, period, j),
            decreases keys@.len() - i,
        {
            let out = self.next(keys[i]);
            proof {
                assert(keys@.subrange(0, i as int).push(keys@[i as int]) =~= keys@.subrange(
                    0,
                    i + 1,
                ));
                lemma_rolling_max_is_causal(keys@, period, i as int);
            }
            outputs.push(out);
            i += 1;
        }
        assert(keys@.subrange(0, keys@.len() as int) =~= keys@);
        outputs
    }
}

impl Clone for RollingMax {
    /// A stream in the same state.
    fn clone(&self) -> (copy: Self)
        ensures
            copy.spec_period() == self.spec_period(),
            copy.history() == self.history(),
    {
        proof {
            use_type_invariant(self);
        }
        let mut deque: VecDeque<(usize, i64)> = VecDeque::new();
        let mut i: usize = 0;
        while i < self.deque.len()
            invariant
                i <= self.deque@.len(),
                deque@ == self.deque@.subrange(0, i as int),
            decreases self.deque@.len() - i,
        {
            deque.push_back(self.deque[i]);
            assert(deque@ =~= self.deque@.subrange(0, i + 1));
            i += 1;
        }
        assert(deque@ =~= self.deque@);
        RollingMax {
            period: self.period,
            count: self.count,
            deque,
            history: self.history,
            base: self.base,
        }
    }
}

/// The order-reversing bijection of `i64` that turns a minimum into a maximum.
pub open spec fn mirror_key(key: i64) -> i64 {
    (-1 - key) as i64
}

/// [`mirror_key`] applied to every key.
pub open spec fn mirror_keys(keys: Seq<i64>) -> Seq<i64> {
    keys.map_values(|key: i64| mirror_key(key))
}

/// The minimum of a sequence is the mirror of the maximum of its mirror.
pub proof fn lemma_min_mirrors_max(keys: Seq<i64>)
    ensures
        window_min(keys) == mirror_key(window_max(mirror_keys(keys))),
    decreases keys.len(),
{
    if keys.len() > 0 {
        lemma_min_mirrors_max(keys.drop_last());
        assert(mirror_keys(keys).drop_last() =~= mirror_keys(keys.drop_last()));
        assert(mirror_keys(keys).last() == mirror_key(keys.last()));
    }
}

/// Streaming windowed minimum over the last `period` keys: a [`RollingMax`] over the
/// mirrored keys.
pub struct RollingMin {
    mirrored: RollingMax,
}

impl RollingMin {
    /// The window length.
    pub closed spec fn spec_period(&self) -> usize {
        self.mirrored.spec_period()
    }

    /// Every key pushed since creation or the last reset, oldest first.
    pub closed spec fn history(&self) -> Seq<i64> {
        mirror_keys(self.mirrored.history())
    }

    /// A fresh stream for a period already known to be positive.
    pub(crate) fn starting(period: usize) -> (s: Self)
        requires
            period >= 1,
        ensures
            s.spec_period() == period,
            s.history() == Seq::<i64>::empty(),
    {
        assert(mirror_keys(Seq::<i64>::empty()) =~= Seq::<i64>::empty());
        RollingMin { mirrored: RollingMax::starting(period) }
    }

    /// A fresh stream. A zero period is rejected.
    pub fn new(period: usize) -> (r: IndicatorResult<Self>)
        ensures
            period == 0 ==> r is Err && r->Err_0.is_invalid("period must be greater than 0"@),
            period > 0 ==> r is Ok && r->Ok_0.spec_period() == period && r->Ok_0.history()
                == Seq::<i64>::empty(),
    {
        if period == 0 {
            return Err(invalid_parameter("period must be greater than 0"));
        }
        Ok(Self::starting(period))
    }

    /// The window length.
    #[verifier::when_used_as_spec(spec_period)]
    pub fn period(&self) -> (p: usize)
        ensures
            p == self.spec_period(),
            p >= 1,
    {
        self.mirrored.period()
    }

    /// True once a full window has been seen.
    pub fn is_ready(&self) -> (b: bool)
        ensures
            b == (self.history().len() >= self.spec_period()),
    {
        self.mirrored.is_ready()
    }

    /// Pushes `key` and returns the minimum of the last `period` keys, `None` while
    /// fewer than `period` keys have been pushed.
    pub fn next(&mut self, key: i64) -> (out: Option<i64>)
        ensures
            final(self).spec_period() == old(self).spec_period(),
            final(self).history() == old(self).history().push(key),
            out == rolling_min_at(
                final(self).history(),
                old(self).spec_period() as nat,
                old(self).history().len() as int,
            ),
    {
        let ghost period = self.spec_period() as nat;
        let ghost i = self.history().len() as int;
        let top = self.mirrored.next(-1 - key);
        proof {
            let pushed = self.mirrored.history();
            assert(self.history() =~= old(self).history().push(key));
            if i + 1 >= period {
                let window = self.history().subrange(i + 1 - period, i + 1);
                assert(mirror_keys(window) =~= pushed.subrange(i + 1 - period, i + 1));
                lemma_min_mirrors_max(window);
            }
        }
        match top {
            Some(m) => Some(-1 - m),
            None => None,
        }
    }

    /// Forgets every key.
    pub fn reset(&mut self)
        ensures
            final(self).spec_period() == old(self).spec_period(),
            final(self).history() == Seq::<i64>::empty(),
    {
        self.mirrored.reset();
        assert(mirror_keys(Seq::<i64>::empty()) =~= Seq::<i64>::empty());
    }

    /// Forgets every key, then pushes `keys` in order; the result is what
    /// [`window_minima`](crate::primitives::extrema::window_minima) gives for the
    /// same keys.
    pub fn init(&mut self, keys: &[i64]) -> (outputs: Vec<Option<i64>>)
        ensures
            final(self).spec_period() == old(self).spec_period(),
            final(self).history() == keys@,
            outputs@.len() == keys@.len(),
            forall|i: int|
                0 <= i < keys@.len() ==> #[trigger] outputs@[i] == rolling_min_at(
                    keys@,
                    old(self).spec_period() as nat,
                    i,
                ),
    {
        let window = self.period();
        self.reset();
        let ghost period = window as nat;
        let mut outputs: Vec<Option<i64>> = Vec::new();
        let mut i: usize = 0;
        proof {
            assert(keys@.subrange(0, 0) =~= Seq::<i64>::empty());
        }
        while i < keys.len()
            invariant
                period >= 1,
                self.spec_period() as nat == period,
                i <= keys@.len(),
                self.history() == keys@.subrange(0, i as int),
                outputs@.len() == i,
                forall|j: int|
                    0 <= j < i ==> #[trigger] outputs@[j] == rolling_min_at(keys@, period, j),
            decreases keys@.len() - i,
        {
            let out = self.next(keys[i]);
            proof {
                assert(keys@.subrange(0, i as int).push(keys@[i as int]) =~= keys@.subrange(
                    0,
                    i + 1,
                ));
                lemma_rolling_min_is_causal(keys@, period, i as int);
            }
            outputs.push(out);
            i += 1;
        }
        assert(keys@.subrange(0, keys@.len() as int) =~= keys@);
        outputs
    }
}

impl Clone for RollingMin {
    /// A stream in the same state.
    fn clone(&self) -> (copy: Self)
        ensures
            copy.spec_period() == self.spec_period(),
            copy.history() == self.history(),
    {
        RollingMin { mirrored: self.mirrored.clone() }
    }
}

/// The highest high and the lowest low of the `period` bars ending at position `i`,
/// absent inside the warm-up.
pub open spec fn extremes_at(highs: Seq<i64>, lows: Seq<i64>, period: nat, i: int) -> Option<
    (i64, i64),
> {
    match (rolling_max_at(highs, period, i), rolling_min_at(lows, period, i)) {
        (Some(highest), Some(lowest)) => Some((highest, lowest)),
        _ => None,
    }
}

/// The extremes bracket the bar they are taken at: the highest high is at least that
/// bar's high and the lowest low at most its low. A value between the bar's low and
/// high therefore stands between the extremes, and its place in their range, as a
/// percentage, between 0 and 100.
pub proof fn lemma_extremes_bracket_the_bar(highs: Seq<i64>, lows: Seq<i64>, period: nat, i: int)
    requires
        period >= 1,
    ensures
        extremes_at(highs, lows, period, i) matches Some((highest, lowest)) ==> highs[i] <= highest
            && lowest <= lows[i],
        extremes_at(highs, lows, period, i) is Some && (forall|j: int|
            0 <= j < highs.len() && j < lows.len() ==> lows[j] <= highs[j]) ==> extremes_at(
            highs,
            lows,
            period,
            i,
        )->Some_0.1 <= extremes_at(highs, lows, period, i)->Some_0.0,
{
    if extremes_at(highs, lows, period, i) is Some {
        let high_window = highs.subrange(i + 1 - period, i + 1);
        let low_window = lows.subrange(i + 1 - period, i + 1);
        lemma_window_max_is_greatest(high_window);
        lemma_window_min_is_least(low_window);
        assert(high_window[period - 1] == highs[i]);
        assert(low_window[period - 1] == lows[i]);
    }
}

/// Streaming highest high and lowest low over the last `period` bars.
pub struct RollingExtremes {
    highs: RollingMax,
    lows: RollingMin,
}

impl RollingExtremes {
    #[verifier::type_invariant]
    spec fn inv(self) -> bool {
        &&& self.highs.spec_period() >= 1
        &&& self.highs.spec_period() == self.lows.spec_period()
        &&& self.highs.history().len() == self.lows.history().len()
    }

    /// The window length.
    pub closed spec fn spec_period(&self) -> usize {
        self.highs.spec_period()
    }

    /// Every high key pushed since creation or the last reset.
    pub closed spec fn highs(&self) -> Seq<i64> {
        self.highs.history()
    }

    /// Every low key pushed since creation or the last reset.
    pub closed spec fn lows(&self) -> Seq<i64> {
        self.lows.history()
    }

    /// Number of bars pushed since creation or the last reset.
    pub open spec fn spec_count(&self) -> nat {
        self.highs().len()
    }

    /// A fresh stream for a period already known to be positive.
    pub(crate) fn starting(period: usize) -> (s: Self)
        requires
            period >= 1,
        ensures
            s.spec_period() == period,
            s.highs() == Seq::<i64>::empty(),
            s.lows() == Seq::<i64>::empty(),
    {
        RollingExtremes { highs: RollingMax::starting(period), lows: RollingMin::starting(period) }
    }

    /// A fresh stream. A zero period is rejected.
    pub fn new(period: usize) -> (r: IndicatorResult<Self>)
        ensures
            period == 0 ==> r is Err && r->Err_0.is_invalid("period must be greater than 0"@),
            period > 0 ==> r is Ok && r->Ok_0.spec_period() == period && r->Ok_0.highs()
                == Seq::<i64>::empty() && r->Ok_0.lows() == Seq::<i64>::empty(),
    {
        if period == 0 {
            return Err(invalid_parameter("period must be greater than 0"));
        }
        Ok(Self::starting(period))
    }

    /// The window length.
    #[verifier::when_used_as_spec(spec_period)]
    pub fn period(&self) -> (p: usize)
        ensures
            p == self.spec_period(),
            p >= 1,
    {
        self.highs.period()
    }

    /// True once a full window has been seen.
    pub fn is_ready(&self) -> (b: bool)
        ensures
            b == (self.spec_count() >= self.spec_period()),
    {
        self.highs.is_ready()
    }

    /// Pushes one bar's high and low keys and returns the highest high and the
    /// lowest low of the last `period` bars, `None` inside the warm-up.
    pub fn next(&mut self, high: i64, low: i64) -> (out: Option<(i64, i64)>)
        ensures
            final(self).spec_period() == old(self).spec_period(),
            final(self).highs() == old(self).highs().push(high),
            final(self).lows() == old(self).lows().push(low),
            final(self).highs().len() == final(self).lows().len(),
            out == extremes_at(
                final(self).highs(),
                final(self).lows(),
                old(self).spec_period() as nat,
                old(self).spec_count() as int,
            ),
    {
        proof {
            use_type_invariant(&*self);
        }
        let mut taken = Self::starting(self.highs.period());
        core::mem::swap(self, &mut taken);
        let mut highs = taken.highs;
        let mut lows = taken.lows;
        let highest = highs.next(high);
        let lowest = lows.next(low);
        *self = RollingExtremes { highs, lows };
        match (highest, lowest) {
            (Some(h), Some(l)) => Some((h, l)),
            _ => None,
        }
    }

    /// Forgets every bar.
    pub fn reset(&mut self)
        ensures
            final(self).spec_period() == old(self).spec_period(),
            final(self).highs() == Seq::<i64>::empty(),
            final(self).lows() == Seq::<i64>::empty(),
    {
        proof {
            use_type_invariant(&*self);
        }
        *self = Self::starting(self.highs.period());
    }
}

impl Clone for RollingExtremes {
    /// A stream in the same state.
    fn clone(&self) -> (copy: Self)
        ensures
            copy.spec_period() == self.spec_period(),
            copy.highs() == self.highs(),
            copy.lows() == self.lows(),
    {
        proof {
            use_type_invariant(self);
        }
        RollingExtremes { highs: self.highs.clone(), lows: self.lows.clone() }
    }
}

} // verus!
