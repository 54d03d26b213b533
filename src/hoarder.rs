use vstd::prelude::*;

verus! {

/// Largest sampling interval that can still be doubled within `u64`.
pub const MAX_DOUBLING_SECONDS: u64 = 0x8000_0000_0000_0000;

/// `s` is a power of two (`2^k`, `k >= 0`).
pub open spec fn is_pow2(s: nat) -> bool
    decreases s,
{
    if s <= 1 {
        s == 1
    } else {
        s % 2 == 0 && is_pow2(s / 2)
    }
}

/// Elapsed whole seconds at which the next sample is due.
pub open spec fn due_time(seconds: u64, len: nat) -> int {
    seconds * (len + 1)
}

/// Mean of two samples, rounded down.
pub open spec fn avg(a: u64, b: u64) -> int {
    (a + b) / 2
}

/// The series after one compaction: each kept sample is the mean of itself
/// and its right neighbour, and only the first half is kept.
pub open spec fn compacted(s: Seq<u64>) -> Seq<u64> {
    Seq::new(s.len() / 2, |i: int| avg(s[i], s[i + 1]) as u64)
}

/// Series and interval after pushing `wpm` onto `wpms`, sampled every
/// `seconds`, with room for fewer than `capacity` samples.
pub open spec fn push_result(wpms: Seq<u64>, seconds: u64, capacity: usize, wpm: u64) -> (Seq<u64>, int) {
    if wpms.len() + 1 < capacity {
        (wpms.push(wpm), seconds as int)
    } else {
        (compacted(wpms.push(wpm)), 2 * seconds)
    }
}

/// Smallest and largest of a non-empty series.
pub open spec fn is_min_and_max(s: Seq<u64>, lo: u64, hi: u64) -> bool {
    &&& s.contains(lo)
    &&& s.contains(hi)
    &&& forall|i: int| 0 <= i < s.len() ==> lo <= #[trigger] s[i] && s[i] <= hi
}

/// A push never takes the series to its capacity: a series below capacity
/// stays below it, whether or not the push compacts.
pub proof fn lemma_push_stays_below_capacity(wpms: Seq<u64>, seconds: u64, capacity: usize, wpm: u64)
    requires
        wpms.len() < capacity,
    ensures
        push_result(wpms, seconds, capacity, wpm).0.len() < capacity,
{
}

/// Compactions keep the sampling interval a power of two.
pub proof fn lemma_push_keeps_pow2(wpms: Seq<u64>, seconds: u64, capacity: usize, wpm: u64)
    requires
        is_pow2(seconds as nat),
    ensures
        is_pow2(push_result(wpms, seconds, capacity, wpm).1 as nat),
{
    let s = push_result(wpms, seconds, capacity, wpm).1;
    if s != seconds {
        assert((s as nat) / 2 == seconds as nat);
    }
}

/// Whether a sample is due depends only on the series and the elapsed time:
/// polls between two pushes all answer `false` until the due time, and `true`
/// from then on.
pub proof fn lemma_due_is_stable(seconds: u64, len: nat, e1: int, e2: int)
    requires
        e1 <= e2,
    ensures
        e2 < due_time(seconds, len) ==> !(e1 >= due_time(seconds, len)) && !(e2 >= due_time(seconds, len)),
        e1 >= due_time(seconds, len) ==> e2 >= due_time(seconds, len),
{
}

/// Keeps track of the speed roughly every `seconds` seconds, in bounded space.
///
/// Samples are words per minute scaled by 100 (hundredths of a WPM).
pub struct WpmHoarder {
    pub wpms: Vec<u64>,
    pub capacity: usize,
    pub seconds: u64,
    pub final_wpm: Option<u64>,
}

impl WpmHoarder {
    /// The series stays below its capacity and the interval is a power of two.
    pub open spec fn wf(&self) -> bool {
        &&& self.wpms@.len() < self.capacity
        &&& is_pow2(self.seconds as nat)
    }

    /// A push that compacts can still double the interval.
    pub open spec fn can_push(&self) -> bool {
        self.wpms@.len() + 1 == self.capacity ==> self.seconds < MAX_DOUBLING_SECONDS
    }

    pub fn new(capacity: usize) -> (r: Self)
        requires
            capacity >= 1,
        ensures
            r.wf(),
            r.wpms@ == Seq::<u64>::empty(),
            r.capacity == capacity,
            r.seconds == 1,
            r.final_wpm.is_none(),
    {
        WpmHoarder { capacity, wpms: Vec::new(), seconds: 1, final_wpm: None }
    }

    /// Empties the series and returns to one-second sampling.
    pub fn reset(&mut self)
        requires
            old(self).capacity >= 1,
        ensures
            final(self).wf(),
            final(self).wpms@ == Seq::<u64>::empty(),
            final(self).seconds == 1,
            final(self).capacity == old(self).capacity,
            final(self).final_wpm == old(self).final_wpm,
    {
        self.wpms.clear();
        self.seconds = 1;
    }

    /// Whether a sample is due after `elapsed` whole seconds.
    pub fn due_at(&self, elapsed: u64) -> (r: bool)
        ensures
            r == (elapsed >= due_time(self.seconds, self.wpms@.len())),
    {
        let s: u128 = self.seconds as u128;
        let n: u128 = self.wpms.len() as u128 + 1;
        assert(s * n <= 0xffff_ffff_ffff_ffffu128 * 0x1_0000_0000_0000_0000u128) by (nonlinear_arith)
            requires
                s <= 0xffff_ffff_ffff_ffffu128,
                n <= 0x1_0000_0000_0000_0000u128,
        ;
        let due: u128 = s * n;
        elapsed as u128 >= due
    }

    /// Appends a sample; when the series reaches capacity it is compacted in
    /// place and the sampling interval doubles.
    pub fn push(&mut self, wpm: u64)
        requires
            old(self).wf(),
            old(self).can_push(),
        ensures
            final(self).wf(),
            final(self).capacity == old(self).capacity,
            final(self).final_wpm == old(self).final_wpm,
            (final(self).wpms@, final(self).seconds as int) == push_result(
                old(self).wpms@,
                old(self).seconds,
                old(self).capacity,
                wpm,
            ),
    {
        self.wpms.push(wpm);
        if self.wpms.len() == self.capacity {
            let ghost full = self.wpms@;
            let new_len: usize = self.wpms.len() / 2;
            let mut i: usize = 0;
            while i < new_len
                invariant
                    new_len == full.len() / 2,
                    full.len() == old(self).wpms@.len() + 1,
                    full.len() == old(self).capacity,
                    self.seconds == old(self).seconds,
                    self.capacity == old(self).capacity,
                    self.final_wpm == old(self).final_wpm,
                    self.wpms@.len() == full.len(),
                    0 <= i <= new_len,
                    forall|j: int| 0 <= j < i ==> #[trigger] self.wpms@[j] == avg(full[j], full[j + 1]),
                    forall|j: int| i <= j < full.len() ==> #[trigger] self.wpms@[j] == full[j],
                decreases new_len - i,
            {
                let a: u128 = self.wpms[i] as u128;
                let b: u128 = self.wpms[i + 1] as u128;
                let m: u64 = ((a + b) / 2) as u64;
                self.wpms.set(i, m);
                i = i + 1;
            }
            self.wpms.truncate(new_len);
            assert(self.wpms@ =~= compacted(full));
            self.seconds = self.seconds * 2;
            assert(is_pow2(self.seconds as nat)) by {
                assert((self.seconds as nat) / 2 == old(self).seconds as nat);
            }
        }
    }

    /// Smallest and largest sample, or `None` while the series is empty.
    pub fn get_min_and_max(&self) -> (r: Option<(u64, u64)>)
        ensures
            r.is_none() <==> self.wpms@.len() == 0,
            r matches Some((lo, hi)) ==> is_min_and_max(self.wpms@, lo, hi),
    {
        if self.wpms.len() == 0 {
            return None;
        }
        let mut min: u64 = self.wpms[0];
        let mut max: u64 = min;
        let mut k: usize = 1;
        assert(self.wpms@.subrange(0, 1)[0] == min);
        while k < self.wpms.len()
            invariant
                1 <= k <= self.wpms@.len(),
                is_min_and_max(self.wpms@.subrange(0, k as int), min, max),
            decreases self.wpms@.len() - k,
        {
            let w: u64 = self.wpms[k];
            assert(self.wpms@.subrange(0, k + 1) =~= self.wpms@.subrange(0, k as int).push(w));
            let ghost prev = self.wpms@.subrange(0, k as int);
            let ghost next = self.wpms@.subrange(0, k + 1);
            assert(next[k as int] == w);
            if w < min {
                min = w;
            } else if w > max {
                max = w;
            }
            assert(next.contains(min)) by {
                if min != w {
                    let j = choose|j: int| 0 <= j < prev.len() && prev[j] == min;
                    assert(next[j] == min);
                }
            }
            assert(next.contains(max)) by {
                if max != w {
                    let j = choose|j: int| 0 <= j < prev.len() && prev[j] == max;
                    assert(next[j] == max);
                }
            }
            k = k + 1;
        }
        assert(self.wpms@.subrange(0, k as int) =~= self.wpms@);
        Some((min, max))
    }
}

} // verus!
