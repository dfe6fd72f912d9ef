use vstd::prelude::*;

verus! {

/// Milliseconds from `t` to `now`; zero if `t` is later.
pub open spec fn age(now: u64, t: u64) -> int {
    if now >= t { now - t } else { 0 }
}

/// The samples left once those older than `max` are dropped from the front.
pub open spec fn evicted(s: Seq<(u64, u64)>, now: u64, max: u64) -> Seq<(u64, u64)>
    decreases s.len(),
{
    if s.len() > 0 && age(now, s[0].0) > max {
        evicted(s.drop_first(), now, max)
    } else {
        s
    }
}

/// Bytes per second between the samples `a` and `b` (time in milliseconds),
/// saturated at `u64::MAX`; samples taken at the same moment give zero if
/// no bytes were added, else `u64::MAX`.
pub open spec fn rate_between(a: (u64, u64), b: (u64, u64)) -> u64 {
    let eb = b.1 - a.1;
    let dt = age(b.0, a.0);
    if dt == 0 {
        if eb == 0 { 0 } else { u64::MAX }
    } else if eb * 1000 / dt > u64::MAX {
        u64::MAX
    } else {
        (eb * 1000 / dt) as u64
    }
}

/// The rate of the samples `s` at `now`: none unless two samples remain and the
/// oldest is at least `min` old.
pub open spec fn rate_of(s: Seq<(u64, u64)>, now: u64, min: u64) -> Option<u64> {
    if s.len() < 2 || age(now, s[0].0) < min {
        None
    } else {
        Some(rate_between(s[0], s.last()))
    }
}

/// Byte counts never decrease from front to back.
pub open spec fn monotone(s: Seq<(u64, u64)>) -> bool {
    forall|i: int, j: int| 0 <= i < j < s.len() ==> s[i].1 <= s[j].1
}

/// Throughput over a sliding window of (time in milliseconds, byte count) samples.
pub struct RollingRate {
    list: Vec<(u64, u64)>,
    min_elapsed: u64,
    max_elapsed: u64,
}

impl RollingRate {
    pub closed spec fn samples(&self) -> Seq<(u64, u64)> {
        self.list@
    }

    pub closed spec fn min(&self) -> u64 {
        self.min_elapsed
    }

    pub closed spec fn max(&self) -> u64 {
        self.max_elapsed
    }

    pub open spec fn wf(&self) -> bool {
        monotone(self.samples())
    }

    /// An empty estimator; a rate needs its oldest sample to be `min_elapsed`
    /// old, and samples older than `max_elapsed` are dropped.
    pub fn new(min_elapsed: u64, max_elapsed: u64) -> (r: Self)
        ensures
            r.samples() == Seq::<(u64, u64)>::empty(),
            r.min() == min_elapsed,
            r.max() == max_elapsed,
            r.wf(),
    {
        RollingRate { list: Vec::new(), min_elapsed, max_elapsed }
    }

    /// Records `item` bytes at time `now`; a count below the newest one
    /// starts the series anew.
    pub fn push(&mut self, now: u64, item: u64)
        requires
            old(self).wf(),
        ensures
            final(self).wf(),
            final(self).min() == old(self).min(),
            final(self).max() == old(self).max(),
            old(self).samples().len() > 0 && item < old(self).samples().last().1
                ==> final(self).samples() == seq![(now, item)],
            !(old(self).samples().len() > 0 && item < old(self).samples().last().1)
                ==> final(self).samples() == old(self).samples().push((now, item)),
    {
        let n = self.list.len();
        if n > 0 && item < self.list[n - 1].1 {
            self.reset();
        }
        self.list.push((now, item));
        assert(self.list@.len() == 1 ==> self.list@ =~= seq![(now, item)]);
    }

    /// The rate at time `now`, in bytes per second, after dropping the samples
    /// older than the window.
    pub fn rate(&mut self, now: u64) -> (r: Option<u64>)
        requires
            old(self).wf(),
        ensures
            final(self).wf(),
            final(self).min() == old(self).min(),
            final(self).max() == old(self).max(),
            final(self).samples() == evicted(old(self).samples(), now, old(self).max()),
            r == rate_of(final(self).samples(), now, old(self).min()),
    {
        while self.list.len() > 0 && (now >= self.list[0].0 && now - self.list[0].0 > self.max_elapsed)
            invariant
                self.wf(),
                self.min() == old(self).min(),
                self.max() == old(self).max(),
                evicted(self.samples(), now, self.max()) == evicted(old(self).samples(), now, old(self).max()),
            decreases self.list@.len(),
        {
            self.list.remove(0);
        }
        let n = self.list.len();
        if n < 2 {
            return None;
        }
        let t0 = self.list[0].0;
        let a: u64 = if now >= t0 { now - t0 } else { 0 };
        if a < self.min_elapsed {
            return None;
        }
        let (ta, ba) = self.list[0];
        let (tb, bb) = self.list[n - 1];
        assert(ba <= bb);
        let eb = bb - ba;
        let dt: u64 = if tb >= ta { tb - ta } else { 0 };
        if dt == 0 {
            if eb == 0 { Some(0) } else { Some(u64::MAX) }
        } else {
            let q = (eb as u128) * 1000 / (dt as u128);
            if q > u64::MAX as u128 { Some(u64::MAX) } else { Some(q as u64) }
        }
    }

    /// Drops every sample.
    pub fn reset(&mut self)
        ensures
            final(self).samples() == Seq::<(u64, u64)>::empty(),
            final(self).min() == old(self).min(),
            final(self).max() == old(self).max(),
            final(self).wf(),
    {
        self.list.clear();
    }
}

} // verus!
