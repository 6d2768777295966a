//! Counting served requests, and shutting down after a period without any.
use vstd::prelude::*;

verus! {

/// The number of requests fully received since start-up. It only grows.
#[derive(Clone, Copy)]
pub struct RequestCounter {
    served: u64,
}

impl View for RequestCounter {
    type V = nat;

    closed spec fn view(&self) -> nat {
        self.served as nat
    }
}

/// The count after one more request: one higher, held at the largest `u64`
/// once it gets there.
pub open spec fn counted(n: nat) -> nat {
    if n < u64::MAX {
        n + 1
    } else {
        n
    }
}

impl RequestCounter {
    /// A counter that has seen no request.
    pub fn new() -> (r: RequestCounter)
        ensures
            r@ == 0,
    {
        RequestCounter { served: 0 }
    }

    /// Records one fully received request.
    pub fn record(&mut self)
        ensures
            final(self)@ == counted(old(self)@),
            final(self)@ >= old(self)@,
    {
        if self.served < u64::MAX {
            self.served = self.served + 1;
        }
    }

    /// The number of requests recorded so far.
    pub fn served(&self) -> (r: u64)
        ensures
            r as nat == self@,
            r as nat <= u64::MAX,
    {
        self.served
    }
}

/// The watchdog's rule: it fires when a period ends with the same count as
/// the one before it, that is when no request was served during the period.
pub open spec fn idle_fires(last: int, sample: int) -> bool {
    last == sample
}

/// Samples the request counter once per idle period and fires, once, after a
/// whole period in which nothing was served.
pub struct IdleWatchdog {
    last: u64,
    fired: bool,
}

impl IdleWatchdog {
    /// The count seen at the end of the previous period (zero at start-up).
    pub closed spec fn last_sample(&self) -> int {
        self.last as int
    }

    /// Whether the watchdog has fired.
    pub closed spec fn is_fired(&self) -> bool {
        self.fired
    }

    /// An armed watchdog; the server has served nothing yet.
    pub fn new() -> (r: IdleWatchdog)
        ensures
            r.last_sample() == 0,
            !r.is_fired(),
    {
        IdleWatchdog { last: 0, fired: false }
    }

    /// Whether the watchdog has fired.
    pub fn has_fired(&self) -> (r: bool)
        ensures
            r == self.is_fired(),
    {
        self.fired
    }

    /// Takes the sample at the end of one period. Returns true exactly when
    /// this period is the first with nothing served: the caller then fires the
    /// shutdown trigger and stops sampling.
    pub fn on_period(&mut self, sample: u64) -> (fire: bool)
        ensures
            fire == (!old(self).is_fired() && idle_fires(old(self).last_sample(), sample as int)),
            final(self).is_fired() == (old(self).is_fired() || fire),
            final(self).last_sample() == sample as int,
    {
        let fire = !self.fired && self.last == sample;
        self.last = sample;
        if fire {
            self.fired = true;
        }
        fire
    }
}

/// How many of the request arrival times lie at or before `t`: what the
/// counter reads at time `t`.
pub open spec fn count_at(arrivals: Seq<int>, t: int) -> nat
    decreases arrivals.len(),
{
    if arrivals.len() == 0 {
        0
    } else {
        count_at(arrivals.drop_last(), t) + (if arrivals.last() <= t { 1nat } else { 0nat })
    }
}

/// The watchdog's sample at the end of period `j`, with time measured from
/// start-up: the count at start-up (zero) for `j == 0`, else the counter
/// read at `j * period`.
pub open spec fn sample_at(arrivals: Seq<int>, period: int, j: int) -> int {
    if j <= 0 {
        0
    } else {
        count_at(arrivals, j * period) as int
    }
}

proof fn lemma_count_monotone(arrivals: Seq<int>, t1: int, t2: int)
    requires
        t1 <= t2,
    ensures
        count_at(arrivals, t1) <= count_at(arrivals, t2),
    decreases arrivals.len(),
{
    if arrivals.len() > 0 {
        lemma_count_monotone(arrivals.drop_last(), t1, t2);
    }
}

proof fn lemma_count_grows(arrivals: Seq<int>, t1: int, t2: int, i: int)
    requires
        0 <= i < arrivals.len(),
        t1 < arrivals[i] <= t2,
    ensures
        count_at(arrivals, t1) < count_at(arrivals, t2),
    decreases arrivals.len(),
{
    let init = arrivals.drop_last();
    lemma_count_monotone(init, t1, t2);
    if i < arrivals.len() - 1 {
        assert(init[i] == arrivals[i]);
        lemma_count_grows(init, t1, t2, i);
    }
}

proof fn lemma_growth_has_arrival(arrivals: Seq<int>, t1: int, t2: int) -> (i: int)
    requires
        count_at(arrivals, t1) < count_at(arrivals, t2),
    ensures
        0 <= i < arrivals.len(),
        t1 < arrivals[i] <= t2,
    decreases arrivals.len(),
{
    let init = arrivals.drop_last();
    if arrivals.len() > 0 && t1 < arrivals.last() && arrivals.last() <= t2 {
        (arrivals.len() - 1) as int
    } else {
        if count_at(init, t1) >= count_at(init, t2) {
            assert(arrivals.len() > 0);
        }
        let i = lemma_growth_has_arrival(init, t1, t2);
        assert(arrivals[i] == init[i]);
        i
    }
}

proof fn lemma_count_before_start(arrivals: Seq<int>)
    requires
        forall|i: int| 0 <= i < arrivals.len() ==> arrivals[i] > 0,
    ensures
        count_at(arrivals, 0) == 0,
    decreases arrivals.len(),
{
    if arrivals.len() > 0 {
        let init = arrivals.drop_last();
        assert forall|i: int| 0 <= i < init.len() implies init[i] > 0 by {
            assert(init[i] == arrivals[i]);
        }
        lemma_count_before_start(init);
    }
}

/// Idle detection latency. Requests arrive after start-up at the times in
/// `arrivals`, and the watchdog samples the counter at the end of every
/// period. When it fires, at the end of period `k` and not before, the last
/// request it counted arrived at least one and less than two periods earlier;
/// if it counted none, it fires at the end of the very first period.
pub proof fn lemma_idle_fires_within_two_periods(arrivals: Seq<int>, period: int, k: int)
    requires
        period > 0,
        k >= 1,
        forall|i: int| 0 <= i < arrivals.len() ==> arrivals[i] > 0,
        forall|j: int|
            1 <= j < k ==> !idle_fires(
                #[trigger] sample_at(arrivals, period, j - 1),
                sample_at(arrivals, period, j),
            ),
        idle_fires(sample_at(arrivals, period, k - 1), sample_at(arrivals, period, k)),
    ensures
        forall|i: int|
            0 <= i < arrivals.len() && arrivals[i] <= k * period ==> k * period - arrivals[i]
                >= period,
        (exists|i: int| 0 <= i < arrivals.len() && arrivals[i] <= k * period) ==> exists|i: int|
            0 <= i < arrivals.len() && arrivals[i] <= k * period && k * period - arrivals[i] < 2
                * period,
        (forall|i: int| 0 <= i < arrivals.len() ==> arrivals[i] > k * period) ==> k == 1,
{
    let fire_at = k * period;
    let prev = (k - 1) * period;
    assert(prev == fire_at - period) by (nonlinear_arith)
        requires
            prev == (k - 1) * period,
            fire_at == k * period,
    ;
    lemma_count_before_start(arrivals);
    assert(0 * period == 0);
    assert(sample_at(arrivals, period, k - 1) == count_at(arrivals, prev) as int);
    // Nothing arrived in the last period.
    assert forall|i: int|
        0 <= i < arrivals.len() && arrivals[i] <= fire_at implies fire_at - arrivals[i]
            >= period by {
        if arrivals[i] > prev {
            lemma_count_grows(arrivals, prev, fire_at, i);
        }
    }
    if k >= 2 {
        // The period before did serve something.
        let before = (k - 2) * period;
        assert(before == prev - period) by (nonlinear_arith)
            requires
                before == (k - 2) * period,
                prev == (k - 1) * period,
        ;
        assert(!idle_fires(
            sample_at(arrivals, period, (k - 1) - 1),
            sample_at(arrivals, period, k - 1),
        ));
        assert(sample_at(arrivals, period, k - 2) == count_at(arrivals, before) as int);
        lemma_count_monotone(arrivals, before, prev);
        let i = lemma_growth_has_arrival(arrivals, before, prev);
        assert(arrivals[i] <= fire_at && fire_at - arrivals[i] < 2 * period);
        assert(exists|i: int| 0 <= i < arrivals.len() && arrivals[i] <= k * period);
    }
}

} // verus!
