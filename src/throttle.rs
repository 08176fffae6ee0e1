use crate::clock::{elapsed, elapsed_ms, Clock};
use vstd::prelude::*;

verus! {

/// The state of a rate limiter: the least time between two runs, in
/// milliseconds, and when it last ran, if ever.
pub struct ThrottleState {
    pub min_duration: u64,
    pub previous: Option<u64>,
}

/// A call at time `now` runs the action: the limiter has never run, or at
/// least the least time between runs has passed since it last did.
pub open spec fn may_fire(s: ThrottleState, now: u64) -> bool {
    match s.previous {
        None => true,
        Some(p) => elapsed(p, now) >= s.min_duration,
    }
}

/// What a call at time `now` does to a rate limiter.
pub open spec fn throttle_step(s: ThrottleState, now: u64) -> ThrottleState {
    if may_fire(s, now) {
        ThrottleState { min_duration: s.min_duration, previous: Some(now) }
    } else {
        s
    }
}

/// The state after calls at each of `times`, in order, starting from `s`.
pub open spec fn throttle_run(s: ThrottleState, times: Seq<u64>) -> ThrottleState
    decreases times.len(),
{
    if times.len() == 0 {
        s
    } else {
        throttle_step(throttle_run(s, times.drop_last()), times.last())
    }
}

/// Whether the call at `times[i]` runs the action, for calls at each of
/// `times` starting from `s`.
pub open spec fn fires_at(s: ThrottleState, times: Seq<u64>, i: int) -> bool {
    may_fire(throttle_run(s, times.take(i)), times[i])
}

/// Each time is at least the one before it.
pub open spec fn nondecreasing(times: Seq<u64>) -> bool {
    forall|i: int, j: int| 0 <= i <= j < times.len() ==> times[i] <= times[j]
}

proof fn lemma_run_take_step(s: ThrottleState, times: Seq<u64>, k: int)
    requires
        0 <= k < times.len(),
    ensures
        throttle_run(s, times.take(k + 1)) == throttle_step(throttle_run(s, times.take(k)), times[k]),
{
    assert(times.take(k + 1).drop_last() =~= times.take(k));
}

proof fn lemma_run_keeps_min_duration(s: ThrottleState, times: Seq<u64>)
    ensures
        throttle_run(s, times).min_duration == s.min_duration,
    decreases times.len(),
{
    if times.len() > 0 {
        lemma_run_keeps_min_duration(s, times.drop_last());
    }
}

/// After a call that runs the action, the limiter's last run is never
/// earlier than that call.
proof fn lemma_previous_not_before(s: ThrottleState, times: Seq<u64>, i: int, k: int)
    requires
        nondecreasing(times),
        0 <= i < k <= times.len(),
        fires_at(s, times, i),
    ensures
        throttle_run(s, times.take(k)).previous matches Some(p) && p >= times[i],
    decreases k,
{
    if k == i + 1 {
        lemma_run_take_step(s, times, i);
    } else {
        lemma_previous_not_before(s, times, i, k - 1);
        lemma_run_take_step(s, times, k - 1);
    }
}

/// A new limiter runs its action on its first call; and of calls made at
/// nondecreasing times, any two that run the action lie at least the least
/// time between runs apart, so no stretch of that length that starts at a
/// run holds a second one.
pub proof fn lemma_runs_spaced(min_duration: u64, times: Seq<u64>)
    requires
        nondecreasing(times),
    ensures
        times.len() > 0 ==> fires_at(ThrottleState { min_duration, previous: None }, times, 0),
        forall|i: int, j: int|
            0 <= i < j < times.len() && fires_at(ThrottleState { min_duration, previous: None }, times, i)
                && fires_at(ThrottleState { min_duration, previous: None }, times, j)
                ==> times[j] - times[i] >= min_duration,
{
    let s = ThrottleState { min_duration, previous: None };
    assert forall|i: int, j: int|
        0 <= i < j < times.len() && fires_at(s, times, i) && fires_at(s, times, j)
            implies times[j] - times[i] >= min_duration by {
        lemma_previous_not_before(s, times, i, j);
        assert(times[i] <= times[j]);
        lemma_run_keeps_min_duration(s, times.take(j));
    }
}

/// Runs an action at most once in each stretch of the least time between
/// runs, counted from the last run; calls in between are dropped.
#[verifier::reject_recursive_types(T)]
#[verifier::reject_recursive_types(F)]
pub struct Throttle<T, F: Fn() -> T> {
    f: F,
    min_duration: u64,
    previous: Option<u64>,
    clock: Clock,
}

impl<T, F: Fn() -> T> View for Throttle<T, F> {
    type V = ThrottleState;

    closed spec fn view(&self) -> ThrottleState {
        ThrottleState { min_duration: self.min_duration, previous: self.previous }
    }
}

impl<T, F: Fn() -> T> Throttle<T, F> {
    /// The action that the limiter runs.
    pub closed spec fn action(&self) -> F {
        self.f
    }

    /// A limiter that runs `f` at most once every `min_duration`
    /// milliseconds. Its first call always runs `f`.
    pub fn new(f: F, min_duration: u64) -> (r: Self)
        ensures
            r.action() == f,
            r@ == (ThrottleState { min_duration, previous: None }),
    {
        Throttle { f, min_duration, previous: None, clock: Clock::start() }
    }

    /// A call at time `now`: runs the action and returns its result when
    /// `may_fire`, else returns `None` and changes nothing.
    pub fn call_at(&mut self, now: u64) -> (r: Option<T>)
        requires
            old(self).action().requires(()),
        ensures
            final(self).action() == old(self).action(),
            final(self)@ == throttle_step(old(self)@, now),
            may_fire(old(self)@, now) <==> r is Some,
            r is Some ==> old(self).action().ensures((), r->0),
    {
        let fire = match self.previous {
            None => true,
            Some(p) => elapsed_ms(p, now) >= self.min_duration,
        };
        if fire {
            self.previous = Some(now);
            Some((self.f)())
        } else {
            None
        }
    }

    /// A call now: as `call_at` at the time read from the limiter's clock.
    pub fn call(&mut self) -> (r: Option<T>)
        requires
            old(self).action().requires(()),
        ensures
            final(self).action() == old(self).action(),
            exists|t: u64|
                {
                    &&& final(self)@ == throttle_step(old(self)@, t)
                    &&& may_fire(old(self)@, t) <==> r is Some
                },
            r is Some ==> old(self).action().ensures((), r->0),
    {
        let now = self.clock.now_ms();
        self.call_at(now)
    }
}

} // verus!
