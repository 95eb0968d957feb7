//! A simple throttle, used for slowing down repeated code. Use this to avoid
//! drowning out downstream systems, such as a file being polled or a network
//! service being called in a tight loop.
//!
//! A `Throttle` owns a caller-supplied delay calculator and remembers when the
//! previous acquisition completed. Each acquisition measures the time elapsed
//! since then, asks the calculator for the total interval that ought to have
//! elapsed, and reports how much longer the caller still has to wait. All
//! times are carried as plain nanosecond counts, so the timing arithmetic and
//! the state machine are verified here; reading a clock and actually sleeping
//! are left to the caller, who drives one acquisition as two steps:
//! `plan_acquire` with the current time, a sleep of the returned length, and
//! `finish_acquire` with the time at which the sleep ended.

use vstd::prelude::*;

verus! {

/// Whether an acquisition has completed yet, and if so, when the most recent
/// one did. A throttle starts `Uninitialized` and stays `Initialized` forever
/// after its first acquisition.
#[derive(Copy, Clone)]
pub enum ThrottleState {
    Uninitialized,
    Initialized { previous_invocation_nanos: u64 },
}

/// A simple configurable throttle for slowing down code, a little struct
/// holding some state. `TArg` is a caller-chosen argument type handed through
/// every acquisition to the delay calculator `F`.
pub struct Throttle<TArg, F> where F: Fn(TArg, u64) -> u64 {
    delay_calculator: F,
    state: ThrottleState,
    arg_marker: core::marker::PhantomData<TArg>,
}

/// The time elapsed since the previous acquisition, as an acquisition at
/// `now_nanos` measures it: zero before any acquisition, and never negative
/// even if the caller's clock steps backwards.
pub open spec fn elapsed_since(state: ThrottleState, now_nanos: u64) -> u64 {
    match state {
        ThrottleState::Uninitialized => 0,
        ThrottleState::Initialized { previous_invocation_nanos } => if now_nanos
            >= previous_invocation_nanos {
            (now_nanos - previous_invocation_nanos) as u64
        } else {
            0
        },
    }
}

/// How much longer an acquisition must wait when the calculator asked for a
/// total interval of `target_nanos` and `elapsed_nanos` have already passed:
/// the shortfall when there is one, and zero when the target is zero or has
/// already been met, so the subtraction can never underflow.
pub open spec fn extra_delay(target_nanos: u64, elapsed_nanos: u64) -> u64 {
    if target_nanos > 0 && target_nanos > elapsed_nanos {
        (target_nanos - elapsed_nanos) as u64
    } else {
        0
    }
}

impl<TArg, F: Fn(TArg, u64) -> u64> Throttle<TArg, F> {
    /// The recorded state: whether an acquisition has completed, and when the
    /// most recent one did.
    pub closed spec fn spec_state(&self) -> ThrottleState {
        self.state
    }

    /// The delay calculator this throttle was built with.
    pub closed spec fn delay_fn(&self) -> F {
        self.delay_calculator
    }

    /// Creates a new `Throttle` with a variable delay controlled by a closure.
    /// The closure receives the argument passed to the acquisition and the
    /// time elapsed since the previous acquisition, in nanoseconds, and
    /// returns the total interval, in nanoseconds, that ought to have elapsed
    /// between that acquisition and this one. Returning zero, or less than the
    /// elapsed time, means no additional time will be waited.
    pub fn new_variable_throttle(delay_calculator: F) -> (t: Throttle<TArg, F>)
        ensures
            t.spec_state() is Uninitialized,
            t.delay_fn() == delay_calculator,
    {
        Throttle {
            delay_calculator,
            state: ThrottleState::Uninitialized,
            arg_marker: core::marker::PhantomData,
        }
    }

    /// Begins an acquisition at time `now_nanos`: measures the time elapsed
    /// since the previous acquisition, asks the delay calculator for the
    /// target interval, and returns how much longer the caller must wait
    /// before proceeding. The first acquisition of a throttle's life is free:
    /// nothing came before it, so there is nothing to wait for. The caller
    /// should sleep for the returned time and then record the acquisition
    /// with `finish_acquire`.
    pub fn plan_acquire(&self, arg: TArg, now_nanos: u64) -> (sleep_nanos: u64)
        requires
            self.spec_state() is Initialized ==> call_requires(
                self.delay_fn(),
                (arg, elapsed_since(self.spec_state(), now_nanos)),
            ),
        ensures
            self.spec_state() is Uninitialized ==> sleep_nanos == 0,
            self.spec_state() is Initialized ==> exists|target_nanos: u64|
                #[trigger] call_ensures(
                    self.delay_fn(),
                    (arg, elapsed_since(self.spec_state(), now_nanos)),
                    target_nanos,
                ) && sleep_nanos == extra_delay(
                    target_nanos,
                    elapsed_since(self.spec_state(), now_nanos),
                ),
    {
        match self.state {
            ThrottleState::Uninitialized => 0,
            ThrottleState::Initialized { previous_invocation_nanos } => {
                let elapsed: u64 = if now_nanos >= previous_invocation_nanos {
                    now_nanos - previous_invocation_nanos
                } else {
                    0
                };
                let target: u64 = (self.delay_calculator)(arg, elapsed);
                if target > 0 && target > elapsed {
                    target - elapsed
                } else {
                    0
                }
            },
        }
    }

    /// Records that an acquisition completed at time `completion_nanos`, after
    /// whatever wait `plan_acquire` asked for: the next acquisition measures
    /// its elapsed time from this moment. The delay calculator is kept.
    pub fn finish_acquire(&mut self, completion_nanos: u64)
        ensures
            final(self).spec_state() == (ThrottleState::Initialized {
                previous_invocation_nanos: completion_nanos,
            }),
            final(self).delay_fn() == old(self).delay_fn(),
    {
        self.state = ThrottleState::Initialized { previous_invocation_nanos: completion_nanos };
    }
}

/// Law: an acquisition never waits longer than it has to. Whatever interval
/// the calculator asks for, the elapsed time plus the additional delay is at
/// least the target, and exactly the target whenever a wait happens at all,
/// so consecutive acquisitions are at least the target interval apart.
pub proof fn lemma_pace_enforced(target_nanos: u64, elapsed_nanos: u64)
    ensures
        elapsed_nanos + extra_delay(target_nanos, elapsed_nanos) >= target_nanos,
        extra_delay(target_nanos, elapsed_nanos) > 0 ==> elapsed_nanos + extra_delay(
            target_nanos,
            elapsed_nanos,
        ) == target_nanos,
{
}

/// Law: when the caller has already waited as long as the target interval or
/// longer, an acquisition asks for no additional delay at all.
pub proof fn lemma_already_elapsed_means_no_delay(target_nanos: u64, elapsed_nanos: u64)
    requires
        elapsed_nanos >= target_nanos,
    ensures
        extra_delay(target_nanos, elapsed_nanos) == 0,
{
}

/// Law: a calculator that asks for a zero interval never causes any delay,
/// however little time has elapsed.
pub proof fn lemma_zero_target_never_delays(elapsed_nanos: u64)
    ensures
        extra_delay(0, elapsed_nanos) == 0,
{
}

/// Law: each acquisition measures its elapsed time from the completion of the
/// acquisition before it, not from any earlier moment.
pub proof fn lemma_elapsed_measured_from_completion(completion_nanos: u64, now_nanos: u64)
    requires
        now_nanos >= completion_nanos,
    ensures
        elapsed_since(
            ThrottleState::Initialized { previous_invocation_nanos: completion_nanos },
            now_nanos,
        ) == now_nanos - completion_nanos,
{
}

/// The total of a sequence of gaps between consecutive acquisitions.
pub open spec fn total_of(gaps: Seq<int>) -> int
    decreases gaps.len(),
{
    if gaps.len() == 0 {
        0
    } else {
        total_of(gaps.drop_last()) + gaps.last()
    }
}

/// Law: a fixed rate is enforced over a whole run. When every gap between
/// consecutive acquisitions is at least the target interval, the whole run of
/// gaps takes at least the target times their number.
pub proof fn lemma_rate_enforced_over_run(gaps: Seq<int>, target_nanos: int)
    requires
        forall|i: int| 0 <= i < gaps.len() ==> gaps[i] >= target_nanos,
    ensures
        total_of(gaps) >= gaps.len() * target_nanos,
    decreases gaps.len(),
{
    if gaps.len() > 0 {
        lemma_rate_enforced_over_run(gaps.drop_last(), target_nanos);
        assert((gaps.len() - 1) * target_nanos + target_nanos == gaps.len() * target_nanos)
            by (nonlinear_arith);
    }
}

} // verus!
