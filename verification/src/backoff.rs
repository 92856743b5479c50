//! The delay between two attempts to connect: it starts at an initial
//! interval, is multiplied after every failure, and never exceeds a maximum.
//! Intervals are whole milliseconds and the multiplier is a fraction.

use vstd::arithmetic::div_mod::{lemma_div_is_ordered, lemma_div_multiples_vanish};
use vstd::arithmetic::mul::{lemma_mul_inequality, lemma_mul_upper_bound};
use vstd::prelude::*;

verus! {

/// First delay, in milliseconds.
pub const DEFAULT_INITIAL_INTERVAL: u64 = 500;

/// Longest delay, in milliseconds.
pub const DEFAULT_MAX_INTERVAL: u64 = 60_000;

/// The default multiplier is three halves.
pub const DEFAULT_MULTIPLIER_NUMERATOR: u64 = 3;

pub const DEFAULT_MULTIPLIER_DENOMINATOR: u64 = 2;

/// A backoff policy as a value.
pub struct BackoffView {
    pub initial: nat,
    pub max: nat,
    pub numerator: nat,
    pub denominator: nat,
    pub current: nat,
}

impl BackoffView {
    /// The multiplier is at least one, and the current interval lies between
    /// the initial one and the maximum.
    pub open spec fn wf(self) -> bool {
        &&& 0 < self.denominator <= self.numerator
        &&& self.initial <= self.current <= self.max
    }

    /// The interval that follows the current one.
    pub open spec fn grown(self) -> nat {
        let multiplied = (self.current * self.numerator) / self.denominator;
        if multiplied < self.max {
            multiplied
        } else {
            self.max
        }
    }

    /// The policy after it has handed out its current interval.
    pub open spec fn advanced(self) -> BackoffView {
        BackoffView {
            initial: self.initial,
            max: self.max,
            numerator: self.numerator,
            denominator: self.denominator,
            current: self.grown(),
        }
    }

    /// The policy after a success: back at the initial interval.
    pub open spec fn restarted(self) -> BackoffView {
        BackoffView {
            initial: self.initial,
            max: self.max,
            numerator: self.numerator,
            denominator: self.denominator,
            current: self.initial,
        }
    }

    /// The policy after a number of failures in a row.
    pub open spec fn after(self, failures: nat) -> BackoffView
        decreases failures,
    {
        if failures == 0 {
            self
        } else {
            self.after((failures - 1) as nat).advanced()
        }
    }

    /// The delay that follows a number of earlier failures in a row.
    pub open spec fn delay(self, failures: nat) -> nat {
        self.after(failures).current
    }
}

/// The interval never shrinks and never passes the maximum.
pub proof fn lemma_advance_grows(policy: BackoffView)
    requires
        policy.wf(),
    ensures
        policy.current <= policy.grown() <= policy.max,
        policy.advanced().wf(),
{
    let c = policy.current as int;
    let n = policy.numerator as int;
    let d = policy.denominator as int;
    lemma_mul_inequality(d, n, c);
    assert(d * c <= c * n) by {
        assert(d * c == c * d) by (nonlinear_arith);
        assert(n * c == c * n) by (nonlinear_arith);
    }
    lemma_div_is_ordered(d * c, c * n, d);
    lemma_div_multiples_vanish(c, d);
}

/// Failures change the current interval only.
pub proof fn lemma_failures_keep_settings(policy: BackoffView, failures: nat)
    ensures
        policy.after(failures).initial == policy.initial,
        policy.after(failures).max == policy.max,
        policy.after(failures).numerator == policy.numerator,
        policy.after(failures).denominator == policy.denominator,
    decreases failures,
{
    if failures > 0 {
        lemma_failures_keep_settings(policy, (failures - 1) as nat);
    }
}

/// After any number of failures in a row the next delay is at least the one
/// before it and at most the maximum.
pub proof fn lemma_delays_never_shrink(policy: BackoffView, failures: nat)
    requires
        policy.wf(),
    ensures
        policy.after(failures).wf(),
        policy.initial <= policy.delay(failures) <= policy.delay(failures + 1) <= policy.max,
    decreases failures,
{
    if failures > 0 {
        lemma_delays_never_shrink(policy, (failures - 1) as nat);
    }
    lemma_failures_keep_settings(policy, failures);
    lemma_advance_grows(policy.after(failures));
    assert(policy.after(failures + 1) == policy.after(failures).advanced());
}

/// A later delay in a run of failures is never shorter than an earlier one.
pub proof fn lemma_delays_ordered(policy: BackoffView, earlier: nat, later: nat)
    requires
        policy.wf(),
        earlier <= later,
    ensures
        policy.initial <= policy.delay(earlier) <= policy.delay(later) <= policy.max,
    decreases later - earlier,
{
    lemma_delays_never_shrink(policy, earlier);
    if earlier < later {
        lemma_delays_ordered(policy, earlier + 1, later);
    }
}

/// After a success the delays start over at the initial interval.
pub proof fn lemma_restart_forgets_failures(policy: BackoffView, failures: nat)
    requires
        policy.wf(),
    ensures
        policy.after(failures).restarted() == policy.restarted(),
        policy.restarted().wf(),
        policy.restarted().delay(0) == policy.initial,
{
    lemma_failures_keep_settings(policy, failures);
}

/// The backoff policy of the supervisor.
#[derive(Clone, Copy, Debug, PartialEq, Eq)]
pub struct Backoff {
    initial_interval: u64,
    max_interval: u64,
    numerator: u64,
    denominator: u64,
    current_interval: u64,
}

impl View for Backoff {
    type V = BackoffView;

    closed spec fn view(&self) -> BackoffView {
        BackoffView {
            initial: self.initial_interval as nat,
            max: self.max_interval as nat,
            numerator: self.numerator as nat,
            denominator: self.denominator as nat,
            current: self.current_interval as nat,
        }
    }
}

impl Backoff {
    #[verifier::type_invariant]
    spec fn inv(self) -> bool {
        self@.wf()
    }

    /// A policy with the given intervals, in milliseconds, and multiplier.
    /// The multiplier must be at least one and the initial interval at most
    /// the maximum; anything else is refused.
    pub fn new(initial_interval: u64, max_interval: u64, numerator: u64, denominator: u64) -> (made:
        Option<Backoff>)
        ensures
            (0 < denominator <= numerator && initial_interval <= max_interval) <==> made is Some,
            made matches Some(policy) ==> policy@ == (BackoffView {
                initial: initial_interval as nat,
                max: max_interval as nat,
                numerator: numerator as nat,
                denominator: denominator as nat,
                current: initial_interval as nat,
            }) && policy@.wf(),
    {
        if 0 < denominator && denominator <= numerator && initial_interval <= max_interval {
            Some(
                Backoff {
                    initial_interval,
                    max_interval,
                    numerator,
                    denominator,
                    current_interval: initial_interval,
                },
            )
        } else {
            None
        }
    }

    /// The delay that the next failure will get, in milliseconds.
    pub fn current_interval(&self) -> (interval: u64)
        ensures
            interval == self@.current,
            self@.wf(),
    {
        proof {
            use_type_invariant(self);
        }
        self.current_interval
    }

    /// The longest delay, in milliseconds.
    pub fn max_interval(&self) -> (interval: u64)
        ensures
            interval == self@.max,
            self@.wf(),
    {
        proof {
            use_type_invariant(self);
        }
        self.max_interval
    }

    /// The first delay, in milliseconds.
    pub fn initial_interval(&self) -> (interval: u64)
        ensures
            interval == self@.initial,
            self@.wf(),
    {
        proof {
            use_type_invariant(self);
        }
        self.initial_interval
    }

    /// Hands out the delay for the failure that just happened and moves on
    /// to the next interval.
    pub fn next_delay(&mut self) -> (delay: u64)
        ensures
            old(self)@.wf(),
            delay == old(self)@.current,
            final(self)@ == old(self)@.advanced(),
            delay <= final(self)@.current <= final(self)@.max,
    {
        proof {
            use_type_invariant(&*self);
            lemma_advance_grows(self@);
            lemma_mul_upper_bound(
                self.current_interval as int,
                u64::MAX as int,
                self.numerator as int,
                u64::MAX as int,
            );
            assert(u64::MAX * u64::MAX <= u128::MAX) by (nonlinear_arith);
        }
        let delay = self.current_interval;
        let multiplied: u128 = (self.current_interval as u128) * (self.numerator as u128) / (
        self.denominator as u128);
        if multiplied < self.max_interval as u128 {
            self.current_interval = multiplied as u64;
        } else {
            self.current_interval = self.max_interval;
        }
        delay
    }

    /// Starts over at the initial interval, as after a success.
    pub fn reset(&mut self)
        ensures
            old(self)@.wf(),
            final(self)@ == old(self)@.restarted(),
    {
        proof {
            use_type_invariant(&*self);
        }
        self.current_interval = self.initial_interval;
    }
}

impl Default for Backoff {
    /// Half a second at first, half as much again after every failure, a
    /// minute at most.
    fn default() -> (policy: Backoff)
        ensures
            policy@ == (BackoffView {
                initial: DEFAULT_INITIAL_INTERVAL as nat,
                max: DEFAULT_MAX_INTERVAL as nat,
                numerator: DEFAULT_MULTIPLIER_NUMERATOR as nat,
                denominator: DEFAULT_MULTIPLIER_DENOMINATOR as nat,
                current: DEFAULT_INITIAL_INTERVAL as nat,
            }),
            policy@.wf(),
    {
        Backoff {
            initial_interval: DEFAULT_INITIAL_INTERVAL,
            max_interval: DEFAULT_MAX_INTERVAL,
            numerator: DEFAULT_MULTIPLIER_NUMERATOR,
            denominator: DEFAULT_MULTIPLIER_DENOMINATOR,
            current_interval: DEFAULT_INITIAL_INTERVAL,
        }
    }
}

} // verus!
