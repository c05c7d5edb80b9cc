//! How often a failing call is tried again, and how long to wait in between.

use vstd::prelude::*;

verus! {

/// How the wait grows from one failed attempt to the next.
#[derive(Debug, Clone, Copy, PartialEq, Eq, Structural)]
pub enum Backoff {
    /// The base delay times the number of the attempt that failed.
    Linear,
    /// The base delay after the first failure, and `multiplier` times the
    /// wait before after each further one.
    Exponential { multiplier: u64 },
}

/// A bound on the attempts, and the wait between them.
#[derive(Debug, Clone, Copy, PartialEq, Eq, Structural)]
pub struct RetryPolicy {
    pub max_attempts: u32,
    pub base_delay_ms: u64,
    pub backoff: Backoff,
}

/// What to do once an attempt has failed.
#[derive(Debug, Clone, Copy, PartialEq, Eq, Structural)]
pub enum RetryDecision {
    /// Wait this long, then make the attempt with this number.
    RetryAfter { delay_ms: u64, next_attempt: u32 },
    /// No attempt is left: the failure is final.
    GiveUp,
}

/// `base` to the power `exponent`.
pub open spec fn power(base: nat, exponent: nat) -> nat
    decreases exponent,
{
    if exponent == 0 {
        1
    } else {
        base * power(base, (exponent - 1) as nat)
    }
}

/// A number of milliseconds, held down to what 64 bits can say.
pub open spec fn capped(delay: nat) -> nat {
    if delay > u64::MAX {
        u64::MAX as nat
    } else {
        delay
    }
}

/// The product of two factors, held down to what 64 bits can say.
pub fn capped_product(a: u64, b: u64) -> (product: u64)
    ensures
        product == capped((a * b) as nat),
{
    assert(0 <= a * b <= u64::MAX * u64::MAX) by (nonlinear_arith)
        requires
            0 <= a <= u64::MAX,
            0 <= b <= u64::MAX,
    ;
    let wide: u128 = (a as u128) * (b as u128);
    if wide > u64::MAX as u128 {
        u64::MAX
    } else {
        wide as u64
    }
}

impl RetryPolicy {
    /// A policy whose wait grows by the base delay with each failure.
    pub fn linear(max_attempts: u32, base_delay_ms: u64) -> (policy: Self)
        ensures
            policy == (RetryPolicy { max_attempts, base_delay_ms, backoff: Backoff::Linear }),
    {
        RetryPolicy { max_attempts, base_delay_ms, backoff: Backoff::Linear }
    }

    /// A policy whose wait doubles with each failure.
    pub fn exponential(max_attempts: u32, base_delay_ms: u64) -> (policy: Self)
        ensures
            policy == (RetryPolicy {
                max_attempts,
                base_delay_ms,
                backoff: Backoff::Exponential { multiplier: 2 },
            }),
    {
        RetryPolicy { max_attempts, base_delay_ms, backoff: Backoff::Exponential { multiplier: 2 } }
    }

    /// The wait that the policy asks for after the failure of attempt number
    /// `attempt`, counted from one, before any cap.
    pub open spec fn uncapped_delay(self, attempt: nat) -> nat {
        if attempt == 0 {
            0
        } else {
            match self.backoff {
                Backoff::Linear => self.base_delay_ms as nat * attempt,
                Backoff::Exponential { multiplier } => self.base_delay_ms as nat * power(
                    multiplier as nat,
                    (attempt - 1) as nat,
                ),
            }
        }
    }

    /// The wait in milliseconds after the failure of attempt number `attempt`.
    pub open spec fn delay_ms(self, attempt: nat) -> nat {
        capped(self.uncapped_delay(attempt))
    }

    /// What the policy decides once attempt number `attempt` has failed.
    pub open spec fn decision(self, attempt: nat) -> RetryDecision {
        if attempt < self.max_attempts {
            RetryDecision::RetryAfter {
                delay_ms: self.delay_ms(attempt) as u64,
                next_attempt: (attempt + 1) as u32,
            }
        } else {
            RetryDecision::GiveUp
        }
    }

    /// Whether the policy allows a first attempt at all.
    pub fn allows_attempt(&self) -> (allowed: bool)
        ensures
            allowed == (self.max_attempts > 0),
    {
        self.max_attempts > 0
    }

    /// The wait in milliseconds after the failure of attempt number `attempt`,
    /// counted from one.
    pub fn delay_after(&self, attempt: u32) -> (delay: u64)
        ensures
            delay == self.delay_ms(attempt as nat),
    {
        if attempt == 0 {
            return 0;
        }
        match self.backoff {
            Backoff::Linear => capped_product(self.base_delay_ms, attempt as u64),
            Backoff::Exponential { multiplier } => {
                let mut factor: u64 = 1;
                let mut k: u32 = 1;
                while k < attempt
                    invariant
                        1 <= k <= attempt,
                        factor == capped(power(multiplier as nat, (k - 1) as nat)),
                    decreases attempt - k,
                {
                    let ghost exact = power(multiplier as nat, (k - 1) as nat);
                    let ghost m = multiplier as nat;
                    assert(power(m, k as nat) == m * exact);
                    assert(capped(factor as nat * m) == capped(exact * m)) by (nonlinear_arith)
                        requires
                            factor == capped(exact),
                            m <= u64::MAX,
                    {
                        if exact > u64::MAX && m >= 1 {
                            assert(exact * m >= exact);
                            assert(factor as nat * m >= factor as nat);
                        }
                    }
                    assert(factor as nat * m == m * factor as nat) by (nonlinear_arith);
                    assert(exact * m == m * exact) by (nonlinear_arith);
                    factor = capped_product(factor, multiplier);
                    k = k + 1;
                }
                let ghost exact = power(multiplier as nat, (attempt - 1) as nat);
                let ghost base = self.base_delay_ms as nat;
                assert(capped(base * factor as nat) == capped(base * exact)) by (nonlinear_arith)
                    requires
                        factor == capped(exact),
                        base <= u64::MAX,
                {
                    if exact > u64::MAX && base >= 1 {
                        assert(base * exact >= exact);
                        assert(base * factor as nat >= factor as nat);
                    }
                }
                capped_product(self.base_delay_ms, factor)
            },
        }
    }

    /// Decides what follows the failure of attempt number `attempt`, counted
    /// from one: another attempt after a wait while fewer than `max_attempts`
    /// were made, else the end.
    pub fn after_failure(&self, attempt: u32) -> (decision: RetryDecision)
        ensures
            decision == self.decision(attempt as nat),
    {
        if attempt < self.max_attempts {
            RetryDecision::RetryAfter {
                delay_ms: self.delay_after(attempt),
                next_attempt: attempt + 1,
            }
        } else {
            RetryDecision::GiveUp
        }
    }
}

/// How a run ended in which every attempt failed.
pub struct FailedRun {
    /// Attempts that were made.
    pub attempts: nat,
    /// Milliseconds waited between them, all told.
    pub waited_ms: nat,
}

impl RetryPolicy {
    /// The waits after the failures of the attempts one to `failures`, added
    /// up.
    pub open spec fn total_wait(self, failures: nat) -> nat
        decreases failures,
    {
        if failures == 0 {
            0
        } else {
            self.total_wait((failures - 1) as nat) + self.delay_ms(failures)
        }
    }

    /// The run that follows the failure of attempt number `attempt`, when
    /// every later attempt fails too and `waited_ms` were waited so far: each
    /// decision of the policy is followed until it gives up.
    pub open spec fn run_after_failure(self, attempt: nat, waited_ms: nat) -> FailedRun
        decreases self.max_attempts - attempt,
    {
        match self.decision(attempt) {
            RetryDecision::RetryAfter { delay_ms, next_attempt } => if attempt < self.max_attempts {
                self.run_after_failure(attempt + 1, waited_ms + delay_ms as nat)
            } else {
                FailedRun { attempts: attempt, waited_ms }
            },
            RetryDecision::GiveUp => FailedRun { attempts: attempt, waited_ms },
        }
    }

    /// The run in which every attempt fails, from the first attempt on. A
    /// policy that allows no attempt makes none.
    pub open spec fn failing_run(self) -> FailedRun {
        if self.max_attempts == 0 {
            FailedRun { attempts: 0, waited_ms: 0 }
        } else {
            self.run_after_failure(1, 0)
        }
    }

    /// Once attempt number `attempt` has failed and every later one fails
    /// too, the run ends after attempt number `max_attempts`, having waited
    /// once after each attempt but the last.
    pub proof fn lemma_run_after_failure(self, attempt: nat, waited_ms: nat)
        requires
            1 <= attempt <= self.max_attempts,
        ensures
            self.run_after_failure(attempt, waited_ms).attempts == self.max_attempts,
            self.run_after_failure(attempt, waited_ms).waited_ms == waited_ms + self.total_wait(
                (self.max_attempts - 1) as nat,
            ) - self.total_wait((attempt - 1) as nat),
        decreases self.max_attempts - attempt,
    {
        if attempt < self.max_attempts {
            self.lemma_run_after_failure(attempt + 1, waited_ms + self.delay_ms(attempt));
        }
    }

    /// A call that always fails is attempted exactly `max_attempts` times and
    /// then given up: never more often, never for ever. Between the attempts
    /// the policy waits once after each failure but the last.
    pub proof fn lemma_attempts_are_bounded(self)
        ensures
            self.failing_run().attempts == self.max_attempts,
            self.max_attempts > 0 ==> self.failing_run().waited_ms == self.total_wait(
                (self.max_attempts - 1) as nat,
            ),
            self.decision(self.max_attempts as nat) == RetryDecision::GiveUp,
            forall|attempt: nat|
                attempt < self.max_attempts ==> #[trigger] self.decision(attempt)
                    == (RetryDecision::RetryAfter {
                    delay_ms: self.delay_ms(attempt) as u64,
                    next_attempt: (attempt + 1) as u32,
                }),
    {
        if self.max_attempts > 0 {
            self.lemma_run_after_failure(1, 0);
            assert(self.total_wait(0) == 0);
        }
    }

    /// With linear backoff, and as long as no single wait reaches the cap,
    /// the waits after `failures` failures add up to the base delay times
    /// `1 + 2 + ... + failures`.
    pub proof fn lemma_linear_total_wait(self, failures: nat)
        requires
            self.backoff == Backoff::Linear,
            self.base_delay_ms * failures <= u64::MAX,
        ensures
            2 * self.total_wait(failures) == self.base_delay_ms * failures * (failures + 1),
        decreases failures,
    {
        let base = self.base_delay_ms as nat;
        if failures > 0 {
            let fewer = (failures - 1) as nat;
            assert(base * fewer <= base * failures) by (nonlinear_arith)
                requires
                    fewer <= failures,
            ;
            self.lemma_linear_total_wait(fewer);
            assert(self.delay_ms(failures) == base * failures);
            assert(base * fewer * (fewer + 1) + 2 * (base * failures) == base * failures * (failures
                + 1)) by (nonlinear_arith)
                requires
                    fewer + 1 == failures,
            ;
        } else {
            assert(base * failures * (failures + 1) == 0) by (nonlinear_arith)
                requires
                    failures == 0,
            ;
        }
    }
}

} // verus!
