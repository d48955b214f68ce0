//! Bounded retry with a fixed pause, and the poll policy of the liveness
//! checks.

use vstd::prelude::*;

verus! {

/// How often an operation may be attempted, and how long to pause between
/// two attempts.
#[derive(Clone, Copy, Debug, PartialEq, Eq, Structural)]
pub struct RetryBudget {
    pub max_attempts: u32,
    pub delay_secs: u32,
}

/// What follows a failed attempt.
#[derive(Clone, Copy, Debug, PartialEq, Eq, Structural)]
pub enum RetryDecision {
    /// Pause for so many seconds, then attempt again.
    PauseThenRetry(u32),
    /// The budget is spent.
    GiveUp,
}

/// What follows the failure of an attempt that `failures` failed attempts
/// went before: another attempt while fewer than `max_attempts` were made.
pub open spec fn decision_after(budget: RetryBudget, failures: u32) -> RetryDecision {
    if failures + 1 < budget.max_attempts {
        RetryDecision::PauseThenRetry(budget.delay_secs)
    } else {
        RetryDecision::GiveUp
    }
}

impl RetryBudget {
/// A budget of `max_attempts` attempts, `delay_secs` seconds apart.
    pub fn new(max_attempts: u32, delay_secs: u32) -> (budget: RetryBudget)
        ensures
            budget.max_attempts == max_attempts,
            budget.delay_secs == delay_secs,
    {
        RetryBudget { max_attempts, delay_secs }
    }

    /// Three attempts, two seconds apart.
    pub fn standard() -> (budget: RetryBudget)
        ensures
            budget == (RetryBudget { max_attempts: 3, delay_secs: 2 }),
    {
        RetryBudget { max_attempts: 3, delay_secs: 2 }
    }

    /// Whether the budget allows a first attempt at all.
    pub fn allows_attempt(&self) -> (r: bool)
        ensures
            r == (self.max_attempts > 0),
    {
        self.max_attempts > 0
    }

    /// What follows the failure of an attempt that `failures` failed attempts
    /// went before.
    pub fn after_failure(&self, failures: u32) -> (r: RetryDecision)
        ensures
            r == decision_after(*self, failures),
    {
        if failures < u32::MAX && failures + 1 < self.max_attempts {
            RetryDecision::PauseThenRetry(self.delay_secs)
        } else {
            RetryDecision::GiveUp
        }
    }
}

/// The pause before the attempt numbered `attempt`, in seconds: none before
/// the first attempt, the budget's delay before every later one.
pub open spec fn pause_before(budget: RetryBudget, attempt: u32) -> u32 {
    if attempt == 0 {
        0
    } else {
        budget.delay_secs
    }
}

/// Whether the attempt numbered `attempt` of `operation`, made after the
/// pause that the budget asks for, can have failed.
pub open spec fn failed_at<T, E, F: Fn(u32, u32) -> Result<T, E>>(
    operation: F,
    budget: RetryBudget,
    attempt: u32,
) -> bool {
    exists|error: E|
        call_ensures(operation, (attempt, pause_before(budget, attempt)), Err::<T, E>(error))
}

/// Whether the attempt numbered `attempt` of `operation`, made after the
/// pause that the budget asks for, can have given `value` after every earlier
/// attempt had failed.
pub open spec fn first_success_at<T, E, F: Fn(u32, u32) -> Result<T, E>>(
    operation: F,
    budget: RetryBudget,
    attempt: u32,
    value: T,
) -> bool {
    &&& call_ensures(operation, (attempt, pause_before(budget, attempt)), Ok::<T, E>(value))
    &&& forall|earlier: u32|
        earlier < attempt ==> #[trigger] failed_at(operation, budget, earlier)
}

/// Attempts `operation` until it succeeds, `budget.max_attempts` times at
/// most, and gives the first success; nothing when every attempt has failed,
/// or none was allowed. The operation is told the number of the attempt,
/// counted from zero, and the seconds that it is to pause before it makes the
/// attempt: none before the first, the budget's delay before every later one.
pub fn retry<T, E, F: Fn(u32, u32) -> Result<T, E>>(budget: RetryBudget, operation: F) -> (r:
    Option<T>)
    requires
        forall|attempt: u32|
            attempt < budget.max_attempts ==> call_requires(
                operation,
                (attempt, pause_before(budget, attempt)),
            ),
    ensures
        r is Some ==> exists|attempt: u32|
            attempt < budget.max_attempts && #[trigger] first_success_at(
                operation,
                budget,
                attempt,
                r->0,
            ),
        r is None ==> forall|attempt: u32|
            attempt < budget.max_attempts ==> #[trigger] failed_at(operation, budget, attempt),
{
    let mut attempt: u32 = 0;
    let mut found: Option<T> = None;
    while attempt < budget.max_attempts && found.is_none()
        invariant
            attempt <= budget.max_attempts,
            forall|a: u32|
                a < budget.max_attempts ==> call_requires(
                    operation,
                    (a, pause_before(budget, a)),
                ),
            found is None ==> forall|earlier: u32|
                earlier < attempt ==> #[trigger] failed_at(operation, budget, earlier),
            found is Some ==> exists|a: u32|
                a < budget.max_attempts && #[trigger] first_success_at(
                    operation,
                    budget,
                    a,
                    found->0,
                ),
        decreases budget.max_attempts - attempt,
    {
        let pause: u32 = if attempt == 0 {
            0
        } else {
            budget.delay_secs
        };
        match operation(attempt, pause) {
            Ok(value) => {
                found = Some(value);
                assert(first_success_at(operation, budget, attempt, found->0));
            },
            Err(error) => {
                assert(call_ensures(
                    operation,
                    (attempt, pause_before(budget, attempt)),
                    Err::<T, E>(error),
                ));
            },
        }
        attempt += 1;
    }
    found
}

/// How the process table is polled after a termination signal.
#[derive(Clone, Copy, Debug, PartialEq, Eq, Structural)]
pub struct PollPolicy {
    /// How many checks are made before the forced signal.
    pub max_checks: u32,
    /// The pause between the signal and the first check, in seconds.
    pub settle_secs: u32,
    /// The unit of the pause before a later check, in seconds.
    pub backoff_secs: u32,
}

/// The pause before the check that `checks` failed checks went before: the
/// unit times the number of the check, counted from one.
pub open spec fn backoff_before(policy: PollPolicy, checks: u32) -> u64 {
    (policy.backoff_secs * (checks + 1)) as u64
}

impl PollPolicy {
    /// Three checks, the first a second after the signal, the later ones
    /// after twenty and thirty seconds.
    pub fn standard() -> (policy: PollPolicy)
        ensures
            policy == (PollPolicy { max_checks: 3, settle_secs: 1, backoff_secs: 10 }),
    {
        PollPolicy { max_checks: 3, settle_secs: 1, backoff_secs: 10 }
    }

    /// The pause before the check that `checks` failed checks went before.
    pub fn backoff(&self, checks: u32) -> (secs: u64)
        ensures
            secs == backoff_before(*self, checks),
            secs == self.backoff_secs * (checks + 1),
    {
        let unit: u64 = self.backoff_secs as u64;
        let number: u64 = checks as u64 + 1;
        assert(unit * number <= 0xFFFF_FFFF * 0x1_0000_0000) by (nonlinear_arith)
            requires
                unit <= 0xFFFF_FFFF,
                number <= 0x1_0000_0000,
        ;
        unit * number
    }
}

/// The budgets and pauses of one deployment.
#[derive(Clone, Copy, Debug, PartialEq, Eq)]
pub struct Plan {
    /// The budget for opening the session; without one, a single attempt
    /// whose failure is the deployment's.
    pub session: Option<RetryBudget>,
    /// The budget for the transfer.
    pub transfer: Option<RetryBudget>,
    /// The budget for stopping the old process.
    pub termination: Option<RetryBudget>,
    pub poll: PollPolicy,
    /// The pause between the launch and the check that it took, in seconds.
    pub warmup_secs: u32,
}

/// The plan of every deployment that is not given another: each stage that
/// may be attempted again is attempted up to three times, two seconds apart.
pub open spec fn retrying_plan() -> Plan {
    Plan {
        session: Some(RetryBudget { max_attempts: 3, delay_secs: 2 }),
        transfer: Some(RetryBudget { max_attempts: 3, delay_secs: 2 }),
        termination: Some(RetryBudget { max_attempts: 3, delay_secs: 2 }),
        poll: PollPolicy { max_checks: 3, settle_secs: 1, backoff_secs: 10 },
        warmup_secs: 2,
    }
}

impl Plan {
    /// Every stage with the standard budget.
    pub fn retrying() -> (plan: Plan)
        ensures
            plan == retrying_plan(),
    {
        Plan {
            session: Some(RetryBudget::standard()),
            transfer: Some(RetryBudget::standard()),
            termination: Some(RetryBudget::standard()),
            poll: PollPolicy::standard(),
            warmup_secs: 2,
        }
    }
}

} // verus!
