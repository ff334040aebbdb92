//! Retry policy and back-off delays for establishing the control-plane
//! connection.
//!
//! The connection itself is opened by the caller. [`Connector`] only decides:
//! it is told about each failed attempt and answers whether to wait and try
//! again or to give up.

use tokio_retry::strategy::FibonacciBackoff;
use vstd::prelude::*;

verus! {

/// Base delay of the back-off sequence, in milliseconds.
pub const CM_RETRY_BASE_TIMEOUT_MS: u64 = 100;

/// How often a failed connection attempt may be repeated.
#[derive(Clone, Copy, PartialEq, Eq, Structural, Debug)]
pub enum RetryTimes {
    Count(u32),
    Forever,
    Never,
}

impl RetryTimes {
    /// The number of connection attempts the policy pays for, `None` where it
    /// sets no bound.
    pub open spec fn attempt_limit(self) -> Option<nat> {
        match self {
            RetryTimes::Count(n) => Some(n as nat),
            RetryTimes::Forever => None,
            RetryTimes::Never => Some(1),
        }
    }

    /// The policy that is left once one attempt was paid for.
    pub open spec fn charged(self) -> RetryTimes {
        match self {
            RetryTimes::Count(c) => RetryTimes::Count(
                if c == 0 {
                    0u32
                } else {
                    (c - 1) as u32
                },
            ),
            other => other,
        }
    }

    /// Whether the policy allows a further attempt after the one being paid
    /// for.
    pub open spec fn allows_retry(self) -> bool {
        match self {
            RetryTimes::Forever => true,
            RetryTimes::Never => false,
            RetryTimes::Count(c) => c > 1,
        }
    }
}

/// The remaining retry budget of one series of connection attempts.
pub struct RetryState {
    retry_times: RetryTimes,
}

impl RetryState {
    /// The budget that is left.
    pub closed spec fn remaining(self) -> RetryTimes {
        self.retry_times
    }

    pub fn new(retry_times: RetryTimes) -> (state: Self)
        ensures
            state.remaining() == retry_times,
    {
        RetryState { retry_times }
    }

    /// Charges the budget for one failed attempt and tells whether the caller
    /// may try again. A counted budget never drops below zero.
    pub fn tick(&mut self) -> (again: bool)
        ensures
            again == old(self).remaining().allows_retry(),
            final(self).remaining() == old(self).remaining().charged(),
    {
        match self.retry_times {
            RetryTimes::Forever => true,
            RetryTimes::Never => false,
            RetryTimes::Count(c) => {
                let retries_left: u32 = c.saturating_sub(1);
                self.retry_times = RetryTimes::Count(retries_left);
                retries_left > 0
            },
        }
    }
}

/// The sum of two delays, held at the largest `u64` where it would pass it.
pub open spec fn saturating_sum(a: u64, b: u64) -> u64 {
    if a + b > u64::MAX {
        u64::MAX
    } else {
        (a + b) as u64
    }
}

/// The delay before retry number `k` (counted from zero) of a Fibonacci
/// back-off: the first two delays equal `base`, each later one is the sum of
/// the two before it.
pub open spec fn fibonacci_delay(base: u64, k: nat) -> u64
    decreases k,
{
    if k <= 1 {
        base
    } else {
        saturating_sum(fibonacci_delay(base, (k - 2) as nat), fibonacci_delay(base, (k - 1) as nat))
    }
}

#[verifier::external_type_specification]
#[verifier::external_body]
pub struct ExFibonacciBackoff(FibonacciBackoff);

/// The delay in milliseconds that the back-off hands out next, followed by
/// the one it hands out after that.
pub uninterp spec fn backoff_window(backoff: FibonacciBackoff) -> Seq<u64>;

/// Whether the back-off was made without a scaling factor and without a
/// maximum delay.
pub uninterp spec fn backoff_is_plain(backoff: FibonacciBackoff) -> bool;

/// `FibonacciBackoff::from_millis`: a fresh back-off with factor one and no
/// maximum delay, whose first two delays both equal the base delay.
#[verifier::external_body]
fn backoff_from_millis(millis: u64) -> (backoff: FibonacciBackoff)
    ensures
        backoff_is_plain(backoff),
        backoff_window(backoff) == seq![millis, millis],
{
    FibonacciBackoff::from_millis(millis)
}

/// `FibonacciBackoff::next`, for a back-off with factor one and no maximum
/// delay: always hands out a delay, namely the current one, and moves the
/// window one step along the Fibonacci series, saturating at the largest
/// `u64`.
#[verifier::external_body]
fn backoff_next(backoff: &mut FibonacciBackoff) -> (delay: Option<u64>)
    requires
        backoff_is_plain(*old(backoff)),
        backoff_window(*old(backoff)).len() == 2,
    ensures
        delay == Some(backoff_window(*old(backoff))[0]),
        backoff_is_plain(*final(backoff)),
        backoff_window(*final(backoff)) == seq![
            backoff_window(*old(backoff))[1],
            saturating_sum(backoff_window(*old(backoff))[0], backoff_window(*old(backoff))[1]),
        ],
{
    backoff.next().map(|d| d.as_millis() as u64)
}

/// What the connection manager asks of its caller.
#[derive(Debug, PartialEq, Eq)]
pub enum ConnectAction {
    /// Open the connection now.
    Attempt,
    /// Report the failure, wait for the delay in milliseconds, then open the
    /// connection again.
    RetryAfter(u64),
    /// Stop: the attempt budget is spent. The last failure is the error of
    /// the whole connection.
    GiveUp,
}

impl ConnectAction {
    /// Whether the action leads to a connection attempt.
    pub open spec fn attempts(self) -> bool {
        !(self is GiveUp)
    }
}

/// Decides, failure by failure, whether a connection is attempted again.
pub struct Connector {
    policy: Ghost<RetryTimes>,
    attempts: Ghost<nat>,
    budget: RetryState,
    backoff: FibonacciBackoff,
    spent: bool,
}

impl Connector {
    #[verifier::type_invariant]
    spec fn inv(self) -> bool {
        &&& backoff_is_plain(self.backoff)
        &&& backoff_window(self.backoff) == seq![
            fibonacci_delay(CM_RETRY_BASE_TIMEOUT_MS, self.retries()),
            fibonacci_delay(CM_RETRY_BASE_TIMEOUT_MS, self.retries() + 1),
        ]
        &&& match self.policy@ {
            RetryTimes::Count(n) => if self.spent {
                self.attempts@ == n
            } else {
                1 <= self.attempts@ <= n && self.budget.remaining() == RetryTimes::Count(
                    (n - self.attempts@ + 1) as u32,
                )
            },
            RetryTimes::Never => self.attempts@ == 1 && self.budget.remaining()
                == RetryTimes::Never,
            RetryTimes::Forever => !self.spent && self.attempts@ >= 1 && self.budget.remaining()
                == RetryTimes::Forever,
        }
    }

    /// The policy the connector was made with.
    pub closed spec fn policy(self) -> RetryTimes {
        self.policy@
    }

    /// The number of connection attempts asked for so far.
    pub closed spec fn attempts(self) -> nat {
        self.attempts@
    }

    /// The number of retries asked for so far.
    pub open spec fn retries(self) -> nat {
        if self.attempts() == 0 {
            0
        } else {
            (self.attempts() - 1) as nat
        }
    }

    /// Whether the policy pays for no further attempt.
    pub open spec fn exhausted(self) -> bool {
        self.policy().attempt_limit() matches Some(limit) && self.attempts() >= limit
    }

    /// Starts a series of attempts. A count of zero pays for no attempt at
    /// all; every other policy pays for the first one.
    pub fn start(policy: RetryTimes) -> (started: (Self, ConnectAction))
        ensures
            started.0.policy() == policy,
            started.1 == if policy == RetryTimes::Count(0) {
                ConnectAction::GiveUp
            } else {
                ConnectAction::Attempt
            },
            started.0.attempts() == if started.1.attempts() {
                1nat
            } else {
                0nat
            },
    {
        let backoff = backoff_from_millis(CM_RETRY_BASE_TIMEOUT_MS);
        let budget = RetryState::new(policy);
        let refused = match policy {
            RetryTimes::Count(n) => n == 0,
            _ => false,
        };
        if refused {
            (
                Connector { policy: Ghost(policy), attempts: Ghost(0), budget, backoff, spent: true },
                ConnectAction::GiveUp,
            )
        } else {
            (
                Connector {
                    policy: Ghost(policy),
                    attempts: Ghost(1),
                    budget,
                    backoff,
                    spent: false,
                },
                ConnectAction::Attempt,
            )
        }
    }

    /// Takes note of a failed attempt. While the policy allows, the answer is
    /// to retry after the next delay of the Fibonacci back-off; once the
    /// budget is spent it is to give up, and stays so.
    pub fn on_failure(self) -> (next: (Self, ConnectAction))
        ensures
            next.0.policy() == self.policy(),
            next.1 == if self.exhausted() {
                ConnectAction::GiveUp
            } else {
                ConnectAction::RetryAfter(
                    fibonacci_delay(CM_RETRY_BASE_TIMEOUT_MS, self.retries()),
                )
            },
            next.0.attempts() == if next.1.attempts() {
                self.attempts() + 1
            } else {
                self.attempts()
            },
            self.policy().attempt_limit() matches Some(limit) ==> next.0.attempts() <= limit,
    {
        proof {
            use_type_invariant(&self);
        }
        let Connector { policy, attempts, mut budget, mut backoff, spent } = self;
        if spent {
            return (Connector { policy, attempts, budget, backoff, spent }, ConnectAction::GiveUp);
        }
        if !budget.tick() {
            return (
                Connector { policy, attempts, budget, backoff, spent: true },
                ConnectAction::GiveUp,
            );
        }
        match backoff_next(&mut backoff) {
            Some(millis) => (
                Connector {
                    policy,
                    attempts: Ghost((attempts@ + 1) as nat),
                    budget,
                    backoff,
                    spent,
                },
                ConnectAction::RetryAfter(millis),
            ),
            None => (
                Connector { policy, attempts, budget, backoff, spent: true },
                ConnectAction::GiveUp,
            ),
        }
    }
}

} // verus!
