//! Counters of pipeline outcomes, for an observability collaborator.
use vstd::prelude::*;

use crate::cast::CastResponse;
use crate::errors::CastError;

verus! {

/// `x + 1`, held at `u64::MAX`.
pub open spec fn bumped(x: u64) -> u64 {
    if x < u64::MAX {
        (x + 1) as u64
    } else {
        u64::MAX
    }
}

fn bump(x: u64) -> (r: u64)
    ensures
        r == bumped(x),
{
    x.saturating_add(1)
}

/// How many requests reached each decision point.
#[derive(Debug, Clone, Copy, PartialEq, Eq, Structural)]
pub struct Metrics {
    /// Admitted casts, completed or failed.
    pub cast_total: u64,
    /// Admitted casts that failed.
    pub cast_failed: u64,
    /// Requests the rate limiter turned away.
    pub rate_limited_total: u64,
    /// Requests the budget guard turned away.
    pub budget_blocked_total: u64,
}

impl Metrics {
    pub fn new() -> (r: Metrics)
        ensures
            r == (Metrics { cast_total: 0, cast_failed: 0, rate_limited_total: 0, budget_blocked_total: 0 }),
    {
        Metrics { cast_total: 0, cast_failed: 0, rate_limited_total: 0, budget_blocked_total: 0 }
    }

    /// Counts the outcome of one request: a rate-limit or budget rejection,
    /// or an admitted cast that completed or failed.
    pub fn observe(&mut self, outcome: &Result<CastResponse, CastError>)
        ensures
            outcome matches Err(CastError::RateLimited { .. }) ==> *final(self) == (Metrics {
                rate_limited_total: bumped(old(self).rate_limited_total),
                ..*old(self)
            }),
            outcome matches Err(CastError::BudgetExceeded(_)) ==> *final(self) == (Metrics {
                budget_blocked_total: bumped(old(self).budget_blocked_total),
                ..*old(self)
            }),
            outcome is Ok ==> *final(self) == (Metrics { cast_total: bumped(old(self).cast_total), ..*old(self) }),
            (outcome is Err && !(outcome->Err_0 is RateLimited) && !(outcome->Err_0 is BudgetExceeded)) ==> *final(self)
                == (Metrics {
                cast_total: bumped(old(self).cast_total),
                cast_failed: bumped(old(self).cast_failed),
                ..*old(self)
            }),
    {
        match outcome {
            Ok(_) => {
                self.cast_total = bump(self.cast_total);
            },
            Err(CastError::RateLimited { .. }) => {
                self.rate_limited_total = bump(self.rate_limited_total);
            },
            Err(CastError::BudgetExceeded(_)) => {
                self.budget_blocked_total = bump(self.budget_blocked_total);
            },
            Err(_) => {
                self.cast_total = bump(self.cast_total);
                self.cast_failed = bump(self.cast_failed);
            },
        }
    }
}

} // verus!
