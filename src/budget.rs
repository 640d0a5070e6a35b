//! The budget guard: admission against a tenant's hard spending limit, over
//! the usage recorded in the current daily or monthly window (UTC).
use vstd::prelude::*;

use chrono::Datelike;

use crate::billing::{Budget, BudgetExceededError, BudgetPeriod};
use crate::ledger::{calls_in, spec_record, spent_in, record_fits, LedgerError, UsageLedger};

verus! {

/// Seconds in one UTC day.
pub const SECONDS_PER_DAY: i64 = 86400;

/// The last second of the year 9999; windows are computed up to it.
pub const LAST_TIMESTAMP: i64 = 253402300799;

/// Calendar year and month (1 to 12) of a Unix timestamp, in UTC.
pub uninterp spec fn utc_year_month_of(secs: int) -> (int, int);

/// Unix timestamp of midnight UTC on the first day of `month` of `year`.
pub uninterp spec fn month_start_of(year: int, month: int) -> int;

/// Relies on `chrono::DateTime::from_timestamp` with `Datelike::year` and
/// `Datelike::month`: the UTC calendar month that holds `secs`.
#[verifier::external_body]
fn utc_year_month(secs: i64) -> (r: (i32, u32))
    requires
        0 <= secs <= LAST_TIMESTAMP,
    ensures
        (r.0 as int, r.1 as int) == utc_year_month_of(secs as int),
        1970 <= r.0 <= 9999,
        1 <= r.1 <= 12,
        month_start_of(r.0 as int, r.1 as int) <= secs,
        secs < month_start_of(next_month(r.0 as int, r.1 as int).0, next_month(r.0 as int, r.1 as int).1),
{
    let t = chrono::DateTime::from_timestamp(secs, 0).expect("timestamp within year 9999");
    (t.year(), t.month())
}

/// Relies on `chrono::NaiveDate::from_ymd_opt`, `and_hms_opt` and
/// `and_utc().timestamp()`: the Unix timestamp of midnight UTC on the first
/// of the month.
#[verifier::external_body]
fn month_start_utc(year: i32, month: u32) -> (r: i64)
    requires
        1970 <= year <= 10000,
        1 <= month <= 12,
    ensures
        r as int == month_start_of(year as int, month as int),
        r % SECONDS_PER_DAY == 0,
{
    chrono::NaiveDate::from_ymd_opt(year, month, 1)
        .and_then(|d| d.and_hms_opt(0, 0, 0))
        .expect("first of month within range")
        .and_utc()
        .timestamp()
}

/// The month after `(year, month)`.
pub open spec fn next_month(year: int, month: int) -> (int, int) {
    if month == 12 {
        (year + 1, 1)
    } else {
        (year, month + 1)
    }
}

/// `[midnight today, midnight tomorrow)` around `now`.
pub open spec fn spec_daily_window(now: int) -> (int, int) {
    let start = now - now % (SECONDS_PER_DAY as int);
    (start, start + SECONDS_PER_DAY)
}

/// `[first of this month, first of next month)` around `now`.
pub open spec fn spec_monthly_window(now: int) -> (int, int) {
    let (y, m) = utc_year_month_of(now);
    let (ny, nm) = next_month(y, m);
    (month_start_of(y, m), month_start_of(ny, nm))
}

pub open spec fn spec_window(period: BudgetPeriod, now: int) -> (int, int) {
    match period {
        BudgetPeriod::Daily => spec_daily_window(now),
        BudgetPeriod::Monthly => spec_monthly_window(now),
    }
}

/// The spend that a rejection reports, capped at `i32::MAX`.
pub open spec fn reported_spend(spent: int) -> i32 {
    if spent > i32::MAX {
        i32::MAX
    } else {
        spent as i32
    }
}

/// Whether the guard turns the request away: a hard limit is set and the
/// spend has reached it.
pub open spec fn spec_blocks(budget: Option<&Budget>, spent: int) -> bool {
    match budget {
        Some(b) => b.hard_limit_cents is Some && spent >= b.hard_limit_cents->0,
        None => false,
    }
}

/// The hard limit is reached by equality: with a unit cost of one cent, a
/// spend equal to the limit blocks the next request and a spend one cent
/// below it admits it.
pub proof fn lemma_hard_limit_boundary(budget: Budget, hard_limit_cents: i32)
    requires
        budget.hard_limit_cents == Some(hard_limit_cents),
    ensures
        spec_blocks(Some(&budget), hard_limit_cents as int),
        !spec_blocks(Some(&budget), hard_limit_cents - 1),
{
}

/// A soft limit alone never blocks, whatever the spend.
pub proof fn lemma_soft_limit_never_blocks(budget: Budget, spent: int)
    requires
        budget.hard_limit_cents is None,
    ensures
        !spec_blocks(Some(&budget), spent),
{
}

/// A window whose ends fall on midnight holds the whole day of every
/// instant it holds; so a monthly budget sees each day recorded in it.
pub proof fn lemma_day_within_window(now: i64, start: i64, end: i64)
    requires
        0 <= now,
        start <= now < end,
        start % SECONDS_PER_DAY == 0,
        end % SECONDS_PER_DAY == 0,
    ensures
        start <= spec_daily_window(now as int).0,
        spec_daily_window(now as int).1 <= end,
{
    let d = SECONDS_PER_DAY as int;
    let day = now as int - (now as int) % d;
    assert(day % d == 0) by {
        vstd::arithmetic::div_mod::lemma_fundamental_div_mod(now as int, d);
        vstd::arithmetic::div_mod::lemma_mod_multiples_basic(now as int / d, d);
    }
    assert(start <= day) by {
        vstd::arithmetic::div_mod::lemma_fundamental_div_mod(start as int, d);
        vstd::arithmetic::div_mod::lemma_fundamental_div_mod(now as int, d);
        assert(start as int == d * (start as int / d));
        assert(day == d * (now as int / d));
        assert(start as int / d <= now as int / d) by {
            vstd::arithmetic::div_mod::lemma_div_is_ordered(start as int, now as int, d);
        }
        vstd::arithmetic::mul::lemma_mul_inequality(start as int / d, now as int / d, d);
    }
    assert(day + d <= end) by {
        vstd::arithmetic::div_mod::lemma_fundamental_div_mod(end as int, d);
        vstd::arithmetic::div_mod::lemma_fundamental_div_mod(now as int, d);
        assert(end as int == d * (end as int / d));
        assert(day == d * (now as int / d));
        assert(now as int / d < end as int / d) by {
            if end as int / d <= now as int / d {
                vstd::arithmetic::mul::lemma_mul_inequality(end as int / d, now as int / d, d);
            }
        }
        vstd::arithmetic::mul::lemma_mul_inequality(now as int / d + 1, end as int / d, d);
        vstd::arithmetic::mul::lemma_mul_is_distributive_add(d, now as int / d, 1);
    }
}

/// The budget guard and the usage it reads.
pub struct BudgetService;

impl BudgetService {
    pub fn daily_window(now: i64) -> (r: (i64, i64))
        requires
            0 <= now <= LAST_TIMESTAMP,
        ensures
            (r.0 as int, r.1 as int) == spec_daily_window(now as int),
            r.0 <= now < r.1,
            r.0 % SECONDS_PER_DAY == 0,
            r.1 == r.0 + SECONDS_PER_DAY,
    {
        let start = now - now % SECONDS_PER_DAY;
        (start, start + SECONDS_PER_DAY)
    }

    /// The calendar month after `(year, month)`.
    pub fn following_month(year: i32, month: u32) -> (r: (i32, u32))
        requires
            year < i32::MAX,
            1 <= month <= 12,
        ensures
            (r.0 as int, r.1 as int) == next_month(year as int, month as int),
            1 <= r.1 <= 12,
    {
        if month == 12 {
            (year + 1, 1)
        } else {
            (year, month + 1)
        }
    }

    pub fn monthly_window(now: i64) -> (r: (i64, i64))
        requires
            0 <= now <= LAST_TIMESTAMP,
        ensures
            (r.0 as int, r.1 as int) == spec_monthly_window(now as int),
            r.0 <= now < r.1,
            r.0 % SECONDS_PER_DAY == 0,
            r.1 % SECONDS_PER_DAY == 0,
    {
        let (year, month) = utc_year_month(now);
        let start = month_start_utc(year, month);
        let (next_year, next) = Self::following_month(year, month);
        let end = month_start_utc(next_year, next);
        (start, end)
    }

    /// The window of `period` that holds `now`.
    pub fn window_for(period: BudgetPeriod, now: i64) -> (r: (i64, i64))
        requires
            0 <= now <= LAST_TIMESTAMP,
        ensures
            (r.0 as int, r.1 as int) == spec_window(period, now as int),
            r.0 <= now < r.1,
            r.0 % SECONDS_PER_DAY == 0,
            r.1 % SECONDS_PER_DAY == 0,
    {
        match period {
            BudgetPeriod::Daily => Self::daily_window(now),
            BudgetPeriod::Monthly => Self::monthly_window(now),
        }
    }

    /// The guard's decision once the spend in the budget's window is known.
    /// Without a budget or without a hard limit every request passes; with
    /// one, a spend equal to or above it blocks the next request. A soft
    /// limit never blocks.
    pub fn verdict(budget: Option<&Budget>, spent_cents: u64) -> (r: Result<(), BudgetExceededError>)
        ensures
            r is Err <==> spec_blocks(budget, spent_cents as int),
            r matches Err(e) ==> {
                &&& e.error@ == "budget_exceeded"@
                &&& e.period@ == budget->0.period.spec_name()
                &&& e.hard_limit_cents == budget->0.hard_limit_cents->0
                &&& e.spent_cents == reported_spend(spent_cents as int)
            },
    {
        match budget {
            None => Ok(()),
            Some(b) => match b.hard_limit_cents {
                None => Ok(()),
                Some(hard) => {
                    if spent_cents as i128 >= hard as i128 {
                        let reported: i32 = if spent_cents > i32::MAX as u64 {
                            i32::MAX
                        } else {
                            spent_cents as i32
                        };
                        Err(BudgetExceededError::new(b.period.name().to_string(), hard, reported))
                    } else {
                        Ok(())
                    }
                },
            },
        }
    }

    /// The rejection used when the budget itself cannot be read: the guard
    /// fails closed.
    pub fn budget_unavailable() -> (r: BudgetExceededError)
        ensures
            r.error@ == "budget_exceeded"@,
            r.period@ == "monthly"@,
            r.hard_limit_cents == 0,
            r.spent_cents == 0,
    {
        BudgetExceededError::new("monthly".to_string(), 0, 0)
    }

    /// The rejection used when the spend cannot be read for a budget with a
    /// hard limit: the guard fails closed and reports no spend.
    pub fn usage_unavailable(budget: &Budget, hard_limit_cents: i32) -> (r: BudgetExceededError)
        ensures
            r.error@ == "budget_exceeded"@,
            r.period@ == budget.period.spec_name(),
            r.hard_limit_cents == hard_limit_cents,
            r.spent_cents == 0,
    {
        BudgetExceededError::new(budget.period.name().to_string(), hard_limit_cents, 0)
    }

    /// Admission of `user_id` under `budget` at time `now`, against the spend
    /// that `ledger` holds for the budget's current window.
    pub fn check_hard_limit(
        user_id: u128,
        budget: Option<&Budget>,
        ledger: &UsageLedger,
        now: i64,
    ) -> (r: Result<(), BudgetExceededError>)
        requires
            0 <= now <= LAST_TIMESTAMP,
        ensures
            budget matches Some(b) ==> {
                let w = spec_window(b.period, now as int);
                let spent = spent_in(ledger@, user_id, w.0 as i64, w.1 as i64);
                &&& r is Err <==> spec_blocks(budget, spent)
                &&& r matches Err(e) ==> e.error@ == "budget_exceeded"@
                    && e.period@ == b.period.spec_name()
                    && e.hard_limit_cents == b.hard_limit_cents->0
                    && e.spent_cents == reported_spend(spent)
            },
            budget is None ==> r is Ok,
    {
        match budget {
            None => Ok(()),
            Some(b) => {
                if b.hard_limit_cents.is_none() {
                    return Ok(());
                }
                let (start, end) = Self::window_for(b.period, now);
                let spent = ledger.spent_between(user_id, start, end);
                proof {
                    crate::ledger::lemma_spent_in_nonneg(ledger@, user_id, start, end);
                }
                Self::verdict(budget, spent)
            },
        }
    }

    /// Records one successful call costing `cost_cents` for `user_id` in the
    /// day that holds `now`; daily and monthly budgets both see it.
    pub fn record_usage(
        user_id: u128,
        cost_cents: u32,
        ledger: &mut UsageLedger,
        now: i64,
    ) -> (r: Result<(), LedgerError>)
        requires
            old(ledger).wf(),
            0 <= now <= LAST_TIMESTAMP,
        ensures
            final(ledger).wf(),
            ({
                let w = spec_daily_window(now as int);
                &&& r is Ok <==> record_fits(old(ledger)@, user_id, w.0 as i64, cost_cents)
                &&& r is Ok ==> final(ledger)@ == spec_record(old(ledger)@, user_id, cost_cents, w.0 as i64, w.1 as i64)
                &&& r is Err ==> final(ledger)@ == old(ledger)@
            }),
    {
        let (start, end) = Self::daily_window(now);
        ledger.record(user_id, cost_cents, start, end)
    }

    /// Calls and spend of `user_id` in the window of `period` that holds
    /// `now`, each capped at `u64::MAX`.
    pub fn get_current_usage(
        user_id: u128,
        period: BudgetPeriod,
        ledger: &UsageLedger,
        now: i64,
    ) -> (r: (u64, u64))
        requires
            0 <= now <= LAST_TIMESTAMP,
        ensures
            ({
                let w = spec_window(period, now as int);
                &&& r.0 == vstd::math::min(calls_in(ledger@, user_id, w.0 as i64, w.1 as i64), u64::MAX as int)
                &&& r.1 == vstd::math::min(spent_in(ledger@, user_id, w.0 as i64, w.1 as i64), u64::MAX as int)
            }),
    {
        let (start, end) = Self::window_for(period, now);
        (ledger.calls_between(user_id, start, end), ledger.spent_between(user_id, start, end))
    }
}

} // verus!
