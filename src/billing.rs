//! Spend policy of a tenant and the rejection that the budget guard hands back.
use vstd::prelude::*;

verus! {

/// Smallest hard or soft limit a tenant may set, in cents.
pub const MIN_BUDGET_CENTS: i32 = 1000;

/// Largest hard or soft limit a tenant may set, in cents.
pub const MAX_BUDGET_CENTS: i32 = 50000;

/// The length of the window that a budget's spend is summed over.
#[derive(Debug, Clone, Copy, PartialEq, Eq, Structural)]
pub enum BudgetPeriod {
    Daily,
    Monthly,
}

impl BudgetPeriod {
    /// The period a stored name stands for: `daily` is daily, any other name
    /// is monthly.
    pub fn from_name(name: &str) -> (r: BudgetPeriod)
        ensures
            r == (if name@ == "daily"@ { BudgetPeriod::Daily } else { BudgetPeriod::Monthly }),
    {
        if crate::text::same_text(name, "daily") {
            BudgetPeriod::Daily
        } else {
            BudgetPeriod::Monthly
        }
    }

    pub open spec fn spec_name(&self) -> Seq<char> {
        match self {
            BudgetPeriod::Daily => "daily"@,
            BudgetPeriod::Monthly => "monthly"@,
        }
    }

    pub fn name(&self) -> (r: &'static str)
        ensures
            r@ == self.spec_name(),
    {
        match self {
            BudgetPeriod::Daily => "daily",
            BudgetPeriod::Monthly => "monthly",
        }
    }
}

/// A tenant's spend policy. An absent limit means no limit.
#[derive(Debug, Clone)]
pub struct Budget {
    pub period: BudgetPeriod,
    pub soft_limit_cents: Option<i32>,
    pub hard_limit_cents: Option<i32>,
    pub notify_thresholds: Vec<i32>,
}

impl Budget {
    /// The soft limit never lies above the hard limit.
    pub open spec fn wf(&self) -> bool {
        match (self.soft_limit_cents, self.hard_limit_cents) {
            (Some(soft), Some(hard)) => soft <= hard,
            _ => true,
        }
    }

    /// Whether `spent_cents` has reached the soft limit; this never blocks a
    /// request and only lets a caller warn.
    pub fn soft_limit_reached(&self, spent_cents: i128) -> (r: bool)
        ensures
            r == (self.soft_limit_cents is Some && spent_cents >= self.soft_limit_cents->0),
    {
        match self.soft_limit_cents {
            Some(soft) => spent_cents >= soft as i128,
            None => false,
        }
    }
}

/// Why a requested budget was refused.
#[derive(Debug, Clone, Copy, PartialEq, Eq, Structural)]
pub enum BudgetRuleError {
    HardLimitOutOfRange,
    SoftLimitOutOfRange,
    SoftAboveHard,
}

impl BudgetRuleError {
    pub fn message(&self) -> (r: &'static str)
        ensures
            *self == BudgetRuleError::SoftAboveHard ==> r@ == "Soft limit cannot exceed hard limit"@,
            *self == BudgetRuleError::HardLimitOutOfRange ==> r@ == "Hard limit must be between $10 and $500"@,
            *self == BudgetRuleError::SoftLimitOutOfRange ==> r@ == "Soft limit must be between $10 and $500"@,
    {
        match self {
            BudgetRuleError::HardLimitOutOfRange => "Hard limit must be between $10 and $500",
            BudgetRuleError::SoftLimitOutOfRange => "Soft limit must be between $10 and $500",
            BudgetRuleError::SoftAboveHard => "Soft limit cannot exceed hard limit",
        }
    }
}

pub open spec fn limit_in_range(limit: Option<i32>) -> bool {
    match limit {
        Some(v) => MIN_BUDGET_CENTS <= v <= MAX_BUDGET_CENTS,
        None => true,
    }
}

/// A tenant's request to set or replace its budget.
#[derive(Debug, Clone)]
pub struct CreateBudgetRequest {
    pub period: Option<String>,
    pub soft_limit_cents: Option<i32>,
    pub hard_limit_cents: Option<i32>,
    pub notify_thresholds: Option<Vec<i32>>,
}

impl CreateBudgetRequest {
    /// The budget this request sets. Each limit that is given must lie in
    /// `[MIN_BUDGET_CENTS, MAX_BUDGET_CENTS]`, the hard limit checked first,
    /// and the soft limit may not lie above the hard limit. The period
    /// defaults to monthly, and the thresholds to none.
    pub fn validate(&self) -> (r: Result<Budget, BudgetRuleError>)
        ensures
            !limit_in_range(self.hard_limit_cents) ==> r == Err::<Budget, _>(BudgetRuleError::HardLimitOutOfRange),
            limit_in_range(self.hard_limit_cents) && !limit_in_range(self.soft_limit_cents)
                ==> r == Err::<Budget, _>(BudgetRuleError::SoftLimitOutOfRange),
            limit_in_range(self.hard_limit_cents) && limit_in_range(self.soft_limit_cents)
                && self.soft_limit_cents is Some && self.hard_limit_cents is Some
                && self.soft_limit_cents->0 > self.hard_limit_cents->0
                ==> r == Err::<Budget, _>(BudgetRuleError::SoftAboveHard),
            r is Ok <==> limit_in_range(self.hard_limit_cents) && limit_in_range(self.soft_limit_cents)
                && !(self.soft_limit_cents is Some && self.hard_limit_cents is Some
                && self.soft_limit_cents->0 > self.hard_limit_cents->0),
            r matches Ok(b) ==> {
                &&& b.wf()
                &&& b.soft_limit_cents == self.soft_limit_cents
                &&& b.hard_limit_cents == self.hard_limit_cents
                &&& b.period == (match self.period {
                    Some(p) => if p@ == "daily"@ { BudgetPeriod::Daily } else { BudgetPeriod::Monthly },
                    None => BudgetPeriod::Monthly,
                })
                &&& b.notify_thresholds@ == (match self.notify_thresholds {
                    Some(t) => t@,
                    None => Seq::<i32>::empty(),
                })
            },
    {
        if let Some(hard) = self.hard_limit_cents {
            if hard < MIN_BUDGET_CENTS || hard > MAX_BUDGET_CENTS {
                return Err(BudgetRuleError::HardLimitOutOfRange);
            }
        }
        if let Some(soft) = self.soft_limit_cents {
            if soft < MIN_BUDGET_CENTS || soft > MAX_BUDGET_CENTS {
                return Err(BudgetRuleError::SoftLimitOutOfRange);
            }
        }
        if let (Some(soft), Some(hard)) = (self.soft_limit_cents, self.hard_limit_cents) {
            if soft > hard {
                return Err(BudgetRuleError::SoftAboveHard);
            }
        }
        let period = match &self.period {
            Some(p) => BudgetPeriod::from_name(p.as_str()),
            None => BudgetPeriod::Monthly,
        };
        let notify_thresholds = match &self.notify_thresholds {
            Some(t) => t.clone(),
            None => Vec::new(),
        };
        Ok(Budget {
            period,
            soft_limit_cents: self.soft_limit_cents,
            hard_limit_cents: self.hard_limit_cents,
            notify_thresholds,
        })
    }
}

/// Why setting up a payment method failed, as reported to the caller.
#[derive(Debug, Clone)]
pub struct SetupIntentFailure {
    pub status: Option<u16>,
    pub code: Option<String>,
    pub message: Option<String>,
    pub request_id: Option<String>,
}

impl SetupIntentFailure {
    /// The failure reported when no payment provider is configured.
    pub fn configuration() -> (r: Self)
        ensures
            r.status is None,
            r.code matches Some(c) && c@ == "configuration_error"@,
            r.message matches Some(m) && m@ == "Stripe not configured"@,
            r.request_id is None,
    {
        SetupIntentFailure {
            status: None,
            code: Some("configuration_error".to_string()),
            message: Some("Stripe not configured".to_string()),
            request_id: None,
        }
    }

    /// The failure reported for a malformed customer id.
    pub fn invalid_customer_id(customer_id: &str) -> (r: Self)
        ensures
            r.status is None,
            r.code matches Some(c) && c@ == "invalid_customer_id"@,
            r.message matches Some(m) && m@ == "Invalid Stripe customer id: "@ + customer_id@,
            r.request_id is None,
    {
        SetupIntentFailure {
            status: None,
            code: Some("invalid_customer_id".to_string()),
            message: Some(crate::text::joined("Invalid Stripe customer id: ", customer_id)),
            request_id: None,
        }
    }
}

/// Details of a request that the budget guard turned away.
#[derive(Debug, Clone)]
pub struct BudgetExceededError {
    pub error: String,
    pub period: String,
    pub hard_limit_cents: i32,
    pub spent_cents: i32,
}

impl BudgetExceededError {
    /// A rejection for `period` at `hard_limit_cents`, with `spent_cents`
    /// already spent; its error code is `budget_exceeded`.
    pub fn new(period: String, hard_limit_cents: i32, spent_cents: i32) -> (r: Self)
        ensures
            r.error@ == "budget_exceeded"@,
            r.period@ == period@,
            r.hard_limit_cents == hard_limit_cents,
            r.spent_cents == spent_cents,
    {
        BudgetExceededError {
            error: "budget_exceeded".to_string(),
            period,
            hard_limit_cents,
            spent_cents,
        }
    }
}

} // verus!
