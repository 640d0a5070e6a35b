use spellcast::billing::{Budget, BudgetPeriod, BudgetRuleError, CreateBudgetRequest};
use spellcast::budget::BudgetService;
use spellcast::ledger::UsageLedger;
use spellcast::rate_limit::{
    admission_from_store, after_increment, is_exempt_path, limit_for, rate_key, Admission, Identity, WindowCounter,
};

fn budget(period: BudgetPeriod, soft: Option<i32>, hard: Option<i32>) -> Budget {
    Budget { period, soft_limit_cents: soft, hard_limit_cents: hard, notify_thresholds: Vec::new() }
}

// 2024-03-15T12:00:00Z
const MID_MARCH_2024: i64 = 1710504000;
// 2024-03-01T00:00:00Z and 2024-04-01T00:00:00Z
const MARCH_2024: i64 = 1709251200;
const APRIL_2024: i64 = 1711929600;

#[test]
fn sixtieth_request_allowed_sixty_first_denied() {
    let mut c = WindowCounter::new();
    let limit = limit_for(&Identity::Tenant(7));
    assert_eq!(limit, 60);
    for i in 0..60u64 {
        assert_eq!(c.check(1000 + i / 2, limit), Admission::Allowed);
    }
    assert_eq!(c.count, 60);
    assert_eq!(c.check(1059, limit), Admission::Denied { retry_after_seconds: 60 });
}

#[test]
fn counter_resets_after_window_expiry() {
    let mut c = WindowCounter::new();
    for _ in 0..61 {
        c.check(500, 60);
    }
    assert_eq!(c.check(559, 60), Admission::Denied { retry_after_seconds: 60 });
    assert_eq!(c.check(560, 60), Admission::Allowed);
    assert_eq!(c.count, 1);
    assert_eq!(c.expires_at, 620);
}

#[test]
fn anonymous_caller_eleventh_request_in_ten_seconds_is_limited() {
    let who = Identity::Address("203.0.113.9".to_string());
    let limit = limit_for(&who);
    assert_eq!(limit, 10);
    let mut c = WindowCounter::new();
    for i in 0..10u64 {
        assert_eq!(c.check(2000 + i, limit), Admission::Allowed, "request {}", i + 1);
    }
    assert_eq!(c.check(2009, limit), Admission::Denied { retry_after_seconds: 60 });
}

#[test]
fn increment_verdicts() {
    let first = after_increment(1, 10);
    assert!(first.set_expiry);
    assert_eq!(first.admission, Admission::Allowed);
    let at_limit = after_increment(10, 10);
    assert!(!at_limit.set_expiry);
    assert_eq!(at_limit.admission, Admission::Allowed);
    assert_eq!(after_increment(11, 10).admission, Admission::Denied { retry_after_seconds: 60 });
}

#[test]
fn store_outage_fails_open() {
    assert_eq!(admission_from_store(None, 10), Admission::Allowed);
    assert_eq!(admission_from_store(Some(61), 60), Admission::Denied { retry_after_seconds: 60 });
    assert_eq!(admission_from_store(Some(60), 60), Admission::Allowed);
}

#[test]
fn health_path_is_exempt() {
    assert!(is_exempt_path("/healthz"));
    assert!(!is_exempt_path("/healthz/x"));
    assert!(!is_exempt_path("/v1/cast"));
    assert!(!is_exempt_path(""));
}

#[test]
fn rate_keys_name_the_identity() {
    assert_eq!(rate_key(&Identity::Address("10.0.0.1".to_string())), "rate:ip:10.0.0.1");
    let id: u128 = 0x67e55044_10b1_426f_9247_bb680e5fe0c8;
    assert_eq!(rate_key(&Identity::Tenant(id)), "rate:user:67e55044-10b1-426f-9247-bb680e5fe0c8");
}

#[test]
fn budget_boundary_equal_spend_denies() {
    let b = budget(BudgetPeriod::Monthly, None, Some(100));
    let e = BudgetService::verdict(Some(&b), 100).unwrap_err();
    assert_eq!(e.error, "budget_exceeded");
    assert_eq!(e.period, "monthly");
    assert_eq!(e.hard_limit_cents, 100);
    assert_eq!(e.spent_cents, 100);
    assert!(BudgetService::verdict(Some(&b), 99).is_ok());
}

#[test]
fn budgets_are_opt_in_and_soft_limits_never_block() {
    assert!(BudgetService::verdict(None, 1_000_000).is_ok());
    let soft_only = budget(BudgetPeriod::Daily, Some(10), None);
    assert!(BudgetService::verdict(Some(&soft_only), 1_000_000).is_ok());
    assert!(soft_only.soft_limit_reached(10));
    assert!(!soft_only.soft_limit_reached(9));
}

#[test]
fn reported_spend_is_capped() {
    let b = budget(BudgetPeriod::Daily, None, Some(5));
    let e = BudgetService::verdict(Some(&b), u64::MAX).unwrap_err();
    assert_eq!(e.spent_cents, i32::MAX);
    assert_eq!(e.period, "daily");
}

#[test]
fn fail_closed_rejections() {
    let e = BudgetService::budget_unavailable();
    assert_eq!((e.error.as_str(), e.period.as_str(), e.hard_limit_cents, e.spent_cents), ("budget_exceeded", "monthly", 0, 0));
    let b = budget(BudgetPeriod::Daily, None, Some(2000));
    let e = BudgetService::usage_unavailable(&b, 2000);
    assert_eq!((e.period.as_str(), e.hard_limit_cents, e.spent_cents), ("daily", 2000, 0));
}

#[test]
fn windows_are_utc_days_and_months() {
    assert_eq!(BudgetService::daily_window(MID_MARCH_2024), (1710460800, 1710547200));
    assert_eq!(BudgetService::monthly_window(MID_MARCH_2024), (MARCH_2024, APRIL_2024));
    // 2023-12-31T23:59:59Z rolls over into the next year
    assert_eq!(BudgetService::monthly_window(1704067199), (1701388800, 1704067200));
    assert_eq!(BudgetService::window_for(BudgetPeriod::Monthly, MARCH_2024), (MARCH_2024, APRIL_2024));
    assert_eq!(BudgetService::daily_window(0), (0, 86400));
    assert_eq!(BudgetService::following_month(2023, 12), (2024, 1));
    assert_eq!(BudgetService::following_month(2024, 2), (2024, 3));
}

#[test]
fn recording_twice_accumulates() {
    let mut l = UsageLedger::new();
    l.record(1, 10, MARCH_2024, APRIL_2024).unwrap();
    l.record(1, 15, MARCH_2024, APRIL_2024).unwrap();
    assert_eq!(l.rows().len(), 1);
    assert_eq!(l.rows()[0].calls, 2);
    assert_eq!(l.rows()[0].cost_cents, 25);
    l.record(2, 5, MARCH_2024, APRIL_2024).unwrap();
    l.record(1, 1, APRIL_2024, 1714521600).unwrap();
    assert_eq!(l.rows().len(), 3);
    assert_eq!(l.spent_between(1, MARCH_2024, APRIL_2024), 25);
    assert_eq!(l.calls_between(1, MARCH_2024, 1714521600), 3);
    assert_eq!(l.spent_between(2, MARCH_2024, APRIL_2024), 5);
    assert_eq!(l.spent_between(3, MARCH_2024, APRIL_2024), 0);
}

#[test]
fn budget_reads_the_ledger_window() {
    let mut l = UsageLedger::new();
    let b = budget(BudgetPeriod::Monthly, None, Some(20));
    BudgetService::record_usage(3, 10, &mut l, MID_MARCH_2024).unwrap();
    assert!(BudgetService::check_hard_limit(3, Some(&b), &l, MID_MARCH_2024).is_ok());
    BudgetService::record_usage(3, 10, &mut l, MID_MARCH_2024).unwrap();
    let e = BudgetService::check_hard_limit(3, Some(&b), &l, MID_MARCH_2024).unwrap_err();
    assert_eq!(e.spent_cents, 20);
    // a new month starts from nothing
    assert!(BudgetService::check_hard_limit(3, Some(&b), &l, APRIL_2024).is_ok());
    assert_eq!(BudgetService::get_current_usage(3, BudgetPeriod::Monthly, &l, MID_MARCH_2024), (2, 20));
    assert_eq!(BudgetService::get_current_usage(3, BudgetPeriod::Daily, &l, MID_MARCH_2024), (2, 20));
    assert_eq!(BudgetService::get_current_usage(3, BudgetPeriod::Daily, &l, MID_MARCH_2024 + 86400), (0, 0));
    let daily = budget(BudgetPeriod::Daily, None, Some(20));
    assert!(BudgetService::check_hard_limit(3, Some(&daily), &l, MID_MARCH_2024).is_err());
    assert!(BudgetService::check_hard_limit(3, None, &l, MID_MARCH_2024).is_ok());
}

#[test]
fn budget_request_validation() {
    let req = |soft, hard| CreateBudgetRequest {
        period: None,
        soft_limit_cents: soft,
        hard_limit_cents: hard,
        notify_thresholds: None,
    };
    assert_eq!(req(None, Some(999)).validate().unwrap_err(), BudgetRuleError::HardLimitOutOfRange);
    assert_eq!(req(None, Some(50001)).validate().unwrap_err(), BudgetRuleError::HardLimitOutOfRange);
    assert_eq!(req(Some(999), Some(2000)).validate().unwrap_err(), BudgetRuleError::SoftLimitOutOfRange);
    assert_eq!(req(Some(3000), Some(2000)).validate().unwrap_err(), BudgetRuleError::SoftAboveHard);
    let ok = req(Some(1000), Some(50000)).validate().unwrap();
    assert_eq!(ok.period, BudgetPeriod::Monthly);
    assert_eq!(ok.hard_limit_cents, Some(50000));
    assert!(ok.notify_thresholds.is_empty());
    let daily = CreateBudgetRequest {
        period: Some("daily".to_string()),
        soft_limit_cents: None,
        hard_limit_cents: None,
        notify_thresholds: Some(vec![50, 80]),
    }
    .validate()
    .unwrap();
    assert_eq!(daily.period, BudgetPeriod::Daily);
    assert_eq!(daily.notify_thresholds, vec![50, 80]);
    assert_eq!(BudgetPeriod::from_name("weekly"), BudgetPeriod::Monthly);
    assert_eq!(BudgetRuleError::SoftAboveHard.message(), "Soft limit cannot exceed hard limit");
}
