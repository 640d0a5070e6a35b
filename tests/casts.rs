use spellcast::apikey::extract_prefix;
use spellcast::billing::{Budget, BudgetExceededError, BudgetPeriod, SetupIntentFailure};
use spellcast::cast::{Cast, CastStatus};
use spellcast::errors::{CastError, ErrorCategory};
use spellcast::metrics::Metrics;
use spellcast::pipeline::CastPipeline;
use spellcast::rate_limit::{Admission, WindowCounter};
use spellcast::sandbox::{Fault, SpellOutput, UnitRun, WasmRuntime};
use spellcast::text::{has_prefix, joined, same_text};

// 2024-03-15T12:00:00Z
const NOW: i64 = 1710504000;

const EMPTY_MODULE: [u8; 8] = [0x00, 0x61, 0x73, 0x6d, 0x01, 0x00, 0x00, 0x00];

// A module whose start function loops forever.
const SPINNING_MODULE: [u8; 32] = [
    0x00, 0x61, 0x73, 0x6d, 0x01, 0x00, 0x00, 0x00, // header
    0x01, 0x04, 0x01, 0x60, 0x00, 0x00, // type: () -> ()
    0x03, 0x02, 0x01, 0x00, // one function of that type
    0x08, 0x01, 0x00, // start: function 0
    0x0a, 0x09, 0x01, 0x07, 0x00, 0x03, 0x40, 0x0c, 0x00, 0x0b, 0x0b, // loop { br 0 }
];

fn output(name: &str) -> SpellOutput {
    SpellOutput { spell: name.to_string(), input: "{}".to_string(), output: "done".to_string(), fuel_consumed: 3 }
}

#[test]
fn error_codes_statuses_and_categories() {
    let budget = BudgetExceededError::new("monthly".to_string(), 10, 10);
    let cases: Vec<(CastError, &str, u16, ErrorCategory, bool)> = vec![
        (CastError::DatabaseError("down".to_string()), "DB_ERROR", 503, ErrorCategory::NetworkRetryable, true),
        (CastError::WasmNotFound("x".to_string()), "WASM_NOT_FOUND", 404, ErrorCategory::PermConfig, false),
        (CastError::WasmExecutionFailed("t".to_string()), "WASM_EXEC_FAILED", 500, ErrorCategory::PermRuntime, false),
        (CastError::WasmTimeout, "WASM_TIMEOUT", 408, ErrorCategory::TransientRuntime, true),
        (CastError::InvalidInput("bad".to_string()), "INVALID_INPUT", 422, ErrorCategory::PermConfig, false),
        (CastError::InternalError("oops".to_string()), "INTERNAL_ERROR", 500, ErrorCategory::NetworkRetryable, true),
        (CastError::BudgetExceeded(budget), "budget_exceeded", 402, ErrorCategory::PermConfig, false),
        (CastError::RateLimited { retry_after_seconds: 60 }, "rate_limited", 429, ErrorCategory::TransientRuntime, true),
    ];
    for (e, code, status, category, retryable) in cases {
        assert_eq!(e.error_code(), code);
        assert_eq!(e.status_code(), status);
        assert_eq!(e.category(), category);
        assert_eq!(e.is_retryable(), retryable);
    }
    assert_eq!(ErrorCategory::PermRuntime.as_str(), "PERM_RUNTIME");
    assert_eq!(ErrorCategory::NetworkRetryable.as_str(), "NETWORK_RETRYABLE");
}

#[test]
fn error_messages() {
    assert_eq!(CastError::WasmNotFound("echo".to_string()).message(), "WASM module not found: echo");
    assert_eq!(CastError::WasmTimeout.message(), "WASM execution timeout");
    assert_eq!(CastError::InvalidInput("no name".to_string()).message(), "Invalid input: no name");
    assert_eq!(CastError::DatabaseError("gone".to_string()).message(), "Database error: gone");
}

#[test]
fn text_helpers() {
    assert!(same_text("abc", "abc"));
    assert!(!same_text("abc", "abd"));
    assert!(!same_text("abc", "ab"));
    assert!(has_prefix("sk_live_x", "sk_"));
    assert!(!has_prefix("s", "sk_"));
    assert_eq!(joined("ab", "cd"), "abcd");
}

#[test]
fn api_key_prefixes() {
    assert_eq!(extract_prefix("sk_live_abc123").as_deref(), Some("sk_live_"));
    assert_eq!(extract_prefix("sk_test_abc_def").as_deref(), Some("sk_test_"));
    assert_eq!(extract_prefix("sk_live").as_deref(), Some("sk_live_"));
    assert_eq!(extract_prefix("pk_live_abc"), None);
    assert_eq!(extract_prefix(""), None);
}

#[test]
fn setup_intent_failures() {
    let c = SetupIntentFailure::configuration();
    assert_eq!(c.code.as_deref(), Some("configuration_error"));
    assert_eq!(c.message.as_deref(), Some("Stripe not configured"));
    assert_eq!(c.status, None);
    let i = SetupIntentFailure::invalid_customer_id("cus_x");
    assert_eq!(i.code.as_deref(), Some("invalid_customer_id"));
    assert_eq!(i.message.as_deref(), Some("Invalid Stripe customer id: cus_x"));
}

#[test]
fn run_outcomes_are_classified() {
    let done = WasmRuntime::outcome("echo", "{\"a\":1}".to_string(), 100, UnitRun::Completed { fuel_left: Some(40) }).unwrap();
    assert_eq!((done.spell.as_str(), done.input.as_str(), done.fuel_consumed), ("echo", "{\"a\":1}", 60));
    assert_eq!(done.output, "WASM execution successful");
    let unread = WasmRuntime::outcome("echo", "{}".to_string(), 100, UnitRun::Completed { fuel_left: None }).unwrap();
    assert_eq!(unread.fuel_consumed, 0);
    let cases = [
        (UnitRun::Trapped { out_of_fuel: true }, "Execution trapped: fuel exhausted"),
        (UnitRun::Trapped { out_of_fuel: false }, "Execution trapped: runtime fault"),
        (UnitRun::LoadFailed, "Failed to load module"),
    ];
    for (run, text) in cases {
        match WasmRuntime::outcome("echo", "{}".to_string(), 100, run) {
            Err(CastError::WasmExecutionFailed(m)) => assert_eq!(m, text),
            other => panic!("unexpected {:?}", other),
        }
    }
    match WasmRuntime::outcome("echo", "{}".to_string(), 100, UnitRun::FuelUnavailable) {
        Err(CastError::InternalError(m)) => assert_eq!(m, "Failed to add fuel"),
        other => panic!("unexpected {:?}", other),
    }
}

#[test]
fn instantiation_results_are_classified() {
    assert_eq!(WasmRuntime::classify(Ok(()), Some(7)), UnitRun::Completed { fuel_left: Some(7) });
    assert_eq!(WasmRuntime::classify(Err(Fault::Deadline), None), UnitRun::DeadlinePassed);
    assert_eq!(WasmRuntime::classify(Err(Fault::OutOfFuel), None), UnitRun::Trapped { out_of_fuel: true });
    assert_eq!(WasmRuntime::classify(Err(Fault::Other), None), UnitRun::Trapped { out_of_fuel: false });
}

#[test]
fn run_unit_reports_each_ending() {
    let rt = WasmRuntime::with_limits("units", 10_000, 60_000).unwrap();
    assert_eq!(rt.run_unit(&EMPTY_MODULE[..]).0, UnitRun::Completed { fuel_left: Some(10_000) });
    assert_eq!(rt.run_unit(&SPINNING_MODULE[..]).0, UnitRun::Trapped { out_of_fuel: true });
    assert_eq!(rt.run_unit(&[0u8, 1, 2][..]).0, UnitRun::LoadFailed);
}

#[test]
fn deadline_reports_timeout_not_execution_failure() {
    let r = WasmRuntime::outcome("spin", "{}".to_string(), 100, UnitRun::DeadlinePassed);
    assert!(matches!(r, Err(CastError::WasmTimeout)));
    let e = r.unwrap_err();
    assert_eq!(e.status_code(), 408);
    assert!(e.is_retryable());
    assert!(matches!(WasmRuntime::after_deadline(None), Err(CastError::WasmTimeout)));
    let finished = WasmRuntime::after_deadline(Some(Ok(output("echo")))).unwrap();
    assert_eq!(finished.spell, "echo");
}

#[test]
fn missing_unit_is_not_found() {
    let rt = WasmRuntime::new("/srv/units").unwrap();
    match rt.execute_spell("ghost", None, "{}".to_string()) {
        Err(CastError::WasmNotFound(n)) => assert_eq!(n, "ghost"),
        other => panic!("unexpected {:?}", other),
    }
    assert_eq!(rt.artifact_path("echo"), "/srv/units/echo.wasm");
    assert_eq!(rt.fuel_limit(), 100_000_000);
}

#[test]
fn empty_module_runs() {
    let rt = WasmRuntime::new("units").unwrap();
    let out = rt.execute_spell("noop", Some(&EMPTY_MODULE[..]), "{\"x\":2}".to_string()).unwrap();
    assert_eq!(out.spell, "noop");
    assert_eq!(out.input, "{\"x\":2}");
    assert_eq!(out.fuel_consumed, 0);
}

#[test]
fn invalid_binary_fails_to_load() {
    let rt = WasmRuntime::new("units").unwrap();
    match rt.execute_spell("junk", Some(&[1u8, 2, 3][..]), "{}".to_string()) {
        Err(CastError::WasmExecutionFailed(m)) => assert_eq!(m, "Failed to load module"),
        other => panic!("unexpected {:?}", other),
    }
}

#[test]
fn spinning_unit_exhausts_its_fuel() {
    let rt = WasmRuntime::with_limits("units", 10_000, 60_000).unwrap();
    match rt.execute_spell("spin", Some(&SPINNING_MODULE[..]), "{}".to_string()) {
        Err(CastError::WasmExecutionFailed(m)) => assert_eq!(m, "Execution trapped: fuel exhausted"),
        other => panic!("unexpected {:?}", other),
    }
}

#[test]
fn deadline_ticks_cover_the_timeout() {
    assert_eq!(WasmRuntime::with_limits("u", 1, 5).unwrap().deadline_ticks(), 1);
    assert_eq!(WasmRuntime::with_limits("u", 1, 10).unwrap().deadline_ticks(), 1);
    assert_eq!(WasmRuntime::with_limits("u", 1, 11).unwrap().deadline_ticks(), 2);
    assert_eq!(WasmRuntime::with_limits("u", 1, 10_000).unwrap().deadline_ticks(), 1000);
}

#[test]
fn cast_lifecycle() {
    let mut c = Cast::queued(5, "echo".to_string(), "{}".to_string(), Some(9), NOW);
    assert_eq!(c.status, CastStatus::Queued);
    assert_eq!(c.status.as_str(), "QUEUED");
    c.complete(output("echo"));
    c.set_cost(7);
    let r = c.response();
    assert_eq!(r.status.as_str(), "COMPLETED");
    assert_eq!(r.result.unwrap().fuel_consumed, 3);
    assert_eq!(c.cost_cents, Some(7));
    let mut f = Cast::queued(6, "echo".to_string(), "{}".to_string(), None, NOW);
    f.fail(&CastError::WasmTimeout);
    assert_eq!(f.status.as_str(), "FAILED");
    assert_eq!(f.error_code.as_deref(), Some("WASM_TIMEOUT"));
}

#[test]
fn second_call_over_budget_returns_402() {
    let tenant: u128 = 42;
    let mut p = CastPipeline::new(10);
    p.set_budget(tenant, Budget {
        period: BudgetPeriod::Monthly,
        soft_limit_cents: None,
        hard_limit_cents: Some(10),
        notify_thresholds: Vec::new(),
    });
    assert!(p.admission(Admission::Allowed, Some(tenant), NOW).is_ok());
    let i = p.open_cast(1, "echo".to_string(), "{}".to_string(), Some(tenant), NOW);
    let resp = p.finish(i, Ok(output("echo"))).unwrap();
    assert_eq!(resp.status, CastStatus::Completed);
    assert_eq!(p.casts()[i].cost_cents, Some(10));
    match p.admission(Admission::Allowed, Some(tenant), NOW + 1) {
        Err(CastError::BudgetExceeded(e)) => {
            assert_eq!(e.spent_cents, 10);
            assert_eq!(e.hard_limit_cents, 10);
            assert_eq!(e.error, "budget_exceeded");
        },
        other => panic!("unexpected {:?}", other),
    }
    assert_eq!(CastError::BudgetExceeded(BudgetExceededError::new("monthly".to_string(), 10, 10)).status_code(), 402);
}

#[test]
fn eleventh_anonymous_request_returns_429() {
    let p = CastPipeline::new(0);
    let mut counter = WindowCounter::new();
    for i in 0..10u64 {
        let verdict = counter.check(100 + i, 10);
        assert!(p.admission(verdict, None, NOW).is_ok());
    }
    let verdict = counter.check(109, 10);
    match p.admission(verdict, None, NOW) {
        Err(e) => {
            assert_eq!(e.status_code(), 429);
            assert!(matches!(e, CastError::RateLimited { retry_after_seconds: 60 }));
        },
        Ok(()) => panic!("eleventh request admitted"),
    }
}

#[test]
fn failed_casts_record_no_usage() {
    let mut p = CastPipeline::new(5);
    let i = p.open_cast(1, "spin".to_string(), "{}".to_string(), Some(8), NOW);
    let r = p.finish(i, Err(CastError::WasmTimeout));
    assert!(matches!(r, Err(CastError::WasmTimeout)));
    assert_eq!(p.casts()[i].status, CastStatus::Failed);
    assert_eq!(p.casts()[i].error_code.as_deref(), Some("WASM_TIMEOUT"));
    assert!(p.ledger().rows().is_empty());
}

#[test]
fn ledger_calls_equal_completed_casts() {
    let mut p = CastPipeline::new(3);
    let mut completed = 0;
    for k in 0..7u128 {
        let i = p.open_cast(k, "echo".to_string(), "{}".to_string(), Some(11), NOW + k as i64);
        if k % 3 == 0 {
            p.finish(i, Err(CastError::WasmExecutionFailed("trap".to_string()))).unwrap_err();
        } else {
            p.finish(i, Ok(output("echo"))).unwrap();
            completed += 1;
        }
    }
    let rows = p.ledger().rows();
    assert_eq!(rows.len(), 1);
    assert_eq!(rows[0].calls, completed);
    assert_eq!(rows[0].cost_cents, 3 * completed);
    let anonymous = p.open_cast(99, "echo".to_string(), "{}".to_string(), None, NOW);
    p.finish(anonymous, Ok(output("echo"))).unwrap();
    assert_eq!(p.ledger().rows()[0].calls, completed);
    assert_eq!(p.casts()[anonymous].cost_cents, None);
}

#[test]
fn budgets_can_be_replaced_and_removed() {
    let mut p = CastPipeline::new(1);
    assert!(p.budget_of(1).is_none());
    p.set_budget(1, Budget { period: BudgetPeriod::Daily, soft_limit_cents: None, hard_limit_cents: Some(0), notify_thresholds: Vec::new() });
    assert!(p.admission(Admission::Allowed, Some(1), NOW).is_err());
    p.set_budget(1, Budget { period: BudgetPeriod::Daily, soft_limit_cents: None, hard_limit_cents: Some(5), notify_thresholds: Vec::new() });
    assert_eq!(p.budget_of(1).unwrap().hard_limit_cents, Some(5));
    assert!(p.admission(Admission::Allowed, Some(1), NOW).is_ok());
    p.remove_budget(1);
    assert!(p.budget_of(1).is_none());
    assert_eq!(p.cost_per_cast_cents(), 1);
}

#[test]
fn budget_denial_leaves_a_failed_record() {
    let mut p = CastPipeline::new(10);
    p.set_budget(4, Budget { period: BudgetPeriod::Monthly, soft_limit_cents: None, hard_limit_cents: Some(10), notify_thresholds: Vec::new() });
    let i = p.begin(Admission::Allowed, 1, "echo".to_string(), "{}".to_string(), Some(4), NOW).unwrap();
    assert_eq!(p.casts()[i].status, CastStatus::Queued);
    p.finish(i, Ok(output("echo"))).unwrap();
    match p.begin(Admission::Allowed, 2, "echo".to_string(), "{}".to_string(), Some(4), NOW) {
        Err(CastError::BudgetExceeded(e)) => assert_eq!(e.spent_cents, 10),
        other => panic!("unexpected {:?}", other),
    }
    assert_eq!(p.casts().len(), 2);
    assert_eq!(p.casts()[1].status, CastStatus::Failed);
    assert_eq!(p.casts()[1].error_code.as_deref(), Some("budget_exceeded"));
    assert_eq!(p.ledger().rows()[0].calls, 1);
}

#[test]
fn rate_denial_leaves_no_record() {
    let mut p = CastPipeline::new(10);
    let r = p.begin(Admission::Denied { retry_after_seconds: 60 }, 1, "echo".to_string(), "{}".to_string(), None, NOW);
    assert!(matches!(r, Err(CastError::RateLimited { retry_after_seconds: 60 })));
    assert!(p.casts().is_empty());
}

#[test]
fn metrics_count_each_decision_point() {
    let mut m = Metrics::new();
    let mut p = CastPipeline::new(1);
    let i = p.begin(Admission::Allowed, 1, "echo".to_string(), "{}".to_string(), None, NOW).unwrap();
    m.observe(&p.finish(i, Ok(output("echo"))));
    let j = p.begin(Admission::Allowed, 2, "echo".to_string(), "{}".to_string(), None, NOW).unwrap();
    m.observe(&p.finish(j, Err(CastError::WasmTimeout)));
    m.observe(&Err(CastError::RateLimited { retry_after_seconds: 60 }));
    m.observe(&Err(CastError::BudgetExceeded(BudgetExceededError::new("daily".to_string(), 1, 1))));
    m.observe(&Err(CastError::RateLimited { retry_after_seconds: 60 }));
    assert_eq!(m.cast_total, 2);
    assert_eq!(m.cast_failed, 1);
    assert_eq!(m.rate_limited_total, 2);
    assert_eq!(m.budget_blocked_total, 1);
}

#[test]
fn daily_budget_blocks_after_a_completed_call() {
    let tenant: u128 = 77;
    let mut p = CastPipeline::new(10);
    p.set_budget(tenant, Budget { period: BudgetPeriod::Daily, soft_limit_cents: None, hard_limit_cents: Some(10), notify_thresholds: Vec::new() });
    let i = p.begin(Admission::Allowed, 1, "echo".to_string(), "{}".to_string(), Some(tenant), NOW).unwrap();
    assert_eq!(p.finish(i, Ok(output("echo"))).unwrap().status, CastStatus::Completed);
    match p.begin(Admission::Allowed, 2, "echo".to_string(), "{}".to_string(), Some(tenant), NOW + 60) {
        Err(CastError::BudgetExceeded(e)) => {
            assert_eq!((e.period.as_str(), e.hard_limit_cents, e.spent_cents), ("daily", 10, 10));
        },
        other => panic!("unexpected {:?}", other),
    }
    // the next UTC day starts from nothing
    assert!(p.admission(Admission::Allowed, Some(tenant), NOW + 86400).is_ok());
}
