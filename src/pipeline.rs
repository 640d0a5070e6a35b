//! The cast pipeline: rate-limit verdict, budget guard, audit record,
//! execution result and usage recording, in that order, for one request.
//!
//! Execution itself happens between `begin` and `finish`, outside this
//! state, so that no lock on it is held while a unit runs.
use vstd::prelude::*;

use std::collections::HashMap;

use crate::billing::Budget;
use crate::budget::{spec_blocks, spec_daily_window, spec_window, reported_spend, BudgetService, LAST_TIMESTAMP, SECONDS_PER_DAY};
use crate::cast::{Cast, CastResponse, CastStatus};
use crate::errors::CastError;
use crate::ledger::{
    calls_total, key_index, key_present, keys_unique, lemma_record_accumulates, lemma_record_adds_spend,
    lemma_record_keeps_keys_unique, spec_record, spent_in, record_fits, UsageCounter, UsageLedger,
};
use crate::rate_limit::Admission;
use crate::sandbox::SpellOutput;

verus! {

broadcast use vstd::std_specs::hash::group_hash_axioms;

/// Start of the day, the ledger window, that a cast created at
/// `created_at` is recorded in.
pub open spec fn usage_window_start(created_at: i64) -> int {
    spec_daily_window(created_at as int).0
}

/// A ledger row spans one day.
pub open spec fn day_row(r: UsageCounter) -> bool {
    r.window_end == r.window_start + SECONDS_PER_DAY
}

/// A cast was created at a time the windows cover, and only a completed
/// cast carries a cost, only a failed one an error code.
pub open spec fn cast_well_formed(c: Cast) -> bool {
    &&& 0 <= c.created_at <= LAST_TIMESTAMP
    &&& c.cost_cents is Some ==> c.status == CastStatus::Completed
    &&& c.error_code is Some ==> c.status == CastStatus::Failed
}

/// Whether `c` is a completed cast of `user`, created in the ledger window
/// starting at `window_start`.
pub open spec fn completed_in(c: Cast, user: u128, window_start: i64) -> bool {
    c.status == CastStatus::Completed && c.user_id == Some(user) && usage_window_start(c.created_at)
        == window_start as int
}

/// Whether `c` is such a cast whose usage has been recorded.
pub open spec fn recorded_in(c: Cast, user: u128, window_start: i64) -> bool {
    completed_in(c, user, window_start) && c.cost_cents is Some
}

/// Number of completed casts of `user` created in the window starting at
/// `window_start`.
pub open spec fn completed_count(casts: Seq<Cast>, user: u128, window_start: i64) -> int
    decreases casts.len(),
{
    if casts.len() == 0 {
        0
    } else {
        completed_count(casts.drop_last(), user, window_start) + if completed_in(casts.last(), user, window_start) {
            1int
        } else {
            0
        }
    }
}

/// Number of those casts whose usage has been recorded.
pub open spec fn recorded_count(casts: Seq<Cast>, user: u128, window_start: i64) -> int
    decreases casts.len(),
{
    if casts.len() == 0 {
        0
    } else {
        recorded_count(casts.drop_last(), user, window_start) + if recorded_in(casts.last(), user, window_start) {
            1int
        } else {
            0
        }
    }
}

proof fn lemma_recorded_count_update(casts: Seq<Cast>, i: int, x: Cast, user: u128, window_start: i64)
    requires
        0 <= i < casts.len(),
    ensures
        recorded_count(casts.update(i, x), user, window_start) == recorded_count(casts, user, window_start)
            - (if recorded_in(casts[i], user, window_start) { 1int } else { 0 })
            + (if recorded_in(x, user, window_start) { 1int } else { 0 }),
    decreases casts.len(),
{
    let u = casts.update(i, x);
    if i == casts.len() - 1 {
        assert(u.drop_last() == casts.drop_last());
    } else {
        assert(u.drop_last() == casts.drop_last().update(i, x));
        lemma_recorded_count_update(casts.drop_last(), i, x, user, window_start);
    }
}

proof fn lemma_counts_agree(casts: Seq<Cast>, user: u128, window_start: i64)
    requires
        forall|i: int| 0 <= i < casts.len() && (#[trigger] casts[i]).status == CastStatus::Completed
            ==> casts[i].cost_cents is Some,
    ensures
        recorded_count(casts, user, window_start) == completed_count(casts, user, window_start),
    decreases casts.len(),
{
    if casts.len() > 0 {
        let p = casts.drop_last();
        assert forall|i: int| 0 <= i < p.len() && (#[trigger] p[i]).status == CastStatus::Completed
            implies p[i].cost_cents is Some by {
            assert(p[i] == casts[i]);
        }
        lemma_counts_agree(p, user, window_start);
        assert(casts.last() == casts[casts.len() - 1]);
    }
}

/// The ledger's keys are unique and its rows span one day, every cast is
/// well formed, and the ledger's calls for each tenant and window are the
/// casts whose usage was recorded there.
pub open spec fn books_agree(ledger: Seq<UsageCounter>, casts: Seq<Cast>) -> bool {
    &&& keys_unique(ledger)
    &&& forall|i: int| 0 <= i < ledger.len() ==> day_row(#[trigger] ledger[i])
    &&& forall|i: int| 0 <= i < casts.len() ==> cast_well_formed(#[trigger] casts[i])
    &&& forall|user: u128, window_start: i64|
        #[trigger] calls_total(ledger, user, window_start) == recorded_count(casts, user, window_start)
}

/// Appending a cast without a cost keeps the books in agreement.
proof fn lemma_books_after_push(ledger: Seq<UsageCounter>, casts: Seq<Cast>, c: Cast)
    requires
        books_agree(ledger, casts),
        cast_well_formed(c),
        c.cost_cents is None,
    ensures
        books_agree(ledger, casts.push(c)),
{
    let n = casts.push(c);
    assert(n.drop_last() == casts);
    assert forall|i: int| 0 <= i < n.len() implies cast_well_formed(#[trigger] n[i]) by {
        if i < casts.len() {
            assert(n[i] == casts[i]);
        }
    }
    assert forall|u: u128, w: i64| #[trigger] calls_total(ledger, u, w) == recorded_count(n, u, w) by {
        assert(calls_total(ledger, u, w) == recorded_count(casts, u, w));
    }
}

/// Replacing a cast without a cost by another without a cost keeps the
/// books in agreement.
proof fn lemma_books_after_change(ledger: Seq<UsageCounter>, casts: Seq<Cast>, i: int, x: Cast)
    requires
        books_agree(ledger, casts),
        0 <= i < casts.len(),
        casts[i].cost_cents is None,
        cast_well_formed(x),
        x.cost_cents is None,
    ensures
        books_agree(ledger, casts.update(i, x)),
{
    let n = casts.update(i, x);
    assert forall|j: int| 0 <= j < n.len() implies cast_well_formed(#[trigger] n[j]) by {
        if j != i {
            assert(n[j] == casts[j]);
        }
    }
    assert forall|u: u128, w: i64| #[trigger] calls_total(ledger, u, w) == recorded_count(n, u, w) by {
        lemma_recorded_count_update(casts, i, x, u, w);
        assert(calls_total(ledger, u, w) == recorded_count(casts, u, w));
    }
}

/// Recording one call of a completed cast in its day, and giving the cast
/// its cost, keeps the books in agreement.
proof fn lemma_books_after_recording(
    ledger: Seq<UsageCounter>,
    casts: Seq<Cast>,
    i: int,
    x: Cast,
    user: u128,
    cost_cents: u32,
    window_start: i64,
)
    requires
        books_agree(ledger, casts),
        0 <= i < casts.len(),
        casts[i].cost_cents is None,
        cast_well_formed(x),
        x.status == CastStatus::Completed,
        x.user_id == Some(user),
        x.cost_cents == Some(cost_cents),
        usage_window_start(x.created_at) == window_start as int,
        window_start <= i64::MAX - SECONDS_PER_DAY,
        record_fits(ledger, user, window_start, cost_cents),
    ensures
        books_agree(
            spec_record(ledger, user, cost_cents, window_start, (window_start + SECONDS_PER_DAY) as i64),
            casts.update(i, x),
        ),
{
    let we = (window_start + SECONDS_PER_DAY) as i64;
    let l = spec_record(ledger, user, cost_cents, window_start, we);
    let n = casts.update(i, x);
    lemma_record_keeps_keys_unique(ledger, user, cost_cents, window_start, we);
    assert forall|j: int| 0 <= j < l.len() implies day_row(#[trigger] l[j]) by {
        if key_present(ledger, user, window_start) {
            assert(day_row(ledger[j]));
            assert(day_row(ledger[key_index(ledger, user, window_start)]));
        } else if j < ledger.len() {
            assert(l[j] == ledger[j]);
            assert(day_row(ledger[j]));
        }
    }
    assert forall|j: int| 0 <= j < n.len() implies cast_well_formed(#[trigger] n[j]) by {
        if j != i {
            assert(n[j] == casts[j]);
        }
    }
    assert forall|u: u128, w: i64| #[trigger] calls_total(l, u, w) == recorded_count(n, u, w) by {
        lemma_recorded_count_update(casts, i, x, u, w);
        lemma_record_accumulates(ledger, user, cost_cents, window_start, we, u, w);
        assert(calls_total(ledger, u, w) == recorded_count(casts, u, w));
    }
}

/// Budgets, usage ledger and cast records of a service, with the cost that
/// each completed cast is charged.
pub struct CastPipeline {
    cost_per_cast_cents: u32,
    budgets: HashMap<u128, Budget>,
    ledger: UsageLedger,
    casts: Vec<Cast>,
}

impl CastPipeline {
    pub closed spec fn spec_cost(&self) -> u32 {
        self.cost_per_cast_cents
    }

    pub closed spec fn spec_budgets(&self) -> Map<u128, Budget> {
        self.budgets@
    }

    pub closed spec fn spec_ledger(&self) -> Seq<UsageCounter> {
        self.ledger@
    }

    pub closed spec fn spec_casts(&self) -> Seq<Cast> {
        self.casts@
    }

    /// The books kept by the service agree; see `books_agree`.
    pub open spec fn inv(&self) -> bool {
        books_agree(self.spec_ledger(), self.spec_casts())
    }

    pub open spec fn spec_budget_of(&self, user: u128) -> Option<Budget> {
        if self.spec_budgets().contains_key(user) {
            Some(self.spec_budgets()[user])
        } else {
            None
        }
    }

    /// Whether a request with rate verdict `rate` from `user` at time `now`
    /// passes admission.
    pub open spec fn spec_admits(&self, rate: Admission, user: Option<u128>, now: i64) -> bool {
        rate == Admission::Allowed && match user {
            None => true,
            Some(t) => match self.spec_budget_of(t) {
                None => true,
                Some(b) => {
                    let w = spec_window(b.period, now as int);
                    !spec_blocks(Some(&b), spent_in(self.spec_ledger(), t, w.0 as i64, w.1 as i64))
                },
            },
        }
    }

    /// An empty service charging `cost_per_cast_cents` per completed cast.
    pub fn new(cost_per_cast_cents: u32) -> (r: CastPipeline)
        ensures
            r.inv(),
            r.spec_cost() == cost_per_cast_cents,
            r.spec_budgets() == Map::<u128, Budget>::empty(),
            r.spec_ledger() == Seq::<UsageCounter>::empty(),
            r.spec_casts() == Seq::<Cast>::empty(),
    {
        let r = CastPipeline {
            cost_per_cast_cents,
            budgets: HashMap::new(),
            ledger: UsageLedger::new(),
            casts: Vec::new(),
        };
        assert forall|user: u128, window_start: i64|
            #[trigger] calls_total(r.spec_ledger(), user, window_start)
                == recorded_count(r.spec_casts(), user, window_start) by {}
        r
    }

    pub fn cost_per_cast_cents(&self) -> (r: u32)
        ensures
            r == self.spec_cost(),
    {
        self.cost_per_cast_cents
    }

    pub fn ledger(&self) -> (r: &UsageLedger)
        ensures
            r@ == self.spec_ledger(),
    {
        &self.ledger
    }

    pub fn casts(&self) -> (r: &Vec<Cast>)
        ensures
            r@ == self.spec_casts(),
    {
        &self.casts
    }

    pub fn budget_of(&self, user: u128) -> (r: Option<&Budget>)
        ensures
            r matches Some(b) ==> self.spec_budget_of(user) == Some(*b),
            r is None ==> self.spec_budget_of(user) is None,
    {
        self.budgets.get(&user)
    }

    /// Sets or replaces the budget of `user`.
    pub fn set_budget(&mut self, user: u128, budget: Budget)
        requires
            old(self).inv(),
        ensures
            final(self).inv(),
            final(self).spec_budgets() == old(self).spec_budgets().insert(user, budget),
            final(self).spec_ledger() == old(self).spec_ledger(),
            final(self).spec_casts() == old(self).spec_casts(),
            final(self).spec_cost() == old(self).spec_cost(),
    {
        self.budgets.insert(user, budget);
    }

    /// Removes the budget of `user`, after which it is not limited.
    pub fn remove_budget(&mut self, user: u128)
        requires
            old(self).inv(),
        ensures
            final(self).inv(),
            final(self).spec_budgets() == old(self).spec_budgets().remove(user),
            final(self).spec_ledger() == old(self).spec_ledger(),
            final(self).spec_casts() == old(self).spec_casts(),
            final(self).spec_cost() == old(self).spec_cost(),
    {
        self.budgets.remove(&user);
    }

    /// Admission of a request at time `now`, given the rate limiter's
    /// verdict. A denied rate check is reported first; an anonymous caller
    /// meets no budget guard; a tenant is checked against its budget and the
    /// spend in the budget's current window.
    pub fn admission(&self, rate: Admission, user: Option<u128>, now: i64) -> (r: Result<(), CastError>)
        requires
            0 <= now <= LAST_TIMESTAMP,
        ensures
            r is Ok <==> self.spec_admits(rate, user, now),
            rate matches Admission::Denied { retry_after_seconds } ==> r == Err::<(), CastError>(
                CastError::RateLimited { retry_after_seconds }),
            rate == Admission::Allowed && user is None ==> r is Ok,
            rate == Admission::Allowed && user is Some ==> ({
                let t = user->0;
                match self.spec_budget_of(t) {
                    None => r is Ok,
                    Some(b) => {
                        let w = spec_window(b.period, now as int);
                        let spent = spent_in(self.spec_ledger(), t, w.0 as i64, w.1 as i64);
                        &&& r is Err <==> spec_blocks(Some(&b), spent)
                        &&& r is Err ==> r->Err_0 is BudgetExceeded
                        &&& r is Err ==> r->Err_0->BudgetExceeded_0.error@ == "budget_exceeded"@
                        &&& r is Err ==> r->Err_0->BudgetExceeded_0.period@ == b.period.spec_name()
                        &&& r is Err ==> r->Err_0->BudgetExceeded_0.hard_limit_cents == b.hard_limit_cents->0
                        &&& r is Err ==> r->Err_0->BudgetExceeded_0.spent_cents == reported_spend(spent)
                    },
                }
            }),
    {
        if let Admission::Denied { retry_after_seconds } = rate {
            return Err(CastError::RateLimited { retry_after_seconds });
        }
        match user {
            None => Ok(()),
            Some(t) => {
                let budget = self.budgets.get(&t);
                match BudgetService::check_hard_limit(t, budget, &self.ledger, now) {
                    Ok(()) => Ok(()),
                    Err(e) => Err(CastError::BudgetExceeded(e)),
                }
            },
        }
    }

    /// Writes the queued record of an admitted cast, before it runs, and
    /// returns its position.
    pub fn open_cast(
        &mut self,
        id: u128,
        spell_name: String,
        payload: String,
        user: Option<u128>,
        now: i64,
    ) -> (r: usize)
        requires
            old(self).inv(),
            0 <= now <= LAST_TIMESTAMP,
            old(self).spec_casts().len() < usize::MAX,
        ensures
            final(self).inv(),
            r == old(self).spec_casts().len(),
            final(self).spec_casts().len() == r + 1,
            final(self).spec_casts().subrange(0, r as int) == old(self).spec_casts(),
            ({
                let c = final(self).spec_casts()[r as int];
                &&& c.id == id
                &&& c.spell_name@ == spell_name@
                &&& c.payload@ == payload@
                &&& c.status == CastStatus::Queued
                &&& c.user_id == user
                &&& c.created_at == now
                &&& c.result is None && c.error_code is None && c.cost_cents is None
            }),
            final(self).spec_ledger() == old(self).spec_ledger(),
            final(self).spec_budgets() == old(self).spec_budgets(),
            final(self).spec_cost() == old(self).spec_cost(),
    {
        let r = self.casts.len();
        let c = Cast::queued(id, spell_name, payload, user, now);
        proof {
            lemma_books_after_push(self.spec_ledger(), self.spec_casts(), c);
        }
        self.casts.push(c);
        proof {
            assert(self.spec_casts().subrange(0, r as int) == old(self).spec_casts());
        }
        r
    }

    /// Admits a request and writes its record. A request denied by the rate
    /// limiter leaves no record. One turned away by the budget is recorded
    /// as a failed cast with the `budget_exceeded` code. An admitted one is
    /// recorded as queued, and its position is returned.
    pub fn begin(
        &mut self,
        rate: Admission,
        id: u128,
        spell_name: String,
        payload: String,
        user: Option<u128>,
        now: i64,
    ) -> (r: Result<usize, CastError>)
        requires
            old(self).inv(),
            0 <= now <= LAST_TIMESTAMP,
            old(self).spec_casts().len() < usize::MAX,
        ensures
            final(self).inv(),
            r is Ok <==> old(self).spec_admits(rate, user, now),
            rate matches Admission::Denied { retry_after_seconds } ==> r == Err::<usize, CastError>(
                CastError::RateLimited { retry_after_seconds }) && final(self).spec_casts() == old(self).spec_casts(),
            rate == Admission::Allowed ==> ({
                let n = old(self).spec_casts().len();
                let c = final(self).spec_casts()[n as int];
                &&& final(self).spec_casts().len() == n + 1
                &&& final(self).spec_casts().subrange(0, n as int) == old(self).spec_casts()
                &&& c.id == id && c.user_id == user && c.created_at == now
                &&& c.spell_name@ == spell_name@ && c.payload@ == payload@
                &&& r is Ok ==> r->Ok_0 == n && c.status == CastStatus::Queued
                &&& r is Err ==> c.status == CastStatus::Failed && r->Err_0 is BudgetExceeded
                    && c.error_code is Some && c.error_code->0@ == "budget_exceeded"@
            }),
            final(self).spec_ledger() == old(self).spec_ledger(),
            final(self).spec_budgets() == old(self).spec_budgets(),
            final(self).spec_cost() == old(self).spec_cost(),
    {
        let admitted = self.admission(rate, user, now);
        if let Admission::Denied { .. } = rate {
            return match admitted {
                Ok(()) => Ok(0),
                Err(e) => Err(e),
            };
        }
        let index = self.open_cast(id, spell_name, payload, user, now);
        match admitted {
            Ok(()) => Ok(index),
            Err(e) => {
                let r = self.finish(index, Err(e));
                match r {
                    Ok(_) => Ok(index),
                    Err(e) => Err(e),
                }
            },
        }
    }

    /// Ends the queued cast at `index` with the unit's result. On success the
    /// cast is completed and, for a tenant, one call at the configured cost
    /// is recorded in the ledger window of the cast's creation; the cost is
    /// written to the cast only once it is recorded. A recording that does
    /// not fit leaves the cast without a cost for reconciliation and does
    /// not change the result. On failure the cast is failed with the error's
    /// code, nothing is recorded, and the error is returned.
    pub fn finish(&mut self, index: usize, result: Result<SpellOutput, CastError>) -> (r: Result<CastResponse, CastError>)
        requires
            old(self).inv(),
            index < old(self).spec_casts().len(),
            old(self).spec_casts()[index as int].status == CastStatus::Queued,
        ensures
            final(self).inv(),
            final(self).spec_casts().len() == old(self).spec_casts().len(),
            forall|j: int| 0 <= j < final(self).spec_casts().len() && j != index
                ==> #[trigger] final(self).spec_casts()[j] == old(self).spec_casts()[j],
            final(self).spec_budgets() == old(self).spec_budgets(),
            final(self).spec_cost() == old(self).spec_cost(),
            ({
                let before = old(self).spec_casts()[index as int];
                let after = final(self).spec_casts()[index as int];
                &&& after.id == before.id
                &&& after.spell_name == before.spell_name
                &&& after.payload == before.payload
                &&& after.user_id == before.user_id
                &&& after.created_at == before.created_at
                &&& match result {
                    Ok(o) => {
                        &&& after.status == CastStatus::Completed
                        &&& after.result == Some(o)
                        &&& r is Ok
                        &&& r->Ok_0.id == before.id
                        &&& r->Ok_0.status == CastStatus::Completed
                        &&& r->Ok_0.created_at == before.created_at
                        &&& r->Ok_0.result is Some
                        &&& r->Ok_0.result->0.same_as(&o)
                        &&& r->Ok_0.error_code is None
                        &&& match before.user_id {
                            Some(t) => {
                                let w = spec_daily_window(before.created_at as int);
                                let fits = record_fits(old(self).spec_ledger(), t, w.0 as i64, old(self).spec_cost());
                                &&& fits ==> final(self).spec_ledger() == spec_record(
                                    old(self).spec_ledger(), t, old(self).spec_cost(), w.0 as i64, w.1 as i64)
                                    && after.cost_cents == Some(old(self).spec_cost())
                                &&& fits ==> forall|u: u128, start: i64, end: i64|
                                    #[trigger] spent_in(final(self).spec_ledger(), u, start, end)
                                        == spent_in(old(self).spec_ledger(), u, start, end)
                                        + if u == t && start <= w.0 && w.1 <= end { old(self).spec_cost() as int } else { 0 }
                                &&& !fits ==> final(self).spec_ledger() == old(self).spec_ledger()
                                    && after.cost_cents is None
                            },
                            None => final(self).spec_ledger() == old(self).spec_ledger(),
                        }
                    },
                    Err(e) => {
                        &&& after.status == CastStatus::Failed
                        &&& after.error_code matches Some(c) && c@ == e.spec_error_code()
                        &&& after.cost_cents is None
                        &&& final(self).spec_ledger() == old(self).spec_ledger()
                        &&& r == Err::<CastResponse, CastError>(e)
                    },
                }
            }),
    {
        let ghost ledger0 = self.ledger@;
        let ghost casts0 = self.casts@;
        proof {
            assert(cast_well_formed(casts0[index as int]));
        }
        match result {
            Ok(output) => {
                self.casts[index].complete(output);
                proof {
                    lemma_books_after_change(ledger0, casts0, index as int, self.casts@[index as int]);
                    assert(self.casts@ == casts0.update(index as int, self.casts@[index as int]));
                }
                let ghost casts1 = self.casts@;
                let user = self.casts[index].user_id;
                let created_at = self.casts[index].created_at;
                if let Some(t) = user {
                    let (start, end) = BudgetService::daily_window(created_at);
                    match self.ledger.record(t, self.cost_per_cast_cents, start, end) {
                        Ok(()) => {
                            self.casts[index].set_cost(self.cost_per_cast_cents);
                            proof {
                                lemma_books_after_recording(
                                    ledger0, casts1, index as int, self.casts@[index as int], t,
                                    self.cost_per_cast_cents, start,
                                );
                                assert(self.casts@ == casts1.update(index as int, self.casts@[index as int]));
                                if key_present(ledger0, t, start) {
                                    assert(day_row(ledger0[key_index(ledger0, t, start)]));
                                }
                                assert forall|u: u128, s: i64, e: i64|
                                    #[trigger] spent_in(self.spec_ledger(), u, s, e) == spent_in(ledger0, u, s, e)
                                        + if u == t && s <= start && end <= e { self.cost_per_cast_cents as int } else { 0 } by {
                                    lemma_record_adds_spend(ledger0, t, self.cost_per_cast_cents, start, end, u, s, e);
                                }
                            }
                        },
                        Err(_) => {},
                    }
                }
                Ok(self.casts[index].response())
            },
            Err(e) => {
                self.casts[index].fail(&e);
                proof {
                    lemma_books_after_change(ledger0, casts0, index as int, self.casts@[index as int]);
                    assert(self.casts@ == casts0.update(index as int, self.casts@[index as int]));
                }
                Err(e)
            },
        }
    }
}

/// For every tenant and every ledger window, the calls the ledger holds are
/// the completed casts of that tenant created in that window, as long as no
/// completed cast is still waiting for its usage to be reconciled.
pub proof fn lemma_calls_match_completed_casts(p: &CastPipeline, user: u128, window_start: i64)
    requires
        p.inv(),
        forall|i: int| 0 <= i < p.spec_casts().len() && (#[trigger] p.spec_casts()[i]).status
            == CastStatus::Completed ==> p.spec_casts()[i].cost_cents is Some,
    ensures
        calls_total(p.spec_ledger(), user, window_start) == completed_count(p.spec_casts(), user, window_start),
{
    lemma_counts_agree(p.spec_casts(), user, window_start);
}

} // verus!
