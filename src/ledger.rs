//! The usage ledger: one row per tenant and window, accumulated by upsert.
use vstd::math::min;
use vstd::prelude::*;

verus! {

/// Calls and spend of one tenant within one window `[window_start, window_end)`.
#[derive(Debug, Clone, Copy, PartialEq, Eq, Structural)]
pub struct UsageCounter {
    pub user_id: u128,
    pub window_start: i64,
    pub window_end: i64,
    pub calls: u64,
    pub cost_cents: u64,
}

/// Why a recording was refused.
#[derive(Debug, Clone, Copy, PartialEq, Eq, Structural)]
pub enum LedgerError {
    /// The row's call count or spend would no longer fit.
    Overflow,
}

pub open spec fn has_key(r: UsageCounter, user: u128, window_start: i64) -> bool {
    r.user_id == user && r.window_start == window_start
}

/// Whether the row belongs to `user` and its window lies within `[start, end)`.
pub open spec fn within(r: UsageCounter, user: u128, start: i64, end: i64) -> bool {
    r.user_id == user && start <= r.window_start && r.window_end <= end
}

/// Sum of `calls` over the rows keyed by `(user, window_start)`.
pub open spec fn calls_total(rows: Seq<UsageCounter>, user: u128, window_start: i64) -> int
    decreases rows.len(),
{
    if rows.len() == 0 {
        0
    } else {
        calls_total(rows.drop_last(), user, window_start) + if has_key(rows.last(), user, window_start) {
            rows.last().calls as int
        } else {
            0
        }
    }
}

/// Sum of `cost_cents` over the rows keyed by `(user, window_start)`.
pub open spec fn cost_total(rows: Seq<UsageCounter>, user: u128, window_start: i64) -> int
    decreases rows.len(),
{
    if rows.len() == 0 {
        0
    } else {
        cost_total(rows.drop_last(), user, window_start) + if has_key(rows.last(), user, window_start) {
            rows.last().cost_cents as int
        } else {
            0
        }
    }
}

/// Sum of `cost_cents` over the rows of `user` whose window lies in `[start, end)`.
pub open spec fn spent_in(rows: Seq<UsageCounter>, user: u128, start: i64, end: i64) -> int
    decreases rows.len(),
{
    if rows.len() == 0 {
        0
    } else {
        spent_in(rows.drop_last(), user, start, end) + if within(rows.last(), user, start, end) {
            rows.last().cost_cents as int
        } else {
            0
        }
    }
}

/// Sum of `calls` over the rows of `user` whose window lies in `[start, end)`.
pub open spec fn calls_in(rows: Seq<UsageCounter>, user: u128, start: i64, end: i64) -> int
    decreases rows.len(),
{
    if rows.len() == 0 {
        0
    } else {
        calls_in(rows.drop_last(), user, start, end) + if within(rows.last(), user, start, end) {
            rows.last().calls as int
        } else {
            0
        }
    }
}

pub open spec fn key_present(rows: Seq<UsageCounter>, user: u128, window_start: i64) -> bool {
    exists|i: int| 0 <= i < rows.len() && has_key(#[trigger] rows[i], user, window_start)
}

pub open spec fn key_index(rows: Seq<UsageCounter>, user: u128, window_start: i64) -> int {
    choose|i: int| 0 <= i < rows.len() && has_key(#[trigger] rows[i], user, window_start)
}

/// Whether recording `cost_cents` against `(user, window_start)` fits.
pub open spec fn record_fits(rows: Seq<UsageCounter>, user: u128, window_start: i64, cost_cents: u32) -> bool {
    key_present(rows, user, window_start) ==> {
        let r = rows[key_index(rows, user, window_start)];
        r.calls < u64::MAX && r.cost_cents + cost_cents <= u64::MAX
    }
}

/// The rows after one recording: the row keyed by `(user, window_start)`
/// gains one call and `cost_cents`; without such a row a new one is added.
pub open spec fn spec_record(
    rows: Seq<UsageCounter>,
    user: u128,
    cost_cents: u32,
    window_start: i64,
    window_end: i64,
) -> Seq<UsageCounter> {
    if key_present(rows, user, window_start) {
        let i = key_index(rows, user, window_start);
        rows.update(i, UsageCounter {
            calls: (rows[i].calls + 1) as u64,
            cost_cents: (rows[i].cost_cents + cost_cents) as u64,
            ..rows[i]
        })
    } else {
        rows.push(UsageCounter { user_id: user, window_start, window_end, calls: 1, cost_cents: cost_cents as u64 })
    }
}

/// No two rows share a key.
pub open spec fn keys_unique(rows: Seq<UsageCounter>) -> bool {
    forall|i: int, j: int|
        0 <= i < rows.len() && 0 <= j < rows.len() && i != j
            ==> !has_key(#[trigger] rows[i], rows[j].user_id, #[trigger] rows[j].window_start)
}

/// Durable record of usage, keyed by tenant and window start.
pub struct UsageLedger {
    rows: Vec<UsageCounter>,
}

impl View for UsageLedger {
    type V = Seq<UsageCounter>;

    closed spec fn view(&self) -> Seq<UsageCounter> {
        self.rows@
    }
}

impl UsageLedger {
    pub open spec fn wf(&self) -> bool {
        keys_unique(self@)
    }

    pub fn new() -> (r: UsageLedger)
        ensures
            r.wf(),
            r@ == Seq::<UsageCounter>::empty(),
    {
        UsageLedger { rows: Vec::new() }
    }

    /// The rows, in the order they were first created.
    pub fn rows(&self) -> (r: &Vec<UsageCounter>)
        ensures
            r@ == self@,
    {
        &self.rows
    }

    /// Adds one call costing `cost_cents` to the row of `(user_id,
    /// window_start)`, creating it with `window_end` when absent. A recording
    /// that would overflow the row changes nothing.
    pub fn record(&mut self, user_id: u128, cost_cents: u32, window_start: i64, window_end: i64) -> (r: Result<(), LedgerError>)
        requires
            old(self).wf(),
        ensures
            final(self).wf(),
            r is Ok <==> record_fits(old(self)@, user_id, window_start, cost_cents),
            r is Ok ==> final(self)@ == spec_record(old(self)@, user_id, cost_cents, window_start, window_end),
            r is Err ==> final(self)@ == old(self)@,
    {
        let n = self.rows.len();
        let mut i: usize = 0;
        while i < n
            invariant
                n == self.rows@.len(),
                self@ == old(self)@,
                keys_unique(self@),
                0 <= i <= n,
                forall|k: int| 0 <= k < i ==> !has_key(#[trigger] self@[k], user_id, window_start),
            decreases n - i,
        {
            let row = self.rows[i];
            if row.user_id == user_id && row.window_start == window_start {
                proof {
                    let j = key_index(self@, user_id, window_start);
                    assert(has_key(self@[i as int], user_id, window_start));
                    if j != i {
                        assert(!has_key(self@[j], self@[i as int].user_id, self@[i as int].window_start));
                    }
                }
                if row.calls == u64::MAX || row.cost_cents > u64::MAX - cost_cents as u64 {
                    return Err(LedgerError::Overflow);
                }
                let updated = UsageCounter {
                    calls: row.calls + 1,
                    cost_cents: row.cost_cents + cost_cents as u64,
                    ..row
                };
                self.rows.set(i, updated);
                proof {
                    assert forall|a: int, b: int|
                        0 <= a < self@.len() && 0 <= b < self@.len() && a != b
                        implies !has_key(#[trigger] self@[a], self@[b].user_id, #[trigger] self@[b].window_start) by {
                        assert(!has_key(old(self)@[a], old(self)@[b].user_id, old(self)@[b].window_start));
                    }
                }
                return Ok(());
            }
            i = i + 1;
        }
        let fresh = UsageCounter { user_id, window_start, window_end, calls: 1, cost_cents: cost_cents as u64 };
        self.rows.push(fresh);
        proof {
            assert(!key_present(old(self)@, user_id, window_start));
            assert forall|a: int, b: int|
                0 <= a < self@.len() && 0 <= b < self@.len() && a != b
                implies !has_key(#[trigger] self@[a], self@[b].user_id, #[trigger] self@[b].window_start) by {
                if a < n && b < n {
                    assert(!has_key(old(self)@[a], old(self)@[b].user_id, old(self)@[b].window_start));
                } else if a == n {
                    assert(!has_key(old(self)@[b], user_id, window_start));
                } else {
                    assert(!has_key(old(self)@[a], user_id, window_start));
                }
            }
        }
        Ok(())
    }

    /// Total spend of `user_id` over rows whose window lies in `[start, end)`,
    /// capped at `u64::MAX`.
    pub fn spent_between(&self, user_id: u128, start: i64, end: i64) -> (r: u64)
        ensures
            r == min(spent_in(self@, user_id, start, end), u64::MAX as int),
    {
        let n = self.rows.len();
        let mut acc: u64 = 0;
        let mut i: usize = 0;
        while i < n
            invariant
                n == self@.len(),
                0 <= i <= n,
                acc == min(spent_in(self@.subrange(0, i as int), user_id, start, end), u64::MAX as int),
            decreases n - i,
        {
            let row = self.rows[i];
            proof {
                lemma_spent_in_nonneg(self@.subrange(0, i as int), user_id, start, end);
                assert(self@.subrange(0, i as int + 1).drop_last() == self@.subrange(0, i as int));
            }
            if row.user_id == user_id && start <= row.window_start && row.window_end <= end {
                acc = acc.saturating_add(row.cost_cents);
            }
            i = i + 1;
        }
        assert(self@.subrange(0, n as int) == self@);
        acc
    }

    /// Total calls of `user_id` over rows whose window lies in `[start, end)`,
    /// capped at `u64::MAX`.
    pub fn calls_between(&self, user_id: u128, start: i64, end: i64) -> (r: u64)
        ensures
            r == min(calls_in(self@, user_id, start, end), u64::MAX as int),
    {
        let n = self.rows.len();
        let mut acc: u64 = 0;
        let mut i: usize = 0;
        while i < n
            invariant
                n == self@.len(),
                0 <= i <= n,
                acc == min(calls_in(self@.subrange(0, i as int), user_id, start, end), u64::MAX as int),
            decreases n - i,
        {
            let row = self.rows[i];
            proof {
                lemma_calls_nonneg(self@.subrange(0, i as int), user_id, start, end);
                assert(self@.subrange(0, i as int + 1).drop_last() == self@.subrange(0, i as int));
            }
            if row.user_id == user_id && start <= row.window_start && row.window_end <= end {
                acc = acc.saturating_add(row.calls);
            }
            i = i + 1;
        }
        assert(self@.subrange(0, n as int) == self@);
        acc
    }
}

proof fn lemma_totals_update(rows: Seq<UsageCounter>, i: int, x: UsageCounter, user: u128, window_start: i64)
    requires
        0 <= i < rows.len(),
    ensures
        calls_total(rows.update(i, x), user, window_start) == calls_total(rows, user, window_start)
            - (if has_key(rows[i], user, window_start) { rows[i].calls as int } else { 0 })
            + (if has_key(x, user, window_start) { x.calls as int } else { 0 }),
        cost_total(rows.update(i, x), user, window_start) == cost_total(rows, user, window_start)
            - (if has_key(rows[i], user, window_start) { rows[i].cost_cents as int } else { 0 })
            + (if has_key(x, user, window_start) { x.cost_cents as int } else { 0 }),
    decreases rows.len(),
{
    let u = rows.update(i, x);
    if i == rows.len() - 1 {
        assert(u.drop_last() == rows.drop_last());
    } else {
        assert(u.drop_last() == rows.drop_last().update(i, x));
        lemma_totals_update(rows.drop_last(), i, x, user, window_start);
    }
}

proof fn lemma_spent_update(rows: Seq<UsageCounter>, i: int, x: UsageCounter, user: u128, start: i64, end: i64)
    requires
        0 <= i < rows.len(),
    ensures
        spent_in(rows.update(i, x), user, start, end) == spent_in(rows, user, start, end)
            - (if within(rows[i], user, start, end) { rows[i].cost_cents as int } else { 0 })
            + (if within(x, user, start, end) { x.cost_cents as int } else { 0 }),
    decreases rows.len(),
{
    let u = rows.update(i, x);
    if i == rows.len() - 1 {
        assert(u.drop_last() == rows.drop_last());
    } else {
        assert(u.drop_last() == rows.drop_last().update(i, x));
        lemma_spent_update(rows.drop_last(), i, x, user, start, end);
    }
}

/// Recording adds its amount to the spend of every window of its tenant
/// that holds the recorded row's window, and to no other spend.
pub proof fn lemma_record_adds_spend(
    rows: Seq<UsageCounter>,
    user: u128,
    cost_cents: u32,
    window_start: i64,
    window_end: i64,
    other_user: u128,
    start: i64,
    end: i64,
)
    requires
        keys_unique(rows),
        record_fits(rows, user, window_start, cost_cents),
        key_present(rows, user, window_start) ==> rows[key_index(rows, user, window_start)].window_end == window_end,
    ensures
        spent_in(spec_record(rows, user, cost_cents, window_start, window_end), other_user, start, end)
            == spent_in(rows, other_user, start, end) + if other_user == user && start <= window_start
            && window_end <= end {
            cost_cents as int
        } else {
            0
        },
{
    let n = spec_record(rows, user, cost_cents, window_start, window_end);
    if key_present(rows, user, window_start) {
        let i = key_index(rows, user, window_start);
        lemma_spent_update(rows, i, n[i], other_user, start, end);
        assert(n == rows.update(i, n[i]));
    } else {
        assert(n.drop_last() == rows);
    }
}

pub(crate) proof fn lemma_record_keeps_keys_unique(rows: Seq<UsageCounter>, user: u128, cost_cents: u32, window_start: i64, window_end: i64)
    requires
        keys_unique(rows),
    ensures
        keys_unique(spec_record(rows, user, cost_cents, window_start, window_end)),
{
    let n = spec_record(rows, user, cost_cents, window_start, window_end);
    if key_present(rows, user, window_start) {
        let k = key_index(rows, user, window_start);
        assert forall|a: int, b: int|
            0 <= a < n.len() && 0 <= b < n.len() && a != b
            implies !has_key(#[trigger] n[a], n[b].user_id, #[trigger] n[b].window_start) by {
            assert(!has_key(rows[a], rows[b].user_id, rows[b].window_start));
        }
    } else {
        assert forall|a: int, b: int|
            0 <= a < n.len() && 0 <= b < n.len() && a != b
            implies !has_key(#[trigger] n[a], n[b].user_id, #[trigger] n[b].window_start) by {
            if a < rows.len() && b < rows.len() {
                assert(!has_key(rows[a], rows[b].user_id, rows[b].window_start));
            } else if a == rows.len() {
                assert(!has_key(rows[b], user, window_start));
            } else {
                assert(!has_key(rows[a], user, window_start));
            }
        }
    }
}

/// Recording accumulates and never overwrites: the recorded key gains one
/// call and exactly `cost_cents` of spend, and every other key keeps its
/// totals.
pub proof fn lemma_record_accumulates(
    rows: Seq<UsageCounter>,
    user: u128,
    cost_cents: u32,
    window_start: i64,
    window_end: i64,
    other_user: u128,
    other_window_start: i64,
)
    requires
        keys_unique(rows),
        record_fits(rows, user, window_start, cost_cents),
    ensures
        keys_unique(spec_record(rows, user, cost_cents, window_start, window_end)),
        calls_total(spec_record(rows, user, cost_cents, window_start, window_end), user, window_start)
            == calls_total(rows, user, window_start) + 1,
        cost_total(spec_record(rows, user, cost_cents, window_start, window_end), user, window_start)
            == cost_total(rows, user, window_start) + cost_cents,
        !(other_user == user && other_window_start == window_start) ==> {
            &&& calls_total(spec_record(rows, user, cost_cents, window_start, window_end), other_user, other_window_start)
                == calls_total(rows, other_user, other_window_start)
            &&& cost_total(spec_record(rows, user, cost_cents, window_start, window_end), other_user, other_window_start)
                == cost_total(rows, other_user, other_window_start)
        },
{
    lemma_record_keeps_keys_unique(rows, user, cost_cents, window_start, window_end);
    let n = spec_record(rows, user, cost_cents, window_start, window_end);
    if key_present(rows, user, window_start) {
        let i = key_index(rows, user, window_start);
        lemma_totals_update(rows, i, n[i], user, window_start);
        lemma_totals_update(rows, i, n[i], other_user, other_window_start);
        assert(n == rows.update(i, n[i]));
    } else {
        assert(n.drop_last() == rows);
    }
}

/// Recording the same key twice adds both amounts and two calls to it.
pub proof fn lemma_record_twice_adds_up(
    rows: Seq<UsageCounter>,
    user: u128,
    first_cents: u32,
    second_cents: u32,
    window_start: i64,
    window_end: i64,
)
    requires
        keys_unique(rows),
        record_fits(rows, user, window_start, first_cents),
        record_fits(spec_record(rows, user, first_cents, window_start, window_end), user, window_start, second_cents),
    ensures
        calls_total(
            spec_record(spec_record(rows, user, first_cents, window_start, window_end), user, second_cents, window_start, window_end),
            user,
            window_start,
        ) == calls_total(rows, user, window_start) + 2,
        cost_total(
            spec_record(spec_record(rows, user, first_cents, window_start, window_end), user, second_cents, window_start, window_end),
            user,
            window_start,
        ) == cost_total(rows, user, window_start) + first_cents + second_cents,
{
    lemma_record_accumulates(rows, user, first_cents, window_start, window_end, user, window_start);
    let once = spec_record(rows, user, first_cents, window_start, window_end);
    lemma_record_accumulates(once, user, second_cents, window_start, window_end, user, window_start);
}

pub proof fn lemma_spent_in_nonneg(rows: Seq<UsageCounter>, user: u128, start: i64, end: i64)
    ensures
        spent_in(rows, user, start, end) >= 0,
    decreases rows.len(),
{
    if rows.len() > 0 {
        lemma_spent_in_nonneg(rows.drop_last(), user, start, end);
    }
}

proof fn lemma_calls_nonneg(rows: Seq<UsageCounter>, user: u128, start: i64, end: i64)
    ensures
        calls_in(rows, user, start, end) >= 0,
    decreases rows.len(),
{
    if rows.len() > 0 {
        lemma_calls_nonneg(rows.drop_last(), user, start, end);
    }
}

} // verus!
