//! Fixed-window rate limiting per caller identity.
//!
//! The shared counter lives in an outside store that offers an atomic
//! increment with an expiry; the decisions around it are made here. An
//! in-process counter with the same semantics is provided as well.
use vstd::prelude::*;

use crate::text::{joined, same_text};

verus! {

/// Length of one rate-limit window, in seconds.
pub const RATE_WINDOW_SECONDS: u64 = 60;

/// Requests an authenticated tenant may make in one window.
pub const TENANT_LIMIT: u64 = 60;

/// Requests an unauthenticated source address may make in one window.
pub const ADDRESS_LIMIT: u64 = 10;

/// Seconds a denied caller is told to wait.
pub const RETRY_AFTER_SECONDS: u64 = 60;

/// Whom a request is counted against.
#[derive(Debug, Clone)]
pub enum Identity {
    /// An authenticated tenant, by its 128-bit id.
    Tenant(u128),
    /// An unauthenticated caller, by its source address.
    Address(String),
}

/// The outcome of a rate-limit check.
#[derive(Debug, Clone, Copy, PartialEq, Eq, Structural)]
pub enum Admission {
    Allowed,
    Denied { retry_after_seconds: u64 },
}

pub open spec fn spec_limit_for(identity: Identity) -> u64 {
    match identity {
        Identity::Tenant(_) => TENANT_LIMIT,
        Identity::Address(_) => ADDRESS_LIMIT,
    }
}

/// A request whose counter reads `count` after its own increment is allowed
/// exactly when `count` does not exceed `limit`.
pub open spec fn spec_admission(count: u64, limit: u64) -> Admission {
    if count <= limit {
        Admission::Allowed
    } else {
        Admission::Denied { retry_after_seconds: RETRY_AFTER_SECONDS }
    }
}

/// The text of a tenant id in hyphenated lower-case form.
pub uninterp spec fn uuid_text_of(id: u128) -> Seq<char>;

/// Relies on `uuid::Uuid::from_u128` and its `Display`: the hyphenated form
/// of the id, 36 characters long.
#[verifier::external_body]
fn uuid_text(id: u128) -> (r: String)
    ensures
        r@ == uuid_text_of(id),
        r@.len() == 36,
{
    uuid::Uuid::from_u128(id).to_string()
}

/// Requests allowed per window for this identity.
pub fn limit_for(identity: &Identity) -> (r: u64)
    ensures
        r == spec_limit_for(*identity),
{
    match identity {
        Identity::Tenant(_) => TENANT_LIMIT,
        Identity::Address(_) => ADDRESS_LIMIT,
    }
}

/// The counter key of this identity in the shared store.
pub fn rate_key(identity: &Identity) -> (r: String)
    ensures
        *identity matches Identity::Tenant(id) ==> r@ == "rate:user:"@ + uuid_text_of(id),
        *identity matches Identity::Address(a) ==> r@ == "rate:ip:"@ + a@,
{
    match identity {
        Identity::Tenant(id) => {
            let t = uuid_text(*id);
            joined("rate:user:", t.as_str())
        },
        Identity::Address(a) => joined("rate:ip:", a.as_str()),
    }
}

/// Whether requests to `path` skip rate limiting: only the health check
/// does.
pub fn is_exempt_path(path: &str) -> (r: bool)
    ensures
        r == (path@ == "/healthz"@),
{
    same_text(path, "/healthz")
}

/// What to do once the shared counter has been incremented.
#[derive(Debug, Clone, Copy, PartialEq, Eq, Structural)]
pub struct IncrementVerdict {
    /// The increment opened a new window: give the key its expiry.
    pub set_expiry: bool,
    pub admission: Admission,
}

/// The decision after an increment that left the counter at `count`: the
/// first increment of a window sets the expiry, and the request is denied
/// when `count` exceeds `limit`.
pub fn after_increment(count: u64, limit: u64) -> (r: IncrementVerdict)
    ensures
        r.set_expiry == (count == 1),
        r.admission == spec_admission(count, limit),
{
    let admission = if count <= limit {
        Admission::Allowed
    } else {
        Admission::Denied { retry_after_seconds: RETRY_AFTER_SECONDS }
    };
    IncrementVerdict { set_expiry: count == 1, admission }
}

/// The admission given the store's answer: the counter after the increment,
/// or `None` when the store could not be reached, in which case the request
/// is allowed.
pub fn admission_from_store(count: Option<u64>, limit: u64) -> (r: Admission)
    ensures
        count is None ==> r == Admission::Allowed,
        count matches Some(c) ==> r == spec_admission(c, limit),
{
    match count {
        Some(c) => after_increment(c, limit).admission,
        None => Admission::Allowed,
    }
}

/// One identity's counter: how many requests its current window has seen
/// and when that window ends. A count of zero means no window is open.
#[derive(Debug, Clone, Copy, PartialEq, Eq, Structural)]
pub struct WindowCounter {
    pub count: u64,
    pub expires_at: u64,
}

impl WindowCounter {
    pub open spec fn fresh() -> WindowCounter {
        WindowCounter { count: 0, expires_at: 0 }
    }

    /// Whether a window is open at time `now`.
    pub open spec fn live_at(self, now: u64) -> bool {
        self.count > 0 && now < self.expires_at
    }

    /// The counter after a request at time `now`: within an open window the
    /// count grows by one; otherwise a new window of `RATE_WINDOW_SECONDS`
    /// starts with a count of one.
    pub open spec fn spec_hit(self, now: u64) -> WindowCounter {
        if self.live_at(now) {
            WindowCounter {
                count: if self.count < u64::MAX { (self.count + 1) as u64 } else { u64::MAX },
                expires_at: self.expires_at,
            }
        } else {
            WindowCounter { count: 1, expires_at: (now + RATE_WINDOW_SECONDS) as u64 }
        }
    }

    pub fn new() -> (r: WindowCounter)
        ensures
            r == WindowCounter::fresh(),
    {
        WindowCounter { count: 0, expires_at: 0 }
    }

    /// Counts a request at time `now` and returns the count after it.
    pub fn hit(&mut self, now: u64) -> (r: u64)
        requires
            now <= u64::MAX - RATE_WINDOW_SECONDS,
        ensures
            *final(self) == old(self).spec_hit(now),
            r == final(self).count,
    {
        if self.count > 0 && now < self.expires_at {
            self.count = self.count.saturating_add(1);
        } else {
            self.count = 1;
            self.expires_at = now + RATE_WINDOW_SECONDS;
        }
        self.count
    }

    /// Counts a request at time `now` and decides it against `limit`.
    pub fn check(&mut self, now: u64, limit: u64) -> (r: Admission)
        requires
            now <= u64::MAX - RATE_WINDOW_SECONDS,
        ensures
            *final(self) == old(self).spec_hit(now),
            r == spec_admission(final(self).count, limit),
    {
        let c = self.hit(now);
        after_increment(c, limit).admission
    }
}

/// The counter after requests at each of `times`, in order.
pub open spec fn run_hits(c: WindowCounter, times: Seq<u64>) -> WindowCounter
    decreases times.len(),
{
    if times.len() == 0 {
        c
    } else {
        run_hits(c, times.drop_last()).spec_hit(times.last())
    }
}

/// Requests at non-decreasing times that all fall within one window opened
/// by the first of them are each counted: after `n` such requests the count
/// is `n`, so the request that makes the count exceed the limit is the first
/// one denied.
pub proof fn lemma_window_counts_each_request(times: Seq<u64>, limit: u64)
    requires
        0 < times.len() < u64::MAX,
        times[0] <= u64::MAX - RATE_WINDOW_SECONDS,
        forall|i: int, j: int| 0 <= i <= j < times.len() ==> #[trigger] times[i] <= #[trigger] times[j],
        forall|i: int| 0 <= i < times.len() ==> #[trigger] times[i] < times[0] + RATE_WINDOW_SECONDS,
    ensures
        run_hits(WindowCounter::fresh(), times).count == times.len(),
        run_hits(WindowCounter::fresh(), times).expires_at == times[0] + RATE_WINDOW_SECONDS,
        spec_admission(run_hits(WindowCounter::fresh(), times).count, limit) == Admission::Allowed
            <==> times.len() <= limit,
    decreases times.len(),
{
    if times.len() > 1 {
        let prefix = times.drop_last();
        assert forall|i: int, j: int| 0 <= i <= j < prefix.len() implies #[trigger] prefix[i] <= #[trigger] prefix[j] by {
            assert(prefix[i] == times[i] && prefix[j] == times[j]);
        }
        assert forall|i: int| 0 <= i < prefix.len() implies #[trigger] prefix[i] < prefix[0] + RATE_WINDOW_SECONDS by {
            assert(prefix[i] == times[i]);
        }
        lemma_window_counts_each_request(prefix, limit);
        assert(prefix[0] == times[0]);
        assert(times[times.len() - 1] < times[0] + RATE_WINDOW_SECONDS);
        assert(run_hits(WindowCounter::fresh(), prefix).live_at(times.last()));
    } else {
        assert(times.drop_last().len() == 0);
        assert(run_hits(WindowCounter::fresh(), times.drop_last()) == WindowCounter::fresh());
    }
}

/// Once a window has ended, the next request opens a new window with a count
/// of one, and is allowed under any positive limit.
pub proof fn lemma_expired_window_resets(c: WindowCounter, now: u64, limit: u64)
    requires
        now >= c.expires_at,
        limit >= 1,
    ensures
        c.spec_hit(now).count == 1,
        spec_admission(c.spec_hit(now).count, limit) == Admission::Allowed,
{
}

} // verus!
