//! One execution attempt and its audit record.
use vstd::prelude::*;

use crate::errors::CastError;
use crate::sandbox::SpellOutput;

verus! {

/// Where a cast stands. A cast starts queued and moves once, to completed or
/// to failed.
#[derive(Debug, Clone, Copy, PartialEq, Eq, Structural)]
pub enum CastStatus {
    Queued,
    Completed,
    Failed,
}

impl CastStatus {
    pub open spec fn spec_name(&self) -> Seq<char> {
        match self {
            CastStatus::Queued => "QUEUED"@,
            CastStatus::Completed => "COMPLETED"@,
            CastStatus::Failed => "FAILED"@,
        }
    }

    pub fn as_str(&self) -> (r: &'static str)
        ensures
            r@ == self.spec_name(),
    {
        match self {
            CastStatus::Queued => "QUEUED",
            CastStatus::Completed => "COMPLETED",
            CastStatus::Failed => "FAILED",
        }
    }
}

/// The audit record of one execution attempt.
#[derive(Debug, Clone)]
pub struct Cast {
    pub id: u128,
    pub spell_name: String,
    /// The payload as JSON text.
    pub payload: String,
    pub status: CastStatus,
    pub result: Option<SpellOutput>,
    pub error_code: Option<String>,
    pub user_id: Option<u128>,
    pub cost_cents: Option<u32>,
    /// Unix timestamp of creation.
    pub created_at: i64,
}

/// What a caller is shown of a finished cast.
#[derive(Debug, Clone)]
pub struct CastResponse {
    pub id: u128,
    pub status: CastStatus,
    pub result: Option<SpellOutput>,
    pub error_code: Option<String>,
    pub created_at: i64,
}

impl Cast {
    /// A new queued cast, written before the unit runs.
    pub fn queued(id: u128, spell_name: String, payload: String, user_id: Option<u128>, created_at: i64) -> (r: Cast)
        ensures
            r.id == id,
            r.spell_name@ == spell_name@,
            r.payload@ == payload@,
            r.status == CastStatus::Queued,
            r.result is None,
            r.error_code is None,
            r.user_id == user_id,
            r.cost_cents is None,
            r.created_at == created_at,
    {
        Cast {
            id,
            spell_name,
            payload,
            status: CastStatus::Queued,
            result: None,
            error_code: None,
            user_id,
            cost_cents: None,
            created_at,
        }
    }

    /// Marks a queued cast completed with the unit's output.
    pub fn complete(&mut self, output: SpellOutput)
        requires
            old(self).status == CastStatus::Queued,
        ensures
            final(self).status == CastStatus::Completed,
            final(self).result == Some(output),
            final(self).id == old(self).id,
            final(self).spell_name == old(self).spell_name,
            final(self).payload == old(self).payload,
            final(self).error_code == old(self).error_code,
            final(self).user_id == old(self).user_id,
            final(self).cost_cents == old(self).cost_cents,
            final(self).created_at == old(self).created_at,
    {
        self.status = CastStatus::Completed;
        self.result = Some(output);
    }

    /// Marks a queued cast failed with the error's code.
    pub fn fail(&mut self, error: &CastError)
        requires
            old(self).status == CastStatus::Queued,
        ensures
            final(self).status == CastStatus::Failed,
            final(self).error_code matches Some(c) && c@ == error.spec_error_code(),
            final(self).id == old(self).id,
            final(self).spell_name == old(self).spell_name,
            final(self).payload == old(self).payload,
            final(self).result == old(self).result,
            final(self).user_id == old(self).user_id,
            final(self).cost_cents == old(self).cost_cents,
            final(self).created_at == old(self).created_at,
    {
        self.status = CastStatus::Failed;
        self.error_code = Some(error.error_code().to_string());
    }

    /// Fills in the cost of a completed cast once its usage is recorded.
    pub fn set_cost(&mut self, cost_cents: u32)
        requires
            old(self).status == CastStatus::Completed,
        ensures
            final(self).cost_cents == Some(cost_cents),
            final(self).status == old(self).status,
            final(self).id == old(self).id,
            final(self).spell_name == old(self).spell_name,
            final(self).payload == old(self).payload,
            final(self).result == old(self).result,
            final(self).error_code == old(self).error_code,
            final(self).user_id == old(self).user_id,
            final(self).created_at == old(self).created_at,
    {
        self.cost_cents = Some(cost_cents);
    }

    /// The caller's view of the cast.
    pub fn response(&self) -> (r: CastResponse)
        ensures
            r.id == self.id,
            r.status == self.status,
            r.result is Some == self.result is Some,
            r.result is Some ==> r.result->0.same_as(&self.result->0),
            r.error_code == self.error_code,
            r.created_at == self.created_at,
    {
        let result = match &self.result {
            Some(o) => Some(o.duplicate()),
            None => None,
        };
        CastResponse {
            id: self.id,
            status: self.status,
            result,
            error_code: self.error_code.clone(),
            created_at: self.created_at,
        }
    }
}

} // verus!
