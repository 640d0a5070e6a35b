//! Admission and execution core of a metered, multi-tenant compute service:
//! rate limiting, a budget guard, a sandboxed executor, a usage ledger and the
//! decisions that sequence them for one cast.

pub mod apikey;
pub mod billing;
pub mod budget;
pub mod cast;
pub mod errors;
pub mod ledger;
pub mod metrics;
pub mod pipeline;
pub mod rate_limit;
pub mod sandbox;
pub mod text;
