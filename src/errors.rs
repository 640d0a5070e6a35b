//! The failures a cast can end in, with their codes, categories and statuses.
use vstd::prelude::*;

use crate::billing::BudgetExceededError;
use crate::text::joined;

verus! {

/// How a caller should treat a failure.
#[derive(Debug, Clone, Copy, PartialEq, Eq, Structural)]
pub enum ErrorCategory {
    NetworkRetryable,
    PermConfig,
    TransientRuntime,
    PermRuntime,
}

impl ErrorCategory {
    /// The wire name of the category.
    pub fn as_str(&self) -> (r: &'static str)
        ensures
            r@ == self.spec_name(),
    {
        match self {
            ErrorCategory::NetworkRetryable => "NETWORK_RETRYABLE",
            ErrorCategory::PermConfig => "PERM_CONFIG",
            ErrorCategory::TransientRuntime => "TRANSIENT_RUNTIME",
            ErrorCategory::PermRuntime => "PERM_RUNTIME",
        }
    }

    pub open spec fn spec_name(&self) -> Seq<char> {
        match self {
            ErrorCategory::NetworkRetryable => "NETWORK_RETRYABLE"@,
            ErrorCategory::PermConfig => "PERM_CONFIG"@,
            ErrorCategory::TransientRuntime => "TRANSIENT_RUNTIME"@,
            ErrorCategory::PermRuntime => "PERM_RUNTIME"@,
        }
    }
}

/// A failure of one cast, from admission to execution.
#[derive(Debug, Clone)]
pub enum CastError {
    /// The relational store could not be reached.
    DatabaseError(String),
    /// No artifact exists for the named unit.
    WasmNotFound(String),
    /// The unit could not be loaded or trapped while running.
    WasmExecutionFailed(String),
    /// The unit ran past its wall-clock deadline.
    WasmTimeout,
    InvalidInput(String),
    InternalError(String),
    /// The tenant's hard spending limit is reached.
    BudgetExceeded(BudgetExceededError),
    /// The caller sent too many requests in the current window.
    RateLimited { retry_after_seconds: u64 },
}

impl CastError {
    pub open spec fn spec_category(&self) -> ErrorCategory {
        match self {
            CastError::DatabaseError(_) => ErrorCategory::NetworkRetryable,
            CastError::WasmNotFound(_) => ErrorCategory::PermConfig,
            CastError::WasmExecutionFailed(_) => ErrorCategory::PermRuntime,
            CastError::WasmTimeout => ErrorCategory::TransientRuntime,
            CastError::InvalidInput(_) => ErrorCategory::PermConfig,
            CastError::InternalError(_) => ErrorCategory::NetworkRetryable,
            CastError::BudgetExceeded(_) => ErrorCategory::PermConfig,
            CastError::RateLimited { .. } => ErrorCategory::TransientRuntime,
        }
    }

    pub open spec fn spec_error_code(&self) -> Seq<char> {
        match self {
            CastError::DatabaseError(_) => "DB_ERROR"@,
            CastError::WasmNotFound(_) => "WASM_NOT_FOUND"@,
            CastError::WasmExecutionFailed(_) => "WASM_EXEC_FAILED"@,
            CastError::WasmTimeout => "WASM_TIMEOUT"@,
            CastError::InvalidInput(_) => "INVALID_INPUT"@,
            CastError::InternalError(_) => "INTERNAL_ERROR"@,
            CastError::BudgetExceeded(_) => "budget_exceeded"@,
            CastError::RateLimited { .. } => "rate_limited"@,
        }
    }

    pub open spec fn spec_status_code(&self) -> u16 {
        match self {
            CastError::DatabaseError(_) => 503,
            CastError::WasmNotFound(_) => 404,
            CastError::WasmExecutionFailed(_) => 500,
            CastError::WasmTimeout => 408,
            CastError::InvalidInput(_) => 422,
            CastError::InternalError(_) => 500,
            CastError::BudgetExceeded(_) => 402,
            CastError::RateLimited { .. } => 429,
        }
    }

    /// Whether a caller may retry the same request later and expect it to pass.
    pub open spec fn spec_retryable(&self) -> bool {
        match self {
            CastError::DatabaseError(_) => true,
            CastError::WasmTimeout => true,
            CastError::RateLimited { .. } => true,
            CastError::InternalError(_) => true,
            _ => false,
        }
    }

    pub fn category(&self) -> (r: ErrorCategory)
        ensures
            r == self.spec_category(),
    {
        match self {
            CastError::DatabaseError(_) => ErrorCategory::NetworkRetryable,
            CastError::WasmNotFound(_) => ErrorCategory::PermConfig,
            CastError::WasmExecutionFailed(_) => ErrorCategory::PermRuntime,
            CastError::WasmTimeout => ErrorCategory::TransientRuntime,
            CastError::InvalidInput(_) => ErrorCategory::PermConfig,
            CastError::InternalError(_) => ErrorCategory::NetworkRetryable,
            CastError::BudgetExceeded(_) => ErrorCategory::PermConfig,
            CastError::RateLimited { .. } => ErrorCategory::TransientRuntime,
        }
    }

    /// The machine-readable code stored on a failed cast and sent to callers.
    pub fn error_code(&self) -> (r: &'static str)
        ensures
            r@ == self.spec_error_code(),
    {
        match self {
            CastError::DatabaseError(_) => "DB_ERROR",
            CastError::WasmNotFound(_) => "WASM_NOT_FOUND",
            CastError::WasmExecutionFailed(_) => "WASM_EXEC_FAILED",
            CastError::WasmTimeout => "WASM_TIMEOUT",
            CastError::InvalidInput(_) => "INVALID_INPUT",
            CastError::InternalError(_) => "INTERNAL_ERROR",
            CastError::BudgetExceeded(_) => "budget_exceeded",
            CastError::RateLimited { .. } => "rate_limited",
        }
    }

    /// The HTTP status that reports this failure.
    pub fn status_code(&self) -> (r: u16)
        ensures
            r == self.spec_status_code(),
    {
        match self {
            CastError::DatabaseError(_) => 503,
            CastError::WasmNotFound(_) => 404,
            CastError::WasmExecutionFailed(_) => 500,
            CastError::WasmTimeout => 408,
            CastError::InvalidInput(_) => 422,
            CastError::InternalError(_) => 500,
            CastError::BudgetExceeded(_) => 402,
            CastError::RateLimited { .. } => 429,
        }
    }

    pub fn is_retryable(&self) -> (r: bool)
        ensures
            r == self.spec_retryable(),
    {
        match self {
            CastError::DatabaseError(_) => true,
            CastError::WasmTimeout => true,
            CastError::RateLimited { .. } => true,
            CastError::InternalError(_) => true,
            _ => false,
        }
    }

    /// A human-readable description of the failure.
    pub fn message(&self) -> (r: String)
        ensures
            self matches CastError::WasmNotFound(name) ==> r@ == "WASM module not found: "@ + name@,
            self matches CastError::WasmExecutionFailed(m) ==> r@ == "WASM execution failed: "@ + m@,
            self matches CastError::DatabaseError(m) ==> r@ == "Database error: "@ + m@,
            self matches CastError::InvalidInput(m) ==> r@ == "Invalid input: "@ + m@,
            self matches CastError::InternalError(m) ==> r@ == "Internal error: "@ + m@,
            self matches CastError::WasmTimeout ==> r@ == "WASM execution timeout"@,
            self matches CastError::BudgetExceeded(_) ==> r@ == "Budget exceeded"@,
            self matches CastError::RateLimited { .. } ==> r@ == "Rate limit exceeded"@,
    {
        match self {
            CastError::DatabaseError(m) => joined("Database error: ", m.as_str()),
            CastError::WasmNotFound(name) => joined("WASM module not found: ", name.as_str()),
            CastError::WasmExecutionFailed(m) => joined("WASM execution failed: ", m.as_str()),
            CastError::WasmTimeout => "WASM execution timeout".to_string(),
            CastError::InvalidInput(m) => joined("Invalid input: ", m.as_str()),
            CastError::InternalError(m) => joined("Internal error: ", m.as_str()),
            CastError::BudgetExceeded(_) => "Budget exceeded".to_string(),
            CastError::RateLimited { .. } => "Rate limit exceeded".to_string(),
        }
    }
}

} // verus!
