//! Payment-connector transformations for Coinbase Commerce and the
//! process-tracker scheduler's batching, retry-schedule and stream
//! bookkeeping logic, with their contracts proved by Verus.

pub mod decimal;
pub mod errors;
pub mod retry_schedule;
pub mod json_value;
pub mod timestamp;
pub mod ids;
pub mod batching;
pub mod stream_append;
pub mod stream_fetch;
pub mod producer_lock;
pub mod router_types;
pub mod coinbase;
