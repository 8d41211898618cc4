//! The rules of execution: how an answer is classified, which node is tried
//! next and after what delay, and how a receipt is waited for.

pub mod backoff;
pub mod engine;
pub mod laws;
pub mod nodes;
pub mod pool;
pub mod receipt;
pub mod status;
