pub mod pagination;
pub mod rate_limiter;
pub mod client;
