use vstd::prelude::*;

verus! {

/// Default timeout of HTTP requests, in seconds.
pub const DEFAULT_TIMEOUT_SECS: u64 = 30;

/// Default maximum number of requests per second.
pub const DEFAULT_MAX_RPS: u32 = 10;

/// Default number of items per page when paginating.
pub const DEFAULT_PAGINATION_LIMIT: u32 = 100;

/// The `User-Agent` of every request: the library's name and version.
pub const USER_AGENT: &'static str = "redmine-wrapper-rs/0.1.0";

} // verus!
