//! The usage data that the monitor keeps and shows.

use vstd::prelude::*;

verus! {

/// One account's usage, as read from the upstream service.
#[derive(Clone, Debug)]
pub struct ParsedUsage {
    pub email: String,
    pub plan_type: String,
    pub session_used_percent: Option<u32>,
    pub session_reset_at: Option<i64>,
    pub session_reset_at_iso: Option<String>,
    pub weekly_used_percent: Option<u32>,
    pub weekly_reset_at: Option<i64>,
    pub weekly_reset_at_iso: Option<String>,
}

/// A successful fetch: the usage, and when it was fetched.
#[derive(Clone, Debug)]
pub struct UsageResponse {
    pub data: ParsedUsage,
    pub cache_age_seconds: i64,
    pub last_sync_unix: i64,
    pub last_sync_iso: String,
}

} // verus!
