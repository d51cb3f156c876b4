//! The values a front end pushes into the tray.

use vstd::prelude::*;

verus! {

/// Connection status shown on the first line of the tray menu.
#[derive(Debug, Clone, Copy, PartialEq, Eq, Structural)]
pub enum ConnectionStatus {
    Connected,
    Connecting,
    Disconnected,
    Error,
}

/// Health of the assistant as last reported.
#[derive(Debug, Clone, Copy, PartialEq, Eq, Structural)]
pub enum HealthStatus {
    Healthy,
    Degraded,
    Unhealthy,
    Unknown,
}

/// Token counters for display. The three counters are independent: the total
/// is whatever the caller supplied, not the sum of the other two.
#[derive(Debug, Clone, Copy, PartialEq, Eq, Structural)]
pub struct TokenUsage {
    pub input_tokens: u64,
    pub output_tokens: u64,
    pub total_tokens: u64,
}

impl Default for TokenUsage {
    fn default() -> (usage: Self)
        ensures
            usage == (TokenUsage { input_tokens: 0, output_tokens: 0, total_tokens: 0 }),
    {
        TokenUsage { input_tokens: 0, output_tokens: 0, total_tokens: 0 }
    }
}

/// A health report: the status, and the round-trip latency in milliseconds
/// where one was measured.
#[derive(Debug, Clone, Copy, PartialEq, Eq, Structural)]
pub struct HealthInfo {
    pub status: HealthStatus,
    pub latency: Option<u64>,
}

} // verus!
