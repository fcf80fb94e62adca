use vstd::prelude::*;

verus! {

/// Time allowed for one backend dial, in milliseconds.
pub const CONNECT_TIMEOUT_MS: u64 = 2000;

/// Idle time after which the transport tears a session down, in seconds.
pub const SESSION_IDLE_TIMEOUT_SECS: u64 = 3600;

/// A network address: four octets, or eight 16-bit groups.
#[derive(Clone, Copy, Debug, PartialEq, Eq)]
pub enum IpAddress {
    V4([u8; 4]),
    V6([u16; 8]),
}

/// A network endpoint: an address and a port.
#[derive(Clone, Copy, Debug, PartialEq, Eq)]
pub struct Endpoint {
    pub ip: IpAddress,
    pub port: u16,
}

/// The bridge's immutable configuration, fixed when the process starts.
#[derive(Clone, Copy, Debug)]
pub struct BridgeConfig {
    /// The backend endpoint, or `None` when the configured text is malformed.
    pub target: Option<Endpoint>,
    /// Bound on each backend dial, in milliseconds.
    pub connect_timeout_ms: u64,
}

impl BridgeConfig {
    /// A configuration for `target` with the standard connect timeout.
    pub fn new(target: Option<Endpoint>) -> (r: BridgeConfig)
        ensures
            r.target == target,
            r.connect_timeout_ms == CONNECT_TIMEOUT_MS,
    {
        BridgeConfig { target, connect_timeout_ms: CONNECT_TIMEOUT_MS }
    }

    /// Whether the configured target is a well-formed endpoint.
    pub fn has_valid_target(&self) -> (r: bool)
        ensures
            r == self.target.is_some(),
    {
        self.target.is_some()
    }
}

} // verus!
