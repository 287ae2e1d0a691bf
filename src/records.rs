use vstd::prelude::*;

verus! {

/// Connection summary reported by the daemon.
#[derive(Debug, Clone, PartialEq)]
pub struct DaemonStatus {
    pub connected: bool,
    pub virtual_ip: String,
    pub active_peers: u32,
    pub network_name: String,
}

/// Build information of the running daemon.
#[derive(Debug, Clone, PartialEq)]
pub struct VersionInfo {
    pub version: String,
    pub build_date: String,
    pub commit: String,
    pub go_version: String,
    pub os: String,
    pub arch: String,
}

/// A network the local node belongs to (or just created or joined).
#[derive(Debug, Clone, PartialEq)]
pub struct NetworkInfo {
    pub id: String,
    pub name: String,
    pub invite_code: String,
}

/// A peer of the current network.
#[derive(Debug, Clone, PartialEq)]
pub struct PeerInfo {
    pub id: String,
    pub name: String,
    pub display_name: String,
    pub virtual_ip: String,
    pub connected: bool,
    pub is_relay: bool,
    pub latency_ms: i64,
}

/// The user-facing daemon settings.
#[derive(Debug, Clone, PartialEq)]
pub struct Settings {
    pub auto_connect: bool,
    pub start_minimized: bool,
    pub notifications_enabled: bool,
    pub log_level: String,
}

/// One chat message of a network.
#[derive(Debug, Clone, PartialEq)]
pub struct ChatMessage {
    pub id: String,
    pub peer_id: String,
    pub content: String,
    pub timestamp: String,
    pub is_self: bool,
}

/// One file transfer, with its status and direction as labels.
#[derive(Debug, Clone, PartialEq)]
pub struct TransferInfo {
    pub id: String,
    pub peer_id: String,
    pub file_name: String,
    pub file_size: u64,
    pub transferred: u64,
    pub status: String,
    pub direction: String,
    pub error: Option<String>,
}

/// Totals over a list of transfers.
#[derive(Debug, Clone, Copy, PartialEq, Eq, Structural)]
pub struct TransferStats {
    pub total_uploads: u32,
    pub total_downloads: u32,
    pub active_transfers: u32,
    pub completed_transfers: u32,
    pub failed_transfers: u32,
    pub total_bytes_sent: u64,
    pub total_bytes_received: u64,
}

/// Why a call to the daemon did not produce a value.
#[derive(Debug, Clone, PartialEq)]
pub enum DaemonError {
    /// The token file is missing or unreadable, or its path is unknown.
    TokenNotFound(String),
    /// The transport could not connect to the daemon endpoint.
    Connection(String),
    /// The daemon answered with a protocol-level error.
    Rpc(String),
    /// The reply lacked a required part.
    InvalidResponse(String),
    /// The shared connection stopped being usable.
    TransportLost(String),
}

pub open spec fn error_prefix(e: DaemonError) -> Seq<char> {
    match e {
        DaemonError::TokenNotFound(_) => "Daemon not running or token file missing: "@,
        DaemonError::Connection(_) => "Failed to connect to daemon: "@,
        DaemonError::Rpc(_) => "gRPC error: "@,
        DaemonError::InvalidResponse(_) => "Invalid response: "@,
        DaemonError::TransportLost(_) => "Connection to daemon lost: "@,
    }
}

pub open spec fn error_detail(e: DaemonError) -> Seq<char> {
    match e {
        DaemonError::TokenNotFound(s) => s@,
        DaemonError::Connection(s) => s@,
        DaemonError::Rpc(s) => s@,
        DaemonError::InvalidResponse(s) => s@,
        DaemonError::TransportLost(s) => s@,
    }
}

impl DaemonError {
    /// The human-readable text of the error, as shown to the user.
    pub fn message(&self) -> (r: String)
        ensures
            r@ == error_prefix(*self) + error_detail(*self),
    {
        let (prefix, detail) = match self {
            DaemonError::TokenNotFound(s) => ("Daemon not running or token file missing: ", s),
            DaemonError::Connection(s) => ("Failed to connect to daemon: ", s),
            DaemonError::Rpc(s) => ("gRPC error: ", s),
            DaemonError::InvalidResponse(s) => ("Invalid response: ", s),
            DaemonError::TransportLost(s) => ("Connection to daemon lost: ", s),
        };
        String::from_str(prefix).concat(detail.as_str())
    }
}

} // verus!
