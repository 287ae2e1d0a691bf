//! The daemon's request and reply messages, as plain values.
use vstd::prelude::*;

verus! {

/// Wire value of the "connected" connection status.
pub const CONNECTION_STATUS_CONNECTED: i32 = 3;

/// Wire value of the "relay" connection type.
pub const CONNECTION_TYPE_RELAY: i32 = 2;

/// Wire code of a call whose transport is no longer usable ("unavailable").
pub const CODE_UNAVAILABLE: i32 = 14;

/// A protocol-level error status returned for a call.
#[derive(Debug, Clone, PartialEq)]
pub struct RpcFailure {
    pub code: i32,
    pub message: String,
}

#[derive(Debug, Clone, PartialEq)]
pub struct StatusReply {
    pub status: i32,
    pub virtual_ip: String,
    pub active_peers: i32,
    pub current_network_name: String,
}

#[derive(Debug, Clone, PartialEq)]
pub struct VersionReply {
    pub version: String,
    pub build_date: String,
    pub commit: String,
    pub go_version: String,
    pub os: String,
    pub arch: String,
}

#[derive(Debug, Clone, PartialEq)]
pub struct WireNetwork {
    pub id: String,
    pub name: String,
    pub invite_code: String,
}

/// Reply to a network creation or join: the network, if the daemon sent one.
#[derive(Debug, Clone, PartialEq)]
pub struct NetworkReply {
    pub network: Option<WireNetwork>,
    pub invite_code: String,
}

#[derive(Debug, Clone, PartialEq)]
pub struct WirePeer {
    pub id: String,
    pub name: String,
    pub display_name: String,
    pub virtual_ip: String,
    pub status: i32,
    pub connection_type: i32,
    pub latency_ms: i64,
}

#[derive(Debug, Clone, PartialEq)]
pub struct WireSettings {
    pub auto_connect: bool,
    pub start_minimized: bool,
    pub notifications_enabled: bool,
    pub auto_accept_files: bool,
    pub download_path: String,
    pub max_upload_speed_kbps: i32,
    pub max_download_speed_kbps: i32,
    pub theme: String,
    pub language: String,
}

/// A chat message; `sent_at` holds the seconds of its timestamp, if any.
#[derive(Debug, Clone, PartialEq)]
pub struct WireMessage {
    pub id: String,
    pub sender_id: String,
    pub content: String,
    pub sent_at: Option<i64>,
}

#[derive(Debug, Clone, PartialEq)]
pub struct WireTransfer {
    pub id: String,
    pub peer_id: String,
    pub filename: String,
    pub size_bytes: i64,
    pub transferred_bytes: i64,
    pub status: i32,
    pub is_incoming: bool,
    pub error_message: String,
}

#[derive(Debug, Clone, PartialEq)]
pub struct CreateNetworkRequest {
    pub name: String,
    pub description: String,
}

#[derive(Debug, Clone, PartialEq)]
pub struct JoinNetworkRequest {
    pub invite_code: String,
}

/// Names one network (leave).
#[derive(Debug, Clone, PartialEq)]
pub struct NetworkRequest {
    pub network_id: String,
}

#[derive(Debug, Clone, PartialEq)]
pub struct GenerateInviteRequest {
    pub network_id: String,
    pub max_uses: i32,
    pub expires_hours: i32,
}

#[derive(Debug, Clone, PartialEq)]
pub struct GetPeersRequest {
    pub network_id: String,
}

/// Names a peer of a network, with a reason (kick, ban).
#[derive(Debug, Clone, PartialEq)]
pub struct PeerActionRequest {
    pub network_id: String,
    pub peer_id: String,
    pub reason: String,
}

#[derive(Debug, Clone, PartialEq)]
pub struct UnbanPeerRequest {
    pub network_id: String,
    pub peer_id: String,
}

#[derive(Debug, Clone, PartialEq)]
pub struct UpdateSettingsRequest {
    pub settings: WireSettings,
}

#[derive(Debug, Clone, PartialEq)]
pub struct GetMessagesRequest {
    pub network_id: String,
    pub limit: i32,
    pub before_id: String,
}

#[derive(Debug, Clone, PartialEq)]
pub struct SendMessageRequest {
    pub network_id: String,
    pub content: String,
    pub recipient_id: String,
}

/// Names one transfer (cancel, reject).
#[derive(Debug, Clone, PartialEq)]
pub struct TransferRequest {
    pub transfer_id: String,
}

/// A request that carries no fields.
#[derive(Debug, Clone, Copy, PartialEq, Eq, Structural)]
pub struct EmptyRequest {}

} // verus!
