//! The authenticated session with the daemon and its service facades: how
//! each request is built and how each reply becomes an application record.
use vstd::prelude::*;

use crate::platform::{endpoint_of, get_daemon_endpoint, Platform};
use crate::records::{
    ChatMessage, DaemonError, DaemonStatus, NetworkInfo, PeerInfo, Settings, TransferInfo,
    TransferStats, VersionInfo,
};
use crate::stats::{stats_fit, stats_match, transfer_stats_from};
use crate::text::{decimal_of, decimal_text};
use crate::wire::{
    CreateNetworkRequest, EmptyRequest, GenerateInviteRequest, GetMessagesRequest,
    GetPeersRequest, JoinNetworkRequest, NetworkReply, NetworkRequest, PeerActionRequest,
    RpcFailure, SendMessageRequest, StatusReply, TransferRequest, UnbanPeerRequest,
    UpdateSettingsRequest, VersionReply, WireMessage, WireNetwork, WirePeer, WireSettings,
    WireTransfer, CODE_UNAVAILABLE, CONNECTION_STATUS_CONNECTED, CONNECTION_TYPE_RELAY,
};

verus! {

/// Name of the metadata entry that carries the credential.
pub const IPC_TOKEN_HEADER: &'static str = "x-goconnect-ipc-token";

/// Number of chat messages asked for when the caller names no limit.
pub const DEFAULT_MESSAGE_LIMIT: i32 = 50;

/// Whether a text can be sent as an ASCII metadata value: every character
/// is a tab, or at least a space and not DEL.
pub open spec fn metadata_valid(s: Seq<char>) -> bool {
    forall|i: int|
        0 <= i < s.len() ==> ((s[i] as u32 >= 32 && s[i] as u32 != 127) || s[i] == '\t')
}

/// Relies on tonic's `FromStr` for `MetadataValue<Ascii>`, which is
/// `http::HeaderValue::from_str`: it accepts a text iff every byte is a tab,
/// or at least 0x20 and not 0x7f (bytes of non-ASCII characters all pass).
#[verifier::external_body]
fn metadata_value_accepts(s: &str) -> (r: bool)
    ensures
        r == metadata_valid(s@),
{
    s.parse::<tonic::metadata::MetadataValue<tonic::metadata::Ascii>>().is_ok()
}

/// An outbound call: its message and the credential to attach, if any.
#[derive(Debug, Clone, PartialEq)]
pub struct AuthedRequest<T> {
    pub message: T,
    pub auth_token: Option<String>,
}

/// The credential to attach for `token`: itself when it is a valid metadata
/// value, none otherwise (the call then goes out unauthenticated).
pub open spec fn auth_for(token: String) -> Option<String> {
    if metadata_valid(token@) {
        Some(token)
    } else {
        None
    }
}

/// The error a failed call turns into.
pub open spec fn rpc_error(f: RpcFailure) -> DaemonError {
    if f.code == CODE_UNAVAILABLE {
        DaemonError::TransportLost(f.message)
    } else {
        DaemonError::Rpc(f.message)
    }
}

pub open spec fn status_record(s: StatusReply) -> DaemonStatus {
    DaemonStatus {
        connected: s.status == CONNECTION_STATUS_CONNECTED,
        virtual_ip: s.virtual_ip,
        active_peers: s.active_peers as u32,
        network_name: s.current_network_name,
    }
}

pub open spec fn version_record(v: VersionReply) -> VersionInfo {
    VersionInfo {
        version: v.version,
        build_date: v.build_date,
        commit: v.commit,
        go_version: v.go_version,
        os: v.os,
        arch: v.arch,
    }
}

pub open spec fn network_record(n: WireNetwork) -> NetworkInfo {
    NetworkInfo { id: n.id, name: n.name, invite_code: n.invite_code }
}

pub open spec fn peer_record(p: WirePeer) -> PeerInfo {
    PeerInfo {
        id: p.id,
        name: p.name,
        display_name: p.display_name,
        virtual_ip: p.virtual_ip,
        connected: p.status == CONNECTION_STATUS_CONNECTED,
        is_relay: p.connection_type == CONNECTION_TYPE_RELAY,
        latency_ms: p.latency_ms,
    }
}

/// `r` carries the three daemon-side flags of `s`; the log level is not on
/// the wire and stays empty.
pub open spec fn settings_from(r: Settings, s: WireSettings) -> bool {
    &&& r.auto_connect == s.auto_connect
    &&& r.start_minimized == s.start_minimized
    &&& r.notifications_enabled == s.notifications_enabled
    &&& r.log_level@ == Seq::<char>::empty()
}

/// The text of a message timestamp: its seconds in decimal, or empty.
pub open spec fn timestamp_text(sent_at: Option<i64>) -> Seq<char> {
    match sent_at {
        Some(secs) => decimal_of(secs as int),
        None => Seq::empty(),
    }
}

/// `r` is the message `m`; whether it is the local node's own is left to the
/// caller, so `is_self` is false.
pub open spec fn message_from(r: ChatMessage, m: WireMessage) -> bool {
    &&& r.id == m.id
    &&& r.peer_id == m.sender_id
    &&& r.content == m.content
    &&& r.timestamp@ == timestamp_text(m.sent_at)
    &&& !r.is_self
}

/// The label of a wire transfer status; 0 and 1 are both "pending".
pub open spec fn status_label(code: i32) -> Seq<char> {
    if code == 0 || code == 1 {
        "pending"@
    } else if code == 2 {
        "active"@
    } else if code == 3 {
        "completed"@
    } else if code == 4 {
        "failed"@
    } else if code == 5 {
        "cancelled"@
    } else {
        "unknown"@
    }
}

pub open spec fn direction_label(is_incoming: bool) -> Seq<char> {
    if is_incoming {
        "download"@
    } else {
        "upload"@
    }
}

pub open spec fn transfer_from(r: TransferInfo, t: WireTransfer) -> bool {
    &&& r.id == t.id
    &&& r.peer_id == t.peer_id
    &&& r.file_name == t.filename
    &&& r.file_size == t.size_bytes as u64
    &&& r.transferred == t.transferred_bytes as u64
    &&& r.status@ == status_label(t.status)
    &&& r.direction@ == direction_label(t.is_incoming)
    &&& r.error == if t.error_message@.len() == 0 {
        None
    } else {
        Some(t.error_message)
    }
}

/// Maps a failed call to the error the caller sees.
pub fn call_error(f: RpcFailure) -> (r: DaemonError)
    ensures
        r == rpc_error(f),
{
    if f.code == CODE_UNAVAILABLE {
        DaemonError::TransportLost(f.message)
    } else {
        DaemonError::Rpc(f.message)
    }
}

/// The label of a wire transfer status.
pub fn transfer_status_label(code: i32) -> (r: String)
    ensures
        r@ == status_label(code),
{
    let s = if code == 0 || code == 1 {
        "pending"
    } else if code == 2 {
        "active"
    } else if code == 3 {
        "completed"
    } else if code == 4 {
        "failed"
    } else if code == 5 {
        "cancelled"
    } else {
        "unknown"
    };
    String::from_str(s)
}

/// The label of a transfer direction.
pub fn transfer_direction_label(is_incoming: bool) -> (r: String)
    ensures
        r@ == direction_label(is_incoming),
{
    if is_incoming {
        String::from_str("download")
    } else {
        String::from_str("upload")
    }
}

fn settings_record(s: &WireSettings) -> (r: Settings)
    ensures
        settings_from(r, *s),
{
    Settings {
        auto_connect: s.auto_connect,
        start_minimized: s.start_minimized,
        notifications_enabled: s.notifications_enabled,
        log_level: String::new(),
    }
}

fn message_record(m: &WireMessage) -> (r: ChatMessage)
    ensures
        message_from(r, *m),
{
    let timestamp = match m.sent_at {
        Some(secs) => decimal_text(secs),
        None => String::new(),
    };
    ChatMessage {
        id: m.id.clone(),
        peer_id: m.sender_id.clone(),
        content: m.content.clone(),
        timestamp,
        is_self: false,
    }
}

/// Maps one wire transfer to its record.
pub fn transfer_record(t: &WireTransfer) -> (r: TransferInfo)
    ensures
        transfer_from(r, *t),
{
    let error = if t.error_message.as_str().is_empty() {
        None
    } else {
        Some(t.error_message.clone())
    };
    TransferInfo {
        id: t.id.clone(),
        peer_id: t.peer_id.clone(),
        file_name: t.filename.clone(),
        file_size: t.size_bytes as u64,
        transferred: t.transferred_bytes as u64,
        status: transfer_status_label(t.status),
        direction: transfer_direction_label(t.is_incoming),
        error,
    }
}

fn peer_info(p: &WirePeer) -> (r: PeerInfo)
    ensures
        r == peer_record(*p),
{
    PeerInfo {
        id: p.id.clone(),
        name: p.name.clone(),
        display_name: p.display_name.clone(),
        virtual_ip: p.virtual_ip.clone(),
        connected: p.status == CONNECTION_STATUS_CONNECTED,
        is_relay: p.connection_type == CONNECTION_TYPE_RELAY,
        latency_ms: p.latency_ms,
    }
}

fn network_info(n: &WireNetwork) -> (r: NetworkInfo)
    ensures
        r == network_record(*n),
{
    NetworkInfo { id: n.id.clone(), name: n.name.clone(), invite_code: n.invite_code.clone() }
}

fn empty_settings() -> (r: WireSettings)
    ensures
        r.download_path@.len() == 0,
        r.theme@.len() == 0,
        r.language@.len() == 0,
        !r.auto_accept_files,
        r.max_upload_speed_kbps == 0,
        r.max_download_speed_kbps == 0,
{
    WireSettings {
        auto_connect: false,
        start_minimized: false,
        notifications_enabled: false,
        auto_accept_files: false,
        download_path: String::new(),
        max_upload_speed_kbps: 0,
        max_download_speed_kbps: 0,
        theme: String::new(),
        language: String::new(),
    }
}

/// An authenticated session with the daemon: where it listens and the
/// credential every call carries.
#[derive(Debug, Clone, PartialEq)]
pub struct DaemonClient {
    pub endpoint: String,
    pub token: String,
}

impl DaemonClient {
    /// The session made from the two steps of a connection attempt, in their
    /// order: loading the credential, then connecting to the platform's
    /// endpoint (`Err` holds the transport's failure text).
    pub fn connect(
        platform: Platform,
        token: Result<String, DaemonError>,
        transport: Result<(), String>,
    ) -> (r: Result<DaemonClient, DaemonError>)
        ensures
            match (token, transport) {
                (Err(e), _) => r == Err::<DaemonClient, DaemonError>(e),
                (Ok(_), Err(m)) => r == Err::<DaemonClient, DaemonError>(
                    DaemonError::Connection(m),
                ),
                (Ok(t), Ok(_)) => r matches Ok(c) && c.token == t && c.endpoint@ == endpoint_of(
                    platform,
                ),
            },
    {
        let token = match token {
            Ok(t) => t,
            Err(e) => return Err(e),
        };
        match transport {
            Err(m) => Err(DaemonError::Connection(m)),
            Ok(()) => Ok(
                DaemonClient { endpoint: String::from_str(get_daemon_endpoint(platform)), token },
            ),
        }
    }

    /// Attaches the credential to an outbound call. A credential that is not
    /// a valid metadata value is left off: the call is still made.
    pub fn add_auth<T>(&self, message: T) -> (r: AuthedRequest<T>)
        ensures
            r.message == message,
            r.auth_token == auth_for(self.token),
    {
        let auth_token = if metadata_value_accepts(self.token.as_str()) {
            Some(self.token.clone())
        } else {
            None
        };
        AuthedRequest { message, auth_token }
    }

    /// A request with no fields, authenticated.
    pub fn empty_request(&self) -> (r: AuthedRequest<EmptyRequest>)
        ensures
            r.auth_token == auth_for(self.token),
    {
        self.add_auth(EmptyRequest {  })
    }

    pub fn get_status(reply: Result<StatusReply, RpcFailure>) -> (r: Result<
        DaemonStatus,
        DaemonError,
    >)
        ensures
            match reply {
                Ok(s) => r == Ok::<DaemonStatus, DaemonError>(status_record(s)),
                Err(f) => r == Err::<DaemonStatus, DaemonError>(rpc_error(f)),
            },
    {
        match reply {
            Ok(s) => Ok(
                DaemonStatus {
                    connected: s.status == CONNECTION_STATUS_CONNECTED,
                    virtual_ip: s.virtual_ip,
                    active_peers: s.active_peers as u32,
                    network_name: s.current_network_name,
                },
            ),
            Err(f) => Err(call_error(f)),
        }
    }

    pub fn get_version(reply: Result<VersionReply, RpcFailure>) -> (r: Result<
        VersionInfo,
        DaemonError,
    >)
        ensures
            match reply {
                Ok(v) => r == Ok::<VersionInfo, DaemonError>(version_record(v)),
                Err(f) => r == Err::<VersionInfo, DaemonError>(rpc_error(f)),
            },
    {
        match reply {
            Ok(v) => Ok(
                VersionInfo {
                    version: v.version,
                    build_date: v.build_date,
                    commit: v.commit,
                    go_version: v.go_version,
                    os: v.os,
                    arch: v.arch,
                },
            ),
            Err(f) => Err(call_error(f)),
        }
    }

    // Network service.

    /// The request that creates a network named `name`, with no description.
    pub fn create_network_request(&self, name: &str) -> (r: AuthedRequest<CreateNetworkRequest>)
        ensures
            r.message.name@ == name@,
            r.message.description@.len() == 0,
            r.auth_token == auth_for(self.token),
    {
        self.add_auth(
            CreateNetworkRequest { name: String::from_str(name), description: String::new() },
        )
    }

    /// The created network, with the invite code of the reply.
    pub fn create_network(reply: Result<NetworkReply, RpcFailure>) -> (r: Result<
        NetworkInfo,
        DaemonError,
    >)
        ensures
            match reply {
                Err(f) => r == Err::<NetworkInfo, DaemonError>(rpc_error(f)),
                Ok(NetworkReply { network: None, .. }) => r matches Err(
                    DaemonError::InvalidResponse(_),
                ),
                Ok(NetworkReply { network: Some(n), invite_code }) => r == Ok::<
                    NetworkInfo,
                    DaemonError,
                >((NetworkInfo { id: n.id, name: n.name, invite_code })),
            },
    {
        match reply {
            Err(f) => Err(call_error(f)),
            Ok(resp) => match resp.network {
                None => Err(DaemonError::InvalidResponse(String::from_str("missing network"))),
                Some(n) => Ok(NetworkInfo { id: n.id, name: n.name, invite_code: resp.invite_code }),
            },
        }
    }

    pub fn join_network_request(&self, invite_code: &str) -> (r: AuthedRequest<
        JoinNetworkRequest,
    >)
        ensures
            r.message.invite_code@ == invite_code@,
            r.auth_token == auth_for(self.token),
    {
        self.add_auth(JoinNetworkRequest { invite_code: String::from_str(invite_code) })
    }

    /// The joined network. Its invite code is never passed on: it is empty.
    pub fn join_network(reply: Result<NetworkReply, RpcFailure>) -> (r: Result<
        NetworkInfo,
        DaemonError,
    >)
        ensures
            match reply {
                Err(f) => r == Err::<NetworkInfo, DaemonError>(rpc_error(f)),
                Ok(NetworkReply { network: None, .. }) => r matches Err(
                    DaemonError::InvalidResponse(_),
                ),
                Ok(NetworkReply { network: Some(n), .. }) => r matches Ok(info) && info.id == n.id
                    && info.name == n.name && info.invite_code@.len() == 0,
            },
    {
        match reply {
            Err(f) => Err(call_error(f)),
            Ok(resp) => match resp.network {
                None => Err(DaemonError::InvalidResponse(String::from_str("missing network"))),
                Some(n) => Ok(NetworkInfo { id: n.id, name: n.name, invite_code: String::new() }),
            },
        }
    }

    pub fn list_networks(reply: Result<Vec<WireNetwork>, RpcFailure>) -> (r: Result<
        Vec<NetworkInfo>,
        DaemonError,
    >)
        ensures
            match reply {
                Err(f) => r == Err::<Vec<NetworkInfo>, DaemonError>(rpc_error(f)),
                Ok(ns) => r matches Ok(v) && v@.len() == ns@.len() && forall|i: int|
                    0 <= i < ns@.len() ==> v@[i] == network_record(#[trigger] ns@[i]),
            },
    {
        match reply {
            Err(f) => Err(call_error(f)),
            Ok(ns) => {
                let mut v: Vec<NetworkInfo> = Vec::new();
                let mut i: usize = 0;
                while i < ns.len()
                    invariant
                        i <= ns@.len(),
                        v@.len() == i,
                        forall|k: int| 0 <= k < i ==> v@[k] == network_record(#[trigger] ns@[k]),
                    decreases ns@.len() - i,
                {
                    v.push(network_info(&ns[i]));
                    i = i + 1;
                }
                Ok(v)
            },
        }
    }

    pub fn leave_network_request(&self, network_id: &str) -> (r: AuthedRequest<NetworkRequest>)
        ensures
            r.message.network_id@ == network_id@,
            r.auth_token == auth_for(self.token),
    {
        self.add_auth(NetworkRequest { network_id: String::from_str(network_id) })
    }

    /// The outcome of a call whose reply carries nothing (leave, kick, ban,
    /// unban, send, cancel, reject).
    pub fn acknowledged(reply: Result<(), RpcFailure>) -> (r: Result<(), DaemonError>)
        ensures
            match reply {
                Ok(()) => r == Ok::<(), DaemonError>(()),
                Err(f) => r == Err::<(), DaemonError>(rpc_error(f)),
            },
    {
        match reply {
            Ok(()) => Ok(()),
            Err(f) => Err(call_error(f)),
        }
    }

    /// The request for an invite code: unlimited uses and no expiry.
    pub fn generate_invite_request(&self, network_id: &str) -> (r: AuthedRequest<
        GenerateInviteRequest,
    >)
        ensures
            r.message.network_id@ == network_id@,
            r.message.max_uses == 0,
            r.message.expires_hours == 0,
            r.auth_token == auth_for(self.token),
    {
        self.add_auth(
            GenerateInviteRequest {
                network_id: String::from_str(network_id),
                max_uses: 0,
                expires_hours: 0,
            },
        )
    }

    /// The invite code of the reply.
    pub fn generate_invite(reply: Result<String, RpcFailure>) -> (r: Result<String, DaemonError>)
        ensures
            match reply {
                Ok(code) => r == Ok::<String, DaemonError>(code),
                Err(f) => r == Err::<String, DaemonError>(rpc_error(f)),
            },
    {
        match reply {
            Ok(code) => Ok(code),
            Err(f) => Err(call_error(f)),
        }
    }

    // Peer service.

    /// The request for the peers of the current network (empty network id).
    pub fn get_peers_request(&self) -> (r: AuthedRequest<GetPeersRequest>)
        ensures
            r.message.network_id@.len() == 0,
            r.auth_token == auth_for(self.token),
    {
        self.add_auth(GetPeersRequest { network_id: String::new() })
    }

    pub fn get_peers(reply: Result<Vec<WirePeer>, RpcFailure>) -> (r: Result<
        Vec<PeerInfo>,
        DaemonError,
    >)
        ensures
            match reply {
                Err(f) => r == Err::<Vec<PeerInfo>, DaemonError>(rpc_error(f)),
                Ok(ps) => r matches Ok(v) && v@.len() == ps@.len() && forall|i: int|
                    0 <= i < ps@.len() ==> v@[i] == peer_record(#[trigger] ps@[i]),
            },
    {
        match reply {
            Err(f) => Err(call_error(f)),
            Ok(ps) => {
                let mut v: Vec<PeerInfo> = Vec::new();
                let mut i: usize = 0;
                while i < ps.len()
                    invariant
                        i <= ps@.len(),
                        v@.len() == i,
                        forall|k: int| 0 <= k < i ==> v@[k] == peer_record(#[trigger] ps@[k]),
                    decreases ps@.len() - i,
                {
                    v.push(peer_info(&ps[i]));
                    i = i + 1;
                }
                Ok(v)
            },
        }
    }

    /// The request that removes a peer from a network, with no reason given.
    pub fn kick_peer_request(&self, network_id: &str, peer_id: &str) -> (r: AuthedRequest<
        PeerActionRequest,
    >)
        ensures
            r.message.network_id@ == network_id@,
            r.message.peer_id@ == peer_id@,
            r.message.reason@.len() == 0,
            r.auth_token == auth_for(self.token),
    {
        self.add_auth(
            PeerActionRequest {
                network_id: String::from_str(network_id),
                peer_id: String::from_str(peer_id),
                reason: String::new(),
            },
        )
    }

    pub fn ban_peer_request(&self, network_id: &str, peer_id: &str, reason: &str) -> (r:
        AuthedRequest<PeerActionRequest>)
        ensures
            r.message.network_id@ == network_id@,
            r.message.peer_id@ == peer_id@,
            r.message.reason@ == reason@,
            r.auth_token == auth_for(self.token),
    {
        self.add_auth(
            PeerActionRequest {
                network_id: String::from_str(network_id),
                peer_id: String::from_str(peer_id),
                reason: String::from_str(reason),
            },
        )
    }

    pub fn unban_peer_request(&self, network_id: &str, peer_id: &str) -> (r: AuthedRequest<
        UnbanPeerRequest,
    >)
        ensures
            r.message.network_id@ == network_id@,
            r.message.peer_id@ == peer_id@,
            r.auth_token == auth_for(self.token),
    {
        self.add_auth(
            UnbanPeerRequest {
                network_id: String::from_str(network_id),
                peer_id: String::from_str(peer_id),
            },
        )
    }

    // Settings service.

    /// The settings of a reply (get, update and reset answer alike).
    pub fn get_settings(reply: Result<WireSettings, RpcFailure>) -> (r: Result<
        Settings,
        DaemonError,
    >)
        ensures
            match reply {
                Ok(s) => r matches Ok(v) && settings_from(v, s),
                Err(f) => r == Err::<Settings, DaemonError>(rpc_error(f)),
            },
    {
        match reply {
            Ok(s) => Ok(settings_record(&s)),
            Err(f) => Err(call_error(f)),
        }
    }

    /// The request that stores the three daemon-side flags of `settings`;
    /// every other field of the wire settings is left at its zero value.
    pub fn update_settings_request(&self, settings: &Settings) -> (r: AuthedRequest<
        UpdateSettingsRequest,
    >)
        ensures
            r.message.settings.auto_connect == settings.auto_connect,
            r.message.settings.start_minimized == settings.start_minimized,
            r.message.settings.notifications_enabled == settings.notifications_enabled,
            !r.message.settings.auto_accept_files,
            r.message.settings.download_path@.len() == 0,
            r.message.settings.max_upload_speed_kbps == 0,
            r.message.settings.max_download_speed_kbps == 0,
            r.message.settings.theme@.len() == 0,
            r.message.settings.language@.len() == 0,
            r.auth_token == auth_for(self.token),
    {
        let mut wire = empty_settings();
        wire.auto_connect = settings.auto_connect;
        wire.start_minimized = settings.start_minimized;
        wire.notifications_enabled = settings.notifications_enabled;
        self.add_auth(UpdateSettingsRequest { settings: wire })
    }

    // Chat service.

    /// The request for chat messages of a network: `limit` defaults to
    /// `DEFAULT_MESSAGE_LIMIT`, and no `before` cursor is sent as empty.
    pub fn get_messages_request(
        &self,
        network_id: &str,
        limit: Option<i32>,
        before: Option<&str>,
    ) -> (r: AuthedRequest<GetMessagesRequest>)
        ensures
            r.message.network_id@ == network_id@,
            r.message.limit == match limit {
                Some(n) => n,
                None => DEFAULT_MESSAGE_LIMIT,
            },
            r.message.before_id@ == match before {
                Some(b) => b@,
                None => Seq::<char>::empty(),
            },
            r.auth_token == auth_for(self.token),
    {
        let limit = match limit {
            Some(n) => n,
            None => DEFAULT_MESSAGE_LIMIT,
        };
        let before_id = match before {
            Some(b) => String::from_str(b),
            None => String::new(),
        };
        self.add_auth(
            GetMessagesRequest { network_id: String::from_str(network_id), limit, before_id },
        )
    }

    pub fn get_messages(reply: Result<Vec<WireMessage>, RpcFailure>) -> (r: Result<
        Vec<ChatMessage>,
        DaemonError,
    >)
        ensures
            match reply {
                Err(f) => r == Err::<Vec<ChatMessage>, DaemonError>(rpc_error(f)),
                Ok(ms) => r matches Ok(v) && v@.len() == ms@.len() && forall|i: int|
                    0 <= i < ms@.len() ==> message_from(#[trigger] v@[i], ms@[i]),
            },
    {
        match reply {
            Err(f) => Err(call_error(f)),
            Ok(ms) => {
                let mut v: Vec<ChatMessage> = Vec::new();
                let mut i: usize = 0;
                while i < ms.len()
                    invariant
                        i <= ms@.len(),
                        v@.len() == i,
                        forall|k: int| 0 <= k < i ==> message_from(#[trigger] v@[k], ms@[k]),
                    decreases ms@.len() - i,
                {
                    v.push(message_record(&ms[i]));
                    i = i + 1;
                }
                Ok(v)
            },
        }
    }

    /// The request that sends `content` to the whole network (no recipient).
    pub fn send_message_request(&self, network_id: &str, content: &str) -> (r: AuthedRequest<
        SendMessageRequest,
    >)
        ensures
            r.message.network_id@ == network_id@,
            r.message.content@ == content@,
            r.message.recipient_id@.len() == 0,
            r.auth_token == auth_for(self.token),
    {
        self.add_auth(
            SendMessageRequest {
                network_id: String::from_str(network_id),
                content: String::from_str(content),
                recipient_id: String::new(),
            },
        )
    }

    // Transfer service.

    pub fn list_transfers(reply: Result<Vec<WireTransfer>, RpcFailure>) -> (r: Result<
        Vec<TransferInfo>,
        DaemonError,
    >)
        ensures
            match reply {
                Err(f) => r == Err::<Vec<TransferInfo>, DaemonError>(rpc_error(f)),
                Ok(ts) => r matches Ok(v) && v@.len() == ts@.len() && forall|i: int|
                    0 <= i < ts@.len() ==> transfer_from(#[trigger] v@[i], ts@[i]),
            },
    {
        match reply {
            Err(f) => Err(call_error(f)),
            Ok(ts) => {
                let mut v: Vec<TransferInfo> = Vec::new();
                let mut i: usize = 0;
                while i < ts.len()
                    invariant
                        i <= ts@.len(),
                        v@.len() == i,
                        forall|k: int| 0 <= k < i ==> transfer_from(#[trigger] v@[k], ts@[k]),
                    decreases ts@.len() - i,
                {
                    v.push(transfer_record(&ts[i]));
                    i = i + 1;
                }
                Ok(v)
            },
        }
    }

    /// Transfer statistics, folded from the reply of the transfer list.
    pub fn get_transfer_stats(reply: Result<Vec<WireTransfer>, RpcFailure>) -> (r: Result<
        TransferStats,
        DaemonError,
    >)
        ensures
            match reply {
                Err(f) => r == Err::<TransferStats, DaemonError>(rpc_error(f)),
                Ok(ts) => exists|v: Seq<TransferInfo>|
                    {
                        &&& v.len() == ts@.len()
                        &&& forall|i: int|
                            0 <= i < ts@.len() ==> transfer_from(#[trigger] v[i], ts@[i])
                        &&& if stats_fit(v) {
                            r matches Ok(s) && stats_match(s, v)
                        } else {
                            r matches Err(DaemonError::InvalidResponse(_))
                        }
                    },
            },
    {
        transfer_stats_from(Self::list_transfers(reply))
    }

    /// The request that names one transfer (cancel or reject).
    pub fn transfer_request(&self, transfer_id: &str) -> (r: AuthedRequest<TransferRequest>)
        ensures
            r.message.transfer_id@ == transfer_id@,
            r.auth_token == auth_for(self.token),
    {
        self.add_auth(TransferRequest { transfer_id: String::from_str(transfer_id) })
    }

}

} // verus!
