use goconnect_bridge::client::{AuthedRequest, DaemonClient, IPC_TOKEN_HEADER};
use goconnect_bridge::client::{call_error, transfer_record, transfer_status_label};
use goconnect_bridge::platform::{
    get_daemon_endpoint, get_token_path, load_ipc_token, token_path_in, Platform,
};
use goconnect_bridge::session::{is_running, status_line, SessionCache};
use goconnect_bridge::stats::{fold_transfer_stats, transfer_stats_from};
use goconnect_bridge::text::{same_text, trim_text};
use goconnect_bridge::wire::{
    NetworkReply, RpcFailure, StatusReply, WireMessage, WireNetwork, WirePeer, WireSettings,
    WireTransfer,
};
use goconnect_bridge::{DaemonError, DaemonStatus, NetworkInfo, Settings, TransferInfo, TransferStats};

fn client(token: &str) -> DaemonClient {
    DaemonClient { endpoint: "http://[::1]:34101".to_string(), token: token.to_string() }
}

fn info(direction: &str, status: &str, size: u64, transferred: u64) -> TransferInfo {
    TransferInfo {
        id: "t".to_string(),
        peer_id: "p".to_string(),
        file_name: "f".to_string(),
        file_size: size,
        transferred,
        status: status.to_string(),
        direction: direction.to_string(),
        error: None,
    }
}

fn wire_transfer(status: i32, incoming: bool, size: i64, done: i64, err: &str) -> WireTransfer {
    WireTransfer {
        id: "tr1".to_string(),
        peer_id: "peer9".to_string(),
        filename: "a.bin".to_string(),
        size_bytes: size,
        transferred_bytes: done,
        status,
        is_incoming: incoming,
        error_message: err.to_string(),
    }
}

fn status_reply(status: i32) -> StatusReply {
    StatusReply {
        status,
        virtual_ip: "10.0.0.2".to_string(),
        active_peers: 4,
        current_network_name: "home".to_string(),
    }
}

fn peer(status: i32, connection_type: i32) -> WirePeer {
    WirePeer {
        id: "p1".to_string(),
        name: "alice".to_string(),
        display_name: "Alice".to_string(),
        virtual_ip: "10.0.0.3".to_string(),
        status,
        connection_type,
        latency_ms: 12,
    }
}

#[test]
fn stats_of_one_upload_and_one_download() {
    let list = vec![info("upload", "completed", 1000, 1000), info("download", "active", 2000, 500)];
    let s = fold_transfer_stats(&list).unwrap();
    assert_eq!(
        s,
        TransferStats {
            total_uploads: 1,
            total_downloads: 1,
            active_transfers: 1,
            completed_transfers: 1,
            failed_transfers: 0,
            total_bytes_sent: 1000,
            total_bytes_received: 500,
        }
    );
}

#[test]
fn stats_failed_absorbs_cancelled_and_rejected() {
    let list = vec![
        info("upload", "failed", 10, 1),
        info("download", "cancelled", 10, 2),
        info("download", "rejected", 10, 3),
        info("upload", "pending", 10, 4),
        info("sideways", "unknown", 10, 5),
    ];
    let s = fold_transfer_stats(&list).unwrap();
    assert_eq!(s.failed_transfers, 3);
    assert_eq!(s.active_transfers + s.completed_transfers, 0);
    assert_eq!(s.total_uploads, 2);
    assert_eq!(s.total_downloads, 3);
    assert_eq!(s.total_uploads + s.total_downloads, 5);
    assert_eq!(s.total_bytes_sent, 5);
    assert_eq!(s.total_bytes_received, 10);
}

#[test]
fn stats_of_empty_list_are_zero() {
    let s = fold_transfer_stats(&vec![]).unwrap();
    assert_eq!(s, TransferStats {
        total_uploads: 0,
        total_downloads: 0,
        active_transfers: 0,
        completed_transfers: 0,
        failed_transfers: 0,
        total_bytes_sent: 0,
        total_bytes_received: 0,
    });
}

#[test]
fn stats_overflowing_bytes_are_refused() {
    let list = vec![info("upload", "active", 0, u64::MAX), info("upload", "active", 0, 1)];
    assert_eq!(fold_transfer_stats(&list), None);
    match transfer_stats_from(Ok(list)) {
        Err(DaemonError::InvalidResponse(_)) => {}
        other => panic!("unexpected {:?}", other),
    }
    let at_limit = vec![info("download", "active", 0, u64::MAX)];
    assert_eq!(fold_transfer_stats(&at_limit).unwrap().total_bytes_received, u64::MAX);
}

#[test]
fn stats_pass_listing_errors_on() {
    let e = DaemonError::Rpc("boom".to_string());
    assert_eq!(transfer_stats_from(Err(e.clone())), Err(e));
}

#[test]
fn stats_from_wire_transfers() {
    let reply = vec![wire_transfer(3, false, 1000, 1000, ""), wire_transfer(2, true, 2000, 500, "")];
    let s = DaemonClient::get_transfer_stats(Ok(reply)).unwrap();
    assert_eq!(s.total_uploads, 1);
    assert_eq!(s.total_downloads, 1);
    assert_eq!(s.completed_transfers, 1);
    assert_eq!(s.active_transfers, 1);
    assert_eq!(s.total_bytes_sent, 1000);
    assert_eq!(s.total_bytes_received, 500);
}

#[test]
fn transfer_status_table() {
    let expected = ["pending", "pending", "active", "completed", "failed", "cancelled"];
    for (code, label) in expected.iter().enumerate() {
        assert_eq!(transfer_status_label(code as i32), *label);
    }
    assert_eq!(transfer_status_label(6), "unknown");
    assert_eq!(transfer_status_label(-1), "unknown");
    assert_eq!(transfer_status_label(i32::MAX), "unknown");
}

#[test]
fn transfer_record_mapping() {
    let t = transfer_record(&wire_transfer(4, true, 2048, 1024, "disk full"));
    assert_eq!(t.id, "tr1");
    assert_eq!(t.peer_id, "peer9");
    assert_eq!(t.file_name, "a.bin");
    assert_eq!(t.file_size, 2048);
    assert_eq!(t.transferred, 1024);
    assert_eq!(t.status, "failed");
    assert_eq!(t.direction, "download");
    assert_eq!(t.error, Some("disk full".to_string()));
    let u = transfer_record(&wire_transfer(1, false, 5, 0, ""));
    assert_eq!(u.direction, "upload");
    assert_eq!(u.status, "pending");
    assert_eq!(u.error, None);
}

#[test]
fn list_transfers_keeps_order() {
    let reply = vec![wire_transfer(5, false, 1, 1, ""), wire_transfer(9, true, 1, 1, "")];
    let v = DaemonClient::list_transfers(Ok(reply)).unwrap();
    assert_eq!(v.len(), 2);
    assert_eq!(v[0].status, "cancelled");
    assert_eq!(v[1].status, "unknown");
    assert_eq!(v[1].direction, "download");
}

#[test]
fn status_connected_only_for_connected_value() {
    for code in [-1, 0, 1, 2, 4, 5, 99] {
        assert!(!DaemonClient::get_status(Ok(status_reply(code))).unwrap().connected);
    }
    let s = DaemonClient::get_status(Ok(status_reply(3))).unwrap();
    assert_eq!(
        s,
        DaemonStatus {
            connected: true,
            virtual_ip: "10.0.0.2".to_string(),
            active_peers: 4,
            network_name: "home".to_string(),
        }
    );
}

#[test]
fn peer_flags_follow_enum_values() {
    let v = DaemonClient::get_peers(Ok(vec![peer(3, 2), peer(1, 1), peer(7, 0)])).unwrap();
    assert!(v[0].connected && v[0].is_relay);
    assert!(!v[1].connected && !v[1].is_relay);
    assert!(!v[2].connected && !v[2].is_relay);
    assert_eq!(v[0].display_name, "Alice");
    assert_eq!(v[0].latency_ms, 12);
}

#[test]
fn failed_calls_map_to_errors() {
    let e = call_error(RpcFailure { code: 5, message: "not found".to_string() });
    assert_eq!(e, DaemonError::Rpc("not found".to_string()));
    let lost = call_error(RpcFailure { code: 14, message: "gone".to_string() });
    assert_eq!(lost, DaemonError::TransportLost("gone".to_string()));
    let r = DaemonClient::get_status(Err(RpcFailure { code: 2, message: "x".to_string() }));
    assert_eq!(r, Err(DaemonError::Rpc("x".to_string())));
    assert_eq!(DaemonClient::acknowledged(Ok(())), Ok(()));
}

#[test]
fn error_messages() {
    assert_eq!(
        DaemonError::Connection("refused".to_string()).message(),
        "Failed to connect to daemon: refused"
    );
    assert_eq!(DaemonError::Rpc("x".to_string()).message(), "gRPC error: x");
    assert_eq!(DaemonError::InvalidResponse("missing network".to_string()).message(), "Invalid response: missing network");
    assert_eq!(
        DaemonError::TokenNotFound("t".to_string()).message(),
        "Daemon not running or token file missing: t"
    );
    assert_eq!(DaemonError::TransportLost("y".to_string()).message(), "Connection to daemon lost: y");
}

#[test]
fn create_then_join_network() {
    let c = client("secret");
    let req = c.create_network_request("Team A");
    assert_eq!(req.message.name, "Team A");
    assert_eq!(req.message.description, "");
    let created = DaemonClient::create_network(Ok(NetworkReply {
        network: Some(WireNetwork {
            id: "net-1".to_string(),
            name: "Team A".to_string(),
            invite_code: String::new(),
        }),
        invite_code: "INV-42".to_string(),
    }))
    .unwrap();
    assert_eq!(
        created,
        NetworkInfo { id: "net-1".to_string(), name: "Team A".to_string(), invite_code: "INV-42".to_string() }
    );
    let join = c.join_network_request(&created.invite_code);
    assert_eq!(join.message.invite_code, "INV-42");
    let joined = DaemonClient::join_network(Ok(NetworkReply {
        network: Some(WireNetwork {
            id: "net-1".to_string(),
            name: "Team A".to_string(),
            invite_code: "INV-42".to_string(),
        }),
        invite_code: "INV-42".to_string(),
    }))
    .unwrap();
    assert_eq!(joined.id, created.id);
    assert_eq!(joined.invite_code, "");
}

#[test]
fn network_reply_without_network_is_invalid() {
    let r = DaemonClient::create_network(Ok(NetworkReply { network: None, invite_code: "x".to_string() }));
    assert_eq!(r, Err(DaemonError::InvalidResponse("missing network".to_string())));
    let j = DaemonClient::join_network(Ok(NetworkReply { network: None, invite_code: String::new() }));
    assert!(matches!(j, Err(DaemonError::InvalidResponse(_))));
}

#[test]
fn list_networks_keeps_invite_codes() {
    let v = DaemonClient::list_networks(Ok(vec![WireNetwork {
        id: "n".to_string(),
        name: "N".to_string(),
        invite_code: "C".to_string(),
    }]))
    .unwrap();
    assert_eq!(v, vec![NetworkInfo { id: "n".to_string(), name: "N".to_string(), invite_code: "C".to_string() }]);
}

#[test]
fn invite_defaults_are_unlimited() {
    let r = client("k").generate_invite_request("net-7");
    assert_eq!(r.message.network_id, "net-7");
    assert_eq!(r.message.max_uses, 0);
    assert_eq!(r.message.expires_hours, 0);
    assert_eq!(DaemonClient::generate_invite(Ok("ABC".to_string())), Ok("ABC".to_string()));
}

#[test]
fn auth_attaches_valid_token() {
    let r: AuthedRequest<u8> = client("abc-123").add_auth(7);
    assert_eq!(r.message, 7);
    assert_eq!(r.auth_token, Some("abc-123".to_string()));
    assert_eq!(IPC_TOKEN_HEADER, "x-goconnect-ipc-token");
    let tab = client("a\tb").add_auth(());
    assert_eq!(tab.auth_token, Some("a\tb".to_string()));
    let accented = client("héllo").add_auth(());
    assert_eq!(accented.auth_token, Some("héllo".to_string()));
}

#[test]
fn auth_degrades_on_invalid_token() {
    let r = client("bad\ntoken").add_auth(5u32);
    assert_eq!(r.message, 5);
    assert_eq!(r.auth_token, None);
    let del = client("x\u{7f}").add_auth(());
    assert_eq!(del.auth_token, None);
    let req = client("bad\r").get_peers_request();
    assert_eq!(req.auth_token, None);
    assert_eq!(req.message.network_id, "");
}

#[test]
fn peer_requests() {
    let c = client("k");
    let kick = c.kick_peer_request("n1", "p1");
    assert_eq!((kick.message.network_id.as_str(), kick.message.peer_id.as_str(), kick.message.reason.as_str()), ("n1", "p1", ""));
    let ban = c.ban_peer_request("n1", "p2", "spam");
    assert_eq!(ban.message.reason, "spam");
    let unban = c.unban_peer_request("n1", "p2");
    assert_eq!(unban.message.peer_id, "p2");
    assert_eq!(c.leave_network_request("n9").message.network_id, "n9");
    assert_eq!(c.transfer_request("t5").message.transfer_id, "t5");
    assert_eq!(c.empty_request().auth_token, Some("k".to_string()));
}

#[test]
fn settings_mapping_and_update() {
    let wire = WireSettings {
        auto_connect: true,
        start_minimized: false,
        notifications_enabled: true,
        auto_accept_files: true,
        download_path: "/tmp".to_string(),
        max_upload_speed_kbps: 10,
        max_download_speed_kbps: 20,
        theme: "dark".to_string(),
        language: "tr".to_string(),
    };
    let s = DaemonClient::get_settings(Ok(wire)).unwrap();
    assert_eq!(
        s,
        Settings { auto_connect: true, start_minimized: false, notifications_enabled: true, log_level: String::new() }
    );
    let mine = Settings { auto_connect: false, start_minimized: true, notifications_enabled: false, log_level: "debug".to_string() };
    let req = client("k").update_settings_request(&mine);
    assert!(!req.message.settings.auto_connect);
    assert!(req.message.settings.start_minimized);
    assert!(!req.message.settings.auto_accept_files);
    assert_eq!(req.message.settings.download_path, "");
    assert_eq!(req.message.settings.max_upload_speed_kbps, 0);
}

#[test]
fn chat_messages_mapping() {
    let v = DaemonClient::get_messages(Ok(vec![
        WireMessage { id: "m1".to_string(), sender_id: "p1".to_string(), content: "hi".to_string(), sent_at: Some(1700000000) },
        WireMessage { id: "m2".to_string(), sender_id: "p2".to_string(), content: "yo".to_string(), sent_at: None },
        WireMessage { id: "m3".to_string(), sender_id: "p3".to_string(), content: "".to_string(), sent_at: Some(-42) },
    ]))
    .unwrap();
    assert_eq!(v[0].timestamp, "1700000000");
    assert_eq!(v[0].peer_id, "p1");
    assert!(!v[0].is_self);
    assert_eq!(v[1].timestamp, "");
    assert_eq!(v[2].timestamp, "-42");
}

#[test]
fn chat_requests() {
    let c = client("k");
    let r = c.get_messages_request("n", None, None);
    assert_eq!(r.message.limit, 50);
    assert_eq!(r.message.before_id, "");
    let r2 = c.get_messages_request("n", Some(10), Some("m9"));
    assert_eq!(r2.message.limit, 10);
    assert_eq!(r2.message.before_id, "m9");
    let s = c.send_message_request("n", "hello");
    assert_eq!(s.message.content, "hello");
    assert_eq!(s.message.recipient_id, "");
}

#[test]
fn endpoints_per_platform() {
    assert_eq!(get_daemon_endpoint(Platform::Windows), "http://127.0.0.1:34101");
    assert_eq!(get_daemon_endpoint(Platform::Linux), "http://[::1]:34101");
    assert_eq!(get_daemon_endpoint(Platform::MacOs), "http://[::1]:34101");
    assert_eq!(get_daemon_endpoint(Platform::Linux), get_daemon_endpoint(Platform::Linux));
}

#[test]
fn platform_names() {
    assert_eq!(Platform::from_os_name("windows"), Platform::Windows);
    assert_eq!(Platform::from_os_name("macos"), Platform::MacOs);
    assert_eq!(Platform::from_os_name("linux"), Platform::Linux);
    assert_eq!(Platform::from_os_name("freebsd"), Platform::Other);
    assert_eq!(Platform::from_os_name(""), Platform::Other);
}

#[test]
fn token_paths_per_platform() {
    assert_eq!(
        token_path_in(Platform::Linux, Some("/home/al".to_string())),
        Ok("/home/al/.local/share/goconnect/ipc.token".to_string())
    );
    assert_eq!(
        token_path_in(Platform::Linux, Some("/home/al/".to_string())),
        Ok("/home/al/.local/share/goconnect/ipc.token".to_string())
    );
    assert_eq!(
        token_path_in(Platform::MacOs, Some("/Users/al".to_string())),
        Ok("/Users/al/Library/Application Support/GoConnect/ipc.token".to_string())
    );
    assert_eq!(
        token_path_in(Platform::Windows, Some("C:\\Users\\al\\AppData\\Local".to_string())),
        Ok("C:\\Users\\al\\AppData\\Local\\GoConnect\\ipc.token".to_string())
    );
    assert_eq!(
        token_path_in(Platform::Windows, None),
        Err(DaemonError::TokenNotFound("Cannot find LOCALAPPDATA".to_string()))
    );
    assert_eq!(
        token_path_in(Platform::Linux, None),
        Err(DaemonError::TokenNotFound("Cannot find home directory".to_string()))
    );
    assert_eq!(
        token_path_in(Platform::Other, Some("/x".to_string())),
        Err(DaemonError::TokenNotFound("Unsupported platform".to_string()))
    );
    assert_eq!(
        get_token_path(Platform::Other),
        Err(DaemonError::TokenNotFound("Unsupported platform".to_string()))
    );
    if let Ok(p) = get_token_path(Platform::Linux) {
        assert!(p.ends_with("/.local/share/goconnect/ipc.token"));
    }
}

#[test]
fn token_is_trimmed_and_read_errors_name_the_path() {
    let path = "/h/.local/share/goconnect/ipc.token".to_string();
    assert_eq!(load_ipc_token(&path, Ok("  tok-1\n".to_string())), Ok("tok-1".to_string()));
    assert_eq!(
        load_ipc_token(&path, Err("No such file".to_string())),
        Err(DaemonError::TokenNotFound(
            "Failed to read token from /h/.local/share/goconnect/ipc.token: No such file".to_string()
        ))
    );
    assert_eq!(trim_text("\u{3000}\t a b \u{85}"), "a b");
    assert_eq!(trim_text("   "), "");
    assert!(same_text("abc", "abc"));
    assert!(!same_text("abc", "abd"));
}

#[test]
fn connect_orders_token_then_transport() {
    let e = DaemonError::TokenNotFound("gone".to_string());
    assert_eq!(DaemonClient::connect(Platform::Linux, Err(e.clone()), Ok(())), Err(e));
    assert_eq!(
        DaemonClient::connect(Platform::Linux, Ok("t".to_string()), Err("refused".to_string())),
        Err(DaemonError::Connection("refused".to_string()))
    );
    let c = DaemonClient::connect(Platform::Windows, Ok("t".to_string()), Ok(())).unwrap();
    assert_eq!(c.endpoint, "http://127.0.0.1:34101");
    assert_eq!(c.token, "t");
}

#[test]
fn cache_connects_once() {
    let mut cache: SessionCache<u32> = SessionCache::new();
    let mut connects = 0;
    for _ in 0..2 {
        if cache.lookup().is_none() {
            connects += 1;
            cache.install(7);
        }
    }
    assert_eq!(connects, 1);
    assert_eq!(cache.lookup(), Some(&7));
    cache.invalidate();
    assert_eq!(cache.lookup(), None);
}

#[test]
fn probe_and_status_line() {
    let st = DaemonStatus {
        connected: true,
        virtual_ip: String::new(),
        active_peers: 0,
        network_name: "Team A".to_string(),
    };
    assert!(is_running(Ok(Ok(st.clone()))));
    assert!(!is_running(Ok(Err(DaemonError::Rpc("x".to_string())))));
    assert!(!is_running(Err(DaemonError::Connection("refused".to_string()))));
    assert_eq!(status_line(&Ok(Ok(st.clone()))), "Status: Connected (Team A)");
    let off = DaemonStatus { connected: false, ..st };
    assert_eq!(status_line(&Ok(Ok(off))), "Status: Disconnected");
    assert_eq!(status_line(&Ok(Err(DaemonError::Rpc("x".to_string())))), "Status: Daemon Error");
    assert_eq!(status_line(&Err(DaemonError::Connection("x".to_string()))), "Status: Daemon Stopped");
}
