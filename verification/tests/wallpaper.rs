//! Finding the wallpaper: the wire format, the exchange with hyprpaper, and
//! the answers of the other daemons.

use vibepanel::hyprpaper::{
    detect_hyprpaper_hyprwire, is_hyprpaper_status_protocol_available, parse_new_object,
    ClientStep, HyprwireClient, HYPRPAPER_CORE_GET_STATUS_OBJECT, HYPRPAPER_PROTOCOL,
    HYPRPAPER_STATUS_VERSION, HYPRWIRE_VERSION,
};
use vibepanel::hyprwire;
use vibepanel::hyprwire::{
    encode_value, encode_varint, HyprwireMessage, HyprwireValue, HW_ARRAY, HW_BIND_PROTOCOL,
    HW_END, HW_GENERIC_PROTOCOL_MESSAGE, HW_HANDSHAKE_ACK, HW_HANDSHAKE_BEGIN,
    HW_HANDSHAKE_PROTOCOLS, HW_MAX_ARRAY_COUNT, HW_MAX_VARCHAR_LEN, HW_NEW_OBJECT,
    HW_ROUNDTRIP_DONE, HW_ROUNDTRIP_REQUEST, HW_SUP, HW_UINT, HW_VARCHAR,
};
use vibepanel::wallpaper::{
    collect_wallpaper_entries, detect_awww_wallpaper, detect_wallpaper, detect_waypaper_wallpaper,
    detect_wpaperd_wallpaper, extract_awww_image_path, hyprpaper_protocol, maps_indicate_hyprwire,
    parse_active_wallpaper_event, parse_hyprpaper_active_response, resolve_hyprpaper_socket_path,
    select_monitor_wallpaper, waypaper_config_path, wpaperd_wallpapers_dir, DetectStep,
    HyprpaperProtocol, WallpaperSource, HYPRPAPER_STATUS_ACTIVE_WALLPAPER,
};

#[test]
fn test_extract_awww_image_path_standard() {
    let line =
        "default: eDP-1: 1920x1080, scale: 1, currently displaying: image: /home/user/wall.png";
    assert_eq!(
        extract_awww_image_path(line),
        Some("/home/user/wall.png".to_string())
    );
}

#[test]
fn test_extract_awww_image_path_spaces_in_path() {
    let line = "default: DP-2: 2560x1440, scale: 1, currently displaying: image: /home/user/My Wallpapers/wall.jpg";
    assert_eq!(
        extract_awww_image_path(line),
        Some("/home/user/My Wallpapers/wall.jpg".to_string())
    );
}

#[test]
fn test_extract_awww_image_path_no_marker() {
    assert_eq!(extract_awww_image_path("some random line"), None);
}

#[test]
fn test_extract_awww_image_path_empty_after_marker() {
    let line = "default: eDP-1: 1920x1080, scale: 1, currently displaying: image:   ";
    assert_eq!(extract_awww_image_path(line), None);
}

// ----- varint codec -----

#[test]
fn test_encode_varint_byte_layout() {
    assert_eq!(encode_varint(0), vec![0x00]);
    assert_eq!(encode_varint(127), vec![0x7F]);
    assert_eq!(encode_varint(128), vec![0x80, 0x01]);
    assert_eq!(encode_varint(16383), vec![0xFF, 0x7F]);
    assert_eq!(encode_varint(16384), vec![0x80, 0x80, 0x01]);
}

#[test]
fn test_varint_decode_truncated() {
    // Continuation bit set but no more bytes
    assert!(read_varint_from_bytes(&[0x80]).is_err());
    assert!(read_varint_from_bytes(&[]).is_err());
}

#[test]
fn test_varint_decode_u32_boundary() {
    // 0xFF,0xFF,0xFF,0xFF,0x0F -> u32::MAX (5th byte payload 0x0F, max valid)
    assert_eq!(
        read_varint_from_bytes(&[0xFF, 0xFF, 0xFF, 0xFF, 0x0F]).expect("u32::MAX decodes"),
        u32::MAX as usize
    );
}

#[test]
fn test_varint_decode_rejects_above_u32() {
    // 5th byte payload 0x10 would set bit 32 -> exceeds u32 range
    assert!(read_varint_from_bytes(&[0xFF, 0xFF, 0xFF, 0xFF, 0x10]).is_err());
    // Highest 5th-byte payload 0x7F is also out of range
    assert!(read_varint_from_bytes(&[0x80, 0x80, 0x80, 0x80, 0x7F]).is_err());
    // Continuation bit set on a 5th byte with oversized payload: rejected early
    assert!(read_varint_from_bytes(&[0x80, 0x80, 0x80, 0x80, 0x90, 0x01]).is_err());
}

// ----- allocation caps on hyprwire payload sizes -----

fn read_varint_from_bytes(bytes: &[u8]) -> Result<usize, String> {
    match hyprwire::read_varint(bytes, 0) {
        Ok((value, _)) => Ok(value),
        Err(e) => Err(e.message()),
    }
}

fn read_value_from_bytes(magic: u8, bytes: &[u8]) -> Result<HyprwireValue, String> {
    match hyprwire::read_value(magic, bytes, 0) {
        Ok((value, _)) => Ok(value),
        Err(e) => Err(e.message()),
    }
}

#[test]
fn test_read_value_rejects_oversized_varchar() {
    // Length beyond HW_MAX_VARCHAR_LEN must be rejected before allocating.
    let mut payload = encode_varint(HW_MAX_VARCHAR_LEN + 1);
    // A few body bytes: the cap must be checked before the body is read.
    payload.extend_from_slice(&[0u8; 16]);
    let err = read_value_from_bytes(HW_VARCHAR, &payload).expect_err("cap rejects");
    assert!(err.contains("exceeds cap"), "unexpected error: {err}");
}

#[test]
fn test_read_value_accepts_varchar_at_cap() {
    // Exactly HW_MAX_VARCHAR_LEN must still be accepted.
    let mut payload = encode_varint(HW_MAX_VARCHAR_LEN);
    payload.extend(std::iter::repeat_n(b'a', HW_MAX_VARCHAR_LEN));
    let value = read_value_from_bytes(HW_VARCHAR, &payload).expect("cap-sized accepted");
    match value {
        HyprwireValue::Varchar(s) => assert_eq!(s.len(), HW_MAX_VARCHAR_LEN),
        other => panic!("expected Varchar, got {other:?}"),
    }
}

#[test]
fn test_read_array_rejects_oversized_count() {
    // Item type + varint count above HW_MAX_ARRAY_COUNT.
    let mut payload = vec![HW_UINT];
    payload.extend_from_slice(&encode_varint(HW_MAX_ARRAY_COUNT + 1));
    let err = read_value_from_bytes(HW_ARRAY, &payload).expect_err("cap rejects");
    assert!(err.contains("exceeds cap"), "unexpected error: {err}");
}

#[test]
fn test_read_array_rejects_oversized_inner_varchar() {
    // Count of 1, then oversized varchar length inside.
    let mut payload = vec![HW_VARCHAR];
    payload.extend_from_slice(&encode_varint(1));
    payload.extend_from_slice(&encode_varint(HW_MAX_VARCHAR_LEN + 1));
    payload.extend_from_slice(&[0u8; 16]);
    let err = read_value_from_bytes(HW_ARRAY, &payload).expect_err("cap rejects");
    assert!(err.contains("exceeds cap"), "unexpected error: {err}");
}

// ----- parse_hyprpaper_active_response (legacy text protocol) -----

#[test]
fn test_parse_legacy_single_monitor_no_target() {
    let response = "eDP-1 = /home/user/wall.png\n";
    assert_eq!(
        parse_hyprpaper_active_response(response, None),
        Some("/home/user/wall.png".to_string())
    );
}

#[test]
fn test_parse_legacy_multi_monitor_target_match() {
    let response = "eDP-1 = /home/user/first.png\nDP-1 = /home/user/second.png\n";
    assert_eq!(
        parse_hyprpaper_active_response(response, Some("DP-1")),
        Some("/home/user/second.png".to_string())
    );
}

#[test]
fn test_parse_legacy_multi_monitor_target_miss_falls_back() {
    let response = "eDP-1 = /home/user/first.png\nDP-1 = /home/user/second.png\n";
    assert_eq!(
        parse_hyprpaper_active_response(response, Some("HDMI-A-1")),
        Some("/home/user/first.png".to_string())
    );
}

#[test]
fn test_parse_legacy_empty_path_filtered() {
    let response = "eDP-1 = \nDP-1 = /home/user/second.png\n";
    assert_eq!(
        parse_hyprpaper_active_response(response, None),
        Some("/home/user/second.png".to_string())
    );
}

#[test]
fn test_parse_legacy_target_empty_path_falls_back() {
    let response = "eDP-1 = /home/user/first.png\nDP-1 = \n";
    assert_eq!(
        parse_hyprpaper_active_response(response, Some("DP-1")),
        Some("/home/user/first.png".to_string())
    );
}

#[test]
fn test_parse_legacy_non_ascii_path() {
    // Paths may hold characters outside ASCII.
    let response = "eDP-1 = /home/user/壁纸.png\n";
    assert_eq!(
        parse_hyprpaper_active_response(response, None),
        Some("/home/user/壁纸.png".to_string())
    );

    let response = "DP-1 = /home/david/Bilder/Café.jpg\n";
    assert_eq!(
        parse_hyprpaper_active_response(response, Some("DP-1")),
        Some("/home/david/Bilder/Café.jpg".to_string())
    );
}

#[test]
fn test_parse_legacy_empty_response() {
    assert_eq!(parse_hyprpaper_active_response("", None), None);
}

#[test]
fn test_parse_legacy_no_equals_lines() {
    assert_eq!(
        parse_hyprpaper_active_response("garbage without separators\n", None),
        None
    );
}

// ----- parse_new_object -----

#[test]
fn test_parse_new_object_valid() {
    let msg = HyprwireMessage {
        code: HW_NEW_OBJECT,
        args: vec![HyprwireValue::Uint(42), HyprwireValue::Uint(7)],
    };
    assert_eq!(parse_new_object(&msg), Some((42, 7)));
}

#[test]
fn test_parse_new_object_wrong_types() {
    let msg = HyprwireMessage {
        code: HW_NEW_OBJECT,
        args: vec![HyprwireValue::Uint(42), HyprwireValue::Sequence(7)],
    };
    assert_eq!(parse_new_object(&msg), None);
}

// ----- parse_active_wallpaper_event -----

fn active_wallpaper_msg(
    object_id: u32,
    method_id: u32,
    monitor: &str,
    path: &str,
) -> HyprwireMessage {
    HyprwireMessage {
        code: HW_GENERIC_PROTOCOL_MESSAGE,
        args: vec![
            HyprwireValue::Object(object_id),
            HyprwireValue::Uint(method_id),
            HyprwireValue::Varchar(monitor.to_string()),
            HyprwireValue::Varchar(path.to_string()),
        ],
    }
}

#[test]
fn test_active_wallpaper_event_matching() {
    let msg = active_wallpaper_msg(
        5,
        HYPRPAPER_STATUS_ACTIVE_WALLPAPER,
        "eDP-1",
        "/home/user/wall.png",
    );
    assert_eq!(
        parse_active_wallpaper_event(&msg, 5),
        Some(("eDP-1".to_string(), "/home/user/wall.png".to_string()))
    );
}

#[test]
fn test_active_wallpaper_event_wrong_object_id() {
    let msg = active_wallpaper_msg(
        5,
        HYPRPAPER_STATUS_ACTIVE_WALLPAPER,
        "eDP-1",
        "/home/user/wall.png",
    );
    assert_eq!(parse_active_wallpaper_event(&msg, 99), None);
}

// ----- select_monitor_wallpaper -----

fn entry(name: &str, path: &str) -> (String, String) {
    (name.to_string(), path.to_string())
}

#[test]
fn test_select_no_target_returns_first_nonempty() {
    let entries = vec![
        entry("eDP-1", ""),
        entry("DP-1", "/home/user/wall.png"),
        entry("HDMI-A-1", "/home/user/other.png"),
    ];
    assert_eq!(
        select_monitor_wallpaper(&entries, None),
        Some("/home/user/wall.png".to_string())
    );
}

#[test]
fn test_select_target_found() {
    let entries = vec![
        entry("eDP-1", "/home/user/first.png"),
        entry("DP-1", "/home/user/second.png"),
    ];
    assert_eq!(
        select_monitor_wallpaper(&entries, Some("DP-1")),
        Some("/home/user/second.png".to_string())
    );
}

#[test]
fn test_select_all_empty_returns_none() {
    let entries = vec![entry("eDP-1", ""), entry("DP-1", "")];
    assert_eq!(select_monitor_wallpaper(&entries, None), None);
    assert_eq!(select_monitor_wallpaper(&entries, Some("DP-1")), None);
}

// ----- maps_indicate_hyprwire -----

#[test]
fn test_maps_indicate_hyprwire_matches_library_mapping() {
    let maps = "\
7f0000000000-7f0000010000 r-xp 00000000 fd:00 1 /usr/lib/libhyprtoolkit.so.0\n\
7f0000020000-7f0000030000 r-xp 00000000 fd:00 2 /usr/lib/libhyprlang.so\n";
    assert!(maps_indicate_hyprwire(maps));
}

#[test]
fn test_maps_indicate_hyprwire_rejects_hyprpaper_07_maps() {
    let maps = "\
55d000000000-55d000040000 r-xp 00000000 fd:00 10 /usr/bin/hyprpaper\n\
7f0000000000-7f0000020000 r-xp 00000000 fd:00 20 /usr/lib/libhyprlang.so\n\
7f0000030000-7f0000040000 r-xp 00000000 fd:00 21 /usr/lib/libwayland-client.so.0\n";
    assert!(!maps_indicate_hyprwire(maps));
}

#[test]
fn test_maps_indicate_hyprwire_rejects_bare_hyprtoolkit_substring() {
    let maps = "\
55d000000000-55d000040000 r-xp 00000000 fd:00 10 /opt/hyprtoolkit-demo/bin/demo\n";
    assert!(!maps_indicate_hyprwire(maps));
}

#[test]
fn test_maps_indicate_hyprwire_rejects_hyprtoolkit_helper_library() {
    let maps = "\
7f0000000000-7f0000010000 r-xp 00000000 fd:00 1 /usr/lib/libhyprtoolkit-helper.so.0\n";
    assert!(!maps_indicate_hyprwire(maps));
}

#[test]
fn test_maps_indicate_hyprwire_rejects_hyprtoolkit_plugin_library() {
    let maps = "\
7f0000000000-7f0000010000 r-xp 00000000 fd:00 1 /usr/lib/libhyprtoolkit-plugin.so.1\n";
    assert!(!maps_indicate_hyprwire(maps));
}

// ----- is_hyprpaper_status_protocol_available -----

#[test]
fn test_is_hyprpaper_status_protocol_available_rejects_old_version() {
    let protocols = vec![(HYPRPAPER_PROTOCOL.to_string(), 1u32)];
    assert!(!is_hyprpaper_status_protocol_available(&protocols));
}

#[test]
fn test_is_hyprpaper_status_protocol_available_accepts_v2_and_above() {
    let protocols = vec![
        (HYPRPAPER_PROTOCOL.to_string(), 1u32),
        (HYPRPAPER_PROTOCOL.to_string(), 2u32),
        ("other_protocol".to_string(), 5u32),
    ];
    assert!(is_hyprpaper_status_protocol_available(&protocols));
}

// ----- collect_wallpaper_entries -----

#[test]
fn test_collect_wallpaper_entries_latest_wins() {
    let status_id = 20;
    let msgs = vec![
        active_wallpaper_msg(
            status_id,
            HYPRPAPER_STATUS_ACTIVE_WALLPAPER,
            "eDP-1",
            "/old.png",
        ),
        active_wallpaper_msg(
            status_id,
            HYPRPAPER_STATUS_ACTIVE_WALLPAPER,
            "eDP-1",
            "/new.png",
        ),
    ];
    let entries = collect_wallpaper_entries(&msgs, status_id);
    assert_eq!(entries, vec![("eDP-1".to_string(), "/new.png".to_string())]);
}

fn enc(value: &HyprwireValue) -> Vec<u8> {
    let mut buf = Vec::new();
    encode_value(&mut buf, value);
    buf
}

/// The bytes of a message as the daemon sends it.
fn daemon_bytes(code: u8, args: &[u8]) -> Vec<u8> {
    let mut buf = vec![code];
    buf.extend_from_slice(args);
    buf.push(HW_END);
    buf
}

/// Hands the client a message of the daemon.
fn deliver(client: &mut HyprwireClient, code: u8, args: &[u8]) -> ClientStep {
    let bytes = daemon_bytes(code, args);
    client.on_message(decoded(&bytes))
}

/// What the client sent, decoded.
fn sent(step: ClientStep) -> HyprwireMessage {
    match step {
        ClientStep::Send(b) => decoded(&b),
        ClientStep::SendPatiently(b) => decoded(&b),
        other => panic!("expected bytes to send, got {other:?}"),
    }
}

fn decoded(bytes: &[u8]) -> HyprwireMessage {
    match hyprwire::read_message(bytes) {
        Ok((message, used)) => {
            assert_eq!(used, bytes.len());
            message
        }
        Err(e) => panic!("the message must decode: {}", e.message()),
    }
}

/// The whole exchange: handshake, binding, the status object, one event, and
/// the end of the round trip.
#[test]
fn test_detect_hyprpaper_hyprwire_happy_path() {
    let mut client = HyprwireClient::new();
    let sup = decoded(&vibepanel::hyprpaper::hello());
    assert_eq!(sup.code, HW_SUP);
    assert!(
        matches!(sup.args.first(), Some(HyprwireValue::Varchar(s)) if s == "VAX"),
        "sup payload must be Varchar(\"VAX\"), got {:?}",
        sup.args
    );

    let begin_args = enc(&HyprwireValue::ArrayUint(vec![HYPRWIRE_VERSION]));
    let ack = sent(deliver(&mut client, HW_HANDSHAKE_BEGIN, &begin_args));
    assert_eq!(ack.code, HW_HANDSHAKE_ACK);
    assert!(
        matches!(ack.args.first(), Some(HyprwireValue::Uint(v)) if *v == HYPRWIRE_VERSION),
        "ack payload must be Uint({}), got {:?}",
        HYPRWIRE_VERSION,
        ack.args
    );

    let protocols = enc(&HyprwireValue::ArrayVarchar(vec![format!(
        "{}@{}",
        HYPRPAPER_PROTOCOL, HYPRPAPER_STATUS_VERSION
    )]));
    let bind = sent(deliver(&mut client, HW_HANDSHAKE_PROTOCOLS, &protocols));
    assert_eq!(bind.code, HW_BIND_PROTOCOL);
    let bind_seq = match bind.args.first() {
        Some(HyprwireValue::Uint(seq)) => *seq,
        _ => panic!("bind must start with Uint seq, got {:?}", bind.args),
    };
    assert!(
        matches!(bind.args.get(1), Some(HyprwireValue::Varchar(s)) if s == HYPRPAPER_PROTOCOL),
        "bind spec must be {:?}, got {:?}",
        HYPRPAPER_PROTOCOL,
        bind.args
    );
    assert!(
        matches!(bind.args.get(2), Some(HyprwireValue::Uint(v)) if *v == HYPRPAPER_STATUS_VERSION),
        "bind version must be {}, got {:?}",
        HYPRPAPER_STATUS_VERSION,
        bind.args
    );

    let mut manager = enc(&HyprwireValue::Uint(10));
    manager.extend_from_slice(&enc(&HyprwireValue::Uint(bind_seq)));
    let create_status = sent(deliver(&mut client, HW_NEW_OBJECT, &manager));
    assert_eq!(create_status.code, HW_GENERIC_PROTOCOL_MESSAGE);
    assert!(
        matches!(create_status.args.first(), Some(HyprwireValue::Object(id)) if *id == 10),
        "create-status target must be Object(10), got {:?}",
        create_status.args
    );
    assert!(
        matches!(create_status.args.get(1), Some(HyprwireValue::Uint(m)) if *m == HYPRPAPER_CORE_GET_STATUS_OBJECT),
        "create-status method must be {}, got {:?}",
        HYPRPAPER_CORE_GET_STATUS_OBJECT,
        create_status.args
    );
    let status_seq = match create_status.args.get(2) {
        Some(HyprwireValue::Sequence(seq)) => *seq,
        _ => panic!(
            "create-status must carry a sequence in arg[2], got {:?}",
            create_status.args
        ),
    };

    let mut status = enc(&HyprwireValue::Uint(20));
    status.extend_from_slice(&enc(&HyprwireValue::Uint(status_seq)));
    let roundtrip = sent(deliver(&mut client, HW_NEW_OBJECT, &status));
    assert_eq!(roundtrip.code, HW_ROUNDTRIP_REQUEST);
    let roundtrip_seq = match roundtrip.args.first() {
        Some(HyprwireValue::Uint(seq)) => *seq,
        _ => panic!("roundtrip request must start with Uint seq"),
    };

    let mut wallpaper = enc(&HyprwireValue::Object(20));
    wallpaper.extend_from_slice(&enc(&HyprwireValue::Uint(HYPRPAPER_STATUS_ACTIVE_WALLPAPER)));
    wallpaper.extend_from_slice(&enc(&HyprwireValue::Varchar("eDP-1".to_string())));
    wallpaper.extend_from_slice(&enc(&HyprwireValue::Varchar(
        "/home/user/wall.png".to_string(),
    )));
    assert!(matches!(
        deliver(&mut client, HW_GENERIC_PROTOCOL_MESSAGE, &wallpaper),
        ClientStep::Read
    ));

    let done = enc(&HyprwireValue::Uint(roundtrip_seq));
    let entries = match deliver(&mut client, HW_ROUNDTRIP_DONE, &done) {
        ClientStep::Done(entries) => entries,
        other => panic!("expected the end of the exchange, got {other:?}"),
    };
    let result = detect_hyprpaper_hyprwire(&entries, Some("eDP-1"));
    assert_eq!(result, Some("/home/user/wall.png".to_string()));
}

// ----- sources -----

#[test]
fn sources_are_asked_in_order() {
    assert!(matches!(detect_wallpaper(None), DetectStep::Ask(WallpaperSource::Hyprpaper)));
    assert!(matches!(
        detect_wallpaper(Some((WallpaperSource::Hyprpaper, None))),
        DetectStep::Ask(WallpaperSource::Wpaperd)
    ));
    assert!(matches!(
        detect_wallpaper(Some((WallpaperSource::Wpaperd, None))),
        DetectStep::Ask(WallpaperSource::Waypaper)
    ));
    assert!(matches!(
        detect_wallpaper(Some((WallpaperSource::Waypaper, None))),
        DetectStep::Ask(WallpaperSource::Awww)
    ));
    assert!(matches!(detect_wallpaper(Some((WallpaperSource::Awww, None))), DetectStep::NotFound));
    assert!(matches!(
        detect_wallpaper(Some((WallpaperSource::Waypaper, Some("/w.png".to_string())))),
        DetectStep::Found(p) if p == "/w.png"
    ));
}

#[test]
fn waypaper_pairs_monitors_with_wallpapers() {
    let ini = "[Other]\nwallpaper = /no.png\n[Settings]\n# comment\nwallpaper = ~/a.png, /b.png\nmonitors = DP-1, DP-2\n";
    assert_eq!(detect_waypaper_wallpaper(ini, Some("DP-2"), "/home/me"), Some("/b.png".to_string()));
    assert_eq!(detect_waypaper_wallpaper(ini, Some("DP-1"), "/home/me"), Some("/home/me/a.png".to_string()));
    assert_eq!(detect_waypaper_wallpaper("[Settings]\n", None, "/home/me"), None);
    assert_eq!(waypaper_config_path(Some("/cfg"), "/home/me"), "/cfg/waypaper/config.ini");
    assert_eq!(waypaper_config_path(None, "/home/me"), "/home/me/.config/waypaper/config.ini");
}

#[test]
fn awww_lines_are_matched_to_monitors() {
    let out = "default: DP-1: 1x1, scale: 1, currently displaying: image: /one.png\ndefault: DP-2: 1x1, scale: 1, currently displaying: image: /two.png\n";
    assert_eq!(detect_awww_wallpaper(true, out, Some("DP-2")), Some("/two.png".to_string()));
    assert_eq!(detect_awww_wallpaper(true, out, None), Some("/one.png".to_string()));
    assert_eq!(detect_awww_wallpaper(false, out, None), None);
}

#[test]
fn wpaperd_links_are_tried_in_order() {
    assert_eq!(wpaperd_wallpapers_dir(Some("/state"), Some("/home/me")), Some("/state/wpaperd/wallpapers".to_string()));
    assert_eq!(
        wpaperd_wallpapers_dir(None, Some("/home/me")),
        Some("/home/me/.local/state/wpaperd/wallpapers".to_string())
    );
    assert_eq!(wpaperd_wallpapers_dir(None, None), None);
    assert_eq!(
        detect_wpaperd_wallpaper(Some("/x.png".to_string()), &vec![Some("/y.png".to_string())]),
        Some("/x.png".to_string())
    );
    assert_eq!(
        detect_wpaperd_wallpaper(None, &vec![None, Some("/y.png".to_string())]),
        Some("/y.png".to_string())
    );
    assert_eq!(detect_wpaperd_wallpaper(None, &vec![None]), None);
}

#[test]
fn text_that_is_not_utf8_is_refused_on_the_wire() {
    let bytes = [HW_SUP, HW_VARCHAR, 2, 0xff, 0xfe, HW_END];
    let error = hyprwire::read_message(&bytes).expect_err("not text");
    assert!(!format!("{:?}", error).is_empty());
    let bytes = [HW_SUP, HW_VARCHAR, 2, b'h', b'i', HW_END];
    let (message, used) = hyprwire::read_message(&bytes).expect("a message");
    assert_eq!(used, 6);
    assert!(matches!(&message.args[..], [HyprwireValue::Varchar(t)] if t == "hi"));
}

#[test]
fn the_socket_of_the_instance_comes_first() {
    assert_eq!(resolve_hyprpaper_socket_path(None, Some("sig"), true), None);
    assert_eq!(
        resolve_hyprpaper_socket_path(Some("/run"), Some("sig"), true).as_deref(),
        Some("/run/hypr/sig/.hyprpaper.sock")
    );
    assert_eq!(
        resolve_hyprpaper_socket_path(Some("/run"), Some("sig"), false).as_deref(),
        Some("/run/hypr/.hyprpaper.sock")
    );
    assert_eq!(
        resolve_hyprpaper_socket_path(Some("/run"), None, false).as_deref(),
        Some("/run/hypr/.hyprpaper.sock")
    );
}

#[test]
fn a_daemon_is_asked_with_one_protocol() {
    let new = "7f00-7f01 r-xp 00000000 00:00 1 /usr/lib/libhyprtoolkit.so.5\n";
    let old = "7f00-7f01 r-xp 00000000 00:00 1 /usr/bin/hyprpaper\n";
    assert_eq!(hyprpaper_protocol(Some(new)), Some(HyprpaperProtocol::Hyprwire));
    assert_eq!(hyprpaper_protocol(Some(old)), Some(HyprpaperProtocol::Legacy));
    assert_eq!(hyprpaper_protocol(Some("")), Some(HyprpaperProtocol::Legacy));
    assert_eq!(hyprpaper_protocol(None), None);
}
