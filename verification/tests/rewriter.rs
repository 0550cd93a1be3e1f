use aa_proxy::config::{AppConfig, EvConnectorType, EvConnectorTypes, HexdumpLevel};
use aa_proxy::frame::Packet;
use aa_proxy::ids::{
    AUDIO_STREAM_GUIDANCE, AUDIO_STREAM_MEDIA, AUDIO_STREAM_SYSTEM_AUDIO, FUEL_TYPE_ELECTRIC,
    MANEUVER_U_TURN_LEFT, MANEUVER_U_TURN_RIGHT, MESSAGE_BYEBYE_REQUEST,
    MESSAGE_SERVICE_DISCOVERY_RESPONSE, SENSOR_MESSAGE_BATCH, SENSOR_MESSAGE_REQUEST,
    SENSOR_MESSAGE_RESPONSE, SENSOR_SPEED, SENSOR_VEHICLE_ENERGY_MODEL_DATA, STATUS_SUCCESS,
};
use aa_proxy::mitm::{pkt_modify_hook, ModifyContext, ProxyType};
use aa_proxy::rewriter::rewrite_sdr;
use aa_proxy::sdr::{
    encode_sdr, parse_sdr, MediaSinkService, Sensor, SensorSourceService, Service,
    ServiceDiscoveryResponse, VideoConfig,
};
use aa_proxy::nav::{encode_nav, parse_nav, NavState, NavStep};
use aa_proxy::sensors::{encode_list, encode_scalar_msg, parse_list, parse_scalar, ListMsg, ScalarMsg};

fn base_config() -> AppConfig {
    AppConfig {
        advertise: false,
        dongle_mode: false,
        debug: false,
        hexdump_level: HexdumpLevel::Disabled,
        disable_console_debug: false,
        legacy: true,
        connect: None,
        logfile: String::new(),
        stats_interval: 0,
        udc: None,
        iface: "wlan0".to_string(),
        hostapd_conf: String::new(),
        btalias: None,
        timeout_secs: 10,
        webserver: None,
        bt_timeout_secs: 120,
        mitm: true,
        dpi: 0,
        remove_tap_restriction: false,
        video_in_motion: false,
        disable_media_sink: false,
        disable_tts_sink: false,
        developer_mode: false,
        wired: None,
        dhu: false,
        ev: false,
        remove_bluetooth: false,
        remove_wifi: false,
        change_usb_order: false,
        stop_on_disconnect: false,
        waze_lht_workaround: false,
        ev_battery_logger: None,
        ev_connector_types: None,
        enable_ssh: true,
        hw_mode: "g".to_string(),
        country_code: "US".to_string(),
        channel: 6,
        ssid: "aa-proxy".to_string(),
        wpa_passphrase: "aa-proxy".to_string(),
        eth_mode: String::new(),
        action_requested: None,
    }
}

fn empty_service(id: u32) -> Service {
    Service {
        id: Some(id),
        media_sink_service: None,
        sensor_source_service: None,
        navigation_status_service: None,
        bluetooth_service: None,
        wifi_projection_service: None,
        rest: Vec::new(),
    }
}

fn media_service(id: u32, audio_type: Option<u32>, densities: &[u32]) -> Service {
    let mut svc = empty_service(id);
    svc.media_sink_service = Some(MediaSinkService {
        audio_type,
        audio_configs: if audio_type.is_some() { vec![vec![0x08, 0x01]] } else { Vec::new() },
        video_configs: densities
            .iter()
            .map(|d| VideoConfig { density: Some(*d), rest: Vec::new() })
            .collect(),
        rest: Vec::new(),
    });
    svc
}

fn sensor_service(id: u32, types: &[u32]) -> Service {
    let mut svc = empty_service(id);
    svc.sensor_source_service = Some(SensorSourceService {
        sensors: types
            .iter()
            .map(|t| Sensor { sensor_type: Some(*t), rest: Vec::new() })
            .collect(),
        supported_fuel_types: Vec::new(),
        supported_ev_connector_types: Vec::new(),
        rest: Vec::new(),
    });
    svc
}

fn sample_sdr() -> ServiceDiscoveryResponse {
    ServiceDiscoveryResponse {
        services: vec![
            media_service(1, Some(AUDIO_STREAM_MEDIA), &[]),
            media_service(2, None, &[140]),
            sensor_service(7, &[SENSOR_SPEED, 10]),
            Service {
                navigation_status_service: Some(vec![0x08, 0x01]),
                ..empty_service(9)
            },
        ],
        make: Some(b"Car".to_vec()),
        model: Some(b"HU".to_vec()),
        rest: Vec::new(),
    }
}

fn service_types(m: &ServiceDiscoveryResponse) -> Vec<Option<u32>> {
    m.services
        .iter()
        .map(|s| s.media_sink_service.as_ref().and_then(|ms| ms.audio_type))
        .collect()
}

#[test]
fn rewrite_identity_with_all_toggles_off() {
    let mut m = sample_sdr();
    let before = encode_sdr(&m);
    let cfg = base_config();
    let (sc, nc) = rewrite_sdr(&mut m, &cfg);
    assert_eq!(sc, None);
    assert_eq!(nc, None);
    assert_eq!(encode_sdr(&m), before);
}

#[test]
fn rewrite_disable_media_sink_drops_media_services() {
    let mut m = sample_sdr();
    let mut cfg = base_config();
    cfg.disable_media_sink = true;
    rewrite_sdr(&mut m, &cfg);
    assert_eq!(m.services.len(), 3);
    for t in service_types(&m) {
        assert_ne!(t, Some(AUDIO_STREAM_MEDIA));
    }
}

#[test]
fn rewrite_developer_mode_sets_make_and_model() {
    let mut m = sample_sdr();
    let mut cfg = base_config();
    cfg.developer_mode = true;
    rewrite_sdr(&mut m, &cfg);
    assert_eq!(m.make, Some(b"Google".to_vec()));
    assert_eq!(m.model, Some(b"Desktop Head Unit".to_vec()));
}

#[test]
fn rewrite_captures_sensor_and_nav_channels() {
    let mut m = sample_sdr();
    let mut cfg = base_config();
    cfg.video_in_motion = true;
    cfg.waze_lht_workaround = true;
    let (sc, nc) = rewrite_sdr(&mut m, &cfg);
    assert_eq!(sc, Some(7));
    assert_eq!(nc, Some(9));
}

#[test]
fn rewrite_removes_speed_sensors() {
    let mut m = sample_sdr();
    let mut cfg = base_config();
    cfg.remove_tap_restriction = true;
    rewrite_sdr(&mut m, &cfg);
    for svc in &m.services {
        if let Some(src) = &svc.sensor_source_service {
            for s in &src.sensors {
                assert_ne!(s.sensor_type, Some(SENSOR_SPEED));
            }
        }
    }
    // The non-speed sensor survives.
    let src = m.services[2].sensor_source_service.as_ref().unwrap();
    assert_eq!(src.sensors.len(), 1);
    assert_eq!(src.sensors[0].sensor_type, Some(10));
}

#[test]
fn rewrite_tts_sink_becomes_system_audio() {
    let mut m = ServiceDiscoveryResponse {
        services: vec![media_service(4, Some(AUDIO_STREAM_GUIDANCE), &[])],
        make: None,
        model: None,
        rest: Vec::new(),
    };
    let mut cfg = base_config();
    cfg.disable_tts_sink = true;
    rewrite_sdr(&mut m, &cfg);
    let ms = m.services[0].media_sink_service.as_ref().unwrap();
    assert_eq!(ms.audio_type, Some(AUDIO_STREAM_SYSTEM_AUDIO));
}

#[test]
fn rewrite_ev_features() {
    let mut m = sample_sdr();
    let mut cfg = base_config();
    cfg.ev = true;
    cfg.ev_connector_types =
        Some(EvConnectorTypes(Some(vec![EvConnectorType::Chademo, EvConnectorType::Tesla])));
    rewrite_sdr(&mut m, &cfg);
    let src = m.services[2].sensor_source_service.as_ref().unwrap();
    assert_eq!(
        src.sensors.last().unwrap().sensor_type,
        Some(SENSOR_VEHICLE_ENERGY_MODEL_DATA)
    );
    assert_eq!(src.supported_fuel_types, vec![FUEL_TYPE_ELECTRIC]);
    assert_eq!(src.supported_ev_connector_types, vec![3, 6]);
}

#[test]
fn rewrite_ev_default_connector_is_mennekes() {
    let mut m = sample_sdr();
    let mut cfg = base_config();
    cfg.ev = true;
    rewrite_sdr(&mut m, &cfg);
    let src = m.services[2].sensor_source_service.as_ref().unwrap();
    assert_eq!(src.supported_ev_connector_types, vec![2]);
}

#[test]
fn rewrite_strips_bluetooth_and_wifi_services() {
    let mut m = sample_sdr();
    m.services.push(Service {
        bluetooth_service: Some(vec![0x0A, 0x00]),
        ..empty_service(11)
    });
    m.services.push(Service {
        wifi_projection_service: Some(vec![0x0A, 0x00]),
        ..empty_service(12)
    });
    let mut cfg = base_config();
    cfg.remove_bluetooth = true;
    cfg.remove_wifi = true;
    rewrite_sdr(&mut m, &cfg);
    for svc in &m.services {
        assert!(svc.bluetooth_service.is_none());
        assert!(svc.wifi_projection_service.is_none());
    }
    assert_eq!(m.services.len(), 4);
}

#[test]
fn sdr_byte_round_trip() {
    let m = sample_sdr();
    let bytes = encode_sdr(&m);
    let p = parse_sdr(&bytes).expect("own encoding parses");
    assert_eq!(encode_sdr(&p), bytes);
    assert_eq!(p.services.len(), m.services.len());
    assert_eq!(p.make, m.make);
    assert_eq!(p.model, m.model);
}

#[test]
fn sdr_parse_skips_unknown_fields() {
    let m = sample_sdr();
    let mut bytes = encode_sdr(&m);
    // An unknown varint field (number 200) appended at top level survives a
    // parse/encode round trip at the end of the message.
    bytes.push(0xC0);
    bytes.push(0x0C);
    bytes.push(0x2A);
    let p = parse_sdr(&bytes).expect("unknown fields are kept");
    assert_eq!(p.rest, vec![0xC0, 0x0C, 0x2A]);
    let re = encode_sdr(&p);
    assert_eq!(&re[re.len() - 3..], &[0xC0, 0x0C, 0x2A]);
}

fn control_packet(id: u16, body: &[u8]) -> Packet {
    Packet {
        channel: 0,
        flags: 0x03,
        final_length: None,
        payload: aa_proxy::frame::payload_with_id(id, body),
    }
}

#[test]
fn hook_dpi_rewrite_scenario() {
    // DPI override through the whole packet path: parse, rewrite, re-encode.
    let m = sample_sdr();
    let mut pkt = control_packet(MESSAGE_SERVICE_DISCOVERY_RESPONSE, &encode_sdr(&m));
    let mut ctx = ModifyContext::new();
    let mut cfg = base_config();
    cfg.dpi = 160;
    let out = pkt_modify_hook(ProxyType::HeadUnit, &mut pkt, &mut ctx, &cfg);
    assert!(!out.handled);
    let rewritten = parse_sdr(&pkt.payload[2..]).expect("rewritten payload parses");
    let ms = rewritten.services[1].media_sink_service.as_ref().unwrap();
    assert_eq!(ms.video_configs[0].density, Some(160));
}

#[test]
fn hook_sdr_ignored_on_mobile_device_side() {
    let m = sample_sdr();
    let mut pkt = control_packet(MESSAGE_SERVICE_DISCOVERY_RESPONSE, &encode_sdr(&m));
    let before = pkt.payload.clone();
    let mut ctx = ModifyContext::new();
    let mut cfg = base_config();
    cfg.dpi = 160;
    pkt_modify_hook(ProxyType::MobileDevice, &mut pkt, &mut ctx, &cfg);
    assert_eq!(pkt.payload, before);
}

#[test]
fn hook_sensor_ev_synthesis_scenario() {
    let body = encode_scalar_msg(&ScalarMsg {
        value: Some(SENSOR_VEHICLE_ENERGY_MODEL_DATA),
        rest: Vec::new(),
    });
    let mut pkt = Packet {
        channel: 5,
        flags: 0x0B,
        final_length: None,
        payload: aa_proxy::frame::payload_with_id(SENSOR_MESSAGE_REQUEST, &body),
    };
    let mut ctx = ModifyContext { sensor_channel: Some(5), nav_channel: None };
    let mut cfg = base_config();
    cfg.ev_battery_logger = Some("/usr/bin/logger".to_string());
    let out = pkt_modify_hook(ProxyType::HeadUnit, &mut pkt, &mut ctx, &cfg);
    assert!(out.handled);
    assert!(out.start_ev_logger);
    assert_eq!(pkt.channel, 5);
    assert_eq!(pkt.flags, 0x0B);
    assert_eq!(aa_proxy::frame::message_id(&pkt.payload), Some(SENSOR_MESSAGE_RESPONSE));
    let reply = parse_scalar(&pkt.payload[2..]).expect("reply body parses");
    assert_eq!(reply.value, Some(STATUS_SUCCESS));
}

#[test]
fn hook_forces_driving_status() {
    let batch = ListMsg {
        items: vec![ScalarMsg { value: Some(4), rest: Vec::new() }],
        rest: Vec::new(),
    };
    let mut pkt = Packet {
        channel: 5,
        flags: 0x0B,
        final_length: None,
        payload: aa_proxy::frame::payload_with_id(SENSOR_MESSAGE_BATCH, &encode_list(&batch)),
    };
    let mut ctx = ModifyContext { sensor_channel: Some(5), nav_channel: None };
    let mut cfg = base_config();
    cfg.video_in_motion = true;
    let out = pkt_modify_hook(ProxyType::HeadUnit, &mut pkt, &mut ctx, &cfg);
    assert!(!out.handled);
    let fixed = parse_list(&pkt.payload[2..]).expect("batch parses");
    assert_eq!(fixed.items[0].value, Some(0));
}

#[test]
fn hook_nav_uturn_swap() {
    let nav = NavState {
        steps: vec![NavStep {
            maneuver: Some(ScalarMsg {
                value: Some(MANEUVER_U_TURN_LEFT),
                rest: Vec::new(),
            }),
            rest: Vec::new(),
        }],
        rest: Vec::new(),
    };
    // Message id 0x8006 makes the payload start 0x80 0x06, and the first
    // field key of the body is 0x0A: the fingerprint the workaround matches.
    let mut pkt = Packet {
        channel: 6,
        flags: 0x0B,
        final_length: None,
        payload: aa_proxy::frame::payload_with_id(0x8006, &encode_nav(&nav)),
    };
    assert_eq!(pkt.payload[2], 0x0A);
    let mut ctx = ModifyContext { sensor_channel: None, nav_channel: Some(6) };
    let cfg = base_config();
    let out = pkt_modify_hook(ProxyType::HeadUnit, &mut pkt, &mut ctx, &cfg);
    assert!(!out.handled);
    let fixed = parse_nav(&pkt.payload[2..]).expect("nav state parses");
    assert_eq!(
        fixed.steps[0].maneuver.as_ref().unwrap().value,
        Some(MANEUVER_U_TURN_RIGHT)
    );
}

#[test]
fn hook_byebye_requests_stop() {
    let body = encode_scalar_msg(&ScalarMsg { value: Some(1), rest: Vec::new() });
    let mut pkt = control_packet(MESSAGE_BYEBYE_REQUEST, &body);
    let mut ctx = ModifyContext::new();
    let mut cfg = base_config();
    cfg.stop_on_disconnect = true;
    let out = pkt_modify_hook(ProxyType::MobileDevice, &mut pkt, &mut ctx, &cfg);
    assert!(out.request_stop);
    assert!(!out.handled);
    // Another reason does not stop.
    let body2 = encode_scalar_msg(&ScalarMsg { value: Some(2), rest: Vec::new() });
    let mut pkt2 = control_packet(MESSAGE_BYEBYE_REQUEST, &body2);
    let out2 = pkt_modify_hook(ProxyType::MobileDevice, &mut pkt2, &mut ctx, &cfg);
    assert!(!out2.request_stop);
}

#[test]
fn hook_learns_channels_from_service_discovery() {
    let m = sample_sdr();
    let mut pkt = control_packet(MESSAGE_SERVICE_DISCOVERY_RESPONSE, &encode_sdr(&m));
    let mut ctx = ModifyContext::new();
    let mut cfg = base_config();
    cfg.video_in_motion = true;
    cfg.waze_lht_workaround = true;
    pkt_modify_hook(ProxyType::HeadUnit, &mut pkt, &mut ctx, &cfg);
    assert_eq!(ctx.sensor_channel, Some(7));
    assert_eq!(ctx.nav_channel, Some(9));
}

#[test]
fn hook_short_payload_passes_through() {
    let mut pkt = Packet { channel: 0, flags: 3, final_length: None, payload: vec![0x01] };
    let mut ctx = ModifyContext::new();
    let cfg = base_config();
    let out = pkt_modify_hook(ProxyType::HeadUnit, &mut pkt, &mut ctx, &cfg);
    assert!(!out.handled && !out.request_stop && !out.start_ev_logger);
    assert_eq!(pkt.payload, vec![0x01]);
}

#[test]
fn connector_types_to_string() {
    let both = EvConnectorTypes(Some(vec![EvConnectorType::Mennekes, EvConnectorType::Chademo]));
    assert_eq!(
        both.to_string_internal(),
        "EV_CONNECTOR_TYPE_MENNEKES,EV_CONNECTOR_TYPE_CHADEMO"
    );
    assert_eq!(EvConnectorTypes(None).to_string_internal(), "");
}

#[test]
fn malformed_payloads_are_rejected() {
    // A length-delimited field that promises more bytes than remain.
    assert!(parse_sdr(&[0x0A, 0x7F, 0x01]).is_none());
    // A truncated varint.
    assert!(parse_sdr(&[0x08]).is_none());
    // An empty body is a valid, empty message.
    let empty = parse_sdr(&[]).expect("empty body");
    assert!(empty.services.is_empty());
    assert!(empty.make.is_none() && empty.model.is_none());
}
