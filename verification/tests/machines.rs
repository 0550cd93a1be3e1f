use aa_proxy::bootstrap::{
    classify_connect_error, default_alias, device_supports_android_auto, next_backoff_ms,
    serial_suffix, Bootstrap, BootstrapState, ConnectErrorClass, AV_REMOTE_CONTROL_TARGET_UUID,
    AV_REMOTE_CONTROL_UUID, HSP_HS_UUID,
};
use aa_proxy::config::{usb_id_matches, Action, BluetoothAddressList, BtAddr, UsbId, WifiConfig};
use aa_proxy::ev::{
    apply_battery, build_battery_packet, encode_batch, parse_batch, BatteryData, EnergyControl,
    EnergyModel, EvBatch, Scalar64Msg,
};
use aa_proxy::gadget::{
    is_accessory_start, GadgetAction, GadgetEvent, GadgetName, RolePhase, UsbGadgetState,
};
use aa_proxy::ids::{SENSOR_MESSAGE_BATCH, WIFI_INFO_RESPONSE, WIFI_START_REQUEST};
use aa_proxy::led::{LedChannel, LedColor, LedManager, LedMode, LedPlan};
use aa_proxy::mitm::ProxyType;
use aa_proxy::monitor::{MonitorOutcome, TransferMonitor};
use aa_proxy::session::{
    plan_session, supervisor_step, HuTransport, MdTransport, ProcAction, ProcPhase, Processor,
    SupervisorStep,
};
use aa_proxy::uevent::is_accessory_start_event;
use aa_proxy::wifimsg::parse_bt_header;

fn wifi_config() -> WifiConfig {
    WifiConfig {
        ip_addr: b"10.0.0.1".to_vec(),
        port: 5288,
        ssid: b"aa-proxy".to_vec(),
        bssid: b"AA:BB:CC:DD:EE:FF".to_vec(),
        wpa_key: b"aa-proxy".to_vec(),
    }
}

#[test]
fn bootstrap_happy_path() {
    let cfg = wifi_config();
    let (mut bt, start_frame) = Bootstrap::start(&cfg);
    assert_eq!(bt.state, BootstrapState::AwaitInfoRequest);
    let (len, id) = parse_bt_header(&start_frame).expect("frame header");
    assert_eq!(id, WIFI_START_REQUEST);
    assert_eq!(len as usize, start_frame.len() - 4);
    // The body carries the address and the port.
    let body = &start_frame[4..];
    assert_eq!(&body[0..2], &[0x0A, 0x08]);
    assert_eq!(&body[2..10], b"10.0.0.1");
    assert_eq!(&body[10..], &[0x10, 0xA8, 0x29]);

    // The phone asks for the Wi-Fi credentials.
    let step = bt.on_message(&cfg, 2, &[]);
    assert!(!step.unexpected_id);
    assert_eq!(step.state, BootstrapState::AwaitStartResponse);
    let info = step.send.expect("info response goes out");
    let (_, id) = parse_bt_header(&info).expect("frame header");
    assert_eq!(id, WIFI_INFO_RESPONSE);
    // SSID, key and BSSID all appear in the body.
    let window = |needle: &[u8]| info.windows(needle.len()).any(|w| w == needle);
    assert!(window(b"aa-proxy"));
    assert!(window(b"AA:BB:CC:DD:EE:FF"));

    let step = bt.on_message(&cfg, 7, &[]);
    assert!(step.send.is_none());
    assert_eq!(step.state, BootstrapState::AwaitConnectStatus);

    // A zero status byte completes the bootstrap.
    let step = bt.on_message(&cfg, 6, &[0x08, 0x00]);
    assert_eq!(step.state, BootstrapState::Done);
}

#[test]
fn bootstrap_wifi_connect_failure() {
    let cfg = wifi_config();
    let (mut bt, _) = Bootstrap::start(&cfg);
    bt.on_message(&cfg, 2, &[]);
    bt.on_message(&cfg, 7, &[]);
    let step = bt.on_message(
        &cfg,
        6,
        &[0x08, 0xFD, 0xFF, 0xFF, 0xFF, 0xFF, 0xFF, 0xFF, 0xFF, 0xFF, 0x01],
    );
    assert_eq!(step.state, BootstrapState::Failed);
}

#[test]
fn bootstrap_flags_unexpected_ids() {
    let cfg = wifi_config();
    let (mut bt, _) = Bootstrap::start(&cfg);
    let step = bt.on_message(&cfg, 6, &[]);
    assert!(step.unexpected_id);
    // The dialogue continues regardless.
    assert_eq!(step.state, BootstrapState::AwaitStartResponse);
}

#[test]
fn serial_suffix_and_alias() {
    assert_eq!(serial_suffix(b"10000000abc12345\0\n"), b"c12345".to_vec());
    assert_eq!(serial_suffix(b"abc\0"), Vec::<u8>::new());
    assert_eq!(
        default_alias(Some(b"10000000abc12345\0")),
        b"aa-proxy-c12345".to_vec()
    );
    assert_eq!(default_alias(None), b"aa-proxy".to_vec());
}

#[test]
fn android_auto_device_filter() {
    assert!(device_supports_android_auto(&vec![
        AV_REMOTE_CONTROL_TARGET_UUID,
        AV_REMOTE_CONTROL_UUID,
    ]));
    assert!(!device_supports_android_auto(&vec![AV_REMOTE_CONTROL_UUID]));
    assert!(!device_supports_android_auto(&vec![HSP_HS_UUID]));
    assert!(!device_supports_android_auto(&Vec::new()));
}

#[test]
fn backoff_doubles_and_caps() {
    assert_eq!(next_backoff_ms(1000), 2000);
    assert_eq!(next_backoff_ms(4000), 8000);
    assert_eq!(next_backoff_ms(8000), 15000);
    assert_eq!(next_backoff_ms(15000), 15000);
}

#[test]
fn connect_error_classification() {
    assert_eq!(
        classify_connect_error(b"Error: br-connection-page-timeout"),
        ConnectErrorClass::RetryLater
    );
    assert_eq!(
        classify_connect_error(b"err: br-connection-canceled"),
        ConnectErrorClass::RetryLater
    );
    assert_eq!(
        classify_connect_error(b"err: br-connection-refused"),
        ConnectErrorClass::TreatConnected
    );
    assert_eq!(classify_connect_error(b"no code here"), ConnectErrorClass::Unknown);
}

#[test]
fn gadget_legacy_choreography() {
    let mut g = UsbGadgetState::new(true, Some(b"udc0".to_vec()), &Vec::new());
    assert_eq!(g.udc_name, b"udc0".to_vec());
    let init = g.init();
    assert_eq!(
        init,
        vec![
            GadgetAction::Disable(GadgetName::Default),
            GadgetAction::Disable(GadgetName::Accessory),
        ]
    );
    let offered = g.begin_accessory_switch();
    assert_eq!(
        offered,
        vec![
            GadgetAction::Enable(GadgetName::Default),
            GadgetAction::WaitAccessoryMs(3000),
        ]
    );
    assert_eq!(g.phase, RolePhase::Waiting);
    let switched = g.on_event(GadgetEvent::AccessoryStarted);
    assert_eq!(
        switched,
        vec![
            GadgetAction::Disable(GadgetName::Default),
            GadgetAction::SleepMs(100),
            GadgetAction::Enable(GadgetName::Accessory),
        ]
    );
    assert_eq!(g.phase, RolePhase::AccessoryEnabled);
}

#[test]
fn gadget_timeout_retries_once_then_proceeds() {
    let mut g = UsbGadgetState::new(true, None, &vec![b"fe980000.usb".to_vec()]);
    assert_eq!(g.udc_name, b"fe980000.usb".to_vec());
    g.begin_accessory_switch();
    let retry = g.on_event(GadgetEvent::TimedOut);
    assert_eq!(
        retry,
        vec![
            GadgetAction::Enable(GadgetName::Default),
            GadgetAction::WaitAccessoryMs(3000),
        ]
    );
    assert_eq!(g.phase, RolePhase::Waiting);
    let switched = g.on_event(GadgetEvent::TimedOut);
    assert_eq!(switched.len(), 3);
    assert_eq!(g.phase, RolePhase::AccessoryEnabled);
}

#[test]
fn gadget_non_legacy_enables_accessory_directly() {
    let mut g = UsbGadgetState::new(false, Some(b"udc0".to_vec()), &Vec::new());
    let actions = g.begin_accessory_switch();
    assert_eq!(actions, vec![GadgetAction::Enable(GadgetName::Accessory)]);
}

#[test]
fn accessory_start_predicate() {
    assert!(is_accessory_start(
        Some(&b"usb_accessory".to_vec()),
        Some(&b"START".to_vec())
    ));
    assert!(!is_accessory_start(Some(&b"usb_accessory".to_vec()), Some(&b"STOP".to_vec())));
    assert!(!is_accessory_start(None, Some(&b"START".to_vec())));
}

#[test]
fn uevent_accessory_start_detection() {
    let pkt = b"change@/devices/virtual/misc/usb_accessory\0ACTION=change\0DEVPATH=/devices/virtual/misc/usb_accessory\0SUBSYSTEM=misc\0SEQNUM=1234\0DEVNAME=usb_accessory\0ACCESSORY=START\0";
    assert!(is_accessory_start_event(pkt));
    let other = b"change@/devices/virtual/misc/usb_accessory\0ACTION=change\0DEVPATH=/devices/virtual/misc/usb_accessory\0SUBSYSTEM=misc\0SEQNUM=1234\0DEVNAME=usb_accessory\0ACCESSORY=GETPROTOCOL\0";
    assert!(!is_accessory_start_event(other));
    let unrelated = b"add@/devices/foo\0ACTION=add\0DEVPATH=/devices/foo\0SUBSYSTEM=block\0SEQNUM=1\0DEVNAME=sda1\0";
    assert!(!is_accessory_start_event(unrelated));
    assert!(!is_accessory_start_event(b"not a uevent"));
}

#[test]
fn monitor_stall_detection_scenario() {
    // A 10-second stall window: with no bytes moving, the tick after the
    // window closes fails the session.
    let mut m = TransferMonitor::new(None, 10_000);
    let mut failed_at = None;
    for i in 0..120 {
        let r = m.tick(0, 0, None);
        if r.outcome == MonitorOutcome::FailStall {
            failed_at = Some(i);
            break;
        }
    }
    assert_eq!(failed_at, Some(100));
}

#[test]
fn monitor_keeps_quiet_while_bytes_move() {
    let mut m = TransferMonitor::new(None, 10_000);
    let mut usb = 0u64;
    let mut tcp = 0u64;
    for _ in 0..500 {
        usb += 10;
        tcp += 7;
        let r = m.tick(usb, tcp, None);
        assert_eq!(r.outcome, MonitorOutcome::Continue);
    }
}

#[test]
fn monitor_one_sided_stall_fails() {
    // Only one direction moves: still a stall.
    let mut m = TransferMonitor::new(None, 1_000);
    let mut usb = 0u64;
    let mut failed = false;
    for _ in 0..20 {
        usb += 5;
        let r = m.tick(usb, 0, None);
        if r.outcome == MonitorOutcome::FailStall {
            failed = true;
            break;
        }
    }
    assert!(failed);
}

#[test]
fn monitor_reports_rates_and_actions() {
    let mut m = TransferMonitor::new(Some(1_000), 60_000);
    let mut report = None;
    let mut total = 0u64;
    for _ in 0..30 {
        total += 100;
        let r = m.tick(total, total, None);
        if r.report.is_some() {
            report = r.report;
            break;
        }
    }
    let rep = report.expect("a report within the interval");
    assert_eq!(rep.usb_total, rep.usb_delta);
    assert!(rep.window_ms > 1_000);

    let r = m.tick(total, total, Some(Action::Reconnect));
    assert_eq!(
        r.outcome,
        MonitorOutcome::FailAction { action: Action::Reconnect, cleared: true }
    );
    let r = m.tick(total, total, Some(Action::Reboot));
    assert_eq!(
        r.outcome,
        MonitorOutcome::FailAction { action: Action::Reboot, cleared: false }
    );
}

#[test]
fn session_plan_variants() {
    let mut cfg = rewritten_base();
    let plan = plan_session(&cfg);
    assert_eq!(plan.md_transport, MdTransport::Tcp);
    assert_eq!(plan.hu_transport, HuTransport::UsbAccessory);
    assert!(plan.needs_bluetooth && plan.needs_usb_gadget && !plan.passthrough);
    assert_eq!(plan.md_port, 5288);
    assert_eq!(plan.hu_port, 5277);

    cfg.wired = Some(UsbId { vid: 0x18D1, pid: 0x4EE7 });
    cfg.dhu = true;
    cfg.mitm = false;
    let plan = plan_session(&cfg);
    assert_eq!(plan.md_transport, MdTransport::UsbAccessory);
    assert_eq!(plan.hu_transport, HuTransport::Tcp);
    assert!(!plan.needs_bluetooth && !plan.needs_usb_gadget && plan.passthrough);
}

#[test]
fn supervisor_action_handling() {
    assert_eq!(supervisor_step(None), SupervisorStep::Proceed);
    assert_eq!(supervisor_step(Some(Action::Reboot)), SupervisorStep::Reboot);
    assert_eq!(supervisor_step(Some(Action::Stop)), SupervisorStep::HoldOutbound);
    assert_eq!(supervisor_step(Some(Action::Reconnect)), SupervisorStep::Proceed);
}

#[test]
fn processor_handshake_choreography() {
    // Head-unit side: version crosses over, the reply comes back, then two
    // TLS server round trips.
    let mut hu = Processor::new(ProxyType::HeadUnit);
    assert_eq!(hu.phase, ProcPhase::HuAwaitVersion);
    assert_eq!(hu.on_reader_packet(), vec![ProcAction::ForwardToPeer]);
    assert_eq!(hu.on_peer_packet(), vec![ProcAction::TransmitToDevice]);
    for _ in 0..2 {
        assert_eq!(
            hu.on_reader_packet(),
            vec![
                ProcAction::FeedTls,
                ProcAction::DriveTlsAccept,
                ProcAction::TransmitTlsOutput,
            ]
        );
    }
    assert_eq!(hu.phase, ProcPhase::Steady);

    // Mobile-device side: transmit the version, forward the reply, then
    // three TLS client steps.
    let mut md = Processor::new(ProxyType::MobileDevice);
    assert_eq!(md.on_peer_packet(), vec![ProcAction::TransmitToDevice]);
    assert_eq!(
        md.on_reader_packet(),
        vec![
            ProcAction::ForwardToPeer,
            ProcAction::DriveTlsHandshake,
            ProcAction::TransmitTlsOutput,
        ]
    );
    assert_eq!(
        md.on_reader_packet(),
        vec![
            ProcAction::FeedTls,
            ProcAction::DriveTlsHandshake,
            ProcAction::TransmitTlsOutput,
        ]
    );
    assert_eq!(
        md.on_reader_packet(),
        vec![ProcAction::FeedTls, ProcAction::DriveTlsHandshake]
    );
    assert_eq!(md.phase, ProcPhase::Steady);
}

fn rewritten_base() -> aa_proxy::config::AppConfig {
    aa_proxy::config::AppConfig {
        advertise: false,
        dongle_mode: false,
        debug: false,
        hexdump_level: aa_proxy::config::HexdumpLevel::Disabled,
        disable_console_debug: false,
        legacy: true,
        connect: Some(BtAddr::any()),
        logfile: String::new(),
        stats_interval: 0,
        udc: None,
        iface: "wlan0".to_string(),
        hostapd_conf: String::new(),
        btalias: None,
        timeout_secs: 10,
        webserver: None,
        bt_timeout_secs: 120,
        mitm: true,
        dpi: 0,
        remove_tap_restriction: false,
        video_in_motion: false,
        disable_media_sink: false,
        disable_tts_sink: false,
        developer_mode: false,
        wired: None,
        dhu: false,
        ev: false,
        remove_bluetooth: false,
        remove_wifi: false,
        change_usb_order: false,
        stop_on_disconnect: false,
        waze_lht_workaround: false,
        ev_battery_logger: None,
        ev_connector_types: None,
        enable_ssh: true,
        hw_mode: "g".to_string(),
        country_code: "US".to_string(),
        channel: 6,
        ssid: "aa-proxy".to_string(),
        wpa_passphrase: "aa-proxy".to_string(),
        eth_mode: String::new(),
        action_requested: None,
    }
}

#[test]
fn usb_filter_matching() {
    let both = Some(UsbId { vid: 0x18D1, pid: 0x4EE7 });
    assert!(usb_id_matches(&both, 0x18D1, 0x4EE7));
    assert!(!usb_id_matches(&both, 0x18D1, 0x0001));
    let vid_only = Some(UsbId { vid: 0x18D1, pid: 0 });
    assert!(usb_id_matches(&vid_only, 0x18D1, 0x1234));
    assert!(!usb_id_matches(&vid_only, 0x04E8, 0x1234));
    let pid_only = Some(UsbId { vid: 0, pid: 0x4EE7 });
    assert!(usb_id_matches(&pid_only, 0x04E8, 0x4EE7));
    let any = Some(UsbId { vid: 0, pid: 0 });
    assert!(usb_id_matches(&any, 1, 2));
    assert!(usb_id_matches(&None, 1, 2));
}

#[test]
fn led_manager_behaviour() {
    let mut leds = LedManager::new(200);
    assert_eq!(leds.brightness, 100);
    let plan = leds.set_led(LedColor::Green, LedMode::Heartbeat).expect("no override yet");
    assert_eq!(
        plan,
        LedPlan {
            red: LedChannel::Off,
            green: LedChannel::Heartbeat(100),
            blue: LedChannel::Off,
        }
    );
    let plan = leds.override_led(LedColor::Purple, LedMode::On);
    assert_eq!(plan.red, LedChannel::DefaultOn(100));
    assert_eq!(plan.green, LedChannel::Off);
    assert_eq!(plan.blue, LedChannel::DefaultOn(100));
    // Changes made under the override are recorded but not applied.
    assert!(leds.set_led(LedColor::Blue, LedMode::On).is_none());
    let plan = leds.clear_override();
    assert_eq!(
        plan,
        LedPlan {
            red: LedChannel::Off,
            green: LedChannel::Off,
            blue: LedChannel::DefaultOn(100),
        }
    );
    assert_eq!(LedManager::new(0).brightness, 1);
    assert_eq!(aa_proxy::led::scale_brightness(50, 255), 128);
}

fn battery_template() -> EvBatch {
    EvBatch {
        control: vec![EnergyControl {
            model: Some(EnergyModel {
                level: Some(Scalar64Msg { value: Some(1000), rest: Vec::new() }),
                capacity: Some(Scalar64Msg { value: Some(4000), rest: Vec::new() }),
                air_density_bits: Some(0x3F99999A),
                external_temp_bits: Some(0x41A00000),
                rest: Vec::new(),
            }),
            rest: Vec::new(),
        }],
        rest: Vec::new(),
    }
}

#[test]
fn battery_patch_and_packet() {
    let template = encode_batch(&battery_template());
    let readings = BatteryData {
        battery_level_percentage: Some(50),
        battery_level_wh: None,
        battery_capacity_wh: Some(6000),
        reference_air_density_bits: None,
        external_temp_celsius_bits: Some(0x41F00000),
    };
    let pkt = build_battery_packet(&template, 5, &readings).expect("template parses");
    assert_eq!(pkt.channel, 5);
    assert_eq!(pkt.flags, 0x0B);
    assert_eq!(aa_proxy::frame::message_id(&pkt.payload), Some(SENSOR_MESSAGE_BATCH));
    let patched = parse_batch(&pkt.payload[2..]).expect("patched batch parses");
    let model = patched.control[0].model.as_ref().unwrap();
    assert_eq!(model.capacity.as_ref().unwrap().value, Some(6000));
    // Fifty percent of the just-written capacity.
    assert_eq!(model.level.as_ref().unwrap().value, Some(3000));
    assert_eq!(model.air_density_bits, Some(0x3F99999A));
    assert_eq!(model.external_temp_bits, Some(0x41F00000));
}

#[test]
fn battery_level_wh_applies_without_percentage() {
    let mut batch = battery_template();
    let readings = BatteryData {
        battery_level_percentage: None,
        battery_level_wh: Some(2500),
        battery_capacity_wh: None,
        reference_air_density_bits: None,
        external_temp_celsius_bits: None,
    };
    apply_battery(&mut batch, &readings);
    let model = batch.control[0].model.as_ref().unwrap();
    assert_eq!(model.level.as_ref().unwrap().value, Some(2500));
    assert_eq!(model.capacity.as_ref().unwrap().value, Some(4000));
}

#[test]
fn bluetooth_address_list_formatting_and_rule() {
    let a = BtAddr { octets: [0xAA, 0xBB, 0xCC, 0xDD, 0xEE, 0xFF] };
    assert_eq!(a.to_display_string(), "AA:BB:CC:DD:EE:FF");
    let b = BtAddr { octets: [0x01, 0x23, 0x45, 0x67, 0x89, 0x0F] };
    let list = BluetoothAddressList(Some(vec![a, b]));
    assert_eq!(list.to_string_internal(), "AA:BB:CC:DD:EE:FF,01:23:45:67:89:0F");
    assert_eq!(BluetoothAddressList(None).to_string_internal(), "");
    assert!(list.is_valid());
    // The wildcard may stand alone but not next to other addresses.
    assert!(BluetoothAddressList(Some(vec![BtAddr::any()])).is_valid());
    assert!(!BluetoothAddressList(Some(vec![BtAddr::any(), a])).is_valid());
}
