//! The Bluetooth bootstrap wire format: each message goes out as a 4-byte
//! header — two big-endian bytes of payload length, two of message id —
//! followed by a protobuf body.  The proxy sends `WifiStartRequest` and
//! `WifiInfoResponse`; the rest it only awaits.

use vstd::prelude::*;

use crate::config::WifiConfig;
use crate::ids::{ACCESS_POINT_DYNAMIC, SECURITY_WPA2_PERSONAL, WIFI_INFO_RESPONSE, WIFI_START_REQUEST};
use crate::proto::{spec_len_field, spec_varint_field, write_len_field, write_varint_field};

verus! {

pub const FIELD_START_IP: u64 = 1;
pub const FIELD_START_PORT: u64 = 2;

pub const FIELD_INFO_SSID: u64 = 1;
pub const FIELD_INFO_KEY: u64 = 2;
pub const FIELD_INFO_BSSID: u64 = 3;
pub const FIELD_INFO_SECURITY: u64 = 4;
pub const FIELD_INFO_AP_TYPE: u64 = 5;

/// Longest string the bootstrap messages accept; keeps every message body
/// within the length field of the frame header.
pub const MAX_BOOTSTRAP_STR: usize = 0x4000;

/// The body of the `WifiStartRequest`: the access point address and port.
pub open spec fn spec_encode_wifi_start(ip: Seq<u8>, port: u16) -> Seq<u8> {
    spec_len_field(FIELD_START_IP, ip) + spec_varint_field(FIELD_START_PORT, port as u64)
}

/// Encodes the `WifiStartRequest` body for a Wi-Fi configuration.
pub fn encode_wifi_start(cfg: &WifiConfig) -> (r: Vec<u8>)
    ensures
        r@ == spec_encode_wifi_start(cfg.ip_addr@, cfg.port),
{
    let mut r: Vec<u8> = Vec::new();
    write_len_field(&mut r, FIELD_START_IP, cfg.ip_addr.as_slice());
    write_varint_field(&mut r, FIELD_START_PORT, cfg.port as u64);
    proof {
        assert(r@ =~= spec_encode_wifi_start(cfg.ip_addr@, cfg.port));
    }
    r
}

/// The body of the `WifiInfoResponse`: SSID, key, BSSID, WPA2-personal
/// security and a dynamic access point.
pub open spec fn spec_encode_wifi_info(ssid: Seq<u8>, key: Seq<u8>, bssid: Seq<u8>) -> Seq<u8> {
    spec_len_field(FIELD_INFO_SSID, ssid) + spec_len_field(FIELD_INFO_KEY, key) + spec_len_field(
        FIELD_INFO_BSSID,
        bssid,
    ) + spec_varint_field(FIELD_INFO_SECURITY, SECURITY_WPA2_PERSONAL as u64) + spec_varint_field(
        FIELD_INFO_AP_TYPE,
        ACCESS_POINT_DYNAMIC as u64,
    )
}

/// Encodes the `WifiInfoResponse` body for a Wi-Fi configuration.
pub fn encode_wifi_info(cfg: &WifiConfig) -> (r: Vec<u8>)
    ensures
        r@ == spec_encode_wifi_info(cfg.ssid@, cfg.wpa_key@, cfg.bssid@),
{
    let mut r: Vec<u8> = Vec::new();
    write_len_field(&mut r, FIELD_INFO_SSID, cfg.ssid.as_slice());
    write_len_field(&mut r, FIELD_INFO_KEY, cfg.wpa_key.as_slice());
    write_len_field(&mut r, FIELD_INFO_BSSID, cfg.bssid.as_slice());
    write_varint_field(&mut r, FIELD_INFO_SECURITY, SECURITY_WPA2_PERSONAL as u64);
    write_varint_field(&mut r, FIELD_INFO_AP_TYPE, ACCESS_POINT_DYNAMIC as u64);
    proof {
        assert(r@ =~= spec_encode_wifi_info(cfg.ssid@, cfg.wpa_key@, cfg.bssid@));
    }
    r
}

/// A bootstrap frame: payload length and message id, big-endian, then the
/// body.
pub open spec fn spec_bt_frame(id: u16, body: Seq<u8>) -> Seq<u8> {
    seq![
        (body.len() as int / 0x100) as u8,
        (body.len() as int % 0x100) as u8,
        (id / 0x100) as u8,
        (id % 0x100) as u8,
    ] + body
}

/// Frames a bootstrap message body under its id.
pub fn bt_frame(id: u16, body: &[u8]) -> (r: Vec<u8>)
    requires
        body@.len() <= 0xFFFF,
    ensures
        r@ == spec_bt_frame(id, body@),
{
    let len = body.len();
    let mut r: Vec<u8> = Vec::new();
    r.push((len / 0x100) as u8);
    r.push((len % 0x100) as u8);
    r.push((id / 0x100) as u8);
    r.push((id % 0x100) as u8);
    r.extend_from_slice(body);
    proof {
        assert(r@ =~= spec_bt_frame(id, body@));
    }
    r
}

/// The length and message id of a bootstrap frame header.
pub open spec fn spec_parse_bt_header(buf: Seq<u8>) -> Option<(u16, u16)> {
    if buf.len() < 4 {
        None
    } else {
        Some(
            (
                (buf[0] as int * 0x100 + buf[1] as int) as u16,
                (buf[2] as int * 0x100 + buf[3] as int) as u16,
            ),
        )
    }
}

/// Reads a bootstrap frame header: the body length and the message id.
pub fn parse_bt_header(buf: &[u8]) -> (r: Option<(u16, u16)>)
    ensures
        r == spec_parse_bt_header(buf@),
{
    if buf.len() < 4 {
        None
    } else {
        Some((buf[0] as u16 * 0x100 + buf[1] as u16, buf[2] as u16 * 0x100 + buf[3] as u16))
    }
}

/// Bootstrap framing round trip: the header of a framed message reads back
/// as the body length and the id, and the body follows it unchanged.
pub proof fn lemma_bt_frame_round_trip(id: u16, body: Seq<u8>)
    requires
        body.len() <= 0xFFFF,
    ensures
        spec_parse_bt_header(spec_bt_frame(id, body)) == Some((body.len() as u16, id)),
        spec_bt_frame(id, body).skip(4) == body,
{
    let f = spec_bt_frame(id, body);
    assert(f[0] as int * 0x100 + f[1] as int == body.len());
    assert(f[2] as int * 0x100 + f[3] as int == id as int);
    assert(f.skip(4) =~= body);
}

/// The complete `WifiStartRequest` frame for a configuration.
pub fn start_request_frame(cfg: &WifiConfig) -> (r: Vec<u8>)
    requires
        cfg.ip_addr@.len() <= MAX_BOOTSTRAP_STR,
    ensures
        r@ == spec_bt_frame(
            WIFI_START_REQUEST,
            spec_encode_wifi_start(cfg.ip_addr@, cfg.port),
        ),
{
    let body = encode_wifi_start(cfg);
    proof {
        crate::proto::lemma_varint_small_len(cfg.ip_addr@.len() as u64);
        crate::proto::lemma_varint_small_len(cfg.port as u64);
        assert(body@.len() <= 0xFFFF);
    }
    bt_frame(WIFI_START_REQUEST, body.as_slice())
}

/// The complete `WifiInfoResponse` frame for a configuration.
pub fn info_response_frame(cfg: &WifiConfig) -> (r: Vec<u8>)
    requires
        cfg.ssid@.len() <= MAX_BOOTSTRAP_STR,
        cfg.wpa_key@.len() <= MAX_BOOTSTRAP_STR,
        cfg.bssid@.len() <= MAX_BOOTSTRAP_STR,
    ensures
        r@ == spec_bt_frame(
            WIFI_INFO_RESPONSE,
            spec_encode_wifi_info(cfg.ssid@, cfg.wpa_key@, cfg.bssid@),
        ),
{
    let body = encode_wifi_info(cfg);
    proof {
        crate::proto::lemma_varint_small_len(cfg.ssid@.len() as u64);
        crate::proto::lemma_varint_small_len(cfg.wpa_key@.len() as u64);
        crate::proto::lemma_varint_small_len(cfg.bssid@.len() as u64);
        assert(body@.len() <= 0xFFFF);
    }
    bt_frame(WIFI_INFO_RESPONSE, body.as_slice())
}

} // verus!
