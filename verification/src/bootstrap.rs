//! The Bluetooth bootstrap: the five-message dialogue that hands the phone
//! the Wi-Fi credentials and the TCP endpoint, and the decisions around it —
//! the adapter alias, which paired devices are worth connecting to, the
//! retry backoff, and how a connect error is read.  The RFCOMM and adapter
//! I/O lives outside the crate; these functions say what to send and what
//! each received message means.

use vstd::prelude::*;

use crate::config::WifiConfig;
use crate::ids::{WIFI_CONNECT_STATUS, WIFI_INFO_REQUEST, WIFI_START_RESPONSE};
use crate::wifimsg::{
    info_response_frame, spec_bt_frame, spec_encode_wifi_info, spec_encode_wifi_start,
    start_request_frame, MAX_BOOTSTRAP_STR,
};

verus! {

/// RFCOMM channel of the wireless Android Auto profile.
pub const RFCOMM_CHANNEL: u8 = 8;

/// Service UUID of the wireless Android Auto profile.
pub const AAWG_PROFILE_UUID: u128 = 0x4de17a0052cb11e6bdf40800200c9a66;

/// Service UUID of the headset profile (headset side).
pub const HSP_HS_UUID: u128 = 0x0000110800001000800000805f9b34fb;

/// Service UUID of the headset profile (audio gateway side).
pub const HSP_AG_UUID: u128 = 0x0000111200001000800000805f9b34fb;

/// Service UUID advertised by AV remote control targets.
pub const AV_REMOTE_CONTROL_TARGET_UUID: u128 = 0x0000110c00001000800000805f9b34fb;

/// Service UUID advertised by AV remote controls.
pub const AV_REMOTE_CONTROL_UUID: u128 = 0x00110e00001000800000805f9b34fb;

/// Where the dialogue stands.
#[derive(Clone, Copy, PartialEq, Eq, Structural, Debug)]
pub enum BootstrapState {
    /// The start request has gone out; the phone's info request is awaited.
    AwaitInfoRequest,
    /// The info response has gone out; the phone's start response is awaited.
    AwaitStartResponse,
    /// The phone's connect status is awaited.
    AwaitConnectStatus,
    /// The phone reported a successful Wi-Fi connection.
    Done,
    /// The phone could not join the access point.
    Failed,
}

/// One step of the dialogue: what to send next, whether the received message
/// carried an unexpected id, and where the dialogue now stands.
pub struct BootstrapStep {
    pub send: Option<Vec<u8>>,
    pub unexpected_id: bool,
    pub state: BootstrapState,
}

/// The message id each waiting state expects.
pub open spec fn spec_expected_id(state: BootstrapState) -> u16 {
    match state {
        BootstrapState::AwaitInfoRequest => WIFI_INFO_REQUEST,
        BootstrapState::AwaitStartResponse => WIFI_START_RESPONSE,
        _ => WIFI_CONNECT_STATUS,
    }
}

/// Whether a connect-status payload reports failure: at least two bytes and
/// a nonzero second byte.
pub open spec fn spec_status_fails(payload: Seq<u8>) -> bool {
    payload.len() >= 2 && payload[1] != 0
}

/// The state after receiving a message while in `state`.  A wrong message id
/// is tolerated everywhere; only a connect status with a nonzero status byte
/// ends the dialogue in failure.
pub open spec fn spec_bootstrap_next(state: BootstrapState, payload: Seq<u8>) -> BootstrapState {
    match state {
        BootstrapState::AwaitInfoRequest => BootstrapState::AwaitStartResponse,
        BootstrapState::AwaitStartResponse => BootstrapState::AwaitConnectStatus,
        BootstrapState::AwaitConnectStatus => if spec_status_fails(payload) {
            BootstrapState::Failed
        } else {
            BootstrapState::Done
        },
        s => s,
    }
}

/// Runs the proxy's side of the five-message dialogue over any byte stream.
pub struct Bootstrap {
    pub state: BootstrapState,
}

impl Bootstrap {
    /// Opens the dialogue: the `WifiStartRequest` frame to send, and the
    /// machine awaiting the phone's info request.
    pub fn start(cfg: &WifiConfig) -> (r: (Bootstrap, Vec<u8>))
        requires
            cfg.ip_addr@.len() <= MAX_BOOTSTRAP_STR,
        ensures
            r.0.state == BootstrapState::AwaitInfoRequest,
            r.1@ == spec_bt_frame(
                crate::ids::WIFI_START_REQUEST,
                spec_encode_wifi_start(cfg.ip_addr@, cfg.port),
            ),
    {
        let frame = start_request_frame(cfg);
        (Bootstrap { state: BootstrapState::AwaitInfoRequest }, frame)
    }

    /// Feeds one received message (its id and body) into the dialogue.  The
    /// step says what to send in reply — the `WifiInfoResponse` after the
    /// phone's info request — whether the id was the expected one, and the
    /// new state.
    pub fn on_message(&mut self, cfg: &WifiConfig, id: u16, payload: &[u8]) -> (r: BootstrapStep)
        requires
            cfg.ssid@.len() <= MAX_BOOTSTRAP_STR,
            cfg.wpa_key@.len() <= MAX_BOOTSTRAP_STR,
            cfg.bssid@.len() <= MAX_BOOTSTRAP_STR,
        ensures
            final(self).state == spec_bootstrap_next(old(self).state, payload@),
            r.state == final(self).state,
            r.unexpected_id == (id != spec_expected_id(old(self).state)),
            match r.send {
                Some(frame) => old(self).state == BootstrapState::AwaitInfoRequest && frame@
                    == spec_bt_frame(
                    crate::ids::WIFI_INFO_RESPONSE,
                    spec_encode_wifi_info(cfg.ssid@, cfg.wpa_key@, cfg.bssid@),
                ),
                None => old(self).state != BootstrapState::AwaitInfoRequest,
            },
    {
        let expected = match self.state {
            BootstrapState::AwaitInfoRequest => WIFI_INFO_REQUEST,
            BootstrapState::AwaitStartResponse => WIFI_START_RESPONSE,
            _ => WIFI_CONNECT_STATUS,
        };
        let unexpected_id = id != expected;
        match self.state {
            BootstrapState::AwaitInfoRequest => {
                self.state = BootstrapState::AwaitStartResponse;
                let frame = info_response_frame(cfg);
                BootstrapStep { send: Some(frame), unexpected_id, state: self.state }
            },
            BootstrapState::AwaitStartResponse => {
                self.state = BootstrapState::AwaitConnectStatus;
                BootstrapStep { send: None, unexpected_id, state: self.state }
            },
            BootstrapState::AwaitConnectStatus => {
                if payload.len() >= 2 && payload[1] != 0 {
                    self.state = BootstrapState::Failed;
                } else {
                    self.state = BootstrapState::Done;
                }
                BootstrapStep { send: None, unexpected_id, state: self.state }
            },
            _ => BootstrapStep { send: None, unexpected_id, state: self.state },
        }
    }
}

/// The bytes of the identity name, the stem of the default alias and SSID.
pub open spec fn spec_identity_bytes() -> Seq<u8> {
    seq![0x61u8, 0x61u8, 0x2Du8, 0x70u8, 0x72u8, 0x6Fu8, 0x78u8, 0x79u8]
}

fn identity_bytes() -> (r: Vec<u8>)
    ensures
        r@ == spec_identity_bytes(),
{
    let mut r: Vec<u8> = Vec::new();
    r.push(0x61);
    r.push(0x61);
    r.push(0x2D);
    r.push(0x70);
    r.push(0x72);
    r.push(0x6F);
    r.push(0x78);
    r.push(0x79);
    proof {
        assert(r@ =~= spec_identity_bytes());
    }
    r
}

/// Whether a byte counts as trailing noise in the serial-number file: a NUL
/// or ASCII whitespace.
pub open spec fn spec_is_trim_byte(b: u8) -> bool {
    b == 0 || b == 0x20 || b == 0x09 || b == 0x0A || b == 0x0D
}

/// The contents with trailing NULs and whitespace removed.
pub open spec fn spec_trim_end(s: Seq<u8>) -> Seq<u8>
    decreases s.len(),
{
    if s.len() == 0 {
        s
    } else if spec_is_trim_byte(s[s.len() - 1]) {
        spec_trim_end(s.take(s.len() - 1))
    } else {
        s
    }
}

/// The serial-number suffix: the last six bytes of the trimmed file
/// contents, empty when fewer than six remain.
pub open spec fn spec_serial_suffix(contents: Seq<u8>) -> Seq<u8> {
    let t = spec_trim_end(contents);
    if t.len() >= 6 {
        t.skip(t.len() - 6)
    } else {
        Seq::empty()
    }
}

/// Extracts the serial-number suffix from the serial-number file contents.
pub fn serial_suffix(contents: &[u8]) -> (r: Vec<u8>)
    ensures
        r@ == spec_serial_suffix(contents@),
{
    let mut end: usize = contents.len();
    proof {
        assert(contents@.take(contents@.len() as int) =~= contents@);
    }
    while end > 0 && (contents[end - 1] == 0 || contents[end - 1] == 0x20 || contents[end - 1]
        == 0x09 || contents[end - 1] == 0x0A || contents[end - 1] == 0x0D)
        invariant
            end <= contents@.len(),
            spec_trim_end(contents@) == spec_trim_end(contents@.take(end as int)),
        decreases end,
    {
        proof {
            assert(contents@.take(end as int).take(end - 1 as int) =~= contents@.take(
                end - 1 as int,
            ));
        }
        end = end - 1;
    }
    proof {
        if end > 0 {
            assert(spec_trim_end(contents@.take(end as int)) == contents@.take(end as int));
        } else {
            assert(contents@.take(0) =~= Seq::<u8>::empty());
        }
    }
    if end >= 6 {
        let r = crate::proto::slice_range_to_vec(contents, end - 6, end);
        proof {
            assert(contents@.subrange(end - 6, end as int) =~= spec_trim_end(contents@).skip(
                spec_trim_end(contents@).len() - 6,
            ));
        }
        r
    } else {
        Vec::new()
    }
}

/// The default Bluetooth alias: the identity name, and where the serial
/// number file was readable, a dash and its six-byte suffix.
pub open spec fn spec_default_alias(serial_contents: Option<Seq<u8>>) -> Seq<u8> {
    match serial_contents {
        Some(c) => spec_identity_bytes() + seq![0x2Du8] + spec_serial_suffix(c),
        None => spec_identity_bytes(),
    }
}

/// Builds the default Bluetooth alias from the serial-number file contents,
/// when they could be read.
pub fn default_alias(serial_contents: Option<&[u8]>) -> (r: Vec<u8>)
    ensures
        r@ == spec_default_alias(
            match serial_contents {
                Some(c) => Some(c@),
                None => None,
            },
        ),
{
    let mut r = identity_bytes();
    match serial_contents {
        Some(c) => {
            r.push(0x2D);
            let mut suffix = serial_suffix(c);
            r.append(&mut suffix);
            proof {
                assert(r@ =~= spec_identity_bytes() + seq![0x2Du8] + spec_serial_suffix(c@));
            }
            r
        },
        None => r,
    }
}

/// Whether a paired device looks like an Android Auto phone: it advertises
/// both AV remote control UUIDs.
pub fn device_supports_android_auto(uuids: &Vec<u128>) -> (r: bool)
    ensures
        r == (uuids@.contains(AV_REMOTE_CONTROL_TARGET_UUID) && uuids@.contains(
            AV_REMOTE_CONTROL_UUID,
        )),
{
    let mut has_target = false;
    let mut has_control = false;
    let mut k: usize = 0;
    while k < uuids.len()
        invariant
            k <= uuids@.len(),
            has_target == exists|j: int|
                0 <= j < k && uuids@[j] == AV_REMOTE_CONTROL_TARGET_UUID,
            has_control == exists|j: int| 0 <= j < k && uuids@[j] == AV_REMOTE_CONTROL_UUID,
        decreases uuids@.len() - k,
    {
        if uuids[k] == AV_REMOTE_CONTROL_TARGET_UUID {
            has_target = true;
        }
        if uuids[k] == AV_REMOTE_CONTROL_UUID {
            has_control = true;
        }
        k = k + 1;
    }
    has_target && has_control
}

/// First retry delay of the outbound connect task, in milliseconds.
pub const BACKOFF_MIN_MS: u64 = 1000;

/// Largest retry delay of the outbound connect task, in milliseconds.
pub const BACKOFF_MAX_MS: u64 = 15000;

/// The delay after a failed outbound connect attempt: double the last one,
/// capped at the maximum.
pub fn next_backoff_ms(current: u64) -> (r: u64)
    requires
        BACKOFF_MIN_MS <= current <= BACKOFF_MAX_MS,
    ensures
        r as int == if current as int * 2 <= BACKOFF_MAX_MS as int {
            current as int * 2
        } else {
            BACKOFF_MAX_MS as int
        },
        BACKOFF_MIN_MS <= r <= BACKOFF_MAX_MS,
{
    if current <= BACKOFF_MAX_MS / 2 {
        current * 2
    } else {
        BACKOFF_MAX_MS
    }
}

/// How an outbound connect error is treated.
#[derive(Clone, Copy, PartialEq, Eq, Structural, Debug)]
pub enum ConnectErrorClass {
    /// A page timeout or a cancelled connection: warn and retry.
    RetryLater,
    /// Any other coded error: the link is in fact up, wait for the profile.
    TreatConnected,
    /// No code could be read from the text: warn.
    Unknown,
}

/// The error code: the text after the first colon, with surrounding ASCII
/// blanks removed.
pub open spec fn spec_error_code(msg: Seq<u8>) -> Option<Seq<u8>> {
    let i = crate::rewriter::first_where(msg, |b: u8| b == 0x3A);
    if i == -1 {
        None
    } else {
        Some(spec_trim_blank(msg.skip(i + 1)))
    }
}

/// Blanks trimmed from both ends.
pub open spec fn spec_trim_blank(s: Seq<u8>) -> Seq<u8> {
    spec_trim_start(spec_trim_end_blank(s))
}

pub open spec fn spec_trim_end_blank(s: Seq<u8>) -> Seq<u8>
    decreases s.len(),
{
    if s.len() == 0 {
        s
    } else if s[s.len() - 1] == 0x20 {
        spec_trim_end_blank(s.take(s.len() - 1))
    } else {
        s
    }
}

pub open spec fn spec_trim_start(s: Seq<u8>) -> Seq<u8>
    decreases s.len(),
{
    if s.len() == 0 {
        s
    } else if s[0] == 0x20 {
        spec_trim_start(s.skip(1))
    } else {
        s
    }
}

/// The bytes of `"br-connection-page-timeout"`.
pub open spec fn spec_page_timeout_code() -> Seq<u8> {
    seq![
        0x62u8, 0x72u8, 0x2Du8, 0x63u8, 0x6Fu8, 0x6Eu8, 0x6Eu8, 0x65u8, 0x63u8, 0x74u8, 0x69u8,
        0x6Fu8, 0x6Eu8, 0x2Du8, 0x70u8, 0x61u8, 0x67u8, 0x65u8, 0x2Du8, 0x74u8, 0x69u8, 0x6Du8,
        0x65u8, 0x6Fu8, 0x75u8, 0x74u8,
    ]
}

/// The bytes of `"br-connection-canceled"`.
pub open spec fn spec_canceled_code() -> Seq<u8> {
    seq![
        0x62u8, 0x72u8, 0x2Du8, 0x63u8, 0x6Fu8, 0x6Eu8, 0x6Eu8, 0x65u8, 0x63u8, 0x74u8, 0x69u8,
        0x6Fu8, 0x6Eu8, 0x2Du8, 0x63u8, 0x61u8, 0x6Eu8, 0x63u8, 0x65u8, 0x6Cu8, 0x65u8, 0x64u8,
    ]
}

/// How the proxy treats the text of an outbound connect error, as the
/// dongle firmware does: a page timeout or cancellation is retried, any other
/// coded error means the link came up anyway, and text without a code is
/// only logged.
pub open spec fn spec_classify_connect_error(msg: Seq<u8>) -> ConnectErrorClass {
    match spec_error_code(msg) {
        None => ConnectErrorClass::Unknown,
        Some(code) => if code == spec_page_timeout_code() || code == spec_canceled_code() {
            ConnectErrorClass::RetryLater
        } else {
            ConnectErrorClass::TreatConnected
        },
    }
}

fn page_timeout_code() -> (r: Vec<u8>)
    ensures
        r@ == spec_page_timeout_code(),
{
    let mut r: Vec<u8> = Vec::new();
    r.push(0x62);
    r.push(0x72);
    r.push(0x2D);
    r.push(0x63);
    r.push(0x6F);
    r.push(0x6E);
    r.push(0x6E);
    r.push(0x65);
    r.push(0x63);
    r.push(0x74);
    r.push(0x69);
    r.push(0x6F);
    r.push(0x6E);
    r.push(0x2D);
    r.push(0x70);
    r.push(0x61);
    r.push(0x67);
    r.push(0x65);
    r.push(0x2D);
    r.push(0x74);
    r.push(0x69);
    r.push(0x6D);
    r.push(0x65);
    r.push(0x6F);
    r.push(0x75);
    r.push(0x74);
    proof {
        assert(r@ =~= spec_page_timeout_code());
    }
    r
}

fn canceled_code() -> (r: Vec<u8>)
    ensures
        r@ == spec_canceled_code(),
{
    let mut r: Vec<u8> = Vec::new();
    r.push(0x62);
    r.push(0x72);
    r.push(0x2D);
    r.push(0x63);
    r.push(0x6F);
    r.push(0x6E);
    r.push(0x6E);
    r.push(0x65);
    r.push(0x63);
    r.push(0x74);
    r.push(0x69);
    r.push(0x6F);
    r.push(0x6E);
    r.push(0x2D);
    r.push(0x63);
    r.push(0x61);
    r.push(0x6E);
    r.push(0x63);
    r.push(0x65);
    r.push(0x6C);
    r.push(0x65);
    r.push(0x64);
    proof {
        assert(r@ =~= spec_canceled_code());
    }
    r
}

/// Classifies an outbound connect error from its text, as
/// `spec_classify_connect_error` describes.
#[verifier::loop_isolation(false)]
pub fn classify_connect_error(msg: &[u8]) -> (r: ConnectErrorClass)
    ensures
        r == spec_classify_connect_error(msg@),
{
    let ghost p = |b: u8| b == 0x3A;
    let mut k: usize = 0;
    while k < msg.len() && msg[k] != 0x3A
        invariant
            k <= msg@.len(),
            forall|j: int| 0 <= j < k ==> !p(#[trigger] msg@[j]),
        decreases msg@.len() - k,
    {
        k = k + 1;
    }
    let colon: Option<usize> = if k < msg.len() {
        proof {
            crate::rewriter::lemma_first_where_is(msg@, p, k as int);
        }
        Some(k)
    } else {
        None
    };
    match colon {
        None => {
            proof {
                crate::rewriter::lemma_first_where_none(msg@, p);
            }
            ConnectErrorClass::Unknown
        },
        Some(i) => {
            // Trim ASCII blanks off both ends of the text after the colon.
            let mut start: usize = i + 1;
            let mut end: usize = msg.len();
            let ghost tail = msg@.skip(i + 1);
            while end > start && msg[end - 1] == 0x20
                invariant
                    i + 1 <= start <= end <= msg@.len(),
                    start == i + 1,
                    spec_trim_end_blank(tail) == spec_trim_end_blank(
                        msg@.subrange(start as int, end as int),
                    ),
                decreases end,
            {
                proof {
                    let cur = msg@.subrange(start as int, end as int);
                    assert(cur.take(cur.len() - 1) =~= msg@.subrange(start as int, end - 1));
                }
                end = end - 1;
            }
            proof {
                let cur = msg@.subrange(start as int, end as int);
                if end > start {
                    assert(spec_trim_end_blank(cur) == cur);
                } else {
                    assert(cur =~= Seq::<u8>::empty());
                    assert(spec_trim_end_blank(cur) == cur);
                }
            }
            while start < end && msg[start] == 0x20
                invariant
                    i + 1 <= start <= end <= msg@.len(),
                    spec_trim_blank(tail) == spec_trim_start(
                        msg@.subrange(start as int, end as int),
                    ),
                decreases end - start,
            {
                proof {
                    let cur = msg@.subrange(start as int, end as int);
                    assert(cur.skip(1) =~= msg@.subrange(start + 1, end as int));
                }
                start = start + 1;
            }
            proof {
                let cur = msg@.subrange(start as int, end as int);
                if start < end {
                    assert(spec_trim_start(cur) == cur);
                } else {
                    assert(cur =~= Seq::<u8>::empty());
                    assert(spec_trim_start(cur) == cur);
                }
                assert(spec_trim_blank(tail) == msg@.subrange(start as int, end as int));
            }
            let code = crate::proto::slice_range_to_vec(msg, start, end);
            let pt = page_timeout_code();
            let cc = canceled_code();
            if crate::proto::slice_eq(code.as_slice(), pt.as_slice()) || crate::proto::slice_eq(
                code.as_slice(),
                cc.as_slice(),
            ) {
                ConnectErrorClass::RetryLater
            } else {
                ConnectErrorClass::TreatConnected
            }
        },
    }
}

} // verus!
