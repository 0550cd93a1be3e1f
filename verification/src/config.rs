//! The configuration snapshot a session runs with, and the small value types
//! it carries.  The file and HTTP plumbing that fills it lives outside the
//! crate; everything here is plain data and the pure logic on it.

use vstd::prelude::*;

verus! {

/// Bluetooth alias and SSID stem of the device.
pub const IDENTITY_NAME: &'static str = "aa-proxy";

pub const TCP_SERVER_PORT: u16 = 5288;
pub const TCP_DHU_PORT: u16 = 5277;

/// An action requested from outside the session: reconnect the phone, reboot
/// the device, or stop reconnecting until the user asks again.
#[derive(Clone, Copy, PartialEq, Eq, Structural, Debug)]
pub enum Action {
    Reconnect,
    Reboot,
    Stop,
}

/// A Bluetooth device address.
#[derive(Clone, Copy, PartialEq, Eq, Debug)]
pub struct BtAddr {
    pub octets: [u8; 6],
}

impl BtAddr {
    /// The all-zero wildcard address, meaning "any paired device".
    pub fn any() -> (r: BtAddr)
        ensures
            r.octets@ =~= seq![0u8, 0u8, 0u8, 0u8, 0u8, 0u8],
    {
        BtAddr { octets: [0, 0, 0, 0, 0, 0] }
    }

    /// Whether this is the wildcard address.
    pub fn is_any(&self) -> (r: bool)
        ensures
            r == (self.octets@ =~= seq![0u8, 0u8, 0u8, 0u8, 0u8, 0u8]),
    {
        let r = self.octets[0] == 0 && self.octets[1] == 0 && self.octets[2] == 0
            && self.octets[3] == 0 && self.octets[4] == 0 && self.octets[5] == 0;
        proof {
            if r {
                assert(self.octets@ =~= seq![0u8, 0u8, 0u8, 0u8, 0u8, 0u8]);
            }
        }
        r
    }
}

/// How much of each packet the debug log shows.
#[derive(Clone, Copy, PartialEq, Eq, Structural, Debug)]
pub enum HexdumpLevel {
    Disabled,
    DecryptedInput,
    RawInput,
    DecryptedOutput,
    RawOutput,
    All,
}

impl HexdumpLevel {
    /// Position in the level order, `Disabled` lowest.
    pub open spec fn spec_rank(self) -> u8 {
        match self {
            HexdumpLevel::Disabled => 0,
            HexdumpLevel::DecryptedInput => 1,
            HexdumpLevel::RawInput => 2,
            HexdumpLevel::DecryptedOutput => 3,
            HexdumpLevel::RawOutput => 4,
            HexdumpLevel::All => 5,
        }
    }

    pub fn rank(self) -> (r: u8)
        ensures
            r == self.spec_rank(),
    {
        match self {
            HexdumpLevel::Disabled => 0,
            HexdumpLevel::DecryptedInput => 1,
            HexdumpLevel::RawInput => 2,
            HexdumpLevel::DecryptedOutput => 3,
            HexdumpLevel::RawOutput => 4,
            HexdumpLevel::All => 5,
        }
    }

    /// Whether a dump requested at level `self` covers a packet offered at
    /// level `other`.
    pub fn covers(self, other: HexdumpLevel) -> (r: bool)
        ensures
            r == (self.spec_rank() >= other.spec_rank()),
    {
        self.rank() >= other.rank()
    }
}

/// A USB vendor/product filter.  A zero component means "any".
#[derive(Clone, Copy, PartialEq, Eq, Structural, Debug)]
pub struct UsbId {
    pub vid: u16,
    pub pid: u16,
}

/// Whether a USB device with the given vendor and product ids passes the
/// optional `wired` filter: both components must match when both are set,
/// one when one is set, and everything passes without a filter.
pub fn usb_id_matches(wired: &Option<UsbId>, vid: u16, pid: u16) -> (r: bool)
    ensures
        r == match *wired {
            Some(id) => {
                if id.vid > 0 && id.pid > 0 {
                    vid == id.vid && pid == id.pid
                } else if id.pid > 0 {
                    pid == id.pid
                } else if id.vid > 0 {
                    vid == id.vid
                } else {
                    true
                }
            },
            None => true,
        },
{
    match wired {
        Some(id) => {
            if id.vid > 0 && id.pid > 0 {
                vid == id.vid && pid == id.pid
            } else if id.pid > 0 && id.vid == 0 {
                pid == id.pid
            } else if id.vid > 0 && id.pid == 0 {
                vid == id.vid
            } else {
                true
            }
        },
        None => true,
    }
}

/// The EV connector types the head unit should advertise.
#[derive(Clone, Copy, PartialEq, Eq, Structural, Debug)]
pub enum EvConnectorType {
    J1772,
    Mennekes,
    Chademo,
    Combo1,
    Combo2,
    Tesla,
    Gbt,
}

impl EvConnectorType {
    /// The protocol code of the connector type.
    pub open spec fn spec_code(self) -> u32 {
        match self {
            EvConnectorType::J1772 => 1,
            EvConnectorType::Mennekes => 2,
            EvConnectorType::Chademo => 3,
            EvConnectorType::Combo1 => 4,
            EvConnectorType::Combo2 => 5,
            EvConnectorType::Tesla => 6,
            EvConnectorType::Gbt => 7,
        }
    }

    pub fn code(self) -> (r: u32)
        ensures
            r == self.spec_code(),
    {
        match self {
            EvConnectorType::J1772 => 1,
            EvConnectorType::Mennekes => 2,
            EvConnectorType::Chademo => 3,
            EvConnectorType::Combo1 => 4,
            EvConnectorType::Combo2 => 5,
            EvConnectorType::Tesla => 6,
            EvConnectorType::Gbt => 7,
        }
    }

    /// The configuration name of the connector type.
    pub open spec fn spec_name(self) -> Seq<char> {
        match self {
            EvConnectorType::J1772 => "EV_CONNECTOR_TYPE_J1772"@,
            EvConnectorType::Mennekes => "EV_CONNECTOR_TYPE_MENNEKES"@,
            EvConnectorType::Chademo => "EV_CONNECTOR_TYPE_CHADEMO"@,
            EvConnectorType::Combo1 => "EV_CONNECTOR_TYPE_COMBO_1"@,
            EvConnectorType::Combo2 => "EV_CONNECTOR_TYPE_COMBO_2"@,
            EvConnectorType::Tesla => "EV_CONNECTOR_TYPE_TESLA"@,
            EvConnectorType::Gbt => "EV_CONNECTOR_TYPE_GBT"@,
        }
    }

    pub fn name(self) -> (r: &'static str)
        ensures
            r@ == self.spec_name(),
    {
        match self {
            EvConnectorType::J1772 => "EV_CONNECTOR_TYPE_J1772",
            EvConnectorType::Mennekes => "EV_CONNECTOR_TYPE_MENNEKES",
            EvConnectorType::Chademo => "EV_CONNECTOR_TYPE_CHADEMO",
            EvConnectorType::Combo1 => "EV_CONNECTOR_TYPE_COMBO_1",
            EvConnectorType::Combo2 => "EV_CONNECTOR_TYPE_COMBO_2",
            EvConnectorType::Tesla => "EV_CONNECTOR_TYPE_TESLA",
            EvConnectorType::Gbt => "EV_CONNECTOR_TYPE_GBT",
        }
    }
}

/// Relies on std's `String::push_str`: appends the characters of `t` to `s`.
#[verifier::external_body]
fn push_str(s: &mut String, t: &str)
    ensures
        final(s)@ == old(s)@ + t@,
{
    s.push_str(t)
}

/// The configured EV connector type list; `None` means not configured.
#[derive(Clone, PartialEq, Eq, Debug)]
pub struct EvConnectorTypes(pub Option<Vec<EvConnectorType>>);

/// The names of `ts` joined with commas.
pub open spec fn spec_joined_names(ts: Seq<EvConnectorType>) -> Seq<char>
    decreases ts.len(),
{
    if ts.len() == 0 {
        Seq::empty()
    } else if ts.len() == 1 {
        ts[0].spec_name()
    } else {
        ts[0].spec_name() + ","@ + spec_joined_names(ts.skip(1))
    }
}

impl EvConnectorTypes {
    /// The configured names joined with commas; empty when not configured.
    pub fn to_string_internal(&self) -> (r: String)
        ensures
            r@ == match self.0 {
                Some(ts) => spec_joined_names(ts@),
                None => Seq::<char>::empty(),
            },
    {
        let mut r = String::new();
        match &self.0 {
            None => r,
            Some(ts) => {
                let ghost vs = ts@;
                proof {
                    assert(r@ =~= Seq::<char>::empty());
                    if vs.len() == 0 {
                        assert(r@ == spec_joined_names(vs));
                    }
                }
                let mut k: usize = 0;
                while k < ts.len()
                    invariant
                        k <= vs.len(),
                        vs == ts@,
                        k == 0 ==> r@ == Seq::<char>::empty(),
                        0 < k < vs.len() ==> r@ + ","@ + spec_joined_names(vs.skip(k as int))
                            == spec_joined_names(vs),
                        k == vs.len() ==> r@ == spec_joined_names(vs),
                    decreases vs.len() - k,
                {
                    let ghost r0 = r@;
                    if k > 0 {
                        push_str(&mut r, ",");
                    }
                    push_str(&mut r, ts[k].name());
                    proof {
                        let tailk = vs.skip(k as int);
                        assert(tailk[0] == vs[k as int]);
                        assert(tailk.skip(1) =~= vs.skip(k as int + 1));
                        if k == 0 {
                            assert(r@ =~= vs[0].spec_name());
                            if vs.len() == 1 {
                                assert(r@ == spec_joined_names(vs));
                            } else {
                                assert(r@ + ","@ + spec_joined_names(vs.skip(1)) =~= spec_joined_names(vs));
                            }
                        } else {
                            assert(r@ =~= r0 + ","@ + vs[k as int].spec_name());
                            if k as int + 1 == vs.len() {
                                assert(spec_joined_names(tailk) == vs[k as int].spec_name());
                                assert(r@ =~= r0 + ","@ + spec_joined_names(tailk));
                                assert(r@ == spec_joined_names(vs));
                            } else {
                                assert(spec_joined_names(tailk) == vs[k as int].spec_name() + ","@
                                    + spec_joined_names(vs.skip(k as int + 1)));
                                assert(r@ + ","@ + spec_joined_names(vs.skip(k as int + 1)) =~= r0
                                    + ","@ + spec_joined_names(tailk));
                            }
                        }
                    }
                    k = k + 1;
                }
                r
            },
        }
    }
}


/// One hexadecimal digit, upper case.
pub open spec fn spec_hex_digit(n: u8) -> Seq<char> {
    if n == 0 {
        "0"@
    } else if n == 1 {
        "1"@
    } else if n == 2 {
        "2"@
    } else if n == 3 {
        "3"@
    } else if n == 4 {
        "4"@
    } else if n == 5 {
        "5"@
    } else if n == 6 {
        "6"@
    } else if n == 7 {
        "7"@
    } else if n == 8 {
        "8"@
    } else if n == 9 {
        "9"@
    } else if n == 10 {
        "A"@
    } else if n == 11 {
        "B"@
    } else if n == 12 {
        "C"@
    } else if n == 13 {
        "D"@
    } else if n == 14 {
        "E"@
    } else {
        "F"@
    }
}

fn hex_digit(n: u8) -> (r: &'static str)
    requires
        n < 16,
    ensures
        r@ == spec_hex_digit(n),
{
    if n == 0 {
        "0"
    } else if n == 1 {
        "1"
    } else if n == 2 {
        "2"
    } else if n == 3 {
        "3"
    } else if n == 4 {
        "4"
    } else if n == 5 {
        "5"
    } else if n == 6 {
        "6"
    } else if n == 7 {
        "7"
    } else if n == 8 {
        "8"
    } else if n == 9 {
        "9"
    } else if n == 10 {
        "A"
    } else if n == 11 {
        "B"
    } else if n == 12 {
        "C"
    } else if n == 13 {
        "D"
    } else if n == 14 {
        "E"
    } else {
        "F"
    }
}

/// One address octet as two upper-case hexadecimal digits.
pub open spec fn spec_octet_chars(b: u8) -> Seq<char> {
    spec_hex_digit(b / 16) + spec_hex_digit(b % 16)
}

/// A Bluetooth address in its usual written form: six hexadecimal octets
/// separated by colons.
pub open spec fn spec_addr_chars(a: BtAddr) -> Seq<char> {
    spec_octet_chars(a.octets[0]) + ":"@ + spec_octet_chars(a.octets[1]) + ":"@
        + spec_octet_chars(a.octets[2]) + ":"@ + spec_octet_chars(a.octets[3]) + ":"@
        + spec_octet_chars(a.octets[4]) + ":"@ + spec_octet_chars(a.octets[5])
}

impl BtAddr {
    /// Writes the address in its usual colon-separated form.
    pub fn to_display_string(&self) -> (r: String)
        ensures
            r@ == spec_addr_chars(*self),
    {
        let mut r = String::new();
        let mut k: usize = 0;
        proof {
            assert(r@ =~= Seq::<char>::empty());
        }
        while k < 6
            invariant
                k <= 6,
                r@ == spec_addr_prefix(*self, k as int),
            decreases 6 - k,
        {
            let ghost r0 = r@;
            if k > 0 {
                push_str(&mut r, ":");
            }
            let b = self.octets[k];
            push_str(&mut r, hex_digit(b / 16));
            push_str(&mut r, hex_digit(b % 16));
            proof {
                if k == 0 {
                    assert(r@ =~= spec_octet_chars(self.octets[0]));
                } else {
                    assert(r@ =~= r0 + ":"@ + spec_octet_chars(self.octets[k as int]));
                }
            }
            k = k + 1;
        }
        proof {
            reveal_with_fuel(spec_addr_prefix, 7);
            assert(spec_addr_prefix(*self, 6) =~= spec_addr_chars(*self));
        }
        r
    }
}

/// The first `k` octets of the written address form.
pub open spec fn spec_addr_prefix(a: BtAddr, k: int) -> Seq<char>
    decreases k,
{
    if k <= 0 {
        Seq::empty()
    } else if k == 1 {
        spec_octet_chars(a.octets[0])
    } else {
        spec_addr_prefix(a, k - 1) + ":"@ + spec_octet_chars(a.octets[k - 1])
    }
}

/// The Bluetooth addresses to connect out to; `None` means not configured,
/// and the all-zero wildcard stands for every paired device.
#[derive(Clone, PartialEq, Eq, Debug)]
pub struct BluetoothAddressList(pub Option<Vec<BtAddr>>);

/// The written addresses joined with commas.
pub open spec fn spec_joined_addrs(ts: Seq<BtAddr>) -> Seq<char>
    decreases ts.len(),
{
    if ts.len() == 0 {
        Seq::empty()
    } else if ts.len() == 1 {
        spec_addr_chars(ts[0])
    } else {
        spec_addr_chars(ts[0]) + ","@ + spec_joined_addrs(ts.skip(1))
    }
}

impl BluetoothAddressList {
    /// The configured addresses joined with commas; empty when not
    /// configured.
    pub fn to_string_internal(&self) -> (r: String)
        ensures
            r@ == match self.0 {
                Some(ts) => spec_joined_addrs(ts@),
                None => Seq::<char>::empty(),
            },
    {
        let mut r = String::new();
        match &self.0 {
            None => r,
            Some(ts) => {
                let ghost vs = ts@;
                proof {
                    assert(r@ =~= Seq::<char>::empty());
                    if vs.len() == 0 {
                        assert(r@ == spec_joined_addrs(vs));
                    }
                }
                let mut k: usize = 0;
                while k < ts.len()
                    invariant
                        k <= vs.len(),
                        vs == ts@,
                        k == 0 ==> r@ == Seq::<char>::empty(),
                        0 < k < vs.len() ==> r@ + ","@ + spec_joined_addrs(vs.skip(k as int))
                            == spec_joined_addrs(vs),
                        k == vs.len() ==> r@ == spec_joined_addrs(vs),
                    decreases vs.len() - k,
                {
                    let ghost r0 = r@;
                    if k > 0 {
                        push_str(&mut r, ",");
                    }
                    let part = ts[k].to_display_string();
                    push_str(&mut r, part.as_str());
                    proof {
                        let tailk = vs.skip(k as int);
                        assert(tailk[0] == vs[k as int]);
                        assert(tailk.skip(1) =~= vs.skip(k as int + 1));
                        if k == 0 {
                            assert(r@ =~= spec_addr_chars(vs[0]));
                            if vs.len() == 1 {
                                assert(r@ == spec_joined_addrs(vs));
                            } else {
                                assert(r@ + ","@ + spec_joined_addrs(vs.skip(1)) =~= spec_joined_addrs(vs));
                            }
                        } else {
                            assert(r@ =~= r0 + ","@ + spec_addr_chars(vs[k as int]));
                            if k as int + 1 == vs.len() {
                                assert(spec_joined_addrs(tailk) == spec_addr_chars(vs[k as int]));
                                assert(r@ =~= r0 + ","@ + spec_joined_addrs(tailk));
                                assert(r@ == spec_joined_addrs(vs));
                            } else {
                                assert(spec_joined_addrs(tailk) == spec_addr_chars(vs[k as int])
                                    + ","@ + spec_joined_addrs(vs.skip(k as int + 1)));
                                assert(r@ + ","@ + spec_joined_addrs(vs.skip(k as int + 1)) =~= r0
                                    + ","@ + spec_joined_addrs(tailk));
                            }
                        }
                    }
                    k = k + 1;
                }
                r
            },
        }
    }

    /// Whether the list is acceptable: the wildcard address cannot be
    /// combined with other addresses.
    #[verifier::loop_isolation(false)]
    pub fn is_valid(&self) -> (r: bool)
        ensures
            r == match self.0 {
                Some(ts) => !(ts@.len() > 1 && exists|i: int|
                    0 <= i < ts@.len() && (#[trigger] ts@[i]).octets@ =~= seq![
                        0u8, 0u8, 0u8, 0u8, 0u8, 0u8,
                    ]),
                None => true,
            },
    {
        match &self.0 {
            None => true,
            Some(ts) => {
                if ts.len() <= 1 {
                    return true;
                }
                let mut k: usize = 0;
                while k < ts.len()
                    invariant
                        k <= ts@.len(),
                        forall|i: int|
                            0 <= i < k ==> !((#[trigger] ts@[i]).octets@ =~= seq![
                                0u8, 0u8, 0u8, 0u8, 0u8, 0u8,
                            ]),
                    decreases ts@.len() - k,
                {
                    if ts[k].is_any() {
                        proof {
                            assert((ts@[k as int]).octets@ =~= seq![
                                0u8, 0u8, 0u8, 0u8, 0u8, 0u8,
                            ]);
                        }
                        return false;
                    }
                    k = k + 1;
                }
                true
            },
        }
    }
}

/// The immutable configuration snapshot a session starts with.  Paths are
/// kept as strings; the file reads and writes behind them happen outside the
/// crate.
#[derive(Clone, Debug)]
pub struct AppConfig {
    pub advertise: bool,
    pub dongle_mode: bool,
    pub debug: bool,
    pub hexdump_level: HexdumpLevel,
    pub disable_console_debug: bool,
    pub legacy: bool,
    pub connect: Option<BtAddr>,
    pub logfile: String,
    pub stats_interval: u16,
    pub udc: Option<String>,
    pub iface: String,
    pub hostapd_conf: String,
    pub btalias: Option<String>,
    pub timeout_secs: u16,
    pub webserver: Option<String>,
    pub bt_timeout_secs: u16,
    pub mitm: bool,
    pub dpi: u16,
    pub remove_tap_restriction: bool,
    pub video_in_motion: bool,
    pub disable_media_sink: bool,
    pub disable_tts_sink: bool,
    pub developer_mode: bool,
    pub wired: Option<UsbId>,
    pub dhu: bool,
    pub ev: bool,
    pub remove_bluetooth: bool,
    pub remove_wifi: bool,
    pub change_usb_order: bool,
    pub stop_on_disconnect: bool,
    pub waze_lht_workaround: bool,
    pub ev_battery_logger: Option<String>,
    pub ev_connector_types: Option<EvConnectorTypes>,
    pub enable_ssh: bool,
    pub hw_mode: String,
    pub country_code: String,
    pub channel: u8,
    pub ssid: String,
    pub wpa_passphrase: String,
    pub eth_mode: String,
    pub action_requested: Option<Action>,
}

/// The Wi-Fi access point parameters handed to the phone during bootstrap,
/// already in the byte form the wire messages carry.
#[derive(Clone, PartialEq, Eq, Debug)]
pub struct WifiConfig {
    pub ip_addr: Vec<u8>,
    pub port: u16,
    pub ssid: Vec<u8>,
    pub bssid: Vec<u8>,
    pub wpa_key: Vec<u8>,
}

} // verus!
