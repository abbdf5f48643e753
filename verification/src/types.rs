//! Plain data types mirroring the NetworkManager D-Bus API, and the small
//! rules that read them.

use vstd::prelude::*;
use vstd::utf8::*;
use vstd::string::*;
use crate::text::{
    chars_of, decimal, hex_byte, is_control, is_control_char, join, push_decimal, push_hex_byte,
};


verus! {

/// `NM_DEVICE_TYPE_WIFI`.
pub const NM_DEVICE_TYPE_WIFI: u32 = 2;

// ------------------------------------------------------------------ manager state

#[derive(Debug, Clone, Copy, PartialEq, Eq, Structural)]
pub enum NmState {
    Unknown,
    Asleep,
    Disconnected,
    Disconnecting,
    Connecting,
    ConnectedLocal,
    ConnectedSite,
    ConnectedGlobal,
}

impl NmState {
    /// The state NetworkManager's `State` number stands for.
    pub open spec fn from_code(v: u32) -> NmState {
        match v {
            10 => NmState::Asleep,
            20 => NmState::Disconnected,
            30 => NmState::Disconnecting,
            40 => NmState::Connecting,
            50 => NmState::ConnectedLocal,
            60 => NmState::ConnectedSite,
            70 => NmState::ConnectedGlobal,
            _ => NmState::Unknown,
        }
    }

    /// How the state reads on screen.
    pub open spec fn text(self) -> Seq<char> {
        match self {
            NmState::Unknown => "unknown"@,
            NmState::Asleep => "asleep"@,
            NmState::Disconnected => "disconnected"@,
            NmState::Disconnecting => "disconnecting"@,
            NmState::Connecting => "connecting"@,
            NmState::ConnectedLocal => "link-local"@,
            NmState::ConnectedSite => "site-only"@,
            NmState::ConnectedGlobal => "connected"@,
        }
    }

    pub fn to_string(&self) -> (s: String)
        ensures
            s@ == self.text(),
    {
        let t: &str = match self {
            NmState::Unknown => "unknown",
            NmState::Asleep => "asleep",
            NmState::Disconnected => "disconnected",
            NmState::Disconnecting => "disconnecting",
            NmState::Connecting => "connecting",
            NmState::ConnectedLocal => "link-local",
            NmState::ConnectedSite => "site-only",
            NmState::ConnectedGlobal => "connected",
        };
        t.to_string()
    }
}

impl From<u32> for NmState {
    fn from(v: u32) -> (r: Self) {
        match v {
            10 => NmState::Asleep,
            20 => NmState::Disconnected,
            30 => NmState::Disconnecting,
            40 => NmState::Connecting,
            50 => NmState::ConnectedLocal,
            60 => NmState::ConnectedSite,
            70 => NmState::ConnectedGlobal,
            _ => NmState::Unknown,
        }
    }
}

impl vstd::std_specs::convert::FromSpecImpl<u32> for NmState {
    open spec fn obeys_from_spec() -> bool {
        true
    }

    open spec fn from_spec(v: u32) -> Self {
        NmState::from_code(v)
    }
}

#[derive(Debug, Clone, Copy, PartialEq, Eq, Structural)]
pub enum Connectivity {
    Unknown,
    Offline,
    Portal,
    Limited,
    Full,
}

impl Connectivity {
    /// The connectivity NetworkManager's `Connectivity` number stands for.
    pub open spec fn from_code(v: u32) -> Connectivity {
        match v {
            1 => Connectivity::Offline,
            2 => Connectivity::Portal,
            3 => Connectivity::Limited,
            4 => Connectivity::Full,
            _ => Connectivity::Unknown,
        }
    }

    pub open spec fn text(self) -> Seq<char> {
        match self {
            Connectivity::Unknown => "unknown"@,
            Connectivity::Offline => "none"@,
            Connectivity::Portal => "captive portal"@,
            Connectivity::Limited => "limited"@,
            Connectivity::Full => "full"@,
        }
    }

    pub fn to_string(&self) -> (s: String)
        ensures
            s@ == self.text(),
    {
        let t: &str = match self {
            Connectivity::Unknown => "unknown",
            Connectivity::Offline => "none",
            Connectivity::Portal => "captive portal",
            Connectivity::Limited => "limited",
            Connectivity::Full => "full",
        };
        t.to_string()
    }
}

impl From<u32> for Connectivity {
    fn from(v: u32) -> (r: Self) {
        match v {
            1 => Connectivity::Offline,
            2 => Connectivity::Portal,
            3 => Connectivity::Limited,
            4 => Connectivity::Full,
            _ => Connectivity::Unknown,
        }
    }
}

impl vstd::std_specs::convert::FromSpecImpl<u32> for Connectivity {
    open spec fn obeys_from_spec() -> bool {
        true
    }

    open spec fn from_spec(v: u32) -> Self {
        Connectivity::from_code(v)
    }
}

// ------------------------------------------------------------------ device state

#[derive(Debug, Clone, Copy, PartialEq, Eq, Structural)]
pub enum DeviceState {
    Unknown,
    Unmanaged,
    Unavailable,
    Disconnected,
    Prepare,
    Config,
    NeedAuth,
    IpConfig,
    IpCheck,
    Secondaries,
    Activated,
    Deactivating,
    Failed,
}

impl DeviceState {
    /// The state NetworkManager's `Device.State` number stands for.
    pub open spec fn from_code(v: u32) -> DeviceState {
        match v {
            10 => DeviceState::Unmanaged,
            20 => DeviceState::Unavailable,
            30 => DeviceState::Disconnected,
            40 => DeviceState::Prepare,
            50 => DeviceState::Config,
            60 => DeviceState::NeedAuth,
            70 => DeviceState::IpConfig,
            80 => DeviceState::IpCheck,
            90 => DeviceState::Secondaries,
            100 => DeviceState::Activated,
            110 => DeviceState::Deactivating,
            120 => DeviceState::Failed,
            _ => DeviceState::Unknown,
        }
    }

    /// A state on the way into or out of a connection.
    pub open spec fn busy(self) -> bool {
        match self {
            DeviceState::Prepare | DeviceState::Config | DeviceState::NeedAuth
            | DeviceState::IpConfig | DeviceState::IpCheck | DeviceState::Secondaries
            | DeviceState::Deactivating => true,
            _ => false,
        }
    }

    pub fn is_busy(self) -> (b: bool)
        ensures
            b == self.busy(),
    {
        match self {
            DeviceState::Prepare | DeviceState::Config | DeviceState::NeedAuth
            | DeviceState::IpConfig | DeviceState::IpCheck | DeviceState::Secondaries
            | DeviceState::Deactivating => true,
            _ => false,
        }
    }

    pub fn is_connected(self) -> (b: bool)
        ensures
            b == (self == DeviceState::Activated),
    {
        self == DeviceState::Activated
    }

    pub open spec fn text(self) -> Seq<char> {
        match self {
            DeviceState::Unknown => "unknown"@,
            DeviceState::Unmanaged => "unmanaged"@,
            DeviceState::Unavailable => "unavailable"@,
            DeviceState::Disconnected => "disconnected"@,
            DeviceState::Prepare => "preparing"@,
            DeviceState::Config => "configuring"@,
            DeviceState::NeedAuth => "needs auth"@,
            DeviceState::IpConfig => "getting IP"@,
            DeviceState::IpCheck => "checking IP"@,
            DeviceState::Secondaries => "secondaries"@,
            DeviceState::Activated => "connected"@,
            DeviceState::Deactivating => "disconnecting"@,
            DeviceState::Failed => "failed"@,
        }
    }

    pub fn to_string(&self) -> (s: String)
        ensures
            s@ == self.text(),
    {
        let t: &str = match self {
            DeviceState::Unknown => "unknown",
            DeviceState::Unmanaged => "unmanaged",
            DeviceState::Unavailable => "unavailable",
            DeviceState::Disconnected => "disconnected",
            DeviceState::Prepare => "preparing",
            DeviceState::Config => "configuring",
            DeviceState::NeedAuth => "needs auth",
            DeviceState::IpConfig => "getting IP",
            DeviceState::IpCheck => "checking IP",
            DeviceState::Secondaries => "secondaries",
            DeviceState::Activated => "connected",
            DeviceState::Deactivating => "disconnecting",
            DeviceState::Failed => "failed",
        };
        t.to_string()
    }
}

impl From<u32> for DeviceState {
    fn from(v: u32) -> (r: Self) {
        match v {
            10 => DeviceState::Unmanaged,
            20 => DeviceState::Unavailable,
            30 => DeviceState::Disconnected,
            40 => DeviceState::Prepare,
            50 => DeviceState::Config,
            60 => DeviceState::NeedAuth,
            70 => DeviceState::IpConfig,
            80 => DeviceState::IpCheck,
            90 => DeviceState::Secondaries,
            100 => DeviceState::Activated,
            110 => DeviceState::Deactivating,
            120 => DeviceState::Failed,
            _ => DeviceState::Unknown,
        }
    }
}

impl vstd::std_specs::convert::FromSpecImpl<u32> for DeviceState {
    open spec fn obeys_from_spec() -> bool {
        true
    }

    open spec fn from_spec(v: u32) -> Self {
        DeviceState::from_code(v)
    }
}

/// The phrase for a known `NMDeviceStateReason`, if there is one.
pub open spec fn known_reason(v: u32) -> Option<Seq<char>> {
    match v {
        0 => Some("no reason"@),
        1 => Some("unknown error"@),
        2 => Some("device now managed"@),
        3 => Some("device now unmanaged"@),
        4 => Some("configuration failed"@),
        5 => Some("IP configuration unavailable"@),
        6 => Some("IP configuration expired"@),
        7 => Some("no secrets \u{2014} wrong or missing password"@),
        8 => Some("supplicant disconnected"@),
        9 => Some("supplicant configuration failed"@),
        10 => Some("supplicant failed"@),
        11 => Some("supplicant timed out"@),
        15 => Some("DHCP failed to start"@),
        16 => Some("DHCP error"@),
        17 => Some("DHCP failed"@),
        18 => Some("shared connection failed to start"@),
        19 => Some("shared connection failed"@),
        20 => Some("link-local addressing failed to start"@),
        21 => Some("link-local addressing error"@),
        22 => Some("link-local addressing failed"@),
        35 => Some("firmware missing"@),
        36 => Some("device removed"@),
        37 => Some("system is sleeping"@),
        38 => Some("connection profile removed"@),
        39 => Some("disconnected by request"@),
        40 => Some("carrier changed"@),
        41 => Some("existing connection adopted"@),
        42 => Some("supplicant available"@),
        49 => Some("InfiniBand mode"@),
        50 => Some("a dependent connection failed"@),
        53 => Some("SSID not found"@),
        54 => Some("secondary connection failed"@),
        56 => Some("teamd control failed"@),
        60 => Some("superseded by a new activation"@),
        61 => Some("parent device changed"@),
        62 => Some("parent device management changed"@),
        63 => Some("OVSDB failed"@),
        64 => Some("duplicate IP address"@),
        65 => Some("unsupported IP method"@),
        66 => Some("SR-IOV configuration failed"@),
        67 => Some("peer not found"@),
        68 => Some("device handler failed"@),
        69 => Some("unmanaged by default"@),
        70 => Some("unmanaged: external interface is down"@),
        71 => Some("unmanaged: link not initialised"@),
        72 => Some("unmanaged: NetworkManager is quitting"@),
        73 => Some("unmanaged: sleeping"@),
        74 => Some("unmanaged by configuration"@),
        75 => Some("unmanaged by explicit request"@),
        76 => Some("unmanaged by user settings"@),
        77 => Some("unmanaged by udev rule"@),
        _ => None,
    }
}

/// A reason phrased for the status line: the known phrase, or `reason N`.
pub open spec fn reason_text(v: u32) -> Seq<char> {
    match known_reason(v) {
        Some(s) => s,
        None => "reason "@ + decimal(v as nat),
    }
}

/// `NMDeviceStateReason`, phrased for a status line. Values that cannot apply
/// to a Wi-Fi device (modem and GSM failures, mostly) fall through to the
/// number, which is still more use than a blank.
pub fn device_state_reason(v: u32) -> (s: String)
    ensures
        s@ == reason_text(v),
{
    let known: &str = match v {
        0 => "no reason",
        1 => "unknown error",
        2 => "device now managed",
        3 => "device now unmanaged",
        4 => "configuration failed",
        5 => "IP configuration unavailable",
        6 => "IP configuration expired",
        7 => "no secrets \u{2014} wrong or missing password",
        8 => "supplicant disconnected",
        9 => "supplicant configuration failed",
        10 => "supplicant failed",
        11 => "supplicant timed out",
        15 => "DHCP failed to start",
        16 => "DHCP error",
        17 => "DHCP failed",
        18 => "shared connection failed to start",
        19 => "shared connection failed",
        20 => "link-local addressing failed to start",
        21 => "link-local addressing error",
        22 => "link-local addressing failed",
        35 => "firmware missing",
        36 => "device removed",
        37 => "system is sleeping",
        38 => "connection profile removed",
        39 => "disconnected by request",
        40 => "carrier changed",
        41 => "existing connection adopted",
        42 => "supplicant available",
        49 => "InfiniBand mode",
        50 => "a dependent connection failed",
        53 => "SSID not found",
        54 => "secondary connection failed",
        56 => "teamd control failed",
        60 => "superseded by a new activation",
        61 => "parent device changed",
        62 => "parent device management changed",
        63 => "OVSDB failed",
        64 => "duplicate IP address",
        65 => "unsupported IP method",
        66 => "SR-IOV configuration failed",
        67 => "peer not found",
        68 => "device handler failed",
        69 => "unmanaged by default",
        70 => "unmanaged: external interface is down",
        71 => "unmanaged: link not initialised",
        72 => "unmanaged: NetworkManager is quitting",
        73 => "unmanaged: sleeping",
        74 => "unmanaged by configuration",
        75 => "unmanaged by explicit request",
        76 => "unmanaged by user settings",
        77 => "unmanaged by udev rule",
        _ => {
            let mut s = "reason ".to_string();
            push_decimal(&mut s, v as u64);
            return s;
        },
    };
    known.to_string()
}

// ------------------------------------------------------------- active connection

#[derive(Debug, Clone, Copy, PartialEq, Eq, Structural)]
pub enum ActiveState {
    Unknown,
    Activating,
    Activated,
    Deactivating,
    Deactivated,
}

impl ActiveState {
    /// The state `Connection.Active.State` stands for.
    pub open spec fn from_code(v: u32) -> ActiveState {
        match v {
            1 => ActiveState::Activating,
            2 => ActiveState::Activated,
            3 => ActiveState::Deactivating,
            4 => ActiveState::Deactivated,
            _ => ActiveState::Unknown,
        }
    }

    pub open spec fn text(self) -> Seq<char> {
        match self {
            ActiveState::Unknown => "unknown"@,
            ActiveState::Activating => "activating"@,
            ActiveState::Activated => "activated"@,
            ActiveState::Deactivating => "deactivating"@,
            ActiveState::Deactivated => "deactivated"@,
        }
    }

    pub fn to_string(&self) -> (s: String)
        ensures
            s@ == self.text(),
    {
        let t: &str = match self {
            ActiveState::Unknown => "unknown",
            ActiveState::Activating => "activating",
            ActiveState::Activated => "activated",
            ActiveState::Deactivating => "deactivating",
            ActiveState::Deactivated => "deactivated",
        };
        t.to_string()
    }
}

impl From<u32> for ActiveState {
    fn from(v: u32) -> (r: Self) {
        match v {
            1 => ActiveState::Activating,
            2 => ActiveState::Activated,
            3 => ActiveState::Deactivating,
            4 => ActiveState::Deactivated,
            _ => ActiveState::Unknown,
        }
    }
}

impl vstd::std_specs::convert::FromSpecImpl<u32> for ActiveState {
    open spec fn obeys_from_spec() -> bool {
        true
    }

    open spec fn from_spec(v: u32) -> Self {
        ActiveState::from_code(v)
    }
}

// --------------------------------------------------------------------- 802.11 AP

pub const AP_FLAG_PRIVACY: u32 = 0x1;
pub const AP_FLAG_WPS: u32 = 0x2;

pub const SEC_PAIR_WEP40: u32 = 0x1;
pub const SEC_PAIR_WEP104: u32 = 0x2;
pub const SEC_PAIR_TKIP: u32 = 0x4;
pub const SEC_PAIR_CCMP: u32 = 0x8;
pub const SEC_GROUP_WEP40: u32 = 0x10;
pub const SEC_GROUP_WEP104: u32 = 0x20;
pub const SEC_GROUP_TKIP: u32 = 0x40;
pub const SEC_GROUP_CCMP: u32 = 0x80;
pub const SEC_KEY_MGMT_PSK: u32 = 0x100;
pub const SEC_KEY_MGMT_802_1X: u32 = 0x200;
pub const SEC_KEY_MGMT_SAE: u32 = 0x400;
pub const SEC_KEY_MGMT_OWE: u32 = 0x800;
pub const SEC_KEY_MGMT_OWE_TM: u32 = 0x1000;
pub const SEC_KEY_MGMT_EAP_SUITE_B_192: u32 = 0x2000;

/// What we need to know to build a connection profile for a network.
#[derive(Debug, Clone, Copy, PartialEq, Eq, Structural)]
pub enum Security {
    Open,
    Owe,
    Wep,
    WpaPsk,
    Sae,
    Enterprise,
}

impl Security {
    /// The security an AP's flag words call for. Key management is read
    /// strongest-requirement first: 802.1X, then a pre-shared key (which a
    /// WPA2/WPA3 transition network also offers), then SAE on RSN, then OWE;
    /// the privacy bit alone means WEP.
    pub open spec fn of_flags(flags: u32, wpa: u32, rsn: u32) -> Security {
        let both = wpa | rsn;
        if both & (SEC_KEY_MGMT_802_1X | SEC_KEY_MGMT_EAP_SUITE_B_192) != 0 {
            Security::Enterprise
        } else if both & SEC_KEY_MGMT_PSK != 0 {
            Security::WpaPsk
        } else if rsn & SEC_KEY_MGMT_SAE != 0 {
            Security::Sae
        } else if both & (SEC_KEY_MGMT_OWE | SEC_KEY_MGMT_OWE_TM) != 0 {
            Security::Owe
        } else if flags & AP_FLAG_PRIVACY != 0 {
            Security::Wep
        } else {
            Security::Open
        }
    }

    pub fn from_flags(flags: u32, wpa: u32, rsn: u32) -> (s: Self)
        ensures
            s == Security::of_flags(flags, wpa, rsn),
    {
        let both = wpa | rsn;
        if both & (SEC_KEY_MGMT_802_1X | SEC_KEY_MGMT_EAP_SUITE_B_192) != 0 {
            Security::Enterprise
        } else if both & SEC_KEY_MGMT_PSK != 0 {
            Security::WpaPsk
        } else if rsn & SEC_KEY_MGMT_SAE != 0 {
            Security::Sae
        } else if both & (SEC_KEY_MGMT_OWE | SEC_KEY_MGMT_OWE_TM) != 0 {
            Security::Owe
        } else if flags & AP_FLAG_PRIVACY != 0 {
            Security::Wep
        } else {
            Security::Open
        }
    }

    /// Joining asks the user for something: everything but open and OWE.
    pub open spec fn secret_needed(self) -> bool {
        match self {
            Security::Wep | Security::WpaPsk | Security::Sae | Security::Enterprise => true,
            _ => false,
        }
    }

    /// Does joining this network require asking the user for something?
    pub fn needs_secret(self) -> (b: bool)
        ensures
            b == self.secret_needed(),
    {
        match self {
            Security::Wep | Security::WpaPsk | Security::Sae | Security::Enterprise => true,
            _ => false,
        }
    }

    pub open spec fn text(self) -> Seq<char> {
        match self {
            Security::Open => "open"@,
            Security::Owe => "OWE"@,
            Security::Wep => "WEP"@,
            Security::WpaPsk => "WPA2"@,
            Security::Sae => "WPA3"@,
            Security::Enterprise => "802.1X"@,
        }
    }

    pub fn to_string(&self) -> (s: String)
        ensures
            s@ == self.text(),
    {
        let t: &str = match self {
            Security::Open => "open",
            Security::Owe => "OWE",
            Security::Wep => "WEP",
            Security::WpaPsk => "WPA2",
            Security::Sae => "WPA3",
            Security::Enterprise => "802.1X",
        };
        t.to_string()
    }
}

/// The key-management names a flag word carries, in display order.
pub open spec fn key_names(f: u32) -> Seq<Seq<char>> {
    let s0 = Seq::<Seq<char>>::empty();
    let s1 = if f & SEC_KEY_MGMT_PSK != 0 { s0.push("psk"@) } else { s0 };
    let s2 = if f & SEC_KEY_MGMT_SAE != 0 { s1.push("sae"@) } else { s1 };
    let s3 = if f & SEC_KEY_MGMT_802_1X != 0 { s2.push("802.1x"@) } else { s2 };
    let s4 = if f & SEC_KEY_MGMT_EAP_SUITE_B_192 != 0 { s3.push("eap-suite-b"@) } else { s3 };
    if f & (SEC_KEY_MGMT_OWE | SEC_KEY_MGMT_OWE_TM) != 0 { s4.push("owe"@) } else { s4 }
}

/// The cipher names a flag word carries, pairwise and group together.
pub open spec fn cipher_names(f: u32) -> Seq<Seq<char>> {
    let s0 = Seq::<Seq<char>>::empty();
    let s1 = if f & (SEC_PAIR_CCMP | SEC_GROUP_CCMP) != 0 { s0.push("ccmp"@) } else { s0 };
    let s2 = if f & (SEC_PAIR_TKIP | SEC_GROUP_TKIP) != 0 { s1.push("tkip"@) } else { s1 };
    if f & (SEC_PAIR_WEP40 | SEC_GROUP_WEP40 | SEC_PAIR_WEP104 | SEC_GROUP_WEP104) != 0 {
        s2.push("wep"@)
    } else {
        s2
    }
}

/// `keys/ciphers` for one WPA or RSN flag word, or `-` when it names neither.
pub open spec fn sec_flags_text(f: u32) -> Seq<char> {
    if key_names(f).len() == 0 && cipher_names(f).len() == 0 {
        "-"@
    } else {
        join(key_names(f), "+"@) + "/"@ + join(cipher_names(f), "+"@)
    }
}

/// The words of the long security description.
pub open spec fn security_parts(flags: u32, wpa: u32, rsn: u32) -> Seq<Seq<char>> {
    let s0 = Seq::<Seq<char>>::empty();
    let s1 = if wpa != 0 { s0.push("WPA("@ + sec_flags_text(wpa) + ")"@) } else { s0 };
    let s2 = if rsn != 0 { s1.push("RSN("@ + sec_flags_text(rsn) + ")"@) } else { s1 };
    let s3 = if s2.len() == 0 {
        s2.push(if flags & AP_FLAG_PRIVACY != 0 { "WEP"@ } else { "none"@ })
    } else {
        s2
    };
    if flags & AP_FLAG_WPS != 0 { s3.push("WPS"@) } else { s3 }
}

/// Joins owned strings with a separator.
pub fn join_strings(parts: &Vec<String>, sep: &str) -> (r: String)
    ensures
        r@ == join(parts@.map_values(|p: String| p@), sep@),
{
    let ghost views = parts@.map_values(|p: String| p@);
    let mut out = String::new();
    let mut i: usize = 0;
    while i < parts.len()
        invariant
            i <= parts.len(),
            views == parts@.map_values(|p: String| p@),
            out@ == join(views.take(i as int), sep@),
        decreases parts.len() - i,
    {
        proof {
            assert(views.take(i + 1).drop_last() == views.take(i as int));
            assert(views.take(i + 1).last() == parts@[i as int]@);
        }
        if i > 0 {
            out.push_str(sep);
        }
        out.push_str(parts[i].as_str());
        proof {
            if i == 0 {
                assert(views.take(1) == seq![parts@[0]@]);
            }
        }
        i = i + 1;
    }
    proof {
        assert(views.take(parts.len() as int) == views);
    }
    out
}

fn push_part(v: &mut Vec<String>, s: String)
    ensures
        final(v)@.map_values(|p: String| p@) == old(v)@.map_values(|p: String| p@).push(s@),
{
    let ghost s_view = s@;
    v.push(s);
    proof {
        assert(final(v)@.map_values(|p: String| p@) == old(v)@.map_values(|p: String| p@).push(s_view));
    }
}

fn sec_flag_names(f: u32) -> (r: (Vec<String>, Vec<String>))
    ensures
        r.0@.map_values(|p: String| p@) == key_names(f),
        r.1@.map_values(|p: String| p@) == cipher_names(f),
{
    let mut key: Vec<String> = Vec::new();
    proof {
        assert(key@.map_values(|p: String| p@) == Seq::<Seq<char>>::empty());
    }
    if f & SEC_KEY_MGMT_PSK != 0 {
        push_part(&mut key, "psk".to_string());
    }
    if f & SEC_KEY_MGMT_SAE != 0 {
        push_part(&mut key, "sae".to_string());
    }
    if f & SEC_KEY_MGMT_802_1X != 0 {
        push_part(&mut key, "802.1x".to_string());
    }
    if f & SEC_KEY_MGMT_EAP_SUITE_B_192 != 0 {
        push_part(&mut key, "eap-suite-b".to_string());
    }
    if f & (SEC_KEY_MGMT_OWE | SEC_KEY_MGMT_OWE_TM) != 0 {
        push_part(&mut key, "owe".to_string());
    }
    let mut ciphers: Vec<String> = Vec::new();
    proof {
        assert(ciphers@.map_values(|p: String| p@) == Seq::<Seq<char>>::empty());
    }
    if f & (SEC_PAIR_CCMP | SEC_GROUP_CCMP) != 0 {
        push_part(&mut ciphers, "ccmp".to_string());
    }
    if f & (SEC_PAIR_TKIP | SEC_GROUP_TKIP) != 0 {
        push_part(&mut ciphers, "tkip".to_string());
    }
    if f & (SEC_PAIR_WEP40 | SEC_GROUP_WEP40 | SEC_PAIR_WEP104 | SEC_GROUP_WEP104) != 0 {
        push_part(&mut ciphers, "wep".to_string());
    }
    (key, ciphers)
}

/// `keys/ciphers` for one flag word.
pub fn describe_sec_flags(f: u32) -> (s: String)
    ensures
        s@ == sec_flags_text(f),
{
    let (key, ciphers) = sec_flag_names(f);
    if key.len() == 0 && ciphers.len() == 0 {
        return "-".to_string();
    }
    let mut s = join_strings(&key, "+");
    s.push_str("/");
    let c = join_strings(&ciphers, "+");
    s.push_str(c.as_str());
    s
}

/// Long-form security description for the details pane.
pub fn describe_security(flags: u32, wpa: u32, rsn: u32) -> (s: String)
    ensures
        s@ == join(security_parts(flags, wpa, rsn), " "@),
{
    let mut parts: Vec<String> = Vec::new();
    proof {
        assert(parts@.map_values(|p: String| p@) == Seq::<Seq<char>>::empty());
    }
    if wpa != 0 {
        let mut p = "WPA(".to_string();
        let inner = describe_sec_flags(wpa);
        p.push_str(inner.as_str());
        p.push_str(")");
        push_part(&mut parts, p);
    }
    if rsn != 0 {
        let mut p = "RSN(".to_string();
        let inner = describe_sec_flags(rsn);
        p.push_str(inner.as_str());
        p.push_str(")");
        push_part(&mut parts, p);
    }
    if parts.len() == 0 {
        let p = if flags & AP_FLAG_PRIVACY != 0 {
            "WEP".to_string()
        } else {
            "none".to_string()
        };
        push_part(&mut parts, p);
    }
    if flags & AP_FLAG_WPS != 0 {
        push_part(&mut parts, "WPS".to_string());
    }
    join_strings(&parts, " ")
}

#[derive(Debug, Clone, Copy, PartialEq, Eq, Structural)]
pub enum ApMode {
    Unknown,
    AdHoc,
    Infra,
    Ap,
    Mesh,
}

impl ApMode {
    /// The mode an `AccessPoint.Mode` or `Device.Wireless.Mode` number stands for.
    pub open spec fn from_code(v: u32) -> ApMode {
        match v {
            1 => ApMode::AdHoc,
            2 => ApMode::Infra,
            3 => ApMode::Ap,
            4 => ApMode::Mesh,
            _ => ApMode::Unknown,
        }
    }

    pub open spec fn text(self) -> Seq<char> {
        match self {
            ApMode::Unknown => "unknown"@,
            ApMode::AdHoc => "ad-hoc"@,
            ApMode::Infra => "infrastructure"@,
            ApMode::Ap => "access point"@,
            ApMode::Mesh => "mesh"@,
        }
    }

    pub fn to_string(&self) -> (s: String)
        ensures
            s@ == self.text(),
    {
        let t: &str = match self {
            ApMode::Unknown => "unknown",
            ApMode::AdHoc => "ad-hoc",
            ApMode::Infra => "infrastructure",
            ApMode::Ap => "access point",
            ApMode::Mesh => "mesh",
        };
        t.to_string()
    }
}

impl From<u32> for ApMode {
    fn from(v: u32) -> (r: Self) {
        match v {
            1 => ApMode::AdHoc,
            2 => ApMode::Infra,
            3 => ApMode::Ap,
            4 => ApMode::Mesh,
            _ => ApMode::Unknown,
        }
    }
}

impl vstd::std_specs::convert::FromSpecImpl<u32> for ApMode {
    open spec fn obeys_from_spec() -> bool {
        true
    }

    open spec fn from_spec(v: u32) -> Self {
        ApMode::from_code(v)
    }
}

/// The 802.11 channel whose centre frequency is `mhz`, or 0 outside the
/// 2.4, 5 and 6 GHz channel plans.
pub open spec fn channel_of(mhz: u32) -> u32 {
    if mhz == 2484 {
        14
    } else if 2412 <= mhz && mhz <= 2472 {
        ((mhz - 2407) / 5) as u32
    } else if 5160 <= mhz && mhz <= 5885 {
        ((mhz - 5000) / 5) as u32
    } else if 5955 <= mhz && mhz <= 7115 {
        ((mhz - 5950) / 5) as u32
    } else {
        0
    }
}

/// 802.11 channel number for a centre frequency in MHz.
pub fn channel_for_freq(mhz: u32) -> (c: u32)
    ensures
        c == channel_of(mhz),
{
    if mhz == 2484 {
        14
    } else if 2412 <= mhz && mhz <= 2472 {
        (mhz - 2407) / 5
    } else if 5160 <= mhz && mhz <= 5885 {
        (mhz - 5000) / 5
    } else if 5955 <= mhz && mhz <= 7115 {
        (mhz - 5950) / 5
    } else {
        0
    }
}

/// The band a frequency in MHz falls in.
pub open spec fn band_of(mhz: u32) -> Seq<char> {
    if mhz <= 2500 {
        "2.4 GHz"@
    } else if mhz <= 5900 {
        "5 GHz"@
    } else if mhz <= 7200 {
        "6 GHz"@
    } else {
        "60 GHz"@
    }
}

pub fn band_for_freq(mhz: u32) -> (b: &'static str)
    ensures
        b@ == band_of(mhz),
{
    if mhz <= 2500 {
        "2.4 GHz"
    } else if mhz <= 5900 {
        "5 GHz"
    } else if mhz <= 7200 {
        "6 GHz"
    } else {
        "60 GHz"
    }
}

/// `s` with every control character replaced by U+FFFD.
pub open spec fn scrub_controls(s: Seq<char>) -> Seq<char> {
    s.map_values(|c: char| if is_control_char(c) { '\u{fffd}' } else { c })
}

/// Each byte written as `\xNN`.
pub open spec fn escape_bytes(raw: Seq<u8>) -> Seq<char>
    decreases raw.len(),
{
    if raw.len() == 0 {
        Seq::empty()
    } else {
        escape_bytes(raw.drop_last()) + seq!['\\', 'x'] + hex_byte(raw.last())
    }
}

/// How an SSID reads: UTF-8 with control characters blanked out, or the raw
/// bytes escaped when it is not UTF-8.
pub open spec fn ssid_text(raw: Seq<u8>) -> Seq<char> {
    if raw.len() == 0 {
        Seq::empty()
    } else if valid_utf8(raw) {
        scrub_controls(decode_utf8(raw))
    } else {
        escape_bytes(raw)
    }
}

/// Calls `std::str::from_utf8`: a string slice over exactly `raw` when it is
/// valid UTF-8, nothing otherwise. Validity is vstd's `valid_utf8`, which
/// follows the same definition (no overlong forms, no surrogates).
#[verifier::external_body]
fn str_from_utf8(raw: &[u8]) -> (r: Option<&str>)
    ensures
        r is Some <==> valid_utf8(raw@),
        r matches Some(s) ==> s.spec_bytes() == raw@,
{
    std::str::from_utf8(raw).ok()
}

/// SSIDs are raw bytes; render them without letting control characters loose
/// in the terminal.
pub fn ssid_to_string(raw: &[u8]) -> (s: String)
    ensures
        s@ == ssid_text(raw@),
        forall|i: int| 0 <= i < s@.len() ==> !is_control_char(#[trigger] s@[i]),
{
    if raw.len() == 0 {
        return String::new();
    }
    match str_from_utf8(raw) {
        Some(text) => {
            proof {
                broadcast use encode_utf8_decode_utf8;
                assert(decode_utf8(raw@) == text@);
            }
            let v = chars_of(text);
            let mut out = String::new();
            let mut i: usize = 0;
            while i < v.len()
                invariant
                    i <= v.len(),
                    out@ == scrub_controls(v@.take(i as int)),
                decreases v.len() - i,
            {
                let c = v[i];
                let shown = if is_control(c) {
                    '\u{fffd}'
                } else {
                    c
                };
                out.push(shown);
                proof {
                    assert(v@.take(i + 1) == v@.take(i as int).push(c));
                    assert(scrub_controls(v@.take(i + 1)) == scrub_controls(v@.take(i as int)).push(
                        shown,
                    ));
                }
                i = i + 1;
            }
            proof {
                assert(v@.take(v.len() as int) == v@);
                assert forall|i: int| 0 <= i < out@.len() implies !is_control_char(
                    #[trigger] out@[i],
                ) by {
                    assert((0xfffd as char) as u32 == 0xfffd);
                }
            }
            out
        },
        None => {
            let mut out = String::new();
            let mut i: usize = 0;
            while i < raw.len()
                invariant
                    i <= raw.len(),
                    out@ == escape_bytes(raw@.take(i as int)),
                    forall|j: int| 0 <= j < out@.len() ==> !is_control_char(#[trigger] out@[j]),
                decreases raw.len() - i,
            {
                let ghost before = out@;
                out.push('\\');
                out.push('x');
                push_hex_byte(&mut out, raw[i]);
                proof {
                    assert(raw@.take(i + 1).drop_last() == raw@.take(i as int));
                    assert(raw@.take(i + 1).last() == raw@[i as int]);
                    let h = hex_byte(raw@[i as int]);
                    assert(out@ == before + seq!['\\', 'x'] + h);
                    assert forall|j: int| 0 <= j < out@.len() implies !is_control_char(
                        #[trigger] out@[j],
                    ) by {
                        if j >= before.len() + 2 {
                            let k = j - before.len() - 2;
                            assert(out@[j] == h[k]);
                        }
                    }
                }
                i = i + 1;
            }
            proof {
                assert(raw@.take(raw.len() as int) == raw@);
            }
            out
        },
    }
}

// ---------------------------------------------------------------------- snapshot

/// One access point, as NetworkManager reports it.
#[derive(Debug)]
pub struct AccessPoint {
    pub path: String,
    pub bssid: String,
    pub ssid: Vec<u8>,
    pub strength: u8,
    pub frequency: u32,
    pub max_bitrate: u32,
    pub mode: ApMode,
    pub flags: u32,
    pub wpa_flags: u32,
    pub rsn_flags: u32,
    pub last_seen: i32,
}

/// An access point as a mathematical value.
pub struct AccessPointView {
    pub path: Seq<char>,
    pub bssid: Seq<char>,
    pub ssid: Seq<u8>,
    pub strength: u8,
    pub frequency: u32,
    pub max_bitrate: u32,
    pub mode: ApMode,
    pub flags: u32,
    pub wpa_flags: u32,
    pub rsn_flags: u32,
    pub last_seen: i32,
}

impl View for AccessPoint {
    type V = AccessPointView;

    open spec fn view(&self) -> AccessPointView {
        AccessPointView {
            path: self.path@,
            bssid: self.bssid@,
            ssid: self.ssid@,
            strength: self.strength,
            frequency: self.frequency,
            max_bitrate: self.max_bitrate,
            mode: self.mode,
            flags: self.flags,
            wpa_flags: self.wpa_flags,
            rsn_flags: self.rsn_flags,
            last_seen: self.last_seen,
        }
    }
}

/// A copy of a byte vector.
pub fn copy_bytes(v: &Vec<u8>) -> (r: Vec<u8>)
    ensures
        r@ == v@,
{
    let mut r: Vec<u8> = Vec::new();
    let mut i: usize = 0;
    while i < v.len()
        invariant
            i <= v.len(),
            r@ == v@.take(i as int),
        decreases v.len() - i,
    {
        r.push(v[i]);
        proof {
            assert(v@.take(i + 1) == v@.take(i as int).push(v@[i as int]));
        }
        i = i + 1;
    }
    proof {
        assert(v@.take(v.len() as int) == v@);
    }
    r
}

impl Clone for AccessPoint {
    fn clone(&self) -> (r: Self)
        ensures
            r@ == self@,
    {
        AccessPoint {
            path: self.path.clone(),
            bssid: self.bssid.clone(),
            ssid: copy_bytes(&self.ssid),
            strength: self.strength,
            frequency: self.frequency,
            max_bitrate: self.max_bitrate,
            mode: self.mode,
            flags: self.flags,
            wpa_flags: self.wpa_flags,
            rsn_flags: self.rsn_flags,
            last_seen: self.last_seen,
        }
    }
}

impl AccessPoint {
    pub fn security(&self) -> (s: Security)
        ensures
            s == Security::of_flags(self.flags, self.wpa_flags, self.rsn_flags),
    {
        Security::from_flags(self.flags, self.wpa_flags, self.rsn_flags)
    }

    pub fn channel(&self) -> (c: u32)
        ensures
            c == channel_of(self.frequency),
    {
        channel_for_freq(self.frequency)
    }

    pub fn band(&self) -> (b: &'static str)
        ensures
            b@ == band_of(self.frequency),
    {
        band_for_freq(self.frequency)
    }
}

/// A stored Wi-Fi connection profile.
#[derive(Debug)]
pub struct SavedConnection {
    pub path: String,
    pub id: String,
    pub ssid: Vec<u8>,
    pub autoconnect: bool,
    pub interface_name: Option<String>,
    pub hidden: bool,
}

pub struct SavedConnectionView {
    pub path: Seq<char>,
    pub id: Seq<char>,
    pub ssid: Seq<u8>,
    pub autoconnect: bool,
    pub interface_name: Option<Seq<char>>,
    pub hidden: bool,
}

impl View for SavedConnection {
    type V = SavedConnectionView;

    open spec fn view(&self) -> SavedConnectionView {
        SavedConnectionView {
            path: self.path@,
            id: self.id@,
            ssid: self.ssid@,
            autoconnect: self.autoconnect,
            interface_name: match self.interface_name {
                Some(s) => Some(s@),
                None => None,
            },
            hidden: self.hidden,
        }
    }
}

impl Clone for SavedConnection {
    fn clone(&self) -> (r: Self)
        ensures
            r@ == self@,
    {
        SavedConnection {
            path: self.path.clone(),
            id: self.id.clone(),
            ssid: copy_bytes(&self.ssid),
            autoconnect: self.autoconnect,
            interface_name: match &self.interface_name {
                Some(s) => Some(s.clone()),
                None => None,
            },
            hidden: self.hidden,
        }
    }
}

/// One row in the network list: every AP sharing an SSID, merged.
#[derive(Debug)]
pub struct Network {
    pub ssid: Vec<u8>,
    pub name: String,
    pub aps: Vec<AccessPoint>,
    pub saved: Vec<SavedConnection>,
    pub active: bool,
}

impl Network {
    /// The row's leading access point.
    pub fn best(&self) -> (ap: &AccessPoint)
        requires
            self.aps.len() > 0,
        ensures
            *ap == self.aps@[0],
    {
        &self.aps[0]
    }

    pub fn strength(&self) -> (s: u8)
        requires
            self.aps.len() > 0,
        ensures
            s == self.aps@[0].strength,
    {
        self.best().strength
    }

    pub fn security(&self) -> (s: Security)
        requires
            self.aps.len() > 0,
        ensures
            s == Security::of_flags(
                self.aps@[0].flags,
                self.aps@[0].wpa_flags,
                self.aps@[0].rsn_flags,
            ),
    {
        self.best().security()
    }

    /// Access points that broadcast no SSID.
    pub fn is_hidden(&self) -> (b: bool)
        ensures
            b == (self.ssid@.len() == 0),
    {
        self.ssid.len() == 0
    }
}

#[derive(Debug)]
pub struct IpInfo {
    pub addresses: Vec<String>,
    pub gateway: Option<String>,
    pub nameservers: Vec<String>,
    pub domains: Vec<String>,
}

impl Default for IpInfo {
    fn default() -> (r: Self)
        ensures
            r.addresses@.len() == 0,
            r.gateway is None,
            r.nameservers@.len() == 0,
            r.domains@.len() == 0,
    {
        IpInfo {
            addresses: Vec::new(),
            gateway: None,
            nameservers: Vec::new(),
            domains: Vec::new(),
        }
    }
}

#[derive(Debug)]
pub struct ActiveConnectionInfo {
    pub id: String,
    pub state: ActiveState,
    pub default_route: bool,
}

#[derive(Debug)]
pub struct WifiDevice {
    pub path: String,
    pub interface: String,
    pub driver: String,
    pub driver_version: String,
    pub hw_address: String,
    pub mtu: u32,
    pub state: DeviceState,
    pub state_reason: u32,
    /// NetworkManager's runtime `Managed` property.
    pub managed: bool,
    /// A drop-in keeps this device unmanaged across reboots.
    pub disabled_by_config: bool,
    pub autoconnect: bool,
    pub mode: ApMode,
    pub bitrate_kbps: u32,
    pub last_scan_ms: i64,
    pub active: Option<ActiveConnectionInfo>,
    pub ip4: IpInfo,
    pub ip6: IpInfo,
    pub networks: Vec<Network>,
}

impl WifiDevice {
    /// Is NetworkManager driving this device right now?
    pub fn enabled(&self) -> (b: bool)
        ensures
            b == self.managed,
    {
        self.managed
    }

    /// The network the device is associated with: the first row marked active.
    pub fn active_network(&self) -> (r: Option<&Network>)
        ensures
            r is None <==> forall|i: int|
                0 <= i < self.networks@.len() ==> !(#[trigger] self.networks@[i]).active,
            r matches Some(n) ==> exists|i: int|
                0 <= i < self.networks@.len() && *n == self.networks@[i] && n.active && forall|
                    j: int,
                | 0 <= j < i ==> !(#[trigger] self.networks@[j]).active,
    {
        let mut i: usize = 0;
        while i < self.networks.len()
            invariant
                i <= self.networks.len(),
                forall|j: int| 0 <= j < i ==> !(#[trigger] self.networks@[j]).active,
            decreases self.networks.len() - i,
        {
            if self.networks[i].active {
                return Some(&self.networks[i]);
            }
            i = i + 1;
        }
        None
    }
}

#[derive(Debug)]
pub struct Snapshot {
    pub version: String,
    pub state: Option<NmState>,
    pub connectivity: Option<Connectivity>,
    pub wireless_enabled: bool,
    pub wireless_hw_enabled: bool,
    pub networking_enabled: bool,
    pub devices: Vec<WifiDevice>,
}

impl Default for Snapshot {
    fn default() -> (r: Self)
        ensures
            r.version@.len() == 0,
            r.state is None,
            r.connectivity is None,
            !r.wireless_enabled,
            !r.wireless_hw_enabled,
            !r.networking_enabled,
            r.devices@.len() == 0,
    {
        Snapshot {
            version: String::new(),
            state: None,
            connectivity: None,
            wireless_enabled: false,
            wireless_hw_enabled: false,
            networking_enabled: false,
            devices: Vec::new(),
        }
    }
}

} // verus!
