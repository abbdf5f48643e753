//! The rules behind what the panes show: markers, ages, hints and tones.

use vstd::prelude::*;
use crate::app::{display_name, display_text, ConfirmKind, Focus};
use crate::text::{chars_of, decimal, join, push_decimal};
use crate::types::{
    band_of, channel_of, device_state_reason, join_strings, reason_text, AccessPoint,
    ActiveConnectionInfo, ApMode, DeviceState, IpInfo, Network, SavedConnection, Security,
    WifiDevice,
};

verus! {

/// Left gutter marker on the cursor row, drawn only in the focused pane. The
/// blank keeps both panes on the same column grid so nothing shifts on Tab.
pub fn selection_marker(focused: bool) -> (s: &'static str)
    ensures
        s@ == if focused { "\u{258c}"@ } else { " "@ },
{
    if focused { "\u{258c}" } else { " " }
}

pub fn yes_no(v: bool) -> (s: &'static str)
    ensures
        s@ == if v { "yes"@ } else { "no"@ },
{
    if v { "yes" } else { "no" }
}

pub open spec fn short_mode_text(mode: ApMode) -> Seq<char> {
    match mode {
        ApMode::Infra => "infra"@,
        ApMode::AdHoc => "ad-hoc"@,
        ApMode::Ap => "hotspot"@,
        ApMode::Mesh => "mesh"@,
        ApMode::Unknown => "mode ?"@,
    }
}

pub fn short_mode(mode: ApMode) -> (s: &'static str)
    ensures
        s@ == short_mode_text(mode),
{
    match mode {
        ApMode::Infra => "infra",
        ApMode::AdHoc => "ad-hoc",
        ApMode::Ap => "hotspot",
        ApMode::Mesh => "mesh",
        ApMode::Unknown => "mode ?",
    }
}

/// How many of the four signal bars a strength fills.
pub open spec fn bars_for(strength: u8) -> u8 {
    if strength <= 24 {
        1
    } else if strength <= 49 {
        2
    } else if strength <= 74 {
        3
    } else {
        4
    }
}

pub fn signal_level(strength: u8) -> (n: u8)
    ensures
        n == bars_for(strength),
{
    if strength <= 24 {
        1
    } else if strength <= 49 {
        2
    } else if strength <= 74 {
        3
    } else {
        4
    }
}

/// A colour family, named by what it says rather than by its shade.
#[derive(Debug, Clone, Copy, PartialEq, Eq, Structural)]
pub enum Tone {
    Good,
    Fair,
    Warn,
    Bad,
    Calm,
    Dim,
    Plain,
}

/// Signal strength: weak is bad, then a warning, then fair, then good.
pub fn strength_tone(strength: u8) -> (t: Tone)
    ensures
        t == match bars_for(strength) {
            1 => Tone::Bad,
            2 => Tone::Warn,
            3 => Tone::Fair,
            _ => Tone::Good,
        },
{
    match signal_level(strength) {
        1 => Tone::Bad,
        2 => Tone::Warn,
        3 => Tone::Fair,
        _ => Tone::Good,
    }
}

/// Open networks are flagged, WEP warned about, the rest calm.
pub fn security_tone(sec: Security) -> (t: Tone)
    ensures
        t == match sec {
            Security::Open => Tone::Bad,
            Security::Wep => Tone::Warn,
            _ => Tone::Calm,
        },
{
    match sec {
        Security::Open => Tone::Bad,
        Security::Wep => Tone::Warn,
        _ => Tone::Calm,
    }
}

/// Connected is good, failed is bad, a device nobody drives is dim, one on its
/// way somewhere is a warning.
pub fn device_tone(state: DeviceState) -> (t: Tone)
    ensures
        t == if state == DeviceState::Activated {
            Tone::Good
        } else if state == DeviceState::Failed {
            Tone::Bad
        } else if state == DeviceState::Unmanaged || state == DeviceState::Unavailable {
            Tone::Dim
        } else if state.busy() {
            Tone::Warn
        } else {
            Tone::Plain
        },
{
    match state {
        DeviceState::Activated => Tone::Good,
        DeviceState::Failed => Tone::Bad,
        DeviceState::Unmanaged | DeviceState::Unavailable => Tone::Dim,
        s => if s.is_busy() {
            Tone::Warn
        } else {
            Tone::Plain
        },
    }
}

pub open spec fn enabled_text(enabled: bool, by_config: bool) -> Seq<char> {
    if enabled {
        if by_config { "enabled until reboot"@ } else { "enabled"@ }
    } else {
        if by_config { "disabled"@ } else { "disabled until reboot"@ }
    }
}

/// The runtime state and whether it survives a reboot, when the two disagree:
/// a device someone unmanaged with nmcli comes back at the next boot, and one
/// with a drop-in but no runtime change goes away at it.
pub fn enabled_flag(d: &WifiDevice) -> (s: &'static str)
    ensures
        s@ == enabled_text(d.managed, d.disabled_by_config),
{
    match (d.enabled(), d.disabled_by_config) {
        (true, false) => "enabled",
        (true, true) => "enabled until reboot",
        (false, true) => "disabled",
        (false, false) => "disabled until reboot",
    }
}

pub open spec fn action_hint_text(net: Network) -> Seq<char> {
    if net.ssid@.len() == 0 {
        "these access points broadcast no name \u{2014} press n to join one by SSID"@
    } else if net.active {
        "connected \u{2014} d disconnects the device, p re-enters the password"@
    } else if net.saved@.len() > 0 {
        "\u{21b5} connects with the saved profile \u{b7} p replaces the password \u{b7} f forgets it"@
    } else if Security::of_flags(net.aps@[0].flags, net.aps@[0].wpa_flags, net.aps@[0].rsn_flags).secret_needed() {
        "\u{21b5} asks for the password, then joins"@
    } else {
        "\u{21b5} joins this open network"@
    }
}

/// What Enter and the other keys would do for this row.
pub fn action_hint(net: &Network) -> (s: &'static str)
    requires
        net.aps@.len() > 0,
    ensures
        s@ == action_hint_text(*net),
{
    if net.is_hidden() {
        "these access points broadcast no name \u{2014} press n to join one by SSID"
    } else if net.active {
        "connected \u{2014} d disconnects the device, p re-enters the password"
    } else if net.saved.len() > 0 {
        "\u{21b5} connects with the saved profile \u{b7} p replaces the password \u{b7} f forgets it"
    } else if net.security().needs_secret() {
        "\u{21b5} asks for the password, then joins"
    } else {
        "\u{21b5} joins this open network"
    }
}

/// Division that rounds toward zero, as integer `/` does in Rust.
pub open spec fn div_toward_zero(a: int, b: int) -> int {
    if a >= 0 {
        a / b
    } else {
        -((-a) / b)
    }
}

pub open spec fn seen_age_text(last_seen: i32, now_ms: Option<i64>) -> Seq<char> {
    if last_seen < 0 {
        "never"@
    } else {
        match now_ms {
            None => "just now"@,
            Some(n) => {
                let d = div_toward_zero(n as int, 1000) - last_seen;
                let secs = if d < 0 { 0 } else { d };
                if secs <= 3 {
                    "moments ago"@
                } else if secs <= 90 {
                    decimal(secs as nat) + "s ago"@
                } else {
                    decimal((secs / 60) as nat) + "m ago"@
                }
            },
        }
    }
}

/// `AccessPoint.LastSeen` is CLOCK_BOOTTIME seconds, or -1 if never seen;
/// `now_ms` is the boot-time clock in milliseconds, when it could be read.
pub fn seen_age(last_seen: i32, now_ms: Option<i64>) -> (s: String)
    ensures
        s@ == seen_age_text(last_seen, now_ms),
{
    if last_seen < 0 {
        return "never".to_string();
    }
    let n = match now_ms {
        Some(n) => n,
        None => return "just now".to_string(),
    };
    let wide: i128 = n as i128;
    let now_secs: i128 = if wide >= 0 {
        wide / 1000
    } else {
        -((-wide) / 1000)
    };
    let d: i128 = now_secs - last_seen as i128;
    let secs: i128 = if d < 0 {
        0
    } else {
        d
    };
    if secs <= 3 {
        "moments ago".to_string()
    } else if secs <= 90 {
        let mut s = String::new();
        push_decimal(&mut s, secs as u64);
        s.push_str("s ago");
        s
    } else {
        let mut s = String::new();
        push_decimal(&mut s, (secs / 60) as u64);
        s.push_str("m ago");
        s
    }
}

pub open spec fn scan_age_text(last_scan_ms: i64, now_ms: Option<i64>) -> Seq<char> {
    match now_ms {
        None => "just now"@,
        Some(n) => {
            let d = n - last_scan_ms;
            let secs = (if d < 0 { 0 } else { d }) / 1000;
            if secs <= 5 {
                "moments"@
            } else if secs <= 90 {
                decimal(secs as nat) + "s"@
            } else {
                decimal((secs / 60) as nat) + "m"@
            }
        },
    }
}

/// `LastScan` is CLOCK_BOOTTIME milliseconds, so it is compared against the
/// boot-time clock.
pub fn scan_age(last_scan_ms: i64, now_ms: Option<i64>) -> (s: String)
    ensures
        s@ == scan_age_text(last_scan_ms, now_ms),
{
    let n = match now_ms {
        Some(n) => n,
        None => return "just now".to_string(),
    };
    let d: i128 = n as i128 - last_scan_ms as i128;
    let secs: i128 = (if d < 0 {
        0
    } else {
        d
    }) / 1000;
    if secs <= 5 {
        "moments".to_string()
    } else if secs <= 90 {
        let mut s = String::new();
        push_decimal(&mut s, secs as u64);
        s.push_str("s");
        s
    } else {
        let mut s = String::new();
        push_decimal(&mut s, (secs / 60) as u64);
        s.push_str("m");
        s
    }
}

// ------------------------------------------------------------------ list texts

pub open spec fn devices_placeholder_text(first_load: bool) -> Seq<char> {
    if first_load { "loading\u{2026}"@ } else { "no Wi-Fi devices"@ }
}

/// What the device pane says when it has no rows.
pub fn devices_placeholder(first_load: bool) -> (s: &'static str)
    ensures
        s@ == devices_placeholder_text(first_load),
{
    if first_load { "loading\u{2026}" } else { "no Wi-Fi devices" }
}

/// The first reason, in order, that the network pane is empty.
pub open spec fn networks_placeholder_text(first_load: bool, wireless_enabled: bool, device_disabled: bool) -> Seq<char> {
    if first_load {
        "loading\u{2026}"@
    } else if !wireless_enabled {
        "Wi-Fi is off \u{2014} press w to turn it on"@
    } else if device_disabled {
        "this device is disabled \u{2014} press e to enable it"@
    } else {
        "no networks in range \u{2014} press s to scan"@
    }
}

/// What the network pane says when it has no rows; `device_disabled` is set
/// when a device is selected and NetworkManager is not driving it.
pub fn networks_placeholder(first_load: bool, wireless_enabled: bool, device_disabled: bool) -> (s: &'static str)
    ensures
        s@ == networks_placeholder_text(first_load, wireless_enabled, device_disabled),
{
    if first_load {
        "loading\u{2026}"
    } else if !wireless_enabled {
        "Wi-Fi is off \u{2014} press w to turn it on"
    } else if device_disabled {
        "this device is disabled \u{2014} press e to enable it"
    } else {
        "no networks in range \u{2014} press s to scan"
    }
}

/// The first row of `nets`, from `from` on, that the device is associated with.
pub open spec fn first_active(nets: Seq<Network>, from: int) -> Option<Network>
    decreases nets.len() - from,
{
    if from < 0 || from >= nets.len() {
        None
    } else if nets[from].active {
        Some(nets[from])
    } else {
        first_active(nets, from + 1)
    }
}

/// The second line of a device row: what is most useful to know about the
/// device at a glance.
pub open spec fn device_detail_text(d: WifiDevice) -> Seq<char> {
    match first_active(d.networks@, 0) {
        Some(net) => display_text(net) + " \u{b7} "@ + decimal(net.aps@[0].strength as nat) + "%"@,
        None => match d.active {
            Some(a) => a.id@,
            None => if !d.managed {
                "disabled"@
            } else if d.state_reason != 0 {
                reason_text(d.state_reason)
            } else {
                Seq::empty()
            },
        },
    }
}

/// The associated network and its signal, else the profile the device
/// carries, else why it is idle.
pub fn device_detail(d: &WifiDevice) -> (s: String)
    requires
        forall|i: int| 0 <= i < d.networks@.len() ==> (#[trigger] d.networks@[i]).aps@.len() > 0,
    ensures
        s@ == device_detail_text(*d),
{
    let mut i: usize = 0;
    while i < d.networks.len()
        invariant
            i <= d.networks@.len(),
            forall|k: int| 0 <= k < d.networks@.len() ==> (#[trigger] d.networks@[k]).aps@.len() > 0,
            first_active(d.networks@, 0) == first_active(d.networks@, i as int),
        decreases d.networks.len() - i,
    {
        if d.networks[i].active {
            let net = &d.networks[i];
            let mut s = display_name(net);
            s.push_str(" \u{b7} ");
            push_decimal(&mut s, net.strength() as u64);
            s.push_str("%");
            return s;
        }
        i = i + 1;
    }
    match &d.active {
        Some(a) => a.id.clone(),
        None => if !d.enabled() {
            "disabled".to_string()
        } else if d.state_reason != 0 {
            device_state_reason(d.state_reason)
        } else {
            String::new()
        },
    }
}

// ---------------------------------------------------------------- confirmations

pub open spec fn confirm_title_text(c: ConfirmKind) -> Seq<char> {
    match c {
        ConfirmKind::Forget { .. } => "Forget network"@,
        ConfirmKind::Disable { .. } => "Disable device"@,
    }
}

pub open spec fn confirm_body_text(c: ConfirmKind) -> Seq<char> {
    match c {
        ConfirmKind::Forget { name, connections } => "Delete "@ + decimal(connections@.len()) + " saved profile"@
            + (if connections@.len() == 1 { Seq::empty() } else { "s"@ }) + " for \u{201c}"@ + name@
            + "\u{201d}?\nThis device will stop connecting to it automatically."@,
        ConfirmKind::Disable { interface, carrying, .. } => "Disable "@ + interface@ + "?"@ + (match carrying {
            Some(id) => " It is carrying \u{201c}"@ + id@ + "\u{201d}, which another radio may pick up."@,
            None => Seq::empty(),
        })
            + "\nNetworkManager lets go of it and the link goes down. It stays disabled across reboots until e enables it again."@,
    }
}

/// The title of a confirmation dialog.
pub fn confirm_title(c: &ConfirmKind) -> (s: &'static str)
    ensures
        s@ == confirm_title_text(*c),
{
    match c {
        ConfirmKind::Forget { .. } => "Forget network",
        ConfirmKind::Disable { .. } => "Disable device",
    }
}

/// The question a confirmation dialog asks, with what the action will cost.
pub fn confirm_body(c: &ConfirmKind) -> (s: String)
    ensures
        s@ == confirm_body_text(*c),
{
    match c {
        ConfirmKind::Forget { name, connections } => {
            let mut s = "Delete ".to_string();
            push_decimal(&mut s, connections.len() as u64);
            s.push_str(" saved profile");
            if connections.len() != 1 {
                s.push_str("s");
            }
            s.push_str(" for \u{201c}");
            s.push_str(name.as_str());
            s.push_str("\u{201d}?\nThis device will stop connecting to it automatically.");
            s
        },
        ConfirmKind::Disable { interface, carrying, .. } => {
            let mut s = "Disable ".to_string();
            s.push_str(interface.as_str());
            s.push_str("?");
            match carrying {
                Some(id) => {
                    s.push_str(" It is carrying \u{201c}");
                    s.push_str(id.as_str());
                    s.push_str("\u{201d}, which another radio may pick up.");
                },
                None => {},
            }
            s.push_str(
                "\nNetworkManager lets go of it and the link goes down. It stays disabled across reboots until e enables it again.",
            );
            s
        },
    }
}

// ---------------------------------------------------------------- detail texts

/// An IPv6 address in the link-local range everybody has.
pub open spec fn link_local(a: Seq<char>) -> bool {
    a.len() >= 4 && a.take(4) == "fe80"@
}

fn is_link_local(a: &str) -> (b: bool)
    ensures
        b == link_local(a@),
{
    let v = chars_of(a);
    proof {
        reveal_strlit("fe80");
    }
    if v.len() < 4 {
        return false;
    }
    let r = v[0] == 'f' && v[1] == 'e' && v[2] == '8' && v[3] == '0';
    proof {
        if r {
            assert(v@.take(4) == "fe80"@);
        } else {
            assert(v@.take(4)[0] != "fe80"@[0] || v@.take(4)[1] != "fe80"@[1] || v@.take(4)[2]
                != "fe80"@[2] || v@.take(4)[3] != "fe80"@[3]);
        }
    }
    r
}

/// The first address from `from` on that is not link-local, or the length.
pub open spec fn first_routable(addrs: Seq<String>, from: int) -> int
    decreases addrs.len() - from,
{
    if from < 0 || from >= addrs.len() {
        addrs.len() as int
    } else if !link_local(addrs[from]@) {
        from
    } else {
        first_routable(addrs, from + 1)
    }
}

/// The position of the IPv6 address to show, if there is any address.
pub open spec fn preferred_v6(addrs: Seq<String>) -> Option<int> {
    if addrs.len() == 0 {
        None
    } else if first_routable(addrs, 0) < addrs.len() {
        Some(first_routable(addrs, 0))
    } else {
        Some(0)
    }
}

/// The IPv6 address to show: the first routable one, else the first at all.
pub fn preferred_ipv6(addrs: &Vec<String>) -> (r: Option<usize>)
    ensures
        (match r {
            Some(i) => Some(i as int),
            None => None,
        }) == preferred_v6(addrs@),
        r is None <==> addrs@.len() == 0,
        r matches Some(i) ==> i < addrs@.len() && if exists|j: int|
            0 <= j < addrs@.len() && !link_local((#[trigger] addrs@[j])@) {
            !link_local(addrs@[i as int]@) && forall|j: int| 0 <= j < i ==> link_local((#[trigger] addrs@[j])@)
        } else {
            i == 0
        },
{
    let mut i: usize = 0;
    while i < addrs.len()
        invariant
            i <= addrs@.len(),
            forall|j: int| 0 <= j < i ==> link_local((#[trigger] addrs@[j])@),
            first_routable(addrs@, 0) == first_routable(addrs@, i as int),
        decreases addrs.len() - i,
    {
        if !is_link_local(addrs[i].as_str()) {
            return Some(i);
        }
        i = i + 1;
    }
    if addrs.len() > 0 {
        Some(0)
    } else {
        None
    }
}

/// A field as the dialog shows it: a secret is dotted out until revealed.
pub open spec fn shown_text(value: Seq<char>, secret: bool, reveal: bool) -> Seq<char> {
    if secret && !reveal {
        Seq::new(value.len(), |i: int| '\u{2022}')
    } else {
        value
    }
}

pub fn shown_value(value: &str, secret: bool, reveal: bool) -> (s: String)
    ensures
        s@ == shown_text(value@, secret, reveal),
{
    if !(secret && !reveal) {
        return value.to_string();
    }
    let n = chars_of(value).len();
    let mut s = String::new();
    let mut i: usize = 0;
    while i < n
        invariant
            i <= n,
            s@ == Seq::new(i as nat, |k: int| '\u{2022}'),
        decreases n - i,
    {
        s.push('\u{2022}');
        proof {
            assert(s@ == Seq::new((i + 1) as nat, |k: int| '\u{2022}'));
        }
        i = i + 1;
    }
    s
}

/// The frame of the ten-frame spinner shown `elapsed_ms` into a busy status.
pub fn spinner_frame(elapsed_ms: u64) -> (i: usize)
    ensures
        i == (elapsed_ms / 90) % 10,
        i < 10,
{
    ((elapsed_ms / 90) % 10) as usize
}

pub open spec fn profile_line_text(s: SavedConnection) -> Seq<char> {
    s.id@ + " \u{b7} autoconnect "@ + (if s.autoconnect { "yes"@ } else { "no"@ }) + (if s.hidden {
        " \u{b7} hidden"@
    } else {
        Seq::empty()
    })
}

/// A stored profile in the network pane.
pub fn profile_line(s: &SavedConnection) -> (r: String)
    ensures
        r@ == profile_line_text(*s),
{
    let mut r = s.id.clone();
    r.push_str(" \u{b7} autoconnect ");
    r.push_str(yes_no(s.autoconnect));
    if s.hidden {
        r.push_str(" \u{b7} hidden");
    }
    r
}

pub open spec fn active_line_text(a: ActiveConnectionInfo) -> Seq<char> {
    a.id@ + " \u{b7} "@ + a.state.text() + (if a.default_route {
        " \u{b7} default route"@
    } else {
        Seq::empty()
    })
}

/// The profile a device carries, in the device pane.
pub fn active_line(a: &ActiveConnectionInfo) -> (r: String)
    ensures
        r@ == active_line_text(*a),
{
    let mut r = a.id.clone();
    r.push_str(" \u{b7} ");
    let st = a.state.to_string();
    r.push_str(st.as_str());
    if a.default_route {
        r.push_str(" \u{b7} default route");
    }
    r
}

pub open spec fn link_line_text(ap: AccessPoint, bitrate_kbps: u32) -> Seq<char> {
    decimal(ap.strength as nat) + "% \u{b7} ch "@ + decimal(channel_of(ap.frequency) as nat) + " \u{b7} "@
        + band_of(ap.frequency) + (if bitrate_kbps > 0 {
        " \u{b7} "@ + decimal((bitrate_kbps / 1000) as nat) + " Mb/s"@
    } else {
        Seq::empty()
    })
}

/// The radio link of an associated device: signal, channel, band, rate.
pub fn link_line(ap: &AccessPoint, bitrate_kbps: u32) -> (r: String)
    ensures
        r@ == link_line_text(*ap, bitrate_kbps),
{
    let mut r = String::new();
    push_decimal(&mut r, ap.strength as u64);
    r.push_str("% \u{b7} ch ");
    push_decimal(&mut r, ap.channel() as u64);
    r.push_str(" \u{b7} ");
    r.push_str(ap.band());
    if bitrate_kbps > 0 {
        r.push_str(" \u{b7} ");
        push_decimal(&mut r, (bitrate_kbps / 1000) as u64);
        r.push_str(" Mb/s");
    }
    r
}

pub open spec fn flags_line_text(d: WifiDevice) -> Seq<char> {
    short_mode_text(d.mode) + " \u{b7} "@ + enabled_text(d.managed, d.disabled_by_config) + " \u{b7} "@
        + (if d.autoconnect { "autoconnect"@ } else { "no autoconnect"@ }) + " \u{b7} mtu "@ + decimal(
        d.mtu as nat,
    )
}

/// The device's mode, enablement, autoconnect and MTU on one line.
pub fn flags_line(d: &WifiDevice) -> (r: String)
    ensures
        r@ == flags_line_text(*d),
{
    let mut r = short_mode(d.mode).to_string();
    r.push_str(" \u{b7} ");
    r.push_str(enabled_flag(d));
    r.push_str(" \u{b7} ");
    r.push_str(if d.autoconnect { "autoconnect" } else { "no autoconnect" });
    r.push_str(" \u{b7} mtu ");
    push_decimal(&mut r, d.mtu as u64);
    r
}

pub open spec fn string_views(v: Seq<String>) -> Seq<Seq<char>> {
    v.map_values(|p: String| p@)
}

/// The gateway, name servers and search domains of an IP configuration, in
/// that order, each only when it is set.
pub open spec fn routing_parts(ip: IpInfo) -> Seq<Seq<char>> {
    let p0 = Seq::<Seq<char>>::empty();
    let p1 = match ip.gateway {
        Some(g) => p0.push("gw "@ + g@),
        None => p0,
    };
    let p2 = if ip.nameservers@.len() > 0 {
        p1.push("dns "@ + join(string_views(ip.nameservers@), ", "@))
    } else {
        p1
    };
    if ip.domains@.len() > 0 {
        p2.push(join(string_views(ip.domains@), ", "@))
    } else {
        p2
    }
}

/// The routing line of the device pane, when there is anything to say.
pub fn routing_line(ip: &IpInfo) -> (r: Option<String>)
    ensures
        r is None <==> routing_parts(*ip).len() == 0,
        r matches Some(t) ==> t@ == join(routing_parts(*ip), " \u{b7} "@),
{
    let mut parts: Vec<String> = Vec::new();
    let ghost p0 = Seq::<Seq<char>>::empty();
    proof {
        assert(string_views(parts@) == p0);
    }
    match &ip.gateway {
        Some(g) => {
            let mut t = "gw ".to_string();
            t.push_str(g.as_str());
            let ghost before = parts@;
            parts.push(t);
            proof {
                assert(string_views(parts@) == string_views(before).push(t@));
            }
        },
        None => {},
    }
    if ip.nameservers.len() > 0 {
        let mut t = "dns ".to_string();
        let j = join_strings(&ip.nameservers, ", ");
        t.push_str(j.as_str());
        let ghost before = parts@;
        parts.push(t);
        proof {
            assert(string_views(parts@) == string_views(before).push(t@));
        }
    }
    if ip.domains.len() > 0 {
        let t = join_strings(&ip.domains, ", ");
        let ghost before = parts@;
        parts.push(t);
        proof {
            assert(string_views(parts@) == string_views(before).push(t@));
        }
    }
    proof {
        assert(string_views(parts@) == routing_parts(*ip));
    }
    if parts.len() == 0 {
        None
    } else {
        Some(join_strings(&parts, " \u{b7} "))
    }
}

/// Another access point of a row, in a few words.
pub open spec fn ap_summary(ap: AccessPoint) -> Seq<char> {
    ap.bssid@ + " "@ + decimal(ap.strength as nat) + "% ch"@ + decimal(channel_of(ap.frequency) as nat)
}

fn ap_summary_of(ap: &AccessPoint) -> (r: String)
    ensures
        r@ == ap_summary(*ap),
{
    let mut r = ap.bssid.clone();
    r.push_str(" ");
    push_decimal(&mut r, ap.strength as u64);
    r.push_str("% ch");
    push_decimal(&mut r, ap.channel() as u64);
    r
}

/// The other access points of a row: the next two, then how many more.
pub open spec fn also_on_text(aps: Seq<AccessPoint>) -> Seq<char> {
    let shown: int = if aps.len() >= 3 { 2 } else { aps.len() - 1 };
    let others = aps.subrange(1, 1 + shown).map_values(|a: AccessPoint| ap_summary(a));
    let more: int = aps.len() - 1 - shown;
    join(others, "  "@) + if more > 0 { "  +"@ + decimal(more as nat) } else { Seq::empty() }
}

pub fn also_on(net: &Network) -> (r: String)
    requires
        net.aps@.len() > 1,
    ensures
        r@ == also_on_text(net.aps@),
{
    let n = net.aps.len();
    let first = ap_summary_of(&net.aps[1]);
    let mut r = if n >= 3 {
        let second = ap_summary_of(&net.aps[2]);
        let parts = vec![first, second];
        proof {
            assert(string_views(parts@) == net.aps@.subrange(1, 3).map_values(
                |a: AccessPoint| ap_summary(a),
            ));
        }
        join_strings(&parts, "  ")
    } else {
        let parts = vec![first];
        proof {
            assert(string_views(parts@) == net.aps@.subrange(1, 2).map_values(
                |a: AccessPoint| ap_summary(a),
            ));
        }
        join_strings(&parts, "  ")
    };
    if n > 3 {
        r.push_str("  +");
        push_decimal(&mut r, (n - 3) as u64);
    }
    r
}

/// The radio chip of the header: blocked by a switch, on, or off.
pub open spec fn radio_text(hw_enabled: bool, enabled: bool) -> (Seq<char>, Tone) {
    if !hw_enabled {
        (" blocked "@, Tone::Bad)
    } else if enabled {
        (" Wi-Fi on "@, Tone::Good)
    } else {
        (" Wi-Fi off "@, Tone::Warn)
    }
}

pub fn radio_label(hw_enabled: bool, enabled: bool) -> (r: (&'static str, Tone))
    ensures
        (r.0@, r.1) == radio_text(hw_enabled, enabled),
{
    if !hw_enabled {
        (" blocked ", Tone::Bad)
    } else if enabled {
        (" Wi-Fi on ", Tone::Good)
    } else {
        (" Wi-Fi off ", Tone::Warn)
    }
}

pub open spec fn bssid_line_text(ap: AccessPoint) -> Seq<char> {
    ap.bssid@ + "  ("@ + ap.mode.text() + ")"@
}

/// The leading access point's hardware address and mode.
pub fn bssid_line(ap: &AccessPoint) -> (r: String)
    ensures
        r@ == bssid_line_text(*ap),
{
    let mut r = ap.bssid.clone();
    r.push_str("  (");
    let m = ap.mode.to_string();
    r.push_str(m.as_str());
    r.push_str(")");
    r
}

pub open spec fn signal_line_text(ap: AccessPoint) -> Seq<char> {
    decimal(ap.strength as nat) + "%  \u{b7}  max "@ + decimal((ap.max_bitrate / 1000) as nat) + " Mb/s"@
}

/// The leading access point's signal and top rate.
pub fn signal_line(ap: &AccessPoint) -> (r: String)
    ensures
        r@ == signal_line_text(*ap),
{
    let mut r = String::new();
    push_decimal(&mut r, ap.strength as u64);
    r.push_str("%  \u{b7}  max ");
    push_decimal(&mut r, (ap.max_bitrate / 1000) as u64);
    r.push_str(" Mb/s");
    r
}

pub open spec fn channel_line_text(ap: AccessPoint) -> Seq<char> {
    decimal(channel_of(ap.frequency) as nat) + " \u{b7} "@ + decimal(ap.frequency as nat) + " MHz \u{b7} "@
        + band_of(ap.frequency)
}

/// The leading access point's channel, frequency and band.
pub fn channel_line(ap: &AccessPoint) -> (r: String)
    ensures
        r@ == channel_line_text(*ap),
{
    let mut r = String::new();
    push_decimal(&mut r, ap.channel() as u64);
    r.push_str(" \u{b7} ");
    push_decimal(&mut r, ap.frequency as u64);
    r.push_str(" MHz \u{b7} ");
    r.push_str(ap.band());
    r
}

/// The footer names the pane Tab moves to, so the arrow keys are never a guess.
pub fn tab_hint(focus: Focus) -> (s: &'static str)
    ensures
        s@ == match focus {
            Focus::Devices => "tab \u{2192} networks"@,
            Focus::Networks => "tab \u{2192} devices"@,
        },
{
    match focus {
        Focus::Devices => "tab \u{2192} networks",
        Focus::Networks => "tab \u{2192} devices",
    }
}

// ---------------------------------------------------------------- device rows

/// One labelled line of the device pane.
#[derive(Debug)]
pub struct DetailRow {
    pub label: &'static str,
    pub value: String,
}

pub open spec fn row_views(rows: Seq<DetailRow>) -> Seq<(Seq<char>, Seq<char>)> {
    rows.map_values(|r: DetailRow| (r.label@, r.value@))
}

/// The labelled lines of the device pane, in order. Addresses, routes and the
/// scan age are shown only while NetworkManager drives the device: a released
/// device keeps its old addresses until the link comes back, and they are
/// history, not a link.
pub open spec fn device_rows_text(d: WifiDevice, boot_ms: Option<i64>) -> Seq<(Seq<char>, Seq<char>)> {
    let r0 = seq![("interface"@, d.interface@), ("state"@, d.state.text())];
    let r1 = match d.active {
        Some(a) => r0.push(("profile"@, active_line_text(a))),
        None => r0,
    };
    let r2 = match first_active(d.networks@, 0) {
        Some(net) => r1.push(("link"@, link_line_text(net.aps@[0], d.bitrate_kbps))),
        None => r1,
    };
    let r3 = r2.push(("mac"@, d.hw_address@)).push(("driver"@, d.driver@ + " "@ + d.driver_version@)).push(
        ("flags"@, flags_line_text(d)),
    );
    if !d.managed {
        r3
    } else {
        let r4 = if d.ip4.addresses@.len() > 0 {
            r3.push(("ipv4"@, join(string_views(d.ip4.addresses@), ", "@)))
        } else {
            r3
        };
        let r5 = if routing_parts(d.ip4).len() > 0 {
            r4.push(("routing"@, join(routing_parts(d.ip4), " \u{b7} "@)))
        } else {
            r4
        };
        let r6 = match preferred_v6(d.ip6.addresses@) {
            Some(i) => r5.push(("ipv6"@, d.ip6.addresses@[i]@)),
            None => r5,
        };
        if d.last_scan_ms > 0 {
            r6.push(("scanned"@, scan_age_text(d.last_scan_ms, boot_ms) + " ago"@))
        } else {
            r6
        }
    }
}

fn push_row(rows: &mut Vec<DetailRow>, label: &'static str, value: String)
    ensures
        row_views(final(rows)@) == row_views(old(rows)@).push((label@, value@)),
{
    let r = DetailRow { label, value };
    let ghost v = (r.label@, r.value@);
    rows.push(r);
    proof {
        assert(row_views(final(rows)@) == row_views(old(rows)@).push(v));
    }
}

/// The labelled lines of the device pane; `boot_ms` is the boot-time clock in
/// milliseconds, when it could be read.
pub fn device_rows(d: &WifiDevice, boot_ms: Option<i64>) -> (rows: Vec<DetailRow>)
    requires
        forall|i: int| 0 <= i < d.networks@.len() ==> (#[trigger] d.networks@[i]).aps@.len() > 0,
    ensures
        row_views(rows@) == device_rows_text(*d, boot_ms),
{
    let mut rows: Vec<DetailRow> = Vec::new();
    proof {
        assert(row_views(rows@) == Seq::<(Seq<char>, Seq<char>)>::empty());
    }
    push_row(&mut rows, "interface", d.interface.clone());
    push_row(&mut rows, "state", d.state.to_string());
    let ghost r0 = seq![("interface"@, d.interface@), ("state"@, d.state.text())];
    proof {
        assert(row_views(rows@) == r0);
    }
    match &d.active {
        Some(a) => push_row(&mut rows, "profile", active_line(a)),
        None => {},
    }
    let ghost r1 = if d.active is Some {
        r0.push(("profile"@, active_line_text(d.active->0)))
    } else {
        r0
    };
    proof {
        assert(row_views(rows@) == r1);
    }
    let mut i: usize = 0;
    while i < d.networks.len() && !d.networks[i].active
        invariant
            i <= d.networks@.len(),
            first_active(d.networks@, 0) == first_active(d.networks@, i as int),
        decreases d.networks.len() - i,
    {
        i = i + 1;
    }
    if i < d.networks.len() {
        push_row(&mut rows, "link", link_line(d.networks[i].best(), d.bitrate_kbps));
    }
    let ghost r2 = match first_active(d.networks@, 0) {
        Some(net) => r1.push(("link"@, link_line_text(net.aps@[0], d.bitrate_kbps))),
        None => r1,
    };
    proof {
        assert(row_views(rows@) == r2);
    }
    push_row(&mut rows, "mac", d.hw_address.clone());
    let mut driver = d.driver.clone();
    driver.push_str(" ");
    driver.push_str(d.driver_version.as_str());
    push_row(&mut rows, "driver", driver);
    push_row(&mut rows, "flags", flags_line(d));
    let ghost r3 = r2.push(("mac"@, d.hw_address@)).push(("driver"@, d.driver@ + " "@ + d.driver_version@)).push(
        ("flags"@, flags_line_text(*d)),
    );
    proof {
        assert(row_views(rows@) == r3);
    }
    if d.enabled() {
        if d.ip4.addresses.len() > 0 {
            push_row(&mut rows, "ipv4", join_strings(&d.ip4.addresses, ", "));
        }
        let ghost r4 = if d.ip4.addresses@.len() > 0 {
            r3.push(("ipv4"@, join(string_views(d.ip4.addresses@), ", "@)))
        } else {
            r3
        };
        proof {
            assert(row_views(rows@) == r4);
        }
        match routing_line(&d.ip4) {
            Some(t) => push_row(&mut rows, "routing", t),
            None => {},
        }
        let ghost r5 = if routing_parts(d.ip4).len() > 0 {
            r4.push(("routing"@, join(routing_parts(d.ip4), " \u{b7} "@)))
        } else {
            r4
        };
        proof {
            assert(row_views(rows@) == r5);
        }
        match preferred_ipv6(&d.ip6.addresses) {
            Some(k) => push_row(&mut rows, "ipv6", d.ip6.addresses[k].clone()),
            None => {},
        }
        let ghost r6 = match preferred_v6(d.ip6.addresses@) {
            Some(k) => r5.push(("ipv6"@, d.ip6.addresses@[k]@)),
            None => r5,
        };
        proof {
            assert(row_views(rows@) == r6);
        }
        if d.last_scan_ms > 0 {
            let mut t = scan_age(d.last_scan_ms, boot_ms);
            t.push_str(" ago");
            push_row(&mut rows, "scanned", t);
        }
    }
    rows
}

pub open spec fn state_note_text(reason: u32) -> Seq<char> {
    if reason == 0 {
        Seq::empty()
    } else {
        "  ("@ + reason_text(reason) + ")"@
    }
}

/// What follows the state on its line: the reason NetworkManager gave, if any.
pub fn state_note(reason: u32) -> (s: String)
    ensures
        s@ == state_note_text(reason),
{
    if reason == 0 {
        String::new()
    } else {
        let mut s = "  (".to_string();
        let why = device_state_reason(reason);
        s.push_str(why.as_str());
        s.push_str(")");
        s
    }
}

} // verus!
