use wifimanager::text::{trim, truncate};
use wifimanager::types::{
    AccessPoint, ApMode, DeviceState, IpInfo, Network, SavedConnection, Security, WifiDevice,
    AP_FLAG_PRIVACY, SEC_KEY_MGMT_PSK,
};
use wifimanager::app::{ConfirmKind, Focus};
use wifimanager::view::{bssid_line, channel_line, device_rows, signal_line, state_note, tab_hint};
use wifimanager::types::{ActiveConnectionInfo, ActiveState};
use wifimanager::view::{
    action_hint, active_line, also_on, confirm_body, confirm_title, device_detail, device_tone,
    devices_placeholder, enabled_flag, flags_line, link_line, networks_placeholder,
    preferred_ipv6, profile_line, radio_label, routing_line, scan_age, security_tone, seen_age,
    selection_marker, short_mode, shown_value, signal_level, spinner_frame, strength_tone,
    yes_no, Tone,
};

fn ap(ssid: &[u8], secured: bool) -> AccessPoint {
    AccessPoint {
        path: "/ap/1".into(),
        bssid: String::new(),
        ssid: ssid.to_vec(),
        strength: 60,
        frequency: 5180,
        max_bitrate: 0,
        mode: ApMode::Infra,
        flags: if secured { AP_FLAG_PRIVACY } else { 0 },
        wpa_flags: 0,
        rsn_flags: if secured { SEC_KEY_MGMT_PSK } else { 0 },
        last_seen: 0,
    }
}

fn row(ssid: &[u8], secured: bool) -> Network {
    Network {
        ssid: ssid.to_vec(),
        name: String::from_utf8_lossy(ssid).into_owned(),
        aps: vec![ap(ssid, secured)],
        saved: vec![],
        active: false,
    }
}

#[test]
fn signal_strength_fills_four_bars() {
    assert_eq!(signal_level(0), 1);
    assert_eq!(signal_level(24), 1);
    assert_eq!(signal_level(25), 2);
    assert_eq!(signal_level(49), 2);
    assert_eq!(signal_level(50), 3);
    assert_eq!(signal_level(74), 3);
    assert_eq!(signal_level(75), 4);
    assert_eq!(signal_level(100), 4);
    assert_eq!(strength_tone(10), Tone::Bad);
    assert_eq!(strength_tone(30), Tone::Warn);
    assert_eq!(strength_tone(60), Tone::Fair);
    assert_eq!(strength_tone(90), Tone::Good);
}

#[test]
fn tones_follow_what_a_value_means() {
    assert_eq!(security_tone(Security::Open), Tone::Bad);
    assert_eq!(security_tone(Security::Wep), Tone::Warn);
    assert_eq!(security_tone(Security::Sae), Tone::Calm);
    assert_eq!(device_tone(DeviceState::Activated), Tone::Good);
    assert_eq!(device_tone(DeviceState::Failed), Tone::Bad);
    assert_eq!(device_tone(DeviceState::Unmanaged), Tone::Dim);
    assert_eq!(device_tone(DeviceState::Config), Tone::Warn);
    assert_eq!(device_tone(DeviceState::Disconnected), Tone::Plain);
}

#[test]
fn small_labels() {
    assert_eq!(selection_marker(true), "▌");
    assert_eq!(selection_marker(false), " ");
    assert_eq!(yes_no(true), "yes");
    assert_eq!(yes_no(false), "no");
    assert_eq!(short_mode(ApMode::Ap), "hotspot");
    assert_eq!(short_mode(ApMode::AdHoc), "ad-hoc");
    assert_eq!(short_mode(ApMode::Unknown), "mode ?");
}

fn plain_device() -> WifiDevice {
    WifiDevice {
        path: "/dev/1".into(),
        interface: "wlan0".into(),
        driver: String::new(),
        driver_version: String::new(),
        hw_address: String::new(),
        mtu: 1500,
        state: DeviceState::Disconnected,
        state_reason: 0,
        managed: true,
        disabled_by_config: false,
        autoconnect: true,
        mode: ApMode::Infra,
        bitrate_kbps: 0,
        last_scan_ms: 0,
        active: None,
        ip4: IpInfo::default(),
        ip6: IpInfo::default(),
        networks: vec![],
    }
}

#[test]
fn the_enabled_flag_says_when_it_ends() {
    let mut d = plain_device();
    assert_eq!(enabled_flag(&d), "enabled");
    d.disabled_by_config = true;
    assert_eq!(enabled_flag(&d), "enabled until reboot");
    d.managed = false;
    assert_eq!(enabled_flag(&d), "disabled");
    d.disabled_by_config = false;
    assert_eq!(enabled_flag(&d), "disabled until reboot");
}

#[test]
fn the_hint_says_what_enter_would_do() {
    assert_eq!(
        action_hint(&row(b"", true)),
        "these access points broadcast no name — press n to join one by SSID"
    );
    let mut active = row(b"home", true);
    active.active = true;
    assert_eq!(action_hint(&active), "connected — d disconnects the device, p re-enters the password");
    let mut saved = row(b"home", true);
    saved.saved = vec![SavedConnection {
        path: "/conn/1".into(),
        id: "home".into(),
        ssid: b"home".to_vec(),
        autoconnect: true,
        interface_name: None,
        hidden: false,
    }];
    assert_eq!(
        action_hint(&saved),
        "↵ connects with the saved profile · p replaces the password · f forgets it"
    );
    assert_eq!(action_hint(&row(b"home", true)), "↵ asks for the password, then joins");
    assert_eq!(action_hint(&row(b"cafe", false)), "↵ joins this open network");
}

#[test]
fn ages_are_rounded_to_what_a_glance_needs() {
    assert_eq!(seen_age(-1, Some(5_000)), "never");
    assert_eq!(seen_age(10, None), "just now");
    assert_eq!(seen_age(10, Some(12_999)), "moments ago");
    assert_eq!(seen_age(10, Some(14_000)), "4s ago");
    assert_eq!(seen_age(10, Some(100_000)), "90s ago");
    assert_eq!(seen_age(10, Some(101_000)), "1m ago");
    assert_eq!(seen_age(100, Some(5_000)), "moments ago");
    assert_eq!(scan_age(0, None), "just now");
    assert_eq!(scan_age(1_000, Some(6_999)), "moments");
    assert_eq!(scan_age(1_000, Some(7_000)), "6s");
    assert_eq!(scan_age(0, Some(600_000)), "10m");
    assert_eq!(scan_age(9_000, Some(1_000)), "moments");
}

#[test]
fn text_is_trimmed_and_shortened_by_characters() {
    assert_eq!(trim("  ada \t"), "ada");
    assert_eq!(trim("   "), "");
    assert_eq!(truncate("home", 4), "home");
    assert_eq!(truncate("home wifi", 5), "home…");
    assert_eq!(truncate("héllo", 3), "hé…");
    assert_eq!(truncate("abc", 0), "…");
}

#[test]
fn empty_panes_say_why() {
    assert_eq!(devices_placeholder(true), "loading…");
    assert_eq!(devices_placeholder(false), "no Wi-Fi devices");
    assert_eq!(networks_placeholder(true, false, true), "loading…");
    assert_eq!(networks_placeholder(false, false, true), "Wi-Fi is off — press w to turn it on");
    assert_eq!(
        networks_placeholder(false, true, true),
        "this device is disabled — press e to enable it"
    );
    assert_eq!(networks_placeholder(false, true, false), "no networks in range — press s to scan");
}

#[test]
fn a_device_row_says_what_matters_most() {
    let mut d = plain_device();
    assert_eq!(device_detail(&d), "");
    d.state_reason = 39;
    assert_eq!(device_detail(&d), "disconnected by request");
    d.managed = false;
    assert_eq!(device_detail(&d), "disabled");
    d.active = Some(ActiveConnectionInfo {
        id: "home".into(),
        state: ActiveState::Activating,
        default_route: false,
    });
    assert_eq!(device_detail(&d), "home");
    let mut home = row(b"home", true);
    home.active = true;
    d.networks = vec![row(b"cafe", false), home];
    assert_eq!(device_detail(&d), "home · 60%");
}

#[test]
fn confirmations_name_the_cost() {
    let forget = ConfirmKind::Forget { name: "home".into(), connections: vec!["/a".into(), "/b".into()] };
    assert_eq!(confirm_title(&forget), "Forget network");
    assert_eq!(
        confirm_body(&forget),
        "Delete 2 saved profiles for “home”?\nThis device will stop connecting to it automatically."
    );
    let one = ConfirmKind::Forget { name: "cafe".into(), connections: vec!["/a".into()] };
    assert!(confirm_body(&one).starts_with("Delete 1 saved profile for “cafe”?"));
    let disable = ConfirmKind::Disable {
        device: "/dev/1".into(),
        interface: "wlan0".into(),
        carrying: Some("home".into()),
    };
    assert_eq!(confirm_title(&disable), "Disable device");
    assert_eq!(
        confirm_body(&disable),
        "Disable wlan0? It is carrying “home”, which another radio may pick up.\n\
         NetworkManager lets go of it and the link goes down. It stays disabled across reboots \
         until e enables it again."
    );
    let idle = ConfirmKind::Disable { device: "/dev/1".into(), interface: "wlan0".into(), carrying: None };
    assert!(confirm_body(&idle).starts_with("Disable wlan0?\nNetworkManager"));
}

#[test]
fn detail_lines_read_naturally() {
    let v6 = vec!["fe80::1/64".to_string(), "2001:db8::5/64".to_string()];
    assert_eq!(preferred_ipv6(&v6), Some(1));
    assert_eq!(preferred_ipv6(&vec!["fe80::1/64".to_string()]), Some(0));
    assert_eq!(preferred_ipv6(&vec![]), None);

    assert_eq!(shown_value("abc", true, false), "•••");
    assert_eq!(shown_value("abc", true, true), "abc");
    assert_eq!(shown_value("abc", false, false), "abc");
    assert_eq!(spinner_frame(0), 0);
    assert_eq!(spinner_frame(95), 1);
    assert_eq!(spinner_frame(900), 0);

    let s = SavedConnection {
        path: "/conn/1".into(),
        id: "home".into(),
        ssid: b"home".to_vec(),
        autoconnect: false,
        interface_name: None,
        hidden: true,
    };
    assert_eq!(profile_line(&s), "home · autoconnect no · hidden");
    let a = ActiveConnectionInfo { id: "home".into(), state: ActiveState::Activated, default_route: true };
    assert_eq!(active_line(&a), "home · activated · default route");
    assert_eq!(link_line(&ap(b"home", true), 866_700), "60% · ch 36 · 5 GHz · 866 Mb/s");
    assert_eq!(link_line(&ap(b"home", true), 0), "60% · ch 36 · 5 GHz");
    assert_eq!(flags_line(&plain_device()), "infra · enabled · autoconnect · mtu 1500");

    let mut ip = IpInfo::default();
    assert_eq!(routing_line(&ip), None);
    ip.gateway = Some("10.0.0.1".into());
    ip.nameservers = vec!["10.0.0.1".into(), "1.1.1.1".into()];
    ip.domains = vec!["lan".into()];
    assert_eq!(routing_line(&ip).as_deref(), Some("gw 10.0.0.1 · dns 10.0.0.1, 1.1.1.1 · lan"));

    let mut net = row(b"home", true);
    for i in 0..4 {
        let mut extra = ap(b"home", true);
        extra.bssid = format!("aa:{i}");
        extra.strength = 40 + i;
        net.aps.push(extra);
    }
    assert_eq!(also_on(&net), "aa:0 40% ch36  aa:1 41% ch36  +2");
    net.aps.truncate(2);
    assert_eq!(also_on(&net), "aa:0 40% ch36");

    assert_eq!(radio_label(false, true), (" blocked ", Tone::Bad));
    assert_eq!(radio_label(true, true), (" Wi-Fi on ", Tone::Good));
    assert_eq!(radio_label(true, false), (" Wi-Fi off ", Tone::Warn));
}

#[test]
fn the_network_pane_describes_its_leading_access_point() {
    let mut a = ap(b"home", true);
    a.bssid = "00:11:22:33:44:55".into();
    a.max_bitrate = 270_000;
    assert_eq!(bssid_line(&a), "00:11:22:33:44:55  (infrastructure)");
    assert_eq!(signal_line(&a), "60%  ·  max 270 Mb/s");
    assert_eq!(channel_line(&a), "36 · 5180 MHz · 5 GHz");
    assert_eq!(tab_hint(Focus::Devices), "tab → networks");
    assert_eq!(tab_hint(Focus::Networks), "tab → devices");
}

#[test]
fn the_device_pane_lists_only_what_applies() {
    let labels = |d: &WifiDevice, boot: Option<i64>| -> Vec<(String, String)> {
        device_rows(d, boot).into_iter().map(|r| (r.label.to_string(), r.value)).collect()
    };
    let mut d = plain_device();
    d.driver = "iwlwifi".into();
    d.driver_version = "6.1".into();
    d.hw_address = "aa:bb".into();
    let rows = labels(&d, None);
    let names: Vec<&str> = rows.iter().map(|r| r.0.as_str()).collect();
    assert_eq!(names, ["interface", "state", "mac", "driver", "flags"]);
    assert_eq!(rows[1].1, "disconnected");
    assert_eq!(rows[3].1, "iwlwifi 6.1");

    let mut home = row(b"home", true);
    home.active = true;
    d.networks = vec![home];
    d.active = Some(ActiveConnectionInfo { id: "home".into(), state: ActiveState::Activated, default_route: false });
    d.ip4.addresses = vec!["10.0.0.5/24".into()];
    d.ip4.gateway = Some("10.0.0.1".into());
    d.ip6.addresses = vec!["fe80::1/64".into(), "2001:db8::5/64".into()];
    d.last_scan_ms = 1_000;
    let rows = labels(&d, Some(61_000));
    let names: Vec<&str> = rows.iter().map(|r| r.0.as_str()).collect();
    assert_eq!(
        names,
        ["interface", "state", "profile", "link", "mac", "driver", "flags", "ipv4", "routing", "ipv6", "scanned"]
    );
    assert_eq!(rows[3].1, "60% · ch 36 · 5 GHz");
    assert_eq!(rows[9].1, "2001:db8::5/64");
    assert_eq!(rows[10].1, "60s ago");

    // A released device shows no addresses, routes or scan age.
    d.managed = false;
    let names: Vec<String> = labels(&d, Some(61_000)).into_iter().map(|r| r.0).collect();
    assert_eq!(names, ["interface", "state", "profile", "link", "mac", "driver", "flags"]);

    assert_eq!(state_note(0), "");
    assert_eq!(state_note(53), "  (SSID not found)");
}
