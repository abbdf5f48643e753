use wifimanager::networks::{aggregate, preferred_saved, sort_devices};
use wifimanager::types::{
    AccessPoint, ApMode, DeviceState, IpInfo, Network, SavedConnection, WifiDevice,
    AP_FLAG_PRIVACY, SEC_KEY_MGMT_PSK,
};

fn ap(path: &str, ssid: &[u8], strength: u8) -> AccessPoint {
    AccessPoint {
        path: path.to_string(),
        bssid: path.into(),
        ssid: ssid.to_vec(),
        strength,
        frequency: 2412,
        max_bitrate: 130_000,
        mode: ApMode::Infra,
        flags: AP_FLAG_PRIVACY,
        wpa_flags: 0,
        rsn_flags: SEC_KEY_MGMT_PSK,
        last_seen: 0,
    }
}

fn saved(id: &str, ssid: &[u8], interface: Option<&str>) -> SavedConnection {
    SavedConnection {
        path: "/conn/1".to_string(),
        id: id.into(),
        ssid: ssid.to_vec(),
        autoconnect: true,
        interface_name: interface.map(Into::into),
        hidden: false,
    }
}

#[test]
fn aps_sharing_an_ssid_become_one_row() {
    let nets = aggregate(
        vec![
            ap("/ap/1", b"home", 40),
            ap("/ap/2", b"home", 80),
            ap("/ap/3", b"cafe", 60),
        ],
        None,
        &[],
        "wlan0",
    );
    assert_eq!(nets.len(), 2);
    // Strongest network first, and within a row the strongest AP leads.
    assert_eq!(nets[0].name, "home");
    assert_eq!(nets[0].aps.len(), 2);
    assert_eq!(nets[0].best().strength, 80);
    assert_eq!(nets[1].name, "cafe");
}

#[test]
fn the_connected_network_sorts_first_and_leads_with_its_own_ap() {
    let active = "/ap/2".to_string();
    let nets = aggregate(
        vec![
            ap("/ap/1", b"home", 90),
            ap("/ap/2", b"home", 30),
            ap("/ap/3", b"cafe", 99),
        ],
        Some(&active),
        &[],
        "wlan0",
    );
    assert_eq!(nets[0].name, "home");
    assert!(nets[0].active);
    assert_eq!(nets[0].best().path.as_str(), "/ap/2");
}

#[test]
fn nameless_access_points_sort_below_real_networks() {
    let nets = aggregate(
        vec![
            ap("/ap/1", b"", 99),
            ap("/ap/2", b"", 98),
            ap("/ap/3", b"cafe", 20),
        ],
        None,
        &[],
        "wlan0",
    );
    assert_eq!(nets[0].name, "cafe");
    assert!(nets[1].is_hidden());
    assert_eq!(nets[1].aps.len(), 2);
}

#[test]
fn profiles_pinned_to_another_interface_do_not_count_as_saved() {
    let nets = aggregate(
        vec![ap("/ap/1", b"home", 50)],
        None,
        &[
            saved("home-wlan1", b"home", Some("wlan1")),
            saved("home-any", b"home", None),
        ],
        "wlan0",
    );
    assert_eq!(nets[0].saved.len(), 1);
    assert_eq!(nets[0].saved[0].id, "home-any");
}

#[test]
fn equal_rows_are_ordered_by_name_and_every_ap_is_kept() {
    let nets = aggregate(
        vec![
            ap("/ap/1", b"zulu", 50),
            ap("/ap/2", b"alpha", 50),
            ap("/ap/3", b"mike", 50),
            ap("/ap/4", b"alpha", 10),
        ],
        None,
        &[saved("pinned", b"alpha", Some("wlan0"))],
        "wlan0",
    );
    let names: Vec<&str> = nets.iter().map(|n| n.name.as_str()).collect();
    assert_eq!(names, ["alpha", "mike", "zulu"]);
    assert_eq!(nets.iter().map(|n| n.aps.len()).sum::<usize>(), 4);
    assert_eq!(nets[0].saved.len(), 1);
    assert!(nets.iter().all(|n| !n.active));
}

#[test]
fn the_pinned_profile_is_preferred() {
    let net = Network {
        ssid: b"home".to_vec(),
        name: "home".into(),
        aps: vec![ap("/ap/1", b"home", 50)],
        saved: vec![
            saved("any", b"home", None),
            saved("pinned", b"home", Some("wlan0")),
        ],
        active: false,
    };
    assert_eq!(preferred_saved(&net).unwrap().id, "pinned");
    let unpinned = Network { saved: vec![saved("first", b"home", None), saved("second", b"home", None)], ..net };
    assert_eq!(preferred_saved(&unpinned).unwrap().id, "first");
    let none = Network { saved: vec![], ..unpinned };
    assert!(preferred_saved(&none).is_none());
}

fn device(interface: &str) -> WifiDevice {
    WifiDevice {
        path: format!("/dev/{interface}"),
        interface: interface.into(),
        driver: String::new(),
        driver_version: String::new(),
        hw_address: String::new(),
        mtu: 1500,
        state: DeviceState::Disconnected,
        state_reason: 0,
        managed: true,
        disabled_by_config: false,
        autoconnect: true,
        mode: ApMode::Infra,
        bitrate_kbps: 0,
        last_scan_ms: 0,
        active: None,
        ip4: IpInfo::default(),
        ip6: IpInfo::default(),
        networks: Vec::new(),
    }
}

#[test]
fn devices_are_listed_by_interface_name() {
    let sorted = sort_devices(vec![device("wlp3s0"), device("wlan1"), device("wlan0")]);
    let names: Vec<&str> = sorted.iter().map(|d| d.interface.as_str()).collect();
    assert_eq!(names, ["wlan0", "wlan1", "wlp3s0"]);
}

#[test]
fn equally_ranked_access_points_keep_their_listed_order() {
    let nets = aggregate(
        vec![
            ap("/ap/1", b"home", 50),
            ap("/ap/2", b"home", 70),
            ap("/ap/3", b"home", 50),
            ap("/ap/4", b"home", 50),
        ],
        None,
        &[],
        "wlan0",
    );
    let order: Vec<&str> = nets[0].aps.iter().map(|a| a.path.as_str()).collect();
    assert_eq!(order, ["/ap/2", "/ap/1", "/ap/3", "/ap/4"]);
}

#[test]
fn devices_with_one_name_keep_their_listed_order() {
    let mut a = device("wlan0");
    a.path = "/dev/a".into();
    let mut b = device("wlan0");
    b.path = "/dev/b".into();
    let sorted = sort_devices(vec![device("wlp3s0"), a, b]);
    let paths: Vec<&str> = sorted.iter().map(|d| d.path.as_str()).collect();
    assert_eq!(paths, ["/dev/a", "/dev/b", "/dev/wlp3s0"]);
}
