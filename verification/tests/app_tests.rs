use wifimanager::app::{
    clamp_move, display_name, job_status, on_off, reject, secret_from, secret_prompt, snapshot_fits, App, ConfirmKind, Event,
    Field, Focus, KeyCode, KeyPress, Level, Modal, Msg, Prompt, PromptKind, Status, Task,
};
use wifimanager::errors::{format_error, format_error_text};
use wifimanager::profile::Secret;
use wifimanager::types::{
    AccessPoint, ActiveConnectionInfo, ActiveState, ApMode, DeviceState, IpInfo, Network,
    Security, Snapshot, WifiDevice, AP_FLAG_PRIVACY, SEC_KEY_MGMT_PSK,
};

#[test]
fn error_keeps_the_action_and_drops_the_bus_boilerplate() {
    let root = anyhow::Error::msg(
        "org.freedesktop.NetworkManager.wifi.scan request failed: not authorized",
    );
    let e = root.context("requesting a scan");
    assert_eq!(
        format_error(&e),
        "requesting a scan: wifi.scan request failed: not authorized\
         \x20 — needs a local login session or root"
    );
}

#[test]
fn a_refused_file_write_points_at_root() {
    let e = anyhow::Error::from(std::io::Error::from_raw_os_error(13))
        .context("writing /etc/NetworkManager/conf.d/90-wifimanager-wlan0.conf");
    assert_eq!(
        format_error(&e),
        "writing /etc/NetworkManager/conf.d/90-wifimanager-wlan0.conf: \
         Permission denied (os error 13)  — needs root"
    );
}

#[test]
fn error_without_a_cause_is_not_doubled_up() {
    let e = anyhow::Error::msg("scan timed out");
    assert_eq!(format_error(&e), "scan timed out");
}

#[test]
fn movement_is_clamped_to_the_list() {
    assert_eq!(clamp_move(0, -1, 5), 0);
    assert_eq!(clamp_move(4, 1, 5), 4);
    assert_eq!(clamp_move(2, 10, 5), 4);
    assert_eq!(clamp_move(2, isize::MIN / 2, 5), 0);
}

#[test]
fn error_text_names_what_would_allow_the_action() {
    assert_eq!(
        format_error_text("forgetting home", "org.freedesktop.DBus.Error.AccessDenied: nope"),
        "forgetting home: AccessDenied: nope"
    );
    assert_eq!(
        format_error_text("disabling wlan0", "PermissionDenied: Operation not permitted"),
        "disabling wlan0: Operation not permitted  — needs root"
    );
    assert_eq!(format_error_text("same", "same"), "same");
    assert_eq!(format_error_text("outer", ""), "outer");
    assert_eq!(
        format_error_text("Not Authorized by polkit", "Not Authorized by polkit"),
        "Not Authorized by polkit  — needs a local login session or root"
    );
}

#[test]
fn small_helpers_render_as_the_interface_shows_them() {
    assert_eq!(on_off(true), "on");
    assert_eq!(on_off(false), "off");
    let hidden = Network { ssid: vec![], name: String::new(), aps: vec![], saved: vec![], active: false };
    assert_eq!(display_name(&hidden), "<hidden>");
    let named = Network { name: "cafe".into(), ssid: b"cafe".to_vec(), ..hidden };
    assert_eq!(display_name(&named), "cafe");
    assert!(matches!(Status::busy("x".into()), Status { level: Level::Info, busy: true, .. }));
    assert!(matches!(Status::ok("x".into()), Status { level: Level::Success, busy: false, .. }));
    assert!(matches!(Status::error("x".into()), Status { level: Level::Error, busy: false, .. }));
}

// ----------------------------------------------------------------- fixtures

fn ap(path: &str, ssid: &[u8], strength: u8, secured: bool) -> AccessPoint {
    AccessPoint {
        path: path.to_string(),
        bssid: "00:11:22:33:44:55".into(),
        ssid: ssid.to_vec(),
        strength,
        frequency: 2437,
        max_bitrate: 130_000,
        mode: ApMode::Infra,
        flags: if secured { AP_FLAG_PRIVACY } else { 0 },
        wpa_flags: 0,
        rsn_flags: if secured { SEC_KEY_MGMT_PSK } else { 0 },
        last_seen: 10,
    }
}

fn net(name: &str, secured: bool) -> Network {
    Network {
        ssid: name.as_bytes().to_vec(),
        name: name.into(),
        aps: vec![ap(&format!("/ap/{name}"), name.as_bytes(), 70, secured)],
        saved: vec![],
        active: false,
    }
}

fn device(path: &str, interface: &str, networks: Vec<Network>) -> WifiDevice {
    WifiDevice {
        path: path.into(),
        interface: interface.into(),
        driver: "iwlwifi".into(),
        driver_version: String::new(),
        hw_address: String::new(),
        mtu: 1500,
        state: DeviceState::Disconnected,
        state_reason: 0,
        managed: true,
        disabled_by_config: false,
        autoconnect: true,
        mode: ApMode::Infra,
        bitrate_kbps: 0,
        last_scan_ms: 0,
        active: None,
        ip4: IpInfo::default(),
        ip6: IpInfo::default(),
        networks,
    }
}

fn snapshot(devices: Vec<WifiDevice>) -> Snapshot {
    Snapshot {
        version: "1.46.0".into(),
        state: None,
        connectivity: None,
        wireless_enabled: true,
        wireless_hw_enabled: true,
        networking_enabled: true,
        devices,
    }
}

fn key(c: char) -> Event {
    Event::Key(KeyPress { code: KeyCode::Char(c), ctrl: false, release: false })
}

fn code(code: KeyCode) -> Event {
    Event::Key(KeyPress { code, ctrl: false, release: false })
}

fn loaded(devices: Vec<WifiDevice>) -> App {
    let mut app = App::new(0);
    app.on_msg(Msg::Snapshot(Box::new(snapshot(devices))), 0);
    app
}

// ----------------------------------------------------------- state machine

#[test]
fn a_fresh_app_waits_for_its_first_snapshot() {
    let app = App::new(5);
    assert!(app.first_load);
    assert!(!app.quit);
    assert_eq!(app.focus, Focus::Networks);
    assert!(matches!(app.modal, Modal::Closed));
    assert_eq!(app.status.text, "connecting to NetworkManager…");
    assert!(app.device().is_none());
    assert!(app.network().is_none());
}

#[test]
fn the_first_snapshot_picks_the_first_device_and_network() {
    let app = loaded(vec![device("/dev/1", "wlan0", vec![net("home", true), net("cafe", false)])]);
    assert!(!app.first_load);
    assert_eq!(app.status.text, "");
    assert_eq!(app.device().unwrap().interface, "wlan0");
    assert_eq!(app.network().unwrap().name, "home");
}

#[test]
fn a_refresh_keeps_the_cursor_on_the_same_network() {
    let mut app = loaded(vec![device("/dev/1", "wlan0", vec![net("home", true), net("cafe", false)])]);
    assert!(app.on_event(code(KeyCode::Down), 0).is_none());
    assert_eq!(app.network().unwrap().name, "cafe");
    // The next scan lists cafe first; the cursor follows it.
    app.on_msg(
        Msg::Snapshot(Box::new(snapshot(vec![device(
            "/dev/1",
            "wlan0",
            vec![net("cafe", false), net("home", true), net("lab", true)],
        )]))),
        10,
    );
    assert_eq!(app.network_index(), 0);
    assert_eq!(app.network().unwrap().name, "cafe");
    // When the network disappears the cursor falls back to the top row.
    app.on_msg(
        Msg::Snapshot(Box::new(snapshot(vec![device("/dev/1", "wlan0", vec![net("lab", true)])]))),
        20,
    );
    assert_eq!(app.network().unwrap().name, "lab");
}

#[test]
fn cursor_keys_stay_inside_the_list() {
    let mut app = loaded(vec![device(
        "/dev/1",
        "wlan0",
        vec![net("a", false), net("b", false), net("c", false)],
    )]);
    app.on_event(code(KeyCode::End), 0);
    assert_eq!(app.network_index(), 2);
    app.on_event(key('j'), 0);
    assert_eq!(app.network_index(), 2);
    app.on_event(code(KeyCode::Home), 0);
    assert_eq!(app.network_index(), 0);
    app.on_event(key('k'), 0);
    assert_eq!(app.network_index(), 0);
    app.on_event(code(KeyCode::PageDown), 0);
    assert_eq!(app.network_index(), 2);
}

#[test]
fn focus_moves_between_the_panes() {
    let mut app = loaded(vec![
        device("/dev/1", "wlan0", vec![net("home", true)]),
        device("/dev/2", "wlan1", vec![net("lab", true)]),
    ]);
    app.on_event(code(KeyCode::Tab), 0);
    assert_eq!(app.focus, Focus::Devices);
    app.on_event(key('j'), 0);
    assert_eq!(app.device().unwrap().interface, "wlan1");
    assert_eq!(app.network().unwrap().name, "lab");
    app.on_event(key('l'), 0);
    assert_eq!(app.focus, Focus::Networks);
    app.on_event(key('h'), 0);
    assert_eq!(app.focus, Focus::Devices);
    // Enter on the device pane moves to the networks.
    assert!(app.on_event(code(KeyCode::Enter), 0).is_none());
    assert_eq!(app.focus, Focus::Networks);
}

#[test]
fn q_and_ctrl_c_quit_and_releases_are_ignored() {
    let mut app = loaded(vec![]);
    app.on_event(Event::Key(KeyPress { code: KeyCode::Char('q'), ctrl: false, release: true }), 0);
    assert!(!app.quit);
    app.on_event(Event::Other, 0);
    assert!(!app.quit);
    app.on_event(key('q'), 0);
    assert!(app.quit);

    let mut app = loaded(vec![]);
    app.on_event(key('?'), 0);
    assert!(matches!(app.modal, Modal::Help));
    app.on_event(Event::Key(KeyPress { code: KeyCode::Char('c'), ctrl: true, release: false }), 0);
    assert!(app.quit);
}

#[test]
fn any_key_closes_help() {
    let mut app = loaded(vec![device("/dev/1", "wlan0", vec![net("home", true)])]);
    app.on_event(key('?'), 0);
    assert!(matches!(app.modal, Modal::Help));
    // The key that closes help does nothing else.
    assert!(app.on_event(key('s'), 0).is_none());
    assert!(matches!(app.modal, Modal::Closed));
}

#[test]
fn the_radio_key_respects_the_hardware_switch() {
    let mut app = loaded(vec![]);
    app.snapshot.wireless_hw_enabled = false;
    assert!(app.on_event(key('w'), 42).is_none());
    assert_eq!(app.status.level, Level::Error);
    assert_eq!(app.status.text, "Wi-Fi is blocked by a hardware switch or rfkill");
    assert_eq!(app.status_at_ms, 42);

    let mut app = loaded(vec![]);
    let job = app.on_event(key('w'), 0).unwrap();
    assert!(matches!(job.task, Task::SetWireless(false)));
    assert_eq!(job.pending, "disabling Wi-Fi…");
    assert_eq!(job.done, "Wi-Fi disabled");
}

#[test]
fn scanning_needs_a_device_a_radio_and_management() {
    let mut app = loaded(vec![]);
    assert!(app.on_event(key('s'), 0).is_none());
    assert_eq!(app.status.text, "no Wi-Fi device selected");

    let mut app = loaded(vec![device("/dev/1", "wlan0", vec![])]);
    let job = app.on_event(key('r'), 0).unwrap();
    assert!(matches!(&job.task, Task::Scan { device } if device == "/dev/1"));
    assert_eq!(job.pending, "scanning on wlan0…");
    assert_eq!(job.done, "scan complete on wlan0");

    app.snapshot.wireless_enabled = false;
    assert!(app.on_event(key('s'), 0).is_none());
    assert_eq!(app.status.text, "Wi-Fi is off — press w to enable it");

    let mut off = device("/dev/1", "wlan0", vec![]);
    off.managed = false;
    let mut app = loaded(vec![off]);
    assert!(app.on_event(key('s'), 0).is_none());
    assert_eq!(app.status.text, "wlan0 is disabled — press e to enable it");
}

#[test]
fn disabling_a_device_asks_first_and_enabling_does_not() {
    let mut dev = device("/dev/1", "wlan0", vec![]);
    dev.active = Some(ActiveConnectionInfo {
        id: "home".into(),
        state: ActiveState::Activated,
        default_route: true,
    });
    let mut app = loaded(vec![dev]);
    assert!(app.on_event(key('e'), 0).is_none());
    match &app.modal {
        Modal::Confirm(ConfirmKind::Disable { device, interface, carrying }) => {
            assert_eq!(device, "/dev/1");
            assert_eq!(interface, "wlan0");
            assert_eq!(carrying.as_deref(), Some("home"));
        }
        other => panic!("expected a confirmation, got {other:?}"),
    }
    // Anything but y drops the question.
    assert!(app.on_event(key('n'), 0).is_none());
    assert!(matches!(app.modal, Modal::Closed));
    app.on_event(key('e'), 0);
    let job = app.on_event(key('y'), 0).unwrap();
    assert!(matches!(&job.task, Task::Disable { device, interface } if device == "/dev/1" && interface == "wlan0"));
    assert_eq!(job.pending, "disabling wlan0…");
    assert_eq!(job.done, "wlan0 disabled");

    let mut off = device("/dev/1", "wlan0", vec![]);
    off.managed = false;
    let mut app = loaded(vec![off]);
    let job = app.on_event(key('e'), 0).unwrap();
    assert!(matches!(job.task, Task::Enable { .. }));
    assert_eq!(job.done, "wlan0 enabled");
}

#[test]
fn device_actions_report_what_they_do() {
    let mut app = loaded(vec![device("/dev/1", "wlan0", vec![])]);
    let job = app.on_event(key('a'), 0).unwrap();
    assert!(matches!(job.task, Task::SetAutoconnect { on: false, .. }));
    assert_eq!(job.pending, "updating device…");
    assert_eq!(job.done, "wlan0 autoconnect off");

    assert!(app.on_event(key('d'), 7).is_none());
    assert_eq!(app.status.text, "wlan0 is not connected");
    assert_eq!(app.status.level, Level::Info);

    let mut on = device("/dev/1", "wlan0", vec![]);
    on.state = DeviceState::Activated;
    let mut app = loaded(vec![on]);
    let job = app.on_event(key('d'), 0).unwrap();
    assert!(matches!(job.task, Task::Disconnect { .. }));
    assert_eq!(job.done, "wlan0 disconnected");
}

#[test]
fn forgetting_asks_and_names_every_profile() {
    let mut home = net("home", true);
    home.saved = vec![
        wifimanager::types::SavedConnection {
            path: "/conn/1".into(),
            id: "home".into(),
            ssid: b"home".to_vec(),
            autoconnect: true,
            interface_name: None,
            hidden: false,
        },
        wifimanager::types::SavedConnection {
            path: "/conn/2".into(),
            id: "home 1".into(),
            ssid: b"home".to_vec(),
            autoconnect: true,
            interface_name: None,
            hidden: false,
        },
    ];
    let mut app = loaded(vec![device("/dev/1", "wlan0", vec![home, net("cafe", false)])]);
    assert!(app.on_event(key('f'), 0).is_none());
    let job = app.on_event(key('Y'), 0).unwrap();
    match job.task {
        Task::Forget { connections } => assert_eq!(connections, ["/conn/1", "/conn/2"]),
        other => panic!("unexpected task {other:?}"),
    }
    assert_eq!(job.pending, "forgetting home…");
    assert_eq!(job.done, "forgot home");

    app.on_event(key('j'), 0);
    assert!(app.on_event(key('f'), 0).is_none());
    assert_eq!(app.status.text, "no saved profile for cafe");
}

#[test]
fn joining_a_secured_network_asks_for_the_password() {
    let mut app = loaded(vec![device("/dev/1", "wlan0", vec![net("home", true), net("cafe", false)])]);
    assert!(app.on_event(code(KeyCode::Enter), 0).is_none());
    match &app.modal {
        Modal::Prompt(p) => {
            assert_eq!(p.fields.len(), 1);
            assert_eq!(p.fields[0].label, "Password");
            assert!(p.fields[0].secret);
        }
        other => panic!("expected a prompt, got {other:?}"),
    }
    // An empty password is refused and the dialog stays.
    assert!(app.on_event(code(KeyCode::Enter), 0).is_none());
    match &app.modal {
        Modal::Prompt(p) => assert_eq!(p.hint, "a password is required"),
        other => panic!("expected the prompt again, got {other:?}"),
    }
    for c in "hunter22".chars() {
        app.on_event(key(c), 0);
    }
    app.on_event(code(KeyCode::Backspace), 0);
    app.on_event(key('2'), 0);
    let job = app.on_event(code(KeyCode::Enter), 0).unwrap();
    assert!(matches!(app.modal, Modal::Closed));
    assert_eq!(job.pending, "connecting to home…");
    assert_eq!(job.done, "connected to home");
    match job.task {
        Task::AddAndActivate { profile, device, ap } => {
            assert_eq!(device, "/dev/1");
            assert_eq!(ap.as_deref(), Some("/ap/home"));
            let sec = profile.group("802-11-wireless-security").unwrap();
            assert!(sec.contains_key("psk"));
        }
        other => panic!("unexpected task {other:?}"),
    }
}

#[test]
fn joining_an_open_network_starts_at_once() {
    let mut app = loaded(vec![device("/dev/1", "wlan0", vec![net("cafe", false)])]);
    let job = app.on_event(code(KeyCode::Enter), 0).unwrap();
    match job.task {
        Task::AddAndActivate { profile, .. } => {
            assert!(!profile.has_group("802-11-wireless-security"));
        }
        other => panic!("unexpected task {other:?}"),
    }
}

#[test]
fn a_saved_network_is_activated_with_its_profile() {
    let mut home = net("home", true);
    home.saved = vec![wifimanager::types::SavedConnection {
        path: "/conn/7".into(),
        id: "home".into(),
        ssid: b"home".to_vec(),
        autoconnect: true,
        interface_name: None,
        hidden: false,
    }];
    let mut app = loaded(vec![device("/dev/1", "wlan0", vec![home])]);
    let job = app.on_event(code(KeyCode::Enter), 0).unwrap();
    assert!(matches!(&job.task, Task::Activate { connection, device, .. } if connection == "/conn/7" && device == "/dev/1"));
    // p asks for a new password for the stored profile instead.
    assert!(app.on_event(key('p'), 0).is_none());
    assert!(matches!(&app.modal, Modal::Prompt(Prompt { kind: PromptKind::Rekey { .. }, .. })));
    for c in "newpass1".chars() {
        app.on_event(key(c), 0);
    }
    let job = app.on_event(code(KeyCode::Enter), 0).unwrap();
    match job.task {
        Task::Rekey { connection, secret, .. } => {
            assert_eq!(connection, "/conn/7");
            assert!(matches!(secret, Secret::Passphrase(p) if p == "newpass1"));
        }
        other => panic!("unexpected task {other:?}"),
    }
}

#[test]
fn the_hidden_network_dialog_reads_two_fields() {
    let mut app = loaded(vec![device("/dev/1", "wlan0", vec![])]);
    assert!(app.on_event(code(KeyCode::Enter), 3).is_none());
    assert_eq!(app.status.text, "nothing to join — press s to scan");
    app.on_event(key('n'), 0);
    match &app.modal {
        Modal::Prompt(p) => {
            assert_eq!(p.title, "Join a hidden network");
            assert_eq!(p.fields.len(), 2);
        }
        other => panic!("expected a prompt, got {other:?}"),
    }
    for c in "lab".chars() {
        app.on_event(key(c), 0);
    }
    // ctrl-r shows the password, Tab moves to it, ctrl-u clears it.
    app.on_event(Event::Key(KeyPress { code: KeyCode::Char('r'), ctrl: true, release: false }), 0);
    app.on_event(code(KeyCode::Tab), 0);
    app.on_event(key('x'), 0);
    app.on_event(Event::Key(KeyPress { code: KeyCode::Char('u'), ctrl: true, release: false }), 0);
    match &app.modal {
        Modal::Prompt(p) => {
            assert!(p.reveal);
            assert_eq!(p.focus, 1);
            assert_eq!(p.fields[0].value, "lab");
            assert_eq!(p.fields[1].value, "");
        }
        other => panic!("expected a prompt, got {other:?}"),
    }
    let job = app.on_event(code(KeyCode::Enter), 0).unwrap();
    match job.task {
        Task::AddAndActivate { profile, ap, .. } => {
            assert!(ap.is_none());
            assert!(!profile.has_group("802-11-wireless-security"));
        }
        other => panic!("unexpected task {other:?}"),
    }
    // Esc drops a dialog.
    app.on_event(key('n'), 0);
    app.on_event(code(KeyCode::Esc), 0);
    assert!(matches!(app.modal, Modal::Closed));
}

#[test]
fn status_messages_fade_unless_they_matter() {
    let mut app = loaded(vec![]);
    app.on_msg(Msg::Status(Status::ok("done".into())), 1_000);
    assert!(app.status_visible(6_999));
    assert!(!app.status_visible(7_000));
    app.on_msg(Msg::Status(Status::error("failed".into())), 1_000);
    assert!(app.status_visible(1_000_000));
    app.on_msg(Msg::Status(Status::busy("working".into())), 1_000);
    assert!(app.status_visible(1_000_000));
    // Esc clears the line.
    app.on_event(code(KeyCode::Esc), 2_000);
    assert_eq!(app.status.text, "");
    assert_eq!(app.status.level, Level::Info);
}

#[test]
fn secret_dialogs_ask_for_what_the_security_needs() {
    let kind = PromptKind::JoinHidden { device: "/dev/1".into(), interface: "wlan0".into() };
    let p = secret_prompt("Join campus".into(), Security::Enterprise, kind);
    assert_eq!(p.hint, "PEAP / MSCHAPv2");
    assert_eq!(p.fields.len(), 2);
    let kind = PromptKind::JoinHidden { device: "/dev/1".into(), interface: "wlan0".into() };
    let p = secret_prompt("Join home".into(), Security::WpaPsk, kind);
    assert_eq!(p.hint, "WPA2 passphrase");
    let kind = PromptKind::JoinHidden { device: "/dev/1".into(), interface: "wlan0".into() };
    let p = secret_prompt("Join old".into(), Security::Wep, kind);
    assert_eq!(p.hint, "WEP key or passphrase");
    let p = reject(p, "try again");
    assert_eq!(p.hint, "try again");
    assert_eq!(p.title, "Join old");
}

#[test]
fn secrets_are_read_off_the_dialog() {
    let prompt = |fields: Vec<Field>| Prompt {
        title: String::new(),
        hint: String::new(),
        fields,
        focus: 0,
        reveal: false,
        kind: PromptKind::JoinHidden { device: String::new(), interface: String::new() },
    };
    let two = |a: &str, b: &str| {
        prompt(vec![
            Field { label: "Identity", value: a.into(), secret: false },
            Field { label: "Password", value: b.into(), secret: true },
        ])
    };
    match secret_from(&two("  ada ", "pw"), Security::Enterprise) {
        Some(Secret::Enterprise { identity, password }) => {
            assert_eq!(identity, "ada");
            assert_eq!(password, "pw");
        }
        other => panic!("unexpected {other:?}"),
    }
    assert!(secret_from(&two("   ", "pw"), Security::Enterprise).is_none());
    assert!(secret_from(&two("ada", ""), Security::Enterprise).is_none());
    let one = prompt(vec![Field { label: "Password", value: "k".into(), secret: true }]);
    assert!(matches!(secret_from(&one, Security::WpaPsk), Some(Secret::Passphrase(k)) if k == "k"));
    let empty = prompt(vec![Field { label: "Password", value: String::new(), secret: true }]);
    assert!(secret_from(&empty, Security::WpaPsk).is_none());
}

#[test]
fn a_snapshot_with_an_empty_row_does_not_fit() {
    let good = snapshot(vec![device("/dev/1", "wlan0", vec![net("home", true)])]);
    assert!(snapshot_fits(&good));
    let mut bad_row = net("home", true);
    bad_row.aps.clear();
    let bad = snapshot(vec![device("/dev/1", "wlan0", vec![bad_row])]);
    assert!(!snapshot_fits(&bad));
    assert!(snapshot_fits(&snapshot(vec![])));
}

#[test]
fn tab_twice_and_escape_leave_things_as_they_were() {
    let mut app = loaded(vec![device("/dev/1", "wlan0", vec![net("home", true)])]);
    app.on_event(code(KeyCode::Tab), 0);
    app.on_event(code(KeyCode::BackTab), 0);
    assert_eq!(app.focus, Focus::Networks);
    assert_eq!(app.network().unwrap().name, "home");

    // Esc closes a dialog and changes nothing else.
    app.on_event(code(KeyCode::Enter), 0);
    assert!(matches!(app.modal, Modal::Prompt(_)));
    app.on_msg(Msg::Status(Status::error("kept".into())), 5);
    assert!(app.on_event(code(KeyCode::Esc), 9).is_none());
    assert!(matches!(app.modal, Modal::Closed));
    assert_eq!(app.status.text, "kept");
    assert_eq!(app.status_at_ms, 5);
    // With nothing open it clears the status line.
    app.on_event(code(KeyCode::Esc), 9);
    assert_eq!(app.status.text, "");
    assert_eq!(app.status_at_ms, 9);
    // Keys never touch what NetworkManager reported.
    assert_eq!(app.snapshot.version, "1.46.0");
    assert_eq!(app.devices().len(), 1);
}

#[test]
fn a_finished_job_reports_success_or_the_error() {
    let ok = job_status("connected to home".into(), Ok(()));
    assert_eq!(ok.level, Level::Success);
    assert_eq!(ok.text, "connected to home");
    assert!(!ok.busy);
    let err = job_status(
        "connected to home".into(),
        Err(anyhow::Error::msg("org.freedesktop.NetworkManager.failed: not authorized")),
    );
    assert_eq!(err.level, Level::Error);
    assert_eq!(err.text, "failed: not authorized  — needs a local login session or root");
}
