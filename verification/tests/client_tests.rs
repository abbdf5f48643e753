use wifimanager::link::interface_name_fits;
use wifimanager::cli::{parse_args, usage, Command};
use wifimanager::client::{
    activation_step, address_with_prefix, object_path, report_error, saved_connection,
    scan_finished, ActivationStep,
};
use wifimanager::types::{ActiveState, DeviceState};

#[test]
fn the_root_path_means_no_object() {
    assert_eq!(object_path("/".into()), None);
    assert_eq!(
        object_path("/org/freedesktop/NetworkManager/AccessPoint/3".into()).as_deref(),
        Some("/org/freedesktop/NetworkManager/AccessPoint/3")
    );
}

#[test]
fn a_scan_is_done_when_last_scan_moves() {
    assert!(!scan_finished(Some(100), Some(100)));
    assert!(scan_finished(Some(100), Some(250)));
    assert!(!scan_finished(None, Some(250)));
    assert!(!scan_finished(Some(100), None));
}

#[test]
fn an_activation_ends_in_success_failure_or_keeps_waiting() {
    assert!(matches!(
        activation_step(Some(ActiveState::Activated), DeviceState::Activated, 0),
        ActivationStep::Connected
    ));
    assert!(matches!(
        activation_step(Some(ActiveState::Activating), DeviceState::Config, 0),
        ActivationStep::Waiting
    ));
    match activation_step(None, DeviceState::Disconnected, 7) {
        ActivationStep::Failed(m) => {
            assert_eq!(m, "connection failed: no secrets — wrong or missing password")
        }
        _ => panic!("expected a failure"),
    }
    match activation_step(Some(ActiveState::Activating), DeviceState::Failed, 53) {
        ActivationStep::Failed(m) => assert_eq!(m, "connection failed: SSID not found"),
        _ => panic!("expected a failure"),
    }
    match activation_step(Some(ActiveState::Deactivated), DeviceState::Disconnected, 12) {
        ActivationStep::Failed(m) => assert_eq!(m, "connection failed: reason 12"),
        _ => panic!("expected a failure"),
    }
}

#[test]
fn addresses_carry_their_prefix() {
    assert_eq!(address_with_prefix("192.168.1.20", 24), "192.168.1.20/24");
    assert_eq!(address_with_prefix("fe80::1", 64), "fe80::1/64");
    assert_eq!(address_with_prefix("10.0.0.1", 0), "10.0.0.1/0");
}

#[test]
fn stored_profiles_fill_in_their_defaults() {
    let c = saved_connection(
        "/conn/1".into(),
        Some("802-11-wireless".into()),
        None,
        Some(b"home".to_vec()),
        None,
        Some(String::new()),
        None,
    )
    .unwrap();
    assert_eq!(c.path, "/conn/1");
    assert_eq!(c.id, "");
    assert_eq!(c.ssid, b"home");
    assert!(c.autoconnect);
    assert_eq!(c.interface_name, None);
    assert!(!c.hidden);

    let c = saved_connection(
        "/conn/2".into(),
        Some("802-11-wireless".into()),
        Some("lab".into()),
        None,
        Some(false),
        Some("wlan1".into()),
        Some(true),
    )
    .unwrap();
    assert_eq!(c.id, "lab");
    assert!(c.ssid.is_empty());
    assert!(!c.autoconnect);
    assert_eq!(c.interface_name.as_deref(), Some("wlan1"));
    assert!(c.hidden);

    assert!(saved_connection("/conn/3".into(), Some("802-3-ethernet".into()), None, None, None, None, None)
        .is_none());
    assert!(saved_connection("/conn/4".into(), None, None, None, None, None, None).is_none());
}

#[test]
fn the_same_refresh_error_is_reported_once() {
    let mut last = None;
    assert!(report_error(&mut last, "bus down"));
    assert!(!report_error(&mut last, "bus down"));
    assert!(report_error(&mut last, "timed out"));
    assert_eq!(last.as_deref(), Some("timed out"));
}

#[test]
fn arguments_choose_help_version_or_the_interface() {
    assert!(matches!(parse_args(None), Command::Run));
    assert!(matches!(parse_args(Some("-h")), Command::Help));
    assert!(matches!(parse_args(Some("--help")), Command::Help));
    assert!(matches!(parse_args(Some("-V")), Command::Version));
    assert!(matches!(parse_args(Some("--version")), Command::Version));
    assert!(matches!(parse_args(Some("--bogus")), Command::Unexpected(a) if a == "--bogus"));
    assert!(usage().starts_with("wifimanager — a terminal Wi-Fi manager"));
}

#[test]
fn interface_names_must_fit_the_kernel_buffer() {
    assert!(interface_name_fits("wlan0", 16));
    assert!(interface_name_fits("wlp0s20f3abcdefg", 17));
    assert!(!interface_name_fits("wlp0s20f3abcdefg", 16));
    assert!(!interface_name_fits("", 16));
    // The limit counts bytes, not characters.
    assert!(!interface_name_fits("ééééééééé", 16));
}
