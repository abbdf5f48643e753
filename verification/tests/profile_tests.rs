use wifimanager::profile::{
    build_wifi_profile, is_secret_group, replace_secret_groups, security_settings, ProfileError,
    Secret, SettingValue,
};
use wifimanager::types::Security;

#[test]
fn a_psk_profile_carries_the_ssid_and_key_management() {
    let profile = build_wifi_profile(
        b"home",
        Security::WpaPsk,
        &Secret::Passphrase("hunter2".into()),
        false,
        "wlan0",
    )
    .unwrap();
    assert_eq!(
        profile.get("connection", "type"),
        Some(&SettingValue::Str("802-11-wireless".into()))
    );
    assert_eq!(
        profile.get("802-11-wireless", "ssid"),
        Some(&SettingValue::Bytes(b"home".to_vec()))
    );
    assert!(!profile.group("802-11-wireless").unwrap().contains_key("hidden"));
    let sec = profile.group("802-11-wireless-security").unwrap();
    assert_eq!(sec.get("key-mgmt"), Some(&SettingValue::Str("wpa-psk".into())));
    assert_eq!(sec.get("psk"), Some(&SettingValue::Str("hunter2".into())));
}

#[test]
fn a_hidden_open_profile_has_no_security_group() {
    let profile =
        build_wifi_profile(b"lab", Security::Open, &Secret::Empty, true, "wlan0").unwrap();
    assert_eq!(profile.get("802-11-wireless", "hidden"), Some(&SettingValue::Bool(true)));
    assert!(!profile.has_group("802-11-wireless-security"));
}

#[test]
fn wep_keys_are_told_apart_from_wep_passphrases() {
    let hex = build_wifi_profile(
        b"old",
        Security::Wep,
        &Secret::Passphrase("0123456789".into()),
        false,
        "wlan0",
    )
    .unwrap();
    assert_eq!(
        hex.get("802-11-wireless-security", "wep-key-type"),
        Some(&SettingValue::U32(1))
    );
    let phrase = build_wifi_profile(
        b"old",
        Security::Wep,
        &Secret::Passphrase("open sesame".into()),
        false,
        "wlan0",
    )
    .unwrap();
    assert_eq!(
        phrase.get("802-11-wireless-security", "wep-key-type"),
        Some(&SettingValue::U32(2))
    );
}

#[test]
fn a_secured_network_never_yields_a_profile_without_a_security_group() {
    let err = build_wifi_profile(b"home", Security::WpaPsk, &Secret::Empty, false, "wlan0")
        .unwrap_err()
        .to_string();
    assert_eq!(err, "WPA2 needs a passphrase");
    assert!(
        build_wifi_profile(
            b"campus",
            Security::Enterprise,
            &Secret::Passphrase("pw".into()),
            false,
            "wlan0",
        )
        .is_err()
    );
}

#[test]
fn an_enterprise_profile_gets_an_802_1x_group() {
    let profile = build_wifi_profile(
        b"campus",
        Security::Enterprise,
        &Secret::Enterprise {
            identity: "ada".into(),
            password: "pw".into(),
        },
        false,
        "wlan0",
    )
    .unwrap();
    assert_eq!(
        profile.get("802-11-wireless-security", "key-mgmt"),
        Some(&SettingValue::Str("wpa-eap".into()))
    );
    assert_eq!(profile.get("802-1x", "identity"), Some(&SettingValue::Str("ada".into())));
    assert_eq!(profile.get("802-1x", "phase2-auth"), Some(&SettingValue::Str("mschapv2".into())));
    assert_eq!(
        profile.get("802-1x", "eap"),
        Some(&SettingValue::StrList(vec!["peap".to_string()]))
    );
}

#[test]
fn the_connection_group_names_and_pins_the_profile() {
    let profile =
        build_wifi_profile(&[0xff], Security::Owe, &Secret::Empty, false, "wlan0").unwrap();
    assert_eq!(profile.get("connection", "id"), Some(&SettingValue::Str("\\xff".into())));
    assert_eq!(profile.get("connection", "interface-name"), Some(&SettingValue::Str("wlan0".into())));
    assert_eq!(profile.get("connection", "autoconnect"), Some(&SettingValue::Bool(true)));
    assert_eq!(profile.get("802-11-wireless-security", "key-mgmt"), Some(&SettingValue::Str("owe".into())));
    assert_eq!(profile.get("ipv4", "method"), Some(&SettingValue::Str("auto".into())));
    assert_eq!(profile.get("ipv6", "method"), Some(&SettingValue::Str("auto".into())));
    assert_eq!(profile.groups.len(), 5);
}

#[test]
fn each_missing_secret_is_named() {
    assert_eq!(
        security_settings(Security::Enterprise, &Secret::Empty).unwrap_err(),
        ProfileError::NeedsIdentity
    );
    assert_eq!(
        ProfileError::NeedsIdentity.to_string(),
        "802.1X needs an identity and a password"
    );
    assert_eq!(
        security_settings(Security::Sae, &Secret::Empty).unwrap_err().to_string(),
        "WPA3 needs a passphrase"
    );
    assert_eq!(
        security_settings(Security::Wep, &Secret::Empty).unwrap_err(),
        ProfileError::NeedsPassphrase(Security::Wep)
    );
    let sae = security_settings(Security::Sae, &Secret::Passphrase("pw".into())).unwrap();
    assert_eq!(sae.len(), 1);
    assert_eq!(sae[0].get("key-mgmt"), Some(&SettingValue::Str("sae".into())));
    // 26 hex digits make a WEP-104 key; a 26-character phrase with a non-hex
    // character stays a passphrase.
    let key = security_settings(Security::Wep, &Secret::Passphrase("0123456789abcdefABCDEF0123".into())).unwrap();
    assert_eq!(key[0].get("wep-key-type"), Some(&SettingValue::U32(1)));
    let phrase = security_settings(Security::Wep, &Secret::Passphrase("0123456789abcdefABCDEF012g".into())).unwrap();
    assert_eq!(phrase[0].get("wep-key-type"), Some(&SettingValue::U32(2)));
}

#[test]
fn a_rekey_replaces_only_the_secret_groups() {
    assert!(is_secret_group("802-11-wireless-security"));
    assert!(is_secret_group("802-1x"));
    assert!(!is_secret_group("802-11-wireless"));
    assert!(!is_secret_group("connection"));
    assert!(!is_secret_group("ipv4"));
    let groups = security_settings(
        Security::Enterprise,
        &Secret::Enterprise { identity: "ada".into(), password: "pw".into() },
    )
    .unwrap();
    assert!(groups.iter().all(|g| is_secret_group(&g.name)));
}

#[test]
fn a_rekey_keeps_the_other_groups_in_order() {
    let stored = vec![
        ("connection".to_string(), 1),
        ("802-11-wireless-security".to_string(), 2),
        ("802-11-wireless".to_string(), 3),
        ("802-1x".to_string(), 4),
        ("ipv4".to_string(), 5),
    ];
    let fresh = vec![("802-11-wireless-security".to_string(), 9)];
    let merged = replace_secret_groups(stored, fresh);
    let names: Vec<(&str, i32)> = merged.iter().map(|(n, v)| (n.as_str(), *v)).collect();
    assert_eq!(
        names,
        [("connection", 1), ("802-11-wireless", 3), ("ipv4", 5), ("802-11-wireless-security", 9)]
    );
}
