use wifimanager::types::{
    band_for_freq, channel_for_freq, describe_security, device_state_reason, ssid_to_string,
    ActiveState, ApMode, Connectivity, DeviceState, NmState, Security, AP_FLAG_PRIVACY, AP_FLAG_WPS,
    SEC_KEY_MGMT_802_1X, SEC_KEY_MGMT_OWE, SEC_KEY_MGMT_PSK, SEC_KEY_MGMT_SAE, SEC_PAIR_CCMP,
    SEC_PAIR_TKIP,
};

#[test]
fn channels_map_across_the_bands() {
    assert_eq!(channel_for_freq(2412), 1);
    assert_eq!(channel_for_freq(2427), 4);
    assert_eq!(channel_for_freq(2484), 14);
    assert_eq!(channel_for_freq(5200), 40);
    assert_eq!(channel_for_freq(5955), 1);
    assert_eq!(band_for_freq(2427), "2.4 GHz");
    assert_eq!(band_for_freq(5200), "5 GHz");
    assert_eq!(band_for_freq(5955), "6 GHz");
}

#[test]
fn security_is_read_off_the_ap_flags() {
    assert_eq!(Security::from_flags(0, 0, 0), Security::Open);
    assert_eq!(Security::from_flags(AP_FLAG_PRIVACY, 0, 0), Security::Wep);
    assert_eq!(
        Security::from_flags(AP_FLAG_PRIVACY, SEC_KEY_MGMT_PSK, 0),
        Security::WpaPsk
    );
    // WPA3-only networks are the ones that need `sae` rather than `wpa-psk`.
    assert_eq!(
        Security::from_flags(AP_FLAG_PRIVACY, 0, SEC_KEY_MGMT_SAE),
        Security::Sae
    );
    // A transition-mode AP advertises both; PSK is the interoperable choice.
    assert_eq!(
        Security::from_flags(AP_FLAG_PRIVACY, 0, SEC_KEY_MGMT_SAE | SEC_KEY_MGMT_PSK),
        Security::WpaPsk
    );
    assert_eq!(
        Security::from_flags(AP_FLAG_PRIVACY, 0, SEC_KEY_MGMT_802_1X),
        Security::Enterprise
    );
    assert_eq!(Security::from_flags(0, 0, SEC_KEY_MGMT_OWE), Security::Owe);
    assert!(!Security::Open.needs_secret());
    assert!(Security::Sae.needs_secret());
}

#[test]
fn security_description_names_ciphers() {
    assert_eq!(
        describe_security(AP_FLAG_PRIVACY, 0, SEC_KEY_MGMT_PSK | SEC_PAIR_CCMP),
        "RSN(psk/ccmp)"
    );
    assert_eq!(describe_security(0, 0, 0), "none");
    assert_eq!(describe_security(AP_FLAG_PRIVACY, 0, 0), "WEP");
}

#[test]
fn ssids_are_rendered_without_letting_control_bytes_through() {
    assert_eq!(ssid_to_string(b"home wifi"), "home wifi");
    assert_eq!(ssid_to_string(b""), "");
    assert_eq!(ssid_to_string(b"a\x07b"), "a\u{fffd}b");
    // Not every SSID is UTF-8; show the bytes rather than mangling them.
    assert_eq!(ssid_to_string(&[0xff, 0xfe]), "\\xff\\xfe");
}

#[test]
fn multibyte_ssids_survive_and_c1_controls_are_blanked() {
    assert_eq!(ssid_to_string("café".as_bytes()), "café");
    assert_eq!(ssid_to_string("x\u{85}y".as_bytes()), "x\u{fffd}y");
    assert_eq!(ssid_to_string(&[0x41, 0x0a]), "A\u{fffd}");
    // A lone continuation byte is not UTF-8.
    assert_eq!(ssid_to_string(&[0x41, 0x80]), "\\x41\\x80");
}

#[test]
fn channel_edges_and_unknown_frequencies() {
    assert_eq!(channel_for_freq(2472), 13);
    assert_eq!(channel_for_freq(5180), 36);
    assert_eq!(channel_for_freq(5885), 177);
    assert_eq!(channel_for_freq(7115), 233);
    assert_eq!(channel_for_freq(2400), 0);
    assert_eq!(channel_for_freq(60480), 0);
    assert_eq!(band_for_freq(2500), "2.4 GHz");
    assert_eq!(band_for_freq(2501), "5 GHz");
    assert_eq!(band_for_freq(5901), "6 GHz");
    assert_eq!(band_for_freq(7201), "60 GHz");
}

#[test]
fn descriptions_list_every_key_and_cipher() {
    assert_eq!(
        describe_security(
            AP_FLAG_PRIVACY | AP_FLAG_WPS,
            SEC_KEY_MGMT_PSK | SEC_PAIR_TKIP,
            SEC_KEY_MGMT_PSK | SEC_KEY_MGMT_SAE | SEC_PAIR_CCMP
        ),
        "WPA(psk/tkip) RSN(psk+sae/ccmp) WPS"
    );
    assert_eq!(describe_security(AP_FLAG_WPS, 0, 0), "none WPS");
    assert_eq!(describe_security(0, 0, 0x10000), "RSN(-)");
    assert_eq!(describe_security(0, 0, SEC_KEY_MGMT_OWE), "RSN(owe/)");
}

#[test]
fn state_numbers_read_as_states() {
    assert_eq!(NmState::from(70u32), NmState::ConnectedGlobal);
    assert_eq!(NmState::from(5u32), NmState::Unknown);
    assert_eq!(NmState::from(50u32).to_string(), "link-local");
    assert_eq!(Connectivity::from(1u32), Connectivity::Offline);
    assert_eq!(Connectivity::from(2u32).to_string(), "captive portal");
    assert_eq!(DeviceState::from(100u32), DeviceState::Activated);
    assert_eq!(DeviceState::from(60u32).to_string(), "needs auth");
    assert!(DeviceState::from(70u32).is_busy());
    assert!(!DeviceState::from(100u32).is_busy());
    assert!(DeviceState::Activated.is_connected());
    assert!(!DeviceState::Failed.is_connected());
    assert_eq!(ActiveState::from(4u32), ActiveState::Deactivated);
    assert_eq!(ApMode::from(3u32).to_string(), "access point");
    assert_eq!(Security::WpaPsk.to_string(), "WPA2");
}

#[test]
fn reasons_are_phrased_or_numbered() {
    assert_eq!(device_state_reason(7), "no secrets \u{2014} wrong or missing password");
    assert_eq!(device_state_reason(53), "SSID not found");
    assert_eq!(device_state_reason(12), "reason 12");
    assert_eq!(device_state_reason(4000000000), "reason 4000000000");
}
