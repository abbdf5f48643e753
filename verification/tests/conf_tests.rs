use wifimanager::conf::{dropin_path, dropin_text};

#[test]
fn the_dropin_names_the_interface_and_unmanages_it() {
    assert_eq!(
        dropin_path("wlp2s0").as_str(),
        "/etc/NetworkManager/conf.d/90-wifimanager-wlp2s0.conf"
    );
    let text = dropin_text("wlp2s0");
    assert!(text.contains("[device-wifimanager-wlp2s0]\n"));
    assert!(text.contains("match-device=interface-name:wlp2s0\n"));
    assert!(text.ends_with("managed=0\n"));
}

#[test]
fn the_dropin_is_marked_as_ours() {
    let text = dropin_text("wlan0");
    assert!(text.starts_with("# Written by wifimanager: this Wi-Fi device is disabled."));
    assert_eq!(text.lines().count(), 5);
}
