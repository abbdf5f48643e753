//! The drop-in that keeps a device disabled across reboots.
//!
//! NetworkManager's `Managed` property is runtime state: a restart or a reboot
//! hands the device back. A `[device-*]` section with `managed=0` in
//! `/etc/NetworkManager/conf.d` is what makes the choice stick, and it is only
//! read when the device appears, so the property is still what switches a live
//! device.

use vstd::prelude::*;

verus! {

/// Where the drop-in for `interface` lives.
pub open spec fn dropin_path_text(interface: Seq<char>) -> Seq<char> {
    "/etc/NetworkManager/conf.d/90-wifimanager-"@ + interface + ".conf"@
}

/// The drop-in's contents: a `[device-*]` section that matches the interface
/// by name and unmanages it.
pub open spec fn dropin_contents(interface: Seq<char>) -> Seq<char> {
    "# Written by wifimanager: this Wi-Fi device is disabled. Press e in\n# wifimanager to enable it again, or delete this file and reload.\n[device-wifimanager-"@
        + interface + "]\nmatch-device=interface-name:"@ + interface + "\nmanaged=0\n"@
}

pub fn dropin_path(interface: &str) -> (p: String)
    ensures
        p@ == dropin_path_text(interface@),
{
    let mut p = "/etc/NetworkManager/conf.d/90-wifimanager-".to_string();
    p.push_str(interface);
    p.push_str(".conf");
    p
}

pub fn dropin_text(interface: &str) -> (t: String)
    ensures
        t@ == dropin_contents(interface@),
{
    let mut t = "# Written by wifimanager: this Wi-Fi device is disabled. Press e in\n# wifimanager to enable it again, or delete this file and reload.\n[device-wifimanager-".to_string();
    t.push_str(interface);
    t.push_str("]\nmatch-device=interface-name:");
    t.push_str(interface);
    t.push_str("\nmanaged=0\n");
    t
}

} // verus!
