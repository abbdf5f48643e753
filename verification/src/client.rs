//! The decisions inside the NetworkManager client's bus conversations: what
//! a property read means, when a scan has landed, how an activation ends.

use vstd::prelude::*;
use crate::text::{cat2, push_decimal, decimal};
use crate::types::{device_state_reason, reason_text, ActiveState, DeviceState, SavedConnection};

verus! {

/// NetworkManager's "unset" object path.
pub open spec fn is_unset_path(p: Seq<char>) -> bool {
    p == "/"@
}

/// An object path property: NetworkManager uses `/` as its "unset" sentinel.
pub fn object_path(p: String) -> (r: Option<String>)
    ensures
        is_unset_path(p@) ==> r is None,
        !is_unset_path(p@) ==> (r matches Some(q) && q@ == p@),
{
    let v = crate::text::chars_of(p.as_str());
    if v.len() == 1 && v[0] == '/' {
        proof {
            reveal_strlit("/");
            assert(p@ == "/"@);
        }
        None
    } else {
        proof {
            reveal_strlit("/");
            if p@ == "/"@ {
                assert(v@.len() == 1 && v@[0] == '/');
            }
        }
        Some(p)
    }
}

/// `RequestScan` returns as soon as the request is queued; the scan has landed
/// once `LastScan` has moved. A failed read is "unknown", not a value: -1 is
/// what NetworkManager reports for a device that never scanned, so folding the
/// two together would let a read error pass for a finished scan.
pub fn scan_finished(before: Option<i64>, now: Option<i64>) -> (b: bool)
    ensures
        b == (before is Some && now is Some && before->0 != now->0),
{
    match (before, now) {
        (Some(a), Some(b)) => a != b,
        _ => false,
    }
}

/// Where an activation stands after one look at it.
#[derive(Debug)]
pub enum ActivationStep {
    Connected,
    Failed(String),
    Waiting,
}

/// The failure sentence, with the device's stated reason.
pub open spec fn failure_text(reason: u32) -> Seq<char> {
    "connection failed: "@ + reason_text(reason)
}

/// One poll of an activation. `active` is the active connection's state, or
/// `None` when that object could not be read: NetworkManager tears it down on
/// failure. A failed device also ends the wait.
pub fn activation_step(active: Option<ActiveState>, device: DeviceState, reason: u32) -> (r:
    ActivationStep)
    ensures
        active == Some(ActiveState::Activated) ==> r is Connected,
        (active is None || active == Some(ActiveState::Deactivated)) ==> (r matches ActivationStep::Failed(m)
            && m@ == failure_text(reason)),
        (active matches Some(s) && s != ActiveState::Activated && s != ActiveState::Deactivated)
            ==> if device == DeviceState::Failed {
            (r matches ActivationStep::Failed(m) && m@ == failure_text(reason))
        } else {
            r is Waiting
        },
{
    match active {
        Some(ActiveState::Activated) => return ActivationStep::Connected,
        Some(ActiveState::Deactivated) | None => {
            let why = device_state_reason(reason);
            return ActivationStep::Failed(cat2("connection failed: ", why.as_str()));
        },
        _ => {},
    }
    if device == DeviceState::Failed {
        let why = device_state_reason(reason);
        return ActivationStep::Failed(cat2("connection failed: ", why.as_str()));
    }
    ActivationStep::Waiting
}

/// `address/prefix`, as an IP configuration lists it.
pub fn address_with_prefix(address: &str, prefix: u32) -> (s: String)
    ensures
        s@ == address@ + "/"@ + decimal(prefix as nat),
{
    let mut s = address.to_string();
    s.push_str("/");
    push_decimal(&mut s, prefix as u64);
    s
}

/// A stored profile, from what its settings hold: only `802-11-wireless`
/// profiles count. A missing id or SSID reads as empty, a missing autoconnect
/// as on, a missing or empty interface name as unpinned, a missing hidden flag
/// as off.
pub fn saved_connection(
    path: String,
    kind: Option<String>,
    id: Option<String>,
    ssid: Option<Vec<u8>>,
    autoconnect: Option<bool>,
    interface_name: Option<String>,
    hidden: Option<bool>,
) -> (r: Option<SavedConnection>)
    ensures
        r is Some <==> (kind matches Some(k) && k@ == "802-11-wireless"@),
        r matches Some(c) ==> {
            &&& c.path@ == path@
            &&& c.id@ == match id {
                Some(i) => i@,
                None => Seq::empty(),
            }
            &&& c.ssid@ == match ssid {
                Some(b) => b@,
                None => Seq::empty(),
            }
            &&& c.autoconnect == match autoconnect {
                Some(a) => a,
                None => true,
            }
            &&& match interface_name {
                Some(i) => if i@.len() > 0 {
                    (c.interface_name matches Some(j) && j@ == i@)
                } else {
                    c.interface_name is None
                },
                None => c.interface_name is None,
            }
            &&& c.hidden == match hidden {
                Some(h) => h,
                None => false,
            }
        },
{
    let wireless = match &kind {
        Some(k) => crate::profile::str_eq(k.as_str(), "802-11-wireless"),
        None => false,
    };
    if !wireless {
        return None;
    }
    let interface_name = match interface_name {
        Some(i) => if i.as_str().is_empty() {
            None
        } else {
            Some(i)
        },
        None => None,
    };
    Some(SavedConnection {
        path,
        id: match id {
            Some(i) => i,
            None => String::new(),
        },
        ssid: match ssid {
            Some(b) => b,
            None => Vec::new(),
        },
        autoconnect: match autoconnect {
            Some(a) => a,
            None => true,
        },
        interface_name,
        hidden: match hidden {
            Some(h) => h,
            None => false,
        },
    })
}

/// A bus that is down fails every refresh; reporting the same sentence twice
/// a second only costs the user the status message they were reading. Says
/// whether `text` is news, and remembers it.
pub fn report_error(last: &mut Option<String>, text: &str) -> (news: bool)
    ensures
        news == !(*old(last) matches Some(l) && l@ == text@),
        (*final(last) matches Some(l) && l@ == text@),
{
    let news = match last {
        Some(l) => !crate::profile::str_eq(l.as_str(), text),
        None => true,
    };
    *last = Some(text.to_string());
    news
}

} // verus!
