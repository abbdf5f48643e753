//! Properties of the library as a whole, each proved from the contracts of the
//! functions it speaks of.

use vstd::prelude::*;
use crate::app::{App, ConfirmKind, Event, Job, KeyCode, KeyPress, Level, Modal, Msg, PromptKind, Task, ssid_listed, bytes_opt};
use crate::errors::joined_message;
use crate::networks::{ap_views, row_ok, row_ssids, rows_distinct, rows_ok};
use crate::profile::{secret_group, security_groups, wifi_profile, GroupView, Secret, ValueView};
use crate::types::{AccessPoint, AccessPointView, SavedConnectionView, Security, Snapshot};
use crate::types::{
    AP_FLAG_PRIVACY, SEC_KEY_MGMT_802_1X, SEC_KEY_MGMT_EAP_SUITE_B_192, SEC_KEY_MGMT_OWE,
    SEC_KEY_MGMT_OWE_TM, SEC_KEY_MGMT_PSK, SEC_KEY_MGMT_SAE,
};

verus! {

/// A secured network never yields a profile without a security group: any
/// profile built for something other than an open network carries
/// `802-11-wireless-security`.
pub proof fn law_secured_profile_has_security_group(
    ssid: Seq<u8>,
    security: Security,
    secret: Secret,
    hidden: bool,
    interface: Seq<char>,
)
    requires
        security != Security::Open,
        wifi_profile(ssid, security, secret, hidden, interface) is Ok,
    ensures
        exists|i: int|
            0 <= i < wifi_profile(ssid, security, secret, hidden, interface)->Ok_0.len() && (
            #[trigger] wifi_profile(ssid, security, secret, hidden, interface)->Ok_0[i]).0
                == "802-11-wireless-security"@,
{
    let p = wifi_profile(ssid, security, secret, hidden, interface)->Ok_0;
    match (security, secret) {
        (Security::Enterprise, Secret::Enterprise { .. }) => {
            assert(p[3].0 == "802-11-wireless-security"@);
        },
        _ => {
            assert(p[2].0 == "802-11-wireless-security"@);
        },
    }
}

/// An error with no separate cause is not said twice.
pub proof fn law_cause_not_repeated(message: Seq<char>)
    ensures
        joined_message(message, message) == message,
        joined_message(message, Seq::empty()) == message,
{
}

/// Some row of `nets` holds `ap`.
pub open spec fn in_some_row(nets: Seq<crate::types::Network>, ap: AccessPointView) -> bool {
    exists|k: int| 0 <= k < nets.len() && ap_views((#[trigger] nets[k]).aps@).contains(ap)
}

/// Every access point lands in exactly one row of the list: the row for its
/// SSID.
pub proof fn law_each_ap_in_one_row(
    aps: Seq<AccessPoint>,
    nets: Seq<crate::types::Network>,
    active_ap: Option<Seq<char>>,
    saved: Seq<SavedConnectionView>,
    interface: Seq<char>,
)
    requires
        rows_ok(nets, ap_views(aps), active_ap, saved, interface),
        rows_distinct(nets),
        forall|i: int| 0 <= i < aps.len() ==> row_ssids(nets).contains(#[trigger] aps[i].ssid@),
    ensures
        forall|i: int| 0 <= i < aps.len() ==> #[trigger] in_some_row(nets, aps[i]@),
        forall|i: int, k: int, l: int|
            0 <= i < aps.len() && 0 <= k < nets.len() && 0 <= l < nets.len() && ap_views(
                (#[trigger] nets[k]).aps@,
            ).contains(#[trigger] aps[i]@) && ap_views((#[trigger] nets[l]).aps@).contains(aps[i]@)
                ==> k == l,
{
    broadcast use vstd::seq_lib::group_to_multiset_ensures;

    let apv = ap_views(aps);
    assert forall|i: int| 0 <= i < aps.len() implies #[trigger] in_some_row(nets, aps[i]@) by {
        let k = choose|k: int| 0 <= k < nets.len() && row_ssids(nets)[k] == aps[i].ssid@;
        assert(row_ok(nets[k], apv, active_ap, saved, interface));
        let pred = crate::networks::with_ssid(nets[k].ssid@);
        assert(row_ssids(nets)[k] == nets[k].ssid@);
        assert(apv[i] == aps[i]@);
        assert(pred(apv[i]));
        apv.lemma_filter_contains(pred, i);
        assert(apv.filter(pred).contains(aps[i]@));
        assert(apv.filter(pred).to_multiset().count(aps[i]@) > 0);
        assert(ap_views(nets[k].aps@).to_multiset().count(aps[i]@) > 0);
        assert(ap_views(nets[k].aps@).contains(aps[i]@));
        assert(0 <= k < nets.len());
        assert(in_some_row(nets, aps[i]@));
    }
    assert forall|i: int, k: int, l: int|
        0 <= i < aps.len() && 0 <= k < nets.len() && 0 <= l < nets.len() && ap_views(
            (#[trigger] nets[k]).aps@,
        ).contains(#[trigger] aps[i]@) && ap_views((#[trigger] nets[l]).aps@).contains(aps[i]@)
        implies k == l by {
        assert(row_ok(nets[k], apv, active_ap, saved, interface));
        assert(row_ok(nets[l], apv, active_ap, saved, interface));
        let a = choose|a: int| 0 <= a < nets[k].aps@.len() && ap_views(nets[k].aps@)[a] == aps[i]@;
        let b = choose|b: int| 0 <= b < nets[l].aps@.len() && ap_views(nets[l].aps@)[b] == aps[i]@;
        assert(nets[k].aps@[a].ssid@ == nets[k].ssid@);
        assert(nets[l].aps@[b].ssid@ == nets[l].ssid@);
        if k < l {
            assert(nets[k].ssid@ != nets[l].ssid@);
        } else if l < k {
            assert(nets[l].ssid@ != nets[k].ssid@);
        }
    }
}

/// A refresh does not move the cursors: the selected device stays selected
/// whatever order the new snapshot lists devices in, and the selected network
/// stays selected while its SSID is still listed.
pub proof fn law_refresh_keeps_selection(old: App, new: App, s: Snapshot)
    requires
        App::refreshed(old, new, s),
        old.selected_device is Some,
    ensures
        new.selected_device == old.selected_device,
        (old.selected_ssid matches Some(x) && ssid_listed(new.nets(), x@)) ==> new.selected_ssid
            == old.selected_ssid,
{
}

/// Disabling a device outlives the session, so nothing disables one without
/// asking first: a disable job only ever comes from `y` in its confirmation.
pub proof fn law_disable_is_confirmed(old: App, new: App, ev: Event, now_ms: u64, job: Option<Job>)
    requires
        App::event_handled(old, new, ev, now_ms, job),
        job matches Some(j) && j.task is Disable,
    ensures
        old.modal matches Modal::Confirm(ConfirmKind::Disable { .. }),
        ev matches Event::Key(k) && (k.code == KeyCode::Char('y') || k.code == KeyCode::Char('Y')),
{
}

/// Joining a network that needs a password never goes ahead without one: a
/// key that creates a new profile straight from the network list does so only
/// for a network that asks for no secret.
pub proof fn law_no_secretless_join_of_secured_network(
    old: App,
    new: App,
    ev: Event,
    now_ms: u64,
    job: Option<Job>,
)
    requires
        App::event_handled(old, new, ev, now_ms, job),
        old.modal is Closed,
        job matches Some(j) && j.task is AddAndActivate,
    ensures
        old.has_network(),
        !Security::of_flags(
            old.cur_network().aps@[0].flags,
            old.cur_network().aps@[0].wpa_flags,
            old.cur_network().aps@[0].rsn_flags,
        ).secret_needed(),
{
}

/// Any key closes the help overlay, and does nothing else.
pub proof fn law_any_key_closes_help(old: App, new: App, ev: Event, now_ms: u64, job: Option<Job>)
    requires
        App::event_handled(old, new, ev, now_ms, job),
        old.modal is Help,
        ev matches Event::Key(k) && !k.release && !(k.ctrl && k.code == KeyCode::Char('c')),
    ensures
        job is None,
        new == (App { modal: Modal::Closed, ..old }),
{
}

/// Ctrl-c quits from anywhere, dialogs included.
pub proof fn law_ctrl_c_quits(old: App, new: App, ev: Event, now_ms: u64, job: Option<Job>)
    requires
        App::event_handled(old, new, ev, now_ms, job),
        ev matches Event::Key(k) && !k.release && k.ctrl && k.code == KeyCode::Char('c'),
    ensures
        new.quit,
        job is None,
{
}

/// Work in flight and errors stay on the status line however long ago they
/// were set.
pub proof fn law_errors_and_work_stay_visible(app: App, now_ms: u64)
    requires
        app.status.busy || app.status.level == crate::app::Level::Error,
    ensures
        app.status_shown(now_ms),
{
}

/// A rekey replaces exactly the secret groups: every group the new secret
/// yields is one the rekey dropped, and a first-join profile carries nothing
/// else under those names but its security groups.
pub proof fn law_rekey_touches_only_secret_groups(
    ssid: Seq<u8>,
    security: Security,
    secret: Secret,
    hidden: bool,
    interface: Seq<char>,
)
    requires
        security_groups(security, secret) is Ok,
    ensures
        forall|i: int|
            0 <= i < security_groups(security, secret)->Ok_0.len() ==> secret_group(
                (#[trigger] security_groups(security, secret)->Ok_0[i]).0,
            ),
        wifi_profile(ssid, security, secret, hidden, interface) is Ok,
        forall|i: int|
            0 <= i < wifi_profile(ssid, security, secret, hidden, interface)->Ok_0.len()
                && secret_group((#[trigger] wifi_profile(ssid, security, secret, hidden, interface)->Ok_0[i]).0)
                ==> 2 <= i < 2 + security_groups(security, secret)->Ok_0.len(),
{
    let g = security_groups(security, secret)->Ok_0;
    let p = wifi_profile(ssid, security, secret, hidden, interface)->Ok_0;
    assert(p.len() == g.len() + 4);
    assert(!secret_group("connection"@)) by {
        reveal_strlit("connection");
        reveal_strlit("802-1x");
        reveal_strlit("802-11-wireless-security");
        assert("connection"@[0] != "802-1x"@[0]);
        assert("connection"@[0] != "802-11-wireless-security"@[0]);
    }
    assert(!secret_group("802-11-wireless"@)) by {
        reveal_strlit("802-11-wireless");
        reveal_strlit("802-1x");
        reveal_strlit("802-11-wireless-security");
        assert("802-11-wireless"@.len() != "802-1x"@.len());
        assert("802-11-wireless"@.len() != "802-11-wireless-security"@.len());
    }
    assert(!secret_group("ipv4"@)) by {
        reveal_strlit("ipv4");
        reveal_strlit("802-1x");
        reveal_strlit("802-11-wireless-security");
        assert("ipv4"@[0] != "802-1x"@[0]);
        assert("ipv4"@[0] != "802-11-wireless-security"@[0]);
    }
    assert(!secret_group("ipv6"@)) by {
        reveal_strlit("ipv6");
        reveal_strlit("802-1x");
        reveal_strlit("802-11-wireless-security");
        assert("ipv6"@[0] != "802-1x"@[0]);
        assert("ipv6"@[0] != "802-11-wireless-security"@[0]);
    }
    assert(p[0].0 == "connection"@);
    assert(p[1].0 == "802-11-wireless"@);
    assert(p[p.len() - 2].0 == "ipv4"@);
    assert(p[p.len() - 1].0 == "ipv6"@);
}

/// Keys never change what NetworkManager reported: whatever a key does to the
/// cursors, dialogs and status line, only a refresh replaces the snapshot.
pub proof fn law_keys_leave_the_snapshot(old: App, new: App, ev: Event, now_ms: u64, job: Option<Job>)
    requires
        App::event_handled(old, new, ev, now_ms, job),
    ensures
        new.snapshot == old.snapshot,
{
}

/// A key that starts work leaves no dialog open: the job runs with the
/// interface back on the lists.
pub proof fn law_a_job_closes_every_dialog(old: App, new: App, ev: Event, now_ms: u64, job: Option<Job>)
    requires
        App::event_handled(old, new, ev, now_ms, job),
        job is Some,
    ensures
        new.modal is Closed,
{
}

/// Key releases and other terminal events change nothing and start nothing.
pub proof fn law_only_key_presses_count(old: App, new: App, ev: Event, now_ms: u64, job: Option<Job>)
    requires
        App::event_handled(old, new, ev, now_ms, job),
        ev is Other || (ev matches Event::Key(k) && k.release),
    ensures
        new == old,
        job is None,
{
}

/// Tab twice puts the focus back where it was, and changes nothing else.
pub proof fn law_tab_twice_changes_nothing(
    a: App,
    b: App,
    c: App,
    now_ms: u64,
    first: Option<Job>,
    second: Option<Job>,
)
    requires
        a.modal is Closed,
        App::event_handled(a, b, tab(), now_ms, first),
        App::event_handled(b, c, tab(), now_ms, second),
    ensures
        c == a,
        first is None,
        second is None,
{
}

/// The Tab key, pressed without modifiers.
pub open spec fn tab() -> Event {
    Event::Key(KeyPress { code: KeyCode::Tab, ctrl: false, release: false })
}

/// Esc never starts anything: it closes whatever dialog is open and leaves the
/// rest as it was, or, with no dialog open, clears the status line.
pub proof fn law_escape_dismisses(old: App, new: App, ev: Event, now_ms: u64, job: Option<Job>)
    requires
        App::event_handled(old, new, ev, now_ms, job),
        ev matches Event::Key(k) && k.code == KeyCode::Esc && !k.release,
    ensures
        job is None,
        new.modal is Closed,
        !(old.modal is Closed) ==> new == (App { modal: Modal::Closed, ..old }),
        old.modal is Closed ==> new == (App { status: new.status, status_at_ms: now_ms, ..old })
            && new.status.text@.len() == 0 && new.status.level == Level::Info && !new.status.busy,
{
}

/// Group `group` of profile `p` holds `value` under `key`.
pub open spec fn holds(p: Seq<GroupView>, group: Seq<char>, key: Seq<char>, value: ValueView) -> bool {
    exists|i: int, j: int|
        0 <= i < p.len() && 0 <= j < (#[trigger] p[i]).1.len() && p[i].0 == group && #[trigger] p[i].1[j]
            == (key, value)
}

/// An 802.1X profile carries each typed value under its own key: the
/// `802-1x` group holds the identity under `identity` and the password under
/// `password`.
pub proof fn law_enterprise_profile_carries_what_was_typed(
    ssid: Seq<u8>,
    identity: String,
    password: String,
    hidden: bool,
    interface: Seq<char>,
)
    ensures
        ({
            let secret = Secret::Enterprise { identity, password };
            &&& wifi_profile(ssid, Security::Enterprise, secret, hidden, interface) is Ok
            &&& holds(
                wifi_profile(ssid, Security::Enterprise, secret, hidden, interface)->Ok_0,
                "802-1x"@,
                "identity"@,
                ValueView::Str(identity@),
            )
            &&& holds(
                wifi_profile(ssid, Security::Enterprise, secret, hidden, interface)->Ok_0,
                "802-1x"@,
                "password"@,
                ValueView::Str(password@),
            )
        }),
{
    let secret = Secret::Enterprise { identity, password };
    let p = wifi_profile(ssid, Security::Enterprise, secret, hidden, interface)->Ok_0;
    assert(p[2].1[1] == ("identity"@, ValueView::Str(identity@)));
    assert(p[2].1[2] == ("password"@, ValueView::Str(password@)));
}

/// A network joined by name is marked hidden, so NetworkManager probes for
/// it: Enter in the hidden-network dialog starts a job whose profile holds
/// `hidden = true` in its `802-11-wireless` group.
pub proof fn law_a_network_joined_by_name_is_marked_hidden(
    old: App,
    new: App,
    ev: Event,
    now_ms: u64,
    job: Option<Job>,
)
    requires
        App::event_handled(old, new, ev, now_ms, job),
        old.modal matches Modal::Prompt(p) && p.kind is JoinHidden,
        ev matches Event::Key(k) && k.code == KeyCode::Enter && !k.release,
        job matches Some(j) && j.task is AddAndActivate,
    ensures
        job matches Some(j) && j.task matches Task::AddAndActivate { profile, .. } && holds(
            profile@,
            "802-11-wireless"@,
            "hidden"@,
            ValueView::Bool(true),
        ),
{
    let p = old.modal->Prompt_0;
    let j = job->Some_0;
    let profile = j.task->AddAndActivate_profile;
    let interface = p.kind->JoinHidden_interface;
    let ssid = crate::text::trimmed(p.fields@[0].value@);
    let password = p.fields@[1].value@;
    if password.len() == 0 {
        let w = wifi_profile(vstd::utf8::encode_utf8(ssid), Security::Open, Secret::Empty, true, interface@)->Ok_0;
        assert(w[1].1[2] == ("hidden"@, ValueView::Bool(true)));
    } else {
        let s = choose|s: Secret|
            #![trigger wifi_profile(vstd::utf8::encode_utf8(ssid), Security::WpaPsk, s, true, interface@)]
            (s matches Secret::Passphrase(v) && v@ == password) && wifi_profile(
                vstd::utf8::encode_utf8(ssid),
                Security::WpaPsk,
                s,
                true,
                interface@,
            ) == Ok::<Seq<GroupView>, crate::profile::ProfileError>(profile@);
        let w = wifi_profile(vstd::utf8::encode_utf8(ssid), Security::WpaPsk, s, true, interface@)->Ok_0;
        assert(w[1].1[2] == ("hidden"@, ValueView::Bool(true)));
    }
}

/// An Enhanced Open access point reads as OWE whatever its privacy bit says,
/// as long as no flag word names 802.1X, Suite-B or a pre-shared key and the
/// RSN word names no SAE.
pub proof fn law_owe_is_read_before_the_privacy_bit(flags: u32, wpa: u32, rsn: u32)
    requires
        (wpa | rsn) & (SEC_KEY_MGMT_OWE | SEC_KEY_MGMT_OWE_TM) != 0,
        (wpa | rsn) & (SEC_KEY_MGMT_802_1X | SEC_KEY_MGMT_EAP_SUITE_B_192 | SEC_KEY_MGMT_PSK) == 0,
        rsn & SEC_KEY_MGMT_SAE == 0,
    ensures
        Security::of_flags(flags, wpa, rsn) == Security::Owe,
{
    let both = wpa | rsn;
    assert(both & (0x200u32 | 0x2000u32) == 0 && both & 0x100u32 == 0) by (bit_vector)
        requires
            both & (0x200u32 | 0x2000u32 | 0x100u32) == 0,
    ;
}

/// The privacy bit means WEP only when no flag word names a key management
/// suite NetworkManager reads: no 802.1X, Suite-B, PSK or OWE in either word
/// and no SAE in the RSN word.
pub proof fn law_wep_only_without_key_management(flags: u32, wpa: u32, rsn: u32)
    requires
        Security::of_flags(flags, wpa, rsn) == Security::Wep,
    ensures
        flags & AP_FLAG_PRIVACY != 0,
        (wpa | rsn) & (SEC_KEY_MGMT_802_1X | SEC_KEY_MGMT_EAP_SUITE_B_192 | SEC_KEY_MGMT_PSK
            | SEC_KEY_MGMT_OWE | SEC_KEY_MGMT_OWE_TM) == 0,
        rsn & SEC_KEY_MGMT_SAE == 0,
{
    let both = wpa | rsn;
    assert(both & (0x200u32 | 0x2000u32 | 0x100u32 | 0x800u32 | 0x1000u32) == 0) by (bit_vector)
        requires
            both & (0x200u32 | 0x2000u32) == 0,
            both & 0x100u32 == 0,
            both & (0x800u32 | 0x1000u32) == 0,
    ;
}

/// `d` stops whatever the selected device carries: with an active connection
/// on it, in any device state, the key starts a disconnect of that device.
pub proof fn law_disconnect_stops_an_active_connection(
    old: App,
    new: App,
    ev: Event,
    now_ms: u64,
    job: Option<Job>,
)
    requires
        App::event_handled(old, new, ev, now_ms, job),
        old.modal is Closed,
        ev matches Event::Key(k) && k.code == KeyCode::Char('d') && !k.release,
        old.has_device(),
        old.cur_device().active is Some,
    ensures
        job matches Some(j) && j.task matches Task::Disconnect { device } && device@
            == old.cur_device().path@,
        new == old,
{
}

/// A refresh after the first leaves the status line alone: a spinner or an
/// error on screen survives every snapshot, and so does its timestamp.
pub proof fn law_refresh_leaves_the_status_line(old: App, new: App, s: Box<Snapshot>, now_ms: u64)
    requires
        App::took_msg(old, new, Msg::Snapshot(s), now_ms),
        !old.first_load,
    ensures
        new.status == old.status,
        new.status_at_ms == old.status_at_ms,
{
}

} // verus!
