//! Folding the raw access-point list into the rows the network pane shows.

use vstd::prelude::*;
use vstd::seq_lib::to_multiset_insert;
use crate::text::chars_of;
use crate::types::{
    copy_bytes, ssid_text, ssid_to_string, AccessPoint, AccessPointView, Network,
    SavedConnection, SavedConnectionView, WifiDevice,
};

verus! {

// ------------------------------------------------------------------- orders

/// Lexicographic order on characters, which is the order `str::cmp` gives
/// (UTF-8 byte order follows code point order).
pub open spec fn lex_le(a: Seq<char>, b: Seq<char>) -> bool
    decreases a.len(),
{
    if a.len() == 0 {
        true
    } else if b.len() == 0 {
        false
    } else if (a[0] as u32) != (b[0] as u32) {
        (a[0] as u32) < (b[0] as u32)
    } else {
        lex_le(a.drop_first(), b.drop_first())
    }
}

pub proof fn lemma_lex_le_total(a: Seq<char>, b: Seq<char>)
    ensures
        lex_le(a, b) || lex_le(b, a),
    decreases a.len(),
{
    if a.len() > 0 && b.len() > 0 && (a[0] as u32) == (b[0] as u32) {
        lemma_lex_le_total(a.drop_first(), b.drop_first());
    }
}

pub proof fn lemma_lex_le_trans(a: Seq<char>, b: Seq<char>, c: Seq<char>)
    requires
        lex_le(a, b),
        lex_le(b, c),
    ensures
        lex_le(a, c),
    decreases a.len(),
{
    if a.len() > 0 && b.len() > 0 && c.len() > 0 && (a[0] as u32) == (b[0] as u32) && (b[0] as u32)
        == (c[0] as u32) {
        lemma_lex_le_trans(a.drop_first(), b.drop_first(), c.drop_first());
    }
}

/// `lex_le` on two strings.
pub fn str_le(a: &str, b: &str) -> (r: bool)
    ensures
        r == lex_le(a@, b@),
{
    let x = chars_of(a);
    let y = chars_of(b);
    let mut i: usize = 0;
    proof {
        assert(x@.skip(0) == x@ && y@.skip(0) == y@);
    }
    while i < x.len() && i < y.len() && (x[i] as u32) == (y[i] as u32)
        invariant
            i <= x.len(),
            i <= y.len(),
            lex_le(x@, y@) == lex_le(x@.skip(i as int), y@.skip(i as int)),
        decreases x.len() - i,
    {
        proof {
            assert(x@.skip(i as int).drop_first() == x@.skip(i + 1));
            assert(y@.skip(i as int).drop_first() == y@.skip(i + 1));
        }
        i = i + 1;
    }
    if i == x.len() {
        true
    } else if i == y.len() {
        false
    } else {
        (x[i] as u32) < (y[i] as u32)
    }
}

/// The AP the device is associated with, named by its object path.
pub open spec fn is_active_ap(ap: AccessPointView, active_ap: Option<Seq<char>>) -> bool {
    match active_ap {
        Some(p) => ap.path == p,
        None => false,
    }
}

/// `a` may precede `b` within a row: the associated AP leads, then the
/// stronger signal.
pub open spec fn ap_leads(a: AccessPointView, b: AccessPointView, active_ap: Option<Seq<char>>) -> bool {
    let (ka, kb) = (is_active_ap(a, active_ap), is_active_ap(b, active_ap));
    (ka && !kb) || (ka == kb && a.strength >= b.strength)
}

/// Neither of `a` and `b` leads the other: both or neither are the associated
/// AP, and their signals are equal.
pub open spec fn same_rank(a: AccessPointView, b: AccessPointView, active_ap: Option<Seq<char>>) -> bool {
    is_active_ap(a, active_ap) == is_active_ap(b, active_ap) && a.strength == b.strength
}

/// `members[i]` is `aps[idx[i]]`, and access points of the same rank come in
/// the order `aps` lists them, as a stable sort leaves them.
pub open spec fn aps_stable(
    members: Seq<AccessPoint>,
    aps: Seq<AccessPointView>,
    active_ap: Option<Seq<char>>,
    idx: Seq<int>,
) -> bool {
    &&& idx.len() == members.len()
    &&& forall|i: int| 0 <= i < members.len() ==> 0 <= #[trigger] idx[i] < aps.len() && members[i]@ == aps[idx[i]]
    &&& forall|i: int, j: int|
        0 <= i < j < members.len() && same_rank(#[trigger] members[i]@, #[trigger] members[j]@, active_ap)
            ==> idx[i] < idx[j]
}

/// `a` may precede `b` in the list: the connected network first, nameless
/// rows last, then by signal, then by name.
pub open spec fn row_leads(a: Network, b: Network) -> bool {
    if a.active != b.active {
        a.active
    } else if (a.ssid@.len() == 0) != (b.ssid@.len() == 0) {
        b.ssid@.len() == 0
    } else if a.aps@[0].strength != b.aps@[0].strength {
        a.aps@[0].strength > b.aps@[0].strength
    } else {
        lex_le(a.name@, b.name@)
    }
}

proof fn lemma_row_leads_total(a: Network, b: Network)
    ensures
        row_leads(a, b) || row_leads(b, a),
{
    lemma_lex_le_total(a.name@, b.name@);
}

proof fn lemma_row_leads_trans(a: Network, b: Network, c: Network)
    requires
        row_leads(a, b),
        row_leads(b, c),
    ensures
        row_leads(a, c),
{
    if a.active == b.active && b.active == c.active && (a.ssid@.len() == 0) == (b.ssid@.len()
        == 0) && (b.ssid@.len() == 0) == (c.ssid@.len() == 0) && a.aps@[0].strength
        == b.aps@[0].strength && b.aps@[0].strength == c.aps@[0].strength {
        lemma_lex_le_trans(a.name@, b.name@, c.name@);
    }
}

// --------------------------------------------------------------- row contents

pub open spec fn ap_views(aps: Seq<AccessPoint>) -> Seq<AccessPointView> {
    aps.map_values(|a: AccessPoint| a@)
}

pub open spec fn saved_views(saved: Seq<SavedConnection>) -> Seq<SavedConnectionView> {
    saved.map_values(|s: SavedConnection| s@)
}

/// An AP broadcasting `ssid`.
pub open spec fn with_ssid(ssid: Seq<u8>) -> spec_fn(AccessPointView) -> bool {
    |a: AccessPointView| a.ssid == ssid
}

/// A stored profile that can join `ssid` on `interface`: it names the SSID and
/// is either unpinned or pinned to this interface.
pub open spec fn usable_profile(ssid: Seq<u8>, interface: Seq<char>) -> spec_fn(
    SavedConnectionView,
) -> bool {
    |s: SavedConnectionView|
        s.ssid == ssid && match s.interface_name {
            Some(i) => i == interface,
            None => true,
        }
}

pub open spec fn path_view(p: Option<&String>) -> Option<Seq<char>> {
    match p {
        Some(s) => Some(s@),
        None => None,
    }
}

/// What a row for `n.ssid` is, given the device's APs and stored profiles:
/// all the APs with that SSID (as a multiset), associated AP first and then by
/// strength, marked active when it holds the associated AP, carrying the usable
/// profiles in their stored order, and named by the rendered SSID.
pub open spec fn row_ok(
    n: Network,
    aps: Seq<AccessPointView>,
    active_ap: Option<Seq<char>>,
    saved: Seq<SavedConnectionView>,
    interface: Seq<char>,
) -> bool {
    &&& n.aps@.len() > 0
    &&& forall|i: int| 0 <= i < n.aps@.len() ==> (#[trigger] n.aps@[i]).ssid@ == n.ssid@
    &&& ap_views(n.aps@).to_multiset() == aps.filter(with_ssid(n.ssid@)).to_multiset()
    &&& forall|i: int, j: int|
        0 <= i < j < n.aps@.len() ==> ap_leads(
            #[trigger] n.aps@[i]@,
            #[trigger] n.aps@[j]@,
            active_ap,
        )
    &&& n.active == exists|i: int|
        0 <= i < n.aps@.len() && is_active_ap(#[trigger] n.aps@[i]@, active_ap)
    &&& saved_views(n.saved@) == saved.filter(usable_profile(n.ssid@, interface))
    &&& n.name@ == ssid_text(n.ssid@)
}

fn same_bytes(a: &Vec<u8>, b: &Vec<u8>) -> (r: bool)
    ensures
        r == (a@ == b@),
{
    if a.len() != b.len() {
        return false;
    }
    let mut i: usize = 0;
    while i < a.len()
        invariant
            a.len() == b.len(),
            i <= a.len(),
            forall|j: int| 0 <= j < i ==> a@[j] == b@[j],
        decreases a.len() - i,
    {
        if a[i] != b[i] {
            return false;
        }
        i = i + 1;
    }
    proof {
        assert(a@ == b@);
    }
    true
}

fn is_active(ap: &AccessPoint, active_ap: Option<&String>) -> (r: bool)
    ensures
        r == is_active_ap(ap@, path_view(active_ap)),
{
    match active_ap {
        Some(p) => ap.path == *p,
        None => false,
    }
}

fn ap_leads_exec(a: &AccessPoint, b: &AccessPoint, active_ap: Option<&String>) -> (r: bool)
    ensures
        r == ap_leads(a@, b@, path_view(active_ap)),
{
    let ka = is_active(a, active_ap);
    let kb = is_active(b, active_ap);
    (ka && !kb) || (ka == kb && a.strength >= b.strength)
}

fn row_leads_exec(a: &Network, b: &Network) -> (r: bool)
    requires
        a.aps@.len() > 0,
        b.aps@.len() > 0,
    ensures
        r == row_leads(*a, *b),
{
    if a.active != b.active {
        a.active
    } else if a.is_hidden() != b.is_hidden() {
        b.is_hidden()
    } else if a.aps[0].strength != b.aps[0].strength {
        a.aps[0].strength > b.aps[0].strength
    } else {
        str_le(a.name.as_str(), b.name.as_str())
    }
}

/// Inserts `ap` into a row kept in `ap_leads` order, after every AP that may
/// precede it.
fn insert_ap(members: &mut Vec<AccessPoint>, ap: AccessPoint, active_ap: Option<&String>) -> (p: usize)
    requires
        forall|i: int, j: int|
            0 <= i < j < old(members)@.len() ==> ap_leads(
                #[trigger] old(members)@[i]@,
                #[trigger] old(members)@[j]@,
                path_view(active_ap),
            ),
    ensures
        forall|i: int, j: int|
            0 <= i < j < final(members)@.len() ==> ap_leads(
                #[trigger] final(members)@[i]@,
                #[trigger] final(members)@[j]@,
                path_view(active_ap),
            ),
        p <= old(members)@.len(),
        final(members)@ == old(members)@.insert(p as int, ap),
        forall|q: int|
            p <= q < old(members)@.len() ==> !same_rank(
                #[trigger] old(members)@[q]@,
                ap@,
                path_view(active_ap),
            ),
{
    let ghost act = path_view(active_ap);
    let mut p: usize = 0;
    while p < members.len() && ap_leads_exec(&members[p], &ap, active_ap)
        invariant
            p <= members@.len(),
            act == path_view(active_ap),
            members@ == old(members)@,
            forall|i: int| 0 <= i < p ==> ap_leads(#[trigger] members@[i]@, ap@, act),
        decreases members.len() - p,
    {
        p = p + 1;
    }
    proof {
        assert forall|i: int| p <= i < members@.len() implies ap_leads(
            ap@,
            #[trigger] members@[i]@,
            act,
        ) by {
            if ap_leads(members@[i]@, ap@, act) {
                assert(!ap_leads(members@[p as int]@, ap@, act));
                if i > p {
                    assert(ap_leads(members@[p as int]@, members@[i]@, act));
                }
            }
        }
    }
    proof {
        assert forall|q: int| p <= q < members@.len() implies !same_rank(
            #[trigger] members@[q]@,
            ap@,
            act,
        ) by {
            if same_rank(members@[q]@, ap@, act) {
                assert(!ap_leads(members@[p as int]@, ap@, act));
                if q > p {
                    assert(ap_leads(members@[p as int]@, members@[q]@, act));
                }
            }
        }
    }
    let ghost before = members@;
    members.insert(p, ap);
    proof {
        assert(members@ == before.insert(p as int, ap));
        assert forall|i: int, j: int| 0 <= i < j < members@.len() implies ap_leads(
            #[trigger] members@[i]@,
            #[trigger] members@[j]@,
            act,
        ) by {
            if j < p {
                assert(members@[i] == before[i] && members@[j] == before[j]);
            } else if j == p {
                assert(members@[i] == before[i]);
            } else if i == p {
                assert(members@[j] == before[j - 1]);
            } else if i < p {
                assert(members@[i] == before[i] && members@[j] == before[j - 1]);
            } else {
                assert(members@[i] == before[i - 1] && members@[j] == before[j - 1]);
            }
        }
    }
    p
}

proof fn lemma_views_insert(s: Seq<AccessPoint>, p: int, a: AccessPoint)
    requires
        0 <= p <= s.len(),
    ensures
        ap_views(s.insert(p, a)) == ap_views(s).insert(p, a@),
{
    assert(ap_views(s.insert(p, a)) == ap_views(s).insert(p, a@));
}

/// The APs broadcasting `ssid`, in row order.
fn collect_row(aps: &Vec<AccessPoint>, active_ap: Option<&String>, ssid: &Vec<u8>) -> (members:
    Vec<AccessPoint>)
    ensures
        forall|i: int| 0 <= i < members@.len() ==> (#[trigger] members@[i]).ssid@ == ssid@,
        ap_views(members@).to_multiset() == ap_views(aps@).filter(with_ssid(ssid@)).to_multiset(),
        forall|i: int, j: int|
            0 <= i < j < members@.len() ==> ap_leads(
                #[trigger] members@[i]@,
                #[trigger] members@[j]@,
                path_view(active_ap),
            ),
        (exists|j: int| 0 <= j < aps@.len() && (#[trigger] aps@[j]).ssid@ == ssid@)
            ==> members@.len() > 0,
        exists|idx: Seq<int>| aps_stable(members@, ap_views(aps@), path_view(active_ap), idx),
{
    let ghost all = ap_views(aps@);
    let ghost pred = with_ssid(ssid@);
    let ghost act = path_view(active_ap);
    let mut members: Vec<AccessPoint> = Vec::new();
    let ghost mut idx: Seq<int> = Seq::empty();
    let mut j: usize = 0;
    proof {
        assert(all.take(0) == Seq::<AccessPointView>::empty());
        all.take(0).lemma_filter_len(pred);
        assert(ap_views(members@) == all.take(0).filter(pred));
    }
    while j < aps.len()
        invariant
            j <= aps.len(),
            all == ap_views(aps@),
            pred == with_ssid(ssid@),
            forall|i: int| 0 <= i < members@.len() ==> (#[trigger] members@[i]).ssid@ == ssid@,
            ap_views(members@).to_multiset() == all.take(j as int).filter(pred).to_multiset(),
            forall|i: int, k: int|
                0 <= i < k < members@.len() ==> ap_leads(
                    #[trigger] members@[i]@,
                    #[trigger] members@[k]@,
                    path_view(active_ap),
                ),
            (exists|k: int| 0 <= k < j && (#[trigger] aps@[k]).ssid@ == ssid@) ==> members@.len()
                > 0,
            act == path_view(active_ap),
            aps_stable(members@, all, act, idx),
            forall|i: int| 0 <= i < idx.len() ==> #[trigger] idx[i] < j,
        decreases aps.len() - j,
    {
        proof {
            assert(all.take(j + 1) == all.take(j as int).push(all[j as int]));
            all.take(j as int).lemma_filter_push(all[j as int], pred);
        }
        if same_bytes(&aps[j].ssid, ssid) {
            let ap = aps[j].clone();
            let ghost before = members@;
            let ghost idx0 = idx;
            let pos = insert_ap(&mut members, ap, active_ap);
            proof {
                let p = pos as int;
                idx = idx0.insert(p, j as int);
                assert(ap@ == all[j as int]);
                assert forall|i: int| 0 <= i < members@.len() implies 0 <= #[trigger] idx[i] < all.len()
                    && members@[i]@ == all[idx[i]] by {
                    if i < p {
                        assert(members@[i] == before[i] && idx[i] == idx0[i]);
                    } else if i > p {
                        assert(members@[i] == before[i - 1] && idx[i] == idx0[i - 1]);
                    }
                }
                assert forall|i: int, k: int|
                    0 <= i < k < members@.len() && same_rank(
                        #[trigger] members@[i]@,
                        #[trigger] members@[k]@,
                        act,
                    ) implies idx[i] < idx[k] by {
                    if k < p {
                        assert(members@[i] == before[i] && members@[k] == before[k]);
                        assert(idx[i] == idx0[i] && idx[k] == idx0[k]);
                    } else if k == p {
                        assert(idx[i] == idx0[i]);
                    } else if i == p {
                        assert(members@[k] == before[k - 1]);
                        assert(!same_rank(before[k - 1]@, ap@, act));
                    } else if i < p {
                        assert(members@[i] == before[i] && members@[k] == before[k - 1]);
                        assert(idx[i] == idx0[i] && idx[k] == idx0[k - 1]);
                    } else {
                        assert(members@[i] == before[i - 1] && members@[k] == before[k - 1]);
                        assert(idx[i] == idx0[i - 1] && idx[k] == idx0[k - 1]);
                    }
                }
                assert forall|i: int| 0 <= i < idx.len() implies #[trigger] idx[i] < j + 1 by {
                    if i < p {
                        assert(idx[i] == idx0[i]);
                    } else if i > p {
                        assert(idx[i] == idx0[i - 1]);
                    }
                }
                lemma_views_insert(before, p, ap);
                to_multiset_insert(ap_views(before), p, ap@);
                vstd::seq_lib::to_multiset_build(
                    all.take(j as int).filter(pred),
                    all[j as int],
                );
                assert forall|i: int| 0 <= i < members@.len() implies (
                #[trigger] members@[i]).ssid@ == ssid@ by {
                    if i < p {
                        assert(members@[i] == before[i]);
                    } else if i > p {
                        assert(members@[i] == before[i - 1]);
                    }
                }
            }
        } else {
            proof {
                assert(!pred(all[j as int]));
            }
        }
        j = j + 1;
    }
    proof {
        assert(all.take(aps.len() as int) == all);
        assert(aps_stable(members@, ap_views(aps@), path_view(active_ap), idx));
    }
    members
}

/// The stored profiles that can join `ssid` on `interface`, in stored order.
fn usable_saved(saved: &[SavedConnection], ssid: &Vec<u8>, interface: &str) -> (r: Vec<
    SavedConnection,
>)
    ensures
        saved_views(r@) == saved_views(saved@).filter(usable_profile(ssid@, interface@)),
{
    let ghost all = saved_views(saved@);
    let ghost pred = usable_profile(ssid@, interface@);
    let iface = interface.to_string();
    let mut r: Vec<SavedConnection> = Vec::new();
    let mut j: usize = 0;
    proof {
        assert(all.take(0) == Seq::<SavedConnectionView>::empty());
        all.take(0).lemma_filter_len(pred);
        assert(saved_views(r@) == all.take(0).filter(pred));
    }
    while j < saved.len()
        invariant
            j <= saved@.len(),
            all == saved_views(saved@),
            pred == usable_profile(ssid@, interface@),
            iface@ == interface@,
            saved_views(r@) == all.take(j as int).filter(pred),
        decreases saved.len() - j,
    {
        proof {
            assert(all.take(j + 1) == all.take(j as int).push(all[j as int]));
            all.take(j as int).lemma_filter_push(all[j as int], pred);
        }
        let s = &saved[j];
        let pinned_ok = match &s.interface_name {
            Some(i) => *i == iface,
            None => true,
        };
        if same_bytes(&s.ssid, ssid) && pinned_ok {
            let c = s.clone();
            let ghost before = r@;
            r.push(c);
            proof {
                assert(saved_views(r@) == saved_views(before).push(c@));
            }
        }
        j = j + 1;
    }
    proof {
        assert(all.take(saved@.len() as int) == all);
    }
    r
}

/// One row for `ssid`.
fn build_row(
    aps: &Vec<AccessPoint>,
    active_ap: Option<&String>,
    saved: &[SavedConnection],
    interface: &str,
    ssid: &Vec<u8>,
) -> (n: Network)
    requires
        exists|j: int| 0 <= j < aps@.len() && (#[trigger] aps@[j]).ssid@ == ssid@,
    ensures
        n.ssid@ == ssid@,
        row_ok(n, ap_views(aps@), path_view(active_ap), saved_views(saved@), interface@),
        row_stable(n, ap_views(aps@), path_view(active_ap)),
{
    let members = collect_row(aps, active_ap, ssid);
    let mut active = false;
    let mut i: usize = 0;
    while i < members.len()
        invariant
            i <= members@.len(),
            active == exists|k: int|
                0 <= k < i && is_active_ap(#[trigger] members@[k]@, path_view(active_ap)),
        decreases members.len() - i,
    {
        if is_active(&members[i], active_ap) {
            active = true;
        }
        i = i + 1;
    }
    let usable = usable_saved(saved, ssid, interface);
    let name = ssid_to_string(ssid.as_slice());
    Network { ssid: copy_bytes(ssid), name, aps: members, saved: usable, active }
}

pub open spec fn ap_ssids(aps: Seq<AccessPoint>) -> Seq<Seq<u8>> {
    aps.map_values(|a: AccessPoint| a.ssid@)
}

pub open spec fn byte_views(v: Seq<Vec<u8>>) -> Seq<Seq<u8>> {
    v.map_values(|b: Vec<u8>| b@)
}

fn has_bytes(list: &Vec<Vec<u8>>, b: &Vec<u8>) -> (r: bool)
    ensures
        r == byte_views(list@).contains(b@),
{
    let mut k: usize = 0;
    while k < list.len()
        invariant
            k <= list@.len(),
            forall|m: int| 0 <= m < k ==> (#[trigger] list@[m])@ != b@,
        decreases list.len() - k,
    {
        if same_bytes(&list[k], b) {
            proof {
                assert(byte_views(list@)[k as int] == b@);
            }
            return true;
        }
        k = k + 1;
    }
    proof {
        if byte_views(list@).contains(b@) {
            let m = choose|m: int| 0 <= m < list@.len() && byte_views(list@)[m] == b@;
            assert(list@[m]@ == b@);
        }
    }
    false
}

/// Every SSID that occurs among `aps`, once each.
fn distinct_ssids(aps: &Vec<AccessPoint>) -> (ssids: Vec<Vec<u8>>)
    ensures
        byte_views(ssids@).no_duplicates(),
        forall|j: int| 0 <= j < aps@.len() ==> byte_views(ssids@).contains(#[trigger] aps@[j].ssid@),
        forall|m: int|
            0 <= m < ssids@.len() ==> ap_ssids(aps@).contains(#[trigger] byte_views(ssids@)[m]),
{
    let mut ssids: Vec<Vec<u8>> = Vec::new();
    let mut i: usize = 0;
    while i < aps.len()
        invariant
            i <= aps@.len(),
            byte_views(ssids@).no_duplicates(),
            forall|j: int| 0 <= j < i ==> byte_views(ssids@).contains(#[trigger] aps@[j].ssid@),
            forall|m: int|
                0 <= m < ssids@.len() ==> ap_ssids(aps@).contains(#[trigger] byte_views(ssids@)[m]),
        decreases aps.len() - i,
    {
        let ghost before = byte_views(ssids@);
        if !has_bytes(&ssids, &aps[i].ssid) {
            let b = copy_bytes(&aps[i].ssid);
            ssids.push(b);
            proof {
                assert(byte_views(ssids@) == before.push(aps@[i as int].ssid@));
                assert forall|j: int| 0 <= j < i + 1 implies byte_views(ssids@).contains(
                    #[trigger] aps@[j].ssid@,
                ) by {
                    if j < i {
                        let m = choose|m: int| 0 <= m < before.len() && before[m] == aps@[j].ssid@;
                        assert(byte_views(ssids@)[m] == aps@[j].ssid@);
                    } else {
                        assert(byte_views(ssids@)[before.len() as int] == aps@[j].ssid@);
                    }
                }
                assert forall|m: int| 0 <= m < ssids@.len() implies ap_ssids(aps@).contains(
                    #[trigger] byte_views(ssids@)[m],
                ) by {
                    if m < before.len() {
                        assert(byte_views(ssids@)[m] == before[m]);
                    } else {
                        assert(ap_ssids(aps@)[i as int] == byte_views(ssids@)[m]);
                    }
                }
            }
        }
        i = i + 1;
    }
    ssids
}

pub open spec fn rows_sorted(nets: Seq<Network>) -> bool {
    forall|r: int, s: int| 0 <= r < s < nets.len() ==> row_leads(#[trigger] nets[r], #[trigger] nets[s])
}

pub open spec fn rows_distinct(nets: Seq<Network>) -> bool {
    forall|r: int, s: int|
        0 <= r < s < nets.len() ==> (#[trigger] nets[r]).ssid@ != (#[trigger] nets[s]).ssid@
}

pub open spec fn rows_ok(
    nets: Seq<Network>,
    aps: Seq<AccessPointView>,
    active_ap: Option<Seq<char>>,
    saved: Seq<SavedConnectionView>,
    interface: Seq<char>,
) -> bool {
    forall|r: int| 0 <= r < nets.len() ==> row_ok(#[trigger] nets[r], aps, active_ap, saved, interface)
}

/// Within row `n`, access points of the same rank keep the order of `aps`.
pub open spec fn row_stable(n: Network, aps: Seq<AccessPointView>, active_ap: Option<Seq<char>>) -> bool {
    exists|idx: Seq<int>| #[trigger] aps_stable(n.aps@, aps, active_ap, idx)
}

/// Within every row, access points of the same rank keep the order of `aps`.
pub open spec fn rows_stable(nets: Seq<Network>, aps: Seq<AccessPointView>, active_ap: Option<Seq<char>>) -> bool {
    forall|r: int| 0 <= r < nets.len() ==> #[trigger] row_stable(nets[r], aps, active_ap)
}

pub open spec fn row_ssids(nets: Seq<Network>) -> Seq<Seq<u8>> {
    nets.map_values(|n: Network| n.ssid@)
}

/// Inserts `row` into a list kept in `row_leads` order.
fn insert_row(nets: &mut Vec<Network>, row: Network)
    requires
        row.aps@.len() > 0,
        forall|r: int| 0 <= r < old(nets)@.len() ==> (#[trigger] old(nets)@[r]).aps@.len() > 0,
        rows_sorted(old(nets)@),
    ensures
        rows_sorted(final(nets)@),
        exists|p: int| 0 <= p <= old(nets)@.len() && final(nets)@ == old(nets)@.insert(p, row),
{
    let mut p: usize = 0;
    while p < nets.len() && row_leads_exec(&nets[p], &row)
        invariant
            p <= nets@.len(),
            nets@ == old(nets)@,
            row.aps@.len() > 0,
            forall|r: int| 0 <= r < nets@.len() ==> (#[trigger] nets@[r]).aps@.len() > 0,
            forall|r: int| 0 <= r < p ==> row_leads(#[trigger] nets@[r], row),
        decreases nets.len() - p,
    {
        p = p + 1;
    }
    proof {
        assert forall|r: int| p <= r < nets@.len() implies row_leads(row, #[trigger] nets@[r]) by {
            lemma_row_leads_total(row, nets@[r]);
            if row_leads(nets@[r], row) {
                assert(!row_leads(nets@[p as int], row));
                if r > p {
                    assert(row_leads(nets@[p as int], nets@[r]));
                    lemma_row_leads_trans(nets@[p as int], nets@[r], row);
                }
            }
        }
    }
    let ghost before = nets@;
    let ghost row_v = row;
    nets.insert(p, row);
    proof {
        assert(nets@ == before.insert(p as int, row_v));
        assert forall|r: int, s: int| 0 <= r < s < nets@.len() implies row_leads(
            #[trigger] nets@[r],
            #[trigger] nets@[s],
        ) by {
            if s < p {
                assert(nets@[r] == before[r] && nets@[s] == before[s]);
            } else if s == p {
                assert(nets@[r] == before[r]);
            } else if r == p {
                assert(nets@[s] == before[s - 1]);
            } else if r < p {
                assert(nets@[r] == before[r] && nets@[s] == before[s - 1]);
            } else {
                assert(nets@[r] == before[r - 1] && nets@[s] == before[s - 1]);
            }
        }
    }
}

proof fn lemma_rows_insert(
    before: Seq<Network>,
    p: int,
    row: Network,
    aps: Seq<AccessPointView>,
    active_ap: Option<Seq<char>>,
    saved: Seq<SavedConnectionView>,
    interface: Seq<char>,
)
    requires
        0 <= p <= before.len(),
        rows_ok(before, aps, active_ap, saved, interface),
        row_ok(row, aps, active_ap, saved, interface),
        rows_distinct(before),
        !row_ssids(before).contains(row.ssid@),
    ensures
        rows_ok(before.insert(p, row), aps, active_ap, saved, interface),
        rows_distinct(before.insert(p, row)),
        row_ssids(before.insert(p, row)).to_set() == row_ssids(before).to_set().insert(row.ssid@),
{
    let after = before.insert(p, row);
    assert forall|r: int| 0 <= r < after.len() implies row_ok(
        #[trigger] after[r],
        aps,
        active_ap,
        saved,
        interface,
    ) by {
        if r < p {
            assert(after[r] == before[r]);
        } else if r > p {
            assert(after[r] == before[r - 1]);
        }
    }
    assert forall|r: int, s: int| 0 <= r < s < after.len() implies (#[trigger] after[r]).ssid@
        != (#[trigger] after[s]).ssid@ by {
        if s < p {
            assert(after[r] == before[r] && after[s] == before[s]);
        } else if s == p {
            assert(after[r] == before[r]);
            assert(row_ssids(before)[r] == before[r].ssid@);
        } else if r == p {
            assert(after[s] == before[s - 1]);
            assert(row_ssids(before)[s - 1] == before[s - 1].ssid@);
        } else if r < p {
            assert(after[r] == before[r] && after[s] == before[s - 1]);
        } else {
            assert(after[r] == before[r - 1] && after[s] == before[s - 1]);
        }
    }
    assert(row_ssids(after) == row_ssids(before).insert(p, row.ssid@));
    assert forall|x: Seq<u8>| row_ssids(after).contains(x) == row_ssids(before).to_set().insert(
        row.ssid@,
    ).contains(x) by {
        if row_ssids(after).contains(x) {
            let r = choose|r: int| 0 <= r < after.len() && row_ssids(after)[r] == x;
            if r < p {
                assert(row_ssids(before)[r] == x);
            } else if r > p {
                assert(row_ssids(before)[r - 1] == x);
            }
        }
        if row_ssids(before).contains(x) {
            let r = choose|r: int| 0 <= r < before.len() && row_ssids(before)[r] == x;
            if r < p {
                assert(row_ssids(after)[r] == x);
            } else {
                assert(row_ssids(after)[r + 1] == x);
            }
        }
        if x == row.ssid@ {
            assert(row_ssids(after)[p] == x);
        }
    }
    assert(row_ssids(after).to_set() == row_ssids(before).to_set().insert(row.ssid@));
}

/// Merge the raw AP list into one row per SSID, strongest AP first, tagged with
/// whichever stored profiles could be used to join it.
pub fn aggregate(
    aps: Vec<AccessPoint>,
    active_ap: Option<&String>,
    saved: &[SavedConnection],
    interface: &str,
) -> (nets: Vec<Network>)
    ensures
        rows_ok(nets@, ap_views(aps@), path_view(active_ap), saved_views(saved@), interface@),
        rows_distinct(nets@),
        forall|i: int| 0 <= i < aps@.len() ==> row_ssids(nets@).contains(#[trigger] aps@[i].ssid@),
        rows_sorted(nets@),
        rows_stable(nets@, ap_views(aps@), path_view(active_ap)),
{
    let ghost apv = ap_views(aps@);
    let ghost act = path_view(active_ap);
    let ghost sv = saved_views(saved@);
    let ssids = distinct_ssids(&aps);
    let ghost bv = byte_views(ssids@);
    let mut nets: Vec<Network> = Vec::new();
    let mut k: usize = 0;
    proof {
        assert(row_ssids(nets@).to_set() == bv.take(0).to_set()) by {
            assert(bv.take(0) == Seq::<Seq<u8>>::empty());
            assert(row_ssids(nets@) == Seq::<Seq<u8>>::empty());
        }
    }
    while k < ssids.len()
        invariant
            k <= ssids@.len(),
            apv == ap_views(aps@),
            act == path_view(active_ap),
            sv == saved_views(saved@),
            bv == byte_views(ssids@),
            bv.no_duplicates(),
            forall|m: int|
                0 <= m < ssids@.len() ==> ap_ssids(aps@).contains(#[trigger] byte_views(ssids@)[m]),
            rows_ok(nets@, apv, act, sv, interface@),
            rows_distinct(nets@),
            rows_sorted(nets@),
            rows_stable(nets@, apv, act),
            row_ssids(nets@).to_set() == bv.take(k as int).to_set(),
        decreases ssids.len() - k,
    {
        proof {
            assert(bv[k as int] == ssids@[k as int]@);
        }
        let row = build_row(&aps, active_ap, saved, interface, &ssids[k]);
        let ghost before = nets@;
        let ghost row_v = row;
        proof {
            assert forall|r: int| 0 <= r < before.len() implies (#[trigger] before[r]).aps@.len()
                > 0 by {
                assert(row_ok(before[r], apv, act, sv, interface@));
            }
            if row_ssids(before).contains(row.ssid@) {
                assert(row_ssids(before).to_set().contains(row.ssid@));
                assert(bv.take(k as int).to_set().contains(bv[k as int]));
                let m = choose|m: int| 0 <= m < k && bv.take(k as int)[m] == bv[k as int];
                assert(bv[m] == bv[k as int]);
            }
        }
        insert_row(&mut nets, row);
        proof {
            let p = choose|p: int| 0 <= p <= before.len() && nets@ == before.insert(p, row_v);
            lemma_rows_insert(before, p, row_v, apv, act, sv, interface@);
            assert(row_stable(row_v, apv, act));
            assert forall|r: int| 0 <= r < nets@.len() implies #[trigger] row_stable(nets@[r], apv, act) by {
                if r < p {
                    assert(nets@[r] == before[r]);
                    assert(row_stable(before[r], apv, act));
                } else if r > p {
                    assert(nets@[r] == before[r - 1]);
                    assert(row_stable(before[r - 1], apv, act));
                } else {
                    assert(nets@[r] == row_v);
                }
            }
            assert(rows_stable(nets@, apv, act));
            assert(bv.take(k + 1) == bv.take(k as int).push(bv[k as int]));
            bv.take(k as int).lemma_push_to_set_commute(bv[k as int]);
        }
        k = k + 1;
    }
    proof {
        assert(bv.take(ssids@.len() as int) == bv);
        assert forall|i: int| 0 <= i < aps@.len() implies row_ssids(nets@).contains(
            #[trigger] aps@[i].ssid@,
        ) by {
            assert(bv.contains(aps@[i].ssid@));
            assert(bv.to_set().contains(aps@[i].ssid@));
        }
    }
    nets
}

// ------------------------------------------------------------------ profiles

/// The first profile from `from` on that is pinned to an interface, or 0.
pub open spec fn pinned_from(saved: Seq<SavedConnection>, from: int) -> int
    decreases saved.len() - from,
{
    if from < 0 || from >= saved.len() {
        0
    } else if saved[from].interface_name is Some {
        from
    } else {
        pinned_from(saved, from + 1)
    }
}

/// Which stored profile should we prefer when joining `network`? One pinned to
/// an interface (the first such), else the first one stored.
pub fn preferred_saved(network: &Network) -> (r: Option<&SavedConnection>)
    ensures
        r is None <==> network.saved@.len() == 0,
        r matches Some(s) ==> *s == network.saved@[pinned_from(network.saved@, 0)],
        r matches Some(s) ==> exists|i: int|
            0 <= i < network.saved@.len() && *s == network.saved@[i] && if (
            #[trigger] network.saved@[i]).interface_name is Some {
                forall|j: int| 0 <= j < i ==> (#[trigger] network.saved@[j]).interface_name is None
            } else {
                i == 0 && forall|j: int|
                    0 <= j < network.saved@.len() ==> (
                    #[trigger] network.saved@[j]).interface_name is None
            },
{
    let mut i: usize = 0;
    while i < network.saved.len()
        invariant
            i <= network.saved@.len(),
            forall|j: int| 0 <= j < i ==> (#[trigger] network.saved@[j]).interface_name is None,
            pinned_from(network.saved@, 0) == pinned_from(network.saved@, i as int),
        decreases network.saved.len() - i,
    {
        if network.saved[i].interface_name.is_some() {
            proof {
                assert(pinned_from(network.saved@, i as int) == i);
            }
            return Some(&network.saved[i]);
        }
        proof {
            assert(pinned_from(network.saved@, i as int) == pinned_from(network.saved@, i + 1));
        }
        i = i + 1;
    }
    proof {
        assert(pinned_from(network.saved@, i as int) == 0);
    }
    if network.saved.len() > 0 {
        Some(&network.saved[0])
    } else {
        None
    }
}

// ------------------------------------------------------------------- devices

pub open spec fn devices_sorted(devs: Seq<WifiDevice>) -> bool {
    forall|r: int, s: int|
        0 <= r < s < devs.len() ==> lex_le(
            (#[trigger] devs[r]).interface@,
            (#[trigger] devs[s]).interface@,
        )
}

/// `out[i]` is `input[idx[i]]`, and devices that share an interface name
/// come in the order `input` has them.
pub open spec fn stable_picks(out: Seq<WifiDevice>, input: Seq<WifiDevice>, idx: Seq<int>) -> bool {
    &&& idx.len() == out.len()
    &&& forall|i: int| 0 <= i < out.len() ==> 0 <= #[trigger] idx[i] < input.len() && out[i] == input[idx[i]]
    &&& forall|i: int, j: int|
        0 <= i < j < out.len() && (#[trigger] out[i]).interface@ == (#[trigger] out[j]).interface@
            ==> idx[i] < idx[j]
}

/// The devices ordered by interface name, as `sort_by(interface.cmp)` leaves
/// them: a stable sort, so devices with the same name keep their order.
pub fn sort_devices(devices: Vec<WifiDevice>) -> (r: Vec<WifiDevice>)
    ensures
        r@.to_multiset() == devices@.to_multiset(),
        devices_sorted(r@),
        exists|idx: Seq<int>| stable_picks(r@, devices@, idx),
{
    let ghost input = devices@;
    let mut rest = devices;
    let mut out: Vec<WifiDevice> = Vec::new();
    let ghost mut k: int = 0;
    let ghost mut idx: Seq<int> = Seq::empty();
    proof {
        assert(out@ + rest@ == devices@);
        vstd::seq_lib::lemma_multiset_commutative(out@, rest@);
        assert(input.skip(0) == input);
    }
    while rest.len() > 0
        invariant
            out@.to_multiset().add(rest@.to_multiset()) == input.to_multiset(),
            devices_sorted(out@),
            0 <= k <= input.len(),
            rest@ == input.skip(k),
            stable_picks(out@, input, idx),
            forall|i: int| 0 <= i < idx.len() ==> #[trigger] idx[i] < k,
        decreases rest.len(),
    {
        let ghost rest0 = rest@;
        let d = rest.remove(0);
        proof {
            vstd::seq_lib::to_multiset_remove(rest0, 0);
            assert(rest0.remove(0) == rest@);
            assert(d == input[k]);
            assert(rest@ == input.skip(k + 1));
        }
        let mut p: usize = 0;
        while p < out.len() && str_le(out[p].interface.as_str(), d.interface.as_str())
            invariant
                p <= out@.len(),
                forall|q: int| 0 <= q < p ==> lex_le((#[trigger] out@[q]).interface@, d.interface@),
            decreases out.len() - p,
        {
            p = p + 1;
        }
        proof {
            assert forall|q: int| p <= q < out@.len() implies lex_le(
                d.interface@,
                (#[trigger] out@[q]).interface@,
            ) by {
                lemma_lex_le_total(d.interface@, out@[q].interface@);
                if lex_le(out@[q].interface@, d.interface@) && !lex_le(
                    d.interface@,
                    out@[q].interface@,
                ) {
                    assert(!lex_le(out@[p as int].interface@, d.interface@));
                    if q > p {
                        lemma_lex_le_trans(out@[p as int].interface@, out@[q].interface@, d.interface@);
                    }
                }
            }
        }
        proof {
            assert forall|q: int| p <= q < out@.len() implies (#[trigger] out@[q]).interface@
                != d.interface@ by {
                if out@[q].interface@ == d.interface@ {
                    assert(!lex_le(out@[p as int].interface@, d.interface@));
                    if q > p {
                        assert(lex_le(out@[p as int].interface@, out@[q].interface@));
                    }
                }
            }
        }
        let ghost before = out@;
        let ghost idx0 = idx;
        let ghost dv = d;
        out.insert(p, d);
        proof {
            idx = idx0.insert(p as int, k);
            assert forall|i: int| 0 <= i < out@.len() implies 0 <= #[trigger] idx[i] < input.len()
                && out@[i] == input[idx[i]] by {
                if i < p {
                    assert(out@[i] == before[i] && idx[i] == idx0[i]);
                } else if i > p {
                    assert(out@[i] == before[i - 1] && idx[i] == idx0[i - 1]);
                }
            }
            assert forall|i: int, j: int|
                0 <= i < j < out@.len() && (#[trigger] out@[i]).interface@ == (
                #[trigger] out@[j]).interface@ implies idx[i] < idx[j] by {
                if j < p {
                    assert(out@[i] == before[i] && out@[j] == before[j]);
                    assert(idx[i] == idx0[i] && idx[j] == idx0[j]);
                } else if j == p {
                    assert(idx[i] == idx0[i]);
                } else if i == p {
                    assert(out@[j] == before[j - 1]);
                } else if i < p {
                    assert(out@[i] == before[i] && out@[j] == before[j - 1]);
                    assert(idx[i] == idx0[i] && idx[j] == idx0[j - 1]);
                } else {
                    assert(out@[i] == before[i - 1] && out@[j] == before[j - 1]);
                    assert(idx[i] == idx0[i - 1] && idx[j] == idx0[j - 1]);
                }
            }
            assert forall|i: int| 0 <= i < idx.len() implies #[trigger] idx[i] < k + 1 by {
                if i < p {
                    assert(idx[i] == idx0[i]);
                } else if i > p {
                    assert(idx[i] == idx0[i - 1]);
                }
            }
            k = k + 1;
            to_multiset_insert(before, p as int, dv);
            assert(out@ == before.insert(p as int, dv));
            assert forall|r: int, s: int| 0 <= r < s < out@.len() implies lex_le(
                (#[trigger] out@[r]).interface@,
                (#[trigger] out@[s]).interface@,
            ) by {
                if s < p {
                    assert(out@[r] == before[r] && out@[s] == before[s]);
                } else if s == p {
                    assert(out@[r] == before[r]);
                } else if r == p {
                    assert(out@[s] == before[s - 1]);
                } else if r < p {
                    assert(out@[r] == before[r] && out@[s] == before[s - 1]);
                } else {
                    assert(out@[r] == before[r - 1] && out@[s] == before[s - 1]);
                }
            }
            assert(out@.to_multiset().add(rest@.to_multiset()) == input.to_multiset()) by {
                broadcast use vstd::multiset::group_multiset_axioms;
                broadcast use vstd::seq_lib::group_to_multiset_ensures;
                assert(rest0.contains(dv)) by {
                    assert(rest0[0] == dv);
                }
                assert(rest0.to_multiset().count(dv) > 0);
                assert(out@.to_multiset().add(rest@.to_multiset()) =~= before.to_multiset().add(
                    rest0.to_multiset(),
                ));
            }
        }
    }
    proof {
        broadcast use vstd::multiset::group_multiset_axioms;
        vstd::seq_lib::to_multiset_len(rest@);
        assert(rest@.to_multiset() =~= vstd::multiset::Multiset::empty());
        assert(out@.to_multiset() =~= input.to_multiset());
        assert(stable_picks(out@, input, idx));
    }
    out
}

} // verus!
