//! Connection profiles: the settings NetworkManager needs to join a network.

use vstd::prelude::*;
use crate::text::{chars_of, is_hex_digit_char};
use crate::types::{copy_bytes, ssid_text, ssid_to_string, Security};

verus! {

/// What the user typed in the join dialog.
#[derive(Debug)]
pub enum Secret {
    Empty,
    Passphrase(String),
    Enterprise { identity: String, password: String },
}

/// One value of a profile setting, in the D-Bus types NetworkManager expects.
#[derive(Debug, PartialEq, Eq)]
pub enum SettingValue {
    Str(String),
    Bytes(Vec<u8>),
    Bool(bool),
    U32(u32),
    StrList(Vec<String>),
}

pub enum ValueView {
    Str(Seq<char>),
    Bytes(Seq<u8>),
    Bool(bool),
    U32(u32),
    StrList(Seq<Seq<char>>),
}

impl View for SettingValue {
    type V = ValueView;

    open spec fn view(&self) -> ValueView {
        match self {
            SettingValue::Str(s) => ValueView::Str(s@),
            SettingValue::Bytes(b) => ValueView::Bytes(b@),
            SettingValue::Bool(b) => ValueView::Bool(*b),
            SettingValue::U32(u) => ValueView::U32(*u),
            SettingValue::StrList(l) => ValueView::StrList(l@.map_values(|s: String| s@)),
        }
    }
}

/// One `a{sv}` group of a profile, such as `connection` or `802-1x`.
#[derive(Debug)]
pub struct SettingGroup {
    pub name: String,
    pub entries: Vec<(String, SettingValue)>,
}

pub type EntryView = (Seq<char>, ValueView);

pub type GroupView = (Seq<char>, Seq<EntryView>);

pub open spec fn entry_views(e: Seq<(String, SettingValue)>) -> Seq<EntryView> {
    e.map_values(|p: (String, SettingValue)| (p.0@, p.1@))
}

impl View for SettingGroup {
    type V = GroupView;

    open spec fn view(&self) -> GroupView {
        (self.name@, entry_views(self.entries@))
    }
}

/// A connection profile (`a{sa{sv}}`), group by group.
#[derive(Debug)]
pub struct Profile {
    pub groups: Vec<SettingGroup>,
}

pub open spec fn group_views(g: Seq<SettingGroup>) -> Seq<GroupView> {
    g.map_values(|x: SettingGroup| x@)
}

impl View for Profile {
    type V = Seq<GroupView>;

    open spec fn view(&self) -> Seq<GroupView> {
        group_views(self.groups@)
    }
}

/// Group `i` is the first one called `name`.
pub open spec fn first_group(groups: Seq<SettingGroup>, name: Seq<char>, i: int) -> bool {
    &&& 0 <= i < groups.len()
    &&& groups[i].name@ == name
    &&& forall|k: int| 0 <= k < i ==> (#[trigger] groups[k]).name@ != name
}

/// Entry `j` is stored under `key`.
pub open spec fn has_key_at(entries: Seq<(String, SettingValue)>, key: Seq<char>, j: int) -> bool {
    0 <= j < entries.len() && entries[j].0@ == key
}

/// Entry `j` is the first one stored under `key`.
pub open spec fn first_entry(entries: Seq<(String, SettingValue)>, key: Seq<char>, j: int) -> bool {
    &&& has_key_at(entries, key, j)
    &&& forall|k: int| 0 <= k < j ==> (#[trigger] entries[k]).0@ != key
}

impl Profile {
    /// The group called `name`, if the profile has one.
    pub fn group(&self, name: &str) -> (r: Option<&SettingGroup>)
        ensures
            r is None <==> forall|i: int| 0 <= i < self.groups@.len() ==> (#[trigger] self.groups@[i]).name@ != name@,
            r matches Some(g) ==> exists|i: int| #[trigger] first_group(self.groups@, name@, i) && *g == self.groups@[i],
    {
        let mut i: usize = 0;
        while i < self.groups.len()
            invariant
                i <= self.groups@.len(),
                forall|j: int| 0 <= j < i ==> (#[trigger] self.groups@[j]).name@ != name@,
            decreases self.groups.len() - i,
        {
            if str_eq(self.groups[i].name.as_str(), name) {
                proof {
                    assert(first_group(self.groups@, name@, i as int));
                }
                return Some(&self.groups[i]);
            }
            i = i + 1;
        }
        None
    }

    pub fn has_group(&self, name: &str) -> (b: bool)
        ensures
            b == exists|i: int| 0 <= i < self.groups@.len() && (#[trigger] self.groups@[i]).name@ == name@,
    {
        self.group(name).is_some()
    }

    /// The value stored under `key` in group `name`: found in the first group
    /// of that name, under the first entry of that key; `None` when that group
    /// is missing or has no such entry.
    pub fn get(&self, name: &str, key: &str) -> (r: Option<&SettingValue>)
        ensures
            r is Some <==> exists|i: int, j: int|
                #[trigger] first_group(self.groups@, name@, i) && #[trigger] has_key_at(
                    self.groups@[i].entries@,
                    key@,
                    j,
                ),
            r matches Some(v) ==> exists|i: int, j: int|
                #[trigger] first_group(self.groups@, name@, i) && #[trigger] first_entry(
                    self.groups@[i].entries@,
                    key@,
                    j,
                ) && *v == self.groups@[i].entries@[j].1,
    {
        match self.group(name) {
            Some(g) => {
                let ghost i = choose|i: int| #[trigger] first_group(self.groups@, name@, i) && *g == self.groups@[i];
                let r = g.get(key);
                proof {
                    assert forall|i2: int, j: int|
                        #[trigger] first_group(self.groups@, name@, i2) && #[trigger] has_key_at(
                            self.groups@[i2].entries@,
                            key@,
                            j,
                        ) implies r is Some by {
                        if i2 < i {
                            assert(self.groups@[i2].name@ != name@);
                        } else if i < i2 {
                            assert(self.groups@[i].name@ != name@);
                        }
                        assert(g.entries@[j].0@ == key@);
                    }
                    if r is Some {
                        let j = choose|j: int| #[trigger] first_entry(g.entries@, key@, j) && *r->0 == g.entries@[j].1;
                        assert(has_key_at(self.groups@[i].entries@, key@, j));
                        assert(first_entry(self.groups@[i].entries@, key@, j));
                    }
                }
                r
            },
            None => {
                proof {
                    assert forall|i2: int, j: int|
                        #[trigger] first_group(self.groups@, name@, i2) && #[trigger] has_key_at(
                            self.groups@[i2].entries@,
                            key@,
                            j,
                        ) implies false by {
                        assert(self.groups@[i2].name@ != name@);
                    }
                }
                None
            },
        }
    }
}

impl SettingGroup {
    /// The value stored under `key`.
    pub fn get(&self, key: &str) -> (r: Option<&SettingValue>)
        ensures
            r is None <==> forall|j: int| 0 <= j < self.entries@.len() ==> (#[trigger] self.entries@[j]).0@ != key@,
            r matches Some(v) ==> exists|j: int| #[trigger] first_entry(self.entries@, key@, j) && *v == self.entries@[j].1,
    {
        let mut j: usize = 0;
        while j < self.entries.len()
            invariant
                j <= self.entries@.len(),
                forall|k: int| 0 <= k < j ==> (#[trigger] self.entries@[k]).0@ != key@,
            decreases self.entries.len() - j,
        {
            if str_eq(self.entries[j].0.as_str(), key) {
                proof {
                    assert(first_entry(self.entries@, key@, j as int));
                }
                return Some(&self.entries[j].1);
            }
            j = j + 1;
        }
        None
    }

    pub fn contains_key(&self, key: &str) -> (b: bool)
        ensures
            b == exists|j: int| 0 <= j < self.entries@.len() && (#[trigger] self.entries@[j]).0@ == key@,
    {
        self.get(key).is_some()
    }
}

/// Equality of two string slices.
pub fn str_eq(a: &str, b: &str) -> (r: bool)
    ensures
        r == (a@ == b@),
{
    let x = chars_of(a);
    let y = chars_of(b);
    if x.len() != y.len() {
        proof {
            assert(x@.len() != y@.len());
        }
        return false;
    }
    let mut i: usize = 0;
    while i < x.len()
        invariant
            x.len() == y.len(),
            x@ == a@,
            y@ == b@,
            i <= x.len(),
            forall|j: int| 0 <= j < i ==> x@[j] == y@[j],
        decreases x.len() - i,
    {
        if x[i] != y[i] {
            proof {
                assert(x@[i as int] != y@[i as int]);
            }
            return false;
        }
        i = i + 1;
    }
    proof {
        assert(x@ == y@);
    }
    true
}

/// Why no profile could be built.
#[derive(Debug, PartialEq, Eq, Clone, Copy)]
pub enum ProfileError {
    /// A secured network was given no passphrase.
    NeedsPassphrase(Security),
    /// An 802.1X network was not given both an identity and a password.
    NeedsIdentity,
}

impl ProfileError {
    pub open spec fn text(self) -> Seq<char> {
        match self {
            ProfileError::NeedsPassphrase(s) => s.text() + " needs a passphrase"@,
            ProfileError::NeedsIdentity => "802.1X needs an identity and a password"@,
        }
    }

    pub fn to_string(&self) -> (s: String)
        ensures
            s@ == self.text(),
    {
        match self {
            ProfileError::NeedsPassphrase(sec) => {
                let mut s = sec.to_string();
                s.push_str(" needs a passphrase");
                s
            },
            ProfileError::NeedsIdentity => "802.1X needs an identity and a password".to_string(),
        }
    }
}

pub open spec fn str_entry(key: Seq<char>, value: Seq<char>) -> EntryView {
    (key, ValueView::Str(value))
}

/// A 10- or 26-character hex string is a raw WEP key; anything else is a
/// passphrase to be hashed.
pub open spec fn wep_hex_key(p: Seq<char>) -> bool {
    (p.len() == 10 || p.len() == 26) && forall|i: int| 0 <= i < p.len() ==> is_hex_digit_char(#[trigger] p[i])
}

/// The `802-11-wireless-security` group.
pub open spec fn wireless_security(entries: Seq<EntryView>) -> GroupView {
    ("802-11-wireless-security"@, entries)
}

/// The security groups for `security` given the user's `secret`, or why there
/// are none: a secured network is never given a profile without its group.
pub open spec fn security_groups(security: Security, secret: Secret) -> Result<Seq<GroupView>, ProfileError> {
    match (security, secret) {
        (Security::Open, _) => Ok(Seq::empty()),
        (Security::Owe, _) => Ok(seq![wireless_security(seq![str_entry("key-mgmt"@, "owe"@)])]),
        (Security::Wep, Secret::Passphrase(p)) => Ok(
            seq![
                wireless_security(
                    seq![
                        str_entry("key-mgmt"@, "none"@),
                        str_entry("auth-alg"@, "open"@),
                        str_entry("wep-key0"@, p@),
                        ("wep-key-type"@, ValueView::U32(if wep_hex_key(p@) { 1 } else { 2 })),
                    ],
                ),
            ],
        ),
        (Security::WpaPsk, Secret::Passphrase(p)) => Ok(
            seq![wireless_security(seq![str_entry("key-mgmt"@, "wpa-psk"@), str_entry("psk"@, p@)])],
        ),
        (Security::Sae, Secret::Passphrase(p)) => Ok(
            seq![wireless_security(seq![str_entry("key-mgmt"@, "sae"@), str_entry("psk"@, p@)])],
        ),
        (Security::Enterprise, Secret::Enterprise { identity, password }) => Ok(
            seq![
                ("802-1x"@, seq![
                    ("eap"@, ValueView::StrList(seq!["peap"@])),
                    str_entry("identity"@, identity@),
                    str_entry("password"@, password@),
                    str_entry("phase2-auth"@, "mschapv2"@),
                ]),
                wireless_security(seq![str_entry("key-mgmt"@, "wpa-eap"@)]),
            ],
        ),
        (Security::Enterprise, _) => Err(ProfileError::NeedsIdentity),
        (s, _) => Err(ProfileError::NeedsPassphrase(s)),
    }
}

fn entry(key: &str, value: SettingValue) -> (e: (String, SettingValue))
    ensures
        e.0@ == key@,
        e.1 == value,
{
    (key.to_string(), value)
}

fn str_value(s: &str) -> (v: SettingValue)
    ensures
        v@ == ValueView::Str(s@),
{
    SettingValue::Str(s.to_string())
}

fn group(name: &str, entries: Vec<(String, SettingValue)>) -> (g: SettingGroup)
    ensures
        g@ == (name@, entry_views(entries@)),
{
    SettingGroup { name: name.to_string(), entries }
}

fn push_group(groups: &mut Vec<SettingGroup>, g: SettingGroup)
    ensures
        group_views(final(groups)@) == group_views(old(groups)@).push(g@),
{
    let ghost gv = g@;
    groups.push(g);
    proof {
        assert(group_views(final(groups)@) == group_views(old(groups)@).push(gv));
    }
}

fn is_wep_hex_key(p: &str) -> (b: bool)
    ensures
        b == wep_hex_key(p@),
{
    let v = chars_of(p);
    if v.len() != 10 && v.len() != 26 {
        return false;
    }
    let mut i: usize = 0;
    while i < v.len()
        invariant
            i <= v@.len(),
            v@ == p@,
            v@.len() == 10 || v@.len() == 26,
            forall|j: int| 0 <= j < i ==> is_hex_digit_char(#[trigger] v@[j]),
        decreases v.len() - i,
    {
        let c = v[i];
        if !(('0' <= c && c <= '9') || ('a' <= c && c <= 'f') || ('A' <= c && c <= 'F')) {
            proof {
                assert(!is_hex_digit_char(v@[i as int]));
            }
            return false;
        }
        i = i + 1;
    }
    true
}

/// The security groups a profile for `security` needs, built from `secret`.
pub fn security_settings(security: Security, secret: &Secret) -> (r: Result<Vec<SettingGroup>, ProfileError>)
    ensures
        match (r, security_groups(security, *secret)) {
            (Ok(g), Ok(s)) => group_views(g@) == s,
            (Err(e), Err(f)) => e == f,
            _ => false,
        },
{
    match (security, secret) {
        (Security::Open, _) => {
            let v: Vec<SettingGroup> = Vec::new();
            proof {
                assert(group_views(v@) == Seq::<GroupView>::empty());
            }
            Ok(v)
        },
        (Security::Owe, _) => {
            let e = vec![entry("key-mgmt", str_value("owe"))];
            proof {
                assert(entry_views(e@) == seq![str_entry("key-mgmt"@, "owe"@)]);
            }
            let g = group("802-11-wireless-security", e);
            let v = vec![g];
            proof {
                assert(group_views(v@) == seq![g@]);
            }
            Ok(v)
        },
        (Security::Wep, Secret::Passphrase(p)) => {
            let kind: u32 = if is_wep_hex_key(p.as_str()) {
                1
            } else {
                2
            };
            let e = vec![
                entry("key-mgmt", str_value("none")),
                entry("auth-alg", str_value("open")),
                entry("wep-key0", SettingValue::Str(p.clone())),
                entry("wep-key-type", SettingValue::U32(kind)),
            ];
            proof {
                assert(entry_views(e@) == seq![
                    str_entry("key-mgmt"@, "none"@),
                    str_entry("auth-alg"@, "open"@),
                    str_entry("wep-key0"@, p@),
                    ("wep-key-type"@, ValueView::U32(if wep_hex_key(p@) { 1 } else { 2 })),
                ]);
            }
            let g = group("802-11-wireless-security", e);
            let v = vec![g];
            proof {
                assert(group_views(v@) == seq![g@]);
            }
            Ok(v)
        },
        (Security::WpaPsk, Secret::Passphrase(p)) => {
            let e = vec![entry("key-mgmt", str_value("wpa-psk")), entry("psk", SettingValue::Str(p.clone()))];
            proof {
                assert(entry_views(e@) == seq![str_entry("key-mgmt"@, "wpa-psk"@), str_entry("psk"@, p@)]);
            }
            let g = group("802-11-wireless-security", e);
            let v = vec![g];
            proof {
                assert(group_views(v@) == seq![g@]);
            }
            Ok(v)
        },
        (Security::Sae, Secret::Passphrase(p)) => {
            let e = vec![entry("key-mgmt", str_value("sae")), entry("psk", SettingValue::Str(p.clone()))];
            proof {
                assert(entry_views(e@) == seq![str_entry("key-mgmt"@, "sae"@), str_entry("psk"@, p@)]);
            }
            let g = group("802-11-wireless-security", e);
            let v = vec![g];
            proof {
                assert(group_views(v@) == seq![g@]);
            }
            Ok(v)
        },
        (Security::Enterprise, Secret::Enterprise { identity, password }) => {
            let peap = "peap".to_string();
            let eap = vec![peap];
            proof {
                assert(eap@.map_values(|s: String| s@) == seq!["peap"@]);
            }
            let e = vec![
                entry("eap", SettingValue::StrList(eap)),
                entry("identity", SettingValue::Str(identity.clone())),
                entry("password", SettingValue::Str(password.clone())),
                entry("phase2-auth", str_value("mschapv2")),
            ];
            proof {
                assert(entry_views(e@) == seq![
                    ("eap"@, ValueView::StrList(seq!["peap"@])),
                    str_entry("identity"@, identity@),
                    str_entry("password"@, password@),
                    str_entry("phase2-auth"@, "mschapv2"@),
                ]);
            }
            let eap_group = group("802-1x", e);
            let e2 = vec![entry("key-mgmt", str_value("wpa-eap"))];
            proof {
                assert(entry_views(e2@) == seq![str_entry("key-mgmt"@, "wpa-eap"@)]);
            }
            let sec = group("802-11-wireless-security", e2);
            let v = vec![eap_group, sec];
            proof {
                assert(group_views(v@) == seq![eap_group@, sec@]);
            }
            Ok(v)
        },
        (Security::Enterprise, _) => Err(ProfileError::NeedsIdentity),
        (s, _) => Err(ProfileError::NeedsPassphrase(s)),
    }
}

/// The groups that hold a profile's secrets: what a rekey drops before it
/// writes the new security groups.
pub open spec fn secret_group(name: Seq<char>) -> bool {
    name == "802-11-wireless-security"@ || name == "802-1x"@
}

/// Is `name` one of the groups a rekey replaces?
pub fn is_secret_group(name: &str) -> (b: bool)
    ensures
        b == secret_group(name@),
{
    str_eq(name, "802-11-wireless-security") || str_eq(name, "802-1x")
}

/// `stored` without its secret groups, followed by `fresh`.
pub open spec fn rekeyed<V>(stored: Seq<(String, V)>, fresh: Seq<(String, V)>) -> Seq<(String, V)> {
    stored.filter(|g: (String, V)| !secret_group(g.0@)) + fresh
}

/// A stored profile with new secrets: every group but the secret ones is kept
/// as it was and in its order, and the groups built for the new secret follow.
/// The values are whatever the caller holds them as.
pub fn replace_secret_groups<V>(stored: Vec<(String, V)>, fresh: Vec<(String, V)>) -> (r: Vec<(String, V)>)
    ensures
        r@ == rekeyed(stored@, fresh@),
{
    let ghost all = stored@;
    let ghost keep = |g: (String, V)| !secret_group(g.0@);
    let mut out: Vec<(String, V)> = Vec::new();
    let mut rest = stored;
    let ghost mut k: int = 0;
    proof {
        assert(all.take(0).filter(keep) == Seq::<(String, V)>::empty()) by {
            all.take(0).lemma_filter_len(keep);
        }
        assert(all.skip(0) == all);
    }
    while rest.len() > 0
        invariant
            0 <= k <= all.len(),
            rest@ == all.skip(k),
            out@ == all.take(k).filter(keep),
            keep == (|g: (String, V)| !secret_group(g.0@)),
        decreases rest.len(),
    {
        let ghost rest0 = rest@;
        let g = rest.remove(0);
        proof {
            assert(g == all[k]);
            assert(rest@ == all.skip(k + 1));
            assert(all.take(k + 1) == all.take(k).push(all[k]));
            all.take(k).lemma_filter_push(all[k], keep);
        }
        if !is_secret_group(g.0.as_str()) {
            out.push(g);
        }
        proof {
            k = k + 1;
        }
    }
    proof {
        assert(all.take(k) == all);
    }
    let mut fresh = fresh;
    out.append(&mut fresh);
    out
}

/// The profile for joining `ssid` on `interface` for the first time.
pub open spec fn wifi_profile(
    ssid: Seq<u8>,
    security: Security,
    secret: Secret,
    hidden: bool,
    interface: Seq<char>,
) -> Result<Seq<GroupView>, ProfileError> {
    let connection = ("connection"@, seq![
        str_entry("id"@, ssid_text(ssid)),
        str_entry("type"@, "802-11-wireless"@),
        ("autoconnect"@, ValueView::Bool(true)),
        str_entry("interface-name"@, interface),
    ]);
    let base: Seq<EntryView> = seq![
        ("ssid"@, ValueView::Bytes(ssid)),
        str_entry("mode"@, "infrastructure"@),
    ];
    let wireless = ("802-11-wireless"@, if hidden {
        base.push(("hidden"@, ValueView::Bool(true)))
    } else {
        base
    });
    match security_groups(security, secret) {
        Ok(sec) => Ok(
            seq![connection, wireless] + sec + seq![
                ("ipv4"@, seq![str_entry("method"@, "auto"@)]),
                ("ipv6"@, seq![str_entry("method"@, "auto"@)]),
            ],
        ),
        Err(e) => Err(e),
    }
}

/// Build the profile NetworkManager needs to join `ssid` for the first time.
pub fn build_wifi_profile(
    ssid: &[u8],
    security: Security,
    secret: &Secret,
    hidden: bool,
    interface: &str,
) -> (r: Result<Profile, ProfileError>)
    ensures
        match (r, wifi_profile(ssid@, security, *secret, hidden, interface@)) {
            (Ok(p), Ok(s)) => p@ == s,
            (Err(e), Err(f)) => e == f,
            _ => false,
        },
{
    let sec = match security_settings(security, secret) {
        Ok(sec) => sec,
        Err(e) => return Err(e),
    };
    let id = ssid_to_string(ssid);
    let c = vec![
        entry("id", SettingValue::Str(id)),
        entry("type", str_value("802-11-wireless")),
        entry("autoconnect", SettingValue::Bool(true)),
        entry("interface-name", SettingValue::Str(interface.to_string())),
    ];
    proof {
        assert(entry_views(c@) == seq![
            str_entry("id"@, ssid_text(ssid@)),
            str_entry("type"@, "802-11-wireless"@),
            ("autoconnect"@, ValueView::Bool(true)),
            str_entry("interface-name"@, interface@),
        ]);
    }
    let connection = group("connection", c);
    let mut w = vec![
        entry("ssid", SettingValue::Bytes(slice_to_bytes(ssid))),
        entry("mode", str_value("infrastructure")),
    ];
    let ghost base: Seq<EntryView> = seq![
        ("ssid"@, ValueView::Bytes(ssid@)),
        str_entry("mode"@, "infrastructure"@),
    ];
    proof {
        assert(entry_views(w@) == base);
    }
    if hidden {
        let h = entry("hidden", SettingValue::Bool(true));
        w.push(h);
        proof {
            assert(entry_views(w@) == base.push(("hidden"@, ValueView::Bool(true))));
        }
    }
    let wireless = group("802-11-wireless", w);
    let mut groups: Vec<SettingGroup> = Vec::new();
    push_group(&mut groups, connection);
    push_group(&mut groups, wireless);
    let ghost head = group_views(groups@);
    let ghost sec_v = group_views(sec@);
    let n = sec.len();
    let mut sec = sec;
    proof {
        assert(head + sec_v.take(0) == head);
        assert(sec_v.skip(0) == sec_v);
    }
    while sec.len() > 0
        invariant
            group_views(groups@) == head + sec_v.take((n - sec@.len()) as int),
            group_views(sec@) == sec_v.skip((n - sec@.len()) as int),
            sec_v.len() == n,
            sec@.len() <= n,
        decreases sec.len(),
    {
        let ghost k = (n - sec@.len()) as int;
        let ghost sec_before = sec@;
        let g = sec.remove(0);
        proof {
            assert(group_views(sec_before)[0] == sec_v.skip(k)[0]);
            assert(g@ == sec_v[k]);
            assert(sec_v.take(k + 1) == sec_v.take(k).push(sec_v[k]));
            assert(sec@ == sec_before.remove(0));
            assert(group_views(sec@) == group_views(sec_before).skip(1));
            assert(sec_v.skip(k).skip(1) == sec_v.skip(k + 1));
        }
        push_group(&mut groups, g);
    }
    proof {
        assert(sec_v.take(n as int) == sec_v);
    }
    let e4 = vec![entry("method", str_value("auto"))];
    let e6 = vec![entry("method", str_value("auto"))];
    proof {
        assert(entry_views(e4@) == seq![str_entry("method"@, "auto"@)]);
        assert(entry_views(e6@) == seq![str_entry("method"@, "auto"@)]);
    }
    push_group(&mut groups, group("ipv4", e4));
    push_group(&mut groups, group("ipv6", e6));
    let p = Profile { groups };
    Ok(p)
}

/// A byte slice as an owned vector.
pub fn slice_to_bytes(s: &[u8]) -> (v: Vec<u8>)
    ensures
        v@ == s@,
{
    let mut v: Vec<u8> = Vec::new();
    let mut i: usize = 0;
    while i < s.len()
        invariant
            i <= s@.len(),
            v@ == s@.take(i as int),
        decreases s.len() - i,
    {
        v.push(s[i]);
        proof {
            assert(s@.take(i + 1) == s@.take(i as int).push(s@[i as int]));
        }
        i = i + 1;
    }
    proof {
        assert(s@.take(s@.len() as int) == s@);
    }
    v
}

} // verus!
