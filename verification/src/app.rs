//! Application state and input handling: a state machine that takes key
//! presses and snapshots and hands back the jobs to run.

use vstd::prelude::*;
use crate::types::{Network, Security, Snapshot, WifiDevice};
use crate::profile::{Profile, Secret};
use crate::types::copy_bytes;
use crate::text::{cat2, cat3, trim, trimmed};
use crate::networks::{pinned_from, preferred_saved};
use crate::profile::{build_wifi_profile, wifi_profile};
use crate::errors::{error_text, format_error, format_error_text};
use crate::types::{ssid_text, ssid_to_string, SavedConnection};
use vstd::utf8::encode_utf8;

verus! {

// ------------------------------------------------------------------ app messages

/// What arrives from the refresher and from finished jobs.
#[derive(Debug)]
pub enum Msg {
    Snapshot(Box<Snapshot>),
    Status(Status),
}

#[derive(Debug, Clone, Copy, PartialEq, Eq, Structural)]
pub enum Level {
    Info,
    Success,
    Error,
}

#[derive(Debug)]
pub struct Status {
    pub level: Level,
    pub text: String,
    /// Set while a long-running action is in flight, so the UI can spin.
    pub busy: bool,
}

impl Status {
    pub fn info(text: String) -> (s: Self)
        ensures
            s.level == Level::Info,
            s.text@ == text@,
            !s.busy,
    {
        Status { level: Level::Info, text, busy: false }
    }

    pub fn busy(text: String) -> (s: Self)
        ensures
            s.level == Level::Info,
            s.text@ == text@,
            s.busy,
    {
        Status { level: Level::Info, text, busy: true }
    }

    pub fn ok(text: String) -> (s: Self)
        ensures
            s.level == Level::Success,
            s.text@ == text@,
            !s.busy,
    {
        Status { level: Level::Success, text, busy: false }
    }

    pub fn error(text: String) -> (s: Self)
        ensures
            s.level == Level::Error,
            s.text@ == text@,
            !s.busy,
    {
        Status { level: Level::Error, text, busy: false }
    }
}

// ----------------------------------------------------------------------- helpers

/// `current + delta`, held inside `0..len`.
pub open spec fn clamped(current: int, delta: int, len: int) -> int {
    let next = current + delta;
    if next < 0 {
        0
    } else if next > len - 1 {
        len - 1
    } else {
        next
    }
}

/// Moves a cursor by `delta` rows within a list of `len` rows.
pub fn clamp_move(current: usize, delta: isize, len: usize) -> (r: usize)
    requires
        1 <= len <= isize::MAX,
        current <= isize::MAX,
        isize::MIN <= current + delta <= isize::MAX,
    ensures
        r == clamped(current as int, delta as int, len as int),
        r < len,
{
    let next: isize = current as isize + delta;
    let last: isize = len as isize - 1;
    if next < 0 {
        0
    } else if next > last {
        last as usize
    } else {
        next as usize
    }
}

pub open spec fn on_off_text(v: bool) -> Seq<char> {
    if v { "on"@ } else { "off"@ }
}

pub fn on_off(v: bool) -> (s: &'static str)
    ensures
        s@ == on_off_text(v),
{
    if v { "on" } else { "off" }
}

/// How a row is named on screen: its SSID, or `<hidden>` for nameless APs.
pub open spec fn display_text(net: Network) -> Seq<char> {
    if net.name@.len() == 0 { "<hidden>"@ } else { net.name@ }
}

pub fn display_name(net: &Network) -> (s: String)
    ensures
        s@ == display_text(*net),
{
    if net.name.as_str().is_empty() {
        "<hidden>".to_string()
    } else {
        net.name.clone()
    }
}

// ------------------------------------------------------------------------ modals

#[derive(Debug)]
pub struct Field {
    pub label: &'static str,
    pub value: String,
    pub secret: bool,
}

#[derive(Debug)]
pub enum PromptKind {
    /// Create a new profile for a visible network and join it.
    Join { device: String, interface: String, ssid: Vec<u8>, security: Security, ap: Option<String> },
    /// Create a profile for a network that is not broadcasting its SSID.
    JoinHidden { device: String, interface: String },
    /// Rewrite the secrets on a stored profile, then bring it up.
    Rekey { device: String, connection: String, security: Security, ap: Option<String> },
}

#[derive(Debug)]
pub struct Prompt {
    pub title: String,
    pub hint: String,
    pub fields: Vec<Field>,
    pub focus: usize,
    pub reveal: bool,
    pub kind: PromptKind,
}

#[derive(Debug)]
pub enum ConfirmKind {
    Forget { name: String, connections: Vec<String> },
    /// Disabling outlives the session, so it is the one device action that
    /// asks first.
    Disable {
        device: String,
        interface: String,
        /// The profile the device is carrying, if any.
        carrying: Option<String>,
    },
}

#[derive(Debug)]
pub enum Modal {
    Closed,
    Help,
    Prompt(Prompt),
    Confirm(ConfirmKind),
}

#[derive(Debug, Clone, Copy, PartialEq, Eq, Structural)]
pub enum Focus {
    Devices,
    Networks,
}

// ------------------------------------------------------------------------- input

/// A key, as far as the application tells keys apart.
#[derive(Debug, Clone, Copy, PartialEq, Eq, Structural)]
pub enum KeyCode {
    Char(char),
    Esc,
    Enter,
    Tab,
    BackTab,
    Left,
    Right,
    Up,
    Down,
    PageUp,
    PageDown,
    Home,
    End,
    Backspace,
    Other,
}

#[derive(Debug, Clone, Copy, PartialEq, Eq, Structural)]
pub struct KeyPress {
    pub code: KeyCode,
    /// The control modifier is held.
    pub ctrl: bool,
    /// This is a key release rather than a press or repeat.
    pub release: bool,
}

#[derive(Debug, Clone, Copy, PartialEq, Eq, Structural)]
pub enum Event {
    Key(KeyPress),
    Other,
}

// -------------------------------------------------------------------------- jobs

/// Work that has to leave the UI thread: one call sequence on the bus.
#[derive(Debug)]
pub enum Task {
    SetWireless(bool),
    Scan { device: String },
    Disconnect { device: String },
    SetAutoconnect { device: String, on: bool },
    Forget { connections: Vec<String> },
    Disable { device: String, interface: String },
    Enable { device: String, interface: String },
    Activate { connection: String, device: String, ap: Option<String> },
    AddAndActivate { profile: Profile, device: String, ap: Option<String> },
    Rekey { connection: String, security: Security, secret: Secret, device: String, ap: Option<String> },
}

/// A task with what the status bar says while it runs and when it succeeds.
#[derive(Debug)]
pub struct Job {
    pub pending: String,
    pub done: String,
    pub task: Task,
}

/// The status line a finished job leaves: its success sentence, or the error
/// as `format_error` phrases it.
pub fn job_status(done: String, outcome: Result<(), anyhow::Error>) -> (s: Status)
    ensures
        outcome is Ok ==> s.level == Level::Success && s.text@ == done@ && !s.busy,
        outcome is Err ==> s.level == Level::Error && !s.busy && exists|c: Seq<char>, r: Seq<char>|
            s.text@ == error_text(c, r),
{
    match outcome {
        Ok(()) => Status::ok(done),
        Err(e) => Status::error(format_error(&e)),
    }
}

pub open spec fn opt_view(o: Option<String>) -> Option<Seq<char>> {
    match o {
        Some(s) => Some(s@),
        None => None,
    }
}

fn clone_opt(o: &Option<String>) -> (r: Option<String>)
    ensures
        opt_view(r) == opt_view(*o),
{
    match o {
        Some(s) => Some(s.clone()),
        None => None,
    }
}

// --------------------------------------------------------------------------- app

pub struct App {
    pub snapshot: Snapshot,
    pub first_load: bool,
    pub focus: Focus,
    pub modal: Modal,
    pub status: Status,
    /// When the status line was last set, in milliseconds on the caller's clock.
    pub status_at_ms: u64,
    pub quit: bool,
    /// Selections are held as identities rather than indices so a refresh that
    /// reorders the lists does not move the cursor out from under the user.
    pub selected_device: Option<String>,
    pub selected_ssid: Option<Vec<u8>>,
}

/// The first device whose path is `path`, searching from `from`; 0 when none is.
pub open spec fn device_position(devs: Seq<WifiDevice>, path: Seq<char>, from: int) -> int
    decreases devs.len() - from,
{
    if from < 0 || from >= devs.len() {
        0
    } else if devs[from].path@ == path {
        from
    } else {
        device_position(devs, path, from + 1)
    }
}

/// The first network whose SSID is `ssid`, searching from `from`; 0 when none is.
pub open spec fn network_position(nets: Seq<Network>, ssid: Seq<u8>, from: int) -> int
    decreases nets.len() - from,
{
    if from < 0 || from >= nets.len() {
        0
    } else if nets[from].ssid@ == ssid {
        from
    } else {
        network_position(nets, ssid, from + 1)
    }
}

/// A prompt the dialog can edit and submit: a field under the cursor, and the
/// two fields that a hidden network and an 802.1X network read.
pub open spec fn prompt_ok(p: Prompt) -> bool {
    &&& p.fields@.len() > 0
    &&& p.focus < p.fields@.len()
    &&& match p.kind {
        PromptKind::JoinHidden { .. } => p.fields@.len() == 2,
        PromptKind::Join { security, .. } => security == Security::Enterprise ==> p.fields@.len() == 2,
        PromptKind::Rekey { security, .. } => security == Security::Enterprise ==> p.fields@.len() == 2,
    }
}

/// Lists short enough that moving a cursor by half the index range cannot
/// overflow.
pub open spec fn list_len_ok(n: nat) -> bool {
    n <= isize::MAX / 2
}

/// Every row of every device has a leading access point, and no list is too
/// long to move a cursor through.
pub open spec fn snapshot_ok(s: Snapshot) -> bool {
    &&& list_len_ok(s.devices@.len())
    &&& forall|d: int| 0 <= d < s.devices@.len() ==> list_len_ok((#[trigger] s.devices@[d]).networks@.len())
    &&& forall|d: int, n: int|
        0 <= d < s.devices@.len() && 0 <= n < s.devices@[d].networks@.len() ==> (
        #[trigger] s.devices@[d].networks@[n]).aps@.len() > 0
}

/// Does `s` meet what the state machine asks of a snapshot? Every snapshot
/// built by `networks::aggregate` does; a caller outside the proofs checks.
pub fn snapshot_fits(s: &Snapshot) -> (b: bool)
    ensures
        b == snapshot_ok(*s),
{
    let limit: usize = (isize::MAX / 2) as usize;
    if s.devices.len() > limit {
        return false;
    }
    let mut d: usize = 0;
    while d < s.devices.len()
        invariant
            d <= s.devices@.len(),
            limit == isize::MAX / 2,
            forall|k: int| 0 <= k < d ==> list_len_ok((#[trigger] s.devices@[k]).networks@.len()),
            forall|k: int, n: int|
                0 <= k < d && 0 <= n < s.devices@[k].networks@.len() ==> (
                #[trigger] s.devices@[k].networks@[n]).aps@.len() > 0,
        decreases s.devices.len() - d,
    {
        let nets = &s.devices[d].networks;
        if nets.len() > limit {
            return false;
        }
        let mut n: usize = 0;
        while n < nets.len()
            invariant
                n <= nets@.len(),
                d < s.devices@.len(),
                nets@ == s.devices@[d as int].networks@,
                forall|m: int| 0 <= m < n ==> (#[trigger] nets@[m]).aps@.len() > 0,
            decreases nets.len() - n,
        {
            if nets[n].aps.len() == 0 {
                proof {
                    assert(s.devices@[d as int].networks@[n as int].aps@.len() == 0);
                }
                return false;
            }
            n = n + 1;
        }
        d = d + 1;
    }
    true
}

pub open spec fn bytes_opt(o: Option<Vec<u8>>) -> Option<Seq<u8>> {
    match o {
        Some(b) => Some(b@),
        None => None,
    }
}

/// Some row of `nets` carries `ssid`.
pub open spec fn ssid_listed(nets: Seq<Network>, ssid: Seq<u8>) -> bool {
    exists|i: int| 0 <= i < nets.len() && (#[trigger] nets[i]).ssid@ == ssid
}

impl App {
    /// The invariant every method keeps.
    pub open spec fn wf(self) -> bool {
        &&& snapshot_ok(self.snapshot)
        &&& match self.modal {
            Modal::Prompt(p) => prompt_ok(p),
            _ => true,
        }
    }

    pub open spec fn devs(self) -> Seq<WifiDevice> {
        self.snapshot.devices@
    }

    /// The index of the selected device: its row, or the first.
    pub open spec fn device_at(self) -> int {
        match self.selected_device {
            Some(p) => device_position(self.devs(), p@, 0),
            None => 0,
        }
    }

    pub open spec fn has_device(self) -> bool {
        self.device_at() < self.devs().len()
    }

    pub open spec fn cur_device(self) -> WifiDevice {
        self.devs()[self.device_at()]
    }

    /// The rows of the selected device.
    pub open spec fn nets(self) -> Seq<Network> {
        if self.has_device() {
            self.cur_device().networks@
        } else {
            Seq::empty()
        }
    }

    /// The index of the selected network: its row, or the first.
    pub open spec fn network_at(self) -> int {
        match self.selected_ssid {
            Some(s) => network_position(self.nets(), s@, 0),
            None => 0,
        }
    }

    pub open spec fn has_network(self) -> bool {
        self.network_at() < self.nets().len()
    }

    pub open spec fn cur_network(self) -> Network {
        self.nets()[self.network_at()]
    }

    /// A fresh application, waiting for its first snapshot.
    pub fn new(now_ms: u64) -> (app: Self)
        ensures
            app.wf(),
            app.snapshot.version@.len() == 0,
            app.snapshot.state is None,
            app.snapshot.connectivity is None,
            !app.snapshot.wireless_enabled,
            !app.snapshot.wireless_hw_enabled,
            !app.snapshot.networking_enabled,
            app.snapshot.devices@.len() == 0,
            app.first_load,
            app.focus == Focus::Networks,
            app.modal is Closed,
            app.status.level == Level::Info,
            app.status.text@ == "connecting to NetworkManager\u{2026}"@,
            !app.status.busy,
            app.status_at_ms == now_ms,
            !app.quit,
            app.selected_device is None,
            app.selected_ssid is None,
    {
        App {
            snapshot: Snapshot::default(),
            first_load: true,
            focus: Focus::Networks,
            modal: Modal::Closed,
            status: Status::info("connecting to NetworkManager\u{2026}".to_string()),
            status_at_ms: now_ms,
            quit: false,
            selected_device: None,
            selected_ssid: None,
        }
    }

    // -------------------------------------------------------------- selection

    pub fn devices(&self) -> (d: &[WifiDevice])
        ensures
            d@ == self.devs(),
    {
        self.snapshot.devices.as_slice()
    }

    pub fn device_index(&self) -> (i: usize)
        ensures
            i == self.device_at(),
    {
        match &self.selected_device {
            Some(p) => {
                let devs = &self.snapshot.devices;
                let mut i: usize = 0;
                while i < devs.len()
                    invariant
                        i <= devs@.len(),
                        devs@ == self.devs(),
                        self.device_at() == device_position(devs@, p@, 0),
                        device_position(devs@, p@, 0) == device_position(devs@, p@, i as int),
                    decreases devs.len() - i,
                {
                    if devs[i].path == *p {
                        proof {
                            assert(device_position(devs@, p@, i as int) == i as int);
                        }
                        return i;
                    }
                    proof {
                        assert(device_position(devs@, p@, i as int) == device_position(
                            devs@,
                            p@,
                            i + 1,
                        ));
                    }
                    i = i + 1;
                }
                proof {
                    assert(device_position(devs@, p@, i as int) == 0);
                }
                0
            },
            None => 0,
        }
    }

    pub fn device(&self) -> (d: Option<&WifiDevice>)
        ensures
            d is Some <==> self.has_device(),
            d matches Some(x) ==> *x == self.cur_device(),
    {
        let i = self.device_index();
        if i < self.snapshot.devices.len() {
            Some(&self.snapshot.devices[i])
        } else {
            None
        }
    }

    pub fn networks(&self) -> (n: &[Network])
        ensures
            n@ == self.nets(),
    {
        match self.device() {
            Some(d) => d.networks.as_slice(),
            None => {
                let empty: &[Network] = &[];
                proof {
                    assert(empty@ == Seq::<Network>::empty());
                }
                empty
            },
        }
    }

    pub fn network_index(&self) -> (i: usize)
        ensures
            i == self.network_at(),
    {
        match &self.selected_ssid {
            Some(s) => {
                let nets = self.networks();
                let mut i: usize = 0;
                while i < nets.len()
                    invariant
                        i <= nets@.len(),
                        nets@ == self.nets(),
                        self.network_at() == network_position(nets@, s@, 0),
                        network_position(nets@, s@, 0) == network_position(nets@, s@, i as int),
                    decreases nets.len() - i,
                {
                    if same_ssid(&nets[i].ssid, s) {
                        proof {
                            assert(network_position(nets@, s@, i as int) == i as int);
                        }
                        return i;
                    }
                    proof {
                        assert(network_position(nets@, s@, i as int) == network_position(
                            nets@,
                            s@,
                            i + 1,
                        ));
                    }
                    i = i + 1;
                }
                proof {
                    assert(network_position(nets@, s@, i as int) == 0);
                }
                0
            },
            None => 0,
        }
    }

    pub fn network(&self) -> (n: Option<&Network>)
        ensures
            n is Some <==> self.has_network(),
            n matches Some(x) ==> *x == self.cur_network(),
    {
        let nets = self.networks();
        let i = self.network_index();
        if i < nets.len() {
            Some(&nets[i])
        } else {
            None
        }
    }
}

impl App {
    /// `new` has the cursor on device `idx` of `old`, with no network picked.
    pub open spec fn device_picked(old: App, new: App, idx: int) -> bool {
        &&& new == App { selected_device: new.selected_device, selected_ssid: None, ..old }
        &&& opt_view(new.selected_device) == Some(old.devs()[idx].path@)
    }

    /// `new` has the cursor on network `idx` of `old`.
    pub open spec fn network_picked(old: App, new: App, idx: int) -> bool {
        &&& new == App { selected_ssid: new.selected_ssid, ..old }
        &&& bytes_opt(new.selected_ssid) == Some(old.nets()[idx].ssid@)
    }

    fn select_device(&mut self, idx: usize)
        ensures
            idx < old(self).devs().len() ==> Self::device_picked(*old(self), *final(self), idx as int),
            idx >= old(self).devs().len() ==> *final(self) == *old(self),
    {
        if idx < self.snapshot.devices.len() {
            let p = self.snapshot.devices[idx].path.clone();
            self.selected_device = Some(p);
            self.selected_ssid = None;
        }
    }

    fn select_network(&mut self, idx: usize)
        ensures
            idx < old(self).nets().len() ==> Self::network_picked(*old(self), *final(self), idx as int),
            idx >= old(self).nets().len() ==> *final(self) == *old(self),
    {
        let nets = self.networks();
        if idx < nets.len() {
            let s = copy_bytes(&nets[idx].ssid);
            self.selected_ssid = Some(s);
        }
    }

    /// Moving the cursor of the focused pane by `delta` rows, held to the list.
    pub open spec fn moved(old: App, new: App, delta: int) -> bool {
        match old.focus {
            Focus::Devices => if old.devs().len() == 0 {
                new == old
            } else {
                Self::device_picked(old, new, clamped(old.device_at(), delta, old.devs().len() as int))
            },
            Focus::Networks => if old.nets().len() == 0 {
                new == old
            } else {
                Self::network_picked(old, new, clamped(old.network_at(), delta, old.nets().len() as int))
            },
        }
    }

    fn move_selection(&mut self, delta: isize)
        requires
            old(self).wf(),
            -(isize::MAX / 2) - 1 <= delta <= isize::MAX / 2,
        ensures
            final(self).wf(),
            Self::moved(*old(self), *final(self), delta as int),
    {
        match self.focus {
            Focus::Devices => {
                let len = self.snapshot.devices.len();
                if len == 0 {
                    return;
                }
                let cur = self.device_index();
                proof {
                    lemma_device_position_bound(self.devs(), match opt_view(self.selected_device) {
                        Some(p) => p,
                        None => Seq::empty(),
                    }, 0);
                }
                let idx = clamp_move(cur, delta, len);
                self.select_device(idx);
            },
            Focus::Networks => {
                let len = self.networks().len();
                if len == 0 {
                    return;
                }
                let cur = self.network_index();
                proof {
                    lemma_network_position_bound(self.nets(), match bytes_opt(self.selected_ssid) {
                        Some(s) => s,
                        None => Seq::empty(),
                    }, 0);
                    if self.has_device() {
                        lemma_device_position_bound(self.devs(), match opt_view(self.selected_device) {
                            Some(p) => p,
                            None => Seq::empty(),
                        }, 0);
                        let d = self.device_at();
                        assert(list_len_ok(self.snapshot.devices@[d].networks@.len()));
                    }
                }
                let idx = clamp_move(cur, delta, len);
                self.select_network(idx);
            },
        }
    }

    pub open spec fn with_status(self, s: Status, now_ms: u64) -> App {
        App { status: s, status_at_ms: now_ms, ..self }
    }

    fn set_status(&mut self, s: Status, now_ms: u64)
        ensures
            *final(self) == old(self).with_status(s, now_ms),
    {
        self.status = s;
        self.status_at_ms = now_ms;
    }

    /// Is the status line still worth showing? Work in flight and errors stay;
    /// anything else fades after six seconds.
    pub open spec fn status_shown(self, now_ms: u64) -> bool {
        let elapsed = if now_ms >= self.status_at_ms {
            now_ms - self.status_at_ms
        } else {
            0
        };
        self.status.busy || self.status.level == Level::Error || elapsed < 6000
    }

    pub fn status_visible(&self, now_ms: u64) -> (b: bool)
        ensures
            b == self.status_shown(now_ms),
    {
        let elapsed: u64 = if now_ms >= self.status_at_ms {
            now_ms - self.status_at_ms
        } else {
            0
        };
        self.status.busy || self.status.level == Level::Error || elapsed < 6000
    }

    // ------------------------------------------------------------------ messages

    /// What a snapshot does to the state: it replaces the lists and keeps the
    /// cursors on the same device and SSID while they are still listed.
    pub open spec fn refreshed(old: App, new: App, s: Snapshot) -> bool {
        let pick_device = old.selected_device is None && s.devices@.len() > 0;
        let mid_ssid = if pick_device {
            None
        } else {
            bytes_opt(old.selected_ssid)
        };
        let adrift = match mid_ssid {
            Some(x) => !ssid_listed(new.nets(), x),
            None => true,
        };
        &&& new.snapshot == s
        &&& !new.first_load
        &&& new.focus == old.focus
        &&& new.modal == old.modal
        &&& new.quit == old.quit
        &&& new.status_at_ms == old.status_at_ms
        &&& if old.first_load {
            new.status.level == Level::Info && new.status.text@.len() == 0 && !new.status.busy
        } else {
            new.status == old.status
        }
        &&& if pick_device {
            opt_view(new.selected_device) == Some(s.devices@[0].path@)
        } else {
            new.selected_device == old.selected_device
        }
        &&& if adrift && new.nets().len() > 0 {
            bytes_opt(new.selected_ssid) == Some(new.nets()[0].ssid@)
        } else if pick_device {
            new.selected_ssid is None
        } else {
            new.selected_ssid == old.selected_ssid
        }
    }

    pub open spec fn took_msg(old: App, new: App, msg: Msg, now_ms: u64) -> bool {
        match msg {
            Msg::Status(s) => new == old.with_status(s, now_ms),
            Msg::Snapshot(s) => Self::refreshed(old, new, *s),
        }
    }

    pub fn on_msg(&mut self, msg: Msg, now_ms: u64)
        requires
            old(self).wf(),
            msg matches Msg::Snapshot(s) ==> snapshot_ok(*s),
        ensures
            final(self).wf(),
            Self::took_msg(*old(self), *final(self), msg, now_ms),
    {
        match msg {
            Msg::Snapshot(s) => {
                let was_loading = self.first_load;
                self.snapshot = *s;
                self.first_load = false;
                if self.selected_device.is_none() {
                    self.select_device(0);
                }
                let adrift = match &self.selected_ssid {
                    Some(x) => !self.lists_ssid(x),
                    None => true,
                };
                if adrift {
                    self.select_network(0);
                }
                if was_loading {
                    self.status = Status::info(String::new());
                }
            },
            Msg::Status(s) => {
                self.status = s;
                self.status_at_ms = now_ms;
            },
        }
    }

    fn lists_ssid(&self, ssid: &Vec<u8>) -> (b: bool)
        ensures
            b == ssid_listed(self.nets(), ssid@),
    {
        let nets = self.networks();
        let mut i: usize = 0;
        while i < nets.len()
            invariant
                i <= nets@.len(),
                nets@ == self.nets(),
                forall|j: int| 0 <= j < i ==> (#[trigger] nets@[j]).ssid@ != ssid@,
            decreases nets.len() - i,
        {
            if same_ssid(&nets[i].ssid, ssid) {
                return true;
            }
            i = i + 1;
        }
        false
    }
}

// ----------------------------------------------------------------------- actions

/// Every field of `new` but the status line is as in `old`; the status line
/// reads `text` at `level`, set at `now_ms`.
pub open spec fn status_now(old: App, new: App, level: Level, text: Seq<char>, now_ms: u64) -> bool {
    &&& new == App { status: new.status, status_at_ms: now_ms, ..old }
    &&& new.status.level == level
    &&& new.status.text@ == text
    &&& !new.status.busy
}

/// A job whose status lines read `pending` and `done`.
pub open spec fn job_says(job: Option<Job>, pending: Seq<char>, done: Seq<char>) -> bool {
    job matches Some(j) && j.pending@ == pending && j.done@ == done
}

/// Only the dialog changed.
pub open spec fn only_modal(old: App, new: App) -> bool {
    new == App { modal: new.modal, ..old }
}

pub open spec fn field_is(f: Field, label: Seq<char>, secret: bool) -> bool {
    f.label@ == label && f.value@.len() == 0 && f.secret == secret
}

impl App {
    /// `w` turns the radio on or off, unless a hardware switch holds it off.
    pub open spec fn radio_toggled(old: App, new: App, now_ms: u64, job: Option<Job>) -> bool {
        if !old.snapshot.wireless_hw_enabled {
            job is None && status_now(
                old,
                new,
                Level::Error,
                "Wi-Fi is blocked by a hardware switch or rfkill"@,
                now_ms,
            )
        } else {
            let on = !old.snapshot.wireless_enabled;
            &&& new == old
            &&& job_says(
                job,
                if on { "enabling Wi-Fi\u{2026}"@ } else { "disabling Wi-Fi\u{2026}"@ },
                "Wi-Fi "@ + if on { "enabled"@ } else { "disabled"@ },
            )
            &&& job matches Some(j) && j.task == Task::SetWireless(on)
        }
    }

    fn toggle_radio(&mut self, now_ms: u64) -> (job: Option<Job>)
        requires
            old(self).wf(),
        ensures
            final(self).wf(),
            Self::radio_toggled(*old(self), *final(self), now_ms, job),
    {
        if !self.snapshot.wireless_hw_enabled {
            self.set_status(
                Status::error("Wi-Fi is blocked by a hardware switch or rfkill".to_string()),
                now_ms,
            );
            return None;
        }
        let on = !self.snapshot.wireless_enabled;
        let pending = if on {
            "enabling Wi-Fi\u{2026}".to_string()
        } else {
            "disabling Wi-Fi\u{2026}".to_string()
        };
        let done = cat2("Wi-Fi ", if on { "enabled" } else { "disabled" });
        Some(Job { pending, done, task: Task::SetWireless(on) })
    }

    /// `s` asks the selected device for a scan, when it can do one.
    pub open spec fn scan_requested(old: App, new: App, now_ms: u64, job: Option<Job>) -> bool {
        if !old.has_device() {
            job is None && status_now(old, new, Level::Error, "no Wi-Fi device selected"@, now_ms)
        } else if !old.snapshot.wireless_enabled {
            job is None && status_now(
                old,
                new,
                Level::Error,
                "Wi-Fi is off \u{2014} press w to enable it"@,
                now_ms,
            )
        } else if !old.cur_device().managed {
            job is None && status_now(
                old,
                new,
                Level::Error,
                old.cur_device().interface@ + " is disabled \u{2014} press e to enable it"@,
                now_ms,
            )
        } else {
            let iface = old.cur_device().interface@;
            &&& new == old
            &&& job_says(job, "scanning on "@ + iface + "\u{2026}"@, "scan complete on "@ + iface)
            &&& job matches Some(j) && j.task matches Task::Scan { device } && device@
                == old.cur_device().path@
        }
    }

    fn scan(&mut self, now_ms: u64) -> (job: Option<Job>)
        requires
            old(self).wf(),
        ensures
            final(self).wf(),
            Self::scan_requested(*old(self), *final(self), now_ms, job),
    {
        let dev = match self.device() {
            Some(d) => d,
            None => {
                self.set_status(Status::error("no Wi-Fi device selected".to_string()), now_ms);
                return None;
            },
        };
        if !self.snapshot.wireless_enabled {
            self.set_status(
                Status::error("Wi-Fi is off \u{2014} press w to enable it".to_string()),
                now_ms,
            );
            return None;
        }
        if !dev.enabled() {
            let text = cat2(dev.interface.as_str(), " is disabled \u{2014} press e to enable it");
            self.set_status(Status::error(text), now_ms);
            return None;
        }
        let path = dev.path.clone();
        let pending = cat3("scanning on ", dev.interface.as_str(), "\u{2026}");
        let done = cat2("scan complete on ", dev.interface.as_str());
        Some(Job { pending, done, task: Task::Scan { device: path } })
    }

    /// `d` disconnects the selected device, if it carries anything.
    pub open spec fn disconnect_requested(old: App, new: App, now_ms: u64, job: Option<Job>) -> bool {
        if !old.has_device() {
            new == old && job is None
        } else if old.cur_device().active is None && old.cur_device().state
            != crate::types::DeviceState::Activated {
            job is None && status_now(
                old,
                new,
                Level::Info,
                old.cur_device().interface@ + " is not connected"@,
                now_ms,
            )
        } else {
            let iface = old.cur_device().interface@;
            &&& new == old
            &&& job_says(job, "disconnecting "@ + iface + "\u{2026}"@, iface + " disconnected"@)
            &&& job matches Some(j) && j.task matches Task::Disconnect { device } && device@
                == old.cur_device().path@
        }
    }

    fn disconnect(&mut self, now_ms: u64) -> (job: Option<Job>)
        requires
            old(self).wf(),
        ensures
            final(self).wf(),
            Self::disconnect_requested(*old(self), *final(self), now_ms, job),
    {
        let dev = match self.device() {
            Some(d) => d,
            None => return None,
        };
        if dev.active.is_none() && !dev.state.is_connected() {
            let text = cat2(dev.interface.as_str(), " is not connected");
            self.set_status(Status::info(text), now_ms);
            return None;
        }
        let path = dev.path.clone();
        let pending = cat3("disconnecting ", dev.interface.as_str(), "\u{2026}");
        let done = cat2(dev.interface.as_str(), " disconnected");
        Some(Job { pending, done, task: Task::Disconnect { device: path } })
    }

    /// `a` flips the selected device's autoconnect.
    pub open spec fn autoconnect_toggled(old: App, new: App, job: Option<Job>) -> bool {
        if !old.has_device() {
            new == old && job is None
        } else {
            let on = !old.cur_device().autoconnect;
            let iface = old.cur_device().interface@;
            &&& new == old
            &&& job_says(job, "updating device\u{2026}"@, iface + " autoconnect "@ + on_off_text(on))
            &&& job matches Some(j) && j.task matches Task::SetAutoconnect { device, on: o } && device@
                == old.cur_device().path@ && o == on
        }
    }

    fn toggle_device_autoconnect(&mut self) -> (job: Option<Job>)
        requires
            old(self).wf(),
        ensures
            final(self).wf(),
            Self::autoconnect_toggled(*old(self), *final(self), job),
    {
        let dev = match self.device() {
            Some(d) => d,
            None => return None,
        };
        let on = !dev.autoconnect;
        let path = dev.path.clone();
        let done = cat3(dev.interface.as_str(), " autoconnect ", on_off(on));
        Some(Job {
            pending: "updating device\u{2026}".to_string(),
            done,
            task: Task::SetAutoconnect { device: path, on },
        })
    }

    /// `e` enables a disabled device at once, and asks before disabling one,
    /// because disabling holds across reboots.
    pub open spec fn enable_toggled(old: App, new: App, job: Option<Job>) -> bool {
        if !old.has_device() {
            new == old && job is None
        } else if old.cur_device().managed {
            &&& job is None
            &&& only_modal(old, new)
            &&& new.modal matches Modal::Confirm(ConfirmKind::Disable { device, interface, carrying })
                && device@ == old.cur_device().path@ && interface@ == old.cur_device().interface@
                && opt_view(carrying) == match old.cur_device().active {
                Some(a) => Some(a.id@),
                None => None,
            }
        } else {
            let iface = old.cur_device().interface@;
            &&& new == old
            &&& job_says(job, "enabling "@ + iface + "\u{2026}"@, iface + " enabled"@)
            &&& job matches Some(j) && j.task matches Task::Enable { device, interface } && device@
                == old.cur_device().path@ && interface@ == iface
        }
    }

    fn toggle_device_enabled(&mut self) -> (job: Option<Job>)
        requires
            old(self).wf(),
        ensures
            final(self).wf(),
            Self::enable_toggled(*old(self), *final(self), job),
    {
        let dev = match self.device() {
            Some(d) => d,
            None => return None,
        };
        let device = dev.path.clone();
        let interface = dev.interface.clone();
        if dev.enabled() {
            let carrying = match &dev.active {
                Some(a) => Some(a.id.clone()),
                None => None,
            };
            self.modal = Modal::Confirm(ConfirmKind::Disable { device, interface, carrying });
            return None;
        }
        let pending = cat3("enabling ", dev.interface.as_str(), "\u{2026}");
        let done = cat2(dev.interface.as_str(), " enabled");
        Some(Job { pending, done, task: Task::Enable { device, interface } })
    }

    /// `f` asks before deleting the stored profiles of the selected network.
    pub open spec fn forget_requested(old: App, new: App, now_ms: u64, job: Option<Job>) -> bool {
        if !old.has_network() {
            new == old && job is None
        } else if old.cur_network().saved@.len() == 0 {
            job is None && status_now(
                old,
                new,
                Level::Info,
                "no saved profile for "@ + old.cur_network().name@,
                now_ms,
            )
        } else {
            &&& job is None
            &&& only_modal(old, new)
            &&& new.modal matches Modal::Confirm(ConfirmKind::Forget { name, connections }) && name@
                == display_text(old.cur_network()) && connections@.map_values(|s: String| s@)
                == old.cur_network().saved@.map_values(|s: crate::types::SavedConnection| s.path@)
        }
    }

    fn forget(&mut self, now_ms: u64) -> (job: Option<Job>)
        requires
            old(self).wf(),
        ensures
            final(self).wf(),
            Self::forget_requested(*old(self), *final(self), now_ms, job),
    {
        let net = match self.network() {
            Some(n) => n,
            None => return None,
        };
        if net.saved.len() == 0 {
            let text = cat2("no saved profile for ", net.name.as_str());
            self.set_status(Status::info(text), now_ms);
            return None;
        }
        let name = display_name(net);
        let mut connections: Vec<String> = Vec::new();
        let mut i: usize = 0;
        while i < net.saved.len()
            invariant
                i <= net.saved@.len(),
                connections@.map_values(|s: String| s@) == net.saved@.take(i as int).map_values(
                    |s: crate::types::SavedConnection| s.path@,
                ),
            decreases net.saved.len() - i,
        {
            let p = net.saved[i].path.clone();
            let ghost before = connections@;
            connections.push(p);
            proof {
                assert(net.saved@.take(i + 1) == net.saved@.take(i as int).push(net.saved@[i as int]));
                assert(connections@.map_values(|s: String| s@) == before.map_values(|s: String| s@).push(p@));
            }
            i = i + 1;
        }
        proof {
            assert(net.saved@.take(net.saved@.len() as int) == net.saved@);
        }
        self.modal = Modal::Confirm(ConfirmKind::Forget { name, connections });
        None
    }

    /// `n` opens the dialog for a network that does not broadcast its name.
    pub open spec fn hidden_join_opened(old: App, new: App, now_ms: u64, job: Option<Job>) -> bool {
        if !old.has_device() {
            job is None && status_now(old, new, Level::Error, "no Wi-Fi device selected"@, now_ms)
        } else {
            &&& job is None
            &&& only_modal(old, new)
            &&& match new.modal {
                Modal::Prompt(p) => {
                    &&& p.title@ == "Join a hidden network"@
                    &&& p.hint@ == "leave the password empty for an open network"@
                    &&& p.fields@.len() == 2
                    &&& field_is(p.fields@[0], "SSID"@, false)
                    &&& field_is(p.fields@[1], "Password"@, true)
                    &&& p.focus == 0
                    &&& !p.reveal
                    &&& match p.kind {
                        PromptKind::JoinHidden { device, interface } => device@
                            == old.cur_device().path@ && interface@ == old.cur_device().interface@,
                        _ => false,
                    }
                },
                _ => false,
            }
        }
    }

    fn join_hidden(&mut self, now_ms: u64) -> (job: Option<Job>)
        requires
            old(self).wf(),
        ensures
            final(self).wf(),
            Self::hidden_join_opened(*old(self), *final(self), now_ms, job),
    {
        let dev = match self.device() {
            Some(d) => d,
            None => {
                self.set_status(Status::error("no Wi-Fi device selected".to_string()), now_ms);
                return None;
            },
        };
        let device = dev.path.clone();
        let interface = dev.interface.clone();
        let fields = vec![
            Field { label: "SSID", value: String::new(), secret: false },
            Field { label: "Password", value: String::new(), secret: true },
        ];
        self.modal = Modal::Prompt(Prompt {
            title: "Join a hidden network".to_string(),
            hint: "leave the password empty for an open network".to_string(),
            fields,
            focus: 0,
            reveal: false,
            kind: PromptKind::JoinHidden { device, interface },
        });
        None
    }
}

// ------------------------------------------------------------------ secret dialog

/// The dialog that asks for what `security` needs: an identity and a password
/// for 802.1X, otherwise one password field.
pub open spec fn is_secret_prompt(p: Prompt, title: Seq<char>, security: Security) -> bool {
    &&& p.title@ == title
    &&& p.focus == 0
    &&& !p.reveal
    &&& if security == Security::Enterprise {
        &&& p.fields@.len() == 2
        &&& field_is(p.fields@[0], "Identity"@, false)
        &&& field_is(p.fields@[1], "Password"@, true)
        &&& p.hint@ == "PEAP / MSCHAPv2"@
    } else {
        &&& p.fields@.len() == 1
        &&& field_is(p.fields@[0], "Password"@, true)
        &&& p.hint@ == if security == Security::Wep {
            "WEP key or passphrase"@
        } else {
            security.text() + " passphrase"@
        }
    }
}

pub fn secret_prompt(title: String, security: Security, kind: PromptKind) -> (p: Prompt)
    ensures
        is_secret_prompt(p, title@, security),
        p.kind == kind,
{
    let fields = match security {
        Security::Enterprise => vec![
            Field { label: "Identity", value: String::new(), secret: false },
            Field { label: "Password", value: String::new(), secret: true },
        ],
        _ => vec![Field { label: "Password", value: String::new(), secret: true }],
    };
    let hint = match security {
        Security::Enterprise => "PEAP / MSCHAPv2".to_string(),
        Security::Wep => "WEP key or passphrase".to_string(),
        other => {
            let mut h = other.to_string();
            h.push_str(" passphrase");
            h
        },
    };
    Prompt { title, hint, fields, focus: 0, reveal: false, kind }
}

/// The same dialog, with `why` in place of its hint.
pub fn reject(p: Prompt, why: &str) -> (r: Prompt)
    ensures
        r == (Prompt { hint: r.hint, ..p }),
        r.hint@ == why@,
{
    let mut p = p;
    p.hint = why.to_string();
    p
}

/// The dialog holds what `security` needs: a trimmed identity and a password
/// for 802.1X, otherwise a non-empty password.
pub open spec fn secret_given(p: Prompt, security: Security) -> bool {
    if security == Security::Enterprise {
        trimmed(p.fields@[0].value@).len() > 0 && p.fields@[1].value@.len() > 0
    } else {
        p.fields@[0].value@.len() > 0
    }
}

/// `s` is what the dialog holds for `security`.
pub open spec fn secret_read(s: Secret, p: Prompt, security: Security) -> bool {
    if security == Security::Enterprise {
        match s {
            Secret::Enterprise { identity, password } => identity@ == trimmed(p.fields@[0].value@)
                && password@ == p.fields@[1].value@,
            _ => false,
        }
    } else {
        match s {
            Secret::Passphrase(v) => v@ == p.fields@[0].value@,
            _ => false,
        }
    }
}

pub fn secret_from(p: &Prompt, security: Security) -> (r: Option<Secret>)
    requires
        p.fields@.len() >= 1,
        security == Security::Enterprise ==> p.fields@.len() >= 2,
    ensures
        r is Some <==> secret_given(*p, security),
        r matches Some(s) ==> secret_read(s, *p, security),
{
    match security {
        Security::Enterprise => {
            let identity = trim(p.fields[0].value.as_str());
            let password = p.fields[1].value.clone();
            if !identity.as_str().is_empty() && !password.as_str().is_empty() {
                Some(Secret::Enterprise { identity, password })
            } else {
                None
            }
        },
        _ => {
            let value = p.fields[0].value.clone();
            if !value.as_str().is_empty() {
                Some(Secret::Passphrase(value))
            } else {
                None
            }
        },
    }
}

// ------------------------------------------------------------------------ joining

impl App {
    /// Enter (and `p`, with `rekey`) on the network pane: join the selected
    /// network with its stored profile, or ask for what it needs first. On the
    /// device pane it moves the focus to the networks.
    pub open spec fn join_started(old: App, new: App, rekey: bool, now_ms: u64, job: Option<Job>) -> bool {
        if old.focus == Focus::Devices {
            job is None && new == App { focus: Focus::Networks, ..old }
        } else if !old.has_device() {
            job is None && new == old
        } else if !old.has_network() {
            job is None && status_now(
                old,
                new,
                Level::Info,
                "nothing to join \u{2014} press s to scan"@,
                now_ms,
            )
        } else {
            let dev = old.cur_device();
            let net = old.cur_network();
            let name = display_text(net);
            if net.active && !rekey {
                job is None && status_now(old, new, Level::Info, "already connected to "@ + name, now_ms)
            } else if net.ssid@.len() == 0 {
                job is None && status_now(
                    old,
                    new,
                    Level::Info,
                    "that entry hides its SSID \u{2014} press n to join it by name"@,
                    now_ms,
                )
            } else {
                let best = net.aps@[0];
                let security = Security::of_flags(best.flags, best.wpa_flags, best.rsn_flags);
                let has_saved = net.saved@.len() > 0;
                let saved = net.saved@[pinned_from(net.saved@, 0)];
                let ap = Some(best.path@);
                if security.secret_needed() && (!has_saved || rekey) {
                    &&& job is None
                    &&& only_modal(old, new)
                    &&& match new.modal {
                        Modal::Prompt(p) => if has_saved {
                            &&& is_secret_prompt(p, "Reconnect to "@ + name, security)
                            &&& match p.kind {
                                PromptKind::Rekey { device, connection, security: s, ap: a } => device@
                                    == dev.path@ && connection@ == saved.path@ && s == security
                                    && opt_view(a) == ap,
                                _ => false,
                            }
                        } else {
                            &&& is_secret_prompt(p, "Join "@ + name, security)
                            &&& match p.kind {
                                PromptKind::Join { device, interface, ssid, security: s, ap: a } => device@
                                    == dev.path@ && interface@ == dev.interface@ && ssid@ == net.ssid@
                                    && s == security && opt_view(a) == ap,
                                _ => false,
                            }
                        },
                        _ => false,
                    }
                } else {
                    &&& new == old
                    &&& job_says(job, "connecting to "@ + name + "\u{2026}"@, "connected to "@ + name)
                    &&& match job {
                        Some(j) => if has_saved {
                            match j.task {
                                Task::Activate { connection, device, ap: a } => connection@ == saved.path@
                                    && device@ == dev.path@ && opt_view(a) == ap,
                                _ => false,
                            }
                        } else {
                            match j.task {
                                Task::AddAndActivate { profile, device, ap: a } => wifi_profile(
                                    net.ssid@,
                                    security,
                                    Secret::Empty,
                                    false,
                                    dev.interface@,
                                ) == Ok::<Seq<crate::profile::GroupView>, crate::profile::ProfileError>(
                                    profile@,
                                ) && device@ == dev.path@ && opt_view(a) == ap,
                                _ => false,
                            }
                        },
                        None => false,
                    }
                }
            }
        }
    }

    fn join_selected(&mut self, rekey: bool, now_ms: u64) -> (job: Option<Job>)
        requires
            old(self).wf(),
        ensures
            final(self).wf(),
            Self::join_started(*old(self), *final(self), rekey, now_ms, job),
    {
        if self.focus == Focus::Devices {
            self.focus = Focus::Networks;
            return None;
        }
        let (device, interface) = match self.device() {
            Some(d) => (d.path.clone(), d.interface.clone()),
            None => return None,
        };
        let net = match self.network() {
            Some(n) => n,
            None => {
                self.set_status(
                    Status::info("nothing to join \u{2014} press s to scan".to_string()),
                    now_ms,
                );
                return None;
            },
        };
        proof {
            self.lemma_current_network_has_aps();
        }
        if net.active && !rekey {
            let shown = display_name(net);
            let text = cat2("already connected to ", shown.as_str());
            self.set_status(Status::info(text), now_ms);
            return None;
        }
        if net.is_hidden() {
            self.set_status(
                Status::info(
                    "that entry hides its SSID \u{2014} press n to join it by name".to_string(),
                ),
                now_ms,
            );
            return None;
        }
        let security = net.security();
        let ap = Some(net.best().path.clone());
        let name = display_name(net);
        let ssid = copy_bytes(&net.ssid);
        let saved: Option<SavedConnection> = match preferred_saved(net) {
            Some(s) => Some(s.clone()),
            None => None,
        };
        if security.needs_secret() && (saved.is_none() || rekey) {
            let (title, kind) = match saved {
                Some(s) => (
                    cat2("Reconnect to ", name.as_str()),
                    PromptKind::Rekey { device, connection: s.path, security, ap },
                ),
                None => (
                    cat2("Join ", name.as_str()),
                    PromptKind::Join { device, interface, ssid, security, ap },
                ),
            };
            self.modal = Modal::Prompt(secret_prompt(title, security, kind));
            return None;
        }
        let pending = cat3("connecting to ", name.as_str(), "\u{2026}");
        let done = cat2("connected to ", name.as_str());
        match saved {
            Some(s) => Some(Job { pending, done, task: Task::Activate { connection: s.path, device, ap } }),
            None => match build_wifi_profile(
                ssid.as_slice(),
                security,
                &Secret::Empty,
                false,
                interface.as_str(),
            ) {
                Ok(profile) => Some(Job { pending, done, task: Task::AddAndActivate { profile, device, ap } }),
                Err(e) => {
                    let msg = e.to_string();
                    let text = format_error_text(msg.as_str(), msg.as_str());
                    self.set_status(Status::error(text), now_ms);
                    None
                },
            },
        }
    }

    proof fn lemma_current_network_has_aps(self)
        requires
            self.wf(),
            self.has_network(),
        ensures
            self.cur_network().aps@.len() > 0,
    {
        lemma_device_position_bound(self.devs(), match opt_view(self.selected_device) {
            Some(p) => p,
            None => Seq::empty(),
        }, 0);
        lemma_network_position_bound(self.nets(), match bytes_opt(self.selected_ssid) {
            Some(s) => s,
            None => Seq::empty(),
        }, 0);
        let d = self.device_at();
        let n = self.network_at();
        assert(self.snapshot.devices@[d].networks@[n].aps@.len() > 0);
    }
}

// ------------------------------------------------------------------ dialog keys

/// The dialog `p` is open again, with `why` as its hint.
pub open spec fn rejected(old: App, new: App, p: Prompt, why: Seq<char>) -> bool {
    &&& only_modal(old, new)
    &&& match new.modal {
        Modal::Prompt(q) => q == (Prompt { hint: q.hint, ..p }) && q.hint@ == why,
        _ => false,
    }
}

/// The dialog `q` is open and nothing else changed.
pub open spec fn shows(old: App, new: App, q: Prompt) -> bool {
    new == App { modal: Modal::Prompt(q), ..old }
}

/// The dialog `p` is open again with its focused field now reading `v`.
pub open spec fn edited(old: App, new: App, p: Prompt, v: Seq<char>) -> bool {
    &&& only_modal(old, new)
    &&& match new.modal {
        Modal::Prompt(q) => {
            &&& q == (Prompt { fields: q.fields, ..p })
            &&& q.fields@.len() == p.fields@.len()
            &&& forall|i: int|
                0 <= i < p.fields@.len() && i != p.focus ==> #[trigger] q.fields@[i] == p.fields@[i]
            &&& q.fields@[p.focus as int].label == p.fields@[p.focus as int].label
            &&& q.fields@[p.focus as int].secret == p.fields@[p.focus as int].secret
            &&& q.fields@[p.focus as int].value@ == v
        },
        _ => false,
    }
}

impl App {
    /// Enter in the dialog: start the join it was opened for, or keep it open
    /// and say what is missing.
    pub open spec fn prompt_submitted(old: App, new: App, p: Prompt, job: Option<Job>) -> bool {
        match p.kind {
            PromptKind::Join { device, interface, ssid, security, ap } => if !secret_given(p, security) {
                job is None && rejected(old, new, p, "a password is required"@)
            } else {
                let name = ssid_text(ssid@);
                &&& new == old
                &&& job_says(job, "connecting to "@ + name + "\u{2026}"@, "connected to "@ + name)
                &&& match job {
                    Some(j) => match j.task {
                        Task::AddAndActivate { profile, device: d, ap: a } => d@ == device@ && opt_view(a)
                            == opt_view(ap) && exists|s: Secret|
                            secret_read(s, p, security) && wifi_profile(
                                ssid@,
                                security,
                                s,
                                false,
                                interface@,
                            ) == Ok::<Seq<crate::profile::GroupView>, crate::profile::ProfileError>(
                                profile@,
                            ),
                        _ => false,
                    },
                    None => false,
                }
            },
            PromptKind::Rekey { device, connection, security, ap } => if !secret_given(p, security) {
                job is None && rejected(old, new, p, "a password is required"@)
            } else {
                &&& new == old
                &&& job_says(job, "reconnecting\u{2026}"@, "connected"@)
                &&& match job {
                    Some(j) => match j.task {
                        Task::Rekey { connection: c, security: s, secret, device: d, ap: a } => c@
                            == connection@ && s == security && secret_read(secret, p, security) && d@
                            == device@ && opt_view(a) == opt_view(ap),
                        _ => false,
                    },
                    None => false,
                }
            },
            PromptKind::JoinHidden { device, interface } => {
                let ssid = trimmed(p.fields@[0].value@);
                let password = p.fields@[1].value@;
                if ssid.len() == 0 {
                    job is None && rejected(old, new, p, "an SSID is required"@)
                } else {
                    &&& new == old
                    &&& job_says(job, "connecting to "@ + ssid + "\u{2026}"@, "connected to "@ + ssid)
                    &&& match job {
                        Some(j) => match j.task {
                            Task::AddAndActivate { profile, device: d, ap } => d@ == device@ && ap is None
                                && if password.len() == 0 {
                                wifi_profile(encode_utf8(ssid), Security::Open, Secret::Empty, true, interface@)
                                    == Ok::<Seq<crate::profile::GroupView>, crate::profile::ProfileError>(
                                    profile@,
                                )
                            } else {
                                exists|s: Secret|
                                    #![trigger wifi_profile(encode_utf8(ssid), Security::WpaPsk, s, true, interface@)]
                                    (s matches Secret::Passphrase(v) && v@ == password) && wifi_profile(
                                        encode_utf8(ssid),
                                        Security::WpaPsk,
                                        s,
                                        true,
                                        interface@,
                                    ) == Ok::<Seq<crate::profile::GroupView>, crate::profile::ProfileError>(
                                        profile@,
                                    )
                            },
                            _ => false,
                        },
                        None => false,
                    }
                }
            },
        }
    }

    fn submit_prompt(&mut self, p: Prompt) -> (job: Option<Job>)
        requires
            old(self).wf(),
            prompt_ok(p),
        ensures
            final(self).wf(),
            Self::prompt_submitted(*old(self), *final(self), p, job),
    {
        match &p.kind {
            PromptKind::Join { device, interface, ssid, security, ap } => {
                let security = *security;
                let secret = match secret_from(&p, security) {
                    Some(s) => s,
                    None => {
                        self.modal = Modal::Prompt(reject(p, "a password is required"));
                        return None;
                    },
                };
                let name = ssid_to_string(ssid.as_slice());
                let device = device.clone();
                let ap = clone_opt(ap);
                match build_wifi_profile(ssid.as_slice(), security, &secret, false, interface.as_str()) {
                    Ok(profile) => {
                        let pending = cat3("connecting to ", name.as_str(), "\u{2026}");
                        let done = cat2("connected to ", name.as_str());
                        Some(Job { pending, done, task: Task::AddAndActivate { profile, device, ap } })
                    },
                    Err(e) => {
                        let msg = e.to_string();
                        let text = format_error_text(msg.as_str(), msg.as_str());
                        self.modal = Modal::Prompt(reject(p, text.as_str()));
                        None
                    },
                }
            },
            PromptKind::Rekey { device, connection, security, ap } => {
                let security = *security;
                let secret = match secret_from(&p, security) {
                    Some(s) => s,
                    None => {
                        self.modal = Modal::Prompt(reject(p, "a password is required"));
                        return None;
                    },
                };
                let task = Task::Rekey {
                    connection: connection.clone(),
                    security,
                    secret,
                    device: device.clone(),
                    ap: clone_opt(ap),
                };
                Some(Job {
                    pending: "reconnecting\u{2026}".to_string(),
                    done: "connected".to_string(),
                    task,
                })
            },
            PromptKind::JoinHidden { device, interface } => {
                let ssid = trim(p.fields[0].value.as_str());
                if ssid.as_str().is_empty() {
                    self.modal = Modal::Prompt(reject(p, "an SSID is required"));
                    return None;
                }
                let password = p.fields[1].value.clone();
                let (security, secret) = if password.as_str().is_empty() {
                    (Security::Open, Secret::Empty)
                } else {
                    (Security::WpaPsk, Secret::Passphrase(password))
                };
                let device = device.clone();
                match build_wifi_profile(ssid.as_str().as_bytes(), security, &secret, true, interface.as_str()) {
                    Ok(profile) => {
                        let pending = cat3("connecting to ", ssid.as_str(), "\u{2026}");
                        let done = cat2("connected to ", ssid.as_str());
                        Some(Job { pending, done, task: Task::AddAndActivate { profile, device, ap: None } })
                    },
                    Err(e) => {
                        let msg = e.to_string();
                        let text = format_error_text(msg.as_str(), msg.as_str());
                        self.modal = Modal::Prompt(reject(p, text.as_str()));
                        None
                    },
                }
            },
        }
    }
}

impl App {
    /// A key in the dialog: Esc closes it, Enter submits it, Tab and the
    /// arrows move between fields, and the rest edits the focused field
    /// (^u clears it, ^r shows or hides secrets).
    pub open spec fn prompt_key(old: App, new: App, key: KeyPress, p: Prompt, job: Option<Job>) -> bool {
        let len = p.fields@.len() as int;
        let f = p.focus as int;
        let value = p.fields@[f].value@;
        match key.code {
            KeyCode::Esc => job is None && new == old,
            KeyCode::Enter => Self::prompt_submitted(old, new, p, job),
            KeyCode::Tab | KeyCode::Down => job is None && shows(
                old,
                new,
                Prompt { focus: ((f + 1) % len) as usize, ..p },
            ),
            KeyCode::BackTab | KeyCode::Up => job is None && shows(
                old,
                new,
                Prompt { focus: (if f == 0 { len - 1 } else { f - 1 }) as usize, ..p },
            ),
            KeyCode::Backspace => job is None && edited(
                old,
                new,
                p,
                if value.len() > 0 { value.drop_last() } else { value },
            ),
            KeyCode::Char(c) => job is None && if key.ctrl {
                if c == 'u' {
                    edited(old, new, p, Seq::empty())
                } else if c == 'r' {
                    shows(old, new, Prompt { reveal: !p.reveal, ..p })
                } else {
                    shows(old, new, p)
                }
            } else {
                edited(old, new, p, value.push(c))
            },
            _ => job is None && shows(old, new, p),
        }
    }

    fn on_key_prompt(&mut self, key: KeyPress, p: Prompt) -> (job: Option<Job>)
        requires
            old(self).wf(),
            prompt_ok(p),
        ensures
            final(self).wf(),
            Self::prompt_key(*old(self), *final(self), key, p, job),
    {
        let mut p = p;
        let ctrl = key.ctrl;
        let len = p.fields.len();
        let focus = p.focus;
        match key.code {
            KeyCode::Esc => return None,
            KeyCode::Enter => return self.submit_prompt(p),
            KeyCode::Tab | KeyCode::Down => {
                p.focus = (p.focus + 1) % len;
            },
            KeyCode::BackTab | KeyCode::Up => {
                p.focus = if p.focus == 0 {
                    len - 1
                } else {
                    p.focus - 1
                };
            },
            KeyCode::Backspace => {
                let ghost before = p.fields@;
                let mut f = p.fields.remove(focus);
                f.value.pop();
                p.fields.insert(focus, f);
                proof {
                    lemma_remove_insert(before, focus as int, f);
                }
            },
            KeyCode::Char(c) => {
                if ctrl && c == 'u' {
                    let ghost before = p.fields@;
                    let mut f = p.fields.remove(focus);
                    f.value = String::new();
                    p.fields.insert(focus, f);
                    proof {
                        lemma_remove_insert(before, focus as int, f);
                    }
                } else if ctrl && c == 'r' {
                    p.reveal = !p.reveal;
                } else if !ctrl {
                    let ghost before = p.fields@;
                    let mut f = p.fields.remove(focus);
                    f.value.push(c);
                    p.fields.insert(focus, f);
                    proof {
                        lemma_remove_insert(before, focus as int, f);
                    }
                }
            },
            _ => {},
        }
        self.modal = Modal::Prompt(p);
        None
    }

    /// A key in a confirmation: `y` runs what it asked about, any other key
    /// drops it.
    pub open spec fn confirm_key(old: App, new: App, key: KeyPress, c: ConfirmKind, job: Option<Job>) -> bool {
        &&& new == old
        &&& if key.code == KeyCode::Char('y') || key.code == KeyCode::Char('Y') {
            match c {
                ConfirmKind::Forget { name, connections } => job_says(
                    job,
                    "forgetting "@ + name@ + "\u{2026}"@,
                    "forgot "@ + name@,
                ) && (job matches Some(j) && j.task == Task::Forget { connections }),
                ConfirmKind::Disable { device, interface, .. } => job_says(
                    job,
                    "disabling "@ + interface@ + "\u{2026}"@,
                    interface@ + " disabled"@,
                ) && (job matches Some(j) && j.task == Task::Disable { device, interface }),
            }
        } else {
            job is None
        }
    }

    fn on_key_confirm(&mut self, key: KeyPress, c: ConfirmKind) -> (job: Option<Job>)
        requires
            old(self).wf(),
        ensures
            final(self).wf(),
            Self::confirm_key(*old(self), *final(self), key, c, job),
    {
        if key.code == KeyCode::Char('y') || key.code == KeyCode::Char('Y') {
            match c {
                ConfirmKind::Forget { name, connections } => {
                    let pending = cat3("forgetting ", name.as_str(), "\u{2026}");
                    let done = cat2("forgot ", name.as_str());
                    Some(Job { pending, done, task: Task::Forget { connections } })
                },
                ConfirmKind::Disable { device, interface, .. } => {
                    let pending = cat3("disabling ", interface.as_str(), "\u{2026}");
                    let done = cat2(interface.as_str(), " disabled");
                    Some(Job { pending, done, task: Task::Disable { device, interface } })
                },
            }
        } else {
            None
        }
    }
}

impl App {
    /// A key with no dialog open.
    pub open spec fn normal_key(old: App, new: App, key: KeyPress, now_ms: u64, job: Option<Job>) -> bool {
        match key.code {
            KeyCode::Char('q') => job is None && new == App { quit: true, ..old },
            KeyCode::Char('?') => job is None && new == App { modal: Modal::Help, ..old },
            KeyCode::Esc => job is None && status_now(old, new, Level::Info, Seq::empty(), now_ms),
            KeyCode::Tab | KeyCode::BackTab => job is None && new == App {
                focus: match old.focus {
                    Focus::Devices => Focus::Networks,
                    Focus::Networks => Focus::Devices,
                },
                ..old
            },
            KeyCode::Left | KeyCode::Char('h') => job is None && new == App {
                focus: Focus::Devices,
                ..old
            },
            KeyCode::Right | KeyCode::Char('l') => job is None && new == App {
                focus: Focus::Networks,
                ..old
            },
            KeyCode::Down | KeyCode::Char('j') => job is None && Self::moved(old, new, 1),
            KeyCode::Up | KeyCode::Char('k') => job is None && Self::moved(old, new, -1),
            KeyCode::PageDown => job is None && Self::moved(old, new, 10),
            KeyCode::PageUp => job is None && Self::moved(old, new, -10),
            KeyCode::Home | KeyCode::Char('g') => job is None && Self::moved(
                old,
                new,
                (isize::MIN / 2) as int,
            ),
            KeyCode::End | KeyCode::Char('G') => job is None && Self::moved(
                old,
                new,
                (isize::MAX / 2) as int,
            ),
            KeyCode::Enter => Self::join_started(old, new, false, now_ms, job),
            KeyCode::Char('p') => Self::join_started(old, new, true, now_ms, job),
            KeyCode::Char('n') => Self::hidden_join_opened(old, new, now_ms, job),
            KeyCode::Char('w') => Self::radio_toggled(old, new, now_ms, job),
            KeyCode::Char('s') | KeyCode::Char('r') => Self::scan_requested(old, new, now_ms, job),
            KeyCode::Char('d') => Self::disconnect_requested(old, new, now_ms, job),
            KeyCode::Char('f') => Self::forget_requested(old, new, now_ms, job),
            KeyCode::Char('a') => Self::autoconnect_toggled(old, new, job),
            KeyCode::Char('e') => Self::enable_toggled(old, new, job),
            _ => job is None && new == old,
        }
    }

    fn on_key_normal(&mut self, key: KeyPress, now_ms: u64) -> (job: Option<Job>)
        requires
            old(self).wf(),
        ensures
            final(self).wf(),
            Self::normal_key(*old(self), *final(self), key, now_ms, job),
    {
        match key.code {
            KeyCode::Char('q') => {
                self.quit = true;
                None
            },
            KeyCode::Char('?') => {
                self.modal = Modal::Help;
                None
            },
            KeyCode::Esc => {
                self.set_status(Status::info(String::new()), now_ms);
                None
            },
            KeyCode::Tab | KeyCode::BackTab => {
                self.focus = match self.focus {
                    Focus::Devices => Focus::Networks,
                    Focus::Networks => Focus::Devices,
                };
                None
            },
            KeyCode::Left | KeyCode::Char('h') => {
                self.focus = Focus::Devices;
                None
            },
            KeyCode::Right | KeyCode::Char('l') => {
                self.focus = Focus::Networks;
                None
            },
            KeyCode::Down | KeyCode::Char('j') => {
                self.move_selection(1);
                None
            },
            KeyCode::Up | KeyCode::Char('k') => {
                self.move_selection(-1);
                None
            },
            KeyCode::PageDown => {
                self.move_selection(10);
                None
            },
            KeyCode::PageUp => {
                self.move_selection(-10);
                None
            },
            KeyCode::Home | KeyCode::Char('g') => {
                self.move_selection(isize::MIN / 2);
                None
            },
            KeyCode::End | KeyCode::Char('G') => {
                self.move_selection(isize::MAX / 2);
                None
            },
            KeyCode::Enter => self.join_selected(false, now_ms),
            KeyCode::Char('p') => self.join_selected(true, now_ms),
            KeyCode::Char('n') => self.join_hidden(now_ms),
            KeyCode::Char('w') => self.toggle_radio(now_ms),
            KeyCode::Char('s') | KeyCode::Char('r') => self.scan(now_ms),
            KeyCode::Char('d') => self.disconnect(now_ms),
            KeyCode::Char('f') => self.forget(now_ms),
            KeyCode::Char('a') => self.toggle_device_autoconnect(),
            KeyCode::Char('e') => self.toggle_device_enabled(),
            _ => None,
        }
    }

    /// What one terminal event does. Only key presses count; ctrl-c quits from
    /// anywhere; an open dialog takes the key first, and any key closes help.
    pub open spec fn event_handled(old: App, new: App, ev: Event, now_ms: u64, job: Option<Job>) -> bool {
        match ev {
            Event::Other => job is None && new == old,
            Event::Key(key) => if key.release {
                job is None && new == old
            } else if key.ctrl && key.code == KeyCode::Char('c') {
                job is None && new == App { quit: true, ..old }
            } else {
                let closed = App { modal: Modal::Closed, ..old };
                match old.modal {
                    Modal::Closed => Self::normal_key(closed, new, key, now_ms, job),
                    Modal::Help => job is None && new == closed,
                    Modal::Prompt(p) => Self::prompt_key(closed, new, key, p, job),
                    Modal::Confirm(c) => Self::confirm_key(closed, new, key, c, job),
                }
            },
        }
    }

    pub fn on_event(&mut self, ev: Event, now_ms: u64) -> (job: Option<Job>)
        requires
            old(self).wf(),
        ensures
            final(self).wf(),
            Self::event_handled(*old(self), *final(self), ev, now_ms, job),
    {
        let key = match ev {
            Event::Key(k) => k,
            Event::Other => return None,
        };
        if key.release {
            return None;
        }
        if key.ctrl && key.code == KeyCode::Char('c') {
            self.quit = true;
            return None;
        }
        let mut modal = Modal::Closed;
        std::mem::swap(&mut modal, &mut self.modal);
        match modal {
            Modal::Closed => self.on_key_normal(key, now_ms),
            Modal::Help => None,
            Modal::Prompt(p) => self.on_key_prompt(key, p),
            Modal::Confirm(c) => self.on_key_confirm(key, c),
        }
    }
}

proof fn lemma_remove_insert(s: Seq<Field>, i: int, f: Field)
    requires
        0 <= i < s.len(),
    ensures
        s.remove(i).insert(i, f) == s.update(i, f),
{
    assert(s.remove(i).insert(i, f) == s.update(i, f));
}

proof fn lemma_device_position_bound(devs: Seq<WifiDevice>, p: Seq<char>, from: int)
    requires
        devs.len() > 0,
        0 <= from,
    ensures
        0 <= device_position(devs, p, from) < devs.len(),
    decreases devs.len() - from,
{
    if from < devs.len() && devs[from].path@ != p {
        lemma_device_position_bound(devs, p, from + 1);
    }
}

proof fn lemma_network_position_bound(nets: Seq<Network>, s: Seq<u8>, from: int)
    requires
        nets.len() > 0,
        0 <= from,
    ensures
        0 <= network_position(nets, s, from) < nets.len(),
    decreases nets.len() - from,
{
    if from < nets.len() && nets[from].ssid@ != s {
        lemma_network_position_bound(nets, s, from + 1);
    }
}

fn same_ssid(a: &Vec<u8>, b: &Vec<u8>) -> (r: bool)
    ensures
        r == (a@ == b@),
{
    if a.len() != b.len() {
        return false;
    }
    let mut i: usize = 0;
    while i < a.len()
        invariant
            a.len() == b.len(),
            i <= a.len(),
            forall|j: int| 0 <= j < i ==> a@[j] == b@[j],
        decreases a.len() - i,
    {
        if a[i] != b[i] {
            return false;
        }
        i = i + 1;
    }
    proof {
        assert(a@ == b@);
    }
    true
}

} // verus!
