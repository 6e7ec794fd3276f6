//! The state behind the desktop window and the settings window, and the
//! commands they send to the node.

use vstd::prelude::*;
use std::sync::mpsc::{Receiver, Sender};
use crate::config::{host_name, name_or};

verus! {

#[verifier::external_type_specification]
#[verifier::external_body]
#[verifier::reject_recursive_types(T)]
pub struct ExSender<T>(Sender<T>);

#[verifier::external_type_specification]
#[verifier::external_body]
#[verifier::reject_recursive_types(T)]
pub struct ExReceiver<T>(Receiver<T>);

#[derive(Clone, Debug, PartialEq)]
pub enum AppStatus {
    Stopped,
    Starting,
    Running,
    Error(String),
}

/// A device found on the network.
#[derive(Debug)]
pub struct RemoteDevice {
    pub name: String,
    pub address: String,
    pub connected: bool,
}

impl Clone for RemoteDevice {
    fn clone(&self) -> (d: RemoteDevice)
        ensures
            d == *self,
    {
        RemoteDevice { name: self.name.clone(), address: self.address.clone(), connected: self.connected }
    }
}

fn find_address(devices: &Vec<RemoteDevice>, address: &String) -> (b: bool)
    ensures
        b == lists_address(devices@, address@),
{
    let mut i: usize = 0;
    while i < devices.len()
        invariant
            i <= devices@.len(),
            forall|j: int| 0 <= j < i ==> (#[trigger] devices@[j]).address@ != address@,
        decreases devices@.len() - i,
    {
        if devices[i].address == *address {
            assert(devices@[i as int].address@ == address@);
            return true;
        }
        i = i + 1;
    }
    false
}

/// What the window asks the node to do.
#[derive(Clone, Debug)]
pub enum AppCommand {
    Start { name: String, is_primary: bool },
    Stop,
}

/// What the node reports to the window.
#[derive(Clone, Debug)]
pub enum AppEvent {
    Status(AppStatus),
    DeviceFound(RemoteDevice),
}

/// The next report of the node, if one is waiting.
///
/// Calls `std::sync::mpsc::Receiver::try_recv`; what is waiting depends on
/// the node, so nothing is stated.
#[verifier::external_body]
fn try_next_event(rx: &Receiver<AppEvent>) -> Option<AppEvent> {
    rx.try_recv().ok()
}

/// Whether the node is running or starting.
pub open spec fn is_active(status: AppStatus) -> bool {
    status is Running || status is Starting
}

/// What the window shows after taking in one report of the node: a status
/// replaces the shown status; a found device is appended unless one with
/// its address is already listed.
pub open spec fn after_event(
    shown: (AppStatus, Seq<RemoteDevice>),
    event: AppEvent,
) -> (AppStatus, Seq<RemoteDevice>) {
    match event {
        AppEvent::Status(s) => (s, shown.1),
        AppEvent::DeviceFound(d) => (
            shown.0,
            if lists_address(shown.1, d.address@) {
                shown.1
            } else {
                shown.1.push(d)
            },
        ),
    }
}

/// What the window shows after taking in `events`, oldest first.
pub open spec fn after_events(
    shown: (AppStatus, Seq<RemoteDevice>),
    events: Seq<AppEvent>,
) -> (AppStatus, Seq<RemoteDevice>)
    decreases events.len(),
{
    if events.len() == 0 {
        shown
    } else {
        after_event(after_events(shown, events.drop_last()), events.last())
    }
}

/// The status of the last status report among `events`, or `status` when
/// there is none.
pub open spec fn last_status(status: AppStatus, events: Seq<AppEvent>) -> AppStatus
    decreases events.len(),
{
    if events.len() == 0 {
        status
    } else {
        match events.last() {
            AppEvent::Status(s) => s,
            AppEvent::DeviceFound(_) => last_status(status, events.drop_last()),
        }
    }
}

/// No two listed devices share an address.
pub open spec fn addresses_distinct(devices: Seq<RemoteDevice>) -> bool {
    forall|i: int, j: int|
        0 <= i < j < devices.len() ==> (#[trigger] devices[i]).address@
            != (#[trigger] devices[j]).address@
}

/// Whether a device with `address` is already listed.
pub open spec fn lists_address(devices: Seq<RemoteDevice>, address: Seq<char>) -> bool {
    exists|i: int| 0 <= i < devices.len() && (#[trigger] devices[i]).address@ == address
}

/// Whether `cmd` asks the node to start under `name` and, as primary or
/// not, `primary`.
pub open spec fn is_start_for(cmd: AppCommand, name: Seq<char>, primary: bool) -> bool {
    cmd matches AppCommand::Start { name: n, is_primary: p } && n@ == name && p == primary
}

/// The desktop window's state, and its channels to the node.
pub struct OmniBridgeApp {
    device_name: String,
    is_primary: bool,
    status: AppStatus,
    remote_devices: Vec<RemoteDevice>,
    event_rx: Option<Receiver<AppEvent>>,
}

impl OmniBridgeApp {
    pub closed spec fn name(&self) -> Seq<char> {
        self.device_name@
    }

    pub closed spec fn primary(&self) -> bool {
        self.is_primary
    }

    pub closed spec fn current_status(&self) -> AppStatus {
        self.status
    }

    pub closed spec fn devices(&self) -> Seq<RemoteDevice> {
        self.remote_devices@
    }

    /// Whether the window holds a receiver for the node's reports.
    pub closed spec fn listening(&self) -> bool {
        self.event_rx is Some
    }

    /// A stopped primary node named after the machine (or `Unknown PC`),
    /// with no device found yet, listening to the node's reports on
    /// `event_rx`.
    pub fn new(event_rx: Receiver<AppEvent>) -> (a: OmniBridgeApp)
        ensures
            a.primary(),
            a.current_status() == AppStatus::Stopped,
            a.devices() == Seq::<RemoteDevice>::empty(),
            a.listening(),
    {
        let device_name = name_or(host_name(), "Unknown PC");
        OmniBridgeApp {
            device_name,
            is_primary: true,
            status: AppStatus::Stopped,
            remote_devices: Vec::new(),
            event_rx: Some(event_rx),
        }
    }

    /// The command that asks the node to start under the window's name and
    /// role; the window hands it to the node's command channel.
    pub fn start_server(&self) -> (c: AppCommand)
        ensures
            is_start_for(c, self.name(), self.primary()),
    {
        AppCommand::Start { name: self.device_name.clone(), is_primary: self.is_primary }
    }

    /// The command that asks the node to stop; the window hands it to the
    /// node's command channel.
    pub fn stop_server(&self) -> (c: AppCommand)
        ensures
            c is Stop,
    {
        AppCommand::Stop
    }

    /// The next report of the node, if one is waiting.
    pub fn next_event(&self) -> (r: Option<AppEvent>)
        ensures
            !self.listening() ==> r is None,
    {
        match &self.event_rx {
            Some(rx) => try_next_event(rx),
            None => None,
        }
    }

    /// Takes in a report of the node: a status replaces the shown status;
    /// a found device is listed unless one with its address already is.
    pub fn apply_event(&mut self, event: AppEvent)
        ensures
            final(self).name() == old(self).name(),
            final(self).primary() == old(self).primary(),
            final(self).listening() == old(self).listening(),
            (final(self).current_status(), final(self).devices()) == after_event(
                (old(self).current_status(), old(self).devices()),
                event,
            ),
            match event {
                AppEvent::Status(s) => final(self).current_status() == s && final(self).devices()
                    == old(self).devices(),
                AppEvent::DeviceFound(d) => final(self).current_status() == old(self).current_status()
                    && final(self).devices() == (if lists_address(old(self).devices(), d.address@) {
                    old(self).devices()
                } else {
                    old(self).devices().push(d)
                }),
            },
    {
        match event {
            AppEvent::Status(status) => {
                self.status = status;
            },
            AppEvent::DeviceFound(device) => {
                if !find_address(&self.remote_devices, &device.address) {
                    self.remote_devices.push(device);
                }
            },
        }
    }

    /// Takes in the node's reports in the order given, as `apply_event`
    /// does one by one.
    pub fn apply_events(&mut self, events: Vec<AppEvent>)
        ensures
            final(self).name() == old(self).name(),
            final(self).primary() == old(self).primary(),
            final(self).listening() == old(self).listening(),
            (final(self).current_status(), final(self).devices()) == after_events(
                (old(self).current_status(), old(self).devices()),
                events@,
            ),
    {
        let ghost all = events@;
        let ghost start = (self.status, self.remote_devices@);
        let mut rest = events;
        assert(rest@.len() == rest.len());
        let mut done: usize = 0;
        while rest.len() > 0
            invariant
                done <= all.len() <= usize::MAX,
                done + rest@.len() == all.len(),
                rest@ == all.skip(done as int),
                self.name() == old(self).name(),
                self.primary() == old(self).primary(),
                self.listening() == old(self).listening(),
                start == (old(self).current_status(), old(self).devices()),
                (self.current_status(), self.devices()) == after_events(
                    start,
                    all.take(done as int),
                ),
            decreases rest.len(),
        {
            let e = rest.remove(0);
            proof {
                assert(all.take(done as int + 1).drop_last() =~= all.take(done as int));
                assert(e == all[done as int]);
            }
            self.apply_event(e);
            done = done + 1;
            proof {
                assert(rest@ =~= all.skip(done as int));
            }
        }
        proof {
            assert(all.take(done as int) =~= all);
        }
    }

    /// Whether the window shows the node as running or starting.
    pub fn is_running(&self) -> (b: bool)
        ensures
            b == is_active(self.current_status()),
    {
        match self.status {
            AppStatus::Running | AppStatus::Starting => true,
            _ => false,
        }
    }

    pub fn device_name(&self) -> (n: &String)
        ensures
            n@ == self.name(),
    {
        &self.device_name
    }

    pub fn set_device_name(&mut self, name: String)
        ensures
            final(self).name() == name@,
            final(self).primary() == old(self).primary(),
            final(self).current_status() == old(self).current_status(),
            final(self).devices() == old(self).devices(),
    {
        self.device_name = name;
    }

    pub fn is_primary(&self) -> (b: bool)
        ensures
            b == self.primary(),
    {
        self.is_primary
    }

    pub fn set_primary(&mut self, primary: bool)
        ensures
            final(self).primary() == primary,
            final(self).name() == old(self).name(),
            final(self).current_status() == old(self).current_status(),
            final(self).devices() == old(self).devices(),
    {
        self.is_primary = primary;
    }

    pub fn status(&self) -> (s: &AppStatus)
        ensures
            *s == self.current_status(),
    {
        &self.status
    }

    pub fn remote_devices(&self) -> (d: &Vec<RemoteDevice>)
        ensures
            d@ == self.devices(),
    {
        &self.remote_devices
    }

    /// Marks the `i`-th listed device as connected or not.
    pub fn set_connected(&mut self, i: usize, connected: bool)
        requires
            i < old(self).devices().len(),
        ensures
            final(self).devices() == old(self).devices().update(
                i as int,
                RemoteDevice { connected, ..old(self).devices()[i as int] },
            ),
            final(self).name() == old(self).name(),
            final(self).primary() == old(self).primary(),
            final(self).current_status() == old(self).current_status(),
    {
        let mut d = self.remote_devices[i].clone();
        d.connected = connected;
        self.remote_devices.set(i, d);
    }
}

/// Finding the same address twice lists the device once.
pub proof fn lemma_device_listed_once(devices: Seq<RemoteDevice>, d: RemoteDevice)
    ensures
        lists_address(devices.push(d), d.address@),
{
    assert(devices.push(d)[devices.len() as int] == d);
}

/// Taking in a run of reports shows the status of the last status report
/// among them, or the status shown before when there is none.
pub proof fn lemma_events_show_last_status(shown: (AppStatus, Seq<RemoteDevice>), events: Seq<AppEvent>)
    ensures
        after_events(shown, events).0 == last_status(shown.0, events),
    decreases events.len(),
{
    if events.len() > 0 {
        lemma_events_show_last_status(shown, events.drop_last());
    }
}

/// Taking in reports never lists two devices with the same address, when
/// none were listed before.
pub proof fn lemma_events_keep_addresses_distinct(
    shown: (AppStatus, Seq<RemoteDevice>),
    events: Seq<AppEvent>,
)
    requires
        addresses_distinct(shown.1),
    ensures
        addresses_distinct(after_events(shown, events).1),
    decreases events.len(),
{
    if events.len() > 0 {
        lemma_events_keep_addresses_distinct(shown, events.drop_last());
        let before = after_events(shown, events.drop_last()).1;
        match events.last() {
            AppEvent::Status(_) => {},
            AppEvent::DeviceFound(d) => {
                if !lists_address(before, d.address@) {
                    let after = before.push(d);
                    assert forall|i: int, j: int| 0 <= i < j < after.len() implies (
                    #[trigger] after[i]).address@ != (#[trigger] after[j]).address@ by {
                        if j == before.len() {
                            assert(before[i] == after[i]);
                        } else {
                            assert(before[i] == after[i] && before[j] == after[j]);
                        }
                    }
                }
            },
        }
    }
}

/// Taking in reports only appends to the list: the devices listed before
/// stay listed, in their places.
pub proof fn lemma_events_only_append(shown: (AppStatus, Seq<RemoteDevice>), events: Seq<AppEvent>)
    ensures
        shown.1.len() <= after_events(shown, events).1.len(),
        after_events(shown, events).1.subrange(0, shown.1.len() as int) == shown.1,
    decreases events.len(),
{
    if events.len() > 0 {
        lemma_events_only_append(shown, events.drop_last());
        let before = after_events(shown, events.drop_last()).1;
        assert(before.subrange(0, shown.1.len() as int) == shown.1);
        match events.last() {
            AppEvent::Status(_) => {},
            AppEvent::DeviceFound(d) => {
                if !lists_address(before, d.address@) {
                    assert(before.push(d).subrange(0, shown.1.len() as int) =~= before.subrange(
                        0,
                        shown.1.len() as int,
                    ));
                }
            },
        }
    }
}

/// Every device that the reports announce ends up listed under its
/// address, by itself or by a device found earlier at that address.
pub proof fn lemma_events_list_found_devices(
    shown: (AppStatus, Seq<RemoteDevice>),
    events: Seq<AppEvent>,
    k: int,
)
    requires
        0 <= k < events.len(),
        events[k] is DeviceFound,
    ensures
        lists_address(after_events(shown, events).1, events[k]->DeviceFound_0.address@),
    decreases events.len(),
{
    let before = after_events(shown, events.drop_last()).1;
    let after = after_events(shown, events).1;
    if k < events.len() - 1 {
        lemma_events_list_found_devices(shown, events.drop_last(), k);
        assert(events.drop_last()[k] == events[k]);
        let addr = events[k]->DeviceFound_0.address@;
        let i = choose|i: int| 0 <= i < before.len() && (#[trigger] before[i]).address@ == addr;
        match events.last() {
            AppEvent::Status(_) => {},
            AppEvent::DeviceFound(d) => {
                if !lists_address(before, d.address@) {
                    assert(after[i] == before[i]);
                }
            },
        }
        assert(after[i].address@ == addr);
    } else {
        match events.last() {
            AppEvent::Status(_) => {},
            AppEvent::DeviceFound(d) => {
                if !lists_address(before, d.address@) {
                    assert(after[before.len() as int] == d);
                }
            },
        }
    }
}

pub enum SettingsEvent {
    Close,
}

pub enum TrayCommand {
    ShowWindow,
    Quit,
}

/// The settings window's state.
pub struct SettingsApp {
    device_name: String,
    is_primary: bool,
    status_text: String,
    connected_devices: Vec<String>,
    _close_tx: Option<Sender<SettingsEvent>>,
}

impl SettingsApp {
    pub closed spec fn name(&self) -> Seq<char> {
        self.device_name@
    }

    pub closed spec fn primary(&self) -> bool {
        self.is_primary
    }

    pub closed spec fn status_line(&self) -> Seq<char> {
        self.status_text@
    }

    pub closed spec fn devices(&self) -> Seq<String> {
        self.connected_devices@
    }

    /// A secondary device named `My Device`, disconnected, with no
    /// connected device listed.
    pub fn new(close_tx: Sender<SettingsEvent>) -> (s: SettingsApp)
        ensures
            s.name() == "My Device"@,
            !s.primary(),
            s.status_line() == "Disconnected"@,
            s.devices() == Seq::<String>::empty(),
    {
        SettingsApp {
            device_name: "My Device".to_owned(),
            is_primary: false,
            status_text: "Disconnected".to_owned(),
            connected_devices: Vec::new(),
            _close_tx: Some(close_tx),
        }
    }

    pub fn set_status(&mut self, status: &str)
        ensures
            final(self).status_line() == status@,
            final(self).name() == old(self).name(),
            final(self).primary() == old(self).primary(),
            final(self).devices() == old(self).devices(),
    {
        self.status_text = status.to_owned();
    }

    pub fn set_devices(&mut self, devices: Vec<String>)
        ensures
            final(self).devices() == devices@,
            final(self).name() == old(self).name(),
            final(self).primary() == old(self).primary(),
            final(self).status_line() == old(self).status_line(),
    {
        self.connected_devices = devices;
    }

    pub fn device_name(&self) -> (n: &String)
        ensures
            n@ == self.name(),
    {
        &self.device_name
    }

    pub fn set_device_name(&mut self, name: String)
        ensures
            final(self).name() == name@,
            final(self).primary() == old(self).primary(),
            final(self).status_line() == old(self).status_line(),
            final(self).devices() == old(self).devices(),
    {
        self.device_name = name;
    }

    pub fn is_primary(&self) -> (b: bool)
        ensures
            b == self.primary(),
    {
        self.is_primary
    }

    pub fn set_primary(&mut self, primary: bool)
        ensures
            final(self).primary() == primary,
            final(self).name() == old(self).name(),
            final(self).status_line() == old(self).status_line(),
            final(self).devices() == old(self).devices(),
    {
        self.is_primary = primary;
    }

    pub fn status_text(&self) -> (t: &String)
        ensures
            t@ == self.status_line(),
    {
        &self.status_text
    }

    pub fn connected_devices(&self) -> (d: &Vec<String>)
        ensures
            d@ == self.devices(),
    {
        &self.connected_devices
    }
}

} // verus!
