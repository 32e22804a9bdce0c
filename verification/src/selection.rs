//! Choosing the serial device: what happens when the user picks another port,
//! answers the warning that the recorded data will be cleared, connects,
//! clears the device history or resets the dataset labels.
use vstd::prelude::*;

use crate::devices::{
    last_named, lemma_last_named, port_listed, texts, Device, RegistryView, SerialDevices,
};

verus! {

/// The state of the warning window that is shown before a device change
/// clears the recorded data.
#[derive(Clone, Copy, Debug, PartialEq, Eq, Structural)]
pub enum WindowFeedback {
    /// No window is shown and no change is pending.
    Hidden,
    /// The window is shown and waits for an answer.
    Waiting,
    /// The change is to be carried out.
    Clear,
    /// The change is to be undone.
    Cancel,
}

/// The chosen device and the archive of devices.
#[derive(Clone, Debug, PartialEq)]
pub struct DeviceSelection {
    /// The port picked in the device list (empty for none).
    pub device: String,
    /// The port that was picked before a change that waits for an answer.
    pub old_device: String,
    /// The archive entry that belongs to the picked port.
    pub device_idx: usize,
    pub show_warning_window: WindowFeedback,
    pub serial_devices: SerialDevices,
}

/// The selection as a value.
pub struct SelectionView {
    pub device: Seq<char>,
    pub old_device: Seq<char>,
    pub device_idx: int,
    pub window: WindowFeedback,
    pub registry: RegistryView,
}

impl View for DeviceSelection {
    type V = SelectionView;

    open spec fn view(&self) -> SelectionView {
        SelectionView {
            device: self.device@,
            old_device: self.old_device@,
            device_idx: self.device_idx as int,
            window: self.show_warning_window,
            registry: self.serial_devices@,
        }
    }
}

/// What the panel has to do after a pending device change was looked at.
#[derive(Clone, Copy, Debug, PartialEq, Eq, Structural)]
pub enum DeviceChange {
    /// Nothing is pending.
    Idle,
    /// The warning window is to be shown and its answer stored.
    AwaitingAnswer,
    /// The change was carried out: the recorded data is to be cleared.  Where
    /// the device was `known`, its stored labels are to be sent to the reader;
    /// otherwise the grown archive is to be stored.
    Cleared { known: bool },
    /// The change was undone.
    Cancelled,
}

/// What the serial reader is asked to do when the connect button is pressed.
#[derive(Clone, Debug, PartialEq)]
pub enum DeviceRequest {
    Disconnect,
    Connect { name: String, baud_rate: u32 },
}

/// Which of the dataset labels the side panel offers for editing.
#[derive(Clone, Copy, Debug, PartialEq, Eq, Structural)]
pub struct LabelEditorPlan {
    /// The stored labels of the device are to be sent to the reader first.
    pub send_stored_labels: bool,
    /// How many labels get an editor.
    pub editable: usize,
    /// There are more datasets than labels that can be renamed.
    pub too_many: bool,
}

/// At most this many dataset labels can be renamed.
pub const MAX_EDITABLE_LABELS: usize = 10;

/// The selection after the user picked `v.device` in the list while `previous`
/// was picked: a change asks first where data was recorded, and is carried out
/// at once where none was.
pub open spec fn after_pick(v: SelectionView, previous: Seq<char>, data_is_empty: bool) -> SelectionView {
    if previous == v.device {
        v
    } else if !data_is_empty {
        SelectionView {
            device: v.device,
            old_device: previous,
            device_idx: v.device_idx,
            window: WindowFeedback::Waiting,
            registry: v.registry,
        }
    } else {
        SelectionView {
            device: v.device,
            old_device: v.old_device,
            device_idx: v.device_idx,
            window: WindowFeedback::Clear,
            registry: v.registry,
        }
    }
}

/// The selection once the warning window answered `answer`.
pub open spec fn answered(v: SelectionView, answer: WindowFeedback) -> SelectionView {
    SelectionView {
        device: v.device,
        old_device: v.old_device,
        device_idx: v.device_idx,
        window: answer,
        registry: v.registry,
    }
}

/// Carries out what is pending: a confirmed change selects the last archived
/// device of that name, or archives the device at the end; a cancelled change
/// picks the previous port again.
pub open spec fn resolved(v: SelectionView) -> (SelectionView, DeviceChange) {
    match v.window {
        WindowFeedback::Hidden => (v, DeviceChange::Idle),
        WindowFeedback::Waiting => (v, DeviceChange::AwaitingAnswer),
        WindowFeedback::Clear => match last_named(v.registry.devices, v.device) {
            Some(i) => (
                SelectionView {
                    device: v.device,
                    old_device: v.old_device,
                    device_idx: i,
                    window: WindowFeedback::Hidden,
                    registry: v.registry,
                },
                DeviceChange::Cleared { known: true },
            ),
            None => (
                SelectionView {
                    device: v.device,
                    old_device: v.old_device,
                    device_idx: v.registry.devices.len() as int,
                    window: WindowFeedback::Hidden,
                    registry: v.registry.with_device(v.device),
                },
                DeviceChange::Cleared { known: false },
            ),
        },
        WindowFeedback::Cancel => (
            SelectionView {
                device: v.old_device,
                old_device: v.old_device,
                device_idx: v.device_idx,
                window: WindowFeedback::Hidden,
                registry: v.registry,
            },
            DeviceChange::Cancelled,
        ),
    }
}

/// The answer of the warning window: `Cancel` where "Cancel" was pressed,
/// else `Clear` where "Continue & Clear" was pressed, else still `Waiting`.
pub fn warning_window_feedback(clear_clicked: bool, cancel_clicked: bool) -> (r: WindowFeedback)
    ensures
        r == (if cancel_clicked {
            WindowFeedback::Cancel
        } else if clear_clicked {
            WindowFeedback::Clear
        } else {
            WindowFeedback::Waiting
        }),
{
    let mut window_feedback = WindowFeedback::Waiting;
    if clear_clicked {
        window_feedback = WindowFeedback::Clear;
    }
    if cancel_clicked {
        window_feedback = WindowFeedback::Cancel;
    }
    window_feedback
}

/// A copy of a list of strings.
fn copy_texts(v: &Vec<String>) -> (r: Vec<String>)
    ensures
        texts(r@) == texts(v@),
{
    let mut r: Vec<String> = Vec::new();
    let mut i: usize = 0;
    while i < v.len()
        invariant
            i <= v@.len(),
            r@.len() == i,
            forall|k: int| 0 <= k < i ==> r@[k]@ == v@[k]@,
        decreases v.len() - i,
    {
        r.push(v[i].clone());
        i = i + 1;
    }
    assert(texts(r@) =~= texts(v@));
    r
}

impl DeviceSelection {
    /// A selection of no port, at the first archive entry.
    pub fn new(serial_devices: SerialDevices) -> (s: Self)
        ensures
            s@ == (SelectionView {
                device: Seq::empty(),
                old_device: Seq::empty(),
                device_idx: 0,
                window: WindowFeedback::Hidden,
                registry: serial_devices@,
            }),
    {
        DeviceSelection {
            device: String::new(),
            old_device: String::new(),
            device_idx: 0,
            show_warning_window: WindowFeedback::Hidden,
            serial_devices,
        }
    }

    /// Forgets the picked port where it is no longer among the available `ports`.
    pub fn forget_unavailable(&mut self, ports: &Vec<String>)
        ensures
            final(self)@ == (if texts(ports@).contains(old(self)@.device) {
                old(self)@
            } else {
                SelectionView {
                    device: Seq::empty(),
                    old_device: old(self)@.old_device,
                    device_idx: old(self)@.device_idx,
                    window: old(self)@.window,
                    registry: old(self)@.registry,
                }
            }),
    {
        if !port_listed(ports, &self.device) {
            self.device = String::new();
        }
    }

    /// Notes that the user picked `self.device` in the list while `previous`
    /// was picked (see `after_pick`).
    pub fn note_pick(&mut self, previous: String, data_is_empty: bool)
        ensures
            final(self)@ == after_pick(old(self)@, previous@, data_is_empty),
    {
        if previous != self.device {
            if !data_is_empty {
                self.show_warning_window = WindowFeedback::Waiting;
                self.old_device = previous;
            } else {
                self.show_warning_window = WindowFeedback::Clear;
            }
        }
    }

    /// Stores the answer of the warning window.
    pub fn answer(&mut self, answer: WindowFeedback)
        ensures
            final(self)@ == answered(old(self)@, answer),
    {
        self.show_warning_window = answer;
    }

    /// Carries out what is pending (see `resolved`) and says what is left to do.
    pub fn resolve_change(&mut self) -> (r: DeviceChange)
        requires
            old(self)@.registry.wf(),
        ensures
            (final(self)@, r) == resolved(old(self)@),
            final(self)@.registry.wf(),
            old(self)@.window == WindowFeedback::Hidden ==> final(self)@ == old(self)@ && r
                == DeviceChange::Idle,
            old(self)@.window == WindowFeedback::Waiting ==> final(self)@ == old(self)@ && r
                == DeviceChange::AwaitingAnswer,
    {
        match self.show_warning_window {
            WindowFeedback::Hidden => DeviceChange::Idle,
            WindowFeedback::Waiting => DeviceChange::AwaitingAnswer,
            WindowFeedback::Clear => {
                let known = match self.serial_devices.find(&self.device) {
                    Some(idx) => {
                        self.device_idx = idx;
                        true
                    },
                    None => {
                        let idx = self.serial_devices.register(self.device.clone());
                        self.device_idx = idx;
                        false
                    },
                };
                self.show_warning_window = WindowFeedback::Hidden;
                DeviceChange::Cleared { known }
            },
            WindowFeedback::Cancel => {
                self.device = self.old_device.clone();
                self.show_warning_window = WindowFeedback::Hidden;
                DeviceChange::Cancelled
            },
        }
    }

    /// What the connect button asks of the serial reader: to let go of the
    /// device while connected, else to open the selected archive entry.
    pub fn connect_request(&self, connected: bool) -> (r: DeviceRequest)
        requires
            connected || self.device_idx < self.serial_devices.devices.len(),
        ensures
            connected ==> r == DeviceRequest::Disconnect,
            !connected ==> (r matches DeviceRequest::Connect { name, baud_rate } && name@
                == self@.registry.devices[self.device_idx as int].name && baud_rate
                == self@.registry.devices[self.device_idx as int].baud_rate),
    {
        if connected {
            DeviceRequest::Disconnect
        } else {
            let d: &Device = &self.serial_devices.devices[self.device_idx];
            DeviceRequest::Connect { name: d.name.clone(), baud_rate: d.baud_rate }
        }
    }

    /// Forgets every archived device and the picked port.
    pub fn clear_history(&mut self)
        ensures
            final(self)@ == (SelectionView {
                device: Seq::empty(),
                old_device: old(self)@.old_device,
                device_idx: 0,
                window: old(self)@.window,
                registry: RegistryView::initial(),
            }),
            final(self)@.registry.wf(),
    {
        self.serial_devices = SerialDevices::default();
        self.device = String::new();
        self.device_idx = 0;
    }

    /// Gives the selected device the dataset labels `names`.
    pub fn reset_labels(&mut self, names: &Vec<String>)
        requires
            old(self).device_idx < old(self).serial_devices.labels.len(),
        ensures
            final(self)@ == (SelectionView {
                device: old(self)@.device,
                old_device: old(self)@.old_device,
                device_idx: old(self)@.device_idx,
                window: old(self)@.window,
                registry: RegistryView {
                    devices: old(self)@.registry.devices,
                    labels: old(self)@.registry.labels.update(
                        old(self)@.device_idx,
                        texts(names@),
                    ),
                    number_of_plots: old(self)@.registry.number_of_plots,
                },
            }),
            old(self)@.registry.wf() ==> final(self)@.registry.wf(),
    {
        let ghost before = self@;
        let copy = copy_texts(names);
        self.serial_devices.labels.set(self.device_idx, copy);
        assert(self@.registry.labels =~= before.registry.labels.update(
            before.device_idx,
            texts(names@),
        ));
    }

    /// Which labels of the selected device get an editor when `names_len`
    /// datasets were detected: as many as there are datasets, labels, and at
    /// most `MAX_EDITABLE_LABELS`; the stored labels are sent first where the
    /// device was just selected (`init`) and there is a dataset.
    pub fn label_editor_plan(&self, init: bool, names_len: usize) -> (p: LabelEditorPlan)
        requires
            self.device_idx < self.serial_devices.labels.len(),
        ensures
            p.send_stored_labels == (init && names_len > 0),
            p.editable == vstd::math::min(
                vstd::math::min(names_len as int, MAX_EDITABLE_LABELS as int),
                self@.registry.labels[self.device_idx as int].len() as int,
            ),
            p.too_many == (names_len > MAX_EDITABLE_LABELS),
    {
        let shown = if names_len < MAX_EDITABLE_LABELS {
            names_len
        } else {
            MAX_EDITABLE_LABELS
        };
        let stored = self.serial_devices.labels[self.device_idx].len();
        let editable = if stored < shown {
            stored
        } else {
            shown
        };
        LabelEditorPlan {
            send_stored_labels: init && shown > 0,
            editable,
            too_many: names_len > MAX_EDITABLE_LABELS,
        }
    }
}

/// Picking another port and cancelling the warning picks the previous port
/// again and leaves the archive and its position as they were.
pub proof fn lemma_cancel_restores_device(v: SelectionView, previous: Seq<char>)
    requires
        v.device != previous,
    ensures
        ({
            let r = resolved(answered(after_pick(v, previous, false), WindowFeedback::Cancel));
            &&& r.0.device == previous
            &&& r.0.window == WindowFeedback::Hidden
            &&& r.0.registry == v.registry
            &&& r.0.device_idx == v.device_idx
            &&& r.1 == DeviceChange::Cancelled
        }),
{
}

/// A confirmed change selects an archive entry of the picked port: the one
/// that was archived last under that name, or a new one at the end; the
/// archive stays parallel and only grows by that entry.
pub proof fn lemma_confirm_selects_device(v: SelectionView)
    requires
        v.window == WindowFeedback::Clear,
        v.registry.wf(),
    ensures
        ({
            let (w, c) = resolved(v);
            &&& w.registry.wf()
            &&& 0 <= w.device_idx < w.registry.devices.len()
            &&& w.registry.devices[w.device_idx].name == v.device
            &&& w.device == v.device
            &&& w.window == WindowFeedback::Hidden
            &&& c == DeviceChange::Cleared { known: last_named(v.registry.devices, v.device) is Some }
            &&& if last_named(v.registry.devices, v.device) is Some {
                w.registry == v.registry
            } else {
                w.registry == v.registry.with_device(v.device)
            }
        }),
{
    lemma_last_named(v.registry.devices, v.device);
}

/// A port is archived once: confirming the same port again changes neither the
/// archive nor the selected entry.
pub proof fn lemma_device_archived_once(v: SelectionView)
    requires
        v.window == WindowFeedback::Clear,
        v.registry.wf(),
    ensures
        ({
            let w = resolved(v).0;
            let again = resolved(answered(w, WindowFeedback::Clear));
            &&& again.0 == w
            &&& again.1 == DeviceChange::Cleared { known: true }
        }),
{
    lemma_last_named(v.registry.devices, v.device);
    let w = resolved(v).0;
    if last_named(v.registry.devices, v.device) is None {
        let grown = w.registry.devices;
        assert(grown.drop_last() =~= v.registry.devices);
        assert(grown.last().name == v.device);
        assert(last_named(grown, v.device) == Some(v.registry.devices.len() as int));
    }
}

/// While no change is pending or the warning still waits for an answer,
/// looking at the selection changes nothing: not the port, not the selected
/// archive entry, not the archive.
pub proof fn lemma_nothing_pending_changes_nothing(v: SelectionView)
    requires
        v.window == WindowFeedback::Hidden || v.window == WindowFeedback::Waiting,
    ensures
        resolved(v).0 == v,
        v.window == WindowFeedback::Hidden ==> resolved(v).1 == DeviceChange::Idle,
        v.window == WindowFeedback::Waiting ==> resolved(v).1 == DeviceChange::AwaitingAnswer,
{
}

/// Picking the port that is already picked changes nothing.
pub proof fn lemma_same_pick_changes_nothing(v: SelectionView, data_is_empty: bool)
    ensures
        after_pick(v, v.device, data_is_empty) == v,
{
}

/// Picking another port while data is recorded asks first and remembers the
/// previous port; with no data recorded the change is confirmed at once and
/// the previous port is not needed.  Neither touches the port, the archive or
/// the selected entry.
pub proof fn lemma_pick_asks_only_with_data(v: SelectionView, previous: Seq<char>)
    requires
        previous != v.device,
    ensures
        after_pick(v, previous, false).window == WindowFeedback::Waiting,
        after_pick(v, previous, false).old_device == previous,
        after_pick(v, previous, true).window == WindowFeedback::Clear,
        after_pick(v, previous, true).old_device == v.old_device,
        after_pick(v, previous, false).device == v.device,
        after_pick(v, previous, true).device == v.device,
        after_pick(v, previous, false).registry == v.registry,
        after_pick(v, previous, true).registry == v.registry,
        after_pick(v, previous, false).device_idx == v.device_idx,
        after_pick(v, previous, true).device_idx == v.device_idx,
{
}

} // verus!
