use resonance_gui::devices::{Device, SerialDevices, DEFAULT_BAUD_RATE};
use resonance_gui::selection::{
    warning_window_feedback, DeviceChange, DeviceRequest, DeviceSelection, LabelEditorPlan,
    WindowFeedback,
};

fn archive(names: &[&str]) -> SerialDevices {
    SerialDevices {
        devices: names.iter().map(|n| Device { name: n.to_string(), baud_rate: 57600 }).collect(),
        labels: names.iter().map(|_| vec!["t".to_string(), "v".to_string()]).collect(),
        number_of_plots: names.iter().map(|_| 2).collect(),
    }
}

fn selection(names: &[&str], device: &str, idx: usize) -> DeviceSelection {
    let mut s = DeviceSelection::new(archive(names));
    s.device = device.to_string();
    s.device_idx = idx;
    s
}

#[test]
fn new_selection_is_empty() {
    let s = DeviceSelection::new(archive(&["COM1"]));
    assert_eq!(s.device, "");
    assert_eq!(s.old_device, "");
    assert_eq!(s.device_idx, 0);
    assert_eq!(s.show_warning_window, WindowFeedback::Hidden);
    assert_eq!(s.serial_devices, archive(&["COM1"]));
}

#[test]
fn picking_while_data_exists_asks_first() {
    let mut s = selection(&["COM1"], "COM2", 0);
    s.note_pick("COM1".to_string(), false);
    assert_eq!(s.show_warning_window, WindowFeedback::Waiting);
    assert_eq!(s.old_device, "COM1");
    assert_eq!(s.device, "COM2");
}

#[test]
fn picking_without_data_changes_at_once() {
    let mut s = selection(&["COM1"], "COM2", 0);
    s.note_pick("COM1".to_string(), true);
    assert_eq!(s.show_warning_window, WindowFeedback::Clear);
    assert_eq!(s.old_device, "");
}

#[test]
fn picking_the_same_port_changes_nothing() {
    let mut s = selection(&["COM1"], "COM1", 0);
    let before = s.clone();
    s.note_pick("COM1".to_string(), false);
    assert_eq!(s, before);
}

#[test]
fn cancel_restores_previous_device() {
    let mut s = selection(&["COM1", "COM2"], "COM2", 0);
    s.note_pick("COM1".to_string(), false);
    s.answer(WindowFeedback::Cancel);
    assert_eq!(s.resolve_change(), DeviceChange::Cancelled);
    assert_eq!(s.device, "COM1");
    assert_eq!(s.device_idx, 0);
    assert_eq!(s.show_warning_window, WindowFeedback::Hidden);
    assert_eq!(s.serial_devices, archive(&["COM1", "COM2"]));
}

#[test]
fn waiting_and_hidden_leave_everything() {
    let mut s = selection(&["COM1"], "COM1", 0);
    assert_eq!(s.resolve_change(), DeviceChange::Idle);
    s.answer(WindowFeedback::Waiting);
    let before = s.clone();
    assert_eq!(s.resolve_change(), DeviceChange::AwaitingAnswer);
    assert_eq!(s, before);
}

#[test]
fn confirm_selects_the_last_archived_entry() {
    let mut s = selection(&["COM1", "COM2", "COM1"], "COM1", 1);
    s.answer(WindowFeedback::Clear);
    assert_eq!(s.resolve_change(), DeviceChange::Cleared { known: true });
    assert_eq!(s.device_idx, 2);
    assert_eq!(s.serial_devices, archive(&["COM1", "COM2", "COM1"]));
    assert_eq!(s.show_warning_window, WindowFeedback::Hidden);
}

#[test]
fn confirm_archives_an_unknown_device() {
    let mut s = selection(&["COM1"], "COM5", 0);
    s.answer(WindowFeedback::Clear);
    assert_eq!(s.resolve_change(), DeviceChange::Cleared { known: false });
    assert_eq!(s.device_idx, 1);
    assert_eq!(s.serial_devices.devices[1], Device { name: "COM5".to_string(), baud_rate: DEFAULT_BAUD_RATE });
    assert_eq!(s.serial_devices.labels[1], vec!["Column 0".to_string()]);
    assert_eq!(s.serial_devices.number_of_plots[1], 1);
}

#[test]
fn device_is_archived_once() {
    let mut s = selection(&["COM1"], "COM5", 0);
    s.answer(WindowFeedback::Clear);
    s.resolve_change();
    let after_first = s.clone();
    s.answer(WindowFeedback::Clear);
    assert_eq!(s.resolve_change(), DeviceChange::Cleared { known: true });
    assert_eq!(s, after_first);
}

#[test]
fn connect_uses_the_selected_entry() {
    let mut s = selection(&["COM1", "COM5"], "COM5", 0);
    s.answer(WindowFeedback::Clear);
    s.resolve_change();
    assert_eq!(
        s.connect_request(false),
        DeviceRequest::Connect { name: "COM5".to_string(), baud_rate: 57600 }
    );
    assert_eq!(s.connect_request(true), DeviceRequest::Disconnect);
}

#[test]
fn clearing_history_starts_over() {
    let mut s = selection(&["COM1", "COM2"], "COM2", 1);
    s.clear_history();
    assert_eq!(s.device, "");
    assert_eq!(s.device_idx, 0);
    assert_eq!(s.serial_devices, SerialDevices::default());
}

#[test]
fn reset_labels_replaces_the_selected_labels() {
    let mut s = selection(&["COM1", "COM2"], "COM2", 1);
    s.reset_labels(&vec!["x".to_string(), "y".to_string(), "z".to_string()]);
    assert_eq!(s.serial_devices.labels[1], vec!["x".to_string(), "y".to_string(), "z".to_string()]);
    assert_eq!(s.serial_devices.labels[0], vec!["t".to_string(), "v".to_string()]);
}

#[test]
fn unavailable_port_is_forgotten() {
    let mut s = selection(&["COM1"], "COM2", 0);
    s.forget_unavailable(&vec!["COM2".to_string()]);
    assert_eq!(s.device, "COM2");
    s.forget_unavailable(&vec!["COM1".to_string()]);
    assert_eq!(s.device, "");
}

#[test]
fn label_editors() {
    let s = selection(&["COM1"], "COM1", 0);
    assert_eq!(
        s.label_editor_plan(true, 5),
        LabelEditorPlan { send_stored_labels: true, editable: 2, too_many: false }
    );
    assert_eq!(
        s.label_editor_plan(true, 0),
        LabelEditorPlan { send_stored_labels: false, editable: 0, too_many: false }
    );
    assert_eq!(
        s.label_editor_plan(false, 1),
        LabelEditorPlan { send_stored_labels: false, editable: 1, too_many: false }
    );
    let mut many = selection(&["COM1"], "COM1", 0);
    many.reset_labels(&(0..12).map(|i| format!("c{i}")).collect());
    assert_eq!(
        many.label_editor_plan(false, 12),
        LabelEditorPlan { send_stored_labels: false, editable: 10, too_many: true }
    );
}

#[test]
fn warning_answers() {
    assert_eq!(warning_window_feedback(false, false), WindowFeedback::Waiting);
    assert_eq!(warning_window_feedback(true, false), WindowFeedback::Clear);
    assert_eq!(warning_window_feedback(false, true), WindowFeedback::Cancel);
    assert_eq!(warning_window_feedback(true, true), WindowFeedback::Cancel);
}
