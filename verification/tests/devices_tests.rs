use resonance_gui::devices::{
    device_choices, device_label, port_listed, Device, DeviceChoice, SerialDevices, DEFAULT_BAUD_RATE,
};

fn dev(name: &str, baud_rate: u32) -> Device {
    Device { name: name.to_string(), baud_rate }
}

fn archive(names: &[&str]) -> SerialDevices {
    SerialDevices {
        devices: names.iter().map(|n| dev(n, 57600)).collect(),
        labels: names.iter().map(|_| vec!["a".to_string(), "b".to_string()]).collect(),
        number_of_plots: names.iter().map(|_| 2).collect(),
    }
}

#[test]
fn default_archive_holds_one_unnamed_device() {
    let d = SerialDevices::default();
    assert_eq!(d.devices, vec![dev("", DEFAULT_BAUD_RATE)]);
    assert_eq!(d.labels, vec![vec!["Column 0".to_string()]]);
    assert_eq!(d.number_of_plots, vec![1]);
    assert_eq!(Device::default(), dev("", 9600));
}

#[test]
fn find_returns_the_last_match() {
    let d = archive(&["COM1", "COM2", "COM1"]);
    assert_eq!(d.find(&"COM1".to_string()), Some(2));
    assert_eq!(d.find(&"COM2".to_string()), Some(1));
    assert_eq!(d.find(&"COM9".to_string()), None);
    assert_eq!(archive(&[]).find(&"".to_string()), None);
}

#[test]
fn register_appends_a_fresh_device() {
    let mut d = archive(&["COM1"]);
    let idx = d.register("COM7".to_string());
    assert_eq!(idx, 1);
    assert_eq!(d.devices[1], dev("COM7", DEFAULT_BAUD_RATE));
    assert_eq!(d.labels[1], vec!["Column 0".to_string()]);
    assert_eq!(d.number_of_plots[1], 1);
    assert_eq!(d.devices.len(), 2);
    assert_eq!(d.labels.len(), 2);
    assert_eq!(d.number_of_plots.len(), 2);
    assert_eq!(d.devices[0], dev("COM1", 57600));
}

#[test]
fn choices_hide_callout_ports_and_shorten_tty_names() {
    let ports = vec![
        "/dev/tty.usbserial-1".to_string(),
        "/dev/cu.usbserial-1".to_string(),
        "COM3".to_string(),
    ];
    assert_eq!(
        device_choices(&ports),
        vec![
            DeviceChoice { value: "/dev/tty.usbserial-1".to_string(), label: "usbserial-1".to_string() },
            DeviceChoice { value: "COM3".to_string(), label: "COM3".to_string() },
        ]
    );
    assert_eq!(device_choices(&vec![]), vec![]);
}

#[test]
fn labels_of_ports() {
    assert_eq!(device_label("/dev/tty.usbmodem"), "usbmodem");
    assert_eq!(device_label(""), "");
}

#[test]
fn listed_ports() {
    let ports = vec!["COM1".to_string(), "COM2".to_string()];
    assert!(port_listed(&ports, &"COM2".to_string()));
    assert!(!port_listed(&ports, &"COM3".to_string()));
    assert!(!port_listed(&vec![], &"".to_string()));
}
