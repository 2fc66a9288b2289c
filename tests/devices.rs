use bluetooth_timeout::device::{
    connected_count, device_from_object, is_adapter_device_path, BluetoothDevice,
};
use bluetooth_timeout::event::{powered_change_event, BluetoothEvent};

fn dev(path: &str, connected: bool) -> BluetoothDevice {
    BluetoothDevice { object_path: path.to_string(), common_name: None, connected }
}

#[test]
fn counts_only_connected_devices() {
    assert_eq!(connected_count(&vec![]), 0);
    let devices = vec![
        dev("/org/bluez/hci0/dev_A", true),
        dev("/org/bluez/hci0/dev_B", false),
        dev("/org/bluez/hci0/dev_C", true),
    ];
    assert_eq!(connected_count(&devices), 2);
}

#[test]
fn device_paths_lie_under_the_adapter() {
    assert!(is_adapter_device_path("/org/bluez/hci0", "/org/bluez/hci0/dev_00_11_22"));
    assert!(is_adapter_device_path("/org/bluez/hci0", "/org/bluez/hci0/dev_"));
    assert!(!is_adapter_device_path("/org/bluez/hci0", "/org/bluez/hci1/dev_00_11_22"));
    assert!(!is_adapter_device_path("/org/bluez/hci0", "/org/bluez/hci0"));
    assert!(!is_adapter_device_path("/org/bluez/hci0", "/org/bluez/hci0/player0"));
}

#[test]
fn objects_become_devices_of_the_adapter() {
    let d = device_from_object(
        "/org/bluez/hci0",
        "/org/bluez/hci0/dev_AA".to_string(),
        true,
        Some("Headset".to_string()),
        Some(true),
    );
    assert_eq!(
        d,
        Some(BluetoothDevice {
            object_path: "/org/bluez/hci0/dev_AA".to_string(),
            common_name: Some("Headset".to_string()),
            connected: true,
        })
    );
    let d = device_from_object("/org/bluez/hci0", "/org/bluez/hci0/dev_AA".to_string(), true, None, None);
    assert_eq!(d.map(|d| d.connected), Some(false));
    let d = device_from_object("/org/bluez/hci0", "/org/bluez/hci0/dev_AA".to_string(), false, None, Some(true));
    assert_eq!(d, None);
    let d = device_from_object("/org/bluez/hci0", "/org/bluez/hci1/dev_AA".to_string(), true, None, Some(true));
    assert_eq!(d, None);
}

#[test]
fn powered_property_changes_map_to_events() {
    assert_eq!(powered_change_event(Some(true)), Some(BluetoothEvent::AdapterOn));
    assert_eq!(powered_change_event(Some(false)), Some(BluetoothEvent::AdapterOff));
    assert_eq!(powered_change_event(None), None);
}
