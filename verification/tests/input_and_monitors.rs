use seraph::windows::monitor::{
    is_desktop_adapter, is_listed_monitor, is_primary_adapter, monitor_name_from_device_id,
    monitor_size_from_edid, monitor_size_from_registry_values, trim_trailing_nuls,
    virtual_display_rect, RegistryValue,
};
use seraph::windows::raw_input::{
    count_connected_mice, high_precision_mouse_registration, is_remote_desktop_mouse,
    raw_mouse_deferral, DeferredMouseInput, RawInputDeviceInfo,
};
use seraph::windows::win32;

fn edid(w: u32, h: u32) -> Vec<u8> {
    let mut v = vec![0u8; 128];
    v[56] = (w & 0xff) as u8;
    v[58] = ((w >> 8) << 4) as u8 | 0x0a;
    v[59] = (h & 0xff) as u8;
    v[61] = ((h >> 8) << 4) as u8 | 0x05;
    v
}

#[test]
fn raw_mouse_input() {
    assert_eq!(
        raw_mouse_deferral(win32::RIM_TYPEMOUSE, 0, 5, -3),
        Some(DeferredMouseInput { x: 5, y: -3, flags: win32::MOUSE_MOVE_RELATIVE })
    );
    assert_eq!(
        raw_mouse_deferral(win32::RIM_TYPEMOUSE, 0x0101, 5, -3),
        Some(DeferredMouseInput { x: 0, y: 0, flags: win32::MOUSE_MOVE_ABSOLUTE })
    );
    assert_eq!(raw_mouse_deferral(1, 0, 5, -3), None);
}

#[test]
fn high_precision_mouse() {
    let on = high_precision_mouse_registration(true, 1234);
    assert_eq!((on.usage_page, on.usage, on.flags, on.target), (1, 2, 0, 1234));
    let off = high_precision_mouse_registration(false, 1234);
    assert_eq!((off.usage_page, off.usage, off.flags, off.target), (1, 2, win32::RIDEV_REMOVE, 0));
}

#[test]
fn remote_desktop_mouse_names() {
    assert!(is_remote_desktop_mouse(b"\\??\\ROOT#RDP_MOU#0000#{378de44c}\0"));
    assert!(is_remote_desktop_mouse(b"\\\\?\\ROOT#RDP_MOU#0000#{378de44c}\0"));
    assert!(!is_remote_desktop_mouse(b"\\\\?\\HID#VID_046D&PID_C52B#{378de44c}\0"));
    assert!(!is_remote_desktop_mouse(b"\\\\?\\ROOT"));
    assert!(!is_remote_desktop_mouse(b""));
}

#[test]
fn counting_mice() {
    assert_eq!(count_connected_mice(&vec![]), 0);
    let devices = vec![
        RawInputDeviceInfo { is_mouse: true, name: Some(b"\\\\?\\HID#VID_1#1\0".to_vec()) },
        RawInputDeviceInfo { is_mouse: false, name: None },
        RawInputDeviceInfo { is_mouse: true, name: None },
        RawInputDeviceInfo { is_mouse: true, name: Some(b"\\\\?\\ROOT#RDP_MOU#0000\0".to_vec()) },
        RawInputDeviceInfo { is_mouse: true, name: Some(b"\\\\?\\HID#VID_2#1\0".to_vec()) },
    ];
    assert_eq!(count_connected_mice(&devices), 2);
}

#[test]
fn edid_sizes() {
    assert_eq!(monitor_size_from_edid(&edid(1920, 1080)), (1920, 1080));
    assert_eq!(monitor_size_from_edid(&edid(4095, 2160)), (4095, 2160));
    assert_eq!(monitor_size_from_edid(&vec![0u8; 62]), (0, 0));
}

#[test]
fn edid_from_registry_values() {
    let values = vec![
        RegistryValue { name: b"BAD_EDID".to_vec(), bytes: vec![1, 2] },
        RegistryValue { name: b"EDID".to_vec(), bytes: edid(2560, 1440) },
        RegistryValue { name: b"EDID".to_vec(), bytes: edid(800, 600) },
    ];
    assert_eq!(monitor_size_from_registry_values(&values), Some((2560, 1440)));
    assert_eq!(monitor_size_from_registry_values(&values[..1].to_vec()), None);
    assert_eq!(monitor_size_from_registry_values(&vec![]), None);
}

#[test]
fn monitor_names_from_device_ids() {
    assert_eq!(
        monitor_name_from_device_id(b"MONITOR\\GSM5B09\\{4d36e96e-e325}\\0001"),
        Some(b"GSM5B09".to_vec())
    );
    assert_eq!(monitor_name_from_device_id(b"MONITOR\\DEL"), None);
    assert_eq!(monitor_name_from_device_id(b"MONITOR"), None);
    assert_eq!(monitor_name_from_device_id(b"DISPLAY\\\\\\"), Some(b"\\".to_vec()));
}

#[test]
fn trimming_nuls() {
    assert_eq!(trim_trailing_nuls(b"ABC\0\0\0"), b"ABC".to_vec());
    assert_eq!(trim_trailing_nuls(b"A\0B"), b"A\0B".to_vec());
    assert_eq!(trim_trailing_nuls(b"\0\0"), Vec::<u8>::new());
    assert_eq!(trim_trailing_nuls(b""), Vec::<u8>::new());
}

#[test]
fn display_flags() {
    assert!(is_desktop_adapter(win32::DISPLAY_DEVICE_ATTACHED_TO_DESKTOP | 4));
    assert!(!is_desktop_adapter(4));
    assert!(is_listed_monitor(win32::DISPLAY_DEVICE_ACTIVE));
    assert!(!is_listed_monitor(win32::DISPLAY_DEVICE_ACTIVE | win32::DISPLAY_DEVICE_MIRRORING_DRIVER));
    assert!(!is_listed_monitor(0));
    assert!(is_primary_adapter(win32::DISPLAY_DEVICE_PRIMARY_DEVICE | 1));
    assert!(!is_primary_adapter(1));
}

#[test]
fn virtual_desktop_rectangle() {
    let r = virtual_display_rect(-1920, 0, 3840, 1080);
    assert_eq!((r.left, r.top, r.right, r.bottom), (-1920, 0, 1920, 1080));
}
