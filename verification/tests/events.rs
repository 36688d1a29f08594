use fade::brightness::{DdcciBrightnessValues, DisplayBrightness};
use fade::events::{
    brightness_changes, collect_infos, device_changes, same_infos, set_brightness, Command,
    CommandError, BRIGHTNESS_SCAN_SECS, BROADCAST_CAPACITY, TOPOLOGY_SCAN_SECS,
};
use fade::monitors::{
    BackendReply, MonitorDeviceImpl, MonitorInfo, SafeDisplayHandle, SafePhysicalMonitor,
    SliderAction,
};
use fade::overlay::Overlay;

const INTERNAL: i32 = -2147483648;
const HDMI: i32 = 5;

fn monitor(id: &str, device_name: &str, friendly: &str, handle: isize) -> MonitorDeviceImpl {
    MonitorDeviceImpl::new(
        id.to_string(),
        device_name.to_string(),
        friendly.to_string(),
        SafeDisplayHandle::null(),
        SafePhysicalMonitor(handle),
        HDMI,
    )
}

fn panel(id: &str, device_name: &str, friendly: &str, handle: isize) -> MonitorDeviceImpl {
    MonitorDeviceImpl::new(
        id.to_string(),
        device_name.to_string(),
        friendly.to_string(),
        SafeDisplayHandle(handle),
        SafePhysicalMonitor::null(),
        INTERNAL,
    )
}

fn info(device_name: &str, name: &str, brightness: u32) -> MonitorInfo {
    MonitorInfo { device_name: device_name.to_string(), name: name.to_string(), brightness }
}

#[test]
fn scan_intervals() {
    assert_eq!(TOPOLOGY_SCAN_SECS, 10);
    assert_eq!(BRIGHTNESS_SCAN_SECS, 2);
    assert_eq!(BROADCAST_CAPACITY, 16);
}

#[test]
fn scan_with_another_display_replaces_the_list() {
    let mut list = vec![monitor("A", "name-a", "Dell", 1), monitor("B", "name-b", "Acer", 2)];
    let scan = vec![monitor("A", "name-a2", "Dell", 11), monitor("C", "name-c", "Asus", 13)];
    assert!(device_changes(&mut list, scan.clone()));
    assert_eq!(list, scan);
}

#[test]
fn scan_of_another_size_replaces_the_list() {
    let mut list = vec![monitor("A", "name-a", "Dell", 1), monitor("B", "name-b", "Acer", 2)];
    let scan = vec![monitor("A", "name-a", "Dell", 11)];
    assert!(device_changes(&mut list, scan.clone()));
    assert_eq!(list, scan);

    let mut list = vec![monitor("A", "name-a", "Dell", 1)];
    let scan = vec![
        monitor("A", "name-a", "Dell", 11),
        monitor("B", "name-b", "Acer", 12),
        monitor("C", "name-c", "Asus", 13),
    ];
    assert!(device_changes(&mut list, scan.clone()));
    assert_eq!(list, scan);

    let mut list: Vec<MonitorDeviceImpl> = Vec::new();
    let scan = vec![monitor("A", "name-a", "Dell", 11)];
    assert!(device_changes(&mut list, scan.clone()));
    assert_eq!(list, scan);
}

#[test]
fn scan_with_the_same_displays_keeps_the_handles_and_refreshes_the_names() {
    let mut list = vec![monitor("A", "name-a", "Dell", 1), panel("B", "name-b", "Panel", 2)];
    let scan = vec![monitor("A", "name-a2", "Dell new", 11), panel("B", "name-b2", "", 12)];
    assert!(!device_changes(&mut list, scan));
    assert_eq!(
        list,
        vec![monitor("A", "name-a2", "Dell new", 1), panel("B", "name-b2", "", 2)]
    );
}

#[test]
fn scan_in_another_order_keeps_the_order_of_the_list() {
    let mut list = vec![monitor("A", "name-a", "Dell", 1), monitor("B", "name-b", "Acer", 2)];
    let scan = vec![monitor("B", "name-b2", "Acer", 12), monitor("A", "name-a2", "Dell", 11)];
    assert!(!device_changes(&mut list, scan));
    assert_eq!(list, vec![monitor("A", "name-a2", "Dell", 1), monitor("B", "name-b2", "Acer", 2)]);
}

#[test]
fn scan_that_repeats_an_id_refreshes_from_its_first_display() {
    let mut list = vec![monitor("A", "name-a", "Dell", 1), monitor("A", "name-b", "Acer", 2)];
    let scan = vec![monitor("A", "first", "One", 11), monitor("A", "second", "Two", 12)];
    assert!(!device_changes(&mut list, scan));
    assert_eq!(list, vec![monitor("A", "first", "One", 1), monitor("A", "first", "One", 2)]);
}

#[test]
fn scan_of_nothing_over_nothing_changes_nothing() {
    let mut list: Vec<MonitorDeviceImpl> = Vec::new();
    assert!(!device_changes(&mut list, Vec::new()));
    assert!(list.is_empty());
}

#[test]
fn reports_leave_out_the_displays_that_cannot_be_read() {
    let devices = vec![
        monitor("A", "name-a", "Dell", 1),
        panel("B", "name-b", "Panel", 2),
        monitor("C", "name-c", "Asus", 3),
        monitor("D", "name-d", "Acer", 4),
    ];
    let replies = vec![
        BackendReply::Ddcci(DdcciBrightnessValues { min: 0, max: 100, current: 40 }),
        BackendReply::DisplayBrightness(DisplayBrightness { policy: 2, ac: 90, dc: 30 }),
        BackendReply::Failed,
        BackendReply::Ddcci(DdcciBrightnessValues { min: 0, max: 0, current: 0 }),
    ];
    assert_eq!(
        collect_infos(&devices, &replies),
        vec![info("name-a", "Dell", 40), info("name-b", "Panel", 30)]
    );
}

#[test]
fn reports_leave_out_the_displays_without_a_reply() {
    let devices = vec![monitor("A", "name-a", "Dell", 1), monitor("B", "name-b", "Acer", 2)];
    let replies =
        vec![BackendReply::Ddcci(DdcciBrightnessValues { min: 0, max: 100, current: 40 })];
    assert_eq!(collect_infos(&devices, &replies), vec![info("name-a", "Dell", 40)]);
    assert_eq!(collect_infos(&devices, &Vec::new()), Vec::new());
    assert_eq!(collect_infos(&Vec::new(), &replies), Vec::new());
}

#[test]
fn reports_are_compared_by_content() {
    let a = vec![info("name-a", "Dell", 40), info("name-b", "Acer", 50)];
    assert!(same_infos(&a, &a.clone()));
    assert!(same_infos(&Vec::new(), &Vec::new()));
    assert!(!same_infos(&a, &vec![info("name-a", "Dell", 40)]));
    assert!(!same_infos(&a, &vec![info("name-a", "Dell", 40), info("name-b", "Acer", 51)]));
    assert!(!same_infos(&a, &vec![info("name-a", "Dell", 40), info("name-b", "Asus", 50)]));
    assert!(!same_infos(&a, &vec![info("name-x", "Dell", 40), info("name-b", "Acer", 50)]));
    assert!(!same_infos(&a, &vec![info("name-b", "Acer", 50), info("name-a", "Dell", 40)]));
}

#[test]
fn changed_reports_are_published_and_become_the_baseline() {
    let mut last: Vec<MonitorInfo> = Vec::new();
    let first = vec![info("name-a", "Dell", 40)];
    assert!(brightness_changes(&mut last, first.clone()));
    assert_eq!(last, first);
    assert!(!brightness_changes(&mut last, first.clone()));
    assert_eq!(last, first);
    let second = vec![info("name-a", "Dell", 41)];
    assert!(brightness_changes(&mut last, second.clone()));
    assert_eq!(last, second);
    assert!(brightness_changes(&mut last, Vec::new()));
    assert!(last.is_empty());
    assert!(!brightness_changes(&mut last, Vec::new()));
}

#[test]
fn command_for_an_unknown_device_is_not_found() {
    let devices = vec![monitor("A", "name-a", "Dell", 1), monitor("B", "name-b", "Acer", 2)];
    for value in [-100, -50, 0, 50, 100] {
        for ready in [false, true] {
            assert_eq!(
                set_brightness(&devices, &"name-z".to_string(), value, ready),
                Err(CommandError::DeviceNotFound)
            );
            assert_eq!(
                set_brightness(&Vec::new(), &"name-a".to_string(), value, ready),
                Err(CommandError::DeviceNotFound)
            );
        }
    }
    assert_eq!(
        set_brightness(&devices, &"A".to_string(), 10, true),
        Err(CommandError::DeviceNotFound)
    );
}

#[test]
fn slider_at_minus_fifty_sends_alpha_128_to_the_overlay() {
    let devices = vec![monitor("A", "name-a", "Dell", 1), monitor("B", "name-b", "Acer", 2)];
    assert_eq!(
        set_brightness(&devices, &"name-b".to_string(), -50, true),
        Ok(Command {
            device: 1,
            action: SliderAction::Dim(Overlay { level: 128, device_name: "name-b".to_string() }),
        })
    );
}

#[test]
fn slider_at_zero_sets_the_hardware_to_zero() {
    let devices = vec![monitor("A", "name-a", "Dell", 1), monitor("B", "name-b", "Acer", 2)];
    for ready in [false, true] {
        assert_eq!(
            set_brightness(&devices, &"name-a".to_string(), 0, ready),
            Ok(Command { device: 0, action: SliderAction::Hardware(0) })
        );
    }
    assert_eq!(
        set_brightness(&devices, &"name-b".to_string(), 73, false),
        Ok(Command { device: 1, action: SliderAction::Hardware(73) })
    );
}

#[test]
fn dimming_without_the_overlay_loop_is_unavailable() {
    let devices = vec![monitor("A", "name-a", "Dell", 1)];
    assert_eq!(
        set_brightness(&devices, &"name-a".to_string(), -1, false),
        Err(CommandError::OverlayChannelUnavailable)
    );
    assert_eq!(
        set_brightness(&devices, &"name-a".to_string(), -100, false),
        Err(CommandError::OverlayChannelUnavailable)
    );
}

#[test]
fn command_goes_to_the_first_display_of_that_name() {
    let devices = vec![
        monitor("A", "twin", "Dell", 1),
        monitor("B", "twin", "Acer", 2),
        monitor("C", "other", "Asus", 3),
    ];
    assert_eq!(
        set_brightness(&devices, &"twin".to_string(), 5, true),
        Ok(Command { device: 0, action: SliderAction::Hardware(5) })
    );
    assert_eq!(
        set_brightness(&devices, &"other".to_string(), -100, true),
        Ok(Command {
            device: 2,
            action: SliderAction::Dim(Overlay { level: 255, device_name: "other".to_string() }),
        })
    );
}
