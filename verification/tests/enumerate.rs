use fade::enumerate::{
    correlate_in_group, find_physical_monitor, get_handler_from_device_path, get_monitors,
    is_blank_name, is_white_space_char, probe_device, resolve_display_name, wchar_len,
    DisplayDevice,
    EnumError, GroupMatch, ModeRecord, MonitorGroup, OpenOutcome, PhysicalMatch,
    TargetDeviceName, TargetProbe, DISPLAYCONFIG_MODE_INFO_TYPE_TARGET, HRESULT_ACCESS_DENIED,
};
use fade::monitors::{MonitorDeviceImpl, SafeDisplayHandle, SafePhysicalMonitor};

const INTERNAL: i32 = -2147483648;
const LVDS: i32 = 6;
const EMBEDDED: i32 = 11;
const HDMI: i32 = 5;
const SOURCE: u32 = 1;
const TARGET: u32 = 2;

fn sub_device(id: &str, name: &str, flags: u32) -> DisplayDevice {
    DisplayDevice { device_id: id.to_string(), device_name: name.to_string(), state_flags: flags }
}

fn group(devices: Vec<DisplayDevice>, handles: &[isize]) -> MonitorGroup {
    MonitorGroup {
        devices,
        physical_monitors: handles.iter().map(|&raw| SafePhysicalMonitor(raw)).collect(),
    }
}

fn target(friendly: &str, path: &str, technology: i32) -> TargetDeviceName {
    TargetDeviceName {
        friendly_name: friendly.to_string(),
        device_path: path.to_string(),
        output_technology: technology,
    }
}

fn internal_probe(friendly: &str, path: &str, adapter: Option<&str>, open: OpenOutcome) -> TargetProbe {
    TargetProbe {
        name: target(friendly, path, INTERNAL),
        adapter_name: adapter.map(|name| name.to_string()),
        open,
        groups: None,
    }
}

fn external_probe(
    friendly: &str,
    path: &str,
    groups: Option<Vec<Option<MonitorGroup>>>,
) -> TargetProbe {
    TargetProbe {
        name: target(friendly, path, HDMI),
        adapter_name: None,
        open: OpenOutcome::Failed(0),
        groups,
    }
}

fn record(probe: TargetProbe) -> ModeRecord {
    ModeRecord { info_type: TARGET, target: Some(probe) }
}

fn device(
    id: &str,
    device_name: &str,
    friendly: &str,
    display: isize,
    monitor: isize,
    technology: i32,
) -> MonitorDeviceImpl {
    MonitorDeviceImpl::new(
        id.to_string(),
        device_name.to_string(),
        friendly.to_string(),
        SafeDisplayHandle(display),
        SafePhysicalMonitor(monitor),
        technology,
    )
}

fn two_monitors() -> Vec<Option<MonitorGroup>> {
    vec![
        Some(group(vec![sub_device("path-a", "\\\\.\\DISPLAY1\\Monitor0", 1)], &[101])),
        Some(group(vec![sub_device("path-b", "\\\\.\\DISPLAY2\\Monitor0", 1)], &[202])),
    ]
}

#[test]
fn constants_of_the_native_interface() {
    assert_eq!(DISPLAYCONFIG_MODE_INFO_TYPE_TARGET, 2);
    assert_eq!(HRESULT_ACCESS_DENIED, 0x80070005u32 as i32);
}

#[test]
fn wide_string_ends_at_the_first_terminator() {
    assert_eq!(wchar_len(&[]), 0);
    assert_eq!(wchar_len(&[0]), 0);
    assert_eq!(wchar_len(&[0, 65, 66]), 0);
    assert_eq!(wchar_len(&[65, 66, 0, 67, 0]), 2);
    assert_eq!(wchar_len(&[65, 66, 67]), 3);
    assert_eq!(wchar_len(&[65, 66, 67, 0]), 3);
    let mut buffer = [0u16; 32];
    for (slot, unit) in buffer.iter_mut().zip("\\\\.\\DISPLAY1".encode_utf16()) {
        *slot = unit;
    }
    assert_eq!(wchar_len(&buffer), 12);
    assert_eq!(String::from_utf16_lossy(&buffer[0..wchar_len(&buffer)]), "\\\\.\\DISPLAY1");
}

#[test]
fn white_space_is_the_unicode_property() {
    for code in 0u32..=0x10FFFF {
        if let Some(c) = char::from_u32(code) {
            assert_eq!(is_white_space_char(c), c.is_whitespace(), "U+{:04X}", code);
        }
    }
}

#[test]
fn blank_names() {
    assert!(is_blank_name(""));
    assert!(is_blank_name(" "));
    assert!(is_blank_name(" \t\r\n\u{a0}\u{3000}"));
    assert!(!is_blank_name("a"));
    assert!(!is_blank_name("  x  "));
    assert!(!is_blank_name("\u{0}"));
    for name in ["", "   ", "\u{2003}", " Dell ", "é", "\u{200b}", "\u{feff}"] {
        assert_eq!(is_blank_name(name), name.trim().is_empty());
    }
}

#[test]
fn blank_friendly_name_gets_a_label() {
    assert_eq!(resolve_display_name(&"".to_string(), INTERNAL), "Internal Display");
    assert_eq!(resolve_display_name(&"  ".to_string(), LVDS), "Internal Display");
    assert_eq!(resolve_display_name(&"\t".to_string(), EMBEDDED), "Internal Display");
    assert_eq!(resolve_display_name(&"".to_string(), HDMI), "Unknown Display");
    assert_eq!(resolve_display_name(&" ".to_string(), 0), "Unknown Display");
    assert_eq!(resolve_display_name(&"Dell U2720Q".to_string(), HDMI), "Dell U2720Q");
    assert_eq!(resolve_display_name(&" Panel ".to_string(), INTERNAL), " Panel ");
}

#[test]
fn open_outcomes() {
    assert_eq!(
        get_handler_from_device_path(OpenOutcome::Opened(88)),
        Ok(SafeDisplayHandle(88))
    );
    assert_eq!(get_handler_from_device_path(OpenOutcome::Opened(0)), Ok(SafeDisplayHandle(0)));
    assert_eq!(get_handler_from_device_path(OpenOutcome::Opened(-1)), Ok(SafeDisplayHandle(0)));
    assert_eq!(
        get_handler_from_device_path(OpenOutcome::Failed(HRESULT_ACCESS_DENIED)),
        Ok(SafeDisplayHandle(0))
    );
    assert_eq!(
        get_handler_from_device_path(OpenOutcome::Failed(-2147024894)),
        Err(EnumError::NativeQuery)
    );
    assert_eq!(get_handler_from_device_path(OpenOutcome::Failed(5)), Err(EnumError::NativeQuery));
}

#[test]
fn two_sub_devices_and_one_physical_monitor_do_not_correlate() {
    let torn = group(
        vec![sub_device("path-a", "name-a", 1), sub_device("path-b", "name-b", 1)],
        &[101],
    );
    assert_eq!(
        correlate_in_group(&torn, &"path-a".to_string()),
        Err(EnumError::HandleCorrelationMismatch)
    );
    assert_eq!(
        correlate_in_group(&torn, &"path-z".to_string()),
        Err(EnumError::HandleCorrelationMismatch)
    );
    let records = vec![record(external_probe("Dell", "path-a", Some(vec![Some(torn)])))];
    assert_eq!(get_monitors(0, 0, &records), Err(EnumError::HandleCorrelationMismatch));
}

#[test]
fn one_sub_device_and_two_physical_monitors_do_not_correlate() {
    let torn = group(vec![sub_device("path-a", "name-a", 1)], &[101, 102]);
    assert_eq!(
        correlate_in_group(&torn, &"path-a".to_string()),
        Err(EnumError::HandleCorrelationMismatch)
    );
}

#[test]
fn a_mismatch_leaves_no_partial_list() {
    let torn = group(
        vec![sub_device("path-b", "name-b", 1), sub_device("path-c", "name-c", 1)],
        &[101],
    );
    let records = vec![
        record(external_probe("First", "path-a", Some(two_monitors()))),
        record(external_probe("Second", "path-b", Some(vec![Some(torn)]))),
    ];
    assert_eq!(get_monitors(0, 0, &records), Err(EnumError::HandleCorrelationMismatch));
}

#[test]
fn correlation_is_by_position_among_the_active_sub_devices() {
    let duplicated = group(
        vec![
            sub_device("path-x", "name-x", 0),
            sub_device("path-a", "name-a", 1),
            sub_device("path-y", "name-y", 4),
            sub_device("path-b", "name-b", 5),
        ],
        &[101, 202],
    );
    assert_eq!(
        correlate_in_group(&duplicated, &"path-a".to_string()),
        Ok(Some(GroupMatch { device_index: 1, physical_monitor: SafePhysicalMonitor(101) }))
    );
    assert_eq!(
        correlate_in_group(&duplicated, &"path-b".to_string()),
        Ok(Some(GroupMatch { device_index: 3, physical_monitor: SafePhysicalMonitor(202) }))
    );
    assert_eq!(correlate_in_group(&duplicated, &"path-x".to_string()), Ok(None));
    assert_eq!(correlate_in_group(&duplicated, &"path-q".to_string()), Ok(None));
}

#[test]
fn the_first_sub_device_with_the_path_wins() {
    let twins = group(
        vec![sub_device("path-a", "first", 1), sub_device("path-a", "second", 1)],
        &[101, 202],
    );
    assert_eq!(
        correlate_in_group(&twins, &"path-a".to_string()),
        Ok(Some(GroupMatch { device_index: 0, physical_monitor: SafePhysicalMonitor(101) }))
    );
}

#[test]
fn an_empty_group_holds_nothing() {
    assert_eq!(correlate_in_group(&group(Vec::new(), &[]), &"path-a".to_string()), Ok(None));
    assert_eq!(
        correlate_in_group(&group(Vec::new(), &[5]), &"path-a".to_string()),
        Err(EnumError::HandleCorrelationMismatch)
    );
}

#[test]
fn groups_are_tried_in_turn() {
    let groups = two_monitors();
    assert_eq!(
        find_physical_monitor(&groups, &"path-b".to_string()),
        Ok(Some(PhysicalMatch {
            device_name: "\\\\.\\DISPLAY2\\Monitor0".to_string(),
            physical_monitor: SafePhysicalMonitor(202),
        }))
    );
    assert_eq!(
        find_physical_monitor(&groups, &"path-a".to_string()),
        Ok(Some(PhysicalMatch {
            device_name: "\\\\.\\DISPLAY1\\Monitor0".to_string(),
            physical_monitor: SafePhysicalMonitor(101),
        }))
    );
    assert_eq!(find_physical_monitor(&groups, &"path-c".to_string()), Ok(None));
    assert_eq!(find_physical_monitor(&Vec::new(), &"path-a".to_string()), Ok(None));
}

#[test]
fn groups_after_the_match_are_not_looked_at() {
    let mut groups = two_monitors();
    groups.push(Some(group(vec![sub_device("path-c", "name-c", 1)], &[])));
    assert_eq!(
        find_physical_monitor(&groups, &"path-b".to_string()),
        Ok(Some(PhysicalMatch {
            device_name: "\\\\.\\DISPLAY2\\Monitor0".to_string(),
            physical_monitor: SafePhysicalMonitor(202),
        }))
    );
    assert_eq!(
        find_physical_monitor(&groups, &"path-c".to_string()),
        Err(EnumError::HandleCorrelationMismatch)
    );
    assert_eq!(
        find_physical_monitor(&groups, &"path-z".to_string()),
        Err(EnumError::HandleCorrelationMismatch)
    );
}

#[test]
fn a_torn_group_before_the_match_fails_the_search() {
    let mut groups = vec![Some(group(vec![sub_device("path-c", "name-c", 1)], &[]))];
    groups.extend(two_monitors());
    assert_eq!(
        find_physical_monitor(&groups, &"path-a".to_string()),
        Err(EnumError::HandleCorrelationMismatch)
    );
}

#[test]
fn an_unreadable_group_fails_the_search_unless_the_match_comes_first() {
    let mut groups = two_monitors();
    groups.insert(1, None);
    assert_eq!(
        find_physical_monitor(&groups, &"path-a".to_string()),
        Ok(Some(PhysicalMatch {
            device_name: "\\\\.\\DISPLAY1\\Monitor0".to_string(),
            physical_monitor: SafePhysicalMonitor(101),
        }))
    );
    assert_eq!(find_physical_monitor(&groups, &"path-b".to_string()), Err(EnumError::NativeQuery));
    assert_eq!(find_physical_monitor(&groups, &"path-z".to_string()), Err(EnumError::NativeQuery));
    let records = vec![record(external_probe("Acer", "path-b", Some(groups)))];
    assert_eq!(get_monitors(0, 0, &records), Err(EnumError::NativeQuery));
}

#[test]
fn internal_panel_takes_the_opened_handle() {
    let probe = internal_probe("", "path-panel", Some("\\\\.\\DISPLAY1"), OpenOutcome::Opened(700));
    assert_eq!(
        probe_device(&probe, &"carried".to_string()),
        Ok(device("path-panel", "\\\\.\\DISPLAY1", "Internal Display", 700, 0, INTERNAL))
    );
}

#[test]
fn internal_panel_without_access_is_listed_without_a_handle() {
    let probe = internal_probe(
        "Remote",
        "path-rdp",
        Some("\\\\.\\DISPLAY1"),
        OpenOutcome::Failed(HRESULT_ACCESS_DENIED),
    );
    assert_eq!(
        probe_device(&probe, &"".to_string()),
        Ok(device("path-rdp", "\\\\.\\DISPLAY1", "Remote", 0, 0, INTERNAL))
    );
}

#[test]
fn internal_panel_is_not_looked_for_among_the_groups() {
    let mut probe =
        internal_probe("Panel", "path-a", None, OpenOutcome::Failed(HRESULT_ACCESS_DENIED));
    probe.groups = Some(two_monitors());
    assert_eq!(
        probe_device(&probe, &"carried".to_string()),
        Ok(device("path-a", "carried", "Panel", 0, 0, INTERNAL))
    );
}

#[test]
fn internal_panel_that_cannot_be_opened_fails_the_scan() {
    let probe = internal_probe("Panel", "path-panel", None, OpenOutcome::Failed(-2147024894));
    assert_eq!(probe_device(&probe, &"".to_string()), Err(EnumError::NativeQuery));
    let records = vec![
        record(external_probe("Dell", "path-a", Some(two_monitors()))),
        record(internal_probe("Panel", "path-panel", None, OpenOutcome::Failed(-2147024894))),
    ];
    assert_eq!(get_monitors(0, 0, &records), Err(EnumError::NativeQuery));
}

#[test]
fn external_monitor_takes_the_correlated_handle() {
    let probe = external_probe("Dell", "path-b", Some(two_monitors()));
    assert_eq!(
        probe_device(&probe, &"carried".to_string()),
        Ok(device("path-b", "\\\\.\\DISPLAY2\\Monitor0", "Dell", 0, 202, HDMI))
    );
}

#[test]
fn external_monitor_ignores_the_open_outcome() {
    let mut probe = external_probe("Dell", "path-b", Some(two_monitors()));
    probe.open = OpenOutcome::Opened(555);
    probe.adapter_name = Some("adapter".to_string());
    assert_eq!(
        probe_device(&probe, &"carried".to_string()),
        Ok(device("path-b", "\\\\.\\DISPLAY2\\Monitor0", "Dell", 0, 202, HDMI))
    );
}

#[test]
fn external_monitor_in_no_group_keeps_the_null_handle() {
    let probe = external_probe("", "path-z", Some(two_monitors()));
    assert_eq!(
        probe_device(&probe, &"carried".to_string()),
        Ok(device("path-z", "carried", "Unknown Display", 0, 0, HDMI))
    );
}

#[test]
fn external_monitor_without_groups_fails_the_scan() {
    let probe = external_probe("Dell", "path-a", None);
    assert_eq!(probe_device(&probe, &"".to_string()), Err(EnumError::NativeQuery));
}

#[test]
fn failed_configuration_query_fails_the_scan() {
    let records = vec![record(external_probe("Dell", "path-a", Some(two_monitors())))];
    assert_eq!(get_monitors(87, 0, &records), Err(EnumError::NativeQuery));
    assert_eq!(get_monitors(0, 122, &records), Err(EnumError::NativeQuery));
    assert_eq!(get_monitors(5, 5, &Vec::new()), Err(EnumError::NativeQuery));
    assert_eq!(get_monitors(0, 0, &Vec::new()), Ok(Vec::new()));
}

#[test]
fn scan_lists_every_readable_target_in_order() {
    let records = vec![
        ModeRecord { info_type: SOURCE, target: None },
        record(internal_probe(" ", "path-panel", Some("\\\\.\\DISPLAY1"), OpenOutcome::Opened(700))),
        ModeRecord { info_type: TARGET, target: None },
        ModeRecord {
            info_type: SOURCE,
            target: Some(external_probe("Ignored", "path-a", Some(two_monitors()))),
        },
        record(external_probe("Dell", "path-b", Some(two_monitors()))),
        record(external_probe("", "path-z", Some(two_monitors()))),
        record(internal_probe(
            "Second panel",
            "path-lvds",
            None,
            OpenOutcome::Failed(HRESULT_ACCESS_DENIED),
        )),
    ];
    assert_eq!(
        get_monitors(0, 0, &records),
        Ok(vec![
            device("path-panel", "\\\\.\\DISPLAY1", "Internal Display", 700, 0, INTERNAL),
            device("path-b", "\\\\.\\DISPLAY2\\Monitor0", "Dell", 0, 202, HDMI),
            device("path-z", "\\\\.\\DISPLAY2\\Monitor0", "Unknown Display", 0, 0, HDMI),
            device("path-lvds", "\\\\.\\DISPLAY2\\Monitor0", "Second panel", 0, 0, INTERNAL),
        ])
    );
}

#[test]
fn first_display_without_a_name_of_its_own_has_the_empty_name() {
    let records = vec![record(external_probe("Dell", "path-z", Some(Vec::new())))];
    assert_eq!(get_monitors(0, 0, &records), Ok(vec![device("path-z", "", "Dell", 0, 0, HDMI)]));
}

#[test]
fn enumerated_displays_have_at_most_the_handle_of_their_backend() {
    let records = vec![
        record(internal_probe("", "path-panel", None, OpenOutcome::Opened(700))),
        record(external_probe("Dell", "path-b", Some(two_monitors()))),
    ];
    for monitor in get_monitors(0, 0, &records).unwrap() {
        if monitor.is_internal() {
            assert!(monitor.physical_monitor.is_invalid());
        } else {
            assert!(monitor.display_handle.is_invalid());
        }
    }
}
