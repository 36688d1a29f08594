//! Building the list of displays from what the native display subsystem
//! reports: target names, display handles, and the groups of sub-devices and
//! physical monitors that have to be matched by position.

use vstd::prelude::*;
use crate::monitors::{
    device_views, flag_set, internal_technology, is_internal_technology, raw_handle_invalid,
    MonitorDeviceImpl, MonitorDeviceView, SafeDisplayHandle, SafePhysicalMonitor,
    DISPLAY_DEVICE_ACTIVE,
};

verus! {

/// Status of a native query that succeeded.
pub const ERROR_SUCCESS: u32 = 0;

/// Kind of a mode record that describes a target device.
pub const DISPLAYCONFIG_MODE_INFO_TYPE_TARGET: u32 = 2;

/// Result code of an open that was refused for want of access rights.
pub const HRESULT_ACCESS_DENIED: i32 = -2147024891;

/// Why a scan of the displays gave no list.
#[derive(Debug, Clone, Copy, PartialEq, Eq, Structural)]
pub enum EnumError {
    /// A call into the native display subsystem reported a failure.
    NativeQuery,
    /// A monitor group reported one number of active sub-devices and another
    /// number of physical monitors, so that they cannot be matched by position.
    HandleCorrelationMismatch,
}

/// One display sub-device of a monitor group.
#[derive(Debug)]
pub struct DisplayDevice {
    /// The device path, by which a target is found among the sub-devices.
    pub device_id: String,
    /// The logical device name.
    pub device_name: String,
    /// The state flags; only active sub-devices take part in the matching.
    pub state_flags: u32,
}

/// One monitor of the desktop, which may stand for several physical monitors:
/// its sub-devices and its physical-monitor handles, as two lists that belong
/// together by position.
#[derive(Debug)]
pub struct MonitorGroup {
    pub devices: Vec<DisplayDevice>,
    pub physical_monitors: Vec<SafePhysicalMonitor>,
}

/// What opening the device path of an internal panel gave.
#[derive(Debug, Clone, Copy)]
pub enum OpenOutcome {
    /// The call returned this raw handle.
    Opened(isize),
    /// The call failed with this result code.
    Failed(i32),
}

/// The name record of a target device.
#[derive(Debug)]
pub struct TargetDeviceName {
    /// The name from the monitor itself; may be blank.
    pub friendly_name: String,
    /// The device path.
    pub device_path: String,
    /// The kind of connection.
    pub output_technology: i32,
}

/// Everything the native side reports of one target device.
#[derive(Debug)]
pub struct TargetProbe {
    /// The name record.
    pub name: TargetDeviceName,
    /// The name of the primary display adapter, where it could be read. Read
    /// for an internal panel only.
    pub adapter_name: Option<String>,
    /// What opening the device path gave. Read for an internal panel only.
    pub open: OpenOutcome,
    /// The monitor groups of the desktop, in the order in which the desktop
    /// lists them, or `None` where they could not be listed. A group whose
    /// sub-devices or physical monitors could not be read stands as `None` in
    /// the list. Read for an external monitor only.
    pub groups: Option<Vec<Option<MonitorGroup>>>,
}

/// One mode record of the active display configuration.
#[derive(Debug)]
pub struct ModeRecord {
    /// The kind of the record: a source or a target.
    pub info_type: u32,
    /// What was learned of the target, or `None` where its name record could
    /// not be read.
    pub target: Option<TargetProbe>,
}

/// A character with the Unicode property White_Space.
pub open spec fn is_white_space(c: char) -> bool {
    let code = c as u32;
    ||| 9 <= code <= 13
    ||| code == 32
    ||| code == 133
    ||| code == 160
    ||| code == 5760
    ||| 8192 <= code <= 8202
    ||| code == 8232
    ||| code == 8233
    ||| code == 8239
    ||| code == 8287
    ||| code == 12288
}

/// A name that shows nothing: it is empty or made of white space only.
pub open spec fn is_blank(name: Seq<char>) -> bool {
    forall|i: int| 0 <= i < name.len() ==> is_white_space(#[trigger] name[i])
}

/// The name under which a display is shown: its own name, or where that is
/// blank a fixed label that says whether the display is internal.
pub open spec fn display_name(friendly_name: Seq<char>, output_technology: i32) -> Seq<char> {
    if !is_blank(friendly_name) {
        friendly_name
    } else if internal_technology(output_technology) {
        "Internal Display"@
    } else {
        "Unknown Display"@
    }
}

/// The display handle that an open gave. A handle that stands for nothing and
/// an open refused for want of access rights both give the null handle: such a
/// display is a placeholder, not a fault. Every other failure is an error.
pub open spec fn opened_handle(open: OpenOutcome) -> Result<isize, EnumError> {
    match open {
        OpenOutcome::Opened(raw) => if raw_handle_invalid(raw) {
            Ok(0)
        } else {
            Ok(raw)
        },
        OpenOutcome::Failed(code) => if code == HRESULT_ACCESS_DENIED {
            Ok(0)
        } else {
            Err(EnumError::NativeQuery)
        },
    }
}

/// Whether a sub-device is part of the desktop.
pub open spec fn device_active(device: DisplayDevice) -> bool {
    device.state_flags & DISPLAY_DEVICE_ACTIVE == DISPLAY_DEVICE_ACTIVE
}

/// The number of active sub-devices among the first `i`.
pub open spec fn active_before(devices: Seq<DisplayDevice>, i: int) -> int
    decreases i,
{
    if i <= 0 {
        0
    } else {
        active_before(devices, i - 1) + if device_active(devices[i - 1]) {
            1int
        } else {
            0int
        }
    }
}

/// Whether a sub-device is active and has the device path `path`.
pub open spec fn device_matches(device: DisplayDevice, path: Seq<char>) -> bool {
    device_active(device) && device.device_id@ == path
}

/// The index of the first sub-device from index `from` on that matches `path`.
pub open spec fn first_match_from(devices: Seq<DisplayDevice>, path: Seq<char>, from: int)
    -> Option<int>
    decreases devices.len() - from,
{
    if from < 0 || from >= devices.len() {
        None
    } else if device_matches(devices[from], path) {
        Some(from)
    } else {
        first_match_from(devices, path, from + 1)
    }
}

/// A target found among the sub-devices of a monitor group.
pub struct Correlated {
    /// The logical device name of the sub-device.
    pub device_name: Seq<char>,
    /// The raw physical-monitor handle at the sub-device's position.
    pub physical_monitor: isize,
}

/// The target with device path `path` within one monitor group. The active
/// sub-devices and the physical monitors belong together by position, so a
/// group with different numbers of the two is an error, whether or not the
/// target is in it. Otherwise the first active sub-device with that path is
/// the target, and the handle at its position among the active ones is its
/// handle.
pub open spec fn correlate_group(group: MonitorGroup, path: Seq<char>) -> Result<
    Option<Correlated>,
    EnumError,
> {
    let devices = group.devices@;
    if active_before(devices, devices.len() as int) != group.physical_monitors@.len() {
        Err(EnumError::HandleCorrelationMismatch)
    } else {
        match first_match_from(devices, path, 0) {
            Some(i) => Ok(
                Some(
                    Correlated {
                        device_name: devices[i].device_name@,
                        physical_monitor: group.physical_monitors@[active_before(devices, i)].0,
                    },
                ),
            ),
            None => Ok(None),
        }
    }
}

/// The target with device path `path` among the monitor groups from index
/// `from` on: the groups are tried in turn, the first that holds the target
/// decides, and the groups after it are not looked at. A group that could not
/// be read, or that cannot be matched by position, is an error where it is met
/// before the target is found.
pub open spec fn correlate_from(groups: Seq<Option<MonitorGroup>>, path: Seq<char>, from: int)
    -> Result<Option<Correlated>, EnumError>
    decreases groups.len() - from,
{
    if from < 0 || from >= groups.len() {
        Ok(None)
    } else {
        match groups[from] {
            None => Err(EnumError::NativeQuery),
            Some(group) => match correlate_group(group, path) {
                Err(error) => Err(error),
                Ok(Some(found)) => Ok(Some(found)),
                Ok(None) => correlate_from(groups, path, from + 1),
            },
        }
    }
}

/// The display that a target's reports describe. `carried_name` is the
/// logical device name of the display listed before this one (empty for the
/// first): it stays in place where the reports give this display no name of
/// its own.
///
/// An internal panel takes the primary adapter's name and the handle that the
/// open gave, and no physical monitor. An external monitor takes the name and
/// the handle found by position among the monitor groups, and no display
/// handle; one that is found in no group keeps the null handle.
pub open spec fn probed_device(probe: TargetProbe, carried_name: Seq<char>) -> Result<
    MonitorDeviceView,
    EnumError,
> {
    let technology = probe.name.output_technology;
    let path = probe.name.device_path@;
    let shown = display_name(probe.name.friendly_name@, technology);
    if internal_technology(technology) {
        match opened_handle(probe.open) {
            Err(error) => Err(error),
            Ok(raw) => Ok(
                MonitorDeviceView {
                    id: path,
                    device_name: match probe.adapter_name {
                        Some(name) => name@,
                        None => carried_name,
                    },
                    friendly_name: shown,
                    display_handle: raw,
                    physical_monitor: 0,
                    output_technology: technology,
                },
            ),
        }
    } else {
        match probe.groups {
            None => Err(EnumError::NativeQuery),
            Some(groups) => match correlate_from(groups@, path, 0) {
                Err(error) => Err(error),
                Ok(found) => Ok(
                    MonitorDeviceView {
                        id: path,
                        device_name: match found {
                            Some(correlated) => correlated.device_name,
                            None => carried_name,
                        },
                        friendly_name: shown,
                        display_handle: 0,
                        physical_monitor: match found {
                            Some(correlated) => correlated.physical_monitor,
                            None => 0,
                        },
                        output_technology: technology,
                    },
                ),
            },
        }
    }
}

/// The logical device name that the next display inherits: that of the last
/// display listed, or the empty name.
pub open spec fn carried_name(listed: Seq<MonitorDeviceView>) -> Seq<char> {
    if listed.len() == 0 {
        Seq::<char>::empty()
    } else {
        listed.last().device_name
    }
}

/// The list of displays for the mode records from index `from` on, after
/// `listed`. Records of sources and records whose name could not be read are
/// passed over. The first error ends the scan: there is no partial list.
pub open spec fn scan_from(records: Seq<ModeRecord>, from: int, listed: Seq<MonitorDeviceView>)
    -> Result<Seq<MonitorDeviceView>, EnumError>
    decreases records.len() - from,
{
    if from < 0 || from >= records.len() {
        Ok(listed)
    } else if records[from].info_type != DISPLAYCONFIG_MODE_INFO_TYPE_TARGET {
        scan_from(records, from + 1, listed)
    } else {
        match records[from].target {
            None => scan_from(records, from + 1, listed),
            Some(probe) => match probed_device(probe, carried_name(listed)) {
                Err(error) => Err(error),
                Ok(device) => scan_from(records, from + 1, listed.push(device)),
            },
        }
    }
}

/// The list of displays that a scan gives: an error where the size query or
/// the fetch of the display configuration failed, else one display for each
/// readable target record, in the order of the records.
pub open spec fn enumerated(size_status: u32, fetch_status: u32, records: Seq<ModeRecord>)
    -> Result<Seq<MonitorDeviceView>, EnumError> {
    if size_status != ERROR_SUCCESS || fetch_status != ERROR_SUCCESS {
        Err(EnumError::NativeQuery)
    } else {
        scan_from(records, 0, Seq::<MonitorDeviceView>::empty())
    }
}

/// The length of a wide string held in a fixed buffer: the number of code
/// units before the first terminator, or the size of the buffer where it
/// holds none.
pub open spec fn wide_len(units: Seq<u16>) -> int
    decreases units.len(),
{
    if units.len() == 0 || units[0] == 0 {
        0
    } else {
        1 + wide_len(units.drop_first())
    }
}

/// `wide_len` is the index of the first terminator.
pub proof fn lemma_wide_len(units: Seq<u16>)
    ensures
        0 <= wide_len(units) <= units.len(),
        forall|i: int| 0 <= i < wide_len(units) ==> units[i] != 0,
        wide_len(units) < units.len() ==> units[wide_len(units)] == 0,
    decreases units.len(),
{
    if units.len() > 0 && units[0] != 0 {
        let rest = units.drop_first();
        lemma_wide_len(rest);
        assert forall|i: int| 0 <= i < wide_len(units) implies units[i] != 0 by {
            if i > 0 {
                assert(units[i] == rest[i - 1]);
            }
        }
        if wide_len(units) < units.len() {
            assert(units[wide_len(units)] == rest[wide_len(rest)]);
        }
    }
}

/// Computes `wide_len`.
pub fn wchar_len(units: &[u16]) -> (n: usize)
    ensures
        n == wide_len(units@),
        n <= units@.len(),
        forall|i: int| 0 <= i < n ==> units@[i] != 0,
        n < units@.len() ==> units@[n as int] == 0,
{
    let mut n: usize = 0;
    assert(units@.skip(0) =~= units@);
    while n < units.len() && units[n] != 0
        invariant
            n <= units.len(),
            wide_len(units@) == n + wide_len(units@.skip(n as int)),
        decreases units.len() - n,
    {
        assert(units@.skip(n as int).drop_first() =~= units@.skip(n + 1));
        n = n + 1;
    }
    proof {
        lemma_wide_len(units@);
    }
    n
}

/// Computes `is_white_space`.
pub fn is_white_space_char(c: char) -> (white: bool)
    ensures
        white == is_white_space(c),
{
    let code: u32 = c as u32;
    (9 <= code && code <= 13) || code == 32 || code == 133 || code == 160 || code == 5760 || (8192
        <= code && code <= 8202) || code == 8232 || code == 8233 || code == 8239 || code == 8287
        || code == 12288
}

/// Whether a name is empty or made of white space only.
pub fn is_blank_name(name: &str) -> (blank: bool)
    ensures
        blank == is_blank(name@),
{
    let n: usize = name.unicode_len();
    let mut i: usize = 0;
    while i < n
        invariant
            i <= n,
            n == name@.len(),
            forall|k: int| 0 <= k < i ==> is_white_space(#[trigger] name@[k]),
        decreases n - i,
    {
        if !is_white_space_char(name.get_char(i)) {
            return false;
        }
        i = i + 1;
    }
    true
}

/// The name under which a display is shown.
pub fn resolve_display_name(friendly_name: &String, output_technology: i32) -> (shown: String)
    ensures
        shown@ == display_name(friendly_name@, output_technology),
{
    if !is_blank_name(friendly_name.as_str()) {
        friendly_name.clone()
    } else if is_internal_technology(output_technology) {
        "Internal Display".to_owned()
    } else {
        "Unknown Display".to_owned()
    }
}

/// The display handle that an open gave, or the error that ends the scan.
pub fn get_handler_from_device_path(open: OpenOutcome) -> (handle: Result<
    SafeDisplayHandle,
    EnumError,
>)
    ensures
        match handle {
            Ok(h) => opened_handle(open) == Ok::<isize, EnumError>(h.0),
            Err(error) => opened_handle(open) == Err::<isize, EnumError>(error),
        },
{
    match open {
        OpenOutcome::Opened(raw) => {
            let handle = SafeDisplayHandle(raw);
            if handle.is_invalid() {
                Ok(SafeDisplayHandle::null())
            } else {
                Ok(handle)
            }
        },
        OpenOutcome::Failed(code) => {
            if code == HRESULT_ACCESS_DENIED {
                Ok(SafeDisplayHandle::null())
            } else {
                Err(EnumError::NativeQuery)
            }
        },
    }
}

/// A target found in a monitor group: the index of its sub-device in the
/// group's list, and its physical-monitor handle.
#[derive(Debug, Clone, Copy, PartialEq, Eq)]
pub struct GroupMatch {
    pub device_index: usize,
    pub physical_monitor: SafePhysicalMonitor,
}

/// Whether `found` is what `expected` says: the same sub-device and handle.
pub open spec fn is_group_match(
    found: Option<GroupMatch>,
    expected: Option<Correlated>,
    devices: Seq<DisplayDevice>,
) -> bool {
    match found {
        Some(m) => m.device_index < devices.len() && expected == Some(
            Correlated {
                device_name: devices[m.device_index as int].device_name@,
                physical_monitor: m.physical_monitor.0,
            },
        ),
        None => expected.is_none(),
    }
}

/// Looks for the target with device path `device_path` in one monitor group.
pub fn correlate_in_group(group: &MonitorGroup, device_path: &String) -> (result: Result<
    Option<GroupMatch>,
    EnumError,
>)
    ensures
        match result {
            Ok(found) => correlate_group(*group, device_path@) is Ok && is_group_match(
                found,
                correlate_group(*group, device_path@)->Ok_0,
                group.devices@,
            ),
            Err(error) => correlate_group(*group, device_path@) == Err::<
                Option<Correlated>,
                EnumError,
            >(error),
        },
{
    let ghost devices = group.devices@;
    let ghost path = device_path@;
    let n: usize = group.devices.len();
    let mut active: usize = 0;
    let mut found: Option<(usize, usize)> = None;
    let mut i: usize = 0;
    while i < n
        invariant
            i <= n,
            n == devices.len(),
            devices == group.devices@,
            path == device_path@,
            active == active_before(devices, i as int),
            active <= i,
            match found {
                Some((index, rank)) => index < i && rank == active_before(devices, index as int)
                    && rank < active && first_match_from(devices, path, 0) == Some(index as int),
                None => first_match_from(devices, path, 0) == first_match_from(
                    devices,
                    path,
                    i as int,
                ),
            },
        decreases n - i,
    {
        let device = &group.devices[i];
        assert(active_before(devices, i + 1) == active_before(devices, i as int) + if device_active(
            devices[i as int],
        ) {
            1int
        } else {
            0int
        });
        if flag_set(device.state_flags, DISPLAY_DEVICE_ACTIVE) {
            if found.is_none() && device.device_id == *device_path {
                found = Some((i, active));
            }
            active = active + 1;
        }
        i = i + 1;
    }
    if active != group.physical_monitors.len() {
        return Err(EnumError::HandleCorrelationMismatch);
    }
    match found {
        Some((index, rank)) => Ok(
            Some(GroupMatch { device_index: index, physical_monitor: group.physical_monitors[rank] }),
        ),
        None => Ok(None),
    }
}

/// A target found among the monitor groups: its logical device name and its
/// physical-monitor handle.
#[derive(Debug, PartialEq, Eq)]
pub struct PhysicalMatch {
    pub device_name: String,
    pub physical_monitor: SafePhysicalMonitor,
}

/// Looks for the target with device path `device_path` among the monitor
/// groups, in their order.
pub fn find_physical_monitor(groups: &Vec<Option<MonitorGroup>>, device_path: &String) -> (result:
    Result<Option<PhysicalMatch>, EnumError>)
    ensures
        match result {
            Ok(Some(found)) => correlate_from(groups@, device_path@, 0) == Ok::<
                Option<Correlated>,
                EnumError,
            >(
                Some(
                    Correlated {
                        device_name: found.device_name@,
                        physical_monitor: found.physical_monitor.0,
                    },
                ),
            ),
            Ok(None) => correlate_from(groups@, device_path@, 0) == Ok::<
                Option<Correlated>,
                EnumError,
            >(None),
            Err(error) => correlate_from(groups@, device_path@, 0) == Err::<
                Option<Correlated>,
                EnumError,
            >(error),
        },
{
    let mut k: usize = 0;
    while k < groups.len()
        invariant
            k <= groups.len(),
            correlate_from(groups@, device_path@, 0) == correlate_from(
                groups@,
                device_path@,
                k as int,
            ),
        decreases groups.len() - k,
    {
        match &groups[k] {
            None => {
                return Err(EnumError::NativeQuery);
            },
            Some(group) => match correlate_in_group(group, device_path) {
                Err(error) => {
                    return Err(error);
                },
                Ok(Some(found)) => {
                    return Ok(
                        Some(
                            PhysicalMatch {
                                device_name: group.devices[found.device_index].device_name.clone(),
                                physical_monitor: found.physical_monitor,
                            },
                        ),
                    );
                },
                Ok(None) => {},
            },
        }
        k = k + 1;
    }
    Ok(None)
}

/// The display that a target's reports describe; `carried_name` is the
/// logical device name of the display listed before it.
pub fn probe_device(probe: &TargetProbe, carried_name: &String) -> (result: Result<
    MonitorDeviceImpl,
    EnumError,
>)
    ensures
        match result {
            Ok(device) => probed_device(*probe, carried_name@) == Ok::<
                MonitorDeviceView,
                EnumError,
            >(device@) && device@.well_formed(),
            Err(error) => probed_device(*probe, carried_name@) == Err::<
                MonitorDeviceView,
                EnumError,
            >(error),
        },
{
    let technology: i32 = probe.name.output_technology;
    let shown = resolve_display_name(&probe.name.friendly_name, technology);
    if is_internal_technology(technology) {
        let device_name = match &probe.adapter_name {
            Some(name) => name.clone(),
            None => carried_name.clone(),
        };
        match get_handler_from_device_path(probe.open) {
            Err(error) => Err(error),
            Ok(handle) => Ok(
                MonitorDeviceImpl::new(
                    probe.name.device_path.clone(),
                    device_name,
                    shown,
                    handle,
                    SafePhysicalMonitor::null(),
                    technology,
                ),
            ),
        }
    } else {
        match &probe.groups {
            None => Err(EnumError::NativeQuery),
            Some(groups) => match find_physical_monitor(groups, &probe.name.device_path) {
                Err(error) => Err(error),
                Ok(Some(found)) => Ok(
                    MonitorDeviceImpl::new(
                        probe.name.device_path.clone(),
                        found.device_name,
                        shown,
                        SafeDisplayHandle::null(),
                        found.physical_monitor,
                        technology,
                    ),
                ),
                Ok(None) => Ok(
                    MonitorDeviceImpl::new(
                        probe.name.device_path.clone(),
                        carried_name.clone(),
                        shown,
                        SafeDisplayHandle::null(),
                        SafePhysicalMonitor::null(),
                        technology,
                    ),
                ),
            },
        }
    }
}

/// Builds the list of displays from the reports of one scan: the status of
/// the size query and of the fetch of the display configuration, and the mode
/// records fetched. The result is the whole list or an error, never a part of
/// the list; every display in it is well-formed.
pub fn get_monitors(size_status: u32, fetch_status: u32, records: &Vec<ModeRecord>) -> (result:
    Result<Vec<MonitorDeviceImpl>, EnumError>)
    ensures
        match result {
            Ok(monitors) => enumerated(size_status, fetch_status, records@) == Ok::<
                Seq<MonitorDeviceView>,
                EnumError,
            >(device_views(monitors@)) && forall|i: int|
                0 <= i < monitors@.len() ==> (#[trigger] monitors@[i])@.well_formed(),
            Err(error) => enumerated(size_status, fetch_status, records@) == Err::<
                Seq<MonitorDeviceView>,
                EnumError,
            >(error),
        },
{
    if size_status != ERROR_SUCCESS || fetch_status != ERROR_SUCCESS {
        return Err(EnumError::NativeQuery);
    }
    let mut monitors: Vec<MonitorDeviceImpl> = Vec::new();
    let mut device_name = String::new();
    let mut k: usize = 0;
    assert(device_views(monitors@) =~= Seq::<MonitorDeviceView>::empty());
    while k < records.len()
        invariant
            k <= records.len(),
            size_status == ERROR_SUCCESS,
            fetch_status == ERROR_SUCCESS,
            device_name@ == carried_name(device_views(monitors@)),
            scan_from(records@, 0, Seq::<MonitorDeviceView>::empty()) == scan_from(
                records@,
                k as int,
                device_views(monitors@),
            ),
            forall|i: int| 0 <= i < monitors@.len() ==> (#[trigger] monitors@[i])@.well_formed(),
        decreases records.len() - k,
    {
        let record = &records[k];
        if record.info_type == DISPLAYCONFIG_MODE_INFO_TYPE_TARGET {
            match &record.target {
                None => {},
                Some(probe) => match probe_device(probe, &device_name) {
                    Err(error) => {
                        return Err(error);
                    },
                    Ok(device) => {
                        let ghost before = device_views(monitors@);
                        device_name = device.device_name.clone();
                        monitors.push(device);
                        assert(device_views(monitors@) =~= before.push(device@));
                    },
                },
            }
        }
        k = k + 1;
    }
    Ok(monitors)
}

} // verus!
