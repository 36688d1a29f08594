//! Keeping the device list and the published brightness values in step with
//! the hardware, and routing a brightness command to the display it names.

use vstd::prelude::*;
use crate::monitors::{
    device_views, info_views, BackendReply, MonitorDeviceImpl, MonitorDeviceView, MonitorInfo,
    MonitorInfoView, SliderAction, SliderActionView,
};

verus! {

/// Seconds between two scans of the attached displays.
pub const TOPOLOGY_SCAN_SECS: u64 = 10;

/// Seconds between two scans of the brightness values.
pub const BRIGHTNESS_SCAN_SECS: u64 = 2;

/// Published lists that a subscriber may fall behind by before it loses one.
pub const BROADCAST_CAPACITY: usize = 16;

/// Why a brightness command was not carried out.
#[derive(Debug, Clone, Copy, PartialEq, Eq, Structural)]
pub enum CommandError {
    /// No display in the list has the device name given.
    DeviceNotFound,
    /// The command asks for dimming, and the overlay loop is not running yet.
    OverlayChannelUnavailable,
}

/// A brightness command that is ready to be carried out.
#[derive(Debug, PartialEq, Eq)]
pub struct Command {
    /// The index, in the device list, of the display that the command names.
    pub device: usize,
    /// What to do for that display.
    pub action: SliderAction,
}

/// The ids of a list of displays.
pub open spec fn device_ids(devices: Seq<MonitorDeviceView>) -> Seq<Seq<char>> {
    devices.map_values(|device: MonitorDeviceView| device.id)
}

/// The logical device names of a list of displays.
pub open spec fn device_names(devices: Seq<MonitorDeviceView>) -> Seq<Seq<char>> {
    devices.map_values(|device: MonitorDeviceView| device.device_name)
}

/// The first index from `from` on at which `keys` holds `key`.
pub open spec fn first_index_from(keys: Seq<Seq<char>>, key: Seq<char>, from: int) -> Option<int>
    decreases keys.len() - from,
{
    if from < 0 || from >= keys.len() {
        None
    } else if keys[from] == key {
        Some(from)
    } else {
        first_index_from(keys, key, from + 1)
    }
}

/// The first index at which `keys` holds `key`.
pub open spec fn first_index(keys: Seq<Seq<char>>, key: Seq<char>) -> Option<int> {
    first_index_from(keys, key, 0)
}

/// `first_index_from` gives the least index from `from` on that holds the key,
/// and `None` exactly where no index from `from` on holds it.
pub proof fn lemma_first_index_from(keys: Seq<Seq<char>>, key: Seq<char>, from: int)
    requires
        0 <= from,
    ensures
        match first_index_from(keys, key, from) {
            Some(i) => from <= i < keys.len() && keys[i] == key && forall|j: int|
                from <= j < i ==> keys[j] != key,
            None => forall|j: int| from <= j < keys.len() ==> keys[j] != key,
        },
    decreases keys.len() - from,
{
    if from < keys.len() && keys[from] != key {
        lemma_first_index_from(keys, key, from + 1);
    }
}

/// Whether a scan shows another set of displays than the list held: the two
/// differ in size, or a display of the list is missing from the scan.
pub open spec fn topology_changed(current: Seq<MonitorDeviceView>, scanned: Seq<MonitorDeviceView>)
    -> bool {
    current.len() != scanned.len() || exists|i: int|
        0 <= i < current.len() && first_index(device_ids(scanned), #[trigger] current[i].id)
            is None
}

/// A display of the list after a scan that shows it again: its handles, and
/// the output technology that says which of them is in use, stay as they are;
/// its names are those of the scan.
pub open spec fn refreshed(held: MonitorDeviceView, seen: MonitorDeviceView) -> MonitorDeviceView {
    MonitorDeviceView {
        id: held.id,
        device_name: seen.device_name,
        friendly_name: seen.friendly_name,
        display_handle: held.display_handle,
        physical_monitor: held.physical_monitor,
        output_technology: held.output_technology,
    }
}

/// The display at index `i` of the list, refreshed from the first display of
/// the scan that has its id.
pub open spec fn reconciled_at(
    current: Seq<MonitorDeviceView>,
    scanned: Seq<MonitorDeviceView>,
    i: int,
) -> MonitorDeviceView
    recommends
        0 <= i < current.len(),
        first_index(device_ids(scanned), current[i].id) is Some,
{
    match first_index(device_ids(scanned), current[i].id) {
        Some(j) => refreshed(current[i], scanned[j]),
        None => current[i],
    }
}

/// The device list after a scan. Where the set of displays changed, the scan
/// replaces the list as a whole. Where it did not, each display of the list
/// stays in its place and is refreshed from the first display of the scan
/// that has its id.
pub open spec fn reconciled(current: Seq<MonitorDeviceView>, scanned: Seq<MonitorDeviceView>)
    -> Seq<MonitorDeviceView> {
    if topology_changed(current, scanned) {
        scanned
    } else {
        Seq::new(current.len(), |i: int| reconciled_at(current, scanned, i))
    }
}

/// A scan that shows the displays of the list again leaves every handle of
/// the list in place, and a well-formed list well-formed.
pub proof fn lemma_reconciled_keeps_handles(
    current: Seq<MonitorDeviceView>,
    scanned: Seq<MonitorDeviceView>,
)
    requires
        !topology_changed(current, scanned),
    ensures
        reconciled(current, scanned).len() == current.len(),
        forall|i: int|
            0 <= i < current.len() ==> {
                let after = #[trigger] reconciled(current, scanned)[i];
                &&& after.id == current[i].id
                &&& after.display_handle == current[i].display_handle
                &&& after.physical_monitor == current[i].physical_monitor
                &&& after.output_technology == current[i].output_technology
                &&& (current[i].well_formed() ==> after.well_formed())
                &&& exists|j: int|
                    0 <= j < scanned.len() && scanned[j].id == current[i].id
                        && after.device_name == scanned[j].device_name && after.friendly_name
                        == scanned[j].friendly_name
            },
{
    assert forall|i: int| 0 <= i < current.len() implies {
        let after = #[trigger] reconciled(current, scanned)[i];
        exists|j: int|
            0 <= j < scanned.len() && scanned[j].id == current[i].id && after.device_name
                == scanned[j].device_name && after.friendly_name == scanned[j].friendly_name
    } by {
        let ids = device_ids(scanned);
        lemma_first_index_from(ids, current[i].id, 0);
        assert(first_index(ids, current[i].id) is Some);
        let j = first_index(ids, current[i].id).unwrap();
        assert(ids[j] == scanned[j].id);
    }
}

/// Taking a scan of well-formed displays into a well-formed list leaves the
/// list well-formed.
pub proof fn lemma_reconciled_well_formed(
    current: Seq<MonitorDeviceView>,
    scanned: Seq<MonitorDeviceView>,
)
    requires
        forall|i: int| 0 <= i < current.len() ==> (#[trigger] current[i]).well_formed(),
        forall|i: int| 0 <= i < scanned.len() ==> (#[trigger] scanned[i]).well_formed(),
    ensures
        forall|i: int|
            0 <= i < reconciled(current, scanned).len() ==> (#[trigger] reconciled(
                current,
                scanned,
            )[i]).well_formed(),
{
    if !topology_changed(current, scanned) {
        lemma_reconciled_keeps_handles(current, scanned);
    }
}

/// A scan of another size than the list, or one that lacks a display of the
/// list, replaces the list as a whole: nothing of the list is merged into it.
pub proof fn lemma_reconciled_replaces(
    current: Seq<MonitorDeviceView>,
    scanned: Seq<MonitorDeviceView>,
    i: int,
)
    requires
        current.len() != scanned.len() || (0 <= i < current.len() && forall|j: int|
            0 <= j < scanned.len() ==> scanned[j].id != current[i].id),
    ensures
        topology_changed(current, scanned),
        reconciled(current, scanned) == scanned,
{
    if current.len() == scanned.len() {
        let ids = device_ids(scanned);
        lemma_first_index_from(ids, current[i].id, 0);
        if first_index(ids, current[i].id) is Some {
            let j = first_index(ids, current[i].id).unwrap();
            assert(ids[j] == scanned[j].id);
        }
    }
}

fn position_of_id(devices: &Vec<MonitorDeviceImpl>, id: &String) -> (found: Option<usize>)
    ensures
        match found {
            Some(i) => first_index(device_ids(device_views(devices@)), id@) == Some(i as int) && i
                < devices@.len(),
            None => first_index(device_ids(device_views(devices@)), id@) is None,
        },
{
    let ghost keys = device_ids(device_views(devices@));
    let mut k: usize = 0;
    while k < devices.len()
        invariant
            k <= devices.len(),
            keys == device_ids(device_views(devices@)),
            first_index(keys, id@) == first_index_from(keys, id@, k as int),
        decreases devices.len() - k,
    {
        assert(keys[k as int] == devices@[k as int].id@);
        if devices[k].id == *id {
            return Some(k);
        }
        k = k + 1;
    }
    None
}

fn position_of_name(devices: &Vec<MonitorDeviceImpl>, device_name: &String) -> (found: Option<
    usize,
>)
    ensures
        match found {
            Some(i) => first_index(device_names(device_views(devices@)), device_name@) == Some(
                i as int,
            ) && i < devices@.len(),
            None => first_index(device_names(device_views(devices@)), device_name@) is None,
        },
{
    let ghost keys = device_names(device_views(devices@));
    let mut k: usize = 0;
    while k < devices.len()
        invariant
            k <= devices.len(),
            keys == device_names(device_views(devices@)),
            first_index(keys, device_name@) == first_index_from(keys, device_name@, k as int),
        decreases devices.len() - k,
    {
        assert(keys[k as int] == devices@[k as int].device_name@);
        if devices[k].device_name == *device_name {
            return Some(k);
        }
        k = k + 1;
    }
    None
}

/// Takes a scan of the attached displays into the device list, and says
/// whether the set of displays changed. A changed set replaces the list; an
/// unchanged one refreshes the names of the displays held and leaves their
/// handles alone, so that operations under way keep valid handles.
pub fn device_changes(current: &mut Vec<MonitorDeviceImpl>, scanned: Vec<MonitorDeviceImpl>) -> (changed:
    bool)
    ensures
        changed == topology_changed(device_views(old(current)@), device_views(scanned@)),
        device_views(final(current)@) == reconciled(
            device_views(old(current)@),
            device_views(scanned@),
        ),
{
    let ghost held = device_views(current@);
    let ghost seen = device_views(scanned@);
    if current.len() != scanned.len() {
        *current = scanned;
        return true;
    }
    let mut merged: Vec<MonitorDeviceImpl> = Vec::new();
    let mut i: usize = 0;
    while i < current.len()
        invariant
            i <= current.len(),
            *current == *old(current),
            held == device_views(current@),
            seen == device_views(scanned@),
            current.len() == scanned.len(),
            merged@.len() == i,
            forall|k: int|
                0 <= k < i ==> first_index(device_ids(seen), #[trigger] held[k].id) is Some,
            forall|k: int|
                0 <= k < i ==> (#[trigger] merged@[k])@ == reconciled_at(held, seen, k),
        decreases current.len() - i,
    {
        let device = &current[i];
        assert(held[i as int] == device@);
        match position_of_id(&scanned, &device.id) {
            None => {
                assert(first_index(device_ids(seen), held[i as int].id) is None);
                assert(topology_changed(held, seen));
                *current = scanned;
                return true;
            },
            Some(j) => {
                let fresh = &scanned[j];
                assert(seen[j as int] == fresh@);
                merged.push(
                    MonitorDeviceImpl::new(
                        device.id.clone(),
                        fresh.device_name.clone(),
                        fresh.friendly_name.clone(),
                        device.display_handle,
                        device.physical_monitor,
                        device.output_technology,
                    ),
                );
            },
        }
        i = i + 1;
    }
    assert(!topology_changed(held, seen));
    assert(device_views(merged@) =~= reconciled(held, seen));
    *current = merged;
    false
}

/// What is published of the displays from index 0 up to `upto`: one report
/// for each display whose reply gives a brightness, in the order of the
/// displays. A display whose reply gives none, or that has no reply, is left
/// out.
pub open spec fn reports(devices: Seq<MonitorDeviceView>, replies: Seq<BackendReply>, upto: int)
    -> Seq<MonitorInfoView>
    decreases upto,
{
    if upto <= 0 {
        Seq::<MonitorInfoView>::empty()
    } else {
        let before = reports(devices, replies, upto - 1);
        let device = devices[upto - 1];
        if upto - 1 < replies.len() && device.reading(replies[upto - 1]) is Ok {
            before.push(
                MonitorInfoView {
                    device_name: device.device_name,
                    name: device.friendly_name,
                    brightness: device.reading(replies[upto - 1])->Ok_0,
                },
            )
        } else {
            before
        }
    }
}

/// What is published of the displays, given for each the reply to its
/// brightness query at the same index. A display that cannot be read is left
/// out; it does not end the scan.
pub fn collect_infos(devices: &Vec<MonitorDeviceImpl>, replies: &Vec<BackendReply>) -> (infos: Vec<
    MonitorInfo,
>)
    ensures
        info_views(infos@) == reports(device_views(devices@), replies@, devices@.len() as int),
{
    let mut infos: Vec<MonitorInfo> = Vec::new();
    let mut i: usize = 0;
    assert(info_views(infos@) =~= Seq::<MonitorInfoView>::empty());
    while i < devices.len()
        invariant
            i <= devices.len(),
            info_views(infos@) == reports(device_views(devices@), replies@, i as int),
        decreases devices.len() - i,
    {
        let ghost before = info_views(infos@);
        assert(device_views(devices@)[i as int] == devices@[i as int]@);
        if i < replies.len() {
            match devices[i].info(&replies[i]) {
                Ok(info) => {
                    infos.push(info);
                    assert(info_views(infos@) =~= before.push(info@));
                },
                Err(_) => {},
            }
        }
        i = i + 1;
    }
    infos
}

/// Whether two lists of reports say the same.
pub fn same_infos(a: &Vec<MonitorInfo>, b: &Vec<MonitorInfo>) -> (same: bool)
    ensures
        same == (info_views(a@) == info_views(b@)),
{
    if a.len() != b.len() {
        assert(info_views(a@).len() != info_views(b@).len());
        return false;
    }
    let mut i: usize = 0;
    while i < a.len()
        invariant
            i <= a.len(),
            a.len() == b.len(),
            forall|k: int| 0 <= k < i ==> (#[trigger] a@[k])@ == b@[k]@,
        decreases a.len() - i,
    {
        let x = &a[i];
        let y = &b[i];
        if !(x.device_name == y.device_name && x.name == y.name && x.brightness == y.brightness) {
            assert(info_views(a@)[i as int] == x@);
            assert(info_views(b@)[i as int] == y@);
            return false;
        }
        i = i + 1;
    }
    assert(info_views(a@) =~= info_views(b@));
    true
}

/// Takes a fresh list of reports into the baseline, and says whether it is to
/// be published: it is where it differs from the baseline in content, and the
/// baseline then becomes the fresh list.
pub fn brightness_changes(last: &mut Vec<MonitorInfo>, current: Vec<MonitorInfo>) -> (publish:
    bool)
    ensures
        publish == (info_views(current@) != info_views(old(last)@)),
        info_views(final(last)@) == info_views(current@),
        !publish ==> *final(last) == *old(last),
{
    if same_infos(&current, last) {
        false
    } else {
        *last = current;
        true
    }
}

/// What a brightness command leads to. The display is the first of the list
/// with the device name given; without one the command fails and nothing is
/// done. A value from zero upwards is set on the hardware, whether or not the
/// overlay loop runs. A value below zero is sent to the overlay loop, and
/// fails where that loop is not running yet.
pub open spec fn commanded(
    devices: Seq<MonitorDeviceView>,
    device_name: Seq<char>,
    value: i32,
    overlay_ready: bool,
) -> Result<(int, SliderActionView), CommandError> {
    match first_index(device_names(devices), device_name) {
        None => Err(CommandError::DeviceNotFound),
        Some(i) => if value < 0 && !overlay_ready {
            Err(CommandError::OverlayChannelUnavailable)
        } else {
            Ok((i, devices[i].slider(value)))
        },
    }
}

/// Routes a brightness command (a device name and a slider position between
/// -100 and 100) to the display it names.
pub fn set_brightness(
    devices: &Vec<MonitorDeviceImpl>,
    device_name: &String,
    value: i32,
    overlay_ready: bool,
) -> (result: Result<Command, CommandError>)
    ensures
        match result {
            Ok(command) => commanded(device_views(devices@), device_name@, value, overlay_ready)
                == Ok::<(int, SliderActionView), CommandError>(
                (command.device as int, command.action@),
            ) && command.device < devices@.len(),
            Err(error) => commanded(device_views(devices@), device_name@, value, overlay_ready)
                == Err::<(int, SliderActionView), CommandError>(error),
        },
{
    match position_of_name(devices, device_name) {
        None => Err(CommandError::DeviceNotFound),
        Some(i) => {
            if value < 0 && !overlay_ready {
                Err(CommandError::OverlayChannelUnavailable)
            } else {
                assert(device_views(devices@)[i as int] == devices@[i as int]@);
                Ok(Command { device: i, action: devices[i].slider(value) })
            }
        },
    }
}

/// A command that names no display of the list fails with `DeviceNotFound`,
/// whatever its value and whether or not the overlay loop runs.
pub proof fn lemma_unknown_device_not_found(
    devices: Seq<MonitorDeviceView>,
    device_name: Seq<char>,
    value: i32,
    overlay_ready: bool,
)
    requires
        forall|i: int| 0 <= i < devices.len() ==> devices[i].device_name != device_name,
    ensures
        commanded(devices, device_name, value, overlay_ready) == Err::<
            (int, SliderActionView),
            CommandError,
        >(CommandError::DeviceNotFound),
{
    let names = device_names(devices);
    lemma_first_index_from(names, device_name, 0);
    if first_index(names, device_name) is Some {
        let i = first_index(names, device_name).unwrap();
        assert(names[i] == devices[i].device_name);
    }
}

/// A command for a display of the list never leads to a hardware write and an
/// overlay request at once: from zero upwards it is a hardware write of that
/// very percentage, below zero it is an overlay request for that display.
pub proof fn lemma_command_paths_exclusive(
    devices: Seq<MonitorDeviceView>,
    device_name: Seq<char>,
    value: i32,
    overlay_ready: bool,
)
    requires
        commanded(devices, device_name, value, overlay_ready) is Ok,
    ensures
        ({
            let (i, action) = commanded(devices, device_name, value, overlay_ready)->Ok_0;
            &&& 0 <= i < devices.len()
            &&& devices[i].device_name == device_name
            &&& value >= 0 ==> action == SliderActionView::Hardware(value as u32)
            &&& value < 0 ==> action is Dim && action->device_name == device_name
        }),
{
    let names = device_names(devices);
    lemma_first_index_from(names, device_name, 0);
    let i = first_index(names, device_name).unwrap();
    assert(names[i] == devices[i].device_name);
}

} // verus!
