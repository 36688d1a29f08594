//! The displays that are known, and how a brightness request reaches each of
//! them: a firmware interface for internal panels, DDC/CI for external monitors.

use vstd::prelude::*;
use crate::brightness::{
    nearest_level, DdcciBrightnessValues, DisplayBrightness, IoctlSupportedBrightnessLevels,
    DISPLAYPOLICY_AC, DISPLAYPOLICY_BOTH, DISPLAYPOLICY_DC, ioctl_query_display_brightness,
    ioctl_set_display_brightness,
};
use crate::overlay::{alpha_for, overlay_alpha, Overlay};

verus! {

/// Output technology of a panel that is built into the machine.
pub const DISPLAYCONFIG_OUTPUT_TECHNOLOGY_INTERNAL: i32 = -2147483648;

/// Output technology of a panel on an LVDS connector.
pub const DISPLAYCONFIG_OUTPUT_TECHNOLOGY_LVDS: i32 = 6;

/// Output technology of a panel on an embedded DisplayPort.
pub const DISPLAYCONFIG_OUTPUT_TECHNOLOGY_DISPLAYPORT_EMBEDDED: i32 = 11;

/// State flag of a display device that is part of the desktop.
pub const DISPLAY_DEVICE_ACTIVE: u32 = 1;

/// Whether every bit of `flag` is set in `t`.
pub fn flag_set(t: u32, flag: u32) -> (set: bool)
    ensures
        set == (t & flag == flag),
{
    t & flag == flag
}

/// A raw handle that stands for no resource: null, or the native sentinel.
pub open spec fn raw_handle_invalid(raw: isize) -> bool {
    raw == 0 || raw == -1
}

/// An output technology that marks a panel of the machine itself.
pub open spec fn internal_technology(output_technology: i32) -> bool {
    output_technology == DISPLAYCONFIG_OUTPUT_TECHNOLOGY_INTERNAL || output_technology
        == DISPLAYCONFIG_OUTPUT_TECHNOLOGY_LVDS || output_technology
        == DISPLAYCONFIG_OUTPUT_TECHNOLOGY_DISPLAYPORT_EMBEDDED
}

/// Computes `internal_technology`.
pub fn is_internal_technology(output_technology: i32) -> (internal: bool)
    ensures
        internal == internal_technology(output_technology),
{
    output_technology == DISPLAYCONFIG_OUTPUT_TECHNOLOGY_INTERNAL || output_technology
        == DISPLAYCONFIG_OUTPUT_TECHNOLOGY_LVDS || output_technology
        == DISPLAYCONFIG_OUTPUT_TECHNOLOGY_DISPLAYPORT_EMBEDDED
}

/// The display handle of an internal panel, as its raw value. It is closed
/// with the native handle-close call.
#[derive(Clone, Copy, Debug, PartialEq, Eq, Structural)]
pub struct SafeDisplayHandle(pub isize);

/// The physical-monitor handle of an external monitor, as its raw value. It is
/// released with the native physical-monitor-destroy call.
#[derive(Clone, Copy, Debug, PartialEq, Eq, Structural)]
pub struct SafePhysicalMonitor(pub isize);

impl SafeDisplayHandle {
    /// The handle that stands for no display.
    pub fn null() -> (handle: Self)
        ensures
            handle.0 == 0,
    {
        SafeDisplayHandle(0)
    }

    /// Whether the handle stands for no resource.
    pub fn is_invalid(&self) -> (invalid: bool)
        ensures
            invalid == raw_handle_invalid(self.0),
    {
        self.0 == 0 || self.0 == -1
    }

    /// The raw handle to close when the last owner lets go: the handle itself
    /// if it is valid, and nothing if it is not, since an invalid handle must
    /// never be closed.
    pub fn release(&self) -> (raw: Option<isize>)
        ensures
            raw == if raw_handle_invalid(self.0) {
                None
            } else {
                Some(self.0)
            },
    {
        if self.is_invalid() {
            None
        } else {
            Some(self.0)
        }
    }
}

impl SafePhysicalMonitor {
    /// The handle that stands for no monitor.
    pub fn null() -> (handle: Self)
        ensures
            handle.0 == 0,
    {
        SafePhysicalMonitor(0)
    }

    /// Whether the handle stands for no resource.
    pub fn is_invalid(&self) -> (invalid: bool)
        ensures
            invalid == raw_handle_invalid(self.0),
    {
        self.0 == 0 || self.0 == -1
    }

    /// The raw handle to destroy when the last owner lets go: the handle itself
    /// if it is valid, and nothing if it is not, since an invalid handle must
    /// never be destroyed.
    pub fn release(&self) -> (raw: Option<isize>)
        ensures
            raw == if raw_handle_invalid(self.0) {
                None
            } else {
                Some(self.0)
            },
    {
        if self.is_invalid() {
            None
        } else {
            Some(self.0)
        }
    }
}

/// One display that is currently known.
#[derive(Debug, PartialEq, Eq)]
pub struct MonitorDeviceImpl {
    /// The device path: stable for a connection point, and the key by which
    /// two scans are compared.
    pub id: String,
    /// The logical device name, the key of overlay requests.
    pub device_name: String,
    /// The name shown to the user.
    pub friendly_name: String,
    /// The handle of the firmware backend; invalid for an external monitor.
    pub display_handle: SafeDisplayHandle,
    /// The handle of the DDC/CI backend; invalid for an internal panel.
    pub physical_monitor: SafePhysicalMonitor,
    /// The kind of connection, which alone selects the backend.
    pub output_technology: i32,
}

/// What a `MonitorDeviceImpl` stands for.
pub struct MonitorDeviceView {
    pub id: Seq<char>,
    pub device_name: Seq<char>,
    pub friendly_name: Seq<char>,
    pub display_handle: isize,
    pub physical_monitor: isize,
    pub output_technology: i32,
}

impl View for MonitorDeviceImpl {
    type V = MonitorDeviceView;

    open spec fn view(&self) -> MonitorDeviceView {
        MonitorDeviceView {
            id: self.id@,
            device_name: self.device_name@,
            friendly_name: self.friendly_name@,
            display_handle: self.display_handle.0,
            physical_monitor: self.physical_monitor.0,
            output_technology: self.output_technology,
        }
    }
}

impl MonitorDeviceView {
    /// A valid display handle belongs to an internal panel only, and a valid
    /// physical-monitor handle to an external monitor only.
    pub open spec fn well_formed(&self) -> bool {
        &&& !raw_handle_invalid(self.display_handle) ==> internal_technology(
            self.output_technology,
        )
        &&& !raw_handle_invalid(self.physical_monitor) ==> !internal_technology(
            self.output_technology,
        )
    }
}

impl Clone for MonitorDeviceImpl {
    fn clone(&self) -> (copy: Self)
        ensures
            copy@ == self@,
    {
        MonitorDeviceImpl {
            id: self.id.clone(),
            device_name: self.device_name.clone(),
            friendly_name: self.friendly_name.clone(),
            display_handle: self.display_handle,
            physical_monitor: self.physical_monitor,
            output_technology: self.output_technology,
        }
    }
}

/// What observers are told of a display.
#[derive(Debug, PartialEq, Eq)]
pub struct MonitorInfo {
    /// The logical device name.
    pub device_name: String,
    /// The name shown to the user.
    pub name: String,
    /// The current brightness, as a percentage.
    pub brightness: u32,
}

/// What a `MonitorInfo` stands for.
pub struct MonitorInfoView {
    pub device_name: Seq<char>,
    pub name: Seq<char>,
    pub brightness: u32,
}

impl View for MonitorInfo {
    type V = MonitorInfoView;

    open spec fn view(&self) -> MonitorInfoView {
        MonitorInfoView {
            device_name: self.device_name@,
            name: self.name@,
            brightness: self.brightness,
        }
    }
}

impl Clone for MonitorInfo {
    fn clone(&self) -> (copy: Self)
        ensures
            copy@ == self@,
    {
        MonitorInfo {
            device_name: self.device_name.clone(),
            name: self.name.clone(),
            brightness: self.brightness,
        }
    }
}

/// The native read that a brightness operation starts with.
#[derive(Debug, Clone, Copy, PartialEq, Eq)]
pub enum BackendQuery {
    /// Ask the firmware for the current brightness record.
    IoctlDisplayBrightness(SafeDisplayHandle),
    /// Ask the firmware for the levels it accepts.
    IoctlSupportedBrightness(SafeDisplayHandle),
    /// Read minimum, current value and maximum over DDC/CI.
    DdcciBrightness(SafePhysicalMonitor),
}

/// What the native side answered to a `BackendQuery`.
#[derive(Debug, PartialEq, Eq)]
pub enum BackendReply {
    /// The native call reported a failure.
    Failed,
    /// The firmware's brightness record.
    DisplayBrightness(DisplayBrightness),
    /// The levels that the firmware accepts.
    SupportedLevels(IoctlSupportedBrightnessLevels),
    /// A DDC/CI reading.
    Ddcci(DdcciBrightnessValues),
}

/// The native write that sets a brightness.
#[derive(Debug, Clone, Copy, PartialEq, Eq)]
pub enum BackendWrite {
    /// Hand `request` to the firmware of the panel behind the handle.
    Ioctl { display: SafeDisplayHandle, request: DisplayBrightness },
    /// Write the raw value `raw` to the monitor behind the handle.
    Ddcci { monitor: SafePhysicalMonitor, raw: u32 },
}

/// Why a brightness operation on a device failed.
#[derive(Debug, Clone, Copy, PartialEq, Eq, Structural)]
pub enum BackendFailure {
    /// The native call reported a failure.
    NativeCall,
    /// The firmware answered with a policy byte that is not understood.
    UnknownPolicy,
    /// The monitor reported a range that no percentage can be taken of.
    UnsupportedRange,
    /// The percentage asked for is above 100.
    PercentageOutOfRange,
    /// The answer does not belong to the query of this device's backend.
    UnexpectedReply,
}

/// A brightness operation failed on one device.
#[derive(Debug, PartialEq, Eq)]
pub struct BackendOperationFailed {
    /// The friendly name of the device.
    pub device: String,
    /// What went wrong.
    pub failure: BackendFailure,
}

/// What a slider position asks for. The two are exclusive: a position is
/// either written to the hardware or sent to the overlay.
#[derive(Debug, PartialEq, Eq)]
pub enum SliderAction {
    /// Set the hardware brightness to this percentage.
    Hardware(u32),
    /// Send this request to the overlay loop.
    Dim(Overlay),
}

/// What a `SliderAction` stands for.
pub enum SliderActionView {
    Hardware(u32),
    Dim { level: u8, device_name: Seq<char> },
}

impl View for SliderAction {
    type V = SliderActionView;

    open spec fn view(&self) -> SliderActionView {
        match *self {
            SliderAction::Hardware(percentage) => SliderActionView::Hardware(percentage),
            SliderAction::Dim(overlay) => SliderActionView::Dim {
                level: overlay.level,
                device_name: overlay.device_name@,
            },
        }
    }
}

impl MonitorDeviceView {
    /// Whether the display is a panel of the machine itself.
    pub open spec fn is_internal(&self) -> bool {
        internal_technology(self.output_technology)
    }

    /// The percentage that a reply to the brightness query means, or why it
    /// means none.
    pub open spec fn reading(&self, reply: BackendReply) -> Result<u32, BackendFailure> {
        if self.is_internal() {
            match reply {
                BackendReply::Failed => Err(BackendFailure::NativeCall),
                BackendReply::DisplayBrightness(record) => if record.policy == DISPLAYPOLICY_AC {
                    Ok(record.ac as u32)
                } else if record.policy == DISPLAYPOLICY_DC {
                    Ok(record.dc as u32)
                } else {
                    Err(BackendFailure::UnknownPolicy)
                },
                _ => Err(BackendFailure::UnexpectedReply),
            }
        } else {
            match reply {
                BackendReply::Failed => Err(BackendFailure::NativeCall),
                BackendReply::Ddcci(values) => if values.well_formed() {
                    Ok(values.percentage() as u32)
                } else {
                    Err(BackendFailure::UnsupportedRange)
                },
                _ => Err(BackendFailure::UnexpectedReply),
            }
        }
    }

    /// The write that sets `percentage`, given the reply to the query that
    /// precedes a write, or why there is none.
    pub open spec fn write_for(&self, percentage: u32, reply: BackendReply) -> Result<
        BackendWrite,
        BackendFailure,
    > {
        if self.is_internal() {
            match reply {
                BackendReply::Failed => Err(BackendFailure::NativeCall),
                BackendReply::SupportedLevels(levels) => {
                    let level = nearest_level(levels@, percentage);
                    Ok(
                        BackendWrite::Ioctl {
                            display: SafeDisplayHandle(self.display_handle),
                            request: DisplayBrightness {
                                policy: DISPLAYPOLICY_BOTH,
                                ac: level,
                                dc: level,
                            },
                        },
                    )
                },
                _ => Err(BackendFailure::UnexpectedReply),
            }
        } else {
            match reply {
                BackendReply::Failed => Err(BackendFailure::NativeCall),
                BackendReply::Ddcci(values) => if values.min >= values.max {
                    Err(BackendFailure::UnsupportedRange)
                } else if percentage > 100 {
                    Err(BackendFailure::PercentageOutOfRange)
                } else {
                    Ok(
                        BackendWrite::Ddcci {
                            monitor: SafePhysicalMonitor(self.physical_monitor),
                            raw: values.raw_at(percentage as int) as u32,
                        },
                    )
                },
                _ => Err(BackendFailure::UnexpectedReply),
            }
        }
    }

    /// What a slider position asks of this display: from zero upwards the
    /// hardware is set to it; below zero the overlay of this display gets
    /// the opacity that stands for it.
    pub open spec fn slider(&self, value: i32) -> SliderActionView {
        if value >= 0 {
            SliderActionView::Hardware(value as u32)
        } else {
            SliderActionView::Dim {
                level: overlay_alpha(value as int) as u8,
                device_name: self.device_name,
            }
        }
    }
}

/// What a list of displays stands for.
pub open spec fn device_views(devices: Seq<MonitorDeviceImpl>) -> Seq<MonitorDeviceView> {
    devices.map_values(|device: MonitorDeviceImpl| device@)
}

/// What a list of display reports stands for.
pub open spec fn info_views(infos: Seq<MonitorInfo>) -> Seq<MonitorInfoView> {
    infos.map_values(|info: MonitorInfo| info@)
}

/// Whether `result` is the outcome `expected` on the device named `device`:
/// the same value, or the same failure under that device's name.
pub open spec fn is_outcome<T>(
    result: Result<T, BackendOperationFailed>,
    expected: Result<T, BackendFailure>,
    device: Seq<char>,
) -> bool {
    match result {
        Ok(value) => expected == Ok::<T, BackendFailure>(value),
        Err(error) => expected == Err::<T, BackendFailure>(error.failure) && error.device@
            == device,
    }
}

impl MonitorDeviceImpl {
    /// A display made of the given parts.
    pub fn new(
        id: String,
        device_name: String,
        friendly_name: String,
        display_handle: SafeDisplayHandle,
        physical_monitor: SafePhysicalMonitor,
        output_technology: i32,
    ) -> (device: Self)
        ensures
            device.id == id,
            device.device_name == device_name,
            device.friendly_name == friendly_name,
            device.display_handle == display_handle,
            device.physical_monitor == physical_monitor,
            device.output_technology == output_technology,
    {
        MonitorDeviceImpl {
            id,
            device_name,
            friendly_name,
            display_handle,
            physical_monitor,
            output_technology,
        }
    }

    /// Whether the display is a panel of the machine itself.
    pub fn is_internal(&self) -> (internal: bool)
        ensures
            internal == self@.is_internal(),
    {
        is_internal_technology(self.output_technology)
    }

    fn failed<T>(&self, failure: BackendFailure) -> (result: Result<T, BackendOperationFailed>)
        ensures
            is_outcome(result, Err(failure), self@.friendly_name),
    {
        Err(BackendOperationFailed { device: self.friendly_name.clone(), failure })
    }

    /// The native read that tells the current brightness: the firmware's
    /// brightness record for an internal panel, a DDC/CI reading otherwise.
    pub fn get_query(&self) -> (query: BackendQuery)
        ensures
            query == if self@.is_internal() {
                BackendQuery::IoctlDisplayBrightness(self.display_handle)
            } else {
                BackendQuery::DdcciBrightness(self.physical_monitor)
            },
    {
        if self.is_internal() {
            BackendQuery::IoctlDisplayBrightness(self.display_handle)
        } else {
            BackendQuery::DdcciBrightness(self.physical_monitor)
        }
    }

    /// The current brightness as a percentage, from the reply to `get_query`.
    pub fn get(&self, reply: &BackendReply) -> (result: Result<u32, BackendOperationFailed>)
        ensures
            is_outcome(result, self@.reading(*reply), self@.friendly_name),
    {
        if self.is_internal() {
            match reply {
                BackendReply::Failed => self.failed(BackendFailure::NativeCall),
                BackendReply::DisplayBrightness(record) => match ioctl_query_display_brightness(
                    record,
                ) {
                    Some(level) => Ok(level),
                    None => self.failed(BackendFailure::UnknownPolicy),
                },
                _ => self.failed(BackendFailure::UnexpectedReply),
            }
        } else {
            match reply {
                BackendReply::Failed => self.failed(BackendFailure::NativeCall),
                BackendReply::Ddcci(values) => match values.get_current_percentage() {
                    Some(percentage) => Ok(percentage),
                    None => self.failed(BackendFailure::UnsupportedRange),
                },
                _ => self.failed(BackendFailure::UnexpectedReply),
            }
        }
    }

    /// The native read that precedes a write: the supported levels of an
    /// internal panel, the current DDC/CI reading of an external monitor.
    pub fn set_query(&self) -> (query: BackendQuery)
        ensures
            query == if self@.is_internal() {
                BackendQuery::IoctlSupportedBrightness(self.display_handle)
            } else {
                BackendQuery::DdcciBrightness(self.physical_monitor)
            },
    {
        if self.is_internal() {
            BackendQuery::IoctlSupportedBrightness(self.display_handle)
        } else {
            BackendQuery::DdcciBrightness(self.physical_monitor)
        }
    }

    /// The native write that sets the brightness to `percentage`, from the
    /// reply to `set_query`. An internal panel gets the supported level
    /// nearest to `percentage`; an external monitor gets the raw value that
    /// stands at `percentage` of its range.
    pub fn set(&self, percentage: u32, reply: &BackendReply) -> (result: Result<
        BackendWrite,
        BackendOperationFailed,
    >)
        ensures
            is_outcome(result, self@.write_for(percentage, *reply), self@.friendly_name),
    {
        if self.is_internal() {
            match reply {
                BackendReply::Failed => self.failed(BackendFailure::NativeCall),
                BackendReply::SupportedLevels(levels) => {
                    let level = levels.get_nearest(percentage);
                    Ok(
                        BackendWrite::Ioctl {
                            display: self.display_handle,
                            request: ioctl_set_display_brightness(level),
                        },
                    )
                },
                _ => self.failed(BackendFailure::UnexpectedReply),
            }
        } else {
            match reply {
                BackendReply::Failed => self.failed(BackendFailure::NativeCall),
                BackendReply::Ddcci(values) => {
                    if values.min >= values.max {
                        self.failed(BackendFailure::UnsupportedRange)
                    } else {
                        match values.percentage_to_current(percentage) {
                            Some(raw) => Ok(
                                BackendWrite::Ddcci { monitor: self.physical_monitor, raw },
                            ),
                            None => self.failed(BackendFailure::PercentageOutOfRange),
                        }
                    }
                },
                _ => self.failed(BackendFailure::UnexpectedReply),
            }
        }
    }

    /// What observers are told of this display, from the reply to `get_query`.
    pub fn info(&self, reply: &BackendReply) -> (result: Result<
        MonitorInfo,
        BackendOperationFailed,
    >)
        ensures
            match result {
                Ok(info) => self@.reading(*reply) == Ok::<u32, BackendFailure>(info.brightness)
                    && info.device_name@ == self@.device_name && info.name@
                    == self@.friendly_name,
                Err(error) => self@.reading(*reply) == Err::<u32, BackendFailure>(error.failure)
                    && error.device@ == self@.friendly_name,
            },
    {
        match self.get(reply) {
            Ok(brightness) => Ok(
                MonitorInfo {
                    device_name: self.device_name.clone(),
                    name: self.friendly_name.clone(),
                    brightness,
                },
            ),
            Err(error) => Err(error),
        }
    }

    /// What a slider position between -100 and 100 asks of this display.
    pub fn slider(&self, value: i32) -> (action: SliderAction)
        ensures
            action@ == self@.slider(value),
    {
        if value >= 0 {
            SliderAction::Hardware(value as u32)
        } else {
            SliderAction::Dim(
                Overlay { level: alpha_for(value), device_name: self.device_name.clone() },
            )
        }
    }
}

} // verus!
