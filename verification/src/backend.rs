//! Types the display backend exposes to the rest of the compositor:
//! connector identities, monitor descriptions and the events a connector
//! reports.

use vstd::prelude::*;

use crate::drm::{ConnectorType, DrmModeInfo};

verus! {

/// Compositor-level id of a connector, unique across devices.
#[derive(Copy, Clone, Debug, PartialEq, Eq, Structural, Hash)]
pub struct ConnectorId(pub u64);

/// Stable kernel identity of a connector: its type and the instance index
/// among connectors of that type.
#[derive(Copy, Clone, Debug, PartialEq, Eq, Structural)]
pub struct ConnectorKernelId {
    pub ty: ConnectorType,
    pub idx: u32,
}

/// Handle of a task spawned on the cooperative executor outside this crate.
#[derive(Copy, Clone, Debug, PartialEq, Eq, Structural, Hash)]
pub struct TaskHandle(pub u64);

/// A display mode as the compositor sees it.
#[derive(Copy, Clone, Debug, PartialEq, Eq, Structural)]
pub struct Mode {
    pub width: i32,
    pub height: i32,
    pub refresh_rate_millihz: u32,
}

/// Identity and capabilities of a connected monitor.
#[derive(Clone, Debug)]
pub struct MonitorInfo {
    pub modes: Vec<Mode>,
    pub manufacturer: String,
    pub product: String,
    pub serial_number: String,
    pub initial_mode: Mode,
    pub width_mm: i32,
    pub height_mm: i32,
}

/// What a connector reports to its listener.  A hardware-cursor report
/// carries the generation of the advertised cursor object, or nothing when
/// the output has no cursor plane.
#[derive(Clone, Debug)]
pub enum ConnectorEvent {
    Connected(MonitorInfo),
    HardwareCursor(Option<u64>),
    Disconnected,
    Removed,
}

/// What a device reports to the compositor.
#[derive(Copy, Clone, Debug, PartialEq, Eq, Structural)]
pub enum BackendEvent {
    NewDrmDevice(crate::buffer::DrmDeviceId),
    NewConnector(ConnectorId),
}

/// The compositor's record of one connector: its handle, the task that
/// drives it, whether it announced a monitor, and its name.
#[derive(Clone, Debug)]
pub struct ConnectorData {
    pub connector: ConnectorId,
    pub handler: Option<TaskHandle>,
    pub connected: bool,
    pub name: String,
}

/// The compositor's record of one live output: its connector, the monitor
/// behind it, and the output node of the window tree.
#[derive(Clone, Debug)]
pub struct OutputData {
    pub connector: ConnectorId,
    pub monitor_info: MonitorInfo,
    pub node: u64,
}

/// The compositor's view of one timing: the visible size and the refresh
/// rate.
pub open spec fn spec_backend_mode(m: DrmModeInfo) -> Mode {
    Mode {
        width: m.hdisplay as i32,
        height: m.vdisplay as i32,
        refresh_rate_millihz: m.spec_refresh_rate_millihz() as u32,
    }
}

impl DrmModeInfo {
    /// The compositor's view of this timing: the visible size and the
    /// refresh rate.
    pub fn to_backend(&self) -> (r: Mode)
        requires
            self.htotal > 0,
            self.vtotal > 0,
        ensures
            r == spec_backend_mode(*self),
            r.width == self.hdisplay,
            r.height == self.vdisplay,
            r.refresh_rate_millihz == self.spec_refresh_rate_millihz() as u32,
    {
        Mode {
            width: self.hdisplay as i32,
            height: self.vdisplay as i32,
            refresh_rate_millihz: self.refresh_rate_millihz(),
        }
    }
}

} // verus!
