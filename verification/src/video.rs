//! The display device model: planes, crtcs, encoders, connectors and the
//! hardware-cursor object, together with their small state transitions.
//!
//! Ownership follows one rule: the device owns its objects in vectors, and
//! every cross reference is a typed id resolved through the owning vector.

use vstd::prelude::*;

use crate::backend::{ConnectorEvent, ConnectorId, ConnectorKernelId, TaskHandle};
use crate::buffer::{DrmDeviceId, GfxHandle, RenderBufferPair};
use crate::drm::{
    ConnectorStatus, ConnectorType, DrmBlob, DrmConnector, DrmCrtc, DrmEncoder, DrmModeInfo,
    DrmPlane, DrmProperty,
};
use crate::props::{DrmError, MutableProperty};

verus! {

/// Scanout role of a plane.
#[derive(Debug, Copy, Clone, PartialEq, Eq, Structural)]
pub enum PlaneType {
    Overlay,
    Primary,
    Cursor,
}

/// One scanout plane and the cached values of its mutable properties.
#[derive(Clone, Debug)]
pub struct MetalPlane {
    pub id: DrmPlane,
    pub ty: PlaneType,
    /// Bitmask over crtc indices this plane can scan out on.
    pub possible_crtcs: u32,
    /// The fourcc codes the plane supports, filtered to known formats.
    pub formats: Vec<u32>,
    /// Claimed by a connector during the current allocation pass.
    pub assigned: bool,
    pub crtc_id: MutableProperty<DrmCrtc>,
    pub crtc_x: MutableProperty<i32>,
    pub crtc_y: MutableProperty<i32>,
    pub crtc_w: MutableProperty<i32>,
    pub crtc_h: MutableProperty<i32>,
    pub src_x: MutableProperty<u32>,
    pub src_y: MutableProperty<u32>,
    pub src_w: MutableProperty<u32>,
    pub src_h: MutableProperty<u32>,
    pub in_fence_fd: DrmProperty,
    pub fb_id: DrmProperty,
}

impl MetalPlane {
    /// True iff the plane supports the format with the given fourcc code.
    pub fn supports_format(&self, drm: u32) -> (r: bool)
        ensures
            r == self.formats@.contains(drm),
    {
        let n = self.formats.len();
        for i in 0..n
            invariant
                n == self.formats@.len(),
                forall|j: int| 0 <= j < i ==> self.formats@[j] != drm,
        {
            if self.formats[i] == drm {
                return true;
            }
        }
        false
    }
}

/// One display pipeline: a timing generator and its cached state.
#[derive(Clone, Debug)]
pub struct MetalCrtc {
    pub id: DrmCrtc,
    /// Stable index of the crtc, the bit position in `possible_crtcs` masks.
    pub idx: usize,
    /// Ids of the planes that can scan out on this crtc.
    pub possible_planes: Vec<DrmPlane>,
    /// The connector currently driving this crtc, if any.
    pub connector: Option<DrmConnector>,
    pub active: MutableProperty<bool>,
    pub mode_id: MutableProperty<DrmBlob>,
    pub out_fence_ptr: DrmProperty,
    /// The mode blob this backend created for the crtc, if any.
    pub mode_blob: Option<DrmBlob>,
    /// What the crtc's current mode blob decodes to, as last refreshed.
    pub current_mode: Option<DrmModeInfo>,
}

/// One encoder: the crtcs it can reach.
#[derive(Clone, Debug)]
pub struct MetalEncoder {
    pub id: DrmEncoder,
    pub crtcs: Vec<DrmCrtc>,
}

/// The render context of one device: who owns it and the GPU context
/// handle, which lives outside the crate.
#[derive(Copy, Clone, Debug, PartialEq, Eq, Structural)]
pub struct MetalRenderContext {
    pub dev_id: DrmDeviceId,
    pub gfx: GfxHandle,
}

/// Holder of the task that drains the device's kernel events.
#[derive(Clone, Debug, PartialEq, Eq, Structural)]
pub struct HandleEvents {
    pub handle_events: Option<TaskHandle>,
}

/// The tasks spawned for one connector.
#[derive(Clone, Debug, PartialEq, Eq, Structural)]
pub struct ConnectorFutures {
    pub present: TaskHandle,
}

/// Listener state of a connector: whether a change callback is registered
/// and whether an invocation of it is owed.
#[derive(Clone, Debug, PartialEq, Eq, Structural)]
pub struct OnChange {
    pub armed: bool,
    pub pending: bool,
}

/// Everything a connector reports about itself and the attached monitor.
/// Replaced wholesale on every hotplug or change event.
#[derive(Clone, Debug)]
pub struct ConnectorDisplayData {
    pub crtc_id: MutableProperty<DrmCrtc>,
    /// The crtcs reachable through any of the connector's encoders.
    pub crtcs: Vec<DrmCrtc>,
    pub modes: Vec<DrmModeInfo>,
    /// The mode the backend wants on this connector.
    pub mode: Option<DrmModeInfo>,
    /// Frame time in nanoseconds of the chosen mode, zero without a mode.
    pub refresh: u32,
    pub monitor_manufacturer: String,
    pub monitor_name: String,
    pub monitor_serial_number: String,
    pub connection: ConnectorStatus,
    pub mm_width: u32,
    pub mm_height: u32,
    pub subpixel: u32,
    pub connector_type: ConnectorType,
    pub connector_type_id: u32,
}

/// Two display-data snapshots describe the same monitor exactly when
/// manufacturer, product name and serial number all match.
pub open spec fn spec_same_monitor(a: &ConnectorDisplayData, b: &ConnectorDisplayData) -> bool {
    &&& a.monitor_manufacturer@ == b.monitor_manufacturer@
    &&& a.monitor_name@ == b.monitor_name@
    &&& a.monitor_serial_number@ == b.monitor_serial_number@
}

impl ConnectorDisplayData {
    /// Monitor identity comparison: manufacturer, product name and serial
    /// number.
    pub fn is_same_monitor(&self, other: &ConnectorDisplayData) -> (r: bool)
        ensures
            r == spec_same_monitor(self, other),
    {
        self.monitor_manufacturer == other.monitor_manufacturer && self.monitor_name
            == other.monitor_name && self.monitor_serial_number == other.monitor_serial_number
    }
}

/// One connector of a device, with its presentation state.
#[derive(Clone, Debug)]
pub struct MetalConnector {
    pub id: DrmConnector,
    pub connector_id: ConnectorId,
    /// Events not yet drained by the listener, oldest first.
    pub events: Vec<ConnectorEvent>,
    /// The primary-plane buffer pair, once allocated.
    pub buffers: Option<RenderBufferPair>,
    /// Index of the buffer the next damage pass renders into.
    pub next_buffer: u8,
    pub enabled: bool,
    /// No commit is outstanding; presenting is allowed.
    pub can_present: bool,
    pub has_damage: bool,
    pub cursor_changed: bool,
    pub display: ConnectorDisplayData,
    /// A Connected event has been emitted and not yet retracted.
    pub connect_sent: bool,
    pub primary_plane: Option<DrmPlane>,
    pub cursor_plane: Option<DrmPlane>,
    pub crtc: Option<DrmCrtc>,
    pub on_change: OnChange,
    /// The present task has been woken and will run `present`.
    pub present_scheduled: bool,
    /// Generation counter of the advertised hardware-cursor object.
    pub cursor_generation: u64,
    pub cursor_x: i32,
    pub cursor_y: i32,
    pub cursor_enabled: bool,
    pub cursor_buffers: Option<RenderBufferPair>,
    pub cursor_front_buffer: u8,
    pub cursor_swap_buffer: bool,
}

impl MetalConnector {
    /// Sane index state of the double buffers.
    pub open spec fn wf(&self) -> bool {
        &&& self.next_buffer < 2
        &&& self.cursor_front_buffer < 2
    }

    /// True iff the connector is enabled, physically connected and holds a
    /// primary plane.
    pub fn connected(&self) -> (r: bool)
        ensures
            r == (self.enabled && self.display.connection == ConnectorStatus::Connected
                && self.primary_plane is Some),
    {
        self.enabled && matches!(self.display.connection, ConnectorStatus::Connected)
            && self.primary_plane.is_some()
    }

    /// The stable kernel identity of the connector.
    pub fn kernel_id(&self) -> (r: ConnectorKernelId)
        ensures
            r.ty == self.display.connector_type,
            r.idx == self.display.connector_type_id,
    {
        ConnectorKernelId { ty: self.display.connector_type, idx: self.display.connector_type_id }
    }

    /// Queues an event for the listener and owes it a callback if one is
    /// registered.
    pub fn send_event(&mut self, event: ConnectorEvent)
        ensures
            *final(self) == (MetalConnector {
                events: final(self).events,
                on_change: final(self).on_change,
                ..*old(self)
            }),
            final(self).events@ == old(self).events@.push(event),
            final(self).on_change.armed == old(self).on_change.armed,
            final(self).on_change.pending == (old(self).on_change.pending || old(
                self,
            ).on_change.armed),
    {
        self.events.push(event);
        if self.on_change.armed {
            self.on_change.pending = true;
        }
    }

    /// Hands the oldest queued event out.
    pub fn event(&mut self) -> (r: Option<ConnectorEvent>)
        ensures
            old(self).events@.len() == 0 ==> r is None && *final(self) == *old(self),
            old(self).events@.len() > 0 ==> {
                &&& r == Some(old(self).events@[0])
                &&& *final(self) == (MetalConnector { events: final(self).events, ..*old(self) })
                &&& final(self).events@ == old(self).events@.skip(1)
            },
    {
        if self.events.len() == 0 {
            return None;
        }
        let e = self.events.remove(0);
        proof {
            assert(self.events@ =~= old(self).events@.skip(1));
        }
        Some(e)
    }

    /// Registers the change callback.
    pub fn on_change(&mut self)
        ensures
            *final(self) == (MetalConnector { on_change: final(self).on_change, ..*old(self) }),
            final(self).on_change.armed,
            final(self).on_change.pending == old(self).on_change.pending,
    {
        self.on_change.armed = true;
    }

    /// Wakes the connector's present task.
    pub fn schedule_present(&mut self)
        ensures
            *final(self) == (MetalConnector { present_scheduled: true, ..*old(self) }),
    {
        self.present_scheduled = true;
    }

    /// Marks the output damaged and, if presenting is currently allowed,
    /// wakes the present task.
    pub fn damage(&mut self)
        ensures
            *final(self) == (MetalConnector {
                has_damage: true,
                present_scheduled: final(self).present_scheduled,
                ..*old(self)
            }),
            final(self).present_scheduled == (old(self).present_scheduled || old(
                self,
            ).can_present),
    {
        self.has_damage = true;
        if self.can_present {
            self.schedule_present();
        }
    }

    /// Enables or disables the connector.  Returns true exactly when the
    /// toggle changed the value and the connector is physically connected,
    /// in which case the caller must run a full device change pass.
    pub fn set_enabled(&mut self, enabled: bool) -> (change_needed: bool)
        ensures
            *final(self) == (MetalConnector { enabled, ..*old(self) }),
            change_needed == (old(self).enabled != enabled && old(self).display.connection
                == ConnectorStatus::Connected),
    {
        let toggled = self.enabled != enabled;
        self.enabled = enabled;
        toggled && matches!(self.display.connection, ConnectorStatus::Connected)
    }
}

/// The advertised hardware-cursor object of one connector, at one
/// generation.  Changes are staged here and applied to the connector by
/// `commit`, which a stale generation turns into a no-op.
#[derive(Clone, Debug)]
pub struct MetalHardwareCursor {
    pub generation: u64,
    pub cursor_swap_buffer: bool,
    pub cursor_enabled_pending: bool,
    pub cursor_x_pending: i32,
    pub cursor_y_pending: i32,
    pub have_changes: bool,
}

impl MetalHardwareCursor {
    /// Stages enabling or disabling the cursor.
    pub fn set_enabled(&mut self, enabled: bool)
        ensures
            *final(self) == (MetalHardwareCursor {
                cursor_enabled_pending: enabled,
                have_changes: final(self).have_changes,
                ..*old(self)
            }),
            final(self).have_changes == (old(self).have_changes || old(
                self,
            ).cursor_enabled_pending != enabled),
    {
        if self.cursor_enabled_pending != enabled {
            self.cursor_enabled_pending = enabled;
            self.have_changes = true;
        }
    }

    /// Stages a cursor position.
    pub fn set_position(&mut self, x: i32, y: i32)
        ensures
            *final(self) == (MetalHardwareCursor {
                cursor_x_pending: x,
                cursor_y_pending: y,
                have_changes: true,
                ..*old(self)
            }),
    {
        self.cursor_x_pending = x;
        self.cursor_y_pending = y;
        self.have_changes = true;
    }

    /// Requests a swap of the cursor's front buffer.
    pub fn swap_buffer(&mut self)
        ensures
            *final(self) == (MetalHardwareCursor {
                cursor_swap_buffer: true,
                have_changes: true,
                ..*old(self)
            }),
    {
        self.cursor_swap_buffer = true;
        self.have_changes = true;
    }

    /// The framebuffer to draw the next cursor image into: the back buffer
    /// of the connector's cursor pair.
    pub fn get_buffer(&self, conn: &MetalConnector, bufs: &RenderBufferPair) -> (r: GfxHandle)
        requires
            conn.wf(),
        ensures
            ({
                let back = (conn.cursor_front_buffer + 1) % 2;
                let buf = if back == 0 {
                    &bufs.b0
                } else {
                    &bufs.b1
                };
                r == if buf.render_fb is Some {
                    buf.render_fb->0
                } else {
                    buf.dev_fb
                }
            }),
    {
        let back = (conn.cursor_front_buffer + 1) % 2;
        bufs.get(back).render_fb()
    }

    /// Applies the staged cursor state to the connector.  A commit whose
    /// generation is not the connector's current cursor generation has no
    /// effect on the connector, and one without staged changes none either.
    pub fn commit(&mut self, conn: &mut MetalConnector)
        ensures
            old(self).generation != old(conn).cursor_generation ==> *final(conn) == *old(conn)
                && *final(self) == *old(self),
            old(self).generation == old(conn).cursor_generation && !old(self).have_changes
                ==> *final(conn) == *old(conn) && *final(self) == *old(self),
            old(self).generation == old(conn).cursor_generation && old(self).have_changes ==> {
                &&& *final(self) == (MetalHardwareCursor {
                    have_changes: false,
                    cursor_swap_buffer: false,
                    ..*old(self)
                })
                &&& *final(conn) == (MetalConnector {
                    cursor_enabled: old(self).cursor_enabled_pending,
                    cursor_x: old(self).cursor_x_pending,
                    cursor_y: old(self).cursor_y_pending,
                    cursor_swap_buffer: old(conn).cursor_swap_buffer || old(
                        self,
                    ).cursor_swap_buffer,
                    cursor_changed: true,
                    present_scheduled: old(conn).present_scheduled || old(conn).can_present,
                    ..*old(conn)
                })
            },
    {
        if self.generation != conn.cursor_generation {
            return ;
        }
        if !self.have_changes {
            return ;
        }
        self.have_changes = false;
        conn.cursor_enabled = self.cursor_enabled_pending;
        conn.cursor_x = self.cursor_x_pending;
        conn.cursor_y = self.cursor_y_pending;
        if self.cursor_swap_buffer {
            self.cursor_swap_buffer = false;
            conn.cursor_swap_buffer = true;
        }
        conn.cursor_changed = true;
        if conn.can_present {
            conn.schedule_present();
        }
    }

    /// The largest cursor image the device supports.
    pub fn max_size(&self, dev: &MetalDrmDevice) -> (r: (u64, u64))
        ensures
            r.0 == dev.cursor_width,
            r.1 == dev.cursor_height,
    {
        (dev.cursor_width, dev.cursor_height)
    }
}

/// A device waiting to be opened: its id and device node.
#[derive(Clone, Debug)]
pub struct PendingDrmDevice {
    pub id: DrmDeviceId,
    pub devnum: u64,
    pub devnode: String,
}

/// One opened display device: its enumerated hardware and device-wide
/// limits.
#[derive(Clone, Debug)]
pub struct MetalDrmDevice {
    pub id: DrmDeviceId,
    pub devnum: u64,
    pub devnode: String,
    pub crtcs: Vec<MetalCrtc>,
    pub encoders: Vec<MetalEncoder>,
    pub planes: Vec<MetalPlane>,
    pub min_width: u32,
    pub max_width: u32,
    pub min_height: u32,
    pub max_height: u32,
    pub cursor_width: u64,
    pub cursor_height: u64,
    pub handle_events: HandleEvents,
    /// The render context created on this device.
    pub ctx: MetalRenderContext,
    /// Source of fresh blob ids for modes this backend registers.
    pub next_blob_id: u32,
}

impl MetalDrmDevice {
    /// Index of the crtc with the given id.
    pub fn find_crtc(&self, id: DrmCrtc) -> (r: Option<usize>)
        ensures
            match r {
                Some(i) => i < self.crtcs@.len() && self.crtcs@[i as int].id == id,
                None => forall|j: int| 0 <= j < self.crtcs@.len() ==> self.crtcs@[j].id != id,
            },
    {
        let n = self.crtcs.len();
        for i in 0..n
            invariant
                n == self.crtcs@.len(),
                forall|j: int| 0 <= j < i ==> self.crtcs@[j].id != id,
        {
            if self.crtcs[i].id == id {
                return Some(i);
            }
        }
        None
    }

    /// Index of the plane with the given id.
    pub fn find_plane(&self, id: DrmPlane) -> (r: Option<usize>)
        ensures
            match r {
                Some(i) => i < self.planes@.len() && self.planes@[i as int].id == id,
                None => forall|j: int| 0 <= j < self.planes@.len() ==> self.planes@[j].id != id,
            },
    {
        let n = self.planes.len();
        for i in 0..n
            invariant
                n == self.planes@.len(),
                forall|j: int| 0 <= j < i ==> self.planes@[j].id != id,
        {
            if self.planes[i].id == id {
                return Some(i);
            }
        }
        None
    }
}

/// A device together with its connectors and their tasks.
#[derive(Clone, Debug)]
pub struct MetalDrmDeviceData {
    pub dev: MetalDrmDevice,
    pub connectors: Vec<MetalConnector>,
    /// One entry per connector, in the same order.
    pub futures: Vec<ConnectorFutures>,
    /// A change pass failed part way; a later resume must retry it.
    pub unprocessed_change: bool,
}

impl MetalDrmDeviceData {
    /// Index of the connector with the given id.
    pub fn find_connector(&self, id: DrmConnector) -> (r: Option<usize>)
        ensures
            match r {
                Some(i) => i < self.connectors@.len() && self.connectors@[i as int].id == id,
                None => forall|j: int|
                    0 <= j < self.connectors@.len() ==> self.connectors@[j].id != id,
            },
    {
        let n = self.connectors.len();
        for i in 0..n
            invariant
                n == self.connectors@.len(),
                forall|j: int| 0 <= j < i ==> self.connectors@[j].id != id,
        {
            if self.connectors[i].id == id {
                return Some(i);
            }
        }
        None
    }
}

/// Errors of the display backend.
#[derive(Clone, Debug)]
pub enum MetalError {
    /// The atomic-modesetting client capability could not be enabled.
    AtomicModesetting,
    /// A plane could not be inspected at device-open time.
    CreatePlane(DrmError),
    /// A crtc could not be inspected at device-open time.
    CreateCrtc(DrmError),
    /// An encoder could not be inspected at device-open time.
    CreateEncoder(DrmError),
    /// A connector could not be inspected.
    CreateConnector(DrmError),
    /// Refreshing the property caches failed.
    UpdateProperties(DrmError),
    /// The modeset commit failed.
    Modeset,
    /// No crtc is free for a connector that needs one.
    NoCrtcForConnector,
    /// A connector that needs configuration has no mode to set.
    NoModeForConnector,
    /// No unclaimed primary plane supports the opaque format on the
    /// connector's crtc.
    NoPrimaryPlaneForConnector,
    /// A scanout buffer could not be allocated.
    ScanoutBuffer,
}

/// The objects one reconfiguration pass must leave untouched.
#[derive(Clone, Debug)]
pub struct Preserve {
    pub connectors: Vec<DrmConnector>,
    pub crtcs: Vec<DrmCrtc>,
    pub planes: Vec<DrmPlane>,
}

impl Preserve {
    /// An empty preserve set.
    pub fn new() -> (r: Preserve)
        ensures
            r.connectors@.len() == 0,
            r.crtcs@.len() == 0,
            r.planes@.len() == 0,
    {
        Preserve { connectors: Vec::new(), crtcs: Vec::new(), planes: Vec::new() }
    }

    /// Membership test for a connector.
    pub fn has_connector(&self, id: DrmConnector) -> (r: bool)
        ensures
            r == self.connectors@.contains(id),
    {
        let n = self.connectors.len();
        for i in 0..n
            invariant
                n == self.connectors@.len(),
                forall|j: int| 0 <= j < i ==> self.connectors@[j] != id,
        {
            if self.connectors[i] == id {
                return true;
            }
        }
        false
    }

    /// Membership test for a crtc.
    pub fn has_crtc(&self, id: DrmCrtc) -> (r: bool)
        ensures
            r == self.crtcs@.contains(id),
    {
        let n = self.crtcs.len();
        for i in 0..n
            invariant
                n == self.crtcs@.len(),
                forall|j: int| 0 <= j < i ==> self.crtcs@[j] != id,
        {
            if self.crtcs[i] == id {
                return true;
            }
        }
        false
    }

    /// Membership test for a plane.
    pub fn has_plane(&self, id: DrmPlane) -> (r: bool)
        ensures
            r == self.planes@.contains(id),
    {
        let n = self.planes.len();
        for i in 0..n
            invariant
                n == self.planes@.len(),
                forall|j: int| 0 <= j < i ==> self.planes@[j] != id,
        {
            if self.planes[i] == id {
                return true;
            }
        }
        false
    }
}

} // verus!
