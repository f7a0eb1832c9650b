//! Hotplug and change handling: refreshing the property caches, diffing
//! the connector set, deciding preserve eligibility, re-running the
//! allocator and restarting the affected outputs.

use vstd::prelude::*;

use crate::allocator::{InitOutcome, init_drm_device, spec_dev_wf};
use crate::backend::{BackendEvent, ConnectorEvent};
use crate::buffer::RenderBufferPair;
use crate::drm::{ConnectorStatus, DrmBlob, DrmConnector, DrmCrtc, DrmModeInfo};
use crate::inventory::{ConnectorQuery, create_connector};
use crate::present::CommitOutcome;
use crate::video::{
    ConnectorDisplayData, ConnectorFutures, MetalConnector, MetalDrmDeviceData, MetalRenderContext,
    Preserve, spec_same_monitor,
};

verus! {

/// The backend-wide state the change handler needs: the active render
/// context and the queue of device-level events for the compositor.
#[derive(Clone, Debug)]
pub struct MetalBackend {
    pub ctx: Option<MetalRenderContext>,
    pub backend_events: Vec<BackendEvent>,
}

impl MetalBackend {
    /// A backend with no render device chosen yet.
    pub fn new() -> (r: MetalBackend)
        ensures
            r.ctx is None,
            r.backend_events@.len() == 0,
    {
        MetalBackend { ctx: None, backend_events: Vec::new() }
    }

    /// A present pass may render only while a render context exists; its
    /// loss or reset is handled outside this crate.
    pub fn check_render_context(&self) -> (r: bool)
        ensures
            r == (self.ctx is Some),
    {
        self.ctx.is_some()
    }

    /// Makes the given device the active render device.  Returns true when
    /// it already was; otherwise the caller must re-run the allocator on
    /// every device, with this device's context now active.
    pub fn make_render_device(&mut self, data: &MetalDrmDeviceData) -> (already: bool)
        ensures
            already == (old(self).ctx matches Some(c) && c.dev_id == data.dev.id),
            already ==> *final(self) == *old(self),
            !already ==> *final(self) == (MetalBackend { ctx: Some(data.dev.ctx), ..*old(self) }),
    {
        if let Some(c) = &self.ctx {
            if c.dev_id == data.dev.id {
                return true;
            }
        }
        self.ctx = Some(data.dev.ctx);
        false
    }
}

/// The refreshed state of one crtc, as the kernel reports it: the active
/// flag, the current mode blob, and what that blob decodes to.
#[derive(Clone, Debug)]
pub struct CrtcSnapshot {
    pub active: bool,
    pub mode_id: DrmBlob,
    pub mode: Option<DrmModeInfo>,
}

/// A wholesale refresh of every cached mutable property of a device, in
/// the order the device holds its objects.
#[derive(Clone, Debug)]
pub struct PropertySnapshot {
    /// One bound-crtc value per connector.
    pub connector_crtcs: Vec<DrmCrtc>,
    /// One state per crtc.
    pub crtc_states: Vec<CrtcSnapshot>,
    /// One bound-crtc value per plane.
    pub plane_crtcs: Vec<DrmCrtc>,
}

impl PropertySnapshot {
    /// The snapshot covers every object of the device.
    pub open spec fn covers(&self, data: MetalDrmDeviceData) -> bool {
        &&& self.connector_crtcs@.len() == data.connectors@.len()
        &&& self.crtc_states@.len() == data.dev.crtcs@.len()
        &&& self.plane_crtcs@.len() == data.dev.planes@.len()
    }
}

/// Refreshes every cached mutable property from a kernel snapshot: each
/// connector's bound crtc, each crtc's active flag, mode blob and decoded
/// mode, and each plane's bound crtc.
pub fn update_device_properties(data: &mut MetalDrmDeviceData, snapshot: &PropertySnapshot)
    requires
        snapshot.covers(*old(data)),
    ensures
        final(data).connectors@.len() == old(data).connectors@.len(),
        final(data).dev.crtcs@.len() == old(data).dev.crtcs@.len(),
        final(data).dev.planes@.len() == old(data).dev.planes@.len(),
        forall|j: int|
            0 <= j < old(data).connectors@.len() ==> {
                let c0 = old(data).connectors@[j];
                (#[trigger] final(data).connectors@[j]) == (MetalConnector {
                    display: (ConnectorDisplayData {
                        crtc_id: crate::props::MutableProperty {
                            id: c0.display.crtc_id.id,
                            value: snapshot.connector_crtcs@[j],
                        },
                        ..c0.display
                    }),
                    ..c0
                })
            },
        forall|j: int|
            0 <= j < old(data).dev.crtcs@.len() ==> {
                let c0 = old(data).dev.crtcs@[j];
                (#[trigger] final(data).dev.crtcs@[j]) == (crate::video::MetalCrtc {
                    active: crate::props::MutableProperty {
                        id: c0.active.id,
                        value: snapshot.crtc_states@[j].active,
                    },
                    mode_id: crate::props::MutableProperty {
                        id: c0.mode_id.id,
                        value: snapshot.crtc_states@[j].mode_id,
                    },
                    current_mode: snapshot.crtc_states@[j].mode,
                    ..c0
                })
            },
        forall|j: int|
            0 <= j < old(data).dev.planes@.len() ==> {
                let p0 = old(data).dev.planes@[j];
                (#[trigger] final(data).dev.planes@[j]) == (crate::video::MetalPlane {
                    crtc_id: crate::props::MutableProperty {
                        id: p0.crtc_id.id,
                        value: snapshot.plane_crtcs@[j],
                    },
                    ..p0
                })
            },
        *final(data) == (MetalDrmDeviceData {
            connectors: final(data).connectors,
            dev: final(data).dev,
            ..*old(data)
        }),
        final(data).dev == (crate::video::MetalDrmDevice {
            crtcs: final(data).dev.crtcs,
            planes: final(data).dev.planes,
            ..old(data).dev
        }),
{
    let ghost data0 = *data;
    let n = data.connectors.len();
    for i in 0..n
        invariant
            n == data.connectors@.len(),
            n == data0.connectors@.len(),
            snapshot.covers(data0),
            *data == (MetalDrmDeviceData { connectors: data.connectors, ..data0 }),
            forall|j: int| i <= j < n ==> #[trigger] data.connectors@[j] == data0.connectors@[j],
            forall|j: int|
                0 <= j < i ==> {
                    let c0 = data0.connectors@[j];
                    (#[trigger] data.connectors@[j]) == (MetalConnector {
                        display: (ConnectorDisplayData {
                            crtc_id: crate::props::MutableProperty {
                                id: c0.display.crtc_id.id,
                                value: snapshot.connector_crtcs@[j],
                            },
                            ..c0.display
                        }),
                        ..c0
                    })
                },
    {
        data.connectors[i].display.crtc_id.value = snapshot.connector_crtcs[i];
    }
    let ghost data1 = *data;
    let nc = data.dev.crtcs.len();
    for i in 0..nc
        invariant
            nc == data.dev.crtcs@.len(),
            nc == data0.dev.crtcs@.len(),
            snapshot.covers(data0),
            *data == (MetalDrmDeviceData { dev: data.dev, ..data1 }),
            data.dev == (crate::video::MetalDrmDevice { crtcs: data.dev.crtcs, ..data1.dev }),
            forall|j: int| i <= j < nc ==> #[trigger] data.dev.crtcs@[j] == data0.dev.crtcs@[j],
            forall|j: int|
                0 <= j < i ==> {
                    let c0 = data0.dev.crtcs@[j];
                    (#[trigger] data.dev.crtcs@[j]) == (crate::video::MetalCrtc {
                        active: crate::props::MutableProperty {
                            id: c0.active.id,
                            value: snapshot.crtc_states@[j].active,
                        },
                        mode_id: crate::props::MutableProperty {
                            id: c0.mode_id.id,
                            value: snapshot.crtc_states@[j].mode_id,
                        },
                        current_mode: snapshot.crtc_states@[j].mode,
                        ..c0
                    })
                },
    {
        let c = &mut data.dev.crtcs[i];
        c.active.value = snapshot.crtc_states[i].active;
        c.mode_id.value = snapshot.crtc_states[i].mode_id;
        c.current_mode = snapshot.crtc_states[i].mode;
    }
    let ghost data2 = *data;
    let np = data.dev.planes.len();
    for i in 0..np
        invariant
            np == data.dev.planes@.len(),
            np == data0.dev.planes@.len(),
            snapshot.covers(data0),
            *data == (MetalDrmDeviceData { dev: data.dev, ..data2 }),
            data.dev == (crate::video::MetalDrmDevice { planes: data.dev.planes, ..data2.dev }),
            forall|j: int| i <= j < np ==> #[trigger] data.dev.planes@[j] == data0.dev.planes@[j],
            forall|j: int|
                0 <= j < i ==> {
                    let p0 = data0.dev.planes@[j];
                    (#[trigger] data.dev.planes@[j]) == (crate::video::MetalPlane {
                        crtc_id: crate::props::MutableProperty {
                            id: p0.crtc_id.id,
                            value: snapshot.plane_crtcs@[j],
                        },
                        ..p0
                    })
                },
    {
        data.dev.planes[i].crtc_id.value = snapshot.plane_crtcs[i];
    }
}

/// Replaces a connector's display data with a freshly fetched snapshot
/// and decides what the change means.  A connector that had announced
/// itself as connected is forced through a disconnect when it is now
/// disabled, no longer reports the connected status, or the monitor
/// behind it is not the same one (manufacturer, product or serial
/// changed); otherwise it is eligible for preservation when the pass
/// allows any.
pub fn refresh_connector(c: &mut MetalConnector, fresh: ConnectorDisplayData, preserve_any: bool)
    -> (preserve_me: bool)
    ensures
        final(c).display == fresh,
        ({
            let was_announced = old(c).connect_sent;
            let forced_off = was_announced && (!old(c).enabled || fresh.connection
                != ConnectorStatus::Connected || !spec_same_monitor(&fresh, &old(c).display));
            &&& preserve_me == (was_announced && !forced_off && preserve_any)
            &&& (forced_off ==> {
                &&& !final(c).connect_sent
                &&& final(c).events@ == old(c).events@.push(ConnectorEvent::Disconnected)
                &&& *final(c) == (MetalConnector {
                    display: fresh,
                    connect_sent: false,
                    events: final(c).events,
                    on_change: final(c).on_change,
                    ..*old(c)
                })
            })
            &&& (!forced_off ==> *final(c) == (MetalConnector { display: fresh, ..*old(c) }))
        }),
{
    let was_announced = c.connect_sent;
    let enabled = c.enabled;
    let now_connected = matches!(fresh.connection, ConnectorStatus::Connected);
    let same = fresh.is_same_monitor(&c.display);
    c.display = fresh;
    if was_announced {
        if !enabled || !now_connected || !same {
            c.send_event(ConnectorEvent::Disconnected);
            c.connect_sent = false;
            return false;
        }
        return preserve_any;
    }
    false
}

/// Emits the monitor-info event for a connector that has not announced
/// itself yet, marks it announced, and advertises its hardware cursor.
pub fn send_connected(c: &mut MetalConnector, info: crate::backend::MonitorInfo)
    requires
        old(c).cursor_generation < u64::MAX,
    ensures
        final(c).connect_sent,
        final(c).cursor_generation == old(c).cursor_generation + 1,
        final(c).events@ == old(c).events@.push(ConnectorEvent::Connected(info)).push(
            ConnectorEvent::HardwareCursor(
                if old(c).cursor_buffers is Some {
                    Some((old(c).cursor_generation + 1) as u64)
                } else {
                    None
                },
            ),
        ),
        *final(c) == (MetalConnector {
            connect_sent: true,
            cursor_generation: final(c).cursor_generation,
            events: final(c).events,
            on_change: final(c).on_change,
            ..*old(c)
        }),
{
    c.send_event(ConnectorEvent::Connected(info));
    c.connect_sent = true;
    let generation = c.cursor_generation + 1;
    c.cursor_generation = generation;
    let cursor = if c.cursor_buffers.is_some() {
        ConnectorEvent::HardwareCursor(Some(generation))
    } else {
        ConnectorEvent::HardwareCursor(None)
    };
    c.send_event(cursor);
}

/// Arms a connector for presentation after an allocation pass: damage and
/// cursor-changed are set and the present task woken.
pub fn start_connector(c: &mut MetalConnector)
    ensures
        *final(c) == (MetalConnector {
            has_damage: true,
            cursor_changed: true,
            present_scheduled: true,
            ..*old(c)
        }),
{
    c.has_damage = true;
    c.cursor_changed = true;
    c.present_scheduled = true;
}

/// Marks the device according to how the pass's modeset commit ended: on
/// failure the change stays unprocessed so a later resume retries it.
pub fn apply_modeset_outcome(data: &mut MetalDrmDeviceData, outcome: CommitOutcome)
    ensures
        outcome == CommitOutcome::Success ==> *final(data) == (MetalDrmDeviceData {
            unprocessed_change: false,
            ..*old(data)
        }),
        outcome != CommitOutcome::Success ==> *final(data) == (MetalDrmDeviceData {
            unprocessed_change: true,
            ..*old(data)
        }),
{
    if matches!(outcome, CommitOutcome::Success) {
        data.unprocessed_change = false;
    } else {
        data.unprocessed_change = true;
    }
}

/// The connectors whose id the kernel no longer reports, in order.
pub open spec fn spec_removed(
    cs: Seq<MetalConnector>,
    current: Seq<DrmConnector>,
) -> Seq<MetalConnector>
    decreases cs.len(),
{
    if cs.len() == 0 {
        Seq::empty()
    } else {
        let rest = spec_removed(cs.drop_last(), current);
        if current.contains(cs.last().id) {
            rest
        } else {
            rest.push(cs.last())
        }
    }
}

/// The connectors whose id the kernel still reports, in order.
pub open spec fn spec_retained(
    cs: Seq<MetalConnector>,
    current: Seq<DrmConnector>,
) -> Seq<MetalConnector>
    decreases cs.len(),
{
    if cs.len() == 0 {
        Seq::empty()
    } else {
        let rest = spec_retained(cs.drop_last(), current);
        if current.contains(cs.last().id) {
            rest.push(cs.last())
        } else {
            rest
        }
    }
}

/// The ids of the new connectors that construction accepts, in order.
pub open spec fn spec_built_ids(qs: Seq<crate::inventory::ConnectorQuery>) -> Seq<DrmConnector>
    decreases qs.len(),
{
    if qs.len() == 0 {
        Seq::empty()
    } else {
        let rest = spec_built_ids(qs.drop_last());
        if crate::inventory::spec_connector_query_ok(qs.last()) {
            rest.push(qs.last().id)
        } else {
            rest
        }
    }
}

/// The device-level events one change pass reports: one new-connector
/// announcement per addition that construction accepts, in order.
pub open spec fn spec_new_connector_events(qs: Seq<crate::inventory::ConnectorQuery>) -> Seq<
    BackendEvent,
>
    decreases qs.len(),
{
    if qs.len() == 0 {
        Seq::empty()
    } else {
        let rest = spec_new_connector_events(qs.drop_last());
        if crate::inventory::spec_connector_query_ok(qs.last()) {
            rest.push(BackendEvent::NewConnector(qs.last().connector_id))
        } else {
            rest
        }
    }
}

/// The first refresh entry for a connector id, if any.
pub open spec fn spec_refresh_of(rs: Seq<ConnectorRefresh>, id: DrmConnector) -> Option<
    ConnectorRefresh,
>
    decreases rs.len(),
{
    if rs.len() == 0 {
        None
    } else if rs[0].id == id {
        Some(rs[0])
    } else {
        spec_refresh_of(rs.skip(1), id)
    }
}

/// A connector that had announced itself is forced through a disconnect
/// when it is now disabled, no longer connected, or the monitor behind it
/// changed.
pub open spec fn spec_forced_off(c: MetalConnector, fresh: ConnectorDisplayData) -> bool {
    c.connect_sent && (!c.enabled || fresh.connection != ConnectorStatus::Connected
        || !spec_same_monitor(&fresh, &c.display))
}

/// What one refresh entry does to its connector: fresh display data is
/// adopted; an announced connector whose refresh trips the
/// forced-disconnect rule additionally loses its announcement and queues
/// the disconnect.  An entry without display data changes nothing.
pub open spec fn spec_refresh_applied(
    c0: MetalConnector,
    rf: ConnectorRefresh,
    c1: MetalConnector,
) -> bool {
    match rf.display {
        Some(fresh) => if spec_forced_off(c0, fresh) {
            &&& c1 == (MetalConnector {
                display: fresh,
                connect_sent: false,
                events: c1.events,
                on_change: c1.on_change,
                ..c0
            })
            &&& c1.events@ == c0.events@.push(ConnectorEvent::Disconnected)
        } else {
            c1 == (MetalConnector { display: fresh, on_change: c1.on_change, ..c0 })
        },
        None => c1 == c0,
    }
}

/// With pairwise-distinct entry ids, a hit at index `j` pins the refresh
/// lookup.
pub proof fn lemma_refresh_of_some(rs: Seq<ConnectorRefresh>, id: DrmConnector, j: int)
    requires
        0 <= j < rs.len(),
        rs[j].id == id,
        forall|a: int, b: int|
            0 <= a < b < rs.len() ==> (#[trigger] rs[a]).id != (#[trigger] rs[b]).id,
    ensures
        spec_refresh_of(rs, id) == Some(rs[j]),
    decreases j,
{
    if j > 0 {
        assert(rs.skip(1)[j - 1] == rs[j]);
        assert(forall|a: int, b: int|
            0 <= a < b < rs.skip(1).len() ==> (#[trigger] rs.skip(1)[a]).id
                != (#[trigger] rs.skip(1)[b]).id);
        lemma_refresh_of_some(rs.skip(1), id, j - 1);
    }
}

/// Without any entry for the id, the refresh lookup finds nothing.
pub proof fn lemma_refresh_of_none(rs: Seq<ConnectorRefresh>, id: DrmConnector)
    requires
        forall|a: int| 0 <= a < rs.len() ==> (#[trigger] rs[a]).id != id,
    ensures
        spec_refresh_of(rs, id) is None,
    decreases rs.len(),
{
    if rs.len() > 0 {
        assert(forall|a: int| 0 <= a < rs.skip(1).len() ==> rs.skip(1)[a] == rs[a + 1]);
        lemma_refresh_of_none(rs.skip(1), id);
    }
}

/// Fresh display data for a connector that is still present, or nothing
/// when its query failed and the old data stays.
#[derive(Clone, Debug)]
pub struct ConnectorRefresh {
    pub id: DrmConnector,
    pub display: Option<ConnectorDisplayData>,
}

/// Everything one device-change pass consumes: the refreshed property
/// caches, the connectors the kernel now reports, fresh display data for
/// the survivors and construction inputs for the newcomers.
#[derive(Clone, Debug)]
pub struct DeviceChangeSnapshot {
    pub properties: PropertySnapshot,
    pub current: Vec<DrmConnector>,
    pub refreshes: Vec<ConnectorRefresh>,
    pub additions: Vec<ConnectorQuery>,
}

/// What one device-change pass produced: the connectors that disappeared
/// (with their final events queued), the allocation outcome with its
/// commits, and the device-level events for the compositor.
#[derive(Clone, Debug)]
pub struct ChangeOutcome {
    pub removed: Vec<MetalConnector>,
    pub init: InitOutcome,
    pub events: Vec<BackendEvent>,
}

/// Side conditions a change pass needs from its snapshot and device.
pub open spec fn spec_change_pass_ok(
    data: MetalDrmDeviceData,
    snapshot: DeviceChangeSnapshot,
    provisions: Seq<(Option<RenderBufferPair>, Option<RenderBufferPair>)>,
) -> bool {
    &&& snapshot.properties.covers(data)
    &&& spec_dev_wf(data)
    &&& forall|j: int, k: int|
        0 <= j < k < data.connectors@.len() ==> (#[trigger] data.connectors@[j]).id
            != (#[trigger] data.connectors@[k]).id
    &&& forall|j: int, k: int|
        0 <= j < k < snapshot.additions@.len() ==> (#[trigger] snapshot.additions@[j]).id
            != (#[trigger] snapshot.additions@[k]).id
    &&& forall|j: int, k: int|
        0 <= j < data.connectors@.len() && 0 <= k < snapshot.additions@.len()
            ==> (#[trigger] data.connectors@[j]).id != (#[trigger] snapshot.additions@[k]).id
    &&& forall|q: int|
        0 <= q < snapshot.additions@.len() ==> (#[trigger] snapshot.additions@[q]).modes_ok()
    &&& forall|j: int, k: int|
        0 <= j < k < data.dev.encoders@.len() ==> (#[trigger] data.dev.encoders@[j]).id
            != (#[trigger] data.dev.encoders@[k]).id
    &&& provisions.len() >= data.connectors@.len() + snapshot.additions@.len()
    &&& data.connectors@.len() + snapshot.additions@.len() <= 100_000
    &&& data.dev.crtcs@.len() <= 32
    &&& data.dev.planes@.len() <= 100_000
    &&& data.dev.next_blob_id as int + data.connectors@.len() + snapshot.additions@.len()
        <= u32::MAX
    &&& forall|j: int|
        0 <= j < data.connectors@.len() ==> (#[trigger] data.connectors@[j]).cursor_generation
            < u64::MAX - 1
    &&& forall|a: int, b: int|
        0 <= a < b < snapshot.refreshes@.len() ==> (#[trigger] snapshot.refreshes@[a]).id
            != (#[trigger] snapshot.refreshes@[b]).id
}

/// The second connector is the first with only its cached bound-crtc
/// value refreshed, as the property update leaves it.
pub open spec fn spec_upd_eq(a: MetalConnector, b: MetalConnector) -> bool {
    &&& b == (MetalConnector { display: b.display, ..a })
    &&& b.display == (ConnectorDisplayData { crtc_id: b.display.crtc_id, ..a.display })
    &&& b.display.crtc_id.id == a.display.crtc_id.id
}

/// The connector-set diff respects the property update: diffing the
/// refreshed connectors gives, position for position, the refreshed
/// versions of diffing the original ones.
proof fn lemma_diff_respects_upd(
    a: Seq<MetalConnector>,
    b: Seq<MetalConnector>,
    current: Seq<DrmConnector>,
)
    requires
        a.len() == b.len(),
        forall|j: int| 0 <= j < a.len() ==> spec_upd_eq(#[trigger] a[j], b[j]),
    ensures
        spec_removed(a, current).len() == spec_removed(b, current).len(),
        forall|k: int|
            0 <= k < spec_removed(a, current).len() ==> spec_upd_eq(
                #[trigger] spec_removed(a, current)[k],
                spec_removed(b, current)[k],
            ),
        spec_retained(a, current).len() == spec_retained(b, current).len(),
        forall|k: int|
            0 <= k < spec_retained(a, current).len() ==> spec_upd_eq(
                #[trigger] spec_retained(a, current)[k],
                spec_retained(b, current)[k],
            ),
    decreases a.len(),
{
    if a.len() > 0 {
        assert(forall|j: int|
            0 <= j < a.drop_last().len() ==> spec_upd_eq(
                #[trigger] a.drop_last()[j],
                b.drop_last()[j],
            ));
        lemma_diff_respects_upd(a.drop_last(), b.drop_last(), current);
        assert(spec_upd_eq(a.last(), b.last()));
        assert(a.last().id == b.last().id);
    }
}

/// Membership of a connector id in the kernel's current list.
fn current_contains(current: &Vec<DrmConnector>, id: DrmConnector) -> (r: bool)
    ensures
        r == current@.contains(id),
{
    let n = current.len();
    for i in 0..n
        invariant
            n == current@.len(),
            forall|j: int| 0 <= j < i ==> current@[j] != id,
    {
        if current[i] == id {
            return true;
        }
    }
    false
}

/// The compositor's view of every mode, in order.
pub open spec fn spec_backend_modes(s: Seq<DrmModeInfo>) -> Seq<crate::backend::Mode>
    decreases s.len(),
{
    if s.len() == 0 {
        Seq::empty()
    } else {
        spec_backend_modes(s.drop_last()).push(crate::backend::spec_backend_mode(s.last()))
    }
}

/// The mode list with consecutive duplicates dropped.
pub open spec fn spec_dedup_modes(s: Seq<crate::backend::Mode>) -> Seq<crate::backend::Mode>
    decreases s.len(),
{
    if s.len() == 0 {
        Seq::empty()
    } else if s.len() == 1 {
        seq![s[0]]
    } else {
        let rest = spec_dedup_modes(s.drop_last());
        if s.last() == s[s.len() - 2] {
            rest
        } else {
            rest.push(s.last())
        }
    }
}

/// Builds the monitor-info announcement from a connector's display data:
/// the mode list with consecutive duplicates dropped, the monitor
/// identity, and the initial mode.
pub fn monitor_info_of(dd: &ConnectorDisplayData) -> (r: Option<crate::backend::MonitorInfo>)
    ensures
        r is Some <==> (dd.mode matches Some(m) && m.htotal > 0 && m.vtotal > 0 && forall|j: int|
            0 <= j < dd.modes@.len() ==> (#[trigger] dd.modes@[j]).htotal > 0
                && dd.modes@[j].vtotal > 0),
        r matches Some(info) ==> {
            &&& info.modes@ == spec_dedup_modes(spec_backend_modes(dd.modes@))
            &&& info.initial_mode == crate::backend::spec_backend_mode(dd.mode->0)
            &&& info.manufacturer@ == dd.monitor_manufacturer@
            &&& info.product@ == dd.monitor_name@
            &&& info.serial_number@ == dd.monitor_serial_number@
            &&& info.width_mm == dd.mm_width as i32
            &&& info.height_mm == dd.mm_height as i32
        },
{
    let initial = match &dd.mode {
        Some(m) => {
            if m.htotal == 0 || m.vtotal == 0 {
                return None;
            }
            m.to_backend()
        },
        None => {
            return None;
        },
    };
    let n = dd.modes.len();
    for i in 0..n
        invariant
            n == dd.modes@.len(),
            forall|j: int|
                0 <= j < i ==> (#[trigger] dd.modes@[j]).htotal > 0 && dd.modes@[j].vtotal > 0,
    {
        if dd.modes[i].htotal == 0 || dd.modes[i].vtotal == 0 {
            return None;
        }
    }
    let mut modes: Vec<crate::backend::Mode> = Vec::new();
    let mut prev: Option<crate::backend::Mode> = None;
    for i in 0..n
        invariant
            n == dd.modes@.len(),
            forall|j: int|
                0 <= j < n ==> (#[trigger] dd.modes@[j]).htotal > 0 && dd.modes@[j].vtotal > 0,
            modes@ == spec_dedup_modes(spec_backend_modes(dd.modes@.take(i as int))),
            i == 0 ==> prev is None,
            i > 0 ==> prev == Some(
                crate::backend::spec_backend_mode(dd.modes@[i - 1]),
            ),
    {
        proof {
            assert(dd.modes@.take(i + 1).drop_last() =~= dd.modes@.take(i as int));
            assert(dd.modes@.take(i + 1).last() == dd.modes@[i as int]);
            assert(spec_backend_modes(dd.modes@.take(i + 1)).drop_last() =~= spec_backend_modes(
                dd.modes@.take(i as int),
            ));
        }
        let m = dd.modes[i].to_backend();
        let push = match prev {
            Some(p) => p != m,
            None => true,
        };
        if push {
            modes.push(m);
        }
        prev = Some(m);
        proof {
            let bm = spec_backend_modes(dd.modes@.take(i + 1));
            if i == 0 {
                assert(bm.len() == 1);
                assert(modes@ =~= spec_dedup_modes(bm));
            } else {
                assert(bm[bm.len() - 2] == spec_backend_modes(dd.modes@.take(i as int)).last());
                assert(spec_backend_modes(dd.modes@.take(i as int)).last()
                    == crate::backend::spec_backend_mode(dd.modes@[i - 1]));
                assert(modes@ =~= spec_dedup_modes(bm));
            }
        }
    }
    proof {
        assert(dd.modes@.take(n as int) =~= dd.modes@);
    }
    Some(
        crate::backend::MonitorInfo {
            modes,
            manufacturer: dd.monitor_manufacturer.clone(),
            product: dd.monitor_name.clone(),
            serial_number: dd.monitor_serial_number.clone(),
            initial_mode: initial,
            width_mm: dd.mm_width as i32,
            height_mm: dd.mm_height as i32,
        },
    )
}

/// With pairwise-distinct source ids, the retained connectors also have
/// pairwise-distinct ids, and each is an element of the source.
pub proof fn lemma_retained_sub(cs: Seq<MetalConnector>, current: Seq<DrmConnector>)
    requires
        forall|j: int, k: int|
            0 <= j < k < cs.len() ==> (#[trigger] cs[j]).id != (#[trigger] cs[k]).id,
    ensures
        forall|k: int|
            0 <= k < spec_retained(cs, current).len() ==> exists|w: int|
                0 <= w < cs.len() && #[trigger] spec_retained(cs, current)[k] == cs[w],
        forall|j: int, k: int|
            0 <= j < k < spec_retained(cs, current).len()
                ==> (#[trigger] spec_retained(cs, current)[j]).id
                != (#[trigger] spec_retained(cs, current)[k]).id,
    decreases cs.len(),
{
    if cs.len() > 0 {
        let rest = cs.drop_last();
        assert(forall|j: int, k: int|
            0 <= j < k < rest.len() ==> (#[trigger] rest[j]).id != (#[trigger] rest[k]).id);
        lemma_retained_sub(rest, current);
        let rt = spec_retained(cs, current);
        let rrt = spec_retained(rest, current);
        if current.contains(cs.last().id) {
            assert(rt == rrt.push(cs.last()));
            assert forall|k: int|
                0 <= k < rt.len() implies exists|w: int|
                    0 <= w < cs.len() && #[trigger] rt[k] == cs[w] by {
                if k < rrt.len() {
                    let w = choose|w: int| 0 <= w < rest.len() && rrt[k] == rest[w];
                    assert(rt[k] == cs[w]);
                } else {
                    assert(rt[k] == cs[cs.len() - 1]);
                }
            }
            assert forall|j: int, k: int|
                0 <= j < k < rt.len() implies (#[trigger] rt[j]).id != (#[trigger] rt[k]).id by {
                if k < rrt.len() {
                } else {
                    let w = choose|w: int| 0 <= w < rest.len() && rrt[j] == rest[w];
                    assert(rt[j].id == cs[w].id);
                    assert(rt[k].id == cs[cs.len() - 1].id);
                }
            }
        } else {
            assert(rt == rrt);
            assert forall|k: int|
                0 <= k < rt.len() implies exists|w: int|
                    0 <= w < cs.len() && #[trigger] rt[k] == cs[w] by {
                let w = choose|w: int| 0 <= w < rest.len() && rrt[k] == rest[w];
                assert(rt[k] == cs[w]);
            }
        }
    }
}

/// What the allocator run and the arming loop preserve of each connector:
/// its identity, announcement state, presentation flags, enabledness,
/// connection status, monitor identity, and every event already queued.
pub open spec fn spec_pass_kept(c0: MetalConnector, c1: MetalConnector) -> bool {
    &&& c1.id == c0.id
    &&& c1.connect_sent == c0.connect_sent
    &&& c1.can_present == c0.can_present
    &&& c1.has_damage == c0.has_damage
    &&& c1.cursor_changed == c0.cursor_changed
    &&& c1.enabled == c0.enabled
    &&& c1.display.connection == c0.display.connection
    &&& c1.display.monitor_manufacturer@ == c0.display.monitor_manufacturer@
    &&& c1.display.monitor_name@ == c0.display.monitor_name@
    &&& c1.display.monitor_serial_number@ == c0.display.monitor_serial_number@
    &&& c1.events@.len() >= c0.events@.len()
    &&& c1.events@.take(c0.events@.len() as int) == c0.events@
}

/// What arming one connector does: a connected one (enabled, physically
/// connected, primary plane held) is marked damaged and cursor-changed,
/// woken, possibly allowed to present and possibly announced — its
/// identity, display data and plane stay, and queued events stay in
/// place; every other connector is untouched.
pub open spec fn spec_armed(c0: MetalConnector, c1: MetalConnector) -> bool {
    if c0.enabled && c0.display.connection == ConnectorStatus::Connected
        && c0.primary_plane is Some {
        &&& c1.has_damage
        &&& c1.cursor_changed
        &&& c1.present_scheduled
        &&& c1.id == c0.id
        &&& c1.enabled == c0.enabled
        &&& c1.display == c0.display
        &&& c1.primary_plane == c0.primary_plane
        &&& (c0.can_present ==> c1.can_present)
        &&& c1.events@.len() >= c0.events@.len()
        &&& c1.events@.take(c0.events@.len() as int) == c0.events@
    } else {
        c1 == c0
    }
}

/// What one pass guarantees for a surviving connector: the compositor id
/// is kept; the presentation flags only ever gain; and when the snapshot
/// carried fresh display data, the monitor identity is adopted and a
/// refresh that trips the forced-disconnect rule leaves the disconnect
/// queued right after the events the connector already had.
pub open spec fn spec_retained_settled(
    oc: MetalConnector,
    snapshot: DeviceChangeSnapshot,
    c1: MetalConnector,
) -> bool {
    &&& c1.id == oc.id
    &&& (oc.can_present ==> c1.can_present)
    &&& (oc.has_damage ==> c1.has_damage)
    &&& (oc.cursor_changed ==> c1.cursor_changed)
    &&& match spec_refresh_of(snapshot.refreshes@, oc.id) {
        Some(rf) => match rf.display {
            Some(fresh) => {
                &&& c1.display.monitor_manufacturer@ == fresh.monitor_manufacturer@
                &&& c1.display.monitor_name@ == fresh.monitor_name@
                &&& c1.display.monitor_serial_number@ == fresh.monitor_serial_number@
                &&& (spec_forced_off(oc, fresh) ==> c1.events@.len() > oc.events@.len()
                    && c1.events@[oc.events@.len() as int] == ConnectorEvent::Disconnected)
            },
            None => true,
        },
        None => true,
    }
}

/// Everything one change pass promises: no unprocessed change remains and
/// the tasks line up; the connectors the kernel dropped come back in
/// order with a disconnect (when announced) and a removal queued; the
/// survivors keep their order and are settled per
/// `spec_retained_settled`; the accepted additions follow, presentable
/// and damaged; one new-connector event is reported per accepted
/// addition; and every connected output ends armed and woken.
pub open spec fn spec_change_pass_done(
    pre_connectors: Seq<MetalConnector>,
    snapshot: DeviceChangeSnapshot,
    post: MetalDrmDeviceData,
    r: ChangeOutcome,
) -> bool {
    let current = snapshot.current@;
    let rm = spec_removed(pre_connectors, current);
    let rt = spec_retained(pre_connectors, current);
    let built = spec_built_ids(snapshot.additions@);
    &&& !post.unprocessed_change
    &&& post.futures@.len() == post.connectors@.len()
    &&& r.removed@.len() == rm.len()
    &&& forall|k: int|
        0 <= k < rm.len() ==> {
            let c = r.removed@[k];
            let oc = #[trigger] rm[k];
            &&& c.id == oc.id
            &&& !current.contains(c.id)
            &&& c.connect_sent == oc.connect_sent
            &&& c.events@ == oc.events@ + (if oc.connect_sent {
                seq![ConnectorEvent::Disconnected, ConnectorEvent::Removed]
            } else {
                seq![ConnectorEvent::Removed]
            })
        }
    &&& post.connectors@.len() == rt.len() + built.len()
    &&& forall|k: int|
        0 <= k < rt.len() ==> spec_retained_settled(
            #[trigger] rt[k],
            snapshot,
            post.connectors@[k],
        )
    &&& forall|k: int|
        rt.len() <= k < post.connectors@.len() ==> {
            let c = #[trigger] post.connectors@[k];
            &&& c.id == built[k - rt.len()]
            &&& c.can_present
            &&& c.has_damage
        }
    &&& r.events@ == spec_new_connector_events(snapshot.additions@)
    &&& forall|k: int|
        0 <= k < post.connectors@.len() ==> ((#[trigger] post.connectors@[k]).enabled
            && post.connectors@[k].display.connection == ConnectorStatus::Connected
            && post.connectors@[k].primary_plane is Some ==> (post.connectors@[k].has_damage
            && post.connectors@[k].cursor_changed && post.connectors@[k].present_scheduled))
}

/// One full device-change pass: the property caches are refreshed;
/// connectors the kernel no longer reports are removed, each leaving with
/// a disconnect (when announced) and a removal queued; every surviving
/// connector with a refresh entry gets the fresh display data under the
/// forced-disconnect rule; new connectors are built, appended and
/// announced; the allocator runs with the validated preserve set; and
/// every connected output is armed and woken.  The returned commits must
/// be issued by the caller, whose outcome decides `apply_modeset_outcome`.
#[verifier::rlimit(100)]
fn handle_drm_change_(
    backend: &mut MetalBackend,
    data: &mut MetalDrmDeviceData,
    mut snapshot: DeviceChangeSnapshot,
    provisions: &mut Vec<(Option<RenderBufferPair>, Option<RenderBufferPair>)>,
    preserve_any: bool,
) -> (r: ChangeOutcome)
    requires
        spec_change_pass_ok(*old(data), snapshot, old(provisions)@),
        old(data).futures@.len() == old(data).connectors@.len(),
    ensures
        spec_change_pass_done(old(data).connectors@, snapshot, *final(data), r),
{
    let ghost snap0 = snapshot;
    let ghost orig_old = old(data).connectors@;
    update_device_properties(data, &snapshot.properties);
    let ghost data_upd = *data;
    proof {
        assert forall|j: int|
            0 <= j < orig_old.len() implies spec_upd_eq(
            orig_old[j],
            #[trigger] data_upd.connectors@[j],
        ) by {}
        lemma_diff_respects_upd(orig_old, data_upd.connectors@, snap0.current@);
    }
    let mut removed: Vec<MetalConnector> = Vec::new();
    let mut retained: Vec<MetalConnector> = Vec::new();
    let mut retained_futures: Vec<ConnectorFutures> = Vec::new();
    let mut pending: Vec<MetalConnector> = Vec::new();
    let mut pending_futures: Vec<ConnectorFutures> = Vec::new();
    core::mem::swap(&mut pending, &mut data.connectors);
    core::mem::swap(&mut pending_futures, &mut data.futures);
    let ghost orig = pending@;
    proof {
        assert(orig.skip(0) =~= orig);
        assert forall|j: int, k: int|
            0 <= j < k < orig.len() implies (#[trigger] orig[j]).id != (#[trigger] orig[k]).id by {
            assert(orig[j].id == orig_old[j].id);
            assert(orig[k].id == orig_old[k].id);
        }
    }
    let mut i: usize = 0;
    let n = pending.len();
    while i < n
        invariant
            n == orig.len(),
            i <= n,
            pending@ == orig.skip(i as int),
            pending_futures@.len() == pending@.len(),
            retained@.len() == retained_futures@.len(),
            forall|j: int, k: int|
                0 <= j < k < orig.len() ==> (#[trigger] orig[j]).id != (#[trigger] orig[k]).id,
            retained@ == spec_retained(orig.take(i as int), snapshot.current@),
            removed@.len() == spec_removed(orig.take(i as int), snapshot.current@).len(),
            forall|k: int|
                0 <= k < removed@.len() ==> {
                    let oc = spec_removed(orig.take(i as int), snapshot.current@)[k];
                    let c = #[trigger] removed@[k];
                    &&& c.id == oc.id
                    &&& !snapshot.current@.contains(c.id)
                    &&& c.connect_sent == oc.connect_sent
                    &&& c.events@ == oc.events@ + (if oc.connect_sent {
                        seq![ConnectorEvent::Disconnected, ConnectorEvent::Removed]
                    } else {
                        seq![ConnectorEvent::Removed]
                    })
                },
            forall|j: int|
                0 <= j < orig.len() ==> (#[trigger] orig[j]).cursor_generation < u64::MAX - 1,
        decreases n - i,
    {
        proof {
            assert(pending@[0] == orig[i as int]);
            assert(orig.take(i + 1).drop_last() =~= orig.take(i as int));
            assert(orig.take(i + 1).last() == orig[i as int]);
        }
        let mut c = pending.remove(0);
        let f = pending_futures.remove(0);
        proof {
            assert(pending@ =~= orig.skip(i + 1));
        }
        let id = c.id;
        if current_contains(&snapshot.current, id) {
            retained.push(c);
            retained_futures.push(f);
        } else {
            let ghost c_in = c;
            if c.connect_sent {
                c.send_event(ConnectorEvent::Disconnected);
            }
            c.send_event(ConnectorEvent::Removed);
            proof {
                if c_in.connect_sent {
                    assert(c.events@ =~= c_in.events@ + seq![
                        ConnectorEvent::Disconnected,
                        ConnectorEvent::Removed,
                    ]);
                } else {
                    assert(c.events@ =~= c_in.events@ + seq![ConnectorEvent::Removed]);
                }
            }
            removed.push(c);
        }
        i = i + 1;
    }
    proof {
        assert(orig.take(n as int) =~= orig);
    }
    data.connectors = retained;
    data.futures = retained_futures;
    let ghost ret0 = data.connectors@;
    let ghost refreshes0 = snapshot.refreshes@;
    proof {
        lemma_retained_sub(orig, snapshot.current@);
        assert forall|j: int|
            0 <= j < ret0.len() implies (#[trigger] ret0[j]).cursor_generation < u64::MAX - 1 by {
            let w = choose|w: int| 0 <= w < orig.len() && ret0[j] == orig[w];
            assert(orig[w].cursor_generation < u64::MAX - 1);
        }
    }
    let mut preserve = Preserve::new();
    while snapshot.refreshes.len() > 0
        invariant
            data.connectors@.len() == ret0.len(),
            data.futures@.len() == data.connectors@.len(),
            data.dev == data_upd.dev,
            snapshot.additions@ == snap0.additions@,
            snapshot.current@ == snap0.current@,
            snapshot.refreshes@ == refreshes0.take(snapshot.refreshes@.len() as int),
            snapshot.refreshes@.len() <= refreshes0.len(),
            forall|a: int, b: int|
                0 <= a < b < refreshes0.len() ==> (#[trigger] refreshes0[a]).id
                    != (#[trigger] refreshes0[b]).id,
            forall|j: int, k: int|
                0 <= j < k < ret0.len() ==> (#[trigger] ret0[j]).id != (#[trigger] ret0[k]).id,
            forall|k: int|
                0 <= k < ret0.len() ==> (match spec_refresh_of(
                    refreshes0.skip(snapshot.refreshes@.len() as int),
                    ret0[k].id,
                ) {
                    Some(rf) => spec_refresh_applied(ret0[k], rf, #[trigger] data.connectors@[k]),
                    None => data.connectors@[k] == ret0[k],
                }),
            forall|j: int|
                0 <= j < ret0.len() ==> (#[trigger] ret0[j]).cursor_generation < u64::MAX - 1,
        decreases snapshot.refreshes@.len(),
    {
        let ghost m = snapshot.refreshes@.len() as int;
        let entry = snapshot.refreshes.pop().unwrap();
        let ghost entry_g = entry;
        proof {
            assert(entry == refreshes0[m - 1]);
            assert(snapshot.refreshes@ =~= refreshes0.take(m - 1));
            assert(refreshes0.skip(m - 1)[0] == refreshes0[m - 1]);
            assert(refreshes0.skip(m - 1).skip(1) =~= refreshes0.skip(m));
        }
        let entry_id = entry.id;
        match data.find_connector(entry_id) {
            Some(ci) => {
                proof {
                    assert(data.connectors@[ci as int].id == ret0[ci as int].id) by {
                        assert(match spec_refresh_of(refreshes0.skip(m), ret0[ci as int].id) {
                            Some(rf) => spec_refresh_applied(
                                ret0[ci as int],
                                rf,
                                data.connectors@[ci as int],
                            ),
                            None => data.connectors@[ci as int] == ret0[ci as int],
                        });
                    }
                    assert(spec_refresh_of(refreshes0.skip(m), ret0[ci as int].id) is None) by {
                        assert forall|a: int|
                            0 <= a < refreshes0.skip(m).len() implies (#[trigger] refreshes0.skip(
                            m,
                        )[a]).id != ret0[ci as int].id by {
                            assert(refreshes0.skip(m)[a] == refreshes0[m + a]);
                        }
                        lemma_refresh_of_none(refreshes0.skip(m), ret0[ci as int].id);
                    }
                    assert(data.connectors@[ci as int] == ret0[ci as int]);
                }
                match entry.display {
                    Some(fresh) => {
                        let preserve_me = refresh_connector(
                            &mut data.connectors[ci],
                            fresh,
                            preserve_any,
                        );
                        if preserve_me {
                            preserve.connectors.push(entry_id);
                        }
                    },
                    None => {},
                }
                proof {
                    assert forall|k: int|
                        0 <= k < ret0.len() implies (match spec_refresh_of(
                        refreshes0.skip(m - 1),
                        ret0[k].id,
                    ) {
                        Some(rf) => spec_refresh_applied(
                            ret0[k],
                            rf,
                            #[trigger] data.connectors@[k],
                        ),
                        None => data.connectors@[k] == ret0[k],
                    }) by {
                        if k == ci as int {
                            assert(spec_refresh_of(refreshes0.skip(m - 1), ret0[k].id) == Some(
                                entry_g,
                            ));
                        } else {
                            assert(ret0[k].id != ret0[ci as int].id);
                            assert(spec_refresh_of(refreshes0.skip(m - 1), ret0[k].id)
                                == spec_refresh_of(refreshes0.skip(m), ret0[k].id));
                        }
                    }
                }
            },
            None => {
                proof {
                    assert forall|k: int|
                        0 <= k < ret0.len() implies (match spec_refresh_of(
                        refreshes0.skip(m - 1),
                        ret0[k].id,
                    ) {
                        Some(rf) => spec_refresh_applied(
                            ret0[k],
                            rf,
                            #[trigger] data.connectors@[k],
                        ),
                        None => data.connectors@[k] == ret0[k],
                    }) by {
                        assert(data.connectors@[k].id == ret0[k].id) by {
                            assert(match spec_refresh_of(refreshes0.skip(m), ret0[k].id) {
                                Some(rf) => spec_refresh_applied(
                                    ret0[k],
                                    rf,
                                    data.connectors@[k],
                                ),
                                None => data.connectors@[k] == ret0[k],
                            });
                        }
                        assert(entry_g.id != ret0[k].id);
                        assert(spec_refresh_of(refreshes0.skip(m - 1), ret0[k].id)
                            == spec_refresh_of(refreshes0.skip(m), ret0[k].id));
                    }
                }
            },
        }
    }
    proof {
        assert(refreshes0.skip(0) =~= refreshes0);
    }
    let ghost ref1 = data.connectors@;
    let mut events: Vec<BackendEvent> = Vec::new();
    let na = snapshot.additions.len();
    let nr = data.connectors.len();
    let mut ai: usize = 0;
    while ai < na
        invariant
            na == snapshot.additions@.len(),
            snapshot.additions@ == snap0.additions@,
            ai <= na,
            nr == ref1.len(),
            forall|j: int, k: int|
                0 <= j < k < data.dev.encoders@.len() ==> (#[trigger] data.dev.encoders@[j]).id
                    != (#[trigger] data.dev.encoders@[k]).id,
            forall|q: int|
                0 <= q < na ==> (#[trigger] snapshot.additions@[q]).modes_ok(),
            data.futures@.len() == data.connectors@.len(),
            data.connectors@.len() == nr + spec_built_ids(snap0.additions@.take(ai as int)).len(),
            data.connectors@.take(nr as int) == ref1,
            events@ == spec_new_connector_events(snap0.additions@.take(ai as int)),
            forall|k: int|
                nr <= k < data.connectors@.len() ==> {
                    let c = #[trigger] data.connectors@[k];
                    &&& c.id == spec_built_ids(snap0.additions@.take(ai as int))[k - nr]
                    &&& c.can_present
                    &&& c.has_damage
                    &&& !c.connect_sent
                    &&& c.cursor_generation == 0
                },
            forall|j: int|
                0 <= j < ref1.len() ==> (#[trigger] ref1[j]).cursor_generation < u64::MAX - 1,
        decreases na - ai,
    {
        proof {
            assert(snap0.additions@.take(ai + 1).drop_last() =~= snap0.additions@.take(ai as int));
            assert(snap0.additions@.take(ai + 1).last() == snap0.additions@[ai as int]);
        }
        let ghost conns_prev = data.connectors@;
        match create_connector(&snapshot.additions[ai], &data.dev.encoders) {
            Ok((c, f)) => {
                events.push(BackendEvent::NewConnector(c.connector_id));
                data.connectors.push(c);
                data.futures.push(f);
                proof {
                    assert(data.connectors@.take(nr as int) =~= conns_prev.take(nr as int));
                    assert(events@ =~= spec_new_connector_events(snap0.additions@.take(ai + 1)));
                }
            },
            Err(_) => {},
        }
        ai = ai + 1;
    }
    proof {
        assert(snap0.additions@.take(na as int) =~= snap0.additions@);
    }
    let have_ctx = backend.ctx.is_some();
    let ghost pre_init = *data;
    let init = if data.connectors.len() <= 100_000 && provisions.len() >= data.connectors.len()
        && data.dev.crtcs.len() <= 32 && data.dev.planes.len() <= 100_000
        && data.dev.next_blob_id as u64 + data.connectors.len() as u64 <= u32::MAX as u64 {
        let mut ok = true;
        let ncheck = data.connectors.len();
        let mut w: usize = 0;
        while w < ncheck
            invariant
                ncheck == data.connectors@.len(),
                w <= ncheck,
                *data == pre_init,
                ok ==> forall|j: int|
                    0 <= j < w ==> (#[trigger] data.connectors@[j]).cursor_generation < u64::MAX,
            decreases ncheck - w,
        {
            if data.connectors[w].cursor_generation >= u64::MAX - 1 {
                ok = false;
            }
            w = w + 1;
        }
        let unique = connector_ids_unique(data);
        if ok && unique && spec_dev_wf_check(data) {
            init_drm_device(data, &mut preserve, have_ctx, provisions)
        } else {
            InitOutcome { reused: false, commits: Vec::new(), old_buffers: Vec::new() }
        }
    } else {
        InitOutcome { reused: false, commits: Vec::new(), old_buffers: Vec::new() }
    };
    proof {
        assert forall|k: int|
            0 <= k < pre_init.connectors@.len() implies spec_pass_kept(
            pre_init.connectors@[k],
            #[trigger] data.connectors@[k],
        ) by {
            let e0 = pre_init.connectors@[k].events@;
            let e1 = data.connectors@[k].events@;
            if e1 == e0 {
                assert(e1.take(e0.len() as int) =~= e0);
            } else {
                assert(e1.take(e0.len() as int) =~= e0);
            }
        }
    }
    let ghost arm0 = data.connectors@;
    let nf = data.connectors.len();
    let mut fi: usize = 0;
    while fi < nf
        invariant
            nf == data.connectors@.len(),
            nf == arm0.len(),
            fi <= nf,
            data.futures@.len() == data.connectors@.len(),
            forall|j: int| fi <= j < nf ==> #[trigger] data.connectors@[j] == arm0[j],
            forall|j: int|
                0 <= j < fi ==> spec_armed(arm0[j], #[trigger] data.connectors@[j]),
        decreases nf - fi,
    {
        let ghost c_before = data.connectors@[fi as int];
        let is_connected = data.connectors[fi].connected();
        if is_connected {
            let id = data.connectors[fi].id;
            if !preserve.has_connector(id) {
                data.connectors[fi].can_present = true;
            }
            if !data.connectors[fi].connect_sent {
                if data.connectors[fi].cursor_generation < u64::MAX - 1 {
                    let info = monitor_info_of(&data.connectors[fi].display);
                    if let Some(info) = info {
                        send_connected(&mut data.connectors[fi], info);
                    }
                }
            }
            start_connector(&mut data.connectors[fi]);
        }
        proof {
            assert(spec_armed(c_before, data.connectors@[fi as int])) by {
                let c1 = data.connectors@[fi as int];
                if is_connected {
                    assert(c1.events@.take(c_before.events@.len() as int)
                        =~= c_before.events@);
                }
            }
        }
        fi = fi + 1;
    }
    data.unprocessed_change = false;
    let r = ChangeOutcome { removed, init, events };
    proof {
        lemma_assemble_pass(
            orig_old,
            orig,
            ret0,
            refreshes0,
            ref1,
            pre_init.connectors@,
            arm0,
            data.connectors@,
            removed@,
            events@,
            snap0,
        );
    }
    r
}

/// Chains the facts the pass's phases leave behind into the pass-level
/// settlement of every removed, surviving and added connector.
#[verifier::rlimit(100)]
proof fn lemma_assemble_pass(
    orig_old: Seq<MetalConnector>,
    orig: Seq<MetalConnector>,
    ret0: Seq<MetalConnector>,
    refreshes0: Seq<ConnectorRefresh>,
    ref1: Seq<MetalConnector>,
    pre_init: Seq<MetalConnector>,
    arm0: Seq<MetalConnector>,
    fin: Seq<MetalConnector>,
    removed: Seq<MetalConnector>,
    events: Seq<BackendEvent>,
    snap0: DeviceChangeSnapshot,
)
    requires
        orig.len() == orig_old.len(),
        forall|j: int| 0 <= j < orig_old.len() ==> spec_upd_eq(#[trigger] orig_old[j], orig[j]),
        ret0 == spec_retained(orig, snap0.current@),
        removed.len() == spec_removed(orig, snap0.current@).len(),
        forall|k: int|
            0 <= k < removed.len() ==> {
                let oc = spec_removed(orig, snap0.current@)[k];
                let c = #[trigger] removed[k];
                &&& c.id == oc.id
                &&& !snap0.current@.contains(c.id)
                &&& c.connect_sent == oc.connect_sent
                &&& c.events@ == oc.events@ + (if oc.connect_sent {
                    seq![ConnectorEvent::Disconnected, ConnectorEvent::Removed]
                } else {
                    seq![ConnectorEvent::Removed]
                })
            },
        ref1.len() == ret0.len(),
        forall|k: int|
            0 <= k < ret0.len() ==> (match spec_refresh_of(refreshes0, ret0[k].id) {
                Some(rf) => spec_refresh_applied(ret0[k], rf, #[trigger] ref1[k]),
                None => ref1[k] == ret0[k],
            }),
        refreshes0 == snap0.refreshes@,
        pre_init.len() == ref1.len() + spec_built_ids(snap0.additions@).len(),
        pre_init.take(ref1.len() as int) == ref1,
        forall|k: int|
            ref1.len() <= k < pre_init.len() ==> {
                let c = #[trigger] pre_init[k];
                &&& c.id == spec_built_ids(snap0.additions@)[k - ref1.len()]
                &&& c.can_present
                &&& c.has_damage
            },
        arm0.len() == pre_init.len(),
        forall|k: int|
            0 <= k < pre_init.len() ==> spec_pass_kept(#[trigger] pre_init[k], arm0[k]),
        fin.len() == arm0.len(),
        forall|k: int| 0 <= k < arm0.len() ==> spec_armed(#[trigger] arm0[k], fin[k]),
        events == spec_new_connector_events(snap0.additions@),
    ensures
        removed.len() == spec_removed(orig_old, snap0.current@).len(),
        forall|k: int|
            0 <= k < spec_removed(orig_old, snap0.current@).len() ==> {
                let c = removed[k];
                let oc = #[trigger] spec_removed(orig_old, snap0.current@)[k];
                &&& c.id == oc.id
                &&& !snap0.current@.contains(c.id)
                &&& c.connect_sent == oc.connect_sent
                &&& c.events@ == oc.events@ + (if oc.connect_sent {
                    seq![ConnectorEvent::Disconnected, ConnectorEvent::Removed]
                } else {
                    seq![ConnectorEvent::Removed]
                })
            },
        fin.len() == spec_retained(orig_old, snap0.current@).len() + spec_built_ids(
            snap0.additions@,
        ).len(),
        forall|k: int|
            0 <= k < spec_retained(orig_old, snap0.current@).len() ==> spec_retained_settled(
                #[trigger] spec_retained(orig_old, snap0.current@)[k],
                snap0,
                fin[k],
            ),
        forall|k: int|
            spec_retained(orig_old, snap0.current@).len() <= k < fin.len() ==> {
                let c = #[trigger] fin[k];
                &&& c.id == spec_built_ids(snap0.additions@)[k - spec_retained(
                    orig_old,
                    snap0.current@,
                ).len()]
                &&& c.can_present
                &&& c.has_damage
            },
        forall|k: int|
            0 <= k < fin.len() ==> ((#[trigger] fin[k]).enabled && fin[k].display.connection
                == ConnectorStatus::Connected && fin[k].primary_plane is Some ==> (
            fin[k].has_damage && fin[k].cursor_changed && fin[k].present_scheduled)),
{
    let current = snap0.current@;
    lemma_diff_respects_upd(orig_old, orig, current);
    let rm_old = spec_removed(orig_old, current);
    let rt_old = spec_retained(orig_old, current);
    let rm_upd = spec_removed(orig, current);
    let rt_upd = spec_retained(orig, current);
    assert forall|k: int|
        0 <= k < rm_old.len() implies {
        let c = removed[k];
        let oc = #[trigger] rm_old[k];
        &&& c.id == oc.id
        &&& !current.contains(c.id)
        &&& c.connect_sent == oc.connect_sent
        &&& c.events@ == oc.events@ + (if oc.connect_sent {
            seq![ConnectorEvent::Disconnected, ConnectorEvent::Removed]
        } else {
            seq![ConnectorEvent::Removed]
        })
    } by {
        assert(spec_upd_eq(rm_old[k], rm_upd[k]));
    }
    assert forall|k: int|
        0 <= k < rt_old.len() implies spec_retained_settled(
        #[trigger] rt_old[k],
        snap0,
        fin[k],
    ) by {
        let oc = rt_old[k];
        let ocu = rt_upd[k];
        assert(spec_upd_eq(oc, ocu));
        assert(ocu == ret0[k]);
        assert(pre_init[k] == ref1[k]) by {
            assert(pre_init.take(ref1.len() as int)[k] == pre_init[k]);
        }
        assert(spec_pass_kept(ref1[k], arm0[k]));
        assert(spec_armed(arm0[k], fin[k]));
        match spec_refresh_of(refreshes0, oc.id) {
            Some(rf) => {
                match rf.display {
                    Some(fresh) => {
                        assert(spec_same_monitor(&fresh, &ocu.display) == spec_same_monitor(
                            &fresh,
                            &oc.display,
                        ));
                        if spec_forced_off(oc, fresh) {
                            assert(spec_forced_off(ocu, fresh));
                            assert(ref1[k].events@[oc.events@.len() as int]
                                == ConnectorEvent::Disconnected);
                            assert(arm0[k].events@.take(ref1[k].events@.len() as int)
                                == ref1[k].events@);
                            assert(arm0[k].events@[oc.events@.len() as int]
                                == ConnectorEvent::Disconnected);
                            assert(fin[k].events@[oc.events@.len() as int]
                                == ConnectorEvent::Disconnected) by {
                                if !(arm0[k].enabled && arm0[k].display.connection
                                    == ConnectorStatus::Connected
                                    && arm0[k].primary_plane is Some) {
                                    assert(fin[k] == arm0[k]);
                                } else {
                                    assert(fin[k].events@.take(arm0[k].events@.len() as int)
                                        == arm0[k].events@);
                                }
                            }
                        }
                    },
                    None => {},
                }
            },
            None => {},
        }
    }
    assert forall|k: int|
        rt_old.len() <= k < fin.len() implies {
        let c = #[trigger] fin[k];
        &&& c.id == spec_built_ids(snap0.additions@)[k - rt_old.len()]
        &&& c.can_present
        &&& c.has_damage
    } by {
        assert(spec_pass_kept(pre_init[k], arm0[k]));
        assert(spec_armed(arm0[k], fin[k]));
    }
    assert forall|k: int|
        0 <= k < fin.len() implies ((#[trigger] fin[k]).enabled && fin[k].display.connection
        == ConnectorStatus::Connected && fin[k].primary_plane is Some ==> (fin[k].has_damage
        && fin[k].cursor_changed && fin[k].present_scheduled)) by {
        assert(spec_armed(arm0[k], fin[k]));
    }
}

impl MetalBackend {
    /// One full device-change pass, from the backend's point of view; the
    /// work is described on `handle_drm_change_`.
    pub fn handle_drm_change(
        &mut self,
        data: &mut MetalDrmDeviceData,
        snapshot: DeviceChangeSnapshot,
        provisions: &mut Vec<(Option<RenderBufferPair>, Option<RenderBufferPair>)>,
        preserve_any: bool,
    ) -> (r: ChangeOutcome)
        requires
            spec_change_pass_ok(*old(data), snapshot, old(provisions)@),
            old(data).futures@.len() == old(data).connectors@.len(),
        ensures
            spec_change_pass_done(old(data).connectors@, snapshot, *final(data), r),
    {
        handle_drm_change_(self, data, snapshot, provisions, preserve_any)
    }
}

/// Exec check that the device's crtc and plane ids are unique.
fn spec_dev_wf_check(data: &MetalDrmDeviceData) -> (r: bool)
    ensures
        r ==> spec_dev_wf(*data),
{
    let nc = data.dev.crtcs.len();
    for i in 0..nc
        invariant
            nc == data.dev.crtcs@.len(),
            forall|j: int, k: int|
                0 <= j < k < i ==> (#[trigger] data.dev.crtcs@[j]).id
                    != (#[trigger] data.dev.crtcs@[k]).id,
    {
        for j in 0..i
            invariant
                i < nc,
                nc == data.dev.crtcs@.len(),
                forall|w: int| 0 <= w < j ==> (#[trigger] data.dev.crtcs@[w]).id
                    != data.dev.crtcs@[i as int].id,
        {
            if data.dev.crtcs[j].id == data.dev.crtcs[i].id {
                return false;
            }
        }
        proof {
            assert forall|j: int, k: int|
                0 <= j < k < i + 1 implies (#[trigger] data.dev.crtcs@[j]).id
                != (#[trigger] data.dev.crtcs@[k]).id by {}
        }
    }
    let np = data.dev.planes.len();
    for i in 0..np
        invariant
            np == data.dev.planes@.len(),
            forall|j: int, k: int|
                0 <= j < k < data.dev.crtcs@.len() ==> (#[trigger] data.dev.crtcs@[j]).id
                    != (#[trigger] data.dev.crtcs@[k]).id,
            forall|j: int, k: int|
                0 <= j < k < i ==> (#[trigger] data.dev.planes@[j]).id
                    != (#[trigger] data.dev.planes@[k]).id,
    {
        for j in 0..i
            invariant
                i < np,
                np == data.dev.planes@.len(),
                forall|w: int| 0 <= w < j ==> (#[trigger] data.dev.planes@[w]).id
                    != data.dev.planes@[i as int].id,
        {
            if data.dev.planes[j].id == data.dev.planes[i].id {
                return false;
            }
        }
        proof {
            assert forall|j: int, k: int|
                0 <= j < k < i + 1 implies (#[trigger] data.dev.planes@[j]).id
                != (#[trigger] data.dev.planes@[k]).id by {}
        }
    }
    true
}

/// Exec check that the device's connector ids are unique.
fn connector_ids_unique(data: &MetalDrmDeviceData) -> (r: bool)
    ensures
        r ==> forall|j: int, k: int|
            0 <= j < k < data.connectors@.len() ==> (#[trigger] data.connectors@[j]).id
                != (#[trigger] data.connectors@[k]).id,
{
    let n = data.connectors.len();
    for i in 0..n
        invariant
            n == data.connectors@.len(),
            forall|j: int, k: int|
                0 <= j < k < i ==> (#[trigger] data.connectors@[j]).id
                    != (#[trigger] data.connectors@[k]).id,
    {
        for j in 0..i
            invariant
                i < n,
                n == data.connectors@.len(),
                forall|w: int| 0 <= w < j ==> (#[trigger] data.connectors@[w]).id
                    != data.connectors@[i as int].id,
        {
            if data.connectors[j].id == data.connectors[i].id {
                return false;
            }
        }
        proof {
            assert forall|j: int, k: int|
                0 <= j < k < i + 1 implies (#[trigger] data.connectors@[j]).id
                != (#[trigger] data.connectors@[k]).id by {}
        }
    }
    true
}

/// A connector armed for the resume pass: presenting allowed, damage and
/// a cursor change pending, everything else as it was.
pub open spec fn spec_arm(c: MetalConnector) -> MetalConnector {
    MetalConnector { can_present: true, has_damage: true, cursor_changed: true, ..c }
}

/// Every connector of the list, armed.
pub open spec fn spec_armed_all(cs: Seq<MetalConnector>) -> Seq<MetalConnector> {
    Seq::new(cs.len(), |i: int| spec_arm(cs[i]))
}

/// Wakes a device after a suspend: every connector may present again and
/// is marked fully damaged, and one change pass runs on that armed state
/// without preserving anything — which also retries a change pass that
/// failed before the suspend.
pub fn resume_drm_device(
    backend: &mut MetalBackend,
    data: &mut MetalDrmDeviceData,
    snapshot: DeviceChangeSnapshot,
    provisions: &mut Vec<(Option<RenderBufferPair>, Option<RenderBufferPair>)>,
) -> (r: ChangeOutcome)
    requires
        spec_change_pass_ok(*old(data), snapshot, old(provisions)@),
        old(data).futures@.len() == old(data).connectors@.len(),
    ensures
        spec_change_pass_done(
            spec_armed_all(old(data).connectors@),
            snapshot,
            *final(data),
            r,
        ),
{
    let ghost armed = spec_armed_all(old(data).connectors@);
    let n = data.connectors.len();
    let mut i: usize = 0;
    while i < n
        invariant
            n == data.connectors@.len(),
            n == old(data).connectors@.len(),
            i <= n,
            *data == (MetalDrmDeviceData { connectors: data.connectors, ..*old(data) }),
            forall|j: int|
                i <= j < n ==> #[trigger] data.connectors@[j] == old(data).connectors@[j],
            forall|j: int|
                0 <= j < i ==> #[trigger] data.connectors@[j] == spec_arm(
                    old(data).connectors@[j],
                ),
        decreases n - i,
    {
        data.connectors[i].can_present = true;
        data.connectors[i].has_damage = true;
        data.connectors[i].cursor_changed = true;
        i = i + 1;
    }
    proof {
        assert(data.connectors@ =~= armed);
        assert(snapshot.properties.covers(*data));
        assert(spec_change_pass_ok(*data, snapshot, provisions@)) by {
            assert forall|j: int, k: int|
                0 <= j < k < data.connectors@.len() implies (#[trigger] data.connectors@[j]).id
                != (#[trigger] data.connectors@[k]).id by {
                assert(data.connectors@[j].id == old(data).connectors@[j].id);
                assert(data.connectors@[k].id == old(data).connectors@[k].id);
            }
            assert forall|j: int, k: int|
                0 <= j < data.connectors@.len() && 0 <= k < snapshot.additions@.len() implies (
                #[trigger] data.connectors@[j]).id != (#[trigger] snapshot.additions@[k]).id by {
                assert(data.connectors@[j].id == old(data).connectors@[j].id);
            }
            assert forall|j: int|
                0 <= j < data.connectors@.len() implies (#[trigger] data.connectors@[
                    j
                ]).cursor_generation < u64::MAX - 1 by {
                assert(data.connectors@[j].cursor_generation == old(
                    data,
                ).connectors@[j].cursor_generation);
            }
        }
    }
    handle_drm_change_(backend, data, snapshot, provisions, false)
}

} // verus!
