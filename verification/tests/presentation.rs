//! Tests of the present path, the hardware cursor and the change handler:
//! commit outcomes, flip events, cursor generations and monitor
//! replacement.

use jay::backend::{ConnectorEvent, ConnectorId, TaskHandle};
use jay::buffer::{DrmDeviceId, GfxHandle, GfxHandleAlloc, RenderBufferPair, create_scanout_buffer};
use jay::change::{
    CrtcSnapshot, DeviceChangeSnapshot, MetalBackend, PropertySnapshot, apply_modeset_outcome,
    monitor_info_of, refresh_connector, send_connected, start_connector, update_device_properties,
};
use jay::drm::{
    DRM_MODE_ATOMIC_ALLOW_MODESET, DRM_MODE_ATOMIC_NONBLOCK, DRM_MODE_PAGE_FLIP_EVENT,
    ConnectorStatus, ConnectorType, DrmBlob, DrmConnector, DrmCrtc, DrmFb, DrmModeInfo, DrmPlane,
    DrmProperty,
};
use jay::format::{ARGB8888_DRM, XRGB8888_DRM};
use jay::present::{CommitOutcome, finish_present, handle_drm_flip_event, prepare_present};
use jay::inventory::{ConnectorQuery, MonitorIdentity};
use jay::props::{CollectedProperties, CollectedProperty, DrmPropertyType, MutableProperty};
use jay::video::{
    ConnectorDisplayData, ConnectorFutures, HandleEvents, MetalConnector, MetalCrtc, MetalDrmDevice,
    MetalDrmDeviceData, MetalEncoder, MetalHardwareCursor, MetalPlane, MetalRenderContext,
    PlaneType, Preserve,
};

fn mode_1080p() -> DrmModeInfo {
    DrmModeInfo {
        clock: 148500,
        hdisplay: 1920,
        hsync_start: 2008,
        hsync_end: 2052,
        htotal: 2200,
        hskew: 0,
        vdisplay: 1080,
        vsync_start: 1084,
        vsync_end: 1089,
        vtotal: 1125,
        vscan: 0,
        vrefresh: 60,
        flags: 5,
        ty: 64,
    }
}

fn prop(id: u32) -> DrmProperty {
    DrmProperty(id)
}

fn plane(id: u32, ty: PlaneType, formats: Vec<u32>) -> MetalPlane {
    MetalPlane {
        id: DrmPlane(id),
        ty,
        possible_crtcs: 1,
        formats,
        assigned: false,
        crtc_id: MutableProperty { id: prop(id * 10 + 1), value: DrmCrtc(0) },
        crtc_x: MutableProperty { id: prop(id * 10 + 2), value: 0 },
        crtc_y: MutableProperty { id: prop(id * 10 + 3), value: 0 },
        crtc_w: MutableProperty { id: prop(id * 10 + 4), value: 0 },
        crtc_h: MutableProperty { id: prop(id * 10 + 5), value: 0 },
        src_x: MutableProperty { id: prop(id * 10 + 6), value: 0 },
        src_y: MutableProperty { id: prop(id * 10 + 7), value: 0 },
        src_w: MutableProperty { id: prop(id * 10 + 8), value: 0 },
        src_h: MutableProperty { id: prop(id * 10 + 9), value: 0 },
        in_fence_fd: prop(id * 10),
        fb_id: prop(id * 100),
    }
}

fn crtc(id: u32, idx: usize, possible_planes: Vec<u32>) -> MetalCrtc {
    MetalCrtc {
        id: DrmCrtc(id),
        idx,
        possible_planes: possible_planes.into_iter().map(DrmPlane).collect(),
        connector: None,
        active: MutableProperty { id: prop(id * 1000 + 1), value: false },
        mode_id: MutableProperty { id: prop(id * 1000 + 2), value: DrmBlob(0) },
        out_fence_ptr: prop(id * 1000 + 3),
        mode_blob: None,
        current_mode: None,
    }
}

fn display_data(crtcs: Vec<u32>, mode: Option<DrmModeInfo>, serial: &str) -> ConnectorDisplayData {
    ConnectorDisplayData {
        crtc_id: MutableProperty { id: prop(900), value: DrmCrtc(0) },
        crtcs: crtcs.into_iter().map(DrmCrtc).collect(),
        modes: mode.iter().copied().collect(),
        mode,
        refresh: 16_666_666,
        monitor_manufacturer: "ACM".to_string(),
        monitor_name: "Display".to_string(),
        monitor_serial_number: serial.to_string(),
        connection: ConnectorStatus::Connected,
        mm_width: 600,
        mm_height: 340,
        subpixel: 0,
        connector_type: ConnectorType::DisplayPort,
        connector_type_id: 1,
    }
}

fn connector(id: u32, dd: ConnectorDisplayData) -> MetalConnector {
    MetalConnector {
        id: DrmConnector(id),
        connector_id: ConnectorId(id as u64),
        events: Vec::new(),
        buffers: None,
        next_buffer: 0,
        enabled: true,
        can_present: true,
        has_damage: true,
        cursor_changed: false,
        display: dd,
        connect_sent: false,
        primary_plane: None,
        cursor_plane: None,
        crtc: None,
        on_change: jay::video::OnChange { armed: false, pending: false },
        present_scheduled: false,
        cursor_generation: 0,
        cursor_x: 0,
        cursor_y: 0,
        cursor_enabled: false,
        cursor_buffers: None,
        cursor_front_buffer: 0,
        cursor_swap_buffer: false,
    }
}

fn device(
    crtcs: Vec<MetalCrtc>,
    planes: Vec<MetalPlane>,
    connectors: Vec<MetalConnector>,
) -> MetalDrmDeviceData {
    let futures = connectors
        .iter()
        .map(|_| ConnectorFutures { present: TaskHandle(1) })
        .collect();
    MetalDrmDeviceData {
        dev: MetalDrmDevice {
            id: DrmDeviceId(1),
            devnum: 7,
            devnode: "node".to_string(),
            crtcs,
            encoders: vec![MetalEncoder { id: jay::drm::DrmEncoder(40), crtcs: vec![DrmCrtc(30)] }],
            planes,
            min_width: 0,
            max_width: 16384,
            min_height: 0,
            max_height: 16384,
            cursor_width: 64,
            cursor_height: 64,
            handle_events: HandleEvents { handle_events: None },
            ctx: MetalRenderContext { dev_id: DrmDeviceId(1), gfx: GfxHandle(1) },
            next_blob_id: 1,
        },
        connectors,
        futures,
        unprocessed_change: false,
    }
}

fn pair(ids: &mut GfxHandleAlloc, dev: u64, render: u64, fb0: u32, fb1: u32) -> RenderBufferPair {
    RenderBufferPair {
        b0: create_scanout_buffer(
            DrmDeviceId(dev),
            DrmDeviceId(render),
            ids,
            DrmFb(fb0),
            1920,
            1080,
            XRGB8888_DRM,
            false,
        ),
        b1: create_scanout_buffer(
            DrmDeviceId(dev),
            DrmDeviceId(render),
            ids,
            DrmFb(fb1),
            1920,
            1080,
            XRGB8888_DRM,
            false,
        ),
    }
}

fn configured_device(render_dev: u64) -> MetalDrmDeviceData {
    let mut data = device(
        vec![crtc(30, 0, vec![20, 21])],
        vec![
            plane(20, PlaneType::Primary, vec![XRGB8888_DRM]),
            plane(21, PlaneType::Cursor, vec![ARGB8888_DRM]),
        ],
        vec![connector(50, display_data(vec![30], Some(mode_1080p()), "S1"))],
    );
    let mut ids = GfxHandleAlloc::new();
    let primary = pair(&mut ids, 1, render_dev, 70, 71);
    let cursor = pair(&mut ids, 1, render_dev, 72, 73);
    let mut provisions = vec![(Some(primary), Some(cursor))];
    let mut preserve = Preserve::new();
    let outcome = init_drm(&mut data, &mut preserve, &mut provisions);
    assert_eq!(outcome, 1);
    data
}

fn init_drm(
    data: &mut MetalDrmDeviceData,
    preserve: &mut Preserve,
    provisions: &mut Vec<(Option<RenderBufferPair>, Option<RenderBufferPair>)>,
) -> usize {
    let outcome = jay::allocator::init_drm_device(data, preserve, true, provisions);
    outcome.commits.len()
}

/// Scenario: after a full modeset, a damage-only present issues a commit
/// without the allow-modeset flag.
#[test]
fn damage_present_commits_without_allow_modeset() {
    let mut data = configured_device(1);
    data.connectors[0].has_damage = true;
    let plan = prepare_present(&mut data, 0, true).expect("present plan");
    assert_eq!(plan.flags, DRM_MODE_ATOMIC_NONBLOCK | DRM_MODE_PAGE_FLIP_EVENT);
    assert_eq!(plan.flags & DRM_MODE_ATOMIC_ALLOW_MODESET, 0);
    let render = plan.render.expect("render step");
    assert_eq!(render.buffer, 0);
    assert!(!render.copy_bridge);
    assert_eq!(data.connectors[0].next_buffer, 1);
    finish_present(&mut data.connectors[0], CommitOutcome::Success);
    assert!(!data.connectors[0].can_present);
    assert!(!data.connectors[0].has_damage);
    assert!(!data.connectors[0].cursor_changed);
}

/// Scenario: the atomic commit fails because the compositor is no longer
/// the DRM master.  The damage and cursor flags stay set for a retry, the
/// permission to present is not taken away, nothing crashes, and the next
/// successful commit clears them.
#[test]
fn master_loss_keeps_flags_for_a_retry() {
    let mut data = configured_device(1);
    data.connectors[0].has_damage = true;
    data.connectors[0].cursor_changed = true;
    data.connectors[0].cursor_enabled = true;
    let _plan = prepare_present(&mut data, 0, true).expect("present plan");
    finish_present(&mut data.connectors[0], CommitOutcome::NotMaster);
    assert!(data.connectors[0].has_damage);
    assert!(data.connectors[0].cursor_changed);
    assert!(data.connectors[0].can_present);
    // Any other failure behaves the same.
    finish_present(&mut data.connectors[0], CommitOutcome::OtherError);
    assert!(data.connectors[0].has_damage);
    assert!(data.connectors[0].cursor_changed);
    // The next successful commit clears the flags and forbids presenting
    // until the flip completes.
    let _plan = prepare_present(&mut data, 0, true).expect("present plan");
    finish_present(&mut data.connectors[0], CommitOutcome::Success);
    assert!(!data.connectors[0].has_damage);
    assert!(!data.connectors[0].cursor_changed);
    assert!(!data.connectors[0].can_present);
}

#[test]
fn present_needs_permission_and_pending_work() {
    let mut data = configured_device(1);
    data.connectors[0].has_damage = false;
    data.connectors[0].cursor_changed = false;
    assert!(prepare_present(&mut data, 0, true).is_none());
    data.connectors[0].has_damage = true;
    data.connectors[0].can_present = false;
    assert!(prepare_present(&mut data, 0, true).is_none());
    data.connectors[0].can_present = true;
    data.dev.crtcs[0].active.value = false;
    assert!(prepare_present(&mut data, 0, true).is_none());
    data.dev.crtcs[0].active.value = true;
    // A damaged output cannot present without a render context.
    assert!(prepare_present(&mut data, 0, false).is_none());
    assert!(prepare_present(&mut data, 0, true).is_some());
}

/// The flip-complete event allows presenting again and reschedules when
/// work is still pending.
#[test]
fn flip_event_allows_presenting_again_and_reschedules() {
    let mut data = configured_device(1);
    data.connectors[0].has_damage = true;
    let _ = prepare_present(&mut data, 0, true).expect("present plan");
    finish_present(&mut data.connectors[0], CommitOutcome::Success);
    assert!(!data.connectors[0].can_present);
    data.connectors[0].has_damage = true;
    let feedback = handle_drm_flip_event(&mut data, DrmCrtc(30), 123, 456, 9);
    assert!(data.connectors[0].can_present);
    assert!(data.connectors[0].present_scheduled);
    assert_eq!(feedback.connector, Some(ConnectorId(50)));
    assert_eq!(feedback.tv_sec, 123);
    assert_eq!(feedback.tv_nsec, 456_000);
    assert_eq!(feedback.sequence, 9);
    // A flip for an unknown crtc resolves no connector.
    let feedback = handle_drm_flip_event(&mut data, DrmCrtc(99), 1, 2, 3);
    assert_eq!(feedback.connector, None);
}

/// Scenario: the display device differs from the active render device.
/// Every scanout buffer then carries a bridge, and the presented frame is
/// rendered into the bridge framebuffer and copied through the imported
/// texture.
#[test]
fn cross_device_present_renders_through_the_bridge() {
    let mut ids = GfxHandleAlloc::new();
    let b = create_scanout_buffer(
        DrmDeviceId(1),
        DrmDeviceId(2),
        &mut ids,
        DrmFb(70),
        1920,
        1080,
        XRGB8888_DRM,
        false,
    );
    assert!(b.dev_tex.is_some());
    assert!(b.render_fb.is_some());
    assert_eq!(b.render_fb(), b.render_fb.unwrap());
    let mut data = configured_device(2);
    data.connectors[0].has_damage = true;
    let plan = prepare_present(&mut data, 0, true).expect("present plan");
    assert!(plan.render.expect("render step").copy_bridge);
}

/// A hardware-cursor commit from a stale generation has no effect.
#[test]
fn stale_cursor_generation_commits_nothing() {
    let mut data = configured_device(1);
    data.connectors[0].cursor_generation = 3;
    let before = format!("{:?}", data.connectors[0]);
    let mut hc = MetalHardwareCursor {
        generation: 2,
        cursor_swap_buffer: true,
        cursor_enabled_pending: true,
        cursor_x_pending: 10,
        cursor_y_pending: 20,
        have_changes: true,
    };
    hc.commit(&mut data.connectors[0]);
    let after = format!("{:?}", data.connectors[0]);
    assert_eq!(before, after);
    assert!(hc.have_changes);
}

#[test]
fn current_cursor_generation_commits_staged_state() {
    let mut data = configured_device(1);
    data.connectors[0].cursor_generation = 2;
    let mut hc = MetalHardwareCursor {
        generation: 2,
        cursor_swap_buffer: false,
        cursor_enabled_pending: false,
        cursor_x_pending: 0,
        cursor_y_pending: 0,
        have_changes: false,
    };
    hc.set_enabled(true);
    hc.set_position(10, 20);
    hc.swap_buffer();
    hc.commit(&mut data.connectors[0]);
    let c = &data.connectors[0];
    assert!(c.cursor_enabled);
    assert_eq!(c.cursor_x, 10);
    assert_eq!(c.cursor_y, 20);
    assert!(c.cursor_swap_buffer);
    assert!(c.cursor_changed);
    assert!(c.present_scheduled);
    assert!(!hc.have_changes);
}

#[test]
fn cursor_swap_advances_front_buffer_in_present() {
    let mut data = configured_device(1);
    data.connectors[0].has_damage = false;
    data.connectors[0].cursor_changed = true;
    data.connectors[0].cursor_enabled = true;
    data.connectors[0].cursor_swap_buffer = true;
    assert_eq!(data.connectors[0].cursor_front_buffer, 0);
    let _ = prepare_present(&mut data, 0, true).expect("present plan");
    assert_eq!(data.connectors[0].cursor_front_buffer, 1);
    assert!(!data.connectors[0].cursor_swap_buffer);
}

/// Scenario: the monitor behind a connected, announced connector is
/// replaced by one with a different serial number.  The connector is
/// forced through a disconnect instead of silently keeping the old
/// presentation state.
#[test]
fn monitor_replacement_forces_a_disconnect() {
    let mut c = connector(50, display_data(vec![30], Some(mode_1080p()), "SERIAL-A"));
    c.connect_sent = true;
    let fresh = display_data(vec![30], Some(mode_1080p()), "SERIAL-B");
    let preserve_me = refresh_connector(&mut c, fresh, true);
    assert!(!preserve_me);
    assert!(!c.connect_sent);
    assert!(matches!(c.events.last(), Some(ConnectorEvent::Disconnected)));
    assert_eq!(c.display.monitor_serial_number, "SERIAL-B");
}

#[test]
fn unchanged_monitor_is_preserve_eligible() {
    let mut c = connector(50, display_data(vec![30], Some(mode_1080p()), "SERIAL-A"));
    c.connect_sent = true;
    let fresh = display_data(vec![30], Some(mode_1080p()), "SERIAL-A");
    assert!(refresh_connector(&mut c, fresh, true));
    assert!(c.connect_sent);
    assert!(c.events.is_empty());
    // The same refresh without preservation allowed is not eligible.
    let fresh = display_data(vec![30], Some(mode_1080p()), "SERIAL-A");
    assert!(!refresh_connector(&mut c, fresh, false));
    assert!(c.connect_sent);
}

#[test]
fn disabled_connector_is_forced_through_disconnect() {
    let mut c = connector(50, display_data(vec![30], Some(mode_1080p()), "SERIAL-A"));
    c.connect_sent = true;
    c.enabled = false;
    let fresh = display_data(vec![30], Some(mode_1080p()), "SERIAL-A");
    assert!(!refresh_connector(&mut c, fresh, true));
    assert!(!c.connect_sent);
    assert!(matches!(c.events.last(), Some(ConnectorEvent::Disconnected)));
}

#[test]
fn announcement_bumps_cursor_generation_and_queues_events() {
    let mut c = connector(50, display_data(vec![30], Some(mode_1080p()), "SERIAL-A"));
    let info = monitor_info_of(&c.display).expect("monitor info");
    assert_eq!(info.modes.len(), 1);
    assert_eq!(info.initial_mode.width, 1920);
    assert_eq!(info.initial_mode.height, 1080);
    assert_eq!(info.initial_mode.refresh_rate_millihz, 60_000);
    send_connected(&mut c, info);
    assert!(c.connect_sent);
    assert_eq!(c.cursor_generation, 1);
    assert_eq!(c.events.len(), 2);
    assert!(matches!(c.events[0], ConnectorEvent::Connected(_)));
    // With no cursor buffers, no hardware cursor is advertised.
    assert!(matches!(c.events[1], ConnectorEvent::HardwareCursor(None)));
    start_connector(&mut c);
    assert!(c.has_damage && c.cursor_changed && c.present_scheduled);
}

#[test]
fn commit_failure_marks_the_change_unprocessed() {
    let mut data = configured_device(1);
    apply_modeset_outcome(&mut data, CommitOutcome::OtherError);
    assert!(data.unprocessed_change);
    apply_modeset_outcome(&mut data, CommitOutcome::Success);
    assert!(!data.unprocessed_change);
}

#[test]
fn property_refresh_updates_every_cache() {
    let mut data = configured_device(1);
    let snapshot = PropertySnapshot {
        connector_crtcs: vec![DrmCrtc(30)],
        crtc_states: vec![CrtcSnapshot {
            active: true,
            mode_id: DrmBlob(5),
            mode: Some(mode_1080p()),
        }],
        plane_crtcs: vec![DrmCrtc(30), DrmCrtc(0)],
    };
    update_device_properties(&mut data, &snapshot);
    assert_eq!(data.connectors[0].display.crtc_id.value, DrmCrtc(30));
    assert!(data.dev.crtcs[0].active.value);
    assert_eq!(data.dev.crtcs[0].mode_id.value, DrmBlob(5));
    assert_eq!(data.dev.crtcs[0].current_mode, Some(mode_1080p()));
    assert_eq!(data.dev.planes[0].crtc_id.value, DrmCrtc(30));
    assert_eq!(data.dev.planes[1].crtc_id.value, DrmCrtc(0));
}

/// A removed connector leaves with a disconnect (when announced) and a
/// removal event; a new one is built and announced to the compositor.
#[test]
fn change_pass_diffs_the_connector_set() {
    let mut data = configured_device(1);
    data.connectors[0].connect_sent = true;
    let snapshot = DeviceChangeSnapshot {
        properties: PropertySnapshot {
            connector_crtcs: vec![DrmCrtc(30)],
            crtc_states: vec![CrtcSnapshot {
                active: true,
                mode_id: DrmBlob(1),
                mode: Some(mode_1080p()),
            }],
            plane_crtcs: vec![DrmCrtc(30), DrmCrtc(30)],
        },
        current: vec![],
        refreshes: vec![],
        additions: vec![],
    };
    let mut backend = MetalBackend::new();
    backend.ctx = Some(MetalRenderContext { dev_id: DrmDeviceId(1), gfx: GfxHandle(1) });
    let mut provisions = vec![(None, None)];
    let outcome = backend.handle_drm_change(&mut data, snapshot, &mut provisions, true);
    assert!(data.connectors.is_empty());
    assert_eq!(outcome.removed.len(), 1);
    let events = &outcome.removed[0].events;
    assert!(matches!(events[events.len() - 2], ConnectorEvent::Disconnected));
    assert!(matches!(events[events.len() - 1], ConnectorEvent::Removed));
    assert!(!data.unprocessed_change);
}

#[test]
fn hardware_cursor_reports_device_limits_and_back_buffer() {
    let data = configured_device(1);
    let hc = MetalHardwareCursor {
        generation: 1,
        cursor_swap_buffer: false,
        cursor_enabled_pending: false,
        cursor_x_pending: 0,
        cursor_y_pending: 0,
        have_changes: false,
    };
    assert_eq!(hc.max_size(&data.dev), (64, 64));
    let bufs = data.connectors[0].cursor_buffers.as_ref().unwrap();
    // The front buffer is at index zero, so drawing happens into the
    // other one.
    let back = hc.get_buffer(&data.connectors[0], bufs);
    assert_eq!(back, bufs.b1.render_fb());
}

#[test]
fn resume_arms_every_connector_and_reruns_the_pass() {
    let mut data = configured_device(1);
    data.connectors[0].can_present = false;
    data.connectors[0].has_damage = false;
    data.connectors[0].cursor_changed = false;
    let snapshot = DeviceChangeSnapshot {
        properties: PropertySnapshot {
            connector_crtcs: vec![DrmCrtc(30)],
            crtc_states: vec![CrtcSnapshot {
                active: true,
                mode_id: DrmBlob(1),
                mode: Some(mode_1080p()),
            }],
            plane_crtcs: vec![DrmCrtc(30), DrmCrtc(30)],
        },
        current: vec![DrmConnector(50)],
        refreshes: vec![],
        additions: vec![],
    };
    let mut backend = MetalBackend::new();
    backend.ctx = Some(MetalRenderContext { dev_id: DrmDeviceId(1), gfx: GfxHandle(1) });
    let mut provisions = vec![(None, None)];
    let _ = jay::change::resume_drm_device(&mut backend, &mut data, snapshot, &mut provisions);
    assert_eq!(data.connectors.len(), 1);
    assert!(data.connectors[0].can_present);
    assert!(data.connectors[0].has_damage);
    assert!(data.connectors[0].cursor_changed);
    assert!(!data.unprocessed_change);
}

#[test]
fn monitor_info_drops_consecutive_duplicate_modes() {
    let mut dd = display_data(vec![30], Some(mode_1080p()), "S1");
    dd.modes = vec![mode_1080p(), mode_1080p(), mode_1080p()];
    let info = monitor_info_of(&dd).expect("monitor info");
    assert_eq!(info.modes.len(), 1);
    assert_eq!(info.manufacturer, "ACM");
    assert_eq!((info.width_mm, info.height_mm), (600, 340));
}

#[test]
fn connector_event_queue_hands_events_out_in_order() {
    let mut c = connector(50, display_data(vec![30], Some(mode_1080p()), "S1"));
    c.send_event(ConnectorEvent::Disconnected);
    c.send_event(ConnectorEvent::Removed);
    assert!(matches!(c.event(), Some(ConnectorEvent::Disconnected)));
    assert!(matches!(c.event(), Some(ConnectorEvent::Removed)));
    assert!(c.event().is_none());
}

#[test]
fn damage_wakes_the_present_task_only_when_presenting_is_allowed() {
    let mut c = connector(50, display_data(vec![30], Some(mode_1080p()), "S1"));
    c.can_present = false;
    c.damage();
    assert!(c.has_damage);
    assert!(!c.present_scheduled);
    c.can_present = true;
    c.damage();
    assert!(c.present_scheduled);
}

#[test]
fn disabling_a_connected_connector_needs_a_change_pass() {
    let mut c = connector(50, display_data(vec![30], Some(mode_1080p()), "S1"));
    assert!(c.set_enabled(false));
    assert!(!c.set_enabled(false));
    assert!(c.set_enabled(true));
    c.display.connection = jay::drm::ConnectorStatus::Disconnected;
    assert!(!c.set_enabled(false));
}

#[test]
fn change_pass_builds_and_announces_new_connectors() {
    let mut data = configured_device(1);
    let info = jay::drm::DrmConnectorInfo {
        encoders: vec![jay::drm::DrmEncoder(40)],
        modes: vec![mode_1080p()],
        props: vec![],
        encoder_id: jay::drm::DrmEncoder(40),
        connector_id: DrmConnector(51),
        connector_type: 11,
        connector_type_id: 2,
        connection: 1,
        mm_width: 520,
        mm_height: 290,
        subpixel: 0,
    };
    let addition = ConnectorQuery {
        id: DrmConnector(51),
        info,
        identity: Some(MonitorIdentity {
            manufacturer: "ACM".to_string(),
            product: "Second".to_string(),
            serial_number: "S2".to_string(),
        }),
        props: CollectedProperties {
            props: vec![CollectedProperty {
                name: "CRTC_ID".to_string(),
                ty: DrmPropertyType::Range { min: 0, max: u64::MAX },
                id: DrmProperty(901),
                value: 0,
            }],
        },
        connector_id: ConnectorId(2),
        present_task: TaskHandle(9),
    };
    let snapshot = DeviceChangeSnapshot {
        properties: PropertySnapshot {
            connector_crtcs: vec![DrmCrtc(30)],
            crtc_states: vec![CrtcSnapshot {
                active: true,
                mode_id: DrmBlob(1),
                mode: Some(mode_1080p()),
            }],
            plane_crtcs: vec![DrmCrtc(30), DrmCrtc(30)],
        },
        current: vec![DrmConnector(50), DrmConnector(51)],
        refreshes: vec![],
        additions: vec![addition],
    };
    let mut backend = MetalBackend::new();
    backend.ctx = Some(MetalRenderContext { dev_id: DrmDeviceId(1), gfx: GfxHandle(1) });
    let mut provisions = vec![(None, None), (None, None)];
    let outcome = backend.handle_drm_change(&mut data, snapshot, &mut provisions, true);
    assert!(outcome.removed.is_empty());
    assert_eq!(data.connectors.len(), 2);
    assert_eq!(data.connectors[1].id, DrmConnector(51));
    assert_eq!(
        outcome.events,
        vec![jay::backend::BackendEvent::NewConnector(ConnectorId(2))]
    );
}

#[test]
fn render_device_choice_is_sticky() {
    let data = configured_device(1);
    let mut backend = MetalBackend::new();
    assert!(!backend.check_render_context());
    assert!(!backend.make_render_device(&data));
    assert!(backend.check_render_context());
    assert!(backend.make_render_device(&data));
    assert_eq!(backend.ctx.unwrap().dev_id, DrmDeviceId(1));
}

#[test]
fn cursor_present_stages_position_and_geometry() {
    let mut data = configured_device(1);
    data.connectors[0].has_damage = false;
    data.connectors[0].cursor_changed = true;
    data.connectors[0].cursor_enabled = true;
    data.connectors[0].cursor_x = 12;
    data.connectors[0].cursor_y = 34;
    let plan = prepare_present(&mut data, 0, true).expect("present plan");
    let props = plan.changes.commit_props();
    let values = plan.changes.commit_values();
    let cursor_plane = &data.dev.planes[1];
    assert_eq!(props.len(), 10);
    assert_eq!(props[0], cursor_plane.fb_id.0);
    assert_eq!(props[1], cursor_plane.crtc_id.id.0);
    assert_eq!(values[1], 30);
    assert_eq!((values[2], values[3]), (12, 34));
    // The cursor buffer is 1920x1080 in this synthetic pair.
    assert_eq!((values[4], values[5]), (1920, 1080));
    assert_eq!((values[8], values[9]), (1920 << 16, 1080 << 16));
    // Turning the cursor off stages zeroed framebuffer and crtc.
    data.connectors[0].cursor_changed = true;
    data.connectors[0].cursor_enabled = false;
    finish_present(&mut data.connectors[0], CommitOutcome::NotMaster);
    let plan = prepare_present(&mut data, 0, true).expect("present plan");
    assert_eq!(plan.changes.commit_props().len(), 2);
    assert_eq!(plan.changes.commit_values(), &vec![0, 0]);
}
