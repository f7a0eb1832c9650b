//! Tests of the plane/crtc allocator: the fast-path predicate, preserve
//! validation, the reset phase and the full modeset path.

use jay::allocator::{
    can_reuse_current_configuration, deactivate_unused_crtcs, init_drm_device,
    reset_connectors_and_crtcs, reset_planes, validate_preserve,
};
use jay::backend::ConnectorId;
use jay::buffer::{DrmDeviceId, GfxHandle, GfxHandleAlloc, RenderBufferPair, create_scanout_buffer};
use jay::drm::{
    DRM_MODE_ATOMIC_ALLOW_MODESET, ConnectorStatus, ConnectorType, DrmBlob, DrmConnector, DrmCrtc,
    DrmFb, DrmModeInfo, DrmPlane, DrmProperty,
};
use jay::format::{ARGB8888_DRM, XRGB8888_DRM};
use jay::props::{Change, MutableProperty};
use jay::video::{
    ConnectorDisplayData, ConnectorFutures, HandleEvents, MetalConnector, MetalCrtc, MetalDrmDevice,
    MetalDrmDeviceData, MetalEncoder, MetalPlane, MetalRenderContext, PlaneType, Preserve,
};

fn mode_1080p() -> DrmModeInfo {
    DrmModeInfo {
        clock: 148500,
        hdisplay: 1920,
        hsync_start: 2008,
        hsync_end: 2052,
        htotal: 2200,
        hskew: 0,
        vdisplay: 1080,
        vsync_start: 1084,
        vsync_end: 1089,
        vtotal: 1125,
        vscan: 0,
        vrefresh: 60,
        flags: 5,
        ty: 64,
    }
}

fn prop(id: u32) -> DrmProperty {
    DrmProperty(id)
}

fn plane(id: u32, ty: PlaneType, formats: Vec<u32>) -> MetalPlane {
    MetalPlane {
        id: DrmPlane(id),
        ty,
        possible_crtcs: 1,
        formats,
        assigned: false,
        crtc_id: MutableProperty { id: prop(id * 10 + 1), value: DrmCrtc(0) },
        crtc_x: MutableProperty { id: prop(id * 10 + 2), value: 0 },
        crtc_y: MutableProperty { id: prop(id * 10 + 3), value: 0 },
        crtc_w: MutableProperty { id: prop(id * 10 + 4), value: 0 },
        crtc_h: MutableProperty { id: prop(id * 10 + 5), value: 0 },
        src_x: MutableProperty { id: prop(id * 10 + 6), value: 0 },
        src_y: MutableProperty { id: prop(id * 10 + 7), value: 0 },
        src_w: MutableProperty { id: prop(id * 10 + 8), value: 0 },
        src_h: MutableProperty { id: prop(id * 10 + 9), value: 0 },
        in_fence_fd: prop(id * 10),
        fb_id: prop(id * 100),
    }
}

fn crtc(id: u32, idx: usize, possible_planes: Vec<u32>) -> MetalCrtc {
    MetalCrtc {
        id: DrmCrtc(id),
        idx,
        possible_planes: possible_planes.into_iter().map(DrmPlane).collect(),
        connector: None,
        active: MutableProperty { id: prop(id * 1000 + 1), value: false },
        mode_id: MutableProperty { id: prop(id * 1000 + 2), value: DrmBlob(0) },
        out_fence_ptr: prop(id * 1000 + 3),
        mode_blob: None,
        current_mode: None,
    }
}

fn display_data(crtcs: Vec<u32>, mode: Option<DrmModeInfo>, serial: &str) -> ConnectorDisplayData {
    ConnectorDisplayData {
        crtc_id: MutableProperty { id: prop(900), value: DrmCrtc(0) },
        crtcs: crtcs.into_iter().map(DrmCrtc).collect(),
        modes: mode.iter().copied().collect(),
        mode,
        refresh: 16_666_666,
        monitor_manufacturer: "ACM".to_string(),
        monitor_name: "Display".to_string(),
        monitor_serial_number: serial.to_string(),
        connection: ConnectorStatus::Connected,
        mm_width: 600,
        mm_height: 340,
        subpixel: 0,
        connector_type: ConnectorType::DisplayPort,
        connector_type_id: 1,
    }
}

fn connector(id: u32, dd: ConnectorDisplayData) -> MetalConnector {
    MetalConnector {
        id: DrmConnector(id),
        connector_id: ConnectorId(id as u64),
        events: Vec::new(),
        buffers: None,
        next_buffer: 0,
        enabled: true,
        can_present: true,
        has_damage: true,
        cursor_changed: false,
        display: dd,
        connect_sent: false,
        primary_plane: None,
        cursor_plane: None,
        crtc: None,
        on_change: jay::video::OnChange { armed: false, pending: false },
        present_scheduled: false,
        cursor_generation: 0,
        cursor_x: 0,
        cursor_y: 0,
        cursor_enabled: false,
        cursor_buffers: None,
        cursor_front_buffer: 0,
        cursor_swap_buffer: false,
    }
}

fn device(
    crtcs: Vec<MetalCrtc>,
    planes: Vec<MetalPlane>,
    connectors: Vec<MetalConnector>,
) -> MetalDrmDeviceData {
    let futures = connectors
        .iter()
        .map(|_| ConnectorFutures { present: jay::backend::TaskHandle(1) })
        .collect();
    MetalDrmDeviceData {
        dev: MetalDrmDevice {
            id: DrmDeviceId(1),
            devnum: 7,
            devnode: "node".to_string(),
            crtcs,
            encoders: vec![MetalEncoder { id: jay::drm::DrmEncoder(40), crtcs: vec![DrmCrtc(30)] }],
            planes,
            min_width: 0,
            max_width: 16384,
            min_height: 0,
            max_height: 16384,
            cursor_width: 64,
            cursor_height: 64,
            handle_events: HandleEvents { handle_events: None },
            ctx: MetalRenderContext { dev_id: DrmDeviceId(1), gfx: GfxHandle(1) },
            next_blob_id: 1,
        },
        connectors,
        futures,
        unprocessed_change: false,
    }
}

fn buffer_pair(ids: &mut GfxHandleAlloc, dev: u64, render: u64, fb0: u32, fb1: u32) -> RenderBufferPair {
    RenderBufferPair {
        b0: create_scanout_buffer(
            DrmDeviceId(dev),
            DrmDeviceId(render),
            ids,
            DrmFb(fb0),
            1920,
            1080,
            XRGB8888_DRM,
            false,
        ),
        b1: create_scanout_buffer(
            DrmDeviceId(dev),
            DrmDeviceId(render),
            ids,
            DrmFb(fb1),
            1920,
            1080,
            XRGB8888_DRM,
            false,
        ),
    }
}

/// A configuration is reusable exactly when every enabled, connected
/// connector has a bound, active crtc showing its desired mode and an
/// unclaimed primary plane.
#[test]
fn reuse_check_accepts_matching_configuration() {
    let mut c = crtc(30, 0, vec![20, 21]);
    c.active.value = true;
    c.current_mode = Some(mode_1080p());
    let mut dd = display_data(vec![30], Some(mode_1080p()), "S1");
    dd.crtc_id.value = DrmCrtc(30);
    let data = device(
        vec![c],
        vec![
            plane(20, PlaneType::Primary, vec![XRGB8888_DRM]),
            plane(21, PlaneType::Cursor, vec![ARGB8888_DRM]),
        ],
        vec![connector(50, dd)],
    );
    assert!(can_reuse_current_configuration(&data));
}

#[test]
fn reuse_check_rejects_wrong_mode() {
    let mut other = mode_1080p();
    other.vrefresh = 144;
    other.clock = 356_500;
    let mut c = crtc(30, 0, vec![20]);
    c.active.value = true;
    c.current_mode = Some(other);
    let mut dd = display_data(vec![30], Some(mode_1080p()), "S1");
    dd.crtc_id.value = DrmCrtc(30);
    let data = device(
        vec![c],
        vec![plane(20, PlaneType::Primary, vec![XRGB8888_DRM])],
        vec![connector(50, dd)],
    );
    assert!(!can_reuse_current_configuration(&data));
}

#[test]
fn reuse_check_rejects_inactive_crtc_but_ignores_disabled_connectors() {
    let mut c = crtc(30, 0, vec![20]);
    c.current_mode = Some(mode_1080p());
    let mut dd = display_data(vec![30], Some(mode_1080p()), "S1");
    dd.crtc_id.value = DrmCrtc(30);
    let mut data = device(
        vec![c],
        vec![plane(20, PlaneType::Primary, vec![XRGB8888_DRM])],
        vec![connector(50, dd)],
    );
    // The crtc is bound but inactive.
    assert!(!can_reuse_current_configuration(&data));
    // A disabled connector imposes nothing, even while it still holds a
    // crtc binding: the condition is over enabled, connected connectors
    // only, and the deactivation step shuts the stale crtc off.
    data.dev.crtcs[0].active.value = true;
    data.connectors[0].enabled = false;
    assert!(can_reuse_current_configuration(&data));
    let mut changes = Change::new();
    let flags = deactivate_unused_crtcs(&mut data, &mut changes);
    assert_eq!(flags, DRM_MODE_ATOMIC_ALLOW_MODESET);
    assert!(!data.dev.crtcs[0].active.value);
}

#[test]
fn reuse_check_requires_one_primary_plane_per_connector() {
    let mut c1 = crtc(30, 0, vec![20]);
    c1.active.value = true;
    c1.current_mode = Some(mode_1080p());
    let mut c2 = crtc(31, 1, vec![20]);
    c2.active.value = true;
    c2.current_mode = Some(mode_1080p());
    let mut dd1 = display_data(vec![30], Some(mode_1080p()), "S1");
    dd1.crtc_id.value = DrmCrtc(30);
    let mut dd2 = display_data(vec![31], Some(mode_1080p()), "S2");
    dd2.crtc_id.value = DrmCrtc(31);
    // Both crtcs can only reach the same single primary plane: the second
    // connector finds it already claimed.
    let data = device(
        vec![c1, c2],
        vec![plane(20, PlaneType::Primary, vec![XRGB8888_DRM])],
        vec![connector(50, dd1), connector(51, dd2)],
    );
    assert!(!can_reuse_current_configuration(&data));
}

/// No preserved connector, crtc or plane is named by any reset-phase
/// write, and every non-preserved one is.
#[test]
fn reset_phase_skips_the_preserve_set() {
    let mut data = device(
        vec![crtc(30, 0, vec![20]), crtc(31, 1, vec![21])],
        vec![
            plane(20, PlaneType::Primary, vec![XRGB8888_DRM]),
            plane(21, PlaneType::Primary, vec![XRGB8888_DRM]),
        ],
        vec![
            connector(50, display_data(vec![30], Some(mode_1080p()), "S1")),
            connector(51, display_data(vec![31], Some(mode_1080p()), "S2")),
        ],
    );
    let preserve = Preserve {
        connectors: vec![DrmConnector(50)],
        crtcs: vec![DrmCrtc(30)],
        planes: vec![DrmPlane(20)],
    };
    let mut changes = Change::new();
    reset_planes(&mut data.dev, &mut changes, &preserve);
    reset_connectors_and_crtcs(&mut data, &mut changes, &preserve);
    let objects = changes.commit_objects();
    assert!(!objects.contains(&50));
    assert!(!objects.contains(&30));
    assert!(!objects.contains(&20));
    assert!(objects.contains(&51));
    assert!(objects.contains(&31));
    assert!(objects.contains(&21));
    // The preserved plane kept its claim state; the other one was reset.
    assert!(!data.dev.planes[1].assigned);
    assert_eq!(data.dev.planes[1].crtc_id.value, DrmCrtc(0));
}

#[test]
fn validate_preserve_drops_stale_connectors_and_folds_planes() {
    let mut c = crtc(30, 0, vec![20]);
    c.active.value = true;
    c.mode_id.value = DrmBlob(5);
    c.current_mode = Some(mode_1080p());
    let mut dd = display_data(vec![30], Some(mode_1080p()), "S1");
    dd.crtc_id.value = DrmCrtc(30);
    let mut conn = connector(50, dd);
    conn.crtc = Some(DrmCrtc(30));
    conn.primary_plane = Some(DrmPlane(20));
    let mut p = plane(20, PlaneType::Primary, vec![XRGB8888_DRM]);
    p.crtc_id.value = DrmCrtc(30);
    let data = device(vec![c], vec![p], vec![conn]);
    let mut preserve = Preserve {
        connectors: vec![DrmConnector(50), DrmConnector(99)],
        crtcs: vec![],
        planes: vec![],
    };
    validate_preserve(&data, &mut preserve);
    assert_eq!(preserve.connectors, vec![DrmConnector(50)]);
    assert!(preserve.crtcs.contains(&DrmCrtc(30)));
    assert!(preserve.planes.contains(&DrmPlane(20)));
}

#[test]
fn validate_preserve_rejects_inactive_crtc() {
    let mut c = crtc(30, 0, vec![20]);
    c.current_mode = Some(mode_1080p());
    let mut dd = display_data(vec![30], Some(mode_1080p()), "S1");
    dd.crtc_id.value = DrmCrtc(30);
    let mut conn = connector(50, dd);
    conn.crtc = Some(DrmCrtc(30));
    let data = device(
        vec![c],
        vec![plane(20, PlaneType::Primary, vec![XRGB8888_DRM])],
        vec![conn],
    );
    let mut preserve = Preserve { connectors: vec![DrmConnector(50)], crtcs: vec![], planes: vec![] };
    validate_preserve(&data, &mut preserve);
    assert!(preserve.connectors.is_empty());
}

#[test]
fn deactivation_needs_allow_modeset_only_when_a_crtc_turns_off() {
    let mut unused = crtc(31, 1, vec![]);
    unused.active.value = true;
    let mut used = crtc(30, 0, vec![20]);
    used.active.value = true;
    let mut dd = display_data(vec![30], Some(mode_1080p()), "S1");
    dd.crtc_id.value = DrmCrtc(30);
    let mut data = device(
        vec![used, unused],
        vec![plane(20, PlaneType::Primary, vec![XRGB8888_DRM])],
        vec![connector(50, dd)],
    );
    let mut changes = Change::new();
    let flags = deactivate_unused_crtcs(&mut data, &mut changes);
    assert_eq!(flags, DRM_MODE_ATOMIC_ALLOW_MODESET);
    assert!(!data.dev.crtcs[1].active.value);
    assert!(data.dev.crtcs[0].active.value);
    // A second pass has nothing to deactivate.
    let mut changes = Change::new();
    let flags = deactivate_unused_crtcs(&mut data, &mut changes);
    assert_eq!(flags, 0);
}

/// Scenario: a fresh device with one crtc, one connected connector with
/// one mode, one primary-capable and one cursor-capable plane.  The full
/// allocation path assigns both planes and issues exactly one
/// allow-modeset commit.
#[test]
fn full_path_assigns_both_planes_with_one_modeset_commit() {
    let mut data = device(
        vec![crtc(30, 0, vec![20, 21])],
        vec![
            plane(20, PlaneType::Primary, vec![XRGB8888_DRM]),
            plane(21, PlaneType::Cursor, vec![ARGB8888_DRM]),
        ],
        vec![connector(50, display_data(vec![30], Some(mode_1080p()), "S1"))],
    );
    let mut ids = GfxHandleAlloc::new();
    let primary = buffer_pair(&mut ids, 1, 1, 70, 71);
    let cursor = buffer_pair(&mut ids, 1, 1, 72, 73);
    let mut provisions = vec![(Some(primary), Some(cursor))];
    let mut preserve = Preserve::new();
    let outcome = init_drm_device(&mut data, &mut preserve, true, &mut provisions);
    assert!(!outcome.reused);
    assert_eq!(outcome.commits.len(), 1);
    assert_eq!(outcome.commits[0].flags, DRM_MODE_ATOMIC_ALLOW_MODESET);
    let modeset_commits = outcome
        .commits
        .iter()
        .filter(|c| c.flags & DRM_MODE_ATOMIC_ALLOW_MODESET != 0)
        .count();
    assert_eq!(modeset_commits, 1);
    let conn = &data.connectors[0];
    assert_eq!(conn.primary_plane, Some(DrmPlane(20)));
    assert_eq!(conn.cursor_plane, Some(DrmPlane(21)));
    assert_eq!(conn.crtc, Some(DrmCrtc(30)));
    assert!(data.dev.planes[0].assigned);
    assert!(data.dev.planes[1].assigned);
    assert!(data.dev.crtcs[0].active.value);
    // The primary plane scans out the full frame, unscaled.
    assert_eq!(data.dev.planes[0].crtc_w.value, 1920);
    assert_eq!(data.dev.planes[0].crtc_h.value, 1080);
    assert_eq!(data.dev.planes[0].src_w.value, 1920 << 16);
    assert_eq!(data.dev.planes[0].src_h.value, 1080 << 16);
}

#[test]
fn cursor_allocation_failure_is_not_fatal() {
    let mut data = device(
        vec![crtc(30, 0, vec![20, 21])],
        vec![
            plane(20, PlaneType::Primary, vec![XRGB8888_DRM]),
            plane(21, PlaneType::Cursor, vec![ARGB8888_DRM]),
        ],
        vec![connector(50, display_data(vec![30], Some(mode_1080p()), "S1"))],
    );
    let mut ids = GfxHandleAlloc::new();
    let primary = buffer_pair(&mut ids, 1, 1, 70, 71);
    let mut provisions = vec![(Some(primary), None)];
    let mut preserve = Preserve::new();
    let outcome = init_drm_device(&mut data, &mut preserve, true, &mut provisions);
    assert_eq!(outcome.commits.len(), 1);
    let conn = &data.connectors[0];
    assert_eq!(conn.primary_plane, Some(DrmPlane(20)));
    assert_eq!(conn.cursor_plane, None);
    assert!(conn.cursor_buffers.is_none());
}

#[test]
fn connector_without_mode_or_crtc_is_skipped_not_fatal() {
    // Two connectors, one crtc: the second connector finds no free crtc
    // and stays unconfigured while the first is set up.
    let mut data = device(
        vec![crtc(30, 0, vec![20, 21])],
        vec![
            plane(20, PlaneType::Primary, vec![XRGB8888_DRM]),
            plane(21, PlaneType::Primary, vec![XRGB8888_DRM]),
        ],
        vec![
            connector(50, display_data(vec![30], Some(mode_1080p()), "S1")),
            connector(51, display_data(vec![30], Some(mode_1080p()), "S2")),
        ],
    );
    let mut ids = GfxHandleAlloc::new();
    let p1 = buffer_pair(&mut ids, 1, 1, 70, 71);
    let p2 = buffer_pair(&mut ids, 1, 1, 72, 73);
    let mut provisions = vec![(Some(p1), None), (Some(p2), None)];
    let mut preserve = Preserve::new();
    let _ = init_drm_device(&mut data, &mut preserve, true, &mut provisions);
    assert_eq!(data.connectors[0].crtc, Some(DrmCrtc(30)));
    assert_eq!(data.connectors[1].crtc, None);
    assert_eq!(data.connectors[1].primary_plane, None);
}

#[test]
fn no_render_context_means_no_commits() {
    let mut data = device(
        vec![crtc(30, 0, vec![20])],
        vec![plane(20, PlaneType::Primary, vec![XRGB8888_DRM])],
        vec![connector(50, display_data(vec![30], Some(mode_1080p()), "S1"))],
    );
    let mut provisions = vec![(None, None)];
    let mut preserve = Preserve::new();
    let outcome = init_drm_device(&mut data, &mut preserve, false, &mut provisions);
    assert!(outcome.commits.is_empty());
    assert_eq!(data.connectors[0].primary_plane, None);
}

/// When the current configuration passes the fast-path check, the pass
/// keeps it: a deactivation commit for unused crtcs comes first and the
/// main commit carries no allow-modeset flag.
#[test]
fn fast_path_keeps_configuration_and_deactivates_unused_crtcs() {
    let mut bound = crtc(30, 0, vec![20, 21]);
    bound.active.value = true;
    bound.mode_id.value = DrmBlob(5);
    bound.current_mode = Some(mode_1080p());
    let mut spare = crtc(31, 1, vec![]);
    spare.active.value = true;
    let mut dd = display_data(vec![30], Some(mode_1080p()), "S1");
    dd.crtc_id.value = DrmCrtc(30);
    let mut data = device(
        vec![bound, spare],
        vec![
            plane(20, PlaneType::Primary, vec![XRGB8888_DRM]),
            plane(21, PlaneType::Cursor, vec![ARGB8888_DRM]),
        ],
        vec![connector(50, dd)],
    );
    let mut ids = GfxHandleAlloc::new();
    let primary = buffer_pair(&mut ids, 1, 1, 70, 71);
    let cursor = buffer_pair(&mut ids, 1, 1, 72, 73);
    let mut provisions = vec![(Some(primary), Some(cursor))];
    let mut preserve = Preserve::new();
    let outcome = init_drm_device(&mut data, &mut preserve, true, &mut provisions);
    assert!(outcome.reused);
    assert_eq!(outcome.commits.len(), 2);
    // Only the deactivation commit may carry the allow-modeset flag.
    assert_eq!(outcome.commits[0].flags, DRM_MODE_ATOMIC_ALLOW_MODESET);
    assert_eq!(outcome.commits[1].flags, 0);
    // The unused crtc was turned off; the bound one kept its mode.
    assert!(!data.dev.crtcs[1].active.value);
    assert!(data.dev.crtcs[0].active.value);
    assert_eq!(data.dev.crtcs[0].mode_id.value, DrmBlob(5));
    // Planes and buffers were still reassigned.
    assert_eq!(data.connectors[0].primary_plane, Some(DrmPlane(20)));
}
