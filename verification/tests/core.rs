//! Tests of the plain-data layers: ids, modes, formats, the property
//! cache, the change builder and the double-buffer arithmetic.

use jay::buffer::{
    DrmDeviceId, GfxHandleAlloc, RenderBuffer, USE_LINEAR, USE_RENDERING, USE_SCANOUT,
    advance_buffer_index, create_scanout_buffer,
};
use jay::drm::{
    ConnectorStatus, ConnectorType, DrmFb, DrmModeInfo, DrmProperty, DrmPropertyValue, modes_equal,
};
use jay::format::{ARGB8888_DRM, XRGB8888_DRM, debug, map_wayland_format_id};
use jay::props::{Change, CollectedProperties, CollectedProperty, DrmError, DrmPropertyType};
use jay::usec_to_msec;

fn mode_1080p() -> DrmModeInfo {
    DrmModeInfo {
        clock: 148500,
        hdisplay: 1920,
        hsync_start: 2008,
        hsync_end: 2052,
        htotal: 2200,
        hskew: 0,
        vdisplay: 1080,
        vsync_start: 1084,
        vsync_end: 1089,
        vtotal: 1125,
        vscan: 0,
        vrefresh: 60,
        flags: 5,
        ty: 64,
    }
}

#[test]
fn refresh_rate_of_1080p_is_60hz() {
    let m = mode_1080p();
    assert_eq!(m.refresh_rate_millihz(), 60_000);
}

#[test]
fn mode_equality_compares_every_timing_field() {
    let a = mode_1080p();
    assert!(modes_equal(&a, &a));
    let fields: Vec<Box<dyn Fn(&mut DrmModeInfo)>> = vec![
        Box::new(|m| m.clock += 1),
        Box::new(|m| m.hdisplay += 1),
        Box::new(|m| m.hsync_start += 1),
        Box::new(|m| m.hsync_end += 1),
        Box::new(|m| m.htotal += 1),
        Box::new(|m| m.hskew += 1),
        Box::new(|m| m.vdisplay += 1),
        Box::new(|m| m.vsync_start += 1),
        Box::new(|m| m.vsync_end += 1),
        Box::new(|m| m.vtotal += 1),
        Box::new(|m| m.vscan += 1),
        Box::new(|m| m.vrefresh += 1),
        Box::new(|m| m.flags += 1),
    ];
    for f in fields {
        let mut b = mode_1080p();
        f(&mut b);
        assert!(!modes_equal(&a, &b));
    }
    // The kernel's mode type tag does not participate.
    let mut c = mode_1080p();
    c.ty += 1;
    assert!(modes_equal(&a, &c));
}

#[test]
fn connector_type_decodes_and_encodes() {
    assert_eq!(ConnectorType::from_drm(11), ConnectorType::HdmiA);
    assert_eq!(ConnectorType::from_drm(10), ConnectorType::DisplayPort);
    assert_eq!(ConnectorType::from_drm(99), ConnectorType::Unknown(99));
    assert_eq!(ConnectorType::HdmiA.to_drm(), 11);
    assert_eq!(ConnectorType::Unknown(99).to_drm(), 99);
    assert_eq!(ConnectorType::DisplayPort.to_config(), 10);
    assert_eq!(ConnectorType::Unknown(99).to_config(), 0);
    assert_eq!(ConnectorType::EmbeddedWindow.to_config(), 21);
}

#[test]
fn connector_status_decodes() {
    assert_eq!(ConnectorStatus::from_drm(1), ConnectorStatus::Connected);
    assert_eq!(ConnectorStatus::from_drm(2), ConnectorStatus::Disconnected);
    assert_eq!(ConnectorStatus::from_drm(3), ConnectorStatus::Unknown);
    assert_eq!(ConnectorStatus::from_drm(7), ConnectorStatus::Other(7));
}

#[test]
fn wayland_format_ids_map_to_fourcc() {
    assert_eq!(map_wayland_format_id(0), ARGB8888_DRM);
    assert_eq!(map_wayland_format_id(1), XRGB8888_DRM);
    assert_eq!(map_wayland_format_id(0x34325258), 0x34325258);
}

#[test]
fn fourcc_debug_spells_the_code() {
    let chars = debug(XRGB8888_DRM);
    assert_eq!(chars, vec!['X', 'R', '2', '4']);
    let chars = debug(ARGB8888_DRM);
    assert_eq!(chars, vec!['A', 'R', '2', '4']);
}

#[test]
fn usec_to_msec_truncates() {
    assert_eq!(usec_to_msec(0), 0);
    assert_eq!(usec_to_msec(1999), 1);
    assert_eq!(usec_to_msec(16_666), 16);
}

fn props(entries: Vec<(&str, u32, u64)>) -> CollectedProperties {
    CollectedProperties {
        props: entries
            .into_iter()
            .map(|(name, id, value)| CollectedProperty {
                name: name.to_string(),
                ty: DrmPropertyType::Range { min: 0, max: u64::MAX },
                id: DrmProperty(id),
                value,
            })
            .collect(),
    }
}

#[test]
fn property_lookup_finds_first_and_reports_missing() {
    let p = props(vec![("ACTIVE", 10, 1), ("MODE_ID", 11, 77), ("ACTIVE", 12, 0)]);
    let active = p.get("ACTIVE").unwrap();
    assert_eq!(active.id, DrmProperty(10));
    assert_eq!(active.value, 1);
    match p.get("CRTC_ID") {
        Err(DrmError::MissingProperty(name)) => assert_eq!(name, "CRTC_ID"),
        other => panic!("expected a missing-property error, got {:?}", other),
    }
}

/// The number of distinct object ids in a finished batch equals the number
/// of groups handed to the commit call, and the group counts add up to the
/// staged writes.
#[test]
fn change_builder_accounts_groups_and_counts() {
    let mut ch = Change::new();
    let w = |id: u32, value: u64| DrmPropertyValue { id: DrmProperty(id), value };
    ch.change_object(100, &vec![w(1, 11), w(2, 22)]);
    ch.change_object(200, &vec![w(3, 33)]);
    ch.change_object(300, &vec![w(4, 44)]);
    assert_eq!(ch.commit_objects(), &vec![100, 200, 300]);
    assert_eq!(ch.commit_object_lengths(), &vec![2, 1, 1]);
    assert_eq!(ch.commit_props(), &vec![1, 2, 3, 4]);
    assert_eq!(ch.commit_values(), &vec![11, 22, 33, 44]);
    let distinct: std::collections::BTreeSet<u32> = ch.commit_objects().iter().copied().collect();
    assert_eq!(distinct.len(), ch.commit_objects().len());
    let total: u32 = ch.commit_object_lengths().iter().sum();
    assert_eq!(total as usize, ch.commit_props().len());
}

#[test]
fn change_builder_merges_consecutive_writes_to_one_object() {
    let mut ch = Change::new();
    let w = |id: u32, value: u64| DrmPropertyValue { id: DrmProperty(id), value };
    ch.change_object(5, &vec![w(1, 1), w(2, 2)]);
    ch.change_object(5, &vec![w(3, 3)]);
    ch.change_object(6, &vec![]);
    assert_eq!(ch.commit_objects(), &vec![5]);
    assert_eq!(ch.commit_object_lengths(), &vec![3]);
    assert_eq!(ch.commit_props(), &vec![1, 2, 3]);
}

/// The double-buffer front index after n swap requests is n modulo two.
#[test]
fn front_index_after_swaps_is_count_mod_two() {
    for n in 0..7u32 {
        let mut front: u8 = 0;
        for _ in 0..n {
            front = advance_buffer_index(front);
        }
        assert_eq!(front as u32, n % 2);
    }
}

#[test]
fn scanout_buffer_without_bridge_on_same_device() {
    let mut ids = GfxHandleAlloc::new();
    let b: RenderBuffer = create_scanout_buffer(
        DrmDeviceId(1),
        DrmDeviceId(1),
        &mut ids,
        DrmFb(50),
        1920,
        1080,
        XRGB8888_DRM,
        false,
    );
    assert!(b.dev_tex.is_none());
    assert!(b.render_fb.is_none());
    assert_eq!(b.render_fb(), b.dev_fb);
    assert_eq!(b.width, 1920);
    assert_eq!(b.height, 1080);
    assert_eq!(b.drm, DrmFb(50));
    assert_ne!(b.usage & USE_SCANOUT, 0);
    assert_ne!(b.usage & USE_RENDERING, 0);
    assert_eq!(b.usage & USE_LINEAR, 0);
}

#[test]
fn cursor_buffer_uses_linear_layout() {
    let mut ids = GfxHandleAlloc::new();
    let b = create_scanout_buffer(
        DrmDeviceId(1),
        DrmDeviceId(1),
        &mut ids,
        DrmFb(51),
        64,
        64,
        ARGB8888_DRM,
        true,
    );
    assert_ne!(b.usage & USE_LINEAR, 0);
}
