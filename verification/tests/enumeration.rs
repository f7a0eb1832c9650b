//! Tests of device enumeration: plane-type decoding, format filtering,
//! reachable-crtc computation and whole-device construction.

use jay::backend::{ConnectorId, TaskHandle};
use jay::buffer::{DrmDeviceId, GfxHandle};
use jay::drm::{
    ConnectorStatus, DrmCardResources, DrmConnector, DrmConnectorInfo, DrmCrtc, DrmEncoder,
    DrmEncoderInfo, DrmFb, DrmModeInfo, DrmPlane, DrmPlaneInfo, DrmProperty,
};
use jay::format::{ARGB8888_DRM, XRGB8888_DRM};
use jay::inventory::{
    ConnectorQuery, DeviceQuery, MonitorIdentity, PlaneQuery, create_connector_display_data,
    create_crtc, create_drm_device, create_encoder, create_plane, decode_plane_type,
};
use jay::props::{CollectedProperties, CollectedProperty, DrmError, DrmPropertyEnumValue, DrmPropertyType};
use jay::video::{MetalEncoder, PendingDrmDevice, PlaneType};

fn mode_1080p() -> DrmModeInfo {
    DrmModeInfo {
        clock: 148500,
        hdisplay: 1920,
        hsync_start: 2008,
        hsync_end: 2052,
        htotal: 2200,
        hskew: 0,
        vdisplay: 1080,
        vsync_start: 1084,
        vsync_end: 1089,
        vtotal: 1125,
        vscan: 0,
        vrefresh: 60,
        flags: 5,
        ty: 64,
    }
}

fn entry(name: &str, id: u32, value: u64) -> CollectedProperty {
    CollectedProperty {
        name: name.to_string(),
        ty: DrmPropertyType::Range { min: 0, max: u64::MAX },
        id: DrmProperty(id),
        value,
    }
}

fn type_entry(value: u64, names: Vec<(&str, u64)>) -> CollectedProperty {
    CollectedProperty {
        name: "type".to_string(),
        ty: DrmPropertyType::Enum {
            values: names
                .into_iter()
                .map(|(n, v)| DrmPropertyEnumValue { value: v, name: n.to_string() })
                .collect(),
            bitmask: false,
        },
        id: DrmProperty(1),
        value,
    }
}

fn plane_props(ty: CollectedProperty) -> CollectedProperties {
    let mut props = vec![ty];
    let names = [
        "FB_ID", "CRTC_ID", "CRTC_X", "CRTC_Y", "CRTC_W", "CRTC_H", "SRC_X", "SRC_Y", "SRC_W",
        "SRC_H", "IN_FENCE_FD",
    ];
    for (i, n) in names.iter().enumerate() {
        props.push(entry(n, 100 + i as u32, 0));
    }
    CollectedProperties { props }
}

fn standard_types() -> Vec<(&'static str, u64)> {
    vec![("Overlay", 0), ("Primary", 1), ("Cursor", 2)]
}

#[test]
fn plane_type_decodes_the_enum_property() {
    let p = plane_props(type_entry(1, standard_types()));
    assert_eq!(decode_plane_type(&p).unwrap(), PlaneType::Primary);
    let p = plane_props(type_entry(2, standard_types()));
    assert_eq!(decode_plane_type(&p).unwrap(), PlaneType::Cursor);
    let p = plane_props(type_entry(0, standard_types()));
    assert_eq!(decode_plane_type(&p).unwrap(), PlaneType::Overlay);
}

#[test]
fn plane_type_errors_are_distinguished() {
    // A value with an unrecognized name.
    let p = plane_props(type_entry(3, vec![("Primary", 1), ("Underlay", 3)]));
    match decode_plane_type(&p) {
        Err(DrmError::UnknownPlaneType(name)) => assert_eq!(name, "Underlay"),
        other => panic!("expected an unknown-type error, got {:?}", other),
    }
    // A value outside the enum's values.
    let p = plane_props(type_entry(9, standard_types()));
    assert!(matches!(decode_plane_type(&p), Err(DrmError::InvalidPlaneType(9))));
    // A type property that is not an enum.
    let p = plane_props(entry("type", 1, 1));
    assert!(matches!(decode_plane_type(&p), Err(DrmError::InvalidPlaneTypeProperty)));
    // No type property at all.
    let p = CollectedProperties { props: vec![entry("FB_ID", 2, 0)] };
    match decode_plane_type(&p) {
        Err(DrmError::MissingProperty(name)) => assert_eq!(name, "type"),
        other => panic!("expected a missing-property error, got {:?}", other),
    }
}

#[test]
fn plane_construction_filters_unknown_formats() {
    let info = DrmPlaneInfo {
        plane_id: DrmPlane(20),
        crtc_id: DrmCrtc(0),
        fb_id: DrmFb(0),
        possible_crtcs: 0b11,
        gamma_size: 0,
        format_types: vec![XRGB8888_DRM, 0xdead_beef, ARGB8888_DRM],
    };
    let p = create_plane(DrmPlane(20), &info, &plane_props(type_entry(1, standard_types())))
        .unwrap();
    assert_eq!(p.ty, PlaneType::Primary);
    assert_eq!(p.formats, vec![XRGB8888_DRM, ARGB8888_DRM]);
    assert_eq!(p.possible_crtcs, 0b11);
    assert!(!p.assigned);
}

#[test]
fn crtc_and_encoder_reachability_follows_index_bits() {
    let planes = vec![
        create_plane(
            DrmPlane(20),
            &DrmPlaneInfo {
                plane_id: DrmPlane(20),
                crtc_id: DrmCrtc(0),
                fb_id: DrmFb(0),
                possible_crtcs: 0b01,
                gamma_size: 0,
                format_types: vec![XRGB8888_DRM],
            },
            &plane_props(type_entry(1, standard_types())),
        )
        .unwrap(),
        create_plane(
            DrmPlane(21),
            &DrmPlaneInfo {
                plane_id: DrmPlane(21),
                crtc_id: DrmCrtc(0),
                fb_id: DrmFb(0),
                possible_crtcs: 0b10,
                gamma_size: 0,
                format_types: vec![XRGB8888_DRM],
            },
            &plane_props(type_entry(1, standard_types())),
        )
        .unwrap(),
    ];
    let props = CollectedProperties {
        props: vec![entry("ACTIVE", 1, 0), entry("MODE_ID", 2, 0), entry("OUT_FENCE_PTR", 3, 0)],
    };
    let c0 = create_crtc(DrmCrtc(30), 0, &planes, &props).unwrap();
    assert_eq!(c0.possible_planes, vec![DrmPlane(20)]);
    let c1 = create_crtc(DrmCrtc(31), 1, &planes, &props).unwrap();
    assert_eq!(c1.possible_planes, vec![DrmPlane(21)]);
    // A crtc misses its required properties.
    let missing = CollectedProperties { props: vec![entry("ACTIVE", 1, 0)] };
    assert!(create_crtc(DrmCrtc(32), 2, &planes, &missing).is_err());
    let enc = create_encoder(
        &DrmEncoderInfo {
            encoder_id: DrmEncoder(40),
            encoder_type: 0,
            crtc_id: DrmCrtc(0),
            possible_crtcs: 0b10,
            possible_clones: 0,
        },
        &vec![c0, c1],
    );
    assert_eq!(enc.crtcs, vec![DrmCrtc(31)]);
}

fn connector_info(encoders: Vec<u32>) -> DrmConnectorInfo {
    DrmConnectorInfo {
        encoders: encoders.into_iter().map(DrmEncoder).collect(),
        modes: vec![mode_1080p()],
        props: vec![],
        encoder_id: DrmEncoder(40),
        connector_id: DrmConnector(50),
        connector_type: 10,
        connector_type_id: 1,
        connection: 1,
        mm_width: 600,
        mm_height: 340,
        subpixel: 0,
    }
}

#[test]
fn connector_display_data_collects_reachable_crtcs() {
    let encoders = vec![
        MetalEncoder { id: DrmEncoder(40), crtcs: vec![DrmCrtc(30), DrmCrtc(31)] },
        MetalEncoder { id: DrmEncoder(41), crtcs: vec![DrmCrtc(31)] },
    ];
    let props = CollectedProperties { props: vec![entry("CRTC_ID", 900, 30)] };
    let identity = MonitorIdentity {
        manufacturer: "ACM".to_string(),
        product: "Display".to_string(),
        serial_number: "S1".to_string(),
    };
    let dd = create_connector_display_data(
        &connector_info(vec![40, 41]),
        &encoders,
        Some(&identity),
        &props,
    )
    .unwrap();
    assert_eq!(dd.crtcs.len(), 2);
    assert!(dd.crtcs.contains(&DrmCrtc(30)));
    assert!(dd.crtcs.contains(&DrmCrtc(31)));
    assert_eq!(dd.crtc_id.value, DrmCrtc(30));
    assert_eq!(dd.connection, ConnectorStatus::Connected);
    assert_eq!(dd.mode, Some(mode_1080p()));
    // The frame time of the 60 Hz mode, in nanoseconds.
    assert_eq!(dd.refresh, 16_666_666);
    assert_eq!(dd.monitor_serial_number, "S1");
    // Without the required property the connector cannot be inspected.
    let empty = CollectedProperties { props: vec![] };
    assert!(create_connector_display_data(
        &connector_info(vec![40]),
        &encoders,
        None,
        &empty,
    )
    .is_err());
}

#[test]
fn device_construction_builds_everything_with_cursor_fallback() {
    let query = DeviceQuery {
        pending: PendingDrmDevice { id: DrmDeviceId(1), devnum: 7, devnode: "card".to_string() },
        resources: DrmCardResources {
            min_width: 0,
            max_width: 16384,
            min_height: 0,
            max_height: 16384,
            fbs: vec![],
            crtcs: vec![DrmCrtc(30)],
            connectors: vec![DrmConnector(50)],
            encoders: vec![DrmEncoder(40)],
        },
        plane_queries: vec![PlaneQuery {
            id: DrmPlane(20),
            info: DrmPlaneInfo {
                plane_id: DrmPlane(20),
                crtc_id: DrmCrtc(0),
                fb_id: DrmFb(0),
                possible_crtcs: 1,
                gamma_size: 0,
                format_types: vec![XRGB8888_DRM],
            },
            props: plane_props(type_entry(1, standard_types())),
        }],
        crtc_props: vec![CollectedProperties {
            props: vec![
                entry("ACTIVE", 1, 0),
                entry("MODE_ID", 2, 0),
                entry("OUT_FENCE_PTR", 3, 0),
            ],
        }],
        encoder_infos: vec![DrmEncoderInfo {
            encoder_id: DrmEncoder(40),
            encoder_type: 0,
            crtc_id: DrmCrtc(0),
            possible_crtcs: 1,
            possible_clones: 0,
        }],
        connector_queries: vec![ConnectorQuery {
            id: DrmConnector(50),
            info: connector_info(vec![40]),
            identity: Some(MonitorIdentity {
                manufacturer: "ACM".to_string(),
                product: "Display".to_string(),
                serial_number: "S1".to_string(),
            }),
            props: CollectedProperties { props: vec![entry("CRTC_ID", 900, 0)] },
            connector_id: ConnectorId(1),
            present_task: TaskHandle(2),
        }],
        cursor_size: None,
        gfx: GfxHandle(1),
    };
    let data = create_drm_device(&query, TaskHandle(3)).unwrap();
    assert_eq!(data.dev.cursor_width, 64);
    assert_eq!(data.dev.cursor_height, 64);
    assert_eq!(data.dev.crtcs.len(), 1);
    assert_eq!(data.dev.planes.len(), 1);
    assert_eq!(data.dev.encoders.len(), 1);
    assert_eq!(data.connectors.len(), 1);
    assert_eq!(data.futures.len(), 1);
    let c = &data.connectors[0];
    assert!(c.enabled && c.can_present && c.has_damage);
    assert!(!c.connect_sent);
    assert_eq!(c.display.crtcs, vec![DrmCrtc(30)]);
    assert!(!data.unprocessed_change);
    assert_eq!(data.dev.handle_events.handle_events, Some(TaskHandle(3)));
}

#[test]
fn device_construction_fails_exactly_on_a_bad_query() {
    let good = DeviceQuery {
        pending: PendingDrmDevice { id: DrmDeviceId(1), devnum: 7, devnode: "card".to_string() },
        resources: DrmCardResources {
            min_width: 0,
            max_width: 16384,
            min_height: 0,
            max_height: 16384,
            fbs: vec![],
            crtcs: vec![DrmCrtc(30)],
            connectors: vec![],
            encoders: vec![],
        },
        plane_queries: vec![],
        crtc_props: vec![CollectedProperties {
            props: vec![
                entry("ACTIVE", 1, 1),
                entry("MODE_ID", 2, 0),
                entry("OUT_FENCE_PTR", 3, 0),
            ],
        }],
        encoder_infos: vec![],
        connector_queries: vec![],
        cursor_size: Some((128, 128)),
        gfx: GfxHandle(1),
    };
    let data = create_drm_device(&good, TaskHandle(3)).unwrap();
    // The ACTIVE property cached true carries through construction.
    assert!(data.dev.crtcs[0].active.value);
    assert_eq!(data.dev.cursor_width, 128);
    let mut bad = good.clone();
    bad.crtc_props = vec![CollectedProperties { props: vec![entry("ACTIVE", 1, 1)] }];
    assert!(create_drm_device(&bad, TaskHandle(3)).is_err());
}
