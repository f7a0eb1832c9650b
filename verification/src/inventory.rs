//! Device enumeration: building the typed hardware objects from what the
//! kernel reports about planes, crtcs, encoders and connectors.
//!
//! Every function here works on enumeration results passed in as plain
//! values; the ioctls that produce them are performed by the caller.

use vstd::prelude::*;

use crate::backend::{ConnectorId, TaskHandle};
use crate::drm::{
    ConnectorStatus, ConnectorType, DrmBlob, DrmCardResources, DrmConnector, DrmConnectorInfo,
    DrmCrtc, DrmEncoder,
    DrmEncoderInfo, DrmModeInfo, DrmPlane, DrmPlaneInfo, spec_connector_status_of,
    spec_connector_type_of,
};
use crate::format::{ARGB8888_DRM, XRGB8888_DRM};
use crate::props::{
    CollectedProperties, CollectedProperty, DrmError, DrmPropertyEnumValue, DrmPropertyType,
    MutableProperty, lemma_find_full_none, lemma_find_full_some, spec_find_full,
    spec_find_property,
};
use crate::buffer::GfxHandle;
use crate::video::{
    ConnectorDisplayData, ConnectorFutures, HandleEvents, MetalConnector, MetalCrtc,
    MetalDrmDevice, MetalDrmDeviceData, MetalEncoder, MetalError, MetalPlane, MetalRenderContext,
    OnChange, PendingDrmDevice, PlaneType,
};

verus! {

/// The fourcc codes the backend recognizes.
pub open spec fn spec_known_format(f: u32) -> bool {
    f == ARGB8888_DRM || f == XRGB8888_DRM || f == 0x34324241 || f == 0x34324258
}

/// True iff the backend recognizes the fourcc code.
pub fn known_format(f: u32) -> (r: bool)
    ensures
        r == spec_known_format(f),
{
    f == ARGB8888_DRM || f == XRGB8888_DRM || f == 0x34324241 || f == 0x34324258
}

/// The name of the enum value `v` decodes to, if the property defines one.
pub open spec fn spec_find_enum_value(values: Seq<DrmPropertyEnumValue>, v: u64) -> Option<
    Seq<char>,
>
    decreases values.len(),
{
    if values.len() == 0 {
        None
    } else if values[0].value == v {
        Some(values[0].name@)
    } else {
        spec_find_enum_value(values.skip(1), v)
    }
}

/// The plane type a value name stands for.
pub open spec fn spec_plane_type_name(name: Seq<char>) -> Option<PlaneType> {
    if name == "Overlay"@ {
        Some(PlaneType::Overlay)
    } else if name == "Primary"@ {
        Some(PlaneType::Primary)
    } else if name == "Cursor"@ {
        Some(PlaneType::Cursor)
    } else {
        None
    }
}

/// The plane type the "type" property of `props` decodes to: the property
/// must exist, be an enum, hold one of its defined values, and that value's
/// name must be a known plane type.
pub open spec fn spec_plane_type(props: Seq<CollectedProperty>) -> Option<PlaneType> {
    match spec_find_full(props, "type"@) {
        None => None,
        Some(p) => match p.ty {
            DrmPropertyType::Enum { values, bitmask: _ } => match spec_find_enum_value(
                values@,
                p.value,
            ) {
                Some(nm) => spec_plane_type_name(nm),
                None => None,
            },
            _ => None,
        },
    }
}

/// Decodes the hardware "type" enum property of a plane.  An unknown or
/// missing type is a fatal construction error for that plane.
pub fn decode_plane_type(props: &CollectedProperties) -> (r: Result<PlaneType, DrmError>)
    ensures
        match r {
            Ok(t) => spec_plane_type(props.props@) == Some(t),
            Err(e) => {
                &&& spec_plane_type(props.props@) is None
                &&& match spec_find_full(props.props@, "type"@) {
                    None => e matches DrmError::MissingProperty(n) && n@ == "type"@,
                    Some(p) => match p.ty {
                        DrmPropertyType::Enum { values, bitmask: _ } => match spec_find_enum_value(
                            values@,
                            p.value,
                        ) {
                            Some(nm) => e matches DrmError::UnknownPlaneType(s) && s@ == nm,
                            None => e matches DrmError::InvalidPlaneType(v) && v == p.value,
                        },
                        _ => e is InvalidPlaneTypeProperty,
                    },
                }
            },
        },
{
    let found = props.find("type");
    match found {
        None => {
            proof {
                lemma_find_full_none(props.props@, "type"@);
            }
            Err(DrmError::MissingProperty(String::from_str("type")))
        },
        Some(i) => {
            proof {
                lemma_find_full_some(props.props@, "type"@, i as int);
            }
            let p = &props.props[i];
            match &p.ty {
                DrmPropertyType::Enum { values, bitmask: _ } => {
                    let val = p.value;
                    let n = values.len();
                    assert(values@.skip(0) =~= values@);
                    for k in 0..n
                        invariant
                            n == values@.len(),
                            i < props.props@.len(),
                            spec_find_full(props.props@, "type"@) == Some(
                                props.props@[i as int],
                            ),
                            props.props@[i as int].value == val,
                            props.props@[i as int].ty matches DrmPropertyType::Enum {
                                values: vv,
                                bitmask: _b,
                            } && vv@ == values@,
                            forall|j: int| 0 <= j < k ==> values@[j].value != val,
                            spec_find_enum_value(values@, val) == spec_find_enum_value(
                                values@.skip(k as int),
                                val,
                            ),
                    {
                        assert(values@.skip(k as int)[0] == values@[k as int]);
                        if values[k].value == val {
                            let nm = &values[k].name;
                            proof {
                                reveal_strlit("Overlay");
                                reveal_strlit("Primary");
                                reveal_strlit("Cursor");
                            }
                            if crate::props::str_eq(nm.as_str(), "Overlay") {
                                return Ok(PlaneType::Overlay);
                            } else if crate::props::str_eq(nm.as_str(), "Primary") {
                                return Ok(PlaneType::Primary);
                            } else if crate::props::str_eq(nm.as_str(), "Cursor") {
                                return Ok(PlaneType::Cursor);
                            } else {
                                return Err(DrmError::UnknownPlaneType(nm.clone()));
                            }
                        }
                        assert(values@.skip(k as int).skip(1) =~= values@.skip(k + 1));
                    }
                    assert(values@.skip(n as int) =~= Seq::<DrmPropertyEnumValue>::empty());
                    Err(DrmError::InvalidPlaneType(val))
                },
                _ => Err(DrmError::InvalidPlaneTypeProperty),
            }
        },
    }
}

/// The property lookups a plane needs, besides its type.
pub open spec fn spec_plane_props_present(props: Seq<CollectedProperty>) -> bool {
    &&& spec_find_property(props, "FB_ID"@) is Some
    &&& spec_find_property(props, "CRTC_ID"@) is Some
    &&& spec_find_property(props, "CRTC_X"@) is Some
    &&& spec_find_property(props, "CRTC_Y"@) is Some
    &&& spec_find_property(props, "CRTC_W"@) is Some
    &&& spec_find_property(props, "CRTC_H"@) is Some
    &&& spec_find_property(props, "SRC_X"@) is Some
    &&& spec_find_property(props, "SRC_Y"@) is Some
    &&& spec_find_property(props, "SRC_W"@) is Some
    &&& spec_find_property(props, "SRC_H"@) is Some
    &&& spec_find_property(props, "IN_FENCE_FD"@) is Some
}

/// The first of a plane's required property names that is missing, in the
/// order the lookups run.
pub open spec fn spec_first_missing_plane_prop(props: Seq<CollectedProperty>) -> Seq<char> {
    if spec_find_property(props, "FB_ID"@) is None {
        "FB_ID"@
    } else if spec_find_property(props, "CRTC_ID"@) is None {
        "CRTC_ID"@
    } else if spec_find_property(props, "CRTC_X"@) is None {
        "CRTC_X"@
    } else if spec_find_property(props, "CRTC_Y"@) is None {
        "CRTC_Y"@
    } else if spec_find_property(props, "CRTC_W"@) is None {
        "CRTC_W"@
    } else if spec_find_property(props, "CRTC_H"@) is None {
        "CRTC_H"@
    } else if spec_find_property(props, "SRC_X"@) is None {
        "SRC_X"@
    } else if spec_find_property(props, "SRC_Y"@) is None {
        "SRC_Y"@
    } else if spec_find_property(props, "SRC_W"@) is None {
        "SRC_W"@
    } else if spec_find_property(props, "SRC_H"@) is None {
        "SRC_H"@
    } else {
        "IN_FENCE_FD"@
    }
}

/// Builds one plane from its query result and its resolved properties,
/// filtering its format list to the known formats and decoding its type.
/// A failure carries the same error the type decode yields, or names the
/// first missing required property.
pub fn create_plane(plane: DrmPlane, info: &DrmPlaneInfo, props: &CollectedProperties) -> (r:
    Result<MetalPlane, DrmError>)
    ensures
        r is Ok <==> (spec_plane_type(props.props@) is Some && spec_plane_props_present(
            props.props@,
        )),
        r matches Err(e) ==> (if spec_plane_type(props.props@) is None {
            match spec_find_full(props.props@, "type"@) {
                None => e matches DrmError::MissingProperty(n) && n@ == "type"@,
                Some(p) => match p.ty {
                    DrmPropertyType::Enum { values, bitmask: _ } => match spec_find_enum_value(
                        values@,
                        p.value,
                    ) {
                        Some(nm) => e matches DrmError::UnknownPlaneType(nm2) && nm2@ == nm,
                        None => e matches DrmError::InvalidPlaneType(v) && v == p.value,
                    },
                    _ => e is InvalidPlaneTypeProperty,
                },
            }
        } else {
            e matches DrmError::MissingProperty(n) && n@ == spec_first_missing_plane_prop(
                props.props@,
            )
        }),
        r matches Ok(p) ==> {
            &&& p.id == plane
            &&& Some(p.ty) == spec_plane_type(props.props@)
            &&& p.possible_crtcs == info.possible_crtcs
            &&& !p.assigned
            &&& forall|f: u32|
                #[trigger] p.formats@.contains(f) <==> (info.format_types@.contains(f)
                    && spec_known_format(f))
            &&& spec_find_property(props.props@, "FB_ID"@) matches Some((id, _v)) && p.fb_id
                == id
            &&& spec_find_property(props.props@, "CRTC_ID"@) matches Some((id, v))
                && p.crtc_id.id == id && p.crtc_id.value.0 == v as u32
            &&& spec_find_property(props.props@, "CRTC_X"@) matches Some((id, v)) && p.crtc_x.id
                == id && p.crtc_x.value == v as i32
            &&& spec_find_property(props.props@, "CRTC_Y"@) matches Some((id, v)) && p.crtc_y.id
                == id && p.crtc_y.value == v as i32
            &&& spec_find_property(props.props@, "CRTC_W"@) matches Some((id, v)) && p.crtc_w.id
                == id && p.crtc_w.value == v as i32
            &&& spec_find_property(props.props@, "CRTC_H"@) matches Some((id, v)) && p.crtc_h.id
                == id && p.crtc_h.value == v as i32
            &&& spec_find_property(props.props@, "SRC_X"@) matches Some((id, v)) && p.src_x.id
                == id && p.src_x.value == v as u32
            &&& spec_find_property(props.props@, "SRC_Y"@) matches Some((id, v)) && p.src_y.id
                == id && p.src_y.value == v as u32
            &&& spec_find_property(props.props@, "SRC_W"@) matches Some((id, v)) && p.src_w.id
                == id && p.src_w.value == v as u32
            &&& spec_find_property(props.props@, "SRC_H"@) matches Some((id, v)) && p.src_h.id
                == id && p.src_h.value == v as u32
            &&& spec_find_property(props.props@, "IN_FENCE_FD"@) matches Some((id, _))
                && p.in_fence_fd == id
        },
{
    let mut formats: Vec<u32> = Vec::new();
    let nf = info.format_types.len();
    for i in 0..nf
        invariant
            nf == info.format_types@.len(),
            forall|f: u32|
                #[trigger] formats@.contains(f) <==> (info.format_types@.take(i as int).contains(f)
                    && spec_known_format(f)),
    {
        let f = info.format_types[i];
        let ghost prev = formats@;
        let is_known = known_format(f);
        if is_known {
            formats.push(f);
        }
        proof {
            let taken = info.format_types@.take(i + 1);
            let before = info.format_types@.take(i as int);
            assert(taken.drop_last() =~= before);
            assert(taken.last() == f);
            assert forall|g: u32| #[trigger]
                formats@.contains(g) implies (taken.contains(g) && spec_known_format(g)) by {
                let w = choose|w: int| 0 <= w < formats@.len() && formats@[w] == g;
                if w < prev.len() {
                    assert(prev[w] == g);
                    assert(prev.contains(g));
                    let u = choose|u: int| 0 <= u < before.len() && before[u] == g;
                    assert(taken[u] == g);
                } else {
                    assert(g == f);
                    assert(taken[i as int] == g);
                }
            }
            assert forall|g: u32|
                taken.contains(g) && spec_known_format(g) implies #[trigger] formats@.contains(
                g,
            ) by {
                let w = choose|w: int| 0 <= w < taken.len() && taken[w] == g;
                if w < i {
                    assert(before[w] == g);
                    assert(before.contains(g));
                    assert(prev.contains(g));
                    let u = choose|u: int| 0 <= u < prev.len() && prev[u] == g;
                    assert(formats@[u] == g);
                } else {
                    assert(g == f);
                    assert(formats@.last() == g);
                }
            }
        }
    }
    proof {
        assert(info.format_types@.take(nf as int) =~= info.format_types@);
    }
    let ty = match decode_plane_type(props) {
        Ok(t) => t,
        Err(e) => {
            return Err(e);
        },
    };
    let fb_id = match props.get("FB_ID") {
        Ok(p) => p,
        Err(e) => {
            return Err(e);
        },
    };
    let crtc_id = match props.get("CRTC_ID") {
        Ok(p) => p,
        Err(e) => {
            return Err(e);
        },
    };
    let crtc_x = match props.get("CRTC_X") {
        Ok(p) => p,
        Err(e) => {
            return Err(e);
        },
    };
    let crtc_y = match props.get("CRTC_Y") {
        Ok(p) => p,
        Err(e) => {
            return Err(e);
        },
    };
    let crtc_w = match props.get("CRTC_W") {
        Ok(p) => p,
        Err(e) => {
            return Err(e);
        },
    };
    let crtc_h = match props.get("CRTC_H") {
        Ok(p) => p,
        Err(e) => {
            return Err(e);
        },
    };
    let src_x = match props.get("SRC_X") {
        Ok(p) => p,
        Err(e) => {
            return Err(e);
        },
    };
    let src_y = match props.get("SRC_Y") {
        Ok(p) => p,
        Err(e) => {
            return Err(e);
        },
    };
    let src_w = match props.get("SRC_W") {
        Ok(p) => p,
        Err(e) => {
            return Err(e);
        },
    };
    let src_h = match props.get("SRC_H") {
        Ok(p) => p,
        Err(e) => {
            return Err(e);
        },
    };
    let in_fence_fd = match props.get("IN_FENCE_FD") {
        Ok(p) => p,
        Err(e) => {
            return Err(e);
        },
    };
    Ok(
        MetalPlane {
            id: plane,
            ty,
            possible_crtcs: info.possible_crtcs,
            formats,
            assigned: false,
            crtc_id: MutableProperty::new(crtc_id.id, DrmCrtc(crtc_id.value as u32)),
            crtc_x: MutableProperty::new(crtc_x.id, crtc_x.value as i32),
            crtc_y: MutableProperty::new(crtc_y.id, crtc_y.value as i32),
            crtc_w: MutableProperty::new(crtc_w.id, crtc_w.value as i32),
            crtc_h: MutableProperty::new(crtc_h.id, crtc_h.value as i32),
            src_x: MutableProperty::new(src_x.id, src_x.value as u32),
            src_y: MutableProperty::new(src_y.id, src_y.value as u32),
            src_w: MutableProperty::new(src_w.id, src_w.value as u32),
            src_h: MutableProperty::new(src_h.id, src_h.value as u32),
            in_fence_fd: in_fence_fd.id,
            fb_id: fb_id.id,
        },
    )
}

/// Builds one crtc: its stable index, the planes that can reach it (by the
/// bit at the crtc's index in each plane's mask) and its resolved
/// properties.
pub fn create_crtc(crtc: DrmCrtc, idx: usize, planes: &Vec<MetalPlane>, props: &CollectedProperties)
    -> (r: Result<MetalCrtc, DrmError>)
    requires
        idx < 32,
        forall|j: int, k: int|
            0 <= j < k < planes@.len() ==> #[trigger] planes@[j].id != #[trigger] planes@[k].id,
    ensures
        r is Ok <==> (spec_find_property(props.props@, "ACTIVE"@) is Some && spec_find_property(
            props.props@,
            "MODE_ID"@,
        ) is Some && spec_find_property(props.props@, "OUT_FENCE_PTR"@) is Some),
        r matches Ok(c) ==> {
            &&& c.id == crtc
            &&& c.idx == idx
            &&& c.connector is None
            &&& c.mode_blob is None
            &&& c.current_mode is None
            &&& forall|j: int|
                0 <= j < planes@.len() ==> (#[trigger] c.possible_planes@.contains(
                    planes@[j].id,
                ) <==> planes@[j].possible_crtcs & (1u32 << idx as u32) != 0)
            &&& forall|p: DrmPlane| #[trigger]
                c.possible_planes@.contains(p) ==> exists|j: int|
                    0 <= j < planes@.len() && planes@[j].id == p
            &&& spec_find_property(props.props@, "ACTIVE"@) matches Some((id, v)) && c.active.id
                == id && c.active.value == (v == 1)
            &&& spec_find_property(props.props@, "MODE_ID"@) matches Some((id, v)) && c.mode_id.id
                == id && c.mode_id.value.0 == v as u32
            &&& spec_find_property(props.props@, "OUT_FENCE_PTR"@) matches Some((id, _))
                && c.out_fence_ptr == id
        },
{
    broadcast use vstd::seq_lib::lemma_seq_contains_after_push;

    let mask: u32 = 1u32 << (idx as u32);
    let mut possible_planes: Vec<DrmPlane> = Vec::new();
    let np = planes.len();
    for i in 0..np
        invariant
            np == planes@.len(),
            forall|j: int, k: int|
                0 <= j < k < np ==> #[trigger] planes@[j].id != #[trigger] planes@[k].id,
            forall|j: int|
                0 <= j < np ==> (#[trigger] possible_planes@.contains(planes@[j].id) ==> (
                planes@[j].possible_crtcs & mask != 0)),
            forall|j: int|
                0 <= j < i && planes@[j].possible_crtcs & mask != 0
                    ==> #[trigger] possible_planes@.contains(planes@[j].id),
            forall|p: DrmPlane| #[trigger]
                possible_planes@.contains(p) ==> exists|j: int|
                    0 <= j < np && planes@[j].id == p,
            mask == 1u32 << idx as u32,
    {
        let ghost prev = possible_planes@;
        if planes[i].possible_crtcs & mask != 0 {
            possible_planes.push(planes[i].id);
            proof {
                let added = planes@[i as int].id;
                assert(possible_planes@ == prev.push(added));
                assert forall|p: DrmPlane| #[trigger]
                    possible_planes@.contains(p) implies prev.contains(p) || p == added by {
                    let w = choose|w: int|
                        0 <= w < possible_planes@.len() && possible_planes@[w] == p;
                    if w < prev.len() {
                        assert(prev[w] == p);
                    }
                }
                assert forall|p: DrmPlane|
                    prev.contains(p) || p == added implies #[trigger] possible_planes@.contains(
                    p,
                ) by {
                    if prev.contains(p) {
                        let w = choose|w: int| 0 <= w < prev.len() && prev[w] == p;
                        assert(possible_planes@[w] == p);
                    } else {
                        assert(possible_planes@.last() == p);
                    }
                }
            }
        }
    }
    let active = match props.get("ACTIVE") {
        Ok(p) => p,
        Err(e) => {
            return Err(e);
        },
    };
    let mode_id = match props.get("MODE_ID") {
        Ok(p) => p,
        Err(e) => {
            return Err(e);
        },
    };
    let out_fence_ptr = match props.get("OUT_FENCE_PTR") {
        Ok(p) => p,
        Err(e) => {
            return Err(e);
        },
    };
    Ok(
        MetalCrtc {
            id: crtc,
            idx,
            possible_planes,
            connector: None,
            active: MutableProperty::new(active.id, active.value == 1),
            mode_id: MutableProperty::new(mode_id.id, DrmBlob(mode_id.value as u32)),
            out_fence_ptr: out_fence_ptr.id,
            mode_blob: None,
            current_mode: None,
        },
    )
}

/// Builds one encoder: the crtcs it can reach, by the bit at each crtc's
/// index in the encoder's mask.
pub fn create_encoder(info: &DrmEncoderInfo, crtcs: &Vec<MetalCrtc>) -> (r: MetalEncoder)
    requires
        forall|j: int| 0 <= j < crtcs@.len() ==> (#[trigger] crtcs@[j].idx) < 32,
        forall|j: int, k: int|
            0 <= j < k < crtcs@.len() ==> #[trigger] crtcs@[j].id != #[trigger] crtcs@[k].id,
    ensures
        r.id == info.encoder_id,
        forall|j: int|
            0 <= j < crtcs@.len() ==> (#[trigger] r.crtcs@.contains(crtcs@[j].id)
                <==> info.possible_crtcs & (1u32 << crtcs@[j].idx as u32) != 0),
        forall|c: DrmCrtc| #[trigger]
            r.crtcs@.contains(c) ==> exists|j: int| 0 <= j < crtcs@.len() && crtcs@[j].id == c,
{
    broadcast use vstd::seq_lib::lemma_seq_contains_after_push;

    let mut possible: Vec<DrmCrtc> = Vec::new();
    let nc = crtcs.len();
    for i in 0..nc
        invariant
            nc == crtcs@.len(),
            forall|j: int| 0 <= j < nc ==> (#[trigger] crtcs@[j].idx) < 32,
            forall|j: int, k: int|
                0 <= j < k < nc ==> #[trigger] crtcs@[j].id != #[trigger] crtcs@[k].id,
            forall|j: int|
                0 <= j < nc ==> (#[trigger] possible@.contains(crtcs@[j].id)
                    ==> info.possible_crtcs & (1u32 << crtcs@[j].idx as u32) != 0),
            forall|j: int|
                0 <= j < i && info.possible_crtcs & (1u32 << crtcs@[j].idx as u32) != 0
                    ==> #[trigger] possible@.contains(crtcs@[j].id),
            forall|c: DrmCrtc| #[trigger]
                possible@.contains(c) ==> exists|j: int| 0 <= j < nc && crtcs@[j].id == c,
    {
        let ghost prev = possible@;
        if info.possible_crtcs & (1u32 << (crtcs[i].idx as u32)) != 0 {
            possible.push(crtcs[i].id);
            proof {
                let added = crtcs@[i as int].id;
                assert(possible@ == prev.push(added));
                assert forall|c: DrmCrtc| #[trigger]
                    possible@.contains(c) implies prev.contains(c) || c == added by {
                    let w = choose|w: int| 0 <= w < possible@.len() && possible@[w] == c;
                    if w < prev.len() {
                        assert(prev[w] == c);
                    }
                }
                assert forall|c: DrmCrtc|
                    prev.contains(c) || c == added implies #[trigger] possible@.contains(c) by {
                    if prev.contains(c) {
                        let w = choose|w: int| 0 <= w < prev.len() && prev[w] == c;
                        assert(possible@[w] == c);
                    } else {
                        assert(possible@.last() == c);
                    }
                }
            }
        }
    }
    MetalEncoder { id: info.encoder_id, crtcs: possible }
}

/// Monitor identity decoded from a connector's identity data block by the
/// black-box decoder outside this crate.
#[derive(Clone, Debug)]
pub struct MonitorIdentity {
    pub manufacturer: String,
    pub product: String,
    pub serial_number: String,
}

/// Index of the encoder with the given id.
pub fn find_encoder(encoders: &Vec<MetalEncoder>, id: DrmEncoder) -> (r: Option<usize>)
    ensures
        match r {
            Some(i) => i < encoders@.len() && encoders@[i as int].id == id,
            None => forall|j: int| 0 <= j < encoders@.len() ==> encoders@[j].id != id,
        },
{
    let n = encoders.len();
    for i in 0..n
        invariant
            n == encoders@.len(),
            forall|j: int| 0 <= j < i ==> encoders@[j].id != id,
    {
        if encoders[i].id == id {
            return Some(i);
        }
    }
    None
}

/// A crtc is reachable for a connector iff some encoder the connector
/// names can reach it.
pub open spec fn spec_reachable_crtc(
    encoders: Seq<MetalEncoder>,
    ids: Seq<DrmEncoder>,
    c: DrmCrtc,
) -> bool {
    exists|j: int|
        0 <= j < encoders.len() && ids.contains(#[trigger] encoders[j].id)
            && encoders[j].crtcs@.contains(c)
}

/// Builds a connector's display data from its query result, the decoded
/// monitor identity and its resolved properties.  The reachable crtcs are
/// the union over the connector's encoders.
pub fn create_connector_display_data(
    info: &DrmConnectorInfo,
    encoders: &Vec<MetalEncoder>,
    identity: Option<&MonitorIdentity>,
    props: &CollectedProperties,
) -> (r: Result<ConnectorDisplayData, DrmError>)
    requires
        forall|j: int, k: int|
            0 <= j < k < encoders@.len() ==> #[trigger] encoders@[j].id
                != #[trigger] encoders@[k].id,
        info.modes@.len() > 0 ==> info.modes@[0].htotal > 0 && info.modes@[0].vtotal > 0 && 0
            < info.modes@[0].spec_refresh_rate_millihz() <= u32::MAX,
    ensures
        r is Ok <==> spec_find_property(props.props@, "CRTC_ID"@) is Some,
        r matches Ok(dd) ==> {
            &&& spec_find_property(props.props@, "CRTC_ID"@) matches Some((id, v)) && dd.crtc_id.id
                == id && dd.crtc_id.value.0 == v as u32
            &&& forall|c: DrmCrtc|
                #[trigger] dd.crtcs@.contains(c) <==> spec_reachable_crtc(
                    encoders@,
                    info.encoders@,
                    c,
                )
            &&& dd.crtcs@.no_duplicates()
            &&& dd.modes@ == info.modes@
            &&& info.modes@.len() > 0 ==> dd.mode == Some(info.modes@[0]) && dd.refresh == (
            1_000_000_000_000u64 / info.modes@[0].spec_refresh_rate_millihz() as u64) as u32
            &&& info.modes@.len() == 0 ==> dd.mode is None && dd.refresh == 0
            &&& dd.connection == spec_connector_status_of(info.connection)
            &&& dd.connector_type == spec_connector_type_of(info.connector_type)
            &&& dd.connector_type_id == info.connector_type_id
            &&& dd.mm_width == info.mm_width
            &&& dd.mm_height == info.mm_height
            &&& dd.subpixel == info.subpixel
            &&& match identity {
                Some(m) => dd.monitor_manufacturer@ == m.manufacturer@ && dd.monitor_name@
                    == m.product@ && dd.monitor_serial_number@ == m.serial_number@,
                None => dd.monitor_manufacturer@.len() == 0 && dd.monitor_name@.len() == 0
                    && dd.monitor_serial_number@.len() == 0,
            }
        },
{
    broadcast use vstd::seq_lib::lemma_seq_contains_after_push;

    let mut crtcs: Vec<DrmCrtc> = Vec::new();
    let ne = info.encoders.len();
    for i in 0..ne
        invariant
            ne == info.encoders@.len(),
            forall|j: int, k: int|
                0 <= j < k < encoders@.len() ==> #[trigger] encoders@[j].id
                    != #[trigger] encoders@[k].id,
            crtcs@.no_duplicates(),
            forall|c: DrmCrtc|
                #[trigger] crtcs@.contains(c) <==> spec_reachable_crtc(
                    encoders@,
                    info.encoders@.take(i as int),
                    c,
                ),
    {
        proof {
            let before = info.encoders@.take(i as int);
            let taken = info.encoders@.take(i + 1);
            assert(taken.drop_last() =~= before);
        }
        let enc = info.encoders[i];
        match find_encoder(encoders, enc) {
            None => {
                proof {
                    let before = info.encoders@.take(i as int);
                    let taken = info.encoders@.take(i + 1);
                    assert forall|c: DrmCrtc| #[trigger]
                        crtcs@.contains(c) == spec_reachable_crtc(encoders@, taken, c) by {
                        assert forall|j: int|
                            0 <= j < encoders@.len() && taken.contains(
                                #[trigger] encoders@[j].id,
                            ) implies before.contains(encoders@[j].id) by {
                            let w = choose|w: int| 0 <= w < taken.len() && taken[w] == encoders@[j].id;
                            if w == i {
                                assert(encoders@[j].id == enc);
                            } else {
                                assert(before[w] == encoders@[j].id);
                            }
                        }
                        assert forall|j: int|
                            0 <= j < encoders@.len() && before.contains(
                                #[trigger] encoders@[j].id,
                            ) implies taken.contains(encoders@[j].id) by {
                            let w = choose|w: int|
                                0 <= w < before.len() && before[w] == encoders@[j].id;
                            assert(taken[w] == encoders@[j].id);
                        }
                    }
                }
            },
            Some(e) => {
                let nk = encoders[e].crtcs.len();
                for k in 0..nk
                    invariant
                        ne == info.encoders@.len(),
                        i < ne,
                        e < encoders@.len(),
                        encoders@[e as int].id == info.encoders@[i as int],
                        nk == encoders@[e as int].crtcs@.len(),
                        forall|j: int, k2: int|
                            0 <= j < k2 < encoders@.len() ==> #[trigger] encoders@[j].id
                                != #[trigger] encoders@[k2].id,
                        crtcs@.no_duplicates(),
                        forall|c: DrmCrtc|
                            #[trigger] crtcs@.contains(c) <==> (spec_reachable_crtc(
                                encoders@,
                                info.encoders@.take(i as int),
                                c,
                            ) || encoders@[e as int].crtcs@.take(k as int).contains(c)),
                {
                    let c = encoders[e].crtcs[k];
                    let ghost prev = crtcs@;
                    let mut already = false;
                    let nc = crtcs.len();
                    for m in 0..nc
                        invariant
                            nc == crtcs@.len(),
                            crtcs@ == prev,
                            already == exists|w: int| 0 <= w < m && crtcs@[w] == c,
                    {
                        if crtcs[m] == c {
                            already = true;
                        }
                    }
                    proof {
                        if already {
                            assert(prev.contains(c));
                        }
                    }
                    if !already {
                        crtcs.push(c);
                        proof {
                            assert(crtcs@ == prev.push(c));
                            assert(!prev.contains(c));
                            assert forall|x: int, y: int|
                                0 <= x < y < crtcs@.len() implies crtcs@[x] != crtcs@[y] by {
                                if y < prev.len() {
                                } else {
                                    assert(crtcs@[y] == c);
                                    assert(crtcs@[x] == prev[x]);
                                    assert(prev.contains(prev[x]));
                                }
                            }
                            assert(crtcs@.no_duplicates());
                        }
                    }
                    proof {
                        let ecr = encoders@[e as int].crtcs@;
                        assert(ecr.take(k + 1) =~= ecr.take(k as int).push(c));
                        assert forall|c2: DrmCrtc| #[trigger]
                            crtcs@.contains(c2) == (spec_reachable_crtc(
                                encoders@,
                                info.encoders@.take(i as int),
                                c2,
                            ) || ecr.take(k + 1).contains(c2)) by {
                            broadcast use vstd::seq_lib::lemma_seq_contains_after_push;

                            assert(prev.push(c).contains(c2) == (prev.contains(c2) || c2 == c));
                            assert(ecr.take(k as int).push(c).contains(c2) == (ecr.take(
                                k as int,
                            ).contains(c2) || c2 == c));
                            assert(crtcs@.contains(c2) == (prev.contains(c2) || c2 == c));
                        }
                    }
                }
                proof {
                    let before = info.encoders@.take(i as int);
                    let taken = info.encoders@.take(i + 1);
                    let ecr = encoders@[e as int].crtcs@;
                    assert(ecr.take(nk as int) =~= ecr);
                    assert forall|c2: DrmCrtc| #[trigger]
                        crtcs@.contains(c2) == spec_reachable_crtc(encoders@, taken, c2) by {
                        if crtcs@.contains(c2) {
                            if spec_reachable_crtc(encoders@, before, c2) {
                                let j = choose|j: int|
                                    0 <= j < encoders@.len() && before.contains(
                                        #[trigger] encoders@[j].id,
                                    ) && encoders@[j].crtcs@.contains(c2);
                                let w = choose|w: int|
                                    0 <= w < before.len() && before[w] == encoders@[j].id;
                                assert(taken[w] == encoders@[j].id);
                            } else {
                                assert(ecr.contains(c2));
                                assert(taken[i as int] == encoders@[e as int].id);
                            }
                        }
                        if spec_reachable_crtc(encoders@, taken, c2) {
                            let j = choose|j: int|
                                0 <= j < encoders@.len() && taken.contains(
                                    #[trigger] encoders@[j].id,
                                ) && encoders@[j].crtcs@.contains(c2);
                            let w = choose|w: int| 0 <= w < taken.len() && taken[w] == encoders@[j].id;
                            if w < i {
                                assert(before[w] == encoders@[j].id);
                            } else {
                                assert(encoders@[j].id == encoders@[e as int].id);
                                assert(j == e);
                            }
                        }
                    }
                }
            },
        }
    }
    proof {
        assert(info.encoders@.take(ne as int) =~= info.encoders@);
    }
    let crtc_id = match props.get("CRTC_ID") {
        Ok(p) => p,
        Err(e) => {
            return Err(e);
        },
    };
    let connection = ConnectorStatus::from_drm(info.connection);
    let connector_type = ConnectorType::from_drm(info.connector_type);
    let (mode, refresh) = if info.modes.len() > 0 {
        let m = info.modes[0];
        let millihz = m.refresh_rate_millihz();
        let refresh = (1_000_000_000_000u64 / millihz as u64) as u32;
        (Some(m), refresh)
    } else {
        (None, 0u32)
    };
    let mut modes: Vec<DrmModeInfo> = Vec::new();
    let nm = info.modes.len();
    for i in 0..nm
        invariant
            nm == info.modes@.len(),
            modes@ == info.modes@.take(i as int),
    {
        modes.push(info.modes[i]);
        proof {
            assert(modes@ =~= info.modes@.take(i + 1));
        }
    }
    proof {
        assert(info.modes@.take(nm as int) =~= info.modes@);
    }
    let (manufacturer, name, serial) = match identity {
        Some(m) => (m.manufacturer.clone(), m.product.clone(), m.serial_number.clone()),
        None => (String::new(), String::new(), String::new()),
    };
    Ok(
        ConnectorDisplayData {
            crtc_id: MutableProperty::new(crtc_id.id, DrmCrtc(crtc_id.value as u32)),
            crtcs,
            modes,
            mode,
            refresh,
            monitor_manufacturer: manufacturer,
            monitor_name: name,
            monitor_serial_number: serial,
            connection,
            mm_width: info.mm_width,
            mm_height: info.mm_height,
            subpixel: info.subpixel,
            connector_type,
            connector_type_id: info.connector_type_id,
        },
    )
}

/// Everything one connector's construction consumes: its query result, the
/// decoded monitor identity (when one was read), its resolved properties,
/// the compositor-level id picked for it and the present task spawned for
/// it.
#[derive(Clone, Debug)]
pub struct ConnectorQuery {
    pub id: DrmConnector,
    pub info: DrmConnectorInfo,
    pub identity: Option<MonitorIdentity>,
    pub props: CollectedProperties,
    pub connector_id: ConnectorId,
    pub present_task: TaskHandle,
}

impl ConnectorQuery {
    /// The arithmetic side conditions of the modes carried in the query.
    pub open spec fn modes_ok(&self) -> bool {
        self.info.modes@.len() > 0 ==> self.info.modes@[0].htotal > 0
            && self.info.modes@[0].vtotal > 0 && 0
            < self.info.modes@[0].spec_refresh_rate_millihz() <= u32::MAX
    }
}

/// Builds one connector in its initial state: enabled, allowed to present,
/// damaged, with nothing assigned and nothing sent.
pub fn create_connector(query: &ConnectorQuery, encoders: &Vec<MetalEncoder>) -> (r: Result<
    (MetalConnector, ConnectorFutures),
    DrmError,
>)
    requires
        forall|j: int, k: int|
            0 <= j < k < encoders@.len() ==> #[trigger] encoders@[j].id
                != #[trigger] encoders@[k].id,
        query.modes_ok(),
    ensures
        r is Ok <==> spec_find_property(query.props.props@, "CRTC_ID"@) is Some,
        r matches Ok((c, f)) ==> {
            &&& c.id == query.id
            &&& c.connector_id == query.connector_id
            &&& c.events@.len() == 0
            &&& c.buffers is None
            &&& c.next_buffer == 0
            &&& c.enabled
            &&& c.can_present
            &&& c.has_damage
            &&& !c.cursor_changed
            &&& !c.connect_sent
            &&& c.primary_plane is None
            &&& c.cursor_plane is None
            &&& c.crtc is None
            &&& !c.on_change.armed
            &&& !c.on_change.pending
            &&& !c.present_scheduled
            &&& c.cursor_generation == 0
            &&& c.cursor_x == 0 && c.cursor_y == 0
            &&& !c.cursor_enabled
            &&& c.cursor_buffers is None
            &&& c.cursor_front_buffer == 0
            &&& !c.cursor_swap_buffer
            &&& c.wf()
            &&& query.info.modes@.len() > 0 ==> c.display.mode == Some(query.info.modes@[0])
            &&& c.display.connection == spec_connector_status_of(query.info.connection)
            &&& match query.identity {
                Some(m) => c.display.monitor_manufacturer@ == m.manufacturer@
                    && c.display.monitor_name@ == m.product@ && c.display.monitor_serial_number@
                    == m.serial_number@,
                None => c.display.monitor_manufacturer@.len() == 0,
            }
            &&& f.present == query.present_task
        },
{
    let display = match create_connector_display_data(
        &query.info,
        encoders,
        query.identity.as_ref(),
        &query.props,
    ) {
        Ok(d) => d,
        Err(e) => {
            return Err(e);
        },
    };
    let conn = MetalConnector {
        id: query.id,
        connector_id: query.connector_id,
        events: Vec::new(),
        buffers: None,
        next_buffer: 0,
        enabled: true,
        can_present: true,
        has_damage: true,
        cursor_changed: false,
        display,
        connect_sent: false,
        primary_plane: None,
        cursor_plane: None,
        crtc: None,
        on_change: OnChange { armed: false, pending: false },
        present_scheduled: false,
        cursor_generation: 0,
        cursor_x: 0,
        cursor_y: 0,
        cursor_enabled: false,
        cursor_buffers: None,
        cursor_front_buffer: 0,
        cursor_swap_buffer: false,
    };
    Ok((conn, ConnectorFutures { present: query.present_task }))
}

/// Builds every connector of a device.  The first failure aborts the whole
/// enumeration with the failing connector named.
pub fn get_connectors(queries: &Vec<ConnectorQuery>, encoders: &Vec<MetalEncoder>) -> (r: Result<
    (Vec<MetalConnector>, Vec<ConnectorFutures>),
    DrmError,
>)
    requires
        forall|j: int, k: int|
            0 <= j < k < encoders@.len() ==> #[trigger] encoders@[j].id
                != #[trigger] encoders@[k].id,
        forall|q: int| 0 <= q < queries@.len() ==> (#[trigger] queries@[q]).modes_ok(),
    ensures
        r is Ok <==> (forall|q: int|
            0 <= q < queries@.len() ==> spec_connector_query_ok(#[trigger] queries@[q])),
        r matches Ok((cs, fs)) ==> {
            &&& cs@.len() == queries@.len()
            &&& fs@.len() == queries@.len()
            &&& forall|q: int|
                0 <= q < queries@.len() ==> (#[trigger] cs@[q]).id == queries@[q].id
                    && cs@[q].connector_id == queries@[q].connector_id && cs@[q].wf()
                    && !cs@[q].connect_sent && cs@[q].crtc is None && cs@[q].primary_plane is None
        },
        r matches Err(e) ==> e matches DrmError::CreateConnector(_),
{
    let mut connectors: Vec<MetalConnector> = Vec::new();
    let mut futures: Vec<ConnectorFutures> = Vec::new();
    let n = queries.len();
    for i in 0..n
        invariant
            n == queries@.len(),
            forall|j: int, k: int|
                0 <= j < k < encoders@.len() ==> #[trigger] encoders@[j].id
                    != #[trigger] encoders@[k].id,
            forall|q: int| 0 <= q < n ==> (#[trigger] queries@[q]).modes_ok(),
            connectors@.len() == i,
            futures@.len() == i,
            forall|q: int| 0 <= q < i ==> spec_connector_query_ok(#[trigger] queries@[q]),
            forall|q: int|
                0 <= q < i ==> (#[trigger] connectors@[q]).id == queries@[q].id
                    && connectors@[q].connector_id == queries@[q].connector_id && connectors@[q].wf()
                    && !connectors@[q].connect_sent && connectors@[q].crtc is None
                    && connectors@[q].primary_plane is None,
    {
        match create_connector(&queries[i], encoders) {
            Ok((c, f)) => {
                connectors.push(c);
                futures.push(f);
            },
            Err(_) => {
                return Err(DrmError::CreateConnector(queries[i].id.0));
            },
        }
    }
    Ok((connectors, futures))
}

/// The property lookups a crtc needs.
pub open spec fn spec_crtc_props_present(props: Seq<CollectedProperty>) -> bool {
    &&& spec_find_property(props, "ACTIVE"@) is Some
    &&& spec_find_property(props, "MODE_ID"@) is Some
    &&& spec_find_property(props, "OUT_FENCE_PTR"@) is Some
}

/// A plane query that construction accepts: its type decodes and its
/// properties resolve.
pub open spec fn spec_plane_query_ok(q: PlaneQuery) -> bool {
    spec_plane_type(q.props.props@) is Some && spec_plane_props_present(q.props.props@)
}

/// A connector query that construction accepts: its bound-crtc property
/// resolves.
pub open spec fn spec_connector_query_ok(q: ConnectorQuery) -> bool {
    spec_find_property(q.props.props@, "CRTC_ID"@) is Some
}

/// One plane's enumeration inputs.
#[derive(Clone, Debug)]
pub struct PlaneQuery {
    pub id: DrmPlane,
    pub info: DrmPlaneInfo,
    pub props: CollectedProperties,
}

/// Everything one device's construction consumes, as the enumeration
/// ioctls and the task spawns outside this crate produced it.
#[derive(Clone, Debug)]
pub struct DeviceQuery {
    pub pending: PendingDrmDevice,
    pub resources: DrmCardResources,
    pub plane_queries: Vec<PlaneQuery>,
    /// One entry per crtc of `resources`, in the same order.
    pub crtc_props: Vec<CollectedProperties>,
    pub encoder_infos: Vec<DrmEncoderInfo>,
    pub connector_queries: Vec<ConnectorQuery>,
    /// The device's cursor-plane size limits, when the query succeeded.
    pub cursor_size: Option<(u64, u64)>,
    /// The GPU context created on this device.
    pub gfx: GfxHandle,
}

impl DeviceQuery {
    /// Side conditions of a usable device query: parallel vectors line up,
    /// ids are unique, and at most 32 crtcs exist (their index is a bit
    /// position in a 32-bit mask).
    pub open spec fn wf(&self) -> bool {
        &&& self.crtc_props@.len() == self.resources.crtcs@.len()
        &&& self.resources.crtcs@.len() <= 32
        &&& forall|j: int, k: int|
            0 <= j < k < self.resources.crtcs@.len() ==> #[trigger] self.resources.crtcs@[j]
                != #[trigger] self.resources.crtcs@[k]
        &&& forall|j: int, k: int|
            0 <= j < k < self.plane_queries@.len() ==> (#[trigger] self.plane_queries@[j]).id
                != (#[trigger] self.plane_queries@[k]).id
        &&& forall|j: int, k: int|
            0 <= j < k < self.encoder_infos@.len()
                ==> (#[trigger] self.encoder_infos@[j]).encoder_id
                != (#[trigger] self.encoder_infos@[k]).encoder_id
        &&& forall|q: int|
            0 <= q < self.connector_queries@.len() ==> (#[trigger] self.connector_queries@[
                q
            ]).modes_ok()
    }
}

/// A device query that construction accepts wholly: every plane query
/// decodes and resolves, every crtc's properties resolve, and every
/// connector query resolves.
pub open spec fn spec_device_query_ok(q: DeviceQuery) -> bool {
    &&& forall|j: int|
        0 <= j < q.plane_queries@.len() ==> spec_plane_query_ok(#[trigger] q.plane_queries@[j])
    &&& forall|j: int|
        0 <= j < q.crtc_props@.len() ==> spec_crtc_props_present(
            (#[trigger] q.crtc_props@[j]).props@,
        )
    &&& forall|j: int|
        0 <= j < q.connector_queries@.len() ==> spec_connector_query_ok(
            #[trigger] q.connector_queries@[j],
        )
}

/// Opens a device from its enumeration results: builds every plane, crtc,
/// encoder and connector, with the cursor size limits falling back to
/// 64 by 64 when their query failed.  Construction succeeds exactly when
/// every query resolves; the first failing object aborts it.  The caller
/// enables the atomic capability and performs the enumeration ioctls
/// before calling this.
pub fn create_drm_device(query: &DeviceQuery, drm_handler: TaskHandle) -> (r: Result<
    MetalDrmDeviceData,
    MetalError,
>)
    requires
        query.wf(),
    ensures
        r is Ok <==> spec_device_query_ok(*query),
        r matches Ok(data) ==> {
            &&& data.dev.id == query.pending.id
            &&& data.dev.devnum == query.pending.devnum
            &&& data.dev.crtcs@.len() == query.resources.crtcs@.len()
            &&& forall|j: int|
                0 <= j < data.dev.crtcs@.len() ==> ((#[trigger] data.dev.crtcs@[j]).id
                    == query.resources.crtcs@[j] && data.dev.crtcs@[j].idx == j
                    && data.dev.crtcs@[j].connector is None
                    && data.dev.crtcs@[j].mode_blob is None
                    && data.dev.crtcs@[j].current_mode is None && (spec_find_property(
                    query.crtc_props@[j].props@,
                    "ACTIVE"@,
                ) matches Some((pid, v)) && data.dev.crtcs@[j].active.id == pid
                    && data.dev.crtcs@[j].active.value == (v == 1)))
            &&& data.dev.planes@.len() == query.plane_queries@.len()
            &&& forall|j: int|
                0 <= j < data.dev.planes@.len() ==> (#[trigger] data.dev.planes@[j]).id
                    == query.plane_queries@[j].id && !data.dev.planes@[j].assigned
            &&& data.dev.encoders@.len() == query.encoder_infos@.len()
            &&& forall|j: int|
                0 <= j < data.dev.encoders@.len() ==> (#[trigger] data.dev.encoders@[j]).id
                    == query.encoder_infos@[j].encoder_id
            &&& data.connectors@.len() == query.connector_queries@.len()
            &&& data.futures@.len() == query.connector_queries@.len()
            &&& forall|q: int|
                0 <= q < data.connectors@.len() ==> (#[trigger] data.connectors@[q]).id
                    == query.connector_queries@[q].id && data.connectors@[q].wf()
                    && !data.connectors@[q].connect_sent && data.connectors@[q].crtc is None
                    && data.connectors@[q].primary_plane is None
            &&& query.cursor_size matches Some((w, h)) ==> data.dev.cursor_width == w
                && data.dev.cursor_height == h
            &&& query.cursor_size is None ==> data.dev.cursor_width == 64
                && data.dev.cursor_height == 64
            &&& data.dev.min_width == query.resources.min_width
            &&& data.dev.max_width == query.resources.max_width
            &&& data.dev.min_height == query.resources.min_height
            &&& data.dev.max_height == query.resources.max_height
            &&& data.dev.ctx.dev_id == query.pending.id
            &&& data.dev.ctx.gfx == query.gfx
            &&& data.dev.handle_events.handle_events == Some(drm_handler)
            &&& !data.unprocessed_change
        },
        r matches Err(e) ==> (e matches MetalError::CreatePlane(_) || e
            matches MetalError::CreateCrtc(_) || e matches MetalError::CreateConnector(_)),
{
    let (cursor_width, cursor_height) = match query.cursor_size {
        Some((w, h)) => (w, h),
        None => (64u64, 64u64),
    };
    let mut planes: Vec<MetalPlane> = Vec::new();
    let np = query.plane_queries.len();
    for i in 0..np
        invariant
            np == query.plane_queries@.len(),
            planes@.len() == i,
            forall|j: int, k: int|
                0 <= j < k < np ==> (#[trigger] query.plane_queries@[j]).id
                    != (#[trigger] query.plane_queries@[k]).id,
            forall|j: int| 0 <= j < i ==> spec_plane_query_ok(#[trigger] query.plane_queries@[j]),
            forall|j: int|
                0 <= j < i ==> (#[trigger] planes@[j]).id == query.plane_queries@[j].id
                    && !planes@[j].assigned,
    {
        let q = &query.plane_queries[i];
        match create_plane(q.id, &q.info, &q.props) {
            Ok(p) => {
                planes.push(p);
            },
            Err(e) => {
                return Err(MetalError::CreatePlane(e));
            },
        }
    }
    proof {
        assert forall|j: int, k: int|
            0 <= j < k < planes@.len() implies #[trigger] planes@[j].id
            != #[trigger] planes@[k].id by {
            assert(planes@[j].id == query.plane_queries@[j].id);
            assert(planes@[k].id == query.plane_queries@[k].id);
        }
    }
    let mut crtcs: Vec<MetalCrtc> = Vec::new();
    let nc = query.resources.crtcs.len();
    for i in 0..nc
        invariant
            nc == query.resources.crtcs@.len(),
            nc <= 32,
            nc == query.crtc_props@.len(),
            crtcs@.len() == i,
            forall|j: int, k: int|
                0 <= j < k < planes@.len() ==> #[trigger] planes@[j].id != #[trigger] planes@[k].id,
            forall|j: int|
                0 <= j < i ==> spec_crtc_props_present((#[trigger] query.crtc_props@[j]).props@),
            forall|j: int|
                0 <= j < i ==> ((#[trigger] crtcs@[j]).id == query.resources.crtcs@[j]
                    && crtcs@[j].idx == j && crtcs@[j].connector is None
                    && crtcs@[j].mode_blob is None && crtcs@[j].current_mode is None && (
                spec_find_property(query.crtc_props@[j].props@, "ACTIVE"@) matches Some((pid, v))
                    && crtcs@[j].active.id == pid && crtcs@[j].active.value == (v == 1))),
    {
        match create_crtc(query.resources.crtcs[i], i, &planes, &query.crtc_props[i]) {
            Ok(c) => {
                crtcs.push(c);
            },
            Err(e) => {
                return Err(MetalError::CreateCrtc(e));
            },
        }
    }
    proof {
        assert forall|j: int, k: int|
            0 <= j < k < crtcs@.len() implies #[trigger] crtcs@[j].id
            != #[trigger] crtcs@[k].id by {
            assert(crtcs@[j].id == query.resources.crtcs@[j]);
            assert(crtcs@[k].id == query.resources.crtcs@[k]);
        }
    }
    let mut encoders: Vec<MetalEncoder> = Vec::new();
    let ne = query.encoder_infos.len();
    for i in 0..ne
        invariant
            ne == query.encoder_infos@.len(),
            encoders@.len() == i,
            forall|j: int| 0 <= j < crtcs@.len() ==> (#[trigger] crtcs@[j].idx) < 32,
            forall|j: int, k: int|
                0 <= j < k < crtcs@.len() ==> #[trigger] crtcs@[j].id != #[trigger] crtcs@[k].id,
            forall|j: int, k: int|
                0 <= j < k < ne ==> (#[trigger] query.encoder_infos@[j]).encoder_id
                    != (#[trigger] query.encoder_infos@[k]).encoder_id,
            forall|j: int|
                0 <= j < i ==> (#[trigger] encoders@[j]).id == query.encoder_infos@[j].encoder_id,
    {
        let e = create_encoder(&query.encoder_infos[i], &crtcs);
        encoders.push(e);
    }
    proof {
        assert forall|j: int, k: int|
            0 <= j < k < encoders@.len() implies #[trigger] encoders@[j].id
            != #[trigger] encoders@[k].id by {
            assert(encoders@[j].id == query.encoder_infos@[j].encoder_id);
            assert(encoders@[k].id == query.encoder_infos@[k].encoder_id);
        }
    }
    let (connectors, futures) = match get_connectors(&query.connector_queries, &encoders) {
        Ok(r) => r,
        Err(_) => {
            return Err(MetalError::CreateConnector(DrmError::CreateConnector(0)));
        },
    };
    let dev = MetalDrmDevice {
        id: query.pending.id,
        devnum: query.pending.devnum,
        devnode: query.pending.devnode.clone(),
        crtcs,
        encoders,
        planes,
        min_width: query.resources.min_width,
        max_width: query.resources.max_width,
        min_height: query.resources.min_height,
        max_height: query.resources.max_height,
        cursor_width,
        cursor_height,
        handle_events: HandleEvents { handle_events: Some(drm_handler) },
        ctx: MetalRenderContext { dev_id: query.pending.id, gfx: query.gfx },
        next_blob_id: 1,
    };
    Ok(MetalDrmDeviceData { dev, connectors, futures, unprocessed_change: false })
}

} // verus!
