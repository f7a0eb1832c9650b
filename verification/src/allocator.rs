//! The plane/crtc allocator: the fast path that validates and reuses the
//! current configuration, the preserve-set validation, and the full modeset
//! path that rebuilds every non-preserved output.

use vstd::prelude::*;

use crate::drm::{
    ConnectorStatus, DrmBlob, DrmConnector, DrmCrtc, DrmPlane, DrmPropertyValue, spec_modes_equal,
};
use crate::buffer::RenderBufferPair;
use crate::props::Change;
use crate::video::{
    MetalConnector, MetalCrtc, MetalDrmDevice, MetalDrmDeviceData, MetalError, MetalPlane,
    PlaneType, Preserve,
};

verus! {

/// Index of the crtc with the given id, as a mathematical lookup.
pub open spec fn spec_find_crtc(crtcs: Seq<MetalCrtc>, id: DrmCrtc) -> Option<int>
    decreases crtcs.len(),
{
    if crtcs.len() == 0 {
        None
    } else if crtcs[0].id == id {
        Some(0)
    } else {
        match spec_find_crtc(crtcs.skip(1), id) {
            Some(i) => Some(i + 1),
            None => None,
        }
    }
}

/// Index of the plane with the given id, as a mathematical lookup.
pub open spec fn spec_find_plane(planes: Seq<MetalPlane>, id: DrmPlane) -> Option<int>
    decreases planes.len(),
{
    if planes.len() == 0 {
        None
    } else if planes[0].id == id {
        Some(0)
    } else {
        match spec_find_plane(planes.skip(1), id) {
            Some(i) => Some(i + 1),
            None => None,
        }
    }
}

/// The first plane id in `poss` that names a primary plane of `planes` not
/// yet claimed in `used`.
pub open spec fn spec_first_free_primary(
    planes: Seq<MetalPlane>,
    poss: Seq<DrmPlane>,
    used: Seq<DrmPlane>,
) -> Option<DrmPlane>
    decreases poss.len(),
{
    if poss.len() == 0 {
        None
    } else {
        let is_primary = match spec_find_plane(planes, poss[0]) {
            Some(i) => planes[i].ty == PlaneType::Primary,
            None => false,
        };
        if is_primary && !used.contains(poss[0]) {
            Some(poss[0])
        } else {
            spec_first_free_primary(planes, poss.skip(1), used)
        }
    }
}

/// Whether one connector passes the fast-path check, given the planes
/// claimed by the connectors before it: an enabled, connected connector
/// must hold a bound, active crtc whose current mode decodes to a timing
/// structurally equal to the connector's desired mode, with a still
/// unclaimed primary plane among the crtc's possible planes; a connector
/// that is disabled or not connected imposes nothing (its crtc, if one is
/// still bound, is shut off by the deactivation step).
pub open spec fn spec_connector_reusable(
    data: MetalDrmDeviceData,
    i: int,
    used: Seq<DrmPlane>,
) -> bool {
    let c = data.connectors@[i];
    let dd = c.display;
    if !(c.enabled && dd.connection == ConnectorStatus::Connected) {
        true
    } else {
        &&& dd.crtc_id.value.0 != 0
        &&& match spec_find_crtc(data.dev.crtcs@, dd.crtc_id.value) {
            None => false,
            Some(ci) => {
                let crtc = data.dev.crtcs@[ci];
                &&& crtc.active.value
                &&& dd.mode is Some
                &&& crtc.current_mode is Some
                &&& spec_modes_equal(&dd.mode->0, &crtc.current_mode->0)
                &&& spec_first_free_primary(data.dev.planes@, crtc.possible_planes@, used) is Some
            },
        }
    }
}

/// The planes the fast path claims for connector `i`, to carry into the
/// connectors after it.
pub open spec fn spec_claimed_after(
    data: MetalDrmDeviceData,
    i: int,
    used: Seq<DrmPlane>,
) -> Seq<DrmPlane> {
    let c = data.connectors@[i];
    let dd = c.display;
    if !(c.enabled && dd.connection == ConnectorStatus::Connected) {
        used
    } else {
        match spec_find_crtc(data.dev.crtcs@, dd.crtc_id.value) {
            None => used,
            Some(ci) => match spec_first_free_primary(
                data.dev.planes@,
                data.dev.crtcs@[ci].possible_planes@,
                used,
            ) {
                Some(p) => used.push(p),
                None => used,
            },
        }
    }
}

/// The fast path holds from connector `i` on, with `used` already claimed.
pub open spec fn spec_can_reuse_from(data: MetalDrmDeviceData, i: int, used: Seq<DrmPlane>) -> bool
    decreases data.connectors@.len() - i,
{
    if i < 0 || i >= data.connectors@.len() {
        true
    } else {
        spec_connector_reusable(data, i, used) && spec_can_reuse_from(
            data,
            i + 1,
            spec_claimed_after(data, i, used),
        )
    }
}

/// The existing configuration can be reused: every enabled, connected
/// connector holds a bound, active crtc whose current mode equals its
/// desired mode in every timing field, and the crtcs' primary planes can
/// be claimed one per connector; disabled or disconnected connectors
/// impose nothing.
pub open spec fn spec_can_reuse(data: MetalDrmDeviceData) -> bool {
    spec_can_reuse_from(data, 0, Seq::empty())
}

/// Membership in a plane claim list.
fn claimed(used: &Vec<DrmPlane>, id: DrmPlane) -> (r: bool)
    ensures
        r == used@.contains(id),
{
    let n = used.len();
    for i in 0..n
        invariant
            n == used@.len(),
            forall|j: int| 0 <= j < i ==> used@[j] != id,
    {
        if used[i] == id {
            return true;
        }
    }
    false
}

/// The first still-unclaimed primary plane among `poss`.
fn first_free_primary(dev: &MetalDrmDevice, poss: &Vec<DrmPlane>, used: &Vec<DrmPlane>) -> (r:
    Option<DrmPlane>)
    requires
        forall|j: int, k: int|
            0 <= j < k < dev.planes@.len() ==> #[trigger] dev.planes@[j].id
                != #[trigger] dev.planes@[k].id,
    ensures
        r == spec_first_free_primary(dev.planes@, poss@, used@),
{
    let n = poss.len();
    proof {
        assert(poss@.skip(0) =~= poss@);
    }
    for k in 0..n
        invariant
            n == poss@.len(),
            forall|j: int, k2: int|
                0 <= j < k2 < dev.planes@.len() ==> #[trigger] dev.planes@[j].id
                    != #[trigger] dev.planes@[k2].id,
            spec_first_free_primary(dev.planes@, poss@, used@) == spec_first_free_primary(
                dev.planes@,
                poss@.skip(k as int),
                used@,
            ),
    {
        assert(poss@.skip(k as int)[0] == poss@[k as int]);
        let pid = poss[k];
        let mut is_primary = false;
        match dev.find_plane(pid) {
            Some(pi) => {
                is_primary = matches!(dev.planes[pi].ty, PlaneType::Primary);
                proof {
                    lemma_find_plane_agrees(dev.planes@, pid, pi as int);
                }
            },
            None => {
                proof {
                    lemma_find_plane_none(dev.planes@, pid);
                }
            },
        }
        if is_primary && !claimed(used, pid) {
            return Some(pid);
        }
        assert(poss@.skip(k as int).skip(1) =~= poss@.skip(k + 1));
    }
    assert(poss@.skip(n as int) =~= Seq::<DrmPlane>::empty());
    None
}

/// With unique plane ids, an exec hit at index `i` pins the mathematical
/// lookup to exactly `i`.
pub proof fn lemma_find_plane_agrees(planes: Seq<MetalPlane>, id: DrmPlane, i: int)
    requires
        0 <= i < planes.len(),
        planes[i].id == id,
        forall|j: int, k: int|
            0 <= j < k < planes.len() ==> #[trigger] planes[j].id != #[trigger] planes[k].id,
    ensures
        spec_find_plane(planes, id) == Some(i),
    decreases planes.len(),
{
    if i == 0 {
    } else {
        assert(planes[0].id != id);
        assert(planes.skip(1)[i - 1] == planes[i]);
        assert(forall|j: int, k: int|
            0 <= j < k < planes.skip(1).len() ==> #[trigger] planes.skip(1)[j].id
                != #[trigger] planes.skip(1)[k].id);
        lemma_find_plane_agrees(planes.skip(1), id, i - 1);
    }
}

/// A missed exec lookup pins the mathematical lookup to nothing.
pub proof fn lemma_find_plane_none(planes: Seq<MetalPlane>, id: DrmPlane)
    requires
        forall|j: int| 0 <= j < planes.len() ==> planes[j].id != id,
    ensures
        spec_find_plane(planes, id) is None,
    decreases planes.len(),
{
    if planes.len() > 0 {
        assert(forall|j: int|
            0 <= j < planes.skip(1).len() ==> planes.skip(1)[j] == planes[j + 1]);
        lemma_find_plane_none(planes.skip(1), id);
    }
}

/// With unique crtc ids, an exec hit at index `i` pins the mathematical
/// lookup to exactly `i`.
pub proof fn lemma_find_crtc_agrees(crtcs: Seq<MetalCrtc>, id: DrmCrtc, i: int)
    requires
        0 <= i < crtcs.len(),
        crtcs[i].id == id,
        forall|j: int, k: int|
            0 <= j < k < crtcs.len() ==> #[trigger] crtcs[j].id != #[trigger] crtcs[k].id,
    ensures
        spec_find_crtc(crtcs, id) == Some(i),
    decreases crtcs.len(),
{
    if i == 0 {
    } else {
        assert(crtcs[0].id != id);
        assert(crtcs.skip(1)[i - 1] == crtcs[i]);
        assert(forall|j: int, k: int|
            0 <= j < k < crtcs.skip(1).len() ==> #[trigger] crtcs.skip(1)[j].id
                != #[trigger] crtcs.skip(1)[k].id);
        lemma_find_crtc_agrees(crtcs.skip(1), id, i - 1);
    }
}

/// A missed exec crtc lookup pins the mathematical lookup to nothing.
pub proof fn lemma_find_crtc_none(crtcs: Seq<MetalCrtc>, id: DrmCrtc)
    requires
        forall|j: int| 0 <= j < crtcs.len() ==> crtcs[j].id != id,
    ensures
        spec_find_crtc(crtcs, id) is None,
    decreases crtcs.len(),
{
    if crtcs.len() > 0 {
        assert(forall|j: int| 0 <= j < crtcs.skip(1).len() ==> crtcs.skip(1)[j] == crtcs[j + 1]);
        lemma_find_crtc_none(crtcs.skip(1), id);
    }
}

/// Sane cross references of a device: crtc ids and plane ids are unique.
pub open spec fn spec_dev_wf(data: MetalDrmDeviceData) -> bool {
    &&& forall|j: int, k: int|
        0 <= j < k < data.dev.crtcs@.len() ==> #[trigger] data.dev.crtcs@[j].id
            != #[trigger] data.dev.crtcs@[k].id
    &&& forall|j: int, k: int|
        0 <= j < k < data.dev.planes@.len() ==> #[trigger] data.dev.planes@[j].id
            != #[trigger] data.dev.planes@[k].id
}

/// Decides whether the current hardware configuration can be kept: true
/// iff, for every enabled and connected connector in order, a bound and
/// active crtc shows the connector's desired mode (every timing field
/// equal) and one of its possible primary planes is still unclaimed.
/// Disabled or disconnected connectors impose nothing; a crtc such a
/// connector still holds is shut off by the deactivation step.
pub fn can_reuse_current_configuration(data: &MetalDrmDeviceData) -> (r: bool)
    requires
        spec_dev_wf(*data),
    ensures
        r == spec_can_reuse(*data),
{
    let mut used: Vec<DrmPlane> = Vec::new();
    let n = data.connectors.len();
    for i in 0..n
        invariant
            n == data.connectors@.len(),
            spec_dev_wf(*data),
            spec_can_reuse(*data) == spec_can_reuse_from(*data, i as int, used@),
    {
        let c = &data.connectors[i];
        let dd = &c.display;
        let ghost used0 = used@;
        if !(c.enabled && matches!(dd.connection, ConnectorStatus::Connected)) {
        } else {
            if dd.crtc_id.value.0 == 0 {
                return false;
            }
            match data.dev.find_crtc(dd.crtc_id.value) {
                None => {
                    proof {
                        lemma_find_crtc_none(data.dev.crtcs@, dd.crtc_id.value);
                    }
                    return false;
                },
                Some(ci) => {
                    proof {
                        lemma_find_crtc_agrees(data.dev.crtcs@, dd.crtc_id.value, ci as int);
                    }
                    let crtc = &data.dev.crtcs[ci];
                    if !crtc.active.value {
                        return false;
                    }
                    let mode = match &dd.mode {
                        Some(m) => m,
                        None => {
                            return false;
                        },
                    };
                    let current = match &crtc.current_mode {
                        Some(m) => m,
                        None => {
                            return false;
                        },
                    };
                    if !crate::drm::modes_equal(mode, current) {
                        return false;
                    }
                    match first_free_primary(&data.dev, &crtc.possible_planes, &used) {
                        Some(p) => {
                            used.push(p);
                        },
                        None => {
                            return false;
                        },
                    }
                },
            }
        }
    }
    true
}

/// Copies a format list.
fn copy_u32_vec(v: &Vec<u32>) -> (r: Vec<u32>)
    ensures
        r@ == v@,
{
    let mut r: Vec<u32> = Vec::new();
    let n = v.len();
    for i in 0..n
        invariant
            n == v@.len(),
            r@ == v@.take(i as int),
    {
        r.push(v[i]);
        proof {
            assert(r@ =~= v@.take(i + 1));
        }
    }
    proof {
        assert(v@.take(n as int) =~= v@);
    }
    r
}

/// The second plane is the first with its binding cleared: no crtc, not
/// claimed, everything else unchanged.
pub open spec fn spec_plane_reset(p0: MetalPlane, p1: MetalPlane) -> bool {
    &&& p1.id == p0.id
    &&& p1.ty == p0.ty
    &&& p1.possible_crtcs == p0.possible_crtcs
    &&& p1.formats@ == p0.formats@
    &&& !p1.assigned
    &&& p1.crtc_id.id == p0.crtc_id.id
    &&& p1.crtc_id.value.0 == 0
    &&& p1.crtc_x == p0.crtc_x
    &&& p1.crtc_y == p0.crtc_y
    &&& p1.crtc_w == p0.crtc_w
    &&& p1.crtc_h == p0.crtc_h
    &&& p1.src_x == p0.src_x
    &&& p1.src_y == p0.src_y
    &&& p1.src_w == p0.src_w
    &&& p1.src_h == p0.src_h
    &&& p1.in_fence_fd == p0.in_fence_fd
    &&& p1.fb_id == p0.fb_id
}

/// The property ids the plane-reset phase stages, in order: for every
/// non-preserved plane, its CRTC_ID, FB_ID and IN_FENCE_FD properties.
pub open spec fn spec_plane_reset_props(
    planes: Seq<MetalPlane>,
    preserved: Seq<DrmPlane>,
) -> Seq<u32>
    decreases planes.len(),
{
    if planes.len() == 0 {
        Seq::empty()
    } else {
        let rest = spec_plane_reset_props(planes.drop_last(), preserved);
        let p = planes.last();
        if preserved.contains(p.id) {
            rest
        } else {
            rest + seq![p.crtc_id.id.0, p.fb_id.0, p.in_fence_fd.0]
        }
    }
}

/// The values the plane-reset phase stages, in order: no crtc, no
/// framebuffer, no fence, for every non-preserved plane.
pub open spec fn spec_plane_reset_values(
    planes: Seq<MetalPlane>,
    preserved: Seq<DrmPlane>,
) -> Seq<u64>
    decreases planes.len(),
{
    if planes.len() == 0 {
        Seq::empty()
    } else {
        let rest = spec_plane_reset_values(planes.drop_last(), preserved);
        if preserved.contains(planes.last().id) {
            rest
        } else {
            rest + seq![0u64, 0u64, 0xffff_ffff_ffff_ffffu64]
        }
    }
}

/// Resets every plane the preserve set does not name: the cached binding
/// and claim are cleared, and the batch gains writes detaching the plane
/// (no crtc, no framebuffer, no fence).  No preserved plane is named by
/// any staged write, and every non-preserved plane is; the staged
/// property ids and values are pinned exactly.
pub fn reset_planes(dev: &mut MetalDrmDevice, changes: &mut Change, preserve: &Preserve)
    requires
        old(changes).wf(),
        old(changes).spec_props().len() + 3 * old(dev).planes@.len() <= u32::MAX,
    ensures
        final(changes).wf(),
        *final(dev) == (MetalDrmDevice { planes: final(dev).planes, ..*old(dev) }),
        final(dev).planes@.len() == old(dev).planes@.len(),
        forall|j: int|
            0 <= j < old(dev).planes@.len() ==> {
                let p0 = old(dev).planes@[j];
                let p1 = #[trigger] final(dev).planes@[j];
                if preserve.planes@.contains(p0.id) {
                    p1 == p0
                } else {
                    spec_plane_reset(p0, p1)
                }
            },
        final(changes).spec_props() == old(changes).spec_props() + spec_plane_reset_props(
            old(dev).planes@,
            preserve.planes@,
        ),
        final(changes).spec_values() == old(changes).spec_values() + spec_plane_reset_values(
            old(dev).planes@,
            preserve.planes@,
        ),
        final(changes).spec_props().len() <= old(changes).spec_props().len() + 3 * old(
            dev,
        ).planes@.len(),
        forall|o: u32|
            #[trigger] final(changes).spec_objects().contains(o) ==> old(
                changes,
            ).spec_objects().contains(o) || (exists|j: int|
                0 <= j < old(dev).planes@.len() && (#[trigger] old(dev).planes@[j]).id.0 == o
                    && !preserve.planes@.contains(old(dev).planes@[j].id)),
        forall|j: int|
            0 <= j < old(dev).planes@.len() && !preserve.planes@.contains(
                (#[trigger] old(dev).planes@[j]).id,
            ) ==> final(changes).spec_objects().contains(old(dev).planes@[j].id.0),
{
    let n = dev.planes.len();
    let ghost dev0 = *dev;
    let ghost ch0 = *changes;
    for i in 0..n
        invariant
            n == dev.planes@.len(),
            n == dev0.planes@.len(),
            *dev == (MetalDrmDevice { planes: dev.planes, ..dev0 }),
            changes.wf(),
            ch0.wf(),
            changes.spec_props() == ch0.spec_props() + spec_plane_reset_props(
                dev0.planes@.take(i as int),
                preserve.planes@,
            ),
            changes.spec_values() == ch0.spec_values() + spec_plane_reset_values(
                dev0.planes@.take(i as int),
                preserve.planes@,
            ),
            changes.spec_props().len() <= ch0.spec_props().len() + 3 * i,
            ch0.spec_props().len() + 3 * n <= u32::MAX,
            forall|j: int|
                i <= j < n ==> #[trigger] dev.planes@[j] == dev0.planes@[j],
            forall|j: int|
                0 <= j < i ==> {
                    let p0 = dev0.planes@[j];
                    let p1 = #[trigger] dev.planes@[j];
                    if preserve.planes@.contains(p0.id) {
                        p1 == p0
                    } else {
                        spec_plane_reset(p0, p1)
                    }
                },
            forall|o: u32|
                #[trigger] changes.spec_objects().contains(o) ==> ch0.spec_objects().contains(o)
                    || (exists|j: int|
                    0 <= j < i && (#[trigger] dev0.planes@[j]).id.0 == o
                        && !preserve.planes@.contains(dev0.planes@[j].id)),
            forall|j: int|
                0 <= j < i && !preserve.planes@.contains((#[trigger] dev0.planes@[j]).id)
                    ==> changes.spec_objects().contains(dev0.planes@[j].id.0),
    {
        proof {
            assert(dev0.planes@.take(i + 1).drop_last() =~= dev0.planes@.take(i as int));
            assert(dev0.planes@.take(i + 1).last() == dev0.planes@[i as int]);
        }
        let plane_id = dev.planes[i].id;
        if !preserve.has_plane(plane_id) {
            let crtc_id_prop = dev.planes[i].crtc_id.id;
            let fb_id_prop = dev.planes[i].fb_id;
            let in_fence_prop = dev.planes[i].in_fence_fd;
            let p0 = &dev.planes[i];
            let updated = MetalPlane {
                id: p0.id,
                ty: p0.ty,
                possible_crtcs: p0.possible_crtcs,
                formats: copy_u32_vec(&p0.formats),
                assigned: false,
                crtc_id: crate::props::MutableProperty { id: p0.crtc_id.id, value: DrmCrtc(0) },
                crtc_x: p0.crtc_x,
                crtc_y: p0.crtc_y,
                crtc_w: p0.crtc_w,
                crtc_h: p0.crtc_h,
                src_x: p0.src_x,
                src_y: p0.src_y,
                src_w: p0.src_w,
                src_h: p0.src_h,
                in_fence_fd: p0.in_fence_fd,
                fb_id: p0.fb_id,
            };
            dev.planes.set(i, updated);
            let mut writes: Vec<DrmPropertyValue> = Vec::new();
            writes.push(DrmPropertyValue { id: crtc_id_prop, value: 0 });
            writes.push(DrmPropertyValue { id: fb_id_prop, value: 0 });
            writes.push(DrmPropertyValue { id: in_fence_prop, value: 0xffff_ffff_ffff_ffffu64 });
            let ghost chp = *changes;
            changes.change_object(plane_id.0, &writes);
            proof {
                assert(writes@.len() == 3);
                assert(writes@[0].id.0 == crtc_id_prop.0 && writes@[0].value == 0u64);
                assert(writes@[1].id.0 == fb_id_prop.0 && writes@[1].value == 0u64);
                assert(writes@[2].id.0 == in_fence_prop.0 && writes@[2].value
                    == 0xffff_ffff_ffff_ffffu64);
                assert(changes.spec_props() =~= ch0.spec_props() + spec_plane_reset_props(
                    dev0.planes@.take(i + 1),
                    preserve.planes@,
                ));
                assert(changes.spec_values() =~= ch0.spec_values() + spec_plane_reset_values(
                    dev0.planes@.take(i + 1),
                    preserve.planes@,
                ));
                assert forall|o: u32| #[trigger]
                    changes.spec_objects().contains(o) implies chp.spec_objects().contains(o) || o
                    == plane_id.0 by {
                    if changes.spec_objects() == chp.spec_objects() {
                    } else {
                        let s = chp.spec_objects();
                        let w = choose|w: int|
                            0 <= w < changes.spec_objects().len() && changes.spec_objects()[w] == o;
                        if w < s.len() {
                            assert(s[w] == o);
                        }
                    }
                }
                assert(changes.spec_objects().contains(plane_id.0)) by {
                    if changes.spec_objects() == chp.spec_objects() {
                        assert(chp.spec_objects().len() > 0 && chp.spec_objects().last()
                            == plane_id.0);
                        assert(chp.spec_objects()[chp.spec_objects().len() - 1] == plane_id.0);
                    } else {
                        assert(changes.spec_objects().last() == plane_id.0);
                    }
                }
                assert forall|o: u32|
                    chp.spec_objects().contains(o) implies #[trigger] changes.spec_objects().contains(
                    o,
                ) by {
                    let w = choose|w: int|
                        0 <= w < chp.spec_objects().len() && chp.spec_objects()[w] == o;
                    assert(changes.spec_objects()[w] == o);
                }
            }
        }
    }
    proof {
        assert(dev0.planes@.take(n as int) =~= dev0.planes@);
    }
}

/// The second connector is the first with its output binding cleared: no
/// planes, no crtc, cursor off, crtc property cached as none; everything
/// else unchanged.
pub open spec fn spec_connector_reset(c0: MetalConnector, c1: MetalConnector) -> bool {
    &&& c1 == (MetalConnector {
        primary_plane: None,
        cursor_plane: None,
        cursor_enabled: false,
        crtc: None,
        display: c1.display,
        ..c0
    })
    &&& c1.display == (crate::video::ConnectorDisplayData {
        crtc_id: crate::props::MutableProperty { id: c0.display.crtc_id.id, value: DrmCrtc(0) },
        ..c0.display
    })
}

/// The second crtc is the first with its pipeline shut off in the cache:
/// no connector, inactive, no mode; everything else unchanged.
pub open spec fn spec_crtc_reset(c0: MetalCrtc, c1: MetalCrtc) -> bool {
    c1 == (MetalCrtc {
        connector: None,
        active: crate::props::MutableProperty { id: c0.active.id, value: false },
        mode_id: crate::props::MutableProperty { id: c0.mode_id.id, value: DrmBlob(0) },
        ..c0
    })
}

/// The property ids the connector-reset phase stages: CRTC_ID for every
/// non-preserved connector, in order.
pub open spec fn spec_connector_reset_props(
    connectors: Seq<MetalConnector>,
    preserved: Seq<DrmConnector>,
) -> Seq<u32>
    decreases connectors.len(),
{
    if connectors.len() == 0 {
        Seq::empty()
    } else {
        let rest = spec_connector_reset_props(connectors.drop_last(), preserved);
        let c = connectors.last();
        if preserved.contains(c.id) {
            rest
        } else {
            rest + seq![c.display.crtc_id.id.0]
        }
    }
}

/// The values the connector-reset phase stages: zero (no crtc) for every
/// non-preserved connector.
pub open spec fn spec_connector_reset_values(
    connectors: Seq<MetalConnector>,
    preserved: Seq<DrmConnector>,
) -> Seq<u64>
    decreases connectors.len(),
{
    if connectors.len() == 0 {
        Seq::empty()
    } else {
        let rest = spec_connector_reset_values(connectors.drop_last(), preserved);
        if preserved.contains(connectors.last().id) {
            rest
        } else {
            rest + seq![0u64]
        }
    }
}

/// The property ids the crtc-reset phase stages: ACTIVE, MODE_ID and
/// OUT_FENCE_PTR for every non-preserved crtc, in order.
pub open spec fn spec_crtc_reset_props(
    crtcs: Seq<MetalCrtc>,
    preserved: Seq<DrmCrtc>,
) -> Seq<u32>
    decreases crtcs.len(),
{
    if crtcs.len() == 0 {
        Seq::empty()
    } else {
        let rest = spec_crtc_reset_props(crtcs.drop_last(), preserved);
        let c = crtcs.last();
        if preserved.contains(c.id) {
            rest
        } else {
            rest + seq![c.active.id.0, c.mode_id.id.0, c.out_fence_ptr.0]
        }
    }
}

/// The values the crtc-reset phase stages: inactive, no mode, no fence,
/// for every non-preserved crtc.
pub open spec fn spec_crtc_reset_values(
    crtcs: Seq<MetalCrtc>,
    preserved: Seq<DrmCrtc>,
) -> Seq<u64>
    decreases crtcs.len(),
{
    if crtcs.len() == 0 {
        Seq::empty()
    } else {
        let rest = spec_crtc_reset_values(crtcs.drop_last(), preserved);
        if preserved.contains(crtcs.last().id) {
            rest
        } else {
            rest + seq![0u64, 0u64, 0u64]
        }
    }
}

/// Resets every connector and crtc the preserve set does not name: cached
/// bindings are cleared and the batch gains the detaching writes (crtc 0
/// on each connector; inactive, no mode and no fence on each crtc).  No
/// preserved connector or crtc is named by any staged write, every
/// non-preserved one is, and the staged property ids and values are
/// pinned exactly.
pub fn reset_connectors_and_crtcs(
    data: &mut MetalDrmDeviceData,
    changes: &mut Change,
    preserve: &Preserve,
)
    requires
        old(changes).wf(),
        old(changes).spec_props().len() + old(data).connectors@.len() + 3 * old(
            data,
        ).dev.crtcs@.len() <= u32::MAX,
    ensures
        final(changes).wf(),
        *final(data) == (MetalDrmDeviceData {
            connectors: final(data).connectors,
            dev: final(data).dev,
            ..*old(data)
        }),
        final(data).dev == (MetalDrmDevice { crtcs: final(data).dev.crtcs, ..old(data).dev }),
        final(data).connectors@.len() == old(data).connectors@.len(),
        final(data).dev.crtcs@.len() == old(data).dev.crtcs@.len(),
        forall|j: int|
            0 <= j < old(data).connectors@.len() ==> {
                let c0 = old(data).connectors@[j];
                let c1 = #[trigger] final(data).connectors@[j];
                if preserve.connectors@.contains(c0.id) {
                    c1 == c0
                } else {
                    spec_connector_reset(c0, c1)
                }
            },
        forall|j: int|
            0 <= j < old(data).dev.crtcs@.len() ==> {
                let c0 = old(data).dev.crtcs@[j];
                let c1 = #[trigger] final(data).dev.crtcs@[j];
                if preserve.crtcs@.contains(c0.id) {
                    c1 == c0
                } else {
                    spec_crtc_reset(c0, c1)
                }
            },
        final(changes).spec_props() == old(changes).spec_props() + spec_connector_reset_props(
            old(data).connectors@,
            preserve.connectors@,
        ) + spec_crtc_reset_props(old(data).dev.crtcs@, preserve.crtcs@),
        final(changes).spec_values() == old(changes).spec_values() + spec_connector_reset_values(
            old(data).connectors@,
            preserve.connectors@,
        ) + spec_crtc_reset_values(old(data).dev.crtcs@, preserve.crtcs@),
        final(changes).spec_props().len() <= old(changes).spec_props().len() + old(
            data,
        ).connectors@.len() + 3 * old(data).dev.crtcs@.len(),
        forall|o: u32|
            #[trigger] final(changes).spec_objects().contains(o) ==> old(
                changes,
            ).spec_objects().contains(o) || (exists|j: int|
                0 <= j < old(data).connectors@.len() && (#[trigger] old(data).connectors@[j]).id.0
                    == o && !preserve.connectors@.contains(old(data).connectors@[j].id)) || (
            exists|j: int|
                0 <= j < old(data).dev.crtcs@.len() && (#[trigger] old(data).dev.crtcs@[j]).id.0
                    == o && !preserve.crtcs@.contains(old(data).dev.crtcs@[j].id)),
        forall|j: int|
            0 <= j < old(data).connectors@.len() && !preserve.connectors@.contains(
                (#[trigger] old(data).connectors@[j]).id,
            ) ==> final(changes).spec_objects().contains(old(data).connectors@[j].id.0),
        forall|j: int|
            0 <= j < old(data).dev.crtcs@.len() && !preserve.crtcs@.contains(
                (#[trigger] old(data).dev.crtcs@[j]).id,
            ) ==> final(changes).spec_objects().contains(old(data).dev.crtcs@[j].id.0),
{
    let ghost data0 = *data;
    let ghost ch0 = *changes;
    let n = data.connectors.len();
    for i in 0..n
        invariant
            n == data.connectors@.len(),
            n == data0.connectors@.len(),
            *data == (MetalDrmDeviceData { connectors: data.connectors, ..data0 }),
            changes.wf(),
            changes.spec_props() == ch0.spec_props() + spec_connector_reset_props(
                data0.connectors@.take(i as int),
                preserve.connectors@,
            ),
            changes.spec_values() == ch0.spec_values() + spec_connector_reset_values(
                data0.connectors@.take(i as int),
                preserve.connectors@,
            ),
            changes.spec_props().len() <= ch0.spec_props().len() + i,
            ch0.spec_props().len() + n + 3 * data0.dev.crtcs@.len() <= u32::MAX,
            forall|j: int| i <= j < n ==> #[trigger] data.connectors@[j] == data0.connectors@[j],
            forall|j: int|
                0 <= j < i ==> {
                    let c0 = data0.connectors@[j];
                    let c1 = #[trigger] data.connectors@[j];
                    if preserve.connectors@.contains(c0.id) {
                        c1 == c0
                    } else {
                        spec_connector_reset(c0, c1)
                    }
                },
            forall|o: u32|
                #[trigger] changes.spec_objects().contains(o) ==> ch0.spec_objects().contains(o)
                    || (exists|j: int|
                    0 <= j < i && (#[trigger] data0.connectors@[j]).id.0 == o
                        && !preserve.connectors@.contains(data0.connectors@[j].id)),
            forall|j: int|
                0 <= j < i && !preserve.connectors@.contains((#[trigger] data0.connectors@[j]).id)
                    ==> changes.spec_objects().contains(data0.connectors@[j].id.0),
    {
        proof {
            assert(data0.connectors@.take(i + 1).drop_last() =~= data0.connectors@.take(i as int));
            assert(data0.connectors@.take(i + 1).last() == data0.connectors@[i as int]);
        }
        let conn_id = data.connectors[i].id;
        if !preserve.has_connector(conn_id) {
            let c = &mut data.connectors[i];
            c.primary_plane = None;
            c.cursor_plane = None;
            c.cursor_enabled = false;
            c.crtc = None;
            c.display.crtc_id.value = DrmCrtc(0);
            let prop_id = c.display.crtc_id.id;
            let mut writes: Vec<DrmPropertyValue> = Vec::new();
            writes.push(DrmPropertyValue { id: prop_id, value: 0 });
            let ghost chp = *changes;
            changes.change_object(conn_id.0, &writes);
            proof {
                lemma_objects_grow(chp, *changes, conn_id.0);
                assert(writes@.len() == 1);
                assert(writes@[0].id.0 == prop_id.0 && writes@[0].value == 0u64);
                assert(changes.spec_props() =~= ch0.spec_props() + spec_connector_reset_props(
                    data0.connectors@.take(i + 1),
                    preserve.connectors@,
                ));
                assert(changes.spec_values() =~= ch0.spec_values() + spec_connector_reset_values(
                    data0.connectors@.take(i + 1),
                    preserve.connectors@,
                ));
            }
        }
    }
    proof {
        assert(data0.connectors@.take(n as int) =~= data0.connectors@);
    }
    let ghost ch1 = *changes;
    let ghost datac = *data;
    let nc = data.dev.crtcs.len();
    for i in 0..nc
        invariant
            nc == data.dev.crtcs@.len(),
            nc == data0.dev.crtcs@.len(),
            *data == (MetalDrmDeviceData { dev: data.dev, ..datac }),
            data.dev == (MetalDrmDevice { crtcs: data.dev.crtcs, ..data0.dev }),
            datac.dev == (MetalDrmDevice { crtcs: datac.dev.crtcs, ..data0.dev }),
            changes.wf(),
            changes.spec_props() == ch1.spec_props() + spec_crtc_reset_props(
                data0.dev.crtcs@.take(i as int),
                preserve.crtcs@,
            ),
            changes.spec_values() == ch1.spec_values() + spec_crtc_reset_values(
                data0.dev.crtcs@.take(i as int),
                preserve.crtcs@,
            ),
            ch1.spec_props() == ch0.spec_props() + spec_connector_reset_props(
                data0.connectors@,
                preserve.connectors@,
            ),
            ch1.spec_values() == ch0.spec_values() + spec_connector_reset_values(
                data0.connectors@,
                preserve.connectors@,
            ),
            changes.spec_props().len() <= ch1.spec_props().len() + 3 * i,
            ch1.spec_props().len() + 3 * nc <= u32::MAX,
            forall|j: int| i <= j < nc ==> #[trigger] data.dev.crtcs@[j] == data0.dev.crtcs@[j],
            forall|j: int|
                0 <= j < i ==> {
                    let c0 = data0.dev.crtcs@[j];
                    let c1 = #[trigger] data.dev.crtcs@[j];
                    if preserve.crtcs@.contains(c0.id) {
                        c1 == c0
                    } else {
                        spec_crtc_reset(c0, c1)
                    }
                },
            forall|o: u32|
                #[trigger] changes.spec_objects().contains(o) ==> ch1.spec_objects().contains(o)
                    || (exists|j: int|
                    0 <= j < i && (#[trigger] data0.dev.crtcs@[j]).id.0 == o
                        && !preserve.crtcs@.contains(data0.dev.crtcs@[j].id)),
            forall|o: u32|
                ch1.spec_objects().contains(o) ==> #[trigger] changes.spec_objects().contains(o),
            forall|j: int|
                0 <= j < i && !preserve.crtcs@.contains((#[trigger] data0.dev.crtcs@[j]).id)
                    ==> changes.spec_objects().contains(data0.dev.crtcs@[j].id.0),
    {
        proof {
            assert(data0.dev.crtcs@.take(i + 1).drop_last() =~= data0.dev.crtcs@.take(i as int));
            assert(data0.dev.crtcs@.take(i + 1).last() == data0.dev.crtcs@[i as int]);
        }
        let crtc_id = data.dev.crtcs[i].id;
        if !preserve.has_crtc(crtc_id) {
            let c = &mut data.dev.crtcs[i];
            c.connector = None;
            c.active.value = false;
            c.mode_id.value = DrmBlob(0);
            let active_prop = c.active.id;
            let mode_prop = c.mode_id.id;
            let fence_prop = c.out_fence_ptr;
            let mut writes: Vec<DrmPropertyValue> = Vec::new();
            writes.push(DrmPropertyValue { id: active_prop, value: 0 });
            writes.push(DrmPropertyValue { id: mode_prop, value: 0 });
            writes.push(DrmPropertyValue { id: fence_prop, value: 0 });
            let ghost chp = *changes;
            changes.change_object(crtc_id.0, &writes);
            proof {
                lemma_objects_grow(chp, *changes, crtc_id.0);
                assert(writes@.len() == 3);
                assert(writes@[0].id.0 == active_prop.0 && writes@[0].value == 0u64);
                assert(writes@[1].id.0 == mode_prop.0 && writes@[1].value == 0u64);
                assert(writes@[2].id.0 == fence_prop.0 && writes@[2].value == 0u64);
                assert(changes.spec_props() =~= ch1.spec_props() + spec_crtc_reset_props(
                    data0.dev.crtcs@.take(i + 1),
                    preserve.crtcs@,
                ));
                assert(changes.spec_values() =~= ch1.spec_values() + spec_crtc_reset_values(
                    data0.dev.crtcs@.take(i + 1),
                    preserve.crtcs@,
                ));
            }
        }
    }
    proof {
        assert(data0.dev.crtcs@.take(nc as int) =~= data0.dev.crtcs@);
        assert(final(changes).spec_props() =~= old(changes).spec_props()
            + spec_connector_reset_props(old(data).connectors@, preserve.connectors@)
            + spec_crtc_reset_props(old(data).dev.crtcs@, preserve.crtcs@));
        assert(final(changes).spec_values() =~= old(changes).spec_values()
            + spec_connector_reset_values(old(data).connectors@, preserve.connectors@)
            + spec_crtc_reset_values(old(data).dev.crtcs@, preserve.crtcs@));
        assert forall|o: u32| #[trigger]
            changes.spec_objects().contains(o) && !ch0.spec_objects().contains(o) && !(exists|
                j: int,
            |
                0 <= j < data0.connectors@.len() && (#[trigger] data0.connectors@[j]).id.0 == o
                    && !preserve.connectors@.contains(
                    data0.connectors@[j].id,
                )) implies (exists|j: int|
            0 <= j < data0.dev.crtcs@.len() && (#[trigger] data0.dev.crtcs@[j]).id.0 == o
                && !preserve.crtcs@.contains(data0.dev.crtcs@[j].id)) by {}
    }
}

/// Some enabled, connected connector holds this crtc id in its cached
/// binding.
pub open spec fn spec_crtc_used(data: MetalDrmDeviceData, id: DrmCrtc) -> bool {
    exists|ci: int|
        0 <= ci < data.connectors@.len() && (#[trigger] data.connectors@[ci]).enabled
            && data.connectors@[ci].display.connection == ConnectorStatus::Connected
            && data.connectors@[ci].display.crtc_id.value == id
}

/// The crtc ids of the enabled, connected connectors.
fn used_crtcs(data: &MetalDrmDeviceData) -> (r: Vec<DrmCrtc>)
    ensures
        forall|id: DrmCrtc| #[trigger] r@.contains(id) <==> spec_crtc_used(*data, id),
{
    let mut used: Vec<DrmCrtc> = Vec::new();
    let n = data.connectors.len();
    for i in 0..n
        invariant
            n == data.connectors@.len(),
            forall|id: DrmCrtc|
                #[trigger] used@.contains(id) <==> exists|ci: int|
                    0 <= ci < i && (#[trigger] data.connectors@[ci]).enabled
                        && data.connectors@[ci].display.connection == ConnectorStatus::Connected
                        && data.connectors@[ci].display.crtc_id.value == id,
    {
        let c = &data.connectors[i];
        let ghost prev = used@;
        if c.enabled && matches!(c.display.connection, ConnectorStatus::Connected) {
            used.push(c.display.crtc_id.value);
            proof {
                lemma_push_contains_crtc(prev, used@, c.display.crtc_id.value);
            }
        }
    }
    used
}

/// Links the cached crtc bindings into the object graph: every enabled,
/// connected connector with a bound crtc gets its back reference set, as
/// the fast path leaves the bindings in place.
pub fn link_current_configuration(data: &mut MetalDrmDeviceData)
    requires
        spec_dev_wf(*old(data)),
    ensures
        *final(data) == (MetalDrmDeviceData {
            connectors: final(data).connectors,
            dev: final(data).dev,
            ..*old(data)
        }),
        final(data).dev == (MetalDrmDevice { crtcs: final(data).dev.crtcs, ..old(data).dev }),
        final(data).connectors@.len() == old(data).connectors@.len(),
        final(data).dev.crtcs@.len() == old(data).dev.crtcs@.len(),
        forall|k: int|
            0 <= k < old(data).dev.crtcs@.len() ==> #[trigger] final(data).dev.crtcs@[k]
                == (MetalCrtc {
                connector: final(data).dev.crtcs@[k].connector,
                ..old(data).dev.crtcs@[k]
            }),
        forall|j: int|
            0 <= j < old(data).connectors@.len() ==> {
                let c0 = old(data).connectors@[j];
                let c1 = #[trigger] final(data).connectors@[j];
                if c0.enabled && c0.display.connection == ConnectorStatus::Connected
                    && c0.display.crtc_id.value.0 != 0 && spec_find_crtc(
                    old(data).dev.crtcs@,
                    c0.display.crtc_id.value,
                ) is Some {
                    c1 == (MetalConnector { crtc: Some(c0.display.crtc_id.value), ..c0 })
                } else {
                    c1 == c0
                }
            },
{
    let n = data.connectors.len();
    let ghost data0 = *data;
    for i in 0..n
        invariant
            n == data.connectors@.len(),
            n == data0.connectors@.len(),
            spec_dev_wf(data0),
            *data == (MetalDrmDeviceData {
                connectors: data.connectors,
                dev: data.dev,
                ..data0
            }),
            data.dev == (MetalDrmDevice { crtcs: data.dev.crtcs, ..data0.dev }),
            data.dev.crtcs@.len() == data0.dev.crtcs@.len(),
            forall|k: int|
                0 <= k < data0.dev.crtcs@.len() ==> #[trigger] data.dev.crtcs@[k] == (MetalCrtc {
                    connector: data.dev.crtcs@[k].connector,
                    ..data0.dev.crtcs@[k]
                }),
            forall|j: int| i <= j < n ==> #[trigger] data.connectors@[j] == data0.connectors@[j],
            forall|j: int|
                0 <= j < i ==> {
                    let c0 = data0.connectors@[j];
                    let c1 = #[trigger] data.connectors@[j];
                    if c0.enabled && c0.display.connection == ConnectorStatus::Connected
                        && c0.display.crtc_id.value.0 != 0 && spec_find_crtc(
                        data0.dev.crtcs@,
                        c0.display.crtc_id.value,
                    ) is Some {
                        c1 == (MetalConnector { crtc: Some(c0.display.crtc_id.value), ..c0 })
                    } else {
                        c1 == c0
                    }
                },
    {
        let enabled = data.connectors[i].enabled;
        let connected = matches!(
            data.connectors[i].display.connection,
            ConnectorStatus::Connected
        );
        let crtc_id = data.connectors[i].display.crtc_id.value;
        if enabled && connected && crtc_id.0 != 0 {
            let conn_id = data.connectors[i].id;
            match data.dev.find_crtc(crtc_id) {
                Some(k) => {
                    proof {
                        assert(data0.dev.crtcs@[k as int].id == crtc_id);
                        lemma_find_crtc_agrees(data0.dev.crtcs@, crtc_id, k as int);
                    }
                    data.connectors[i].crtc = Some(crtc_id);
                    data.dev.crtcs[k].connector = Some(conn_id);
                },
                None => {
                    proof {
                        assert forall|j: int|
                            0 <= j < data0.dev.crtcs@.len() implies data0.dev.crtcs@[j].id
                            != crtc_id by {
                            assert(data.dev.crtcs@[j].id == data0.dev.crtcs@[j].id);
                        }
                        lemma_find_crtc_none(data0.dev.crtcs@, crtc_id);
                    }
                },
            }
        }
    }
}

/// Stages the shutdown of every crtc no enabled, connected connector
/// holds: such a crtc that is still active is deactivated, which demands
/// the allow-modeset flag on the resulting commit; every crtc's output
/// fence is cleared.  Returns the flags the commit must carry.
pub fn deactivate_unused_crtcs(data: &mut MetalDrmDeviceData, changes: &mut Change) -> (flags: u32)
    requires
        old(changes).wf(),
        old(changes).spec_props().len() + 2 * old(data).dev.crtcs@.len() <= u32::MAX,
    ensures
        final(changes).wf(),
        *final(data) == (MetalDrmDeviceData { dev: final(data).dev, ..*old(data) }),
        final(data).dev == (MetalDrmDevice { crtcs: final(data).dev.crtcs, ..old(data).dev }),
        final(data).dev.crtcs@.len() == old(data).dev.crtcs@.len(),
        forall|j: int|
            0 <= j < old(data).dev.crtcs@.len() ==> {
                let c0 = old(data).dev.crtcs@[j];
                let c1 = #[trigger] final(data).dev.crtcs@[j];
                c1 == (MetalCrtc {
                    active: crate::props::MutableProperty {
                        id: c0.active.id,
                        value: c0.active.value && spec_crtc_used(*old(data), c0.id),
                    },
                    ..c0
                })
            },
        (flags == crate::drm::DRM_MODE_ATOMIC_ALLOW_MODESET || flags == 0),
        flags == crate::drm::DRM_MODE_ATOMIC_ALLOW_MODESET <==> (exists|j: int|
            0 <= j < old(data).dev.crtcs@.len() && (#[trigger] old(data).dev.crtcs@[j]).active.value
                && !spec_crtc_used(*old(data), old(data).dev.crtcs@[j].id)),
{
    let used = used_crtcs(data);
    let mut flags: u32 = 0;
    let n = data.dev.crtcs.len();
    let ghost data0 = *data;
    let ghost ch0 = *changes;
    for i in 0..n
        invariant
            n == data.dev.crtcs@.len(),
            n == data0.dev.crtcs@.len(),
            *data == (MetalDrmDeviceData { dev: data.dev, ..data0 }),
            data.dev == (MetalDrmDevice { crtcs: data.dev.crtcs, ..data0.dev }),
            changes.wf(),
            changes.spec_props().len() <= ch0.spec_props().len() + 2 * i,
            ch0.spec_props().len() + 2 * n <= u32::MAX,
            forall|id: DrmCrtc| #[trigger] used@.contains(id) <==> spec_crtc_used(data0, id),
            forall|j: int| i <= j < n ==> #[trigger] data.dev.crtcs@[j] == data0.dev.crtcs@[j],
            forall|j: int|
                0 <= j < i ==> {
                    let c0 = data0.dev.crtcs@[j];
                    let c1 = #[trigger] data.dev.crtcs@[j];
                    c1 == (MetalCrtc {
                        active: crate::props::MutableProperty {
                            id: c0.active.id,
                            value: c0.active.value && spec_crtc_used(data0, c0.id),
                        },
                        ..c0
                    })
                },
            (flags == crate::drm::DRM_MODE_ATOMIC_ALLOW_MODESET || flags == 0),
            flags == crate::drm::DRM_MODE_ATOMIC_ALLOW_MODESET <==> (exists|j: int|
                0 <= j < i && (#[trigger] data0.dev.crtcs@[j]).active.value && !spec_crtc_used(
                    data0,
                    data0.dev.crtcs@[j].id,
                )),
    {
        let crtc_id = data.dev.crtcs[i].id;
        let is_used = claimed_crtc(&used, crtc_id);
        let mut writes: Vec<DrmPropertyValue> = Vec::new();
        let c = &mut data.dev.crtcs[i];
        if !is_used && c.active.value {
            c.active.value = false;
            writes.push(DrmPropertyValue { id: c.active.id, value: 0 });
            flags = crate::drm::DRM_MODE_ATOMIC_ALLOW_MODESET;
        } else {
            c.active.value = c.active.value && is_used;
        }
        writes.push(DrmPropertyValue { id: c.out_fence_ptr, value: 0 });
        changes.change_object(crtc_id.0, &writes);
    }
    flags
}

/// Membership in a crtc claim list.
fn claimed_crtc(used: &Vec<DrmCrtc>, id: DrmCrtc) -> (r: bool)
    ensures
        r == used@.contains(id),
{
    let n = used.len();
    for i in 0..n
        invariant
            n == used@.len(),
            forall|j: int| 0 <= j < i ==> used@[j] != id,
    {
        if used[i] == id {
            return true;
        }
    }
    false
}

/// Whether the connector at index `ci` may be preserved: a preserved
/// connector without a crtc passes; one with a crtc passes only if the
/// kernel still shows that crtc bound to it, active, with the desired mode
/// (when one is chosen), and with its primary and cursor planes not bound
/// to some other crtc.
pub open spec fn spec_preserve_ok(data: MetalDrmDeviceData, ci: int) -> bool {
    let c = data.connectors@[ci];
    match c.crtc {
        None => true,
        Some(crtc_id) => match spec_find_crtc(data.dev.crtcs@, crtc_id) {
            None => false,
            Some(k) => {
                let crtc = data.dev.crtcs@[k];
                &&& c.display.crtc_id.value == crtc.id
                &&& (c.display.mode is Some ==> crtc.mode_id.value.0 != 0
                    && crtc.current_mode is Some && spec_modes_equal(
                    &c.display.mode->0,
                    &crtc.current_mode->0,
                ))
                &&& crtc.active.value
                &&& (c.primary_plane matches Some(p) ==> match spec_find_plane(
                    data.dev.planes@,
                    p,
                ) {
                    None => false,
                    Some(pi) => data.dev.planes@[pi].crtc_id.value == crtc.id,
                })
                &&& (c.cursor_plane matches Some(p) ==> match spec_find_plane(
                    data.dev.planes@,
                    p,
                ) {
                    None => false,
                    Some(pi) => data.dev.planes@[pi].crtc_id.value.0 == 0
                        || data.dev.planes@[pi].crtc_id.value == crtc.id,
                })
            },
        },
    }
}

/// Checks one preserved connector against the live hardware state.
fn preserve_ok(data: &MetalDrmDeviceData, ci: usize) -> (r: bool)
    requires
        spec_dev_wf(*data),
        ci < data.connectors@.len(),
    ensures
        r == spec_preserve_ok(*data, ci as int),
{
    let c = &data.connectors[ci];
    let crtc_id = match c.crtc {
        None => {
            return true;
        },
        Some(id) => id,
    };
    let k = match data.dev.find_crtc(crtc_id) {
        None => {
            proof {
                lemma_find_crtc_none(data.dev.crtcs@, crtc_id);
            }
            return false;
        },
        Some(k) => {
            proof {
                lemma_find_crtc_agrees(data.dev.crtcs@, crtc_id, k as int);
            }
            k
        },
    };
    let crtc = &data.dev.crtcs[k];
    if c.display.crtc_id.value != crtc.id {
        return false;
    }
    if let Some(mode) = &c.display.mode {
        if crtc.mode_id.value.0 == 0 {
            return false;
        }
        match &crtc.current_mode {
            None => {
                return false;
            },
            Some(current) => {
                if !crate::drm::modes_equal(mode, current) {
                    return false;
                }
            },
        }
    }
    if !crtc.active.value {
        return false;
    }
    if let Some(p) = c.primary_plane {
        match data.dev.find_plane(p) {
            None => {
                proof {
                    lemma_find_plane_none(data.dev.planes@, p);
                }
                return false;
            },
            Some(pi) => {
                proof {
                    lemma_find_plane_agrees(data.dev.planes@, p, pi as int);
                }
                if data.dev.planes[pi].crtc_id.value != crtc.id {
                    return false;
                }
            },
        }
    }
    if let Some(p) = c.cursor_plane {
        match data.dev.find_plane(p) {
            None => {
                proof {
                    lemma_find_plane_none(data.dev.planes@, p);
                }
                return false;
            },
            Some(pi) => {
                proof {
                    lemma_find_plane_agrees(data.dev.planes@, p, pi as int);
                }
                let v = data.dev.planes[pi].crtc_id.value;
                if v.0 != 0 && v != crtc.id {
                    return false;
                }
            },
        }
    }
    true
}

/// Validates the preserve set against live hardware state: connectors that
/// no longer exist or fail the check leave the set; the crtcs and planes
/// of the connectors that stay are folded in, so the reset phase skips
/// them.
pub fn validate_preserve(data: &MetalDrmDeviceData, preserve: &mut Preserve)
    requires
        spec_dev_wf(*data),
        forall|j: int, k: int|
            0 <= j < k < data.connectors@.len() ==> (#[trigger] data.connectors@[j]).id
                != (#[trigger] data.connectors@[k]).id,
    ensures
        forall|id: DrmConnector|
            #[trigger] final(preserve).connectors@.contains(id) <==> (old(
                preserve,
            ).connectors@.contains(id) && exists|ci: int|
                0 <= ci < data.connectors@.len() && (#[trigger] data.connectors@[ci]).id == id
                    && spec_preserve_ok(*data, ci)),
        forall|p: DrmPlane|
            #[trigger] final(preserve).planes@.contains(p) <==> (old(preserve).planes@.contains(p)
                || exists|ci: int|
                0 <= ci < data.connectors@.len() && final(preserve).connectors@.contains(
                    (#[trigger] data.connectors@[ci]).id,
                ) && (data.connectors@[ci].primary_plane == Some(p)
                    || data.connectors@[ci].cursor_plane == Some(p))),
        forall|cr: DrmCrtc|
            #[trigger] final(preserve).crtcs@.contains(cr) <==> (old(preserve).crtcs@.contains(cr)
                || exists|ci: int|
                0 <= ci < data.connectors@.len() && final(preserve).connectors@.contains(
                    (#[trigger] data.connectors@[ci]).id,
                ) && data.connectors@[ci].crtc == Some(cr)),
{
    let mut kept: Vec<DrmConnector> = Vec::new();
    let n = preserve.connectors.len();
    for i in 0..n
        invariant
            n == preserve.connectors@.len(),
            spec_dev_wf(*data),
            forall|j: int, k: int|
                0 <= j < k < data.connectors@.len() ==> (#[trigger] data.connectors@[j]).id
                    != (#[trigger] data.connectors@[k]).id,
            forall|id: DrmConnector|
                #[trigger] kept@.contains(id) ==> (preserve.connectors@.contains(id) && exists|
                    ci: int,
                |
                    0 <= ci < data.connectors@.len() && (#[trigger] data.connectors@[ci]).id == id
                        && spec_preserve_ok(*data, ci)),
            forall|w: int|
                0 <= w < i && (exists|ci: int|
                    0 <= ci < data.connectors@.len() && (#[trigger] data.connectors@[ci]).id
                        == preserve.connectors@[w] && spec_preserve_ok(*data, ci))
                    ==> kept@.contains(#[trigger] preserve.connectors@[w]),
    {
        let id = preserve.connectors[i];
        match data.find_connector(id) {
            None => {},
            Some(ci) => {
                if preserve_ok(data, ci) {
                    let ghost prev = kept@;
                    kept.push(id);
                    proof {
                        assert(kept@[kept@.len() - 1] == id);
                        assert forall|x: DrmConnector| #[trigger]
                            kept@.contains(x) implies prev.contains(x) || x == id by {
                            let w = choose|w: int| 0 <= w < kept@.len() && kept@[w] == x;
                            if w < prev.len() {
                                assert(prev[w] == x);
                            }
                        }
                        assert forall|x: DrmConnector|
                            prev.contains(x) implies #[trigger] kept@.contains(x) by {
                            let w = choose|w: int| 0 <= w < prev.len() && prev[w] == x;
                            assert(kept@[w] == x);
                        }
                    }
                }
            },
        }
        proof {
            assert(preserve.connectors@.contains(preserve.connectors@[i as int]));
        }
    }
    preserve.connectors = kept;
    let nc = data.connectors.len();
    let ghost pres1 = *preserve;
    for i in 0..nc
        invariant
            nc == data.connectors@.len(),
            preserve.connectors@ == pres1.connectors@,
            forall|p: DrmPlane|
                #[trigger] preserve.planes@.contains(p) <==> (pres1.planes@.contains(p) || exists|
                    ci: int,
                |
                    0 <= ci < i && preserve.connectors@.contains(
                        (#[trigger] data.connectors@[ci]).id,
                    ) && (data.connectors@[ci].primary_plane == Some(p)
                        || data.connectors@[ci].cursor_plane == Some(p))),
            forall|cr: DrmCrtc|
                #[trigger] preserve.crtcs@.contains(cr) <==> (pres1.crtcs@.contains(cr) || exists|
                    ci: int,
                |
                    0 <= ci < i && preserve.connectors@.contains(
                        (#[trigger] data.connectors@[ci]).id,
                    ) && data.connectors@[ci].crtc == Some(cr)),
    {
        let c = &data.connectors[i];
        if preserve.has_connector(c.id) {
            if let Some(p) = c.primary_plane {
                let ghost prev = preserve.planes@;
                preserve.planes.push(p);
                proof {
                    lemma_push_contains_plane(prev, preserve.planes@, p);
                }
            }
            if let Some(p) = c.cursor_plane {
                let ghost prev = preserve.planes@;
                preserve.planes.push(p);
                proof {
                    lemma_push_contains_plane(prev, preserve.planes@, p);
                }
            }
            if let Some(cr) = c.crtc {
                let ghost prev = preserve.crtcs@;
                preserve.crtcs.push(cr);
                proof {
                    lemma_push_contains_crtc(prev, preserve.crtcs@, cr);
                }
            }
        }
    }
}

/// Pushing onto a plane list adds exactly that plane to its members.
proof fn lemma_push_contains_plane(before: Seq<DrmPlane>, after: Seq<DrmPlane>, p: DrmPlane)
    requires
        after == before.push(p),
    ensures
        forall|x: DrmPlane| #[trigger] after.contains(x) <==> (before.contains(x) || x == p),
{
    assert(after[after.len() - 1] == p);
    assert forall|x: DrmPlane| #[trigger] after.contains(x) implies before.contains(x) || x
        == p by {
        let w = choose|w: int| 0 <= w < after.len() && after[w] == x;
        if w < before.len() {
            assert(before[w] == x);
        }
    }
    assert forall|x: DrmPlane| before.contains(x) implies #[trigger] after.contains(x) by {
        let w = choose|w: int| 0 <= w < before.len() && before[w] == x;
        assert(after[w] == x);
    }
}

/// Pushing onto a crtc list adds exactly that crtc to its members.
proof fn lemma_push_contains_crtc(before: Seq<DrmCrtc>, after: Seq<DrmCrtc>, c: DrmCrtc)
    requires
        after == before.push(c),
    ensures
        forall|x: DrmCrtc| #[trigger] after.contains(x) <==> (before.contains(x) || x == c),
{
    assert(after[after.len() - 1] == c);
    assert forall|x: DrmCrtc| #[trigger] after.contains(x) implies before.contains(x) || x == c by {
        let w = choose|w: int| 0 <= w < after.len() && after[w] == x;
        if w < before.len() {
            assert(before[w] == x);
        }
    }
    assert forall|x: DrmCrtc| before.contains(x) implies #[trigger] after.contains(x) by {
        let w = choose|w: int| 0 <= w < before.len() && before[w] == x;
        assert(after[w] == x);
    }
}

/// The first id in `ids` that names a crtc of `crtcs` with no connector
/// bound, as an index into `crtcs`.
pub open spec fn spec_first_free_crtc(crtcs: Seq<MetalCrtc>, ids: Seq<DrmCrtc>) -> Option<int>
    decreases ids.len(),
{
    if ids.len() == 0 {
        None
    } else {
        match spec_find_crtc(crtcs, ids[0]) {
            Some(k) => if crtcs[k].connector is None {
                Some(k)
            } else {
                spec_first_free_crtc(crtcs, ids.skip(1))
            },
            None => spec_first_free_crtc(crtcs, ids.skip(1)),
        }
    }
}

/// Picks the first crtc reachable from the connector that has no connector
/// bound yet; stages the connector's crtc binding and the crtc's
/// activation with a freshly numbered mode blob; and records everything in
/// the caches.  A connector that is disabled or not connected needs no
/// crtc and nothing happens.  With no free crtc the connector fails with
/// the no-crtc error, with no chosen mode with the no-mode error, and in
/// both cases nothing changes.
pub fn assign_connector_crtc(data: &mut MetalDrmDeviceData, ci: usize, changes: &mut Change) -> (r:
    Result<(), MetalError>)
    requires
        spec_dev_wf(*old(data)),
        ci < old(data).connectors@.len(),
        old(changes).wf(),
        old(changes).spec_props().len() + 3 <= u32::MAX,
        old(data).dev.next_blob_id < u32::MAX,
    ensures
        final(changes).wf(),
        ({
            let c0 = old(data).connectors@[ci as int];
            let dd = c0.display;
            if !(c0.enabled && dd.connection == ConnectorStatus::Connected) {
                r is Ok && *final(data) == *old(data) && *final(changes) == *old(changes)
            } else {
                match spec_first_free_crtc(old(data).dev.crtcs@, dd.crtcs@) {
                    None => {
                        &&& r matches Err(e) && e is NoCrtcForConnector
                        &&& *final(data) == *old(data)
                        &&& *final(changes) == *old(changes)
                    },
                    Some(k) => {
                        if dd.mode is None {
                            &&& r matches Err(e) && e is NoModeForConnector
                            &&& *final(data) == *old(data)
                            &&& *final(changes) == *old(changes)
                        } else {
                            let crtc0 = old(data).dev.crtcs@[k];
                            let blob = DrmBlob(old(data).dev.next_blob_id);
                            &&& r is Ok
                            &&& final(data).connectors@ == old(data).connectors@.update(
                                ci as int,
                                (MetalConnector {
                                    crtc: Some(crtc0.id),
                                    display: (crate::video::ConnectorDisplayData {
                                        crtc_id: crate::props::MutableProperty {
                                            id: dd.crtc_id.id,
                                            value: crtc0.id,
                                        },
                                        ..dd
                                    }),
                                    ..c0
                                }),
                            )
                            &&& final(data).dev.crtcs@ == old(data).dev.crtcs@.update(
                                k,
                                (MetalCrtc {
                                    connector: Some(c0.id),
                                    active: crate::props::MutableProperty {
                                        id: crtc0.active.id,
                                        value: true,
                                    },
                                    mode_id: crate::props::MutableProperty {
                                        id: crtc0.mode_id.id,
                                        value: blob,
                                    },
                                    mode_blob: Some(blob),
                                    ..crtc0
                                }),
                            )
                            &&& final(data).dev == (MetalDrmDevice {
                                crtcs: final(data).dev.crtcs,
                                next_blob_id: (old(data).dev.next_blob_id + 1) as u32,
                                ..old(data).dev
                            })
                            &&& final(data).dev.crtcs@.len() == old(data).dev.crtcs@.len()
                            &&& final(data).connectors@.len() == old(data).connectors@.len()
                            &&& forall|j: int|
                                0 <= j < old(data).dev.crtcs@.len()
                                    ==> (#[trigger] final(data).dev.crtcs@[j]).id == old(
                                    data,
                                ).dev.crtcs@[j].id
                            &&& forall|j: int|
                                0 <= j < old(data).connectors@.len()
                                    ==> (#[trigger] final(data).connectors@[j]).id == old(
                                    data,
                                ).connectors@[j].id && final(data).connectors@[j].cursor_generation
                                    == old(data).connectors@[j].cursor_generation
                            &&& *final(data) == (MetalDrmDeviceData {
                                connectors: final(data).connectors,
                                dev: final(data).dev,
                                ..*old(data)
                            })
                            &&& final(changes).spec_props() == old(changes).spec_props() + seq![
                                dd.crtc_id.id.0,
                                crtc0.active.id.0,
                                crtc0.mode_id.id.0,
                            ]
                            &&& final(changes).spec_values() == old(changes).spec_values() + seq![
                                crtc0.id.0 as u64,
                                1u64,
                                blob.0 as u64,
                            ]
                        }
                    },
                }
            }
        }),
{
    let enabled = data.connectors[ci].enabled;
    let connected = matches!(data.connectors[ci].display.connection, ConnectorStatus::Connected);
    if !(enabled && connected) {
        return Ok(());
    }
    let nids = data.connectors[ci].display.crtcs.len();
    let ghost ids = data.connectors@[ci as int].display.crtcs@;
    proof {
        assert(ids.skip(0) =~= ids);
    }
    let mut found: Option<usize> = None;
    let mut w: usize = 0;
    while w < nids && found.is_none()
        invariant
            nids == ids.len(),
            w <= nids,
            ids == data.connectors@[ci as int].display.crtcs@,
            ci < data.connectors@.len(),
            spec_dev_wf(*data),
            found matches Some(k) ==> spec_first_free_crtc(data.dev.crtcs@, ids) == Some(k as int)
                && k < data.dev.crtcs@.len(),
            found is None ==> spec_first_free_crtc(data.dev.crtcs@, ids) == spec_first_free_crtc(
                data.dev.crtcs@,
                ids.skip(w as int),
            ),
        decreases nids - w + (if found is None { 1int } else { 0 }),
    {
        assert(ids.skip(w as int)[0] == ids[w as int]);
        let id = data.connectors[ci].display.crtcs[w];
        let mut hit = false;
        match data.dev.find_crtc(id) {
            Some(k) => {
                proof {
                    lemma_find_crtc_agrees(data.dev.crtcs@, id, k as int);
                }
                if data.dev.crtcs[k].connector.is_none() {
                    found = Some(k);
                    hit = true;
                }
            },
            None => {
                proof {
                    lemma_find_crtc_none(data.dev.crtcs@, id);
                }
            },
        }
        if !hit {
            assert(ids.skip(w as int).skip(1) =~= ids.skip(w + 1));
            w = w + 1;
        }
    }
    let k = match found {
        Some(k) => k,
        None => {
            proof {
                assert(ids.skip(nids as int) =~= Seq::<DrmCrtc>::empty());
            }
            return Err(MetalError::NoCrtcForConnector);
        },
    };
    proof {
        assert(spec_first_free_crtc(data.dev.crtcs@, ids) == Some(k as int));
    }
    let mode_present = data.connectors[ci].display.mode.is_some();
    if !mode_present {
        return Err(MetalError::NoModeForConnector);
    }
    let blob = DrmBlob(data.dev.next_blob_id);
    data.dev.next_blob_id = data.dev.next_blob_id + 1;
    let conn_id = data.connectors[ci].id;
    let crtc_id = data.dev.crtcs[k].id;
    let dd_prop = data.connectors[ci].display.crtc_id.id;
    let mut conn_writes: Vec<DrmPropertyValue> = Vec::new();
    conn_writes.push(DrmPropertyValue { id: dd_prop, value: crtc_id.0 as u64 });
    changes.change_object(conn_id.0, &conn_writes);
    let active_prop = data.dev.crtcs[k].active.id;
    let mode_prop = data.dev.crtcs[k].mode_id.id;
    let mut crtc_writes: Vec<DrmPropertyValue> = Vec::new();
    crtc_writes.push(DrmPropertyValue { id: active_prop, value: 1 });
    crtc_writes.push(DrmPropertyValue { id: mode_prop, value: blob.0 as u64 });
    changes.change_object(crtc_id.0, &crtc_writes);
    data.connectors[ci].crtc = Some(crtc_id);
    data.connectors[ci].display.crtc_id.value = crtc_id;
    let crtc = &mut data.dev.crtcs[k];
    crtc.connector = Some(conn_id);
    crtc.active.value = true;
    crtc.mode_id.value = blob;
    crtc.mode_blob = Some(blob);
    proof {
        assert(conn_writes@.len() == 1 && crtc_writes@.len() == 2);
        assert(conn_writes@[0].id.0 == dd_prop.0 && conn_writes@[0].value == crtc_id.0 as u64);
        assert(crtc_writes@[0].id.0 == active_prop.0 && crtc_writes@[0].value == 1u64);
        assert(crtc_writes@[1].id.0 == mode_prop.0 && crtc_writes@[1].value == blob.0 as u64);
        assert(final(changes).spec_props() =~= old(changes).spec_props() + seq![
            dd_prop.0,
            active_prop.0,
            mode_prop.0,
        ]);
        assert(final(changes).spec_values() =~= old(changes).spec_values() + seq![
            crtc_id.0 as u64,
            1u64,
            blob.0 as u64,
        ]);
        assert(final(data).connectors@ =~= old(data).connectors@.update(
            ci as int,
            final(data).connectors@[ci as int],
        ));
        assert(final(data).dev.crtcs@ =~= old(data).dev.crtcs@.update(
            k as int,
            final(data).dev.crtcs@[k as int],
        ));
    }
    Ok(())
}

/// The first id in `poss` that names an unclaimed plane of `planes` with
/// role `ty` supporting format `fmt`, as an index into `planes`.
pub open spec fn spec_first_plane_with(
    planes: Seq<MetalPlane>,
    poss: Seq<DrmPlane>,
    ty: PlaneType,
    fmt: u32,
) -> Option<int>
    decreases poss.len(),
{
    if poss.len() == 0 {
        None
    } else {
        match spec_find_plane(planes, poss[0]) {
            Some(pi) => if planes[pi].ty == ty && !planes[pi].assigned
                && planes[pi].formats@.contains(fmt) {
                Some(pi)
            } else {
                spec_first_plane_with(planes, poss.skip(1), ty, fmt)
            },
            None => spec_first_plane_with(planes, poss.skip(1), ty, fmt),
        }
    }
}

/// Finds the first unclaimed plane of the given role and format among the
/// possible planes of a crtc.
fn find_plane_with(data: &MetalDrmDeviceData, k: usize, ty: PlaneType, fmt: u32) -> (r: Option<
    usize,
>)
    requires
        spec_dev_wf(*data),
        k < data.dev.crtcs@.len(),
    ensures
        match r {
            Some(pi) => spec_first_plane_with(
                data.dev.planes@,
                data.dev.crtcs@[k as int].possible_planes@,
                ty,
                fmt,
            ) == Some(pi as int) && pi < data.dev.planes@.len(),
            None => spec_first_plane_with(
                data.dev.planes@,
                data.dev.crtcs@[k as int].possible_planes@,
                ty,
                fmt,
            ) is None,
        },
{
    let ghost poss = data.dev.crtcs@[k as int].possible_planes@;
    let n = data.dev.crtcs[k].possible_planes.len();
    proof {
        assert(poss.skip(0) =~= poss);
    }
    let mut found: Option<usize> = None;
    let mut w: usize = 0;
    while w < n && found.is_none()
        invariant
            n == poss.len(),
            w <= n,
            k < data.dev.crtcs@.len(),
            poss == data.dev.crtcs@[k as int].possible_planes@,
            spec_dev_wf(*data),
            found matches Some(pi) ==> spec_first_plane_with(data.dev.planes@, poss, ty, fmt)
                == Some(pi as int) && pi < data.dev.planes@.len(),
            found is None ==> spec_first_plane_with(data.dev.planes@, poss, ty, fmt)
                == spec_first_plane_with(data.dev.planes@, poss.skip(w as int), ty, fmt),
        decreases n - w + (if found is None { 1int } else { 0 }),
    {
        assert(poss.skip(w as int)[0] == poss[w as int]);
        let id = data.dev.crtcs[k].possible_planes[w];
        let mut hit = false;
        match data.dev.find_plane(id) {
            Some(pi) => {
                proof {
                    lemma_find_plane_agrees(data.dev.planes@, id, pi as int);
                }
                let p = &data.dev.planes[pi];
                let mut same_ty = false;
                match (p.ty, ty) {
                    (PlaneType::Primary, PlaneType::Primary) => {
                        same_ty = true;
                    },
                    (PlaneType::Cursor, PlaneType::Cursor) => {
                        same_ty = true;
                    },
                    (PlaneType::Overlay, PlaneType::Overlay) => {
                        same_ty = true;
                    },
                    _ => {},
                }
                if same_ty && !p.assigned && p.supports_format(fmt) {
                    found = Some(pi);
                    hit = true;
                }
            },
            None => {
                proof {
                    lemma_find_plane_none(data.dev.planes@, id);
                }
            },
        }
        if !hit {
            assert(poss.skip(w as int).skip(1) =~= poss.skip(w + 1));
            w = w + 1;
        }
    }
    proof {
        if found is None {
            assert(poss.skip(n as int) =~= Seq::<DrmPlane>::empty());
        }
    }
    found
}

/// Assigns scanout planes to a connector with a bound crtc: the first
/// unclaimed primary plane supporting the opaque format takes the buffer
/// pair and gets its geometry staged to exactly the chosen mode, full
/// frame and unscaled; an unclaimed cursor plane supporting the
/// alpha-capable format is claimed when one exists and cursor buffers
/// were allocated — failing that, the output simply has no hardware
/// cursor.  Displaced buffer pairs are appended to `old_buffers`, primary
/// pair first, for the caller to retain until no in-flight commit
/// references them; nothing is dropped.
pub fn assign_connector_planes(
    data: &mut MetalDrmDeviceData,
    ci: usize,
    changes: &mut Change,
    primary_bufs: Option<RenderBufferPair>,
    cursor_bufs: Option<RenderBufferPair>,
    old_buffers: &mut Vec<RenderBufferPair>,
) -> (r: Result<(), MetalError>)
    requires
        spec_dev_wf(*old(data)),
        ci < old(data).connectors@.len(),
        old(changes).wf(),
        old(changes).spec_props().len() + 10 <= u32::MAX,
    ensures
        final(changes).wf(),
        ({
            let c0 = old(data).connectors@[ci as int];
            let dd = c0.display;
            if c0.crtc is None || dd.mode is None || spec_find_crtc(
                old(data).dev.crtcs@,
                c0.crtc->0,
            ) is None {
                r is Ok && *final(data) == *old(data) && *final(changes) == *old(changes)
                    && *final(old_buffers) == *old(old_buffers)
            } else {
                let k = spec_find_crtc(old(data).dev.crtcs@, c0.crtc->0)->0;
                let crtc = old(data).dev.crtcs@[k];
                match spec_first_plane_with(
                    old(data).dev.planes@,
                    crtc.possible_planes@,
                    PlaneType::Primary,
                    crate::format::XRGB8888_DRM,
                ) {
                    None => {
                        &&& r matches Err(e) && e is NoPrimaryPlaneForConnector
                        &&& *final(data) == *old(data)
                        &&& *final(changes) == *old(changes)
                        &&& *final(old_buffers) == *old(old_buffers)
                    },
                    Some(pi) => {
                        if primary_bufs is None {
                            &&& r matches Err(e) && e is ScanoutBuffer
                            &&& *final(data) == *old(data)
                            &&& *final(changes) == *old(changes)
                            &&& *final(old_buffers) == *old(old_buffers)
                        } else {
                            let mode = dd.mode->0;
                            let plane0 = old(data).dev.planes@[pi];
                            let cursor_pick = spec_first_plane_with(
                                old(data).dev.planes@,
                                crtc.possible_planes@,
                                PlaneType::Cursor,
                                crate::format::ARGB8888_DRM,
                            );
                            &&& r is Ok
                            &&& final(old_buffers)@ == old(old_buffers)@ + (match c0.buffers {
                                Some(b) => seq![b],
                                None => Seq::empty(),
                            }) + (match c0.cursor_buffers {
                                Some(b) => seq![b],
                                None => Seq::empty(),
                            })
                            &&& final(data).connectors@[ci as int].primary_plane == Some(plane0.id)
                            &&& final(data).connectors@[ci as int].buffers == primary_bufs
                            &&& final(data).connectors@[ci as int].cursor_enabled == false
                            &&& match cursor_pick {
                                Some(cpi) => if cursor_bufs is Some {
                                    &&& final(data).connectors@[ci as int].cursor_plane == Some(
                                        old(data).dev.planes@[cpi].id,
                                    )
                                    &&& final(data).connectors@[ci as int].cursor_buffers
                                        == cursor_bufs
                                    &&& final(data).dev.planes@[cpi].assigned
                                } else {
                                    &&& final(data).connectors@[ci as int].cursor_plane is None
                                    &&& final(data).connectors@[ci as int].cursor_buffers is None
                                },
                                None => {
                                    &&& final(data).connectors@[ci as int].cursor_plane is None
                                    &&& final(data).connectors@[ci as int].cursor_buffers is None
                                },
                            }
                            &&& final(data).connectors@[ci as int] == (MetalConnector {
                                buffers: final(data).connectors@[ci as int].buffers,
                                primary_plane: final(data).connectors@[ci as int].primary_plane,
                                cursor_plane: final(data).connectors@[ci as int].cursor_plane,
                                cursor_buffers: final(data).connectors@[ci as int].cursor_buffers,
                                cursor_enabled: false,
                                ..c0
                            })
                            &&& forall|j: int|
                                0 <= j < old(data).connectors@.len() && j != ci
                                    ==> (#[trigger] final(data).connectors@[j]) == old(
                                    data,
                                ).connectors@[j]
                            &&& final(data).connectors@.len() == old(data).connectors@.len()
                            &&& final(data).dev.planes@.len() == old(data).dev.planes@.len()
                            &&& final(data).dev.planes@[pi].id == plane0.id
                            &&& (match cursor_pick {
                                Some(cpi) => cursor_bufs is None || final(data).dev.planes@[cpi].id
                                    == old(data).dev.planes@[cpi].id,
                                None => true,
                            })
                            &&& final(data).dev.planes@[pi].assigned
                            &&& final(data).dev.planes@[pi].crtc_id.value == crtc.id
                            &&& final(data).dev.planes@[pi].crtc_w.value == mode.hdisplay as i32
                            &&& final(data).dev.planes@[pi].crtc_h.value == mode.vdisplay as i32
                            &&& forall|j: int|
                                0 <= j < old(data).dev.planes@.len() && j != pi && (
                                match cursor_pick {
                                    Some(cpi) => cursor_bufs is None || j != cpi,
                                    None => true,
                                }) ==> (#[trigger] final(data).dev.planes@[j]) == old(
                                    data,
                                ).dev.planes@[j]
                            &&& *final(data) == (MetalDrmDeviceData {
                                connectors: final(data).connectors,
                                dev: final(data).dev,
                                ..*old(data)
                            })
                            &&& final(data).dev == (MetalDrmDevice {
                                planes: final(data).dev.planes,
                                ..old(data).dev
                            })
                            &&& final(changes).spec_props() == old(changes).spec_props() + seq![
                                plane0.fb_id.0,
                                plane0.crtc_id.id.0,
                                plane0.crtc_x.id.0,
                                plane0.crtc_y.id.0,
                                plane0.crtc_w.id.0,
                                plane0.crtc_h.id.0,
                                plane0.src_x.id.0,
                                plane0.src_y.id.0,
                                plane0.src_w.id.0,
                                plane0.src_h.id.0,
                            ]
                            &&& final(changes).spec_values() == old(changes).spec_values() + seq![
                                primary_bufs->0.b0.drm.0 as u64,
                                crtc.id.0 as u64,
                                0u64,
                                0u64,
                                mode.hdisplay as u64,
                                mode.vdisplay as u64,
                                0u64,
                                0u64,
                                (mode.hdisplay as u64) << 16u64,
                                (mode.vdisplay as u64) << 16u64,
                            ]
                        }
                    },
                }
            }
        }),
{
    let crtc_id = match data.connectors[ci].crtc {
        Some(id) => id,
        None => {
            return Ok(());
        },
    };
    let mode = match &data.connectors[ci].display.mode {
        Some(m) => *m,
        None => {
            return Ok(());
        },
    };
    let k = match data.dev.find_crtc(crtc_id) {
        Some(k) => {
            proof {
                lemma_find_crtc_agrees(data.dev.crtcs@, crtc_id, k as int);
            }
            k
        },
        None => {
            proof {
                lemma_find_crtc_none(data.dev.crtcs@, crtc_id);
            }
            return Ok(());
        },
    };
    let pi = match find_plane_with(data, k, PlaneType::Primary, crate::format::XRGB8888_DRM) {
        Some(pi) => pi,
        None => {
            return Err(MetalError::NoPrimaryPlaneForConnector);
        },
    };
    let bufs = match primary_bufs {
        Some(b) => b,
        None => {
            return Err(MetalError::ScanoutBuffer);
        },
    };
    let cursor_pick = find_plane_with(data, k, PlaneType::Cursor, crate::format::ARGB8888_DRM);
    let fb0 = bufs.b0.drm;
    let plane_id = data.dev.planes[pi].id;
    let fb_prop = data.dev.planes[pi].fb_id;
    let crtc_id_prop = data.dev.planes[pi].crtc_id.id;
    let crtc_x_prop = data.dev.planes[pi].crtc_x.id;
    let crtc_y_prop = data.dev.planes[pi].crtc_y.id;
    let crtc_w_prop = data.dev.planes[pi].crtc_w.id;
    let crtc_h_prop = data.dev.planes[pi].crtc_h.id;
    let src_x_prop = data.dev.planes[pi].src_x.id;
    let src_y_prop = data.dev.planes[pi].src_y.id;
    let src_w_prop = data.dev.planes[pi].src_w.id;
    let src_h_prop = data.dev.planes[pi].src_h.id;
    let mut writes: Vec<DrmPropertyValue> = Vec::new();
    writes.push(DrmPropertyValue { id: fb_prop, value: fb0.0 as u64 });
    writes.push(DrmPropertyValue { id: crtc_id_prop, value: crtc_id.0 as u64 });
    writes.push(DrmPropertyValue { id: crtc_x_prop, value: 0 });
    writes.push(DrmPropertyValue { id: crtc_y_prop, value: 0 });
    writes.push(DrmPropertyValue { id: crtc_w_prop, value: mode.hdisplay as u64 });
    writes.push(DrmPropertyValue { id: crtc_h_prop, value: mode.vdisplay as u64 });
    writes.push(DrmPropertyValue { id: src_x_prop, value: 0 });
    writes.push(DrmPropertyValue { id: src_y_prop, value: 0 });
    writes.push(DrmPropertyValue { id: src_w_prop, value: (mode.hdisplay as u64) << 16u64 });
    writes.push(DrmPropertyValue { id: src_h_prop, value: (mode.vdisplay as u64) << 16u64 });
    changes.change_object(plane_id.0, &writes);
    {
        let p = &mut data.dev.planes[pi];
        p.assigned = true;
        p.crtc_id.value = crtc_id;
        p.crtc_x.value = 0;
        p.crtc_y.value = 0;
        p.crtc_w.value = mode.hdisplay as i32;
        p.crtc_h.value = mode.vdisplay as i32;
        p.src_x.value = 0;
        p.src_y.value = 0;
        p.src_w.value = (mode.hdisplay as u32) << 16u32;
        p.src_h.value = (mode.vdisplay as u32) << 16u32;
    }
    let has_cursor = cursor_pick.is_some() && cursor_bufs.is_some();
    if has_cursor {
        let pj = cursor_pick.unwrap();
        data.dev.planes[pj].assigned = true;
    }
    let c = &mut data.connectors[ci];
    let displaced = c.buffers.take();
    c.buffers = Some(bufs);
    if let Some(old_pair) = displaced {
        old_buffers.push(old_pair);
    }
    c.primary_plane = Some(plane_id);
    let displaced_cursor = c.cursor_buffers.take();
    if let Some(old_pair) = displaced_cursor {
        old_buffers.push(old_pair);
    }
    if has_cursor {
        let pj = cursor_pick.unwrap();
        c.cursor_plane = Some(data.dev.planes[pj].id);
        c.cursor_buffers = cursor_bufs;
    } else {
        c.cursor_plane = None;
        c.cursor_buffers = None;
    }
    c.cursor_enabled = false;
    proof {
        assert(writes@.len() == 10);
        assert(writes@[0].id.0 == fb_prop.0 && writes@[0].value == fb0.0 as u64);
        assert(writes@[1].id.0 == crtc_id_prop.0 && writes@[1].value == crtc_id.0 as u64);
        assert(writes@[2].id.0 == crtc_x_prop.0 && writes@[2].value == 0u64);
        assert(writes@[3].id.0 == crtc_y_prop.0 && writes@[3].value == 0u64);
        assert(writes@[4].id.0 == crtc_w_prop.0 && writes@[4].value == mode.hdisplay as u64);
        assert(writes@[5].id.0 == crtc_h_prop.0 && writes@[5].value == mode.vdisplay as u64);
        assert(writes@[6].id.0 == src_x_prop.0 && writes@[6].value == 0u64);
        assert(writes@[7].id.0 == src_y_prop.0 && writes@[7].value == 0u64);
        assert(writes@[8].id.0 == src_w_prop.0 && writes@[8].value == (mode.hdisplay as u64)
            << 16u64);
        assert(writes@[9].id.0 == src_h_prop.0 && writes@[9].value == (mode.vdisplay as u64)
            << 16u64);
        assert(final(changes).spec_props() =~= old(changes).spec_props() + seq![
            fb_prop.0,
            crtc_id_prop.0,
            crtc_x_prop.0,
            crtc_y_prop.0,
            crtc_w_prop.0,
            crtc_h_prop.0,
            src_x_prop.0,
            src_y_prop.0,
            src_w_prop.0,
            src_h_prop.0,
        ]);
        assert(final(changes).spec_values() =~= old(changes).spec_values() + seq![
            fb0.0 as u64,
            crtc_id.0 as u64,
            0u64,
            0u64,
            mode.hdisplay as u64,
            mode.vdisplay as u64,
            0u64,
            0u64,
            (mode.hdisplay as u64) << 16u64,
            (mode.vdisplay as u64) << 16u64,
        ]);
    }
    Ok(())
}

/// The connector at the same index keeps its identity, announcement
/// state, queued events, cursor generation and presentation flags.
pub open spec fn spec_conn_identity_kept(c0: MetalConnector, c1: MetalConnector) -> bool {
    &&& c1.id == c0.id
    &&& c1.connect_sent == c0.connect_sent
    &&& c1.events@ == c0.events@
    &&& c1.cursor_generation == c0.cursor_generation
    &&& c1.can_present == c0.can_present
    &&& c1.has_damage == c0.has_damage
    &&& c1.cursor_changed == c0.cursor_changed
    &&& c1.enabled == c0.enabled
    &&& c1.display.connection == c0.display.connection
    &&& c1.display.monitor_manufacturer@ == c0.display.monitor_manufacturer@
    &&& c1.display.monitor_name@ == c0.display.monitor_name@
    &&& c1.display.monitor_serial_number@ == c0.display.monitor_serial_number@
}

/// One atomic commit the caller must issue: the batch and its flags.
#[derive(Clone, Debug)]
pub struct PlannedCommit {
    pub change: Change,
    pub flags: u32,
}

/// What one allocation pass produced: whether the fast path was taken, the
/// commits to issue in order, and the buffer pairs displaced by
/// reallocation, to be retained until no in-flight commit references them.
#[derive(Clone, Debug)]
pub struct InitOutcome {
    pub reused: bool,
    pub commits: Vec<PlannedCommit>,
    pub old_buffers: Vec<RenderBufferPair>,
}

/// Solves the hardware graph for one device.  With no render context
/// nothing happens.  Otherwise the preserve set is validated, and either
/// the current configuration is kept — staging only the shutdown of crtcs
/// no connector uses, the only commit of the pass allowed to carry the
/// allow-modeset flag — or every non-preserved output is rebuilt: crtcs
/// and connectors reset and reassigned, planes reset and reassigned with
/// fresh buffers from `provisions`, in one commit that carries the
/// allow-modeset flag.  Per-connector failures leave that connector
/// unconfigured and the pass goes on.
pub fn init_drm_device(
    data: &mut MetalDrmDeviceData,
    preserve: &mut Preserve,
    have_ctx: bool,
    provisions: &mut Vec<(Option<RenderBufferPair>, Option<RenderBufferPair>)>,
) -> (r: InitOutcome)
    requires
        spec_dev_wf(*old(data)),
        forall|j: int, k: int|
            0 <= j < k < old(data).connectors@.len() ==> (#[trigger] old(data).connectors@[j]).id
                != (#[trigger] old(data).connectors@[k]).id,
        old(provisions)@.len() >= old(data).connectors@.len(),
        old(data).connectors@.len() <= 100_000,
        old(data).dev.crtcs@.len() <= 32,
        old(data).dev.planes@.len() <= 100_000,
        old(data).dev.next_blob_id as int + old(data).connectors@.len() <= u32::MAX,
        forall|j: int|
            0 <= j < old(data).connectors@.len() ==> (#[trigger] old(
                data,
            ).connectors@[j]).cursor_generation < u64::MAX,
    ensures
        final(data).connectors@.len() == old(data).connectors@.len(),
        final(data).futures@ == old(data).futures@,
        !have_ctx ==> *final(data) == *old(data) && r.commits@.len() == 0 && !r.reused,
        have_ctx ==> {
            &&& r.reused == spec_can_reuse(*old(data))
            &&& (r.reused ==> r.commits@.len() == 2 && r.commits@[1].flags == 0)
            &&& (!r.reused ==> r.commits@.len() == 1 && r.commits@[0].flags
                == crate::drm::DRM_MODE_ATOMIC_ALLOW_MODESET)
            &&& forall|j: int| 0 <= j < r.commits@.len() ==> (#[trigger] r.commits@[j]).change.wf()
        },
        have_ctx ==> forall|k: int|
            0 <= k < old(data).connectors@.len() ==> {
                let c0 = old(data).connectors@[k];
                let c1 = #[trigger] final(data).connectors@[k];
                &&& c1.id == c0.id
                &&& c1.connect_sent == c0.connect_sent
                &&& c1.can_present == c0.can_present
                &&& c1.has_damage == c0.has_damage
                &&& c1.cursor_changed == c0.cursor_changed
                &&& c1.enabled == c0.enabled
                &&& c1.display.connection == c0.display.connection
                &&& c1.display.monitor_manufacturer@ == c0.display.monitor_manufacturer@
                &&& c1.display.monitor_name@ == c0.display.monitor_name@
                &&& c1.display.monitor_serial_number@ == c0.display.monitor_serial_number@
                &&& if !final(preserve).connectors@.contains(c0.id) && c0.connect_sent {
                    &&& c1.cursor_generation == c0.cursor_generation + 1
                    &&& c1.events@ == c0.events@.push(
                        crate::backend::ConnectorEvent::HardwareCursor(
                            if c1.cursor_buffers is Some {
                                Some((c0.cursor_generation + 1) as u64)
                            } else {
                                None
                            },
                        ),
                    )
                } else {
                    &&& c1.cursor_generation == c0.cursor_generation
                    &&& c1.events@ == c0.events@
                }
            },
{
    if !have_ctx {
        return InitOutcome { reused: false, commits: Vec::new(), old_buffers: Vec::new() };
    }
    validate_preserve(data, preserve);
    let reused = can_reuse_current_configuration(data);
    let mut commits: Vec<PlannedCommit> = Vec::new();
    let mut old_buffers: Vec<RenderBufferPair> = Vec::new();
    let mut changes = Change::new();
    let mut flags: u32 = 0;
    let ghost data1 = *data;
    if reused {
        link_current_configuration(data);
        let mut deact = Change::new();
        let deact_flags = deactivate_unused_crtcs(data, &mut deact);
        commits.push(PlannedCommit { change: deact, flags: deact_flags });
    } else {
        flags = crate::drm::DRM_MODE_ATOMIC_ALLOW_MODESET;
        reset_connectors_and_crtcs(data, &mut changes, preserve);
        proof {
            assert forall|j: int|
                0 <= j < data.connectors@.len() implies spec_conn_identity_kept(
                data1.connectors@[j],
                #[trigger] data.connectors@[j],
            ) by {}
        }
        let n = data.connectors.len();
        for i in 0..n
            invariant
                n == data.connectors@.len(),
                spec_dev_wf(*data),
                changes.wf(),
                changes.spec_props().len() <= data1.connectors@.len() + 3
                    * data1.dev.crtcs@.len() + 3 * i,
                data1.connectors@.len() == n,
                data1.connectors@.len() <= 100_000,
                data1.dev.crtcs@.len() <= 32,
                data.dev.crtcs@.len() == data1.dev.crtcs@.len(),
                data.dev.planes@.len() == data1.dev.planes@.len(),
                data.dev.next_blob_id as int + (n - i) <= u32::MAX,
                data.futures@ == data1.futures@,
                forall|j: int|
                    0 <= j < n ==> spec_conn_identity_kept(
                        data1.connectors@[j],
                        #[trigger] data.connectors@[j],
                    ),
                forall|j: int|
                    0 <= j < n ==> (#[trigger] data.connectors@[j]).cursor_generation < u64::MAX,
        {
            if !preserve.has_connector(data.connectors[i].id) {
                let ghost pre = *data;
                let outcome = assign_connector_crtc(data, i, &mut changes);
                let _ = outcome;
                proof {
                    assert(data.dev.crtcs@.len() == pre.dev.crtcs@.len());
                    assert(data.dev.planes@ == pre.dev.planes@);
                    assert forall|j: int, k: int|
                        0 <= j < k < data.dev.crtcs@.len() implies #[trigger] data.dev.crtcs@[j].id
                        != #[trigger] data.dev.crtcs@[k].id by {
                        assert(data.dev.crtcs@[j].id == pre.dev.crtcs@[j].id);
                        assert(data.dev.crtcs@[k].id == pre.dev.crtcs@[k].id);
                    }
                    assert(spec_dev_wf(*data));
                }
            }
        }
    }
    proof {
        assert(data.dev.planes@.len() == data1.dev.planes@.len());
        assert(changes.spec_props().len() <= data1.connectors@.len() + 3 * data1.dev.crtcs@.len()
            + 3 * data1.connectors@.len());
    }
    reset_planes(&mut data.dev, &mut changes, preserve);
    let n = data.connectors.len();
    for i in 0..n
        invariant
            n == data.connectors@.len(),
            n <= provisions@.len(),
            n == data1.connectors@.len(),
            spec_dev_wf(*data),
            changes.wf(),
            changes.spec_props().len() <= data1.connectors@.len() + 3 * data1.dev.crtcs@.len() + 3
                * data1.connectors@.len() + 3 * data1.dev.planes@.len() + 10 * i,
            data1.connectors@.len() <= 100_000,
            data1.dev.crtcs@.len() <= 32,
            data1.dev.planes@.len() <= 100_000,
            data.dev.planes@.len() == data1.dev.planes@.len(),
            data.futures@ == data1.futures@,
            forall|j: int|
                0 <= j < n ==> spec_conn_identity_kept(
                    data1.connectors@[j],
                    #[trigger] data.connectors@[j],
                ),
            forall|j: int|
                0 <= j < n ==> (#[trigger] data.connectors@[j]).cursor_generation < u64::MAX,
    {
        if !preserve.has_connector(data.connectors[i].id) {
            let pair = &mut provisions[i];
            let primary = pair.0.take();
            let cursor = pair.1.take();
            let ghost pre = *data;
            let outcome = assign_connector_planes(
                data,
                i,
                &mut changes,
                primary,
                cursor,
                &mut old_buffers,
            );
            let _ = outcome;
            proof {
                assert(data.dev.crtcs@ == pre.dev.crtcs@);
                assert(data.dev.planes@.len() == pre.dev.planes@.len());
                assert forall|j: int|
                    0 <= j < data.dev.planes@.len() implies #[trigger] data.dev.planes@[j].id
                    == pre.dev.planes@[j].id by {}
                assert forall|j: int, k: int|
                    0 <= j < k < data.dev.planes@.len() implies #[trigger] data.dev.planes@[j].id
                    != #[trigger] data.dev.planes@[k].id by {
                    assert(data.dev.planes@[j].id == pre.dev.planes@[j].id);
                    assert(data.dev.planes@[k].id == pre.dev.planes@[k].id);
                }
                assert(spec_dev_wf(*data));
            }
        }
    }
    commits.push(PlannedCommit { change: changes, flags });
    let ghost pre_ad = *data;
    let n2 = data.connectors.len();
    for i in 0..n2
        invariant
            n2 == data.connectors@.len(),
            n2 == pre_ad.connectors@.len(),
            data.futures@ == data1.futures@,
            forall|j: int| i <= j < n2 ==> #[trigger] data.connectors@[j] == pre_ad.connectors@[j],
            forall|j: int|
                0 <= j < n2 ==> (#[trigger] pre_ad.connectors@[j]).cursor_generation < u64::MAX,
            forall|j: int|
                0 <= j < i ==> {
                    let c0 = pre_ad.connectors@[j];
                    let c1 = #[trigger] data.connectors@[j];
                    if !preserve.connectors@.contains(c0.id) && c0.connect_sent {
                        &&& c1 == (MetalConnector {
                            cursor_generation: (c0.cursor_generation + 1) as u64,
                            events: c1.events,
                            on_change: c1.on_change,
                            ..c0
                        })
                        &&& c1.events@ == c0.events@.push(
                            crate::backend::ConnectorEvent::HardwareCursor(
                                if c0.cursor_buffers is Some {
                                    Some((c0.cursor_generation + 1) as u64)
                                } else {
                                    None
                                },
                            ),
                        )
                    } else {
                        c1 == c0
                    }
                },
    {
        if !preserve.has_connector(data.connectors[i].id) {
            if data.connectors[i].connect_sent {
                let generation = data.connectors[i].cursor_generation + 1;
                data.connectors[i].cursor_generation = generation;
                let has_cursor = data.connectors[i].cursor_buffers.is_some();
                let event = if has_cursor {
                    crate::backend::ConnectorEvent::HardwareCursor(Some(generation))
                } else {
                    crate::backend::ConnectorEvent::HardwareCursor(None)
                };
                data.connectors[i].send_event(event);
            }
        }
    }
    proof {
        assert(data1 == *old(data));
        assert forall|k: int|
            0 <= k < old(data).connectors@.len() implies {
            let c0 = old(data).connectors@[k];
            let c1 = #[trigger] final(data).connectors@[k];
            &&& c1.id == c0.id
            &&& c1.connect_sent == c0.connect_sent
            &&& if !preserve.connectors@.contains(c0.id) && c0.connect_sent {
                &&& c1.cursor_generation == c0.cursor_generation + 1
                &&& c1.events@ == c0.events@.push(
                    crate::backend::ConnectorEvent::HardwareCursor(
                        if c1.cursor_buffers is Some {
                            Some((c0.cursor_generation + 1) as u64)
                        } else {
                            None
                        },
                    ),
                )
            } else {
                &&& c1.cursor_generation == c0.cursor_generation
                &&& c1.events@ == c0.events@
            }
        } by {
            assert(spec_conn_identity_kept(data1.connectors@[k], pre_ad.connectors@[k]));
        }
    }
    InitOutcome { reused, commits, old_buffers }
}

/// After one `change_object` call, the batch's object list holds the new
/// object, still holds everything it held, and holds nothing else new.
pub proof fn lemma_objects_grow(before: Change, after: Change, obj: u32)
    requires
        after.spec_objects() == before.spec_objects() || after.spec_objects()
            == before.spec_objects().push(obj),
        after.spec_objects() == before.spec_objects() ==> before.spec_objects().len() > 0
            && before.spec_objects().last() == obj,
    ensures
        forall|o: u32|
            #[trigger] after.spec_objects().contains(o) ==> before.spec_objects().contains(o) || o
                == obj,
        after.spec_objects().contains(obj),
        forall|o: u32|
            before.spec_objects().contains(o) ==> #[trigger] after.spec_objects().contains(o),
{
    let b = before.spec_objects();
    let a = after.spec_objects();
    assert forall|o: u32| #[trigger] a.contains(o) implies b.contains(o) || o == obj by {
        let w = choose|w: int| 0 <= w < a.len() && a[w] == o;
        if w < b.len() {
            assert(b[w] == o);
        }
    }
    assert(a.contains(obj)) by {
        if a == b {
            assert(b[b.len() - 1] == obj);
        } else {
            assert(a[a.len() - 1] == obj);
        }
    }
    assert forall|o: u32| b.contains(o) implies #[trigger] a.contains(o) by {
        let w = choose|w: int| 0 <= w < b.len() && b[w] == o;
        assert(a[w] == o);
    }
}

} // verus!

