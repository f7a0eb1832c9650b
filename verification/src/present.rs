//! The vsync-driven present path: building the nonblocking page-flip
//! commit for a damaged or cursor-changed output, applying the commit's
//! outcome to the connector's flags, and handling the flip-complete event.

use vstd::prelude::*;

use crate::drm::{
    DRM_MODE_ATOMIC_NONBLOCK, DRM_MODE_PAGE_FLIP_EVENT, DrmCrtc, DrmPropertyValue,
};
use crate::props::Change;
use crate::video::{MetalConnector, MetalDrmDeviceData};
use crate::allocator::{lemma_find_crtc_agrees, lemma_find_crtc_none, spec_dev_wf, spec_find_crtc};

verus! {

/// What the atomic commit ioctl reported.  Loss of the DRM-master
/// privilege is distinguished from every other failure: it is transient
/// and retried on the next damage or resume.
#[derive(Copy, Clone, Debug, PartialEq, Eq, Structural)]
pub enum CommitOutcome {
    Success,
    NotMaster,
    OtherError,
}

/// The rendering work one present pass asks of the GPU, performed outside
/// this crate before the commit is issued.
#[derive(Clone, Debug)]
pub struct RenderStep {
    /// Index of the buffer to render the frame into.
    pub buffer: u8,
    /// Copy the rendered bridge buffer into the display-local texture.
    pub copy_bridge: bool,
}

/// One prepared present: the staged batch, its flags, and the rendering
/// work it depends on.
#[derive(Clone, Debug)]
pub struct PresentPlan {
    pub changes: Change,
    pub flags: u32,
    /// The damage render pass, when the output was damaged.
    pub render: Option<RenderStep>,
    /// The cursor copy pass, when the cursor front buffer was swapped
    /// across a bridge.
    pub cursor_copy: bool,
}

/// Whether a present pass does anything at all for this connector: it
/// must have something pending, be allowed to present, and hold an
/// active crtc, a primary plane and buffers.
pub open spec fn spec_present_possible(data: MetalDrmDeviceData, ci: int) -> bool {
    let c = data.connectors@[ci];
    &&& c.crtc is Some
    &&& (c.has_damage || c.cursor_changed)
    &&& c.can_present
    &&& match spec_find_crtc(data.dev.crtcs@, c.crtc->0) {
        Some(k) => data.dev.crtcs@[k].active.value,
        None => false,
    }
    &&& c.primary_plane is Some
    &&& c.buffers is Some
}

/// Builds the page-flip commit for one connector, consuming its wakeup.
/// Nothing happens — and nothing is staged — unless damage or a cursor
/// change is pending, presenting is allowed, the bound crtc is active and
/// the output holds a primary plane with buffers; a damaged output also
/// needs a live render context.  On a damage pass the back buffer is
/// picked and the primary plane's framebuffer staged to it; on a cursor
/// pass the cursor plane is either given its front buffer, position and
/// unscaled geometry, or turned off (framebuffer and crtc zero).  The
/// staged property ids and values are pinned exactly; the commit carries
/// the nonblocking and completion-event flags and nothing else.
#[verifier::rlimit(50)]
pub fn prepare_present(data: &mut MetalDrmDeviceData, ci: usize, render_ctx_valid: bool) -> (r:
    Option<PresentPlan>)
    requires
        spec_dev_wf(*old(data)),
        ci < old(data).connectors@.len(),
        old(data).connectors@[ci as int].wf(),
    ensures
        spec_dev_wf(*final(data)),
        final(data).connectors@.len() == old(data).connectors@.len(),
        forall|j: int|
            0 <= j < old(data).connectors@.len() && j != ci
                ==> (#[trigger] final(data).connectors@[j]) == old(data).connectors@[j],
        final(data).dev == old(data).dev,
        *final(data) == (MetalDrmDeviceData {
            connectors: final(data).connectors,
            ..*old(data)
        }),
        ({
            let c0 = old(data).connectors@[ci as int];
            let c1 = final(data).connectors@[ci as int];
            if !spec_present_possible(*old(data), ci as int) || (c0.has_damage
                && !render_ctx_valid) {
                r is None && c1 == (MetalConnector { present_scheduled: false, ..c0 })
            } else {
                &&& r is Some
                &&& c1 == (MetalConnector {
                    present_scheduled: false,
                    next_buffer: c1.next_buffer,
                    cursor_front_buffer: c1.cursor_front_buffer,
                    cursor_swap_buffer: c1.cursor_swap_buffer,
                    ..c0
                })
                &&& c1.wf()
                &&& r->0.flags == DRM_MODE_ATOMIC_NONBLOCK | DRM_MODE_PAGE_FLIP_EVENT
                &&& r->0.changes.wf()
                &&& (c0.has_damage ==> r->0.render == Some(
                    RenderStep {
                        buffer: c0.next_buffer,
                        copy_bridge: (if c0.next_buffer == 0 {
                            c0.buffers->0.b0.dev_tex is Some
                        } else {
                            c0.buffers->0.b1.dev_tex is Some
                        }),
                    },
                ) && c1.next_buffer == (c0.next_buffer + 1) % 2)
                &&& (c0.has_damage ==> (match crate::allocator::spec_find_plane(
                    old(data).dev.planes@,
                    c0.primary_plane->0,
                ) {
                    Some(pi) => {
                        let fb = if c0.next_buffer == 0 {
                            c0.buffers->0.b0.drm
                        } else {
                            c0.buffers->0.b1.drm
                        };
                        &&& r->0.changes.spec_props().len() >= 1
                        &&& r->0.changes.spec_props()[0] == old(
                            data,
                        ).dev.planes@[pi].fb_id.0
                        &&& r->0.changes.spec_values()[0] == fb.0 as u64
                    },
                    None => true,
                }))
                &&& (!c0.has_damage ==> r->0.render is None && c1.next_buffer == c0.next_buffer)
                &&& (!(c0.cursor_changed && c0.cursor_plane is Some && c0.cursor_buffers is Some)
                    ==> c1.cursor_front_buffer == c0.cursor_front_buffer
                    && c1.cursor_swap_buffer == c0.cursor_swap_buffer
                    && r->0.changes.spec_props().len() == (if c0.has_damage {
                        1int
                    } else {
                        0int
                    }))
                &&& ((c0.cursor_changed && c0.cursor_plane is Some && c0.cursor_buffers is Some)
                    ==> (match crate::allocator::spec_find_plane(
                    old(data).dev.planes@,
                    c0.cursor_plane->0,
                ) {
                    Some(cpi) => {
                        let cp = old(data).dev.planes@[cpi];
                        let base = if c0.has_damage {
                            1int
                        } else {
                            0int
                        };
                        let props = r->0.changes.spec_props();
                        let values = r->0.changes.spec_values();
                        if c0.cursor_enabled {
                            let front = if c0.cursor_swap_buffer {
                                (c0.cursor_front_buffer + 1) % 2
                            } else {
                                c0.cursor_front_buffer as int
                            };
                            let buf = if front == 0 {
                                c0.cursor_buffers->0.b0
                            } else {
                                c0.cursor_buffers->0.b1
                            };
                            &&& props.len() == base + 10
                            &&& values.len() == base + 10
                            &&& props[base] == cp.fb_id.0
                            &&& values[base] == buf.drm.0 as u64
                            &&& props[base + 1] == cp.crtc_id.id.0
                            &&& values[base + 1] == (c0.crtc->0).0 as u64
                            &&& props[base + 2] == cp.crtc_x.id.0
                            &&& values[base + 2] == c0.cursor_x as u64
                            &&& props[base + 3] == cp.crtc_y.id.0
                            &&& values[base + 3] == c0.cursor_y as u64
                            &&& props[base + 4] == cp.crtc_w.id.0
                            &&& values[base + 4] == buf.width as u64
                            &&& props[base + 5] == cp.crtc_h.id.0
                            &&& values[base + 5] == buf.height as u64
                            &&& props[base + 6] == cp.src_x.id.0
                            &&& values[base + 6] == 0u64
                            &&& props[base + 7] == cp.src_y.id.0
                            &&& values[base + 7] == 0u64
                            &&& props[base + 8] == cp.src_w.id.0
                            &&& values[base + 8] == (buf.width as u64) << 16u64
                            &&& props[base + 9] == cp.src_h.id.0
                            &&& values[base + 9] == (buf.height as u64) << 16u64
                        } else {
                            &&& props.len() == base + 2
                            &&& values.len() == base + 2
                            &&& props[base] == cp.fb_id.0
                            &&& values[base] == 0u64
                            &&& props[base + 1] == cp.crtc_id.id.0
                            &&& values[base + 1] == 0u64
                        }
                    },
                    None => true,
                }))
                &&& ((c0.cursor_changed && c0.cursor_plane is Some && c0.cursor_buffers is Some
                    && c0.cursor_enabled) ==> c1.cursor_swap_buffer == false && (
                c0.cursor_swap_buffer ==> c1.cursor_front_buffer == (c0.cursor_front_buffer + 1)
                    % 2) && (!c0.cursor_swap_buffer ==> c1.cursor_front_buffer
                    == c0.cursor_front_buffer))
            }
        }),
{
    let c0_has_damage = data.connectors[ci].has_damage;
    let c0_cursor_changed = data.connectors[ci].cursor_changed;
    data.connectors[ci].present_scheduled = false;
    let crtc_id = match data.connectors[ci].crtc {
        Some(id) => id,
        None => {
            return None;
        },
    };
    if (!c0_has_damage && !c0_cursor_changed) || !data.connectors[ci].can_present {
        return None;
    }
    let crtc_active = match data.dev.find_crtc(crtc_id) {
        Some(k) => {
            proof {
                lemma_find_crtc_agrees(data.dev.crtcs@, crtc_id, k as int);
            }
            data.dev.crtcs[k].active.value
        },
        None => {
            proof {
                lemma_find_crtc_none(data.dev.crtcs@, crtc_id);
            }
            false
        },
    };
    if !crtc_active {
        return None;
    }
    let plane_idx = match data.connectors[ci].primary_plane {
        Some(p) => p,
        None => {
            return None;
        },
    };
    if data.connectors[ci].buffers.is_none() {
        return None;
    }
    let mut changes = Change::new();
    let mut render: Option<RenderStep> = None;
    if c0_has_damage {
        if !render_ctx_valid {
            return None;
        }
        let idx = data.connectors[ci].next_buffer;
        data.connectors[ci].next_buffer = crate::buffer::advance_buffer_index(idx);
        let (fb, bridged) = {
            let bufs = data.connectors[ci].buffers.as_ref().unwrap();
            let buf = bufs.get(idx);
            (buf.drm, buf.dev_tex.is_some())
        };
        render = Some(RenderStep { buffer: idx, copy_bridge: bridged });
        let fb_prop = match data.dev.find_plane(plane_idx) {
            Some(pi) => {
                proof {
                    crate::allocator::lemma_find_plane_agrees(
                        data.dev.planes@,
                        plane_idx,
                        pi as int,
                    );
                }
                data.dev.planes[pi].fb_id
            },
            None => {
                proof {
                    crate::allocator::lemma_find_plane_none(data.dev.planes@, plane_idx);
                }
                crate::drm::DrmProperty(0)
            },
        };
        let mut writes: Vec<DrmPropertyValue> = Vec::new();
        writes.push(DrmPropertyValue { id: fb_prop, value: fb.0 as u64 });
        changes.change_object(plane_idx.0, &writes);
        proof {
            assert(changes.spec_values().len() == 1);
            assert(changes.spec_values()[0] == writes@[0].value);
            assert(changes.spec_props()[0] == writes@[0].id.0);
            assert(writes@[0].value == fb.0 as u64);
            assert(writes@[0].id.0 == fb_prop.0);
        }
    }
    let mut cursor_copy = false;
    if c0_cursor_changed && data.connectors[ci].cursor_plane.is_some()
        && data.connectors[ci].cursor_buffers.is_some() {
        let cursor_plane = data.connectors[ci].cursor_plane.unwrap();
        if data.connectors[ci].cursor_enabled {
            let swap = data.connectors[ci].cursor_swap_buffer;
            data.connectors[ci].cursor_swap_buffer = false;
            if swap {
                let front = data.connectors[ci].cursor_front_buffer;
                data.connectors[ci].cursor_front_buffer = crate::buffer::advance_buffer_index(
                    front,
                );
            }
            let front = data.connectors[ci].cursor_front_buffer;
            let (fb, bridged, w, h) = {
                let bufs = data.connectors[ci].cursor_buffers.as_ref().unwrap();
                let buf = bufs.get(front);
                (buf.drm, buf.dev_tex.is_some(), buf.width, buf.height)
            };
            if swap && bridged {
                cursor_copy = true;
            }
            let x = data.connectors[ci].cursor_x;
            let y = data.connectors[ci].cursor_y;
            let (cplane_props, cplane_crtc) = match data.dev.find_plane(cursor_plane) {
                Some(pi) => {
                    proof {
                        crate::allocator::lemma_find_plane_agrees(
                            data.dev.planes@,
                            cursor_plane,
                            pi as int,
                        );
                    }
                    let p = &data.dev.planes[pi];
                    (
                        (
                            p.fb_id,
                            p.crtc_id.id,
                            p.crtc_x.id,
                            p.crtc_y.id,
                            p.crtc_w.id,
                            p.crtc_h.id,
                        ),
                        (p.src_x.id, p.src_y.id, p.src_w.id, p.src_h.id),
                    )
                },
                None => {
                    proof {
                        crate::allocator::lemma_find_plane_none(data.dev.planes@, cursor_plane);
                    }
                    (
                        (
                            crate::drm::DrmProperty(0),
                            crate::drm::DrmProperty(0),
                            crate::drm::DrmProperty(0),
                            crate::drm::DrmProperty(0),
                            crate::drm::DrmProperty(0),
                            crate::drm::DrmProperty(0),
                        ),
                        (
                            crate::drm::DrmProperty(0),
                            crate::drm::DrmProperty(0),
                            crate::drm::DrmProperty(0),
                            crate::drm::DrmProperty(0),
                        ),
                    )
                },
            };
            let (fb_p, crtc_p, cx_p, cy_p, cw_p, ch_p) = cplane_props;
            let (sx_p, sy_p, sw_p, sh_p) = cplane_crtc;
            let mut writes: Vec<DrmPropertyValue> = Vec::new();
            writes.push(DrmPropertyValue { id: fb_p, value: fb.0 as u64 });
            writes.push(DrmPropertyValue { id: crtc_p, value: crtc_id.0 as u64 });
            writes.push(DrmPropertyValue { id: cx_p, value: x as u64 });
            writes.push(DrmPropertyValue { id: cy_p, value: y as u64 });
            writes.push(DrmPropertyValue { id: cw_p, value: w as u64 });
            writes.push(DrmPropertyValue { id: ch_p, value: h as u64 });
            writes.push(DrmPropertyValue { id: sx_p, value: 0 });
            writes.push(DrmPropertyValue { id: sy_p, value: 0 });
            writes.push(DrmPropertyValue { id: sw_p, value: (w as u64) << 16u64 });
            writes.push(DrmPropertyValue { id: sh_p, value: (h as u64) << 16u64 });
            changes.change_object(cursor_plane.0, &writes);
            proof {
                assert(writes@.len() == 10);
                assert(writes@[0].id.0 == fb_p.0 && writes@[0].value == fb.0 as u64);
                assert(writes@[1].id.0 == crtc_p.0 && writes@[1].value == crtc_id.0 as u64);
                assert(writes@[2].id.0 == cx_p.0 && writes@[2].value == x as u64);
                assert(writes@[3].id.0 == cy_p.0 && writes@[3].value == y as u64);
                assert(writes@[4].id.0 == cw_p.0 && writes@[4].value == w as u64);
                assert(writes@[5].id.0 == ch_p.0 && writes@[5].value == h as u64);
                assert(writes@[6].id.0 == sx_p.0 && writes@[6].value == 0u64);
                assert(writes@[7].id.0 == sy_p.0 && writes@[7].value == 0u64);
                assert(writes@[8].id.0 == sw_p.0 && writes@[8].value == (w as u64) << 16u64);
                assert(writes@[9].id.0 == sh_p.0 && writes@[9].value == (h as u64) << 16u64);
            }
        } else {
            let (fb_p, crtc_p) = match data.dev.find_plane(cursor_plane) {
                Some(pi) => {
                    proof {
                        crate::allocator::lemma_find_plane_agrees(
                            data.dev.planes@,
                            cursor_plane,
                            pi as int,
                        );
                    }
                    (data.dev.planes[pi].fb_id, data.dev.planes[pi].crtc_id.id)
                },
                None => {
                    proof {
                        crate::allocator::lemma_find_plane_none(data.dev.planes@, cursor_plane);
                    }
                    (crate::drm::DrmProperty(0), crate::drm::DrmProperty(0))
                },
            };
            let mut writes: Vec<DrmPropertyValue> = Vec::new();
            writes.push(DrmPropertyValue { id: fb_p, value: 0 });
            writes.push(DrmPropertyValue { id: crtc_p, value: 0 });
            changes.change_object(cursor_plane.0, &writes);
            proof {
                assert(writes@.len() == 2);
                assert(writes@[0].id.0 == fb_p.0 && writes@[0].value == 0u64);
                assert(writes@[1].id.0 == crtc_p.0 && writes@[1].value == 0u64);
            }
        }
    }
    Some(
        PresentPlan {
            changes,
            flags: DRM_MODE_ATOMIC_NONBLOCK | DRM_MODE_PAGE_FLIP_EVENT,
            render,
            cursor_copy,
        },
    )
}

/// Applies a present commit's outcome to the connector.  Success clears
/// both pending flags and forbids presenting until the flip-complete
/// event allows it again.  Any failure, the transient master loss like
/// every other, leaves the damage and cursor-changed flags set for a
/// retry and the permission untouched.
pub fn finish_present(conn: &mut MetalConnector, outcome: CommitOutcome)
    ensures
        outcome == CommitOutcome::Success ==> *final(conn) == (MetalConnector {
            can_present: false,
            has_damage: false,
            cursor_changed: false,
            ..*old(conn)
        }),
        outcome != CommitOutcome::Success ==> *final(conn) == *old(conn),
{
    if matches!(outcome, CommitOutcome::Success) {
        conn.can_present = false;
        conn.has_damage = false;
        conn.cursor_changed = false;
    }
}

/// What the flip-complete handler hands back for presentation feedback:
/// the connector the flip belongs to, if any, and the flip's timing.
#[derive(Copy, Clone, Debug, PartialEq, Eq, Structural)]
pub struct FlipFeedback {
    pub connector: Option<crate::backend::ConnectorId>,
    pub tv_sec: u32,
    pub tv_nsec: u64,
    pub sequence: u32,
    pub refresh: u32,
}

/// Handles a flip-complete kernel event: the connector driving the crtc
/// may present again, and is rescheduled at once if damage or a cursor
/// change is still pending.  Returns the timing for the frame's
/// presentation feedback, with no connector when the crtc or its
/// connector no longer exists.
pub fn handle_drm_flip_event(
    data: &mut MetalDrmDeviceData,
    crtc_id: DrmCrtc,
    tv_sec: u32,
    tv_usec: u32,
    sequence: u32,
) -> (r: FlipFeedback)
    requires
        spec_dev_wf(*old(data)),
        forall|j: int, k: int|
            0 <= j < k < old(data).connectors@.len() ==> (#[trigger] old(data).connectors@[j]).id
                != (#[trigger] old(data).connectors@[k]).id,
    ensures
        r.tv_sec == tv_sec,
        r.tv_nsec == tv_usec as u64 * 1000,
        r.sequence == sequence,
        ({
            let found = match spec_find_crtc(old(data).dev.crtcs@, crtc_id) {
                Some(k) => old(data).dev.crtcs@[k].connector,
                None => None,
            };
            match found {
                None => r.connector is None && *final(data) == *old(data),
                Some(conn_id) => {
                    match spec_find_connector(*old(data), conn_id) {
                        None => r.connector is None && *final(data) == *old(data),
                        Some(ci) => {
                            let c0 = old(data).connectors@[ci];
                            &&& r.connector == Some(c0.connector_id)
                            &&& r.refresh == c0.display.refresh
                            &&& final(data).connectors@ == old(data).connectors@.update(
                                ci,
                                (MetalConnector {
                                    can_present: true,
                                    present_scheduled: c0.present_scheduled || c0.has_damage
                                        || c0.cursor_changed,
                                    ..c0
                                }),
                            )
                            &&& *final(data) == (MetalDrmDeviceData {
                                connectors: final(data).connectors,
                                ..*old(data)
                            })
                        },
                    }
                },
            }
        }),
{
    let nothing = FlipFeedback {
        connector: None,
        tv_sec,
        tv_nsec: tv_usec as u64 * 1000,
        sequence,
        refresh: 0,
    };
    let k = match data.dev.find_crtc(crtc_id) {
        Some(k) => {
            proof {
                lemma_find_crtc_agrees(data.dev.crtcs@, crtc_id, k as int);
            }
            k
        },
        None => {
            proof {
                lemma_find_crtc_none(data.dev.crtcs@, crtc_id);
            }
            return nothing;
        },
    };
    let conn_id = match data.dev.crtcs[k].connector {
        Some(id) => id,
        None => {
            return nothing;
        },
    };
    let ci = match data.find_connector(conn_id) {
        Some(ci) => {
            proof {
                lemma_find_connector_agrees(*data, conn_id, ci as int);
                let j = spec_find_connector(*data, conn_id)->0;
                assert(data.connectors@[j].id == conn_id);
                assert(j == ci as int);
            }
            ci
        },
        None => {
            proof {
                lemma_find_connector_none(*data, conn_id);
            }
            return nothing;
        },
    };
    let c = &mut data.connectors[ci];
    c.can_present = true;
    if c.has_damage || c.cursor_changed {
        c.present_scheduled = true;
    }
    let r = FlipFeedback {
        connector: Some(c.connector_id),
        tv_sec,
        tv_nsec: tv_usec as u64 * 1000,
        sequence,
        refresh: c.display.refresh,
    };
    proof {
        assert(final(data).connectors@ =~= old(data).connectors@.update(
            ci as int,
            final(data).connectors@[ci as int],
        ));
    }
    r
}

/// Index of the connector with the given id, as a mathematical lookup.
pub open spec fn spec_find_connector(data: MetalDrmDeviceData, id: crate::drm::DrmConnector) -> Option<
    int,
> {
    if exists|j: int| 0 <= j < data.connectors@.len() && (#[trigger] data.connectors@[j]).id == id {
        Some(
            choose|j: int|
                0 <= j < data.connectors@.len() && (#[trigger] data.connectors@[j]).id == id,
        )
    } else {
        None
    }
}

/// An exec hit of the connector lookup agrees with the mathematical one
/// when connector ids are unique; here the witness is enough.
pub proof fn lemma_find_connector_agrees(
    data: MetalDrmDeviceData,
    id: crate::drm::DrmConnector,
    i: int,
)
    requires
        0 <= i < data.connectors@.len(),
        data.connectors@[i].id == id,
    ensures
        spec_find_connector(data, id) matches Some(j) && 0 <= j < data.connectors@.len()
            && data.connectors@[j].id == id,
{
}

/// A missed exec connector lookup pins the mathematical one to nothing.
pub proof fn lemma_find_connector_none(data: MetalDrmDeviceData, id: crate::drm::DrmConnector)
    requires
        forall|j: int| 0 <= j < data.connectors@.len() ==> data.connectors@[j].id != id,
    ensures
        spec_find_connector(data, id) is None,
{
}

} // verus!

