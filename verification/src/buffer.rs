//! Double-buffered scanout memory.
//!
//! A buffer pair always holds a front and a back buffer; the front index
//! only ever advances by one modulo two, when a caller asks for a swap.
//! When the display device is not the active render device, each buffer
//! additionally carries a bridge: a linear buffer allocated on the render
//! device, rendered into there, and imported into the display device as a
//! texture to copy from.

use vstd::prelude::*;

use crate::drm::DrmFb;

verus! {

/// Identifier of a display device of the backend.
#[derive(Copy, Clone, Debug, PartialEq, Eq, Structural, Hash)]
pub struct DrmDeviceId(pub u64);

/// Opaque handle to a GPU object (buffer object, framebuffer or texture)
/// that lives outside the crate.
#[derive(Copy, Clone, Debug, PartialEq, Eq, Structural, Hash)]
pub struct GfxHandle(pub u64);

/// Hands out fresh GPU handles; stands for whatever the driver returns.
#[derive(Clone, Debug)]
pub struct GfxHandleAlloc {
    pub next: u64,
}

impl GfxHandleAlloc {
    /// A source of fresh handles.
    pub fn new() -> (r: GfxHandleAlloc)
        ensures
            r.next == 0,
    {
        GfxHandleAlloc { next: 0 }
    }

    /// The next fresh handle.
    pub fn fresh(&mut self) -> (r: GfxHandle)
        requires
            old(self).next < u64::MAX,
        ensures
            r.0 == old(self).next,
            final(self).next == old(self).next + 1,
    {
        let r = GfxHandle(self.next);
        self.next = self.next + 1;
        r
    }
}

/// Buffer-object usage: displayable.
pub const USE_SCANOUT: u32 = 1;

/// Buffer-object usage: renderable.
pub const USE_RENDERING: u32 = 4;

/// Buffer-object usage: linear layout, importable across devices.
pub const USE_LINEAR: u32 = 16;

/// One scanout buffer and, when the display and render devices differ, the
/// bridge objects that carry rendered content across.
#[derive(Clone, Debug)]
pub struct RenderBuffer {
    /// The kernel framebuffer registered for the display device's buffer.
    pub drm: DrmFb,
    /// Framebuffer on the display device's own context.
    pub dev_fb: GfxHandle,
    /// Texture on the display device importing the bridge buffer; present
    /// exactly when a bridge is used.
    pub dev_tex: Option<GfxHandle>,
    /// Texture on the render device, sampling the rendered content.
    pub render_tex: GfxHandle,
    /// Framebuffer on the render device backing the bridge; present exactly
    /// when a bridge is used.
    pub render_fb: Option<GfxHandle>,
    /// Width in pixels.
    pub width: i32,
    /// Height in pixels.
    pub height: i32,
    /// Fourcc code the buffer was allocated with.
    pub format: u32,
    /// Usage bits the display-device buffer object was allocated with.
    pub usage: u32,
}

impl RenderBuffer {
    /// True iff the buffer routes rendering through a bridge buffer on the
    /// render device.
    pub open spec fn spec_bridged(&self) -> bool {
        self.dev_tex is Some
    }

    /// A well-formed buffer has a bridge framebuffer exactly when it has a
    /// bridge texture.
    pub open spec fn wf(&self) -> bool {
        self.dev_tex is Some <==> self.render_fb is Some
    }

    /// The framebuffer to render the frame into: the bridge framebuffer on
    /// the render device when one exists, else the display device's own.
    pub fn render_fb(&self) -> (r: GfxHandle)
        ensures
            self.render_fb is Some ==> r == self.render_fb->0,
            self.render_fb is None ==> r == self.dev_fb,
    {
        match self.render_fb {
            Some(fb) => fb,
            None => self.dev_fb,
        }
    }
}

/// A front/back pair of scanout buffers.
#[derive(Clone, Debug)]
pub struct RenderBufferPair {
    pub b0: RenderBuffer,
    pub b1: RenderBuffer,
}

impl RenderBufferPair {
    /// Both buffers of a well-formed pair are well formed.
    pub open spec fn wf(&self) -> bool {
        self.b0.wf() && self.b1.wf()
    }

    /// The buffer at a front index.
    pub fn get(&self, idx: u8) -> (r: &RenderBuffer)
        requires
            idx < 2,
        ensures
            idx == 0 ==> r == &self.b0,
            idx == 1 ==> r == &self.b1,
    {
        if idx == 0 {
            &self.b0
        } else {
            &self.b1
        }
    }
}

/// Advances a double-buffer index: plus one, modulo two.
pub fn advance_buffer_index(idx: u8) -> (r: u8)
    requires
        idx < 2,
    ensures
        r == (idx + 1) % 2,
        r < 2,
{
    (idx + 1) % 2
}

/// The front index reached from `start` after `n` swap requests, each of
/// which advances the index by one modulo two.
pub open spec fn spec_front_after_swaps(start: nat, n: nat) -> nat
    decreases n,
{
    if n == 0 {
        start % 2
    } else {
        (spec_front_after_swaps(start, (n - 1) as nat) + 1) % 2
    }
}

/// After `n` buffer-swap requests from front index zero, the front index is
/// exactly `n` modulo two.
pub proof fn lemma_front_index_after_swaps(n: nat)
    ensures
        spec_front_after_swaps(0, n) == n % 2,
    decreases n,
{
    if n > 0 {
        lemma_front_index_after_swaps((n - 1) as nat);
    }
}

/// Allocates one scanout buffer on the display device, with a bridge on the
/// render device exactly when the two devices differ.  The GPU calls behind
/// this are performed outside the crate; the handles stand for their
/// results.
pub fn create_scanout_buffer(
    dev_id: DrmDeviceId,
    render_dev_id: DrmDeviceId,
    ids: &mut GfxHandleAlloc,
    drm_fb: DrmFb,
    width: i32,
    height: i32,
    format: u32,
    cursor: bool,
) -> (r: RenderBuffer)
    requires
        old(ids).next + 8 < u64::MAX,
    ensures
        r.wf(),
        r.width == width,
        r.height == height,
        r.format == format,
        r.drm == drm_fb,
        r.spec_bridged() <==> dev_id != render_dev_id,
        dev_id != render_dev_id ==> r.render_fb is Some,
        dev_id == render_dev_id ==> r.render_fb is None,
        r.usage & USE_SCANOUT != 0,
        r.usage & USE_RENDERING != 0,
        cursor ==> r.usage & USE_LINEAR != 0,
{
    let usage: u32 = if cursor {
        USE_RENDERING + USE_SCANOUT + USE_LINEAR
    } else {
        USE_RENDERING + USE_SCANOUT
    };
    proof {
        assert(21u32 & 1u32 != 0 && 21u32 & 4u32 != 0 && 21u32 & 16u32 != 0) by (bit_vector);
        assert(5u32 & 1u32 != 0 && 5u32 & 4u32 != 0) by (bit_vector);
    }
    let dev_fb = ids.fresh();
    if dev_id == render_dev_id {
        let render_tex = ids.fresh();
        RenderBuffer {
            drm: drm_fb,
            dev_fb,
            dev_tex: None,
            render_tex,
            render_fb: None,
            width,
            height,
            format,
            usage,
        }
    } else {
        let render_fb = ids.fresh();
        let render_tex = ids.fresh();
        let dev_tex = ids.fresh();
        RenderBuffer {
            drm: drm_fb,
            dev_fb,
            dev_tex: Some(dev_tex),
            render_tex,
            render_fb: Some(render_fb),
            width,
            height,
            format,
            usage,
        }
    }
}

} // verus!
