//! The pixel formats the backend scans out: fourcc codes, wire ids and the
//! properties the allocator and the buffer manager select formats by.

use vstd::prelude::*;

verus! {

/// Fourcc code of the opaque 32-bit format used for primary planes.
pub const XRGB8888_DRM: u32 = 0x34325258;

/// Fourcc code of the alpha-capable 32-bit format used for cursor planes.
pub const ARGB8888_DRM: u32 = 0x34325241;

/// Wire id of the alpha-capable format in the shared-memory interface.
pub const ARGB8888_WL_ID: u32 = 0;

/// Wire id of the opaque format in the shared-memory interface.
pub const XRGB8888_WL_ID: u32 = 1;

/// One pixel format: its names in the kernel, wire and video interfaces and
/// the capabilities the backend cares about.
#[derive(Clone, Copy, Debug)]
pub struct Format {
    pub name: &'static str,
    pub bpp: u32,
    pub gl_format: i32,
    pub gl_type: i32,
    pub drm: u32,
    pub wl_id: Option<u32>,
    pub external_only_guess: bool,
    pub has_alpha: bool,
    pub shm_supported: bool,
    pub pipewire: u32,
}

/// Maps a wire format id to the kernel's fourcc code.  The two 32-bit
/// formats have dedicated wire ids; every other id is already a fourcc code.
pub fn map_wayland_format_id(id: u32) -> (r: u32)
    ensures
        id == ARGB8888_WL_ID ==> r == ARGB8888_DRM,
        id == XRGB8888_WL_ID ==> r == XRGB8888_DRM,
        id != ARGB8888_WL_ID && id != XRGB8888_WL_ID ==> r == id,
{
    if id == ARGB8888_WL_ID {
        ARGB8888_DRM
    } else if id == XRGB8888_WL_ID {
        XRGB8888_DRM
    } else {
        id
    }
}

/// The four bytes of a fourcc code as characters, least significant first.
pub fn debug(fourcc: u32) -> (r: Vec<char>)
    ensures
        r@.len() == 4,
        r@[0] == (fourcc as u8) as char,
        r@[1] == ((fourcc >> 8) as u8) as char,
        r@[2] == ((fourcc >> 16) as u8) as char,
        r@[3] == ((fourcc >> 24) as u8) as char,
{
    let mut v: Vec<char> = Vec::new();
    v.push(fourcc as u8 as char);
    v.push((fourcc >> 8) as u8 as char);
    v.push((fourcc >> 16) as u8 as char);
    v.push((fourcc >> 24) as u8 as char);
    v
}

/// The alpha-capable 32-bit format.
pub fn argb8888() -> (r: Format)
    ensures
        r.drm == ARGB8888_DRM,
        r.has_alpha,
        r.wl_id == Some(ARGB8888_WL_ID),
        r.bpp == 4,
        r.shm_supported,
{
    Format {
        name: "argb8888",
        bpp: 4,
        gl_format: 0x80e1,
        gl_type: 0x1401,
        drm: ARGB8888_DRM,
        wl_id: Some(ARGB8888_WL_ID),
        external_only_guess: false,
        has_alpha: true,
        shm_supported: true,
        pipewire: 16,
    }
}

/// The opaque 32-bit format.
pub fn xrgb8888() -> (r: Format)
    ensures
        r.drm == XRGB8888_DRM,
        !r.has_alpha,
        r.wl_id == Some(XRGB8888_WL_ID),
        r.bpp == 4,
        r.shm_supported,
{
    Format {
        name: "xrgb8888",
        bpp: 4,
        gl_format: 0x80e1,
        gl_type: 0x1401,
        drm: XRGB8888_DRM,
        wl_id: Some(XRGB8888_WL_ID),
        external_only_guess: false,
        has_alpha: false,
        shm_supported: true,
        pipewire: 15,
    }
}

/// The abgr variant of the alpha-capable format, kept for shared memory.
fn abgr8888() -> (r: Format)
    ensures
        r.drm == 0x34324241,
        r.has_alpha,
{
    Format {
        name: "abgr8888",
        bpp: 4,
        gl_format: 0x1908,
        gl_type: 0x1401,
        drm: 0x34324241,
        wl_id: None,
        external_only_guess: false,
        has_alpha: true,
        shm_supported: true,
        pipewire: 12,
    }
}

/// The xbgr variant of the opaque format, kept for shared memory.
fn xbgr8888() -> (r: Format)
    ensures
        r.drm == 0x34324258,
        !r.has_alpha,
{
    Format {
        name: "xbgr8888",
        bpp: 4,
        gl_format: 0x1908,
        gl_type: 0x1401,
        drm: 0x34324258,
        wl_id: None,
        external_only_guess: false,
        has_alpha: false,
        shm_supported: true,
        pipewire: 11,
    }
}

/// Every format the backend recognizes.  Planes whose format list shares no
/// entry with this table are dropped at enumeration time.
pub fn formats() -> (r: Vec<Format>)
    ensures
        r@.len() == 4,
        r@[0].drm == ARGB8888_DRM,
        r@[1].drm == XRGB8888_DRM,
        r@[0].has_alpha,
        !r@[1].has_alpha,
        forall|i: int, j: int| 0 <= i < j < r@.len() ==> r@[i].drm != r@[j].drm,
{
    let mut v: Vec<Format> = Vec::new();
    v.push(argb8888());
    v.push(xrgb8888());
    v.push(abgr8888());
    v.push(xbgr8888());
    v
}

} // verus!
