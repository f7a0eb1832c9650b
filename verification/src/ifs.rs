//! Small protocol objects: frame callbacks, screen copies, screenshots and
//! fractional scaling.

use vstd::prelude::*;

use crate::client::{Client, ObjectId, WireEvent};
use crate::format::{XRGB8888_DRM, XRGB8888_WL_ID};
use crate::rect::Rect;

verus! {

/// A one-shot frame callback.
#[derive(Clone, Debug)]
pub struct WlCallback {
    pub id: ObjectId,
}

/// Errors of the callback object; it has no requests of its own, so only
/// the connection can fail.
#[derive(Clone, Debug)]
pub enum WlCallbackError {
    /// The client went away.
    ClientError,
}

impl WlCallback {
    /// A callback at the given id.
    pub fn new(id: ObjectId) -> (r: WlCallback)
        ensures
            r.id == id,
    {
        WlCallback { id }
    }

    /// Fires the callback.
    pub fn send_done(&self, client: &mut Client, data: u32)
        ensures
            final(client).events@ == old(client).events@.push(
                WireEvent::CallbackDone { self_id: self.id, callback_data: data },
            ),
    {
        client.event(WireEvent::CallbackDone { self_id: self.id, callback_data: data });
    }
}

/// One screen-copy frame: the region to copy and the request state.
#[derive(Clone, Debug)]
pub struct ZwlrScreencopyFrameV1 {
    pub id: ObjectId,
    pub rect: Rect,
    pub overlay_cursor: bool,
    pub used: bool,
    pub with_damage: bool,
    pub buffer: Option<ObjectId>,
    pub version: u32,
}

/// Errors of the screen-copy requests.
#[derive(Clone, Debug)]
pub enum ZwlrScreencopyFrameV1Error {
    /// The frame has already been used.
    AlreadyUsed,
    /// The buffer has the wrong size for the frame.
    InvalidBufferSize,
    /// The buffer has the wrong stride for the frame.
    InvalidBufferStride,
    /// The buffer has the wrong format.
    InvalidBufferFormat,
}

impl ZwlrScreencopyFrameV1 {
    /// Reports the copy as done, with its timestamp split into the wire's
    /// high and low words.
    pub fn send_ready(&self, client: &mut Client, tv_sec: u64, tv_nsec: u32)
        ensures
            final(client).events@ == old(client).events@.push(
                WireEvent::ScreencopyReady {
                    self_id: self.id,
                    tv_sec_hi: (tv_sec >> 32u64) as u32,
                    tv_sec_lo: tv_sec as u32,
                    tv_nsec,
                },
            ),
    {
        client.event(
            WireEvent::ScreencopyReady {
                self_id: self.id,
                tv_sec_hi: (tv_sec >> 32u64) as u32,
                tv_sec_lo: tv_sec as u32,
                tv_nsec,
            },
        );
    }

    /// Reports the copy as failed.
    pub fn send_failed(&self, client: &mut Client)
        ensures
            final(client).events@ == old(client).events@.push(
                WireEvent::ScreencopyFailed { self_id: self.id },
            ),
    {
        client.event(WireEvent::ScreencopyFailed { self_id: self.id });
    }

    /// Reports the damaged region: the whole output, when one exists.
    pub fn send_damage(&self, client: &mut Client, output_pos: Option<&Rect>)
        requires
            output_pos matches Some(p) ==> p.wf(),
        ensures
            match output_pos {
                Some(p) => final(client).events@ == old(client).events@.push(
                    WireEvent::ScreencopyDamage {
                        self_id: self.id,
                        x: 0,
                        y: 0,
                        width: (p.spec_x2() - p.spec_x1()) as i32,
                        height: (p.spec_y2() - p.spec_y1()) as i32,
                    },
                ),
                None => final(client).events@ == old(client).events@,
            },
    {
        if let Some(pos) = output_pos {
            client.event(
                WireEvent::ScreencopyDamage {
                    self_id: self.id,
                    x: 0,
                    y: 0,
                    width: pos.width(),
                    height: pos.height(),
                },
            );
        }
    }

    /// Announces the shared-memory buffer parameters the client must
    /// supply: the opaque format, the frame size and a packed stride.
    pub fn send_buffer(&self, client: &mut Client)
        requires
            self.rect.wf(),
            self.rect.spec_x2() - self.rect.spec_x1() <= 0x1fff_ffff,
        ensures
            final(client).events@ == old(client).events@.push(
                WireEvent::ScreencopyBuffer {
                    self_id: self.id,
                    format: XRGB8888_WL_ID,
                    width: (self.rect.spec_x2() - self.rect.spec_x1()) as u32,
                    height: (self.rect.spec_y2() - self.rect.spec_y1()) as u32,
                    stride: ((self.rect.spec_x2() - self.rect.spec_x1()) * 4) as u32,
                },
            ),
    {
        let width = self.rect.width();
        client.event(
            WireEvent::ScreencopyBuffer {
                self_id: self.id,
                format: XRGB8888_WL_ID,
                width: width as u32,
                height: self.rect.height() as u32,
                stride: width as u32 * 4,
            },
        );
    }

    /// Announces the dmabuf parameters the client must supply.
    pub fn send_linux_dmabuf(&self, client: &mut Client)
        requires
            self.rect.wf(),
        ensures
            final(client).events@ == old(client).events@.push(
                WireEvent::ScreencopyLinuxDmabuf {
                    self_id: self.id,
                    format: XRGB8888_DRM,
                    width: (self.rect.spec_x2() - self.rect.spec_x1()) as u32,
                    height: (self.rect.spec_y2() - self.rect.spec_y1()) as u32,
                },
            ),
    {
        client.event(
            WireEvent::ScreencopyLinuxDmabuf {
                self_id: self.id,
                format: XRGB8888_DRM,
                width: self.rect.width() as u32,
                height: self.rect.height() as u32,
            },
        );
    }

    /// Announces that every buffer parameter has been sent.
    pub fn send_buffer_done(&self, client: &mut Client)
        ensures
            final(client).events@ == old(client).events@.push(
                WireEvent::ScreencopyBufferDone { self_id: self.id },
            ),
    {
        client.event(WireEvent::ScreencopyBufferDone { self_id: self.id });
    }

    /// Announces the copy's flags.
    pub fn send_flags(&self, client: &mut Client, flags: u32)
        ensures
            final(client).events@ == old(client).events@.push(
                WireEvent::ScreencopyFlags { self_id: self.id, flags },
            ),
    {
        client.event(WireEvent::ScreencopyFlags { self_id: self.id, flags });
    }
}

/// An in-flight screenshot request.
#[derive(Clone, Debug)]
pub struct JayScreenshot {
    pub id: ObjectId,
}

impl JayScreenshot {
    /// Reports the screenshot as failed, with the reason.
    pub fn send_error(&self, client: &mut Client, msg: &str)
        ensures
            final(client).events@.len() == old(client).events@.len() + 1,
            final(client).events@.take(old(client).events@.len() as int) == old(client).events@,
            final(client).events@.last() matches WireEvent::ScreenshotError {
                self_id: sid,
                msg: m,
            } && sid == self.id && m@ == msg@,
    {
        client.event(WireEvent::ScreenshotError { self_id: self.id, msg: String::from_str(msg) });
        proof {
            assert(client.events@.take(old(client).events@.len() as int) =~= old(client).events@);
        }
    }
}

/// How a surface rounds fractional sizes.
#[derive(Copy, Clone, PartialEq, Eq, Structural, Debug)]
pub enum RoundingAlgorithm {
    PositionDependent,
    PositionIndependent,
}

/// Wire value of position-independent rounding.
pub const ROUND_POSITION_INDEPENDENT: u32 = 0;

/// Wire value of position-dependent rounding.
pub const ROUND_POSITION_DEPENDENT: u32 = 1;

/// Errors of the fractional-scale requests.
#[derive(Clone, Debug)]
pub enum WpFractionalScaleError {
    /// The surface already has a fractional-scale extension attached.
    Exists,
    /// An unknown rounding algorithm.
    UnknownRoundingAlgorithm(u32),
}

/// The fractional-scale extension of one surface.
#[derive(Clone, Debug)]
pub struct WpFractionalScaleV1 {
    pub id: ObjectId,
    pub surface: ObjectId,
}

impl WpFractionalScaleV1 {
    /// The extension object for a surface.
    pub fn new(id: ObjectId, surface: ObjectId) -> (r: WpFractionalScaleV1)
        ensures
            r.id == id,
            r.surface == surface,
    {
        WpFractionalScaleV1 { id, surface }
    }

    /// Attaches the extension to its surface's slot; a surface can hold at
    /// most one.
    pub fn install(&self, slot: &mut Option<ObjectId>) -> (r: Result<(), WpFractionalScaleError>)
        ensures
            (*old(slot)) is Some ==> (r matches Err(e) && e is Exists && *final(slot) == *old(slot)),
            (*old(slot)) is None ==> (r is Ok && *final(slot) == Some(self.id)),
    {
        if slot.is_some() {
            return Err(WpFractionalScaleError::Exists);
        }
        *slot = Some(self.id);
        Ok(())
    }

    /// Tells the surface its preferred scale, in 120ths.
    pub fn send_preferred_scale(&self, client: &mut Client, scale: u32)
        ensures
            final(client).events@ == old(client).events@.push(
                WireEvent::PreferredScale { self_id: self.id, scale },
            ),
    {
        client.event(WireEvent::PreferredScale { self_id: self.id, scale });
    }

    /// Decodes a requested rounding algorithm; an unknown value is
    /// rejected.
    pub fn rounding_algorithm(v: u32) -> (r: Result<RoundingAlgorithm, WpFractionalScaleError>)
        ensures
            v == ROUND_POSITION_INDEPENDENT ==> r == Ok::<_, WpFractionalScaleError>(
                RoundingAlgorithm::PositionIndependent,
            ),
            v == ROUND_POSITION_DEPENDENT ==> r == Ok::<_, WpFractionalScaleError>(
                RoundingAlgorithm::PositionDependent,
            ),
            v > 1 ==> (r matches Err(e) && e matches
                WpFractionalScaleError::UnknownRoundingAlgorithm(w) && w == v),
    {
        if v == ROUND_POSITION_INDEPENDENT {
            Ok(RoundingAlgorithm::PositionIndependent)
        } else if v == ROUND_POSITION_DEPENDENT {
            Ok(RoundingAlgorithm::PositionDependent)
        } else {
            Err(WpFractionalScaleError::UnknownRoundingAlgorithm(v))
        }
    }
}

} // verus!
