//! The compositor's own client-side protocol objects, used when it talks
//! to another compositor: each object turns calls into queued requests.

use vstd::prelude::*;

use crate::client::ObjectId;

verus! {

/// A request queued on an outgoing connection.
#[derive(Copy, Clone, Debug, PartialEq, Eq, Structural)]
pub enum UsrRequest {
    LayerSurfaceSetSize { self_id: ObjectId, width: u32, height: u32 },
    LayerSurfaceSetKeyboardInteractivity { self_id: ObjectId, keyboard_interactivity: u32 },
    LayerSurfaceSetLayer { self_id: ObjectId, layer: u32 },
    LayerSurfaceAckConfigure { self_id: ObjectId, serial: u32 },
    ShmPoolResize { self_id: ObjectId, size: i32 },
    Destroy { self_id: ObjectId },
}

/// An outgoing connection: the requests queued on it, oldest first.
#[derive(Clone, Debug)]
pub struct UsrCon {
    pub requests: Vec<UsrRequest>,
}

impl UsrCon {
    /// A connection with nothing queued.
    pub fn new() -> (r: UsrCon)
        ensures
            r.requests@.len() == 0,
    {
        UsrCon { requests: Vec::new() }
    }

    /// Queues one request.
    pub fn request(&mut self, r: UsrRequest)
        ensures
            final(self).requests@ == old(self).requests@.push(r),
    {
        self.requests.push(r);
    }
}

/// A layer surface on the outgoing connection.
#[derive(Clone, Debug)]
pub struct UsrWlrLayerSurface {
    pub id: ObjectId,
}

/// What the owner of a layer surface hears back.
pub trait UsrWlrLayerSurfaceOwner {
    /// The server configured the surface.
    fn configure(&self, width: u32, height: u32, serial: u32) {
        let _ = width;
        let _ = height;
        let _ = serial;
    }

    /// The server closed the surface.
    fn closed(&self) {
    }
}

impl UsrWlrLayerSurface {
    /// Requests a surface size; negative values wrap into the wire's
    /// unsigned fields as the protocol prescribes.
    pub fn set_size(&self, con: &mut UsrCon, width: i32, height: i32)
        requires
            width >= 0,
            height >= 0,
        ensures
            final(con).requests@ == old(con).requests@.push(
                UsrRequest::LayerSurfaceSetSize {
                    self_id: self.id,
                    width: width as u32,
                    height: height as u32,
                },
            ),
    {
        con.request(
            UsrRequest::LayerSurfaceSetSize {
                self_id: self.id,
                width: width as u32,
                height: height as u32,
            },
        );
    }

    /// Requests a keyboard-interactivity mode.
    pub fn set_keyboard_interactivity(&self, con: &mut UsrCon, ki: u32)
        ensures
            final(con).requests@ == old(con).requests@.push(
                UsrRequest::LayerSurfaceSetKeyboardInteractivity {
                    self_id: self.id,
                    keyboard_interactivity: ki,
                },
            ),
    {
        con.request(
            UsrRequest::LayerSurfaceSetKeyboardInteractivity {
                self_id: self.id,
                keyboard_interactivity: ki,
            },
        );
    }

    /// Requests a layer.
    pub fn set_layer(&self, con: &mut UsrCon, layer: u32)
        ensures
            final(con).requests@ == old(con).requests@.push(
                UsrRequest::LayerSurfaceSetLayer { self_id: self.id, layer },
            ),
    {
        con.request(UsrRequest::LayerSurfaceSetLayer { self_id: self.id, layer });
    }
}

/// A shared-memory pool on the outgoing connection.
#[derive(Clone, Debug)]
pub struct UsrWlShmPool {
    pub id: ObjectId,
    pub version: u32,
}

impl UsrWlShmPool {
    /// Requests a pool resize.
    pub fn resize(&self, con: &mut UsrCon, size: i32)
        ensures
            final(con).requests@ == old(con).requests@.push(
                UsrRequest::ShmPoolResize { self_id: self.id, size },
            ),
    {
        con.request(UsrRequest::ShmPoolResize { self_id: self.id, size });
    }
}

/// A workspace handle on the outgoing connection.
#[derive(Clone, Debug)]
pub struct UsrJayWorkspace {
    pub id: ObjectId,
}

/// What the owner of a workspace handle hears back.
pub trait UsrJayWorkspaceOwner {
    /// The workspace's stable id.
    fn linear_id(&self, linear_id: u32) {
        let _ = linear_id;
    }

    /// The workspace's name.
    fn name(&self, name: &str) {
        let _ = name;
    }

    /// The workspace is gone.
    fn destroyed(&self) {
    }

    /// The initial burst of events is over.
    fn done(&self) {
    }

    /// The workspace moved to an output.
    fn output(&self, global_name: u32) {
        let _ = global_name;
    }

    /// The workspace's visibility changed.
    fn visible(&self, visible: bool) {
        let _ = visible;
    }
}

} // verus!
