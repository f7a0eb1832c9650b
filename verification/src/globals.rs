//! The singleton protocol globals: each pairs a registry name with the
//! objects clients bind from it.

use vstd::prelude::*;

use crate::client::ObjectId;

verus! {

/// Registry name of a global.
#[derive(Copy, Clone, Debug, PartialEq, Eq, Structural, Hash)]
pub struct GlobalName(pub u32);

/// The idle-notifier global.
#[derive(Clone, Debug)]
pub struct ExtIdleNotifierV1Global {
    pub name: GlobalName,
}

/// One bound idle notifier: its object and the timeout it watches, in
/// milliseconds.
#[derive(Clone, Debug)]
pub struct ExtIdleNotifierV1 {
    pub id: ObjectId,
    pub timeout_ms: u64,
}

/// Errors of the idle-notifier requests.
#[derive(Clone, Debug)]
pub enum ExtIdleNotifierV1Error {
    /// The client went away while handling a request.
    ClientError,
}

impl ExtIdleNotifierV1Global {
    /// The global under a registry name.
    pub fn new(name: GlobalName) -> (r: ExtIdleNotifierV1Global)
        ensures
            r.name == name,
    {
        ExtIdleNotifierV1Global { name }
    }
}

/// The data-control manager global.
#[derive(Clone, Debug)]
pub struct ZwlrDataControlManagerV1Global {
    pub name: GlobalName,
}

/// One bound data-control manager.
#[derive(Clone, Debug)]
pub struct ZwlrDataControlManagerV1 {
    pub id: ObjectId,
    pub version: u32,
}

/// Errors of the data-control requests.
#[derive(Clone, Debug)]
pub enum ZwlrDataControlManagerV1Error {
    /// The client went away while handling a request.
    ClientError,
}

impl ZwlrDataControlManagerV1Global {
    /// The global under a registry name.
    pub fn new(name: GlobalName) -> (r: ZwlrDataControlManagerV1Global)
        ensures
            r.name == name,
    {
        ZwlrDataControlManagerV1Global { name }
    }
}

/// The compositor's own control global.
#[derive(Clone, Debug)]
pub struct JayCompositorGlobal {
    pub name: GlobalName,
}

/// One bound control object.
#[derive(Clone, Debug)]
pub struct JayCompositor {
    pub id: ObjectId,
    pub version: u32,
}

/// Errors of the control requests.
#[derive(Clone, Debug)]
pub enum JayCompositorError {
    /// The client went away while handling a request.
    ClientError,
}

impl JayCompositorGlobal {
    /// The global under a registry name.
    pub fn new(name: GlobalName) -> (r: JayCompositorGlobal)
        ensures
            r.name == name,
    {
        JayCompositorGlobal { name }
    }
}

/// The damage-visualizer global.
#[derive(Clone, Debug)]
pub struct JayDamageTrackingGlobal {
    pub name: GlobalName,
}

/// One bound damage-visualizer object.
#[derive(Clone, Debug)]
pub struct JayDamageTracking {
    pub id: ObjectId,
    pub version: u32,
}

/// Errors of the damage-visualizer requests.
#[derive(Clone, Debug)]
pub enum JayDamageTrackingError {
    /// The client went away while handling a request.
    ClientError,
}

impl JayDamageTrackingGlobal {
    /// The global under a registry name.
    pub fn new(name: GlobalName) -> (r: JayDamageTrackingGlobal)
        ensures
            r.name == name,
    {
        JayDamageTrackingGlobal { name }
    }
}

/// The content-type manager global.
#[derive(Clone, Debug)]
pub struct WpContentTypeManagerV1Global {
    pub name: GlobalName,
}

/// One bound content-type manager.
#[derive(Clone, Debug)]
pub struct WpContentTypeManagerV1 {
    pub id: ObjectId,
    pub version: u32,
}

/// Errors of the content-type requests.
#[derive(Clone, Debug)]
pub enum WpContentTypeManagerV1Error {
    /// A surface already has a content type attached.
    AlreadyExists,
    /// The client went away while handling a request.
    ClientError,
}

impl WpContentTypeManagerV1Global {
    /// The global under a registry name.
    pub fn new(name: GlobalName) -> (r: WpContentTypeManagerV1Global)
        ensures
            r.name == name,
    {
        WpContentTypeManagerV1Global { name }
    }
}

/// The activation global.
#[derive(Clone, Debug)]
pub struct XdgActivationV1Global {
    pub name: GlobalName,
}

/// One bound activation object.
#[derive(Clone, Debug)]
pub struct XdgActivationV1 {
    pub id: ObjectId,
    pub version: u32,
}

/// Errors of the activation requests.
#[derive(Clone, Debug)]
pub enum XdgActivationV1Error {
    /// The client went away while handling a request.
    ClientError,
}

impl XdgActivationV1Global {
    /// The global under a registry name.
    pub fn new(name: GlobalName) -> (r: XdgActivationV1Global)
        ensures
            r.name == name,
    {
        XdgActivationV1Global { name }
    }
}

} // verus!
