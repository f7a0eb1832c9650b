//! The display object of a client connection: protocol error reporting and
//! id recycling.

use vstd::prelude::*;

use crate::client::{Client, ObjectId, WireEvent, spec_decimal, u64_to_string};

verus! {

/// The fixed object id of the display.
pub const WL_DISPLAY_ID: u64 = 1;

/// Protocol error code: the object does not exist.
pub const ERROR_INVALID_OBJECT: u32 = 0;

/// Protocol error code: the object has no such method.
pub const ERROR_INVALID_METHOD: u32 = 1;

/// Protocol error code: a compositor bug.
pub const ERROR_IMPLEMENTATION: u32 = 3;

/// The display object of one client.
#[derive(Clone, Debug)]
pub struct WlDisplay {
    pub id: ObjectId,
}

/// Errors of the display requests.
#[derive(Clone, Debug)]
pub enum WlDisplayError {
    /// The client went away while handling a request.
    ClientError,
}

impl WlDisplay {
    /// The display object, at its fixed id.
    pub fn new() -> (r: WlDisplay)
        ensures
            r.id.0 == WL_DISPLAY_ID,
    {
        WlDisplay { id: ObjectId(WL_DISPLAY_ID) }
    }

    /// Reports a protocol error on an object.
    pub fn send_error(&self, client: &mut Client, object_id: ObjectId, code: u32, message: &str)
        ensures
            final(client).events@.len() == old(client).events@.len() + 1,
            final(client).events@.take(old(client).events@.len() as int) == old(client).events@,
            final(client).events@.last() matches WireEvent::DisplayError {
                self_id: sid,
                object_id: oid,
                code: c,
                message: m,
            } && sid == self.id && oid == object_id && c == code && m@ == message@,
    {
        client.event(
            WireEvent::DisplayError {
                self_id: self.id,
                object_id,
                code,
                message: String::from_str(message),
            },
        );
        proof {
            assert(client.events@.take(old(client).events@.len() as int) =~= old(client).events@);
        }
    }

    /// Reports that a request number does not exist on an object.
    pub fn send_invalid_request(
        &self,
        client: &mut Client,
        obj: ObjectId,
        interface: &str,
        request: u32,
    )
        ensures
            final(client).events@.len() == old(client).events@.len() + 1,
            final(client).events@.last() matches WireEvent::DisplayError {
                self_id: sid,
                object_id: oid,
                code,
                message: m,
            } && sid == self.id && oid == obj && code == ERROR_INVALID_METHOD && m@ == "Object "@
                + spec_decimal(obj.0) + " of type "@ + interface@ + " has no method "@
                + spec_decimal(request as u64),
    {
        proof {
            reveal_strlit("Object ");
            reveal_strlit(" of type ");
            reveal_strlit(" has no method ");
        }
        let mut msg = String::from_str("Object ");
        let id_str = u64_to_string(obj.0);
        msg.append(id_str.as_str());
        msg.append(" of type ");
        msg.append(interface);
        msg.append(" has no method ");
        let req_str = u64_to_string(request as u64);
        msg.append(req_str.as_str());
        self.send_error(client, obj, ERROR_INVALID_METHOD, msg.as_str());
    }

    /// Reports that an object id names nothing.
    pub fn send_invalid_object(&self, client: &mut Client, id: ObjectId)
        ensures
            final(client).events@.len() == old(client).events@.len() + 1,
            final(client).events@.last() matches WireEvent::DisplayError {
                self_id: sid,
                object_id: oid,
                code,
                message: m,
            } && sid == self.id && oid == id && code == ERROR_INVALID_OBJECT && m@ == "Object "@
                + spec_decimal(id.0) + " does not exist"@,
    {
        proof {
            reveal_strlit("Object ");
            reveal_strlit(" does not exist");
        }
        let mut msg = String::from_str("Object ");
        let id_str = u64_to_string(id.0);
        msg.append(id_str.as_str());
        msg.append(" does not exist");
        self.send_error(client, id, ERROR_INVALID_OBJECT, msg.as_str());
    }

    /// Reports a compositor-side bug to the client.
    pub fn send_implementation_error(&self, client: &mut Client, msg: String)
        ensures
            final(client).events@.len() == old(client).events@.len() + 1,
            final(client).events@.last() matches WireEvent::DisplayError {
                self_id: sid,
                object_id: oid,
                code,
                message: m,
            } && sid == self.id && oid == self.id && code == ERROR_IMPLEMENTATION && m@ == msg@,
    {
        self.send_error(client, self.id, ERROR_IMPLEMENTATION, msg.as_str());
    }

    /// Tells the client an object id may be reused.
    pub fn send_delete_id(&self, client: &mut Client, id: ObjectId)
        ensures
            final(client).events@ == old(client).events@.push(
                WireEvent::DisplayDeleteId { self_id: self.id, id: id.0 },
            ),
    {
        client.event(WireEvent::DisplayDeleteId { self_id: self.id, id: id.0 });
    }
}

} // verus!
