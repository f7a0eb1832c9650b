//! The client-facing edge of the protocol objects, as data: a client is a
//! queue of outgoing events, and sending a message appends it.  The wire
//! encoding and the socket live outside this crate.

use vstd::prelude::*;

verus! {

/// Id of a protocol object within one client connection.
#[derive(Copy, Clone, Debug, PartialEq, Eq, Structural, Hash)]
pub struct ObjectId(pub u64);

/// An event queued for a client, with the object it belongs to.
#[derive(Clone, Debug)]
pub enum WireEvent {
    DisplayError { self_id: ObjectId, object_id: ObjectId, code: u32, message: String },
    DisplayDeleteId { self_id: ObjectId, id: u64 },
    CallbackDone { self_id: ObjectId, callback_data: u32 },
    PreferredScale { self_id: ObjectId, scale: u32 },
    ScreencopyReady { self_id: ObjectId, tv_sec_hi: u32, tv_sec_lo: u32, tv_nsec: u32 },
    ScreencopyFailed { self_id: ObjectId },
    ScreencopyDamage { self_id: ObjectId, x: i32, y: i32, width: i32, height: i32 },
    ScreencopyBuffer { self_id: ObjectId, format: u32, width: u32, height: u32, stride: u32 },
    ScreencopyLinuxDmabuf { self_id: ObjectId, format: u32, width: u32, height: u32 },
    ScreencopyBufferDone { self_id: ObjectId },
    ScreencopyFlags { self_id: ObjectId, flags: u32 },
    ScreenshotError { self_id: ObjectId, msg: String },
}

/// One client connection: the events queued for it, oldest first.
#[derive(Clone, Debug)]
pub struct Client {
    pub events: Vec<WireEvent>,
}

impl Client {
    /// A connection with nothing queued.
    pub fn new() -> (r: Client)
        ensures
            r.events@.len() == 0,
    {
        Client { events: Vec::new() }
    }

    /// Queues one event.
    pub fn event(&mut self, e: WireEvent)
        ensures
            final(self).events@ == old(self).events@.push(e),
    {
        self.events.push(e);
    }
}

/// The decimal digits of a number, most significant first.
pub open spec fn spec_decimal(n: u64) -> Seq<char>
    decreases n,
{
    if n < 10 {
        seq![spec_digit_char(n as int)]
    } else {
        spec_decimal(n / 10).push(spec_digit_char((n % 10) as int))
    }
}

/// The character of one decimal digit.
pub open spec fn spec_digit_char(d: int) -> char {
    if d == 0 {
        '0'
    } else if d == 1 {
        '1'
    } else if d == 2 {
        '2'
    } else if d == 3 {
        '3'
    } else if d == 4 {
        '4'
    } else if d == 5 {
        '5'
    } else if d == 6 {
        '6'
    } else if d == 7 {
        '7'
    } else if d == 8 {
        '8'
    } else {
        '9'
    }
}

/// The string of one decimal digit.
fn digit_str(d: u64) -> (r: &'static str)
    requires
        d < 10,
    ensures
        r@ == seq![spec_digit_char(d as int)],
{
    proof {
        reveal_strlit("0");
        reveal_strlit("1");
        reveal_strlit("2");
        reveal_strlit("3");
        reveal_strlit("4");
        reveal_strlit("5");
        reveal_strlit("6");
        reveal_strlit("7");
        reveal_strlit("8");
        reveal_strlit("9");
    }
    let r = if d == 0 {
        "0"
    } else if d == 1 {
        "1"
    } else if d == 2 {
        "2"
    } else if d == 3 {
        "3"
    } else if d == 4 {
        "4"
    } else if d == 5 {
        "5"
    } else if d == 6 {
        "6"
    } else if d == 7 {
        "7"
    } else if d == 8 {
        "8"
    } else {
        "9"
    };
    proof {
        assert(r@ =~= seq![spec_digit_char(d as int)]);
    }
    r
}

/// Formats a number in decimal.
pub fn u64_to_string(n: u64) -> (r: String)
    ensures
        r@ == spec_decimal(n),
    decreases n,
{
    if n < 10 {
        String::from_str(digit_str(n))
    } else {
        let prefix = u64_to_string(n / 10);
        let r = prefix.concat(digit_str(n % 10));
        proof {
            assert(r@ =~= spec_decimal(n / 10).push(spec_digit_char((n % 10) as int)));
        }
        r
    }
}

} // verus!
