//! Tests of the protocol-side objects: positioners, rectangles, the event
//! queues, the globals and the root node.

use jay::backend::ConnectorId;
use jay::client::{Client, ObjectId, WireEvent, u64_to_string};
use jay::display_node::DisplayNode;
use jay::globals::{GlobalName, JayCompositorGlobal, XdgActivationV1Global};
use jay::idle::IdleState;
use jay::ifs::{
    JayScreenshot, RoundingAlgorithm, WlCallback, WpFractionalScaleError, WpFractionalScaleV1,
    ZwlrScreencopyFrameV1,
};
use jay::positioner::{
    ANCHOR_BOTTOM_RIGHT, ANCHOR_TOP_LEFT, ConstraintAdjustment, Edge, XdgPositioner,
    XdgPositionerError,
};
use jay::rect::Rect;
use jay::usr::{UsrCon, UsrRequest, UsrWlShmPool, UsrWlrLayerSurface};
use jay::wl_display::{
    ERROR_INVALID_METHOD, ERROR_INVALID_OBJECT, WL_DISPLAY_ID, WlDisplay,
};

#[test]
fn rect_construction_and_queries() {
    let r = Rect::new_sized(10, 20, 100, 50).unwrap();
    assert_eq!(r.x1(), 10);
    assert_eq!(r.y1(), 20);
    assert_eq!(r.x2(), 110);
    assert_eq!(r.y2(), 70);
    assert_eq!(r.width(), 100);
    assert_eq!(r.height(), 50);
    assert!(r.contains(10, 20));
    assert!(!r.contains(110, 20));
    assert!(Rect::new_sized(0, 0, -1, 5).is_none());
    assert!(Rect::new(5, 0, 4, 0).is_none());
    let moved = r.move_(5, -5).unwrap();
    assert_eq!(moved.x1(), 15);
    assert_eq!(moved.y1(), 15);
    assert_eq!(moved.width(), 100);
}

#[test]
fn positioner_accumulates_and_validates() {
    let mut p = XdgPositioner::new(7);
    assert!(!p.value().is_complete());
    assert!(matches!(p.set_size(0, 5), Err(XdgPositionerError::NonPositiveSize)));
    p.set_size(100, 80).unwrap();
    assert!(p.value().is_complete());
    assert!(matches!(p.set_anchor_rect(0, 0, -1, 5), Err(XdgPositionerError::NegativeAnchorRect)));
    p.set_anchor_rect(10, 10, 200, 100).unwrap();
    assert!(matches!(p.set_anchor(9), Err(XdgPositionerError::UnknownAnchor(9))));
    p.set_anchor(ANCHOR_TOP_LEFT).unwrap();
    assert!(matches!(p.set_gravity(11), Err(XdgPositionerError::UnknownGravity(11))));
    p.set_gravity(ANCHOR_BOTTOM_RIGHT).unwrap();
    assert!(matches!(p.set_constraint_adjustment(64), Err(XdgPositionerError::UnknownCa(64))));
    p.set_constraint_adjustment(5).unwrap();
    assert!(matches!(p.set_parent_size(-1, 5), Err(XdgPositionerError::NegativeParentSize)));
    p.set_parent_size(800, 600).unwrap();
    p.set_offset(3, 4);
    p.set_reactive();
    p.set_parent_configure(42);
    let v = p.value();
    assert_eq!(v.size_width, 100);
    assert!(v.anchor.top && v.anchor.left && !v.anchor.right);
    assert!(v.gravity.bottom && v.gravity.right);
    assert!(v.ca.slide_x && v.ca.flip_x && !v.ca.slide_y);
    assert_eq!((v.off_x, v.off_y), (3, 4));
    assert!(v.reactive);
    assert_eq!((v.parent_width, v.parent_height), (800, 600));
    assert_eq!(v.parent_serial, 42);
}

#[test]
fn popup_placement_follows_anchor_and_gravity() {
    let mut p = XdgPositioner::new(7);
    p.set_size(100, 80).unwrap();
    p.set_anchor_rect(10, 20, 200, 100).unwrap();
    // Anchor at the bottom-right corner, gravity pulling down-right:
    // the popup's top-left corner lands on the anchor point.
    p.set_anchor(ANCHOR_BOTTOM_RIGHT).unwrap();
    p.set_gravity(ANCHOR_BOTTOM_RIGHT).unwrap();
    let v = p.value();
    let r = v.get_position(false, false);
    assert_eq!(r.x1(), 210);
    assert_eq!(r.y1(), 120);
    assert_eq!(r.width(), 100);
    assert_eq!(r.height(), 80);
    // Flipping both axes mirrors anchor and gravity.
    let flipped = v.get_position(true, true);
    assert_eq!(flipped.x1(), 10 - 100);
    assert_eq!(flipped.y1(), 20 - 80);
    // Without anchor edges the popup centers on the anchor rectangle.
    let mut q = XdgPositioner::new(8);
    q.set_size(100, 80).unwrap();
    q.set_anchor_rect(10, 20, 200, 100).unwrap();
    let r = q.value().get_position(false, false);
    assert_eq!(r.x1(), 10 + 100 - 50);
    assert_eq!(r.y1(), 20 + 50 - 40);
}

#[test]
fn edges_and_adjustments_decode() {
    assert!(Edge::from_enum(9).is_none());
    let e = Edge::from_enum(ANCHOR_TOP_LEFT).unwrap();
    assert!(e.top && e.left && !e.bottom && !e.right);
    let none = Edge::from_enum(0).unwrap();
    assert!(!none.top && !none.bottom && !none.left && !none.right);
    assert!(ConstraintAdjustment::from_bits(64).is_none());
    let ca = ConstraintAdjustment::from_bits(63).unwrap();
    assert!(ca.slide_x && ca.slide_y && ca.flip_x && ca.flip_y && ca.resize_x && ca.resize_y);
}

#[test]
fn decimal_formatting() {
    assert_eq!(u64_to_string(0), "0");
    assert_eq!(u64_to_string(7), "7");
    assert_eq!(u64_to_string(40960), "40960");
    assert_eq!(u64_to_string(18_446_744_073_709_551_615), "18446744073709551615");
}

#[test]
fn display_errors_carry_exact_messages() {
    let display = WlDisplay::new();
    assert_eq!(display.id, ObjectId(WL_DISPLAY_ID));
    let mut client = Client::new();
    display.send_invalid_object(&mut client, ObjectId(17));
    match client.events.last().unwrap() {
        WireEvent::DisplayError { object_id, code, message, .. } => {
            assert_eq!(*object_id, ObjectId(17));
            assert_eq!(*code, ERROR_INVALID_OBJECT);
            assert_eq!(message, "Object 17 does not exist");
        },
        other => panic!("unexpected event {:?}", other),
    }
    display.send_invalid_request(&mut client, ObjectId(4), "wl_surface", 12);
    match client.events.last().unwrap() {
        WireEvent::DisplayError { code, message, .. } => {
            assert_eq!(*code, ERROR_INVALID_METHOD);
            assert_eq!(message, "Object 4 of type wl_surface has no method 12");
        },
        other => panic!("unexpected event {:?}", other),
    }
    display.send_delete_id(&mut client, ObjectId(9));
    assert!(matches!(client.events.last().unwrap(), WireEvent::DisplayDeleteId { id: 9, .. }));
}

#[test]
fn callback_and_screenshot_events() {
    let mut client = Client::new();
    let cb = WlCallback::new(ObjectId(3));
    cb.send_done(&mut client, 77);
    assert!(matches!(
        client.events.last().unwrap(),
        WireEvent::CallbackDone { callback_data: 77, .. }
    ));
    let shot = JayScreenshot { id: ObjectId(5) };
    shot.send_error(&mut client, "no output");
    match client.events.last().unwrap() {
        WireEvent::ScreenshotError { msg, .. } => assert_eq!(msg, "no output"),
        other => panic!("unexpected event {:?}", other),
    }
}

#[test]
fn screencopy_event_parameters() {
    let mut client = Client::new();
    let frame = ZwlrScreencopyFrameV1 {
        id: ObjectId(6),
        rect: Rect::new_sized(0, 0, 640, 480).unwrap(),
        overlay_cursor: false,
        used: false,
        with_damage: false,
        buffer: None,
        version: 3,
    };
    frame.send_buffer(&mut client);
    match client.events.last().unwrap() {
        WireEvent::ScreencopyBuffer { format, width, height, stride, .. } => {
            assert_eq!(*format, jay::format::XRGB8888_WL_ID);
            assert_eq!((*width, *height), (640, 480));
            assert_eq!(*stride, 640 * 4);
        },
        other => panic!("unexpected event {:?}", other),
    }
    frame.send_ready(&mut client, 0x1_0000_0002, 500);
    match client.events.last().unwrap() {
        WireEvent::ScreencopyReady { tv_sec_hi, tv_sec_lo, tv_nsec, .. } => {
            assert_eq!((*tv_sec_hi, *tv_sec_lo, *tv_nsec), (1, 2, 500));
        },
        other => panic!("unexpected event {:?}", other),
    }
    frame.send_damage(&mut client, Some(&Rect::new_sized(0, 0, 640, 480).unwrap()));
    assert!(matches!(
        client.events.last().unwrap(),
        WireEvent::ScreencopyDamage { width: 640, height: 480, .. }
    ));
    frame.send_buffer_done(&mut client);
    frame.send_failed(&mut client);
    frame.send_flags(&mut client, 1);
    assert_eq!(client.events.len(), 6);
}

#[test]
fn fractional_scale_installs_once() {
    let fs = WpFractionalScaleV1::new(ObjectId(8), ObjectId(2));
    let mut slot = None;
    fs.install(&mut slot).unwrap();
    assert_eq!(slot, Some(ObjectId(8)));
    assert!(matches!(fs.install(&mut slot), Err(WpFractionalScaleError::Exists)));
    let mut client = Client::new();
    fs.send_preferred_scale(&mut client, 180);
    assert!(matches!(
        client.events.last().unwrap(),
        WireEvent::PreferredScale { scale: 180, .. }
    ));
    assert_eq!(
        WpFractionalScaleV1::rounding_algorithm(0).unwrap(),
        RoundingAlgorithm::PositionIndependent
    );
    assert_eq!(
        WpFractionalScaleV1::rounding_algorithm(1).unwrap(),
        RoundingAlgorithm::PositionDependent
    );
    assert!(matches!(
        WpFractionalScaleV1::rounding_algorithm(2),
        Err(WpFractionalScaleError::UnknownRoundingAlgorithm(2))
    ));
}

#[test]
fn globals_keep_their_registry_names() {
    assert_eq!(JayCompositorGlobal::new(GlobalName(4)).name, GlobalName(4));
    assert_eq!(XdgActivationV1Global::new(GlobalName(5)).name, GlobalName(5));
}

#[test]
fn outgoing_requests_queue_in_order() {
    let mut con = UsrCon::new();
    let ls = UsrWlrLayerSurface { id: ObjectId(11) };
    ls.set_size(&mut con, 800, 24);
    ls.set_keyboard_interactivity(&mut con, 1);
    ls.set_layer(&mut con, 2);
    let pool = UsrWlShmPool { id: ObjectId(12), version: 1 };
    pool.resize(&mut con, 4096);
    assert_eq!(con.requests.len(), 4);
    assert_eq!(
        con.requests[0],
        UsrRequest::LayerSurfaceSetSize { self_id: ObjectId(11), width: 800, height: 24 }
    );
    assert_eq!(
        con.requests[3],
        UsrRequest::ShmPoolResize { self_id: ObjectId(12), size: 4096 }
    );
}

#[test]
fn idle_state_tracks_inhibitors_and_signals() {
    let mut idle = IdleState::new(60_000);
    idle.set_timeout(30_000);
    assert_eq!(idle.timeout_ms, 30_000);
    assert!(idle.timeout_changed && idle.change_pending);
    idle.add_inhibitor(5);
    idle.add_inhibitor(9);
    idle.add_inhibitor(5);
    assert_eq!(idle.inhibitors, vec![5, 9, 5]);
    idle.remove_inhibitor(5);
    assert_eq!(idle.inhibitors, vec![9]);
    assert!(idle.inhibitors_changed);
}

#[test]
fn root_extents_are_the_bounding_box() {
    let mut node = DisplayNode::new(1);
    node.update_extents();
    assert_eq!((node.extents.x1(), node.extents.x2()), (0, 0));
    node.outputs.push((ConnectorId(1), Rect::new_sized(0, 0, 1920, 1080).unwrap()));
    node.outputs.push((ConnectorId(2), Rect::new_sized(1920, -120, 2560, 1440).unwrap()));
    node.update_extents();
    assert_eq!(node.extents.x1(), 0);
    assert_eq!(node.extents.y1(), -120);
    assert_eq!(node.extents.x2(), 4480);
    assert_eq!(node.extents.y2(), 1320);
    node.clear();
    assert!(node.outputs.is_empty());
}

#[test]
fn scratch_stack_is_last_in_first_out() {
    let mut s: jay::stack::Stack<u32> = jay::stack::Stack::new();
    assert!(s.pop().is_none());
    s.push(1);
    s.push(2);
    assert_eq!(s.to_vec(), vec![1, 2]);
    assert_eq!(s.pop(), Some(2));
    s.push(3);
    assert_eq!(s.take(), vec![1, 3]);
    assert!(s.pop().is_none());
}

#[test]
fn popup_placement_uses_each_axis_offset() {
    let mut p = XdgPositioner::new(9);
    p.set_size(10, 10).unwrap();
    p.set_anchor_rect(0, 0, 100, 50).unwrap();
    p.set_anchor(ANCHOR_TOP_LEFT).unwrap();
    p.set_gravity(ANCHOR_BOTTOM_RIGHT).unwrap();
    p.set_offset(7, -3);
    let r = p.value().get_position(false, false);
    assert_eq!(r.x1(), 7);
    assert_eq!(r.y1(), -3);
}
