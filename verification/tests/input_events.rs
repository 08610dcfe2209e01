use slint_ohos::input::{pointer_button, window_event_for, LogicalPosition, OHOSEventQueue, PointerEventButton, WindowEvent};
use slint_ohos::ohos::{
    OH_NativeXComponent_MouseEvent, OH_NativeXComponent_MouseEventAction,
    OH_NativeXComponent_MouseEventButton, OH_NativeXComponent_TouchEvent,
    OH_NativeXComponent_TouchEventType, OHOS_Input_Event,
};

fn touch(kind: OH_NativeXComponent_TouchEventType, x: f32, y: f32) -> OHOS_Input_Event {
    OHOS_Input_Event::TouchEvent(OH_NativeXComponent_TouchEvent {
        id: 1,
        screenX: (x + 100.0).to_bits(),
        screenY: (y + 200.0).to_bits(),
        x: x.to_bits(),
        y: y.to_bits(),
        event_type: kind,
        size: 2.0f64.to_bits(),
        force: 0.5f32.to_bits(),
        deviceId: 7,
        timeStamp: 1234,
        touchPoints: None,
        numPoints: 1,
    })
}

#[test]
fn touch_down_becomes_left_press_at_element_position() {
    let ev = touch(OH_NativeXComponent_TouchEventType::OH_NATIVEXCOMPONENT_DOWN, 12.5, 40.25);
    let r = window_event_for(&ev);
    assert_eq!(
        r,
        Some(WindowEvent::PointerPressed {
            position: LogicalPosition { x: 12.5f32.to_bits(), y: 40.25f32.to_bits() },
            button: PointerEventButton::Left,
        })
    );
    match r {
        Some(WindowEvent::PointerPressed { position, .. }) => {
            assert_eq!(f32::from_bits(position.x), 12.5);
            assert_eq!(f32::from_bits(position.y), 40.25);
        }
        _ => panic!("not a press"),
    }
}

fn mouse(action: OH_NativeXComponent_MouseEventAction, button: OH_NativeXComponent_MouseEventButton) -> OHOS_Input_Event {
    OHOS_Input_Event::MouseEvent(OH_NativeXComponent_MouseEvent {
        x: 3.5f32.to_bits(),
        y: 4.5f32.to_bits(),
        screenX: 103.5f32.to_bits(),
        screenY: 204.5f32.to_bits(),
        timestamp: 5,
        action,
        button,
    })
}

fn at(x: f32, y: f32) -> LogicalPosition {
    LogicalPosition { x: x.to_bits(), y: y.to_bits() }
}

#[test]
fn touch_up_move_and_cancel_reach_the_window() {
    assert_eq!(
        window_event_for(&touch(OH_NativeXComponent_TouchEventType::OH_NATIVEXCOMPONENT_UP, 1.0, 2.0)),
        Some(WindowEvent::PointerReleased { position: at(1.0, 2.0), button: PointerEventButton::Left })
    );
    assert_eq!(
        window_event_for(&touch(OH_NativeXComponent_TouchEventType::OH_NATIVEXCOMPONENT_MOVE, 5.0, 6.0)),
        Some(WindowEvent::PointerMoved { position: at(5.0, 6.0) })
    );
    assert_eq!(
        window_event_for(&touch(OH_NativeXComponent_TouchEventType::OH_NATIVEXCOMPONENT_CANCEL, 7.0, 8.0)),
        Some(WindowEvent::PointerReleased { position: at(7.0, 8.0), button: PointerEventButton::Left })
    );
    assert_eq!(
        window_event_for(&touch(OH_NativeXComponent_TouchEventType::OH_NATIVEXCOMPONENT_UNKNOWN, 1.0, 2.0)),
        None
    );
    assert_eq!(window_event_for(&OHOS_Input_Event::NoEvent), None);
}

#[test]
fn touch_down_then_up_is_a_click() {
    let down = window_event_for(&touch(OH_NativeXComponent_TouchEventType::OH_NATIVEXCOMPONENT_DOWN, 9.0, 9.5));
    let up = window_event_for(&touch(OH_NativeXComponent_TouchEventType::OH_NATIVEXCOMPONENT_UP, 9.0, 9.5));
    assert_eq!(down, Some(WindowEvent::PointerPressed { position: at(9.0, 9.5), button: PointerEventButton::Left }));
    assert_eq!(up, Some(WindowEvent::PointerReleased { position: at(9.0, 9.5), button: PointerEventButton::Left }));
}

#[test]
fn mouse_events_reach_the_window_with_their_button() {
    assert_eq!(
        window_event_for(&mouse(
            OH_NativeXComponent_MouseEventAction::OH_NATIVEXCOMPONENT_MOUSE_PRESS,
            OH_NativeXComponent_MouseEventButton::OH_NATIVEXCOMPONENT_RIGHT_BUTTON
        )),
        Some(WindowEvent::PointerPressed { position: at(3.5, 4.5), button: PointerEventButton::Right })
    );
    assert_eq!(
        window_event_for(&mouse(
            OH_NativeXComponent_MouseEventAction::OH_NATIVEXCOMPONENT_MOUSE_RELEASE,
            OH_NativeXComponent_MouseEventButton::OH_NATIVEXCOMPONENT_LEFT_BUTTON
        )),
        Some(WindowEvent::PointerReleased { position: at(3.5, 4.5), button: PointerEventButton::Left })
    );
    assert_eq!(
        window_event_for(&mouse(
            OH_NativeXComponent_MouseEventAction::OH_NATIVEXCOMPONENT_MOUSE_MOVE,
            OH_NativeXComponent_MouseEventButton::OH_NATIVEXCOMPONENT_NONE_BUTTON
        )),
        Some(WindowEvent::PointerMoved { position: at(3.5, 4.5) })
    );
    assert_eq!(
        window_event_for(&mouse(
            OH_NativeXComponent_MouseEventAction::OH_NATIVEXCOMPONENT_MOUSE_NONE,
            OH_NativeXComponent_MouseEventButton::OH_NATIVEXCOMPONENT_LEFT_BUTTON
        )),
        None
    );
}

#[test]
fn mouse_buttons_map_to_toolkit_buttons() {
    let expected = [
        (OH_NativeXComponent_MouseEventButton::OH_NATIVEXCOMPONENT_NONE_BUTTON, PointerEventButton::Other),
        (OH_NativeXComponent_MouseEventButton::OH_NATIVEXCOMPONENT_LEFT_BUTTON, PointerEventButton::Left),
        (OH_NativeXComponent_MouseEventButton::OH_NATIVEXCOMPONENT_RIGHT_BUTTON, PointerEventButton::Right),
        (OH_NativeXComponent_MouseEventButton::OH_NATIVEXCOMPONENT_MIDDLE_BUTTON, PointerEventButton::Middle),
        (OH_NativeXComponent_MouseEventButton::OH_NATIVEXCOMPONENT_BACK_BUTTON, PointerEventButton::Other),
        (OH_NativeXComponent_MouseEventButton::OH_NATIVEXCOMPONENT_FORWARD_BUTTON, PointerEventButton::Other),
    ];
    for (b, p) in expected {
        assert_eq!(pointer_button(b), p);
    }
}

#[test]
fn queue_keeps_events_in_order() {
    let mut q = OHOSEventQueue::default();
    match &q {
        OHOSEventQueue::Queue(v) => assert!(v.is_empty()),
    }
    assert!(q.send_event(touch(OH_NativeXComponent_TouchEventType::OH_NATIVEXCOMPONENT_DOWN, 1.0, 1.0)).is_ok());
    assert!(q.send_event(OHOS_Input_Event::NoEvent).is_ok());
    assert!(q.send_event(touch(OH_NativeXComponent_TouchEventType::OH_NATIVEXCOMPONENT_UP, 3.0, 1.0)).is_ok());
    match &q {
        OHOSEventQueue::Queue(v) => {
            assert_eq!(v.len(), 3);
            assert!(matches!(v[0], OHOS_Input_Event::TouchEvent(t) if t.event_type == OH_NativeXComponent_TouchEventType::OH_NATIVEXCOMPONENT_DOWN));
            assert!(matches!(v[1], OHOS_Input_Event::NoEvent));
            assert!(matches!(v[2], OHOS_Input_Event::TouchEvent(t) if f32::from_bits(t.x) == 3.0));
        }
    }
}
