use slint_ohos::ohos::{
    OH_NativeXComponent_EventSourceType, OH_NativeXComponent_MouseEventAction,
    OH_NativeXComponent_MouseEventButton, OH_NativeXComponent_Result,
    OH_NativeXComponent_TouchEventType, OH_NativeXComponent_TouchPointToolType,
};

#[test]
fn result_codes_match_c_values() {
    assert_eq!(OH_NativeXComponent_Result::OH_NATIVEXCOMPONENT_RESULT_SUCCESS.to_raw(), 0);
    assert_eq!(OH_NativeXComponent_Result::OH_NATIVEXCOMPONENT_RESULT_FAILED.to_raw(), -1);
    assert_eq!(OH_NativeXComponent_Result::OH_NATIVEXCOMPONENT_RESULT_BAD_PARAMETER.to_raw(), -2);
    assert_eq!(
        OH_NativeXComponent_Result::from_raw(-2),
        Some(OH_NativeXComponent_Result::OH_NATIVEXCOMPONENT_RESULT_BAD_PARAMETER)
    );
    assert_eq!(OH_NativeXComponent_Result::from_raw(1), None);
    assert_eq!(OH_NativeXComponent_Result::from_raw(-3), None);
}

#[test]
fn touch_event_types_round_trip() {
    let all = [
        OH_NativeXComponent_TouchEventType::OH_NATIVEXCOMPONENT_DOWN,
        OH_NativeXComponent_TouchEventType::OH_NATIVEXCOMPONENT_UP,
        OH_NativeXComponent_TouchEventType::OH_NATIVEXCOMPONENT_MOVE,
        OH_NativeXComponent_TouchEventType::OH_NATIVEXCOMPONENT_CANCEL,
        OH_NativeXComponent_TouchEventType::OH_NATIVEXCOMPONENT_UNKNOWN,
    ];
    for (i, v) in all.iter().enumerate() {
        assert_eq!(v.to_raw(), i as i32);
        assert_eq!(OH_NativeXComponent_TouchEventType::from_raw(v.to_raw()), Some(*v));
    }
    assert_eq!(OH_NativeXComponent_TouchEventType::from_raw(5), None);
    assert_eq!(OH_NativeXComponent_TouchEventType::from_raw(-1), None);
}

#[test]
fn tool_types_round_trip() {
    let all = [
        OH_NativeXComponent_TouchPointToolType::OH_NATIVEXCOMPONENT_TOOL_TYPE_UNKNOWN,
        OH_NativeXComponent_TouchPointToolType::OH_NATIVEXCOMPONENT_TOOL_TYPE_FINGER,
        OH_NativeXComponent_TouchPointToolType::OH_NATIVEXCOMPONENT_TOOL_TYPE_PEN,
        OH_NativeXComponent_TouchPointToolType::OH_NATIVEXCOMPONENT_TOOL_TYPE_RUBBER,
        OH_NativeXComponent_TouchPointToolType::OH_NATIVEXCOMPONENT_TOOL_TYPE_BRUSH,
        OH_NativeXComponent_TouchPointToolType::OH_NATIVEXCOMPONENT_TOOL_TYPE_PENCIL,
        OH_NativeXComponent_TouchPointToolType::OH_NATIVEXCOMPONENT_TOOL_TYPE_AIRBRUSH,
        OH_NativeXComponent_TouchPointToolType::OH_NATIVEXCOMPONENT_TOOL_TYPE_MOUSE,
        OH_NativeXComponent_TouchPointToolType::OH_NATIVEXCOMPONENT_TOOL_TYPE_LENS,
    ];
    for (i, v) in all.iter().enumerate() {
        assert_eq!(v.to_raw(), i as i32);
        assert_eq!(OH_NativeXComponent_TouchPointToolType::from_raw(i as i32), Some(*v));
    }
    assert_eq!(OH_NativeXComponent_TouchPointToolType::from_raw(9), None);
}

#[test]
fn event_source_types_round_trip() {
    let all = [
        OH_NativeXComponent_EventSourceType::OH_NATIVEXCOMPONENT_SOURCE_TYPE_UNKNOWN,
        OH_NativeXComponent_EventSourceType::OH_NATIVEXCOMPONENT_SOURCE_TYPE_MOUSE,
        OH_NativeXComponent_EventSourceType::OH_NATIVEXCOMPONENT_SOURCE_TYPE_TOUCHSCREEN,
        OH_NativeXComponent_EventSourceType::OH_NATIVEXCOMPONENT_SOURCE_TYPE_TOUCHPAD,
        OH_NativeXComponent_EventSourceType::OH_NATIVEXCOMPONENT_SOURCE_TYPE_JOYSTICK,
    ];
    for (i, v) in all.iter().enumerate() {
        assert_eq!(v.to_raw(), i as i32);
        assert_eq!(OH_NativeXComponent_EventSourceType::from_raw(i as i32), Some(*v));
    }
    assert_eq!(OH_NativeXComponent_EventSourceType::from_raw(5), None);
}

#[test]
fn mouse_actions_round_trip() {
    let all = [
        OH_NativeXComponent_MouseEventAction::OH_NATIVEXCOMPONENT_MOUSE_NONE,
        OH_NativeXComponent_MouseEventAction::OH_NATIVEXCOMPONENT_MOUSE_PRESS,
        OH_NativeXComponent_MouseEventAction::OH_NATIVEXCOMPONENT_MOUSE_RELEASE,
        OH_NativeXComponent_MouseEventAction::OH_NATIVEXCOMPONENT_MOUSE_MOVE,
    ];
    for (i, v) in all.iter().enumerate() {
        assert_eq!(v.to_raw(), i as i32);
        assert_eq!(OH_NativeXComponent_MouseEventAction::from_raw(i as i32), Some(*v));
    }
    assert_eq!(OH_NativeXComponent_MouseEventAction::from_raw(4), None);
}

#[test]
fn mouse_buttons_are_bits() {
    let expected = [
        (OH_NativeXComponent_MouseEventButton::OH_NATIVEXCOMPONENT_NONE_BUTTON, 0),
        (OH_NativeXComponent_MouseEventButton::OH_NATIVEXCOMPONENT_LEFT_BUTTON, 1),
        (OH_NativeXComponent_MouseEventButton::OH_NATIVEXCOMPONENT_RIGHT_BUTTON, 2),
        (OH_NativeXComponent_MouseEventButton::OH_NATIVEXCOMPONENT_MIDDLE_BUTTON, 4),
        (OH_NativeXComponent_MouseEventButton::OH_NATIVEXCOMPONENT_BACK_BUTTON, 8),
        (OH_NativeXComponent_MouseEventButton::OH_NATIVEXCOMPONENT_FORWARD_BUTTON, 16),
    ];
    for (v, raw) in expected.iter() {
        assert_eq!(v.to_raw(), *raw);
        assert_eq!(OH_NativeXComponent_MouseEventButton::from_raw(*raw), Some(*v));
    }
    assert_eq!(OH_NativeXComponent_MouseEventButton::from_raw(3), None);
    assert_eq!(OH_NativeXComponent_MouseEventButton::from_raw(32), None);
}
