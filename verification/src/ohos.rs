//! The C types of the OpenHarmony native XComponent that the input events
//! arrive in.
//!
//! The C side numbers its enumerations; each enumeration here carries that
//! number as `raw_value`, with `to_raw` and `from_raw` to cross the border.
//! Coordinates, sizes and forces are floating-point numbers on the C side;
//! here each one is held as its IEEE-754 bit pattern (`f32::to_bits`,
//! `f64::to_bits`), which keeps the value exactly and lets it pass through
//! the logic untouched.
#![allow(non_camel_case_types)]
#![allow(non_snake_case)]

use vstd::prelude::*;

verus! {

/// Status codes of the XComponent API.
#[derive(Copy, Clone, Debug, PartialEq, Eq, Structural)]
pub enum OH_NativeXComponent_Result {
    /// Success (C value 0).
    OH_NATIVEXCOMPONENT_RESULT_SUCCESS,
    /// Failure (C value -1).
    OH_NATIVEXCOMPONENT_RESULT_FAILED,
    /// Invalid parameter (C value -2).
    OH_NATIVEXCOMPONENT_RESULT_BAD_PARAMETER,
}

impl OH_NativeXComponent_Result {
    /// The C value of the variant.
    pub open spec fn raw_value(self) -> i32 {
        match self {
            OH_NativeXComponent_Result::OH_NATIVEXCOMPONENT_RESULT_SUCCESS => 0,
            OH_NativeXComponent_Result::OH_NATIVEXCOMPONENT_RESULT_FAILED => -1i32,
            OH_NativeXComponent_Result::OH_NATIVEXCOMPONENT_RESULT_BAD_PARAMETER => -2i32,
        }
    }

    /// The C value of `self`.
    pub fn to_raw(self) -> (r: i32)
        ensures
            r == self.raw_value(),
    {
        match self {
            OH_NativeXComponent_Result::OH_NATIVEXCOMPONENT_RESULT_SUCCESS => 0,
            OH_NativeXComponent_Result::OH_NATIVEXCOMPONENT_RESULT_FAILED => -1,
            OH_NativeXComponent_Result::OH_NATIVEXCOMPONENT_RESULT_BAD_PARAMETER => -2,
        }
    }

    /// The variant whose C value is `raw`, if there is one.
    pub open spec fn spec_from_raw(raw: i32) -> Option<Self> {
        if raw == 0 {
            Some(OH_NativeXComponent_Result::OH_NATIVEXCOMPONENT_RESULT_SUCCESS)
        } else if raw == -1 {
            Some(OH_NativeXComponent_Result::OH_NATIVEXCOMPONENT_RESULT_FAILED)
        } else if raw == -2 {
            Some(OH_NativeXComponent_Result::OH_NATIVEXCOMPONENT_RESULT_BAD_PARAMETER)
        } else {
            None
        }
    }

    /// The variant whose C value is `raw`, if there is one: `from_raw(v.to_raw())`
    /// is `Some(v)`, and no other number gives a variant.
    pub fn from_raw(raw: i32) -> (r: Option<Self>)
        ensures
            r == Self::spec_from_raw(raw),
            forall|v: Self| #[trigger] v.raw_value() == raw <==> r == Some(v),
    {
        if raw == 0 {
            Some(OH_NativeXComponent_Result::OH_NATIVEXCOMPONENT_RESULT_SUCCESS)
        } else if raw == -1 {
            Some(OH_NativeXComponent_Result::OH_NATIVEXCOMPONENT_RESULT_FAILED)
        } else if raw == -2 {
            Some(OH_NativeXComponent_Result::OH_NATIVEXCOMPONENT_RESULT_BAD_PARAMETER)
        } else {
            None
        }
    }
}

/// Kinds of touch events.
#[derive(Copy, Clone, Debug, PartialEq, Eq, Structural)]
pub enum OH_NativeXComponent_TouchEventType {
    /// A finger touches the screen (C value 0).
    OH_NATIVEXCOMPONENT_DOWN,
    /// A finger leaves the screen (C value 1).
    OH_NATIVEXCOMPONENT_UP,
    /// A finger moves on the screen (C value 2).
    OH_NATIVEXCOMPONENT_MOVE,
    /// The touch is cancelled (C value 3).
    OH_NATIVEXCOMPONENT_CANCEL,
    /// An unknown kind of touch (C value 4).
    OH_NATIVEXCOMPONENT_UNKNOWN,
}

impl OH_NativeXComponent_TouchEventType {
    /// The C value of the variant.
    pub open spec fn raw_value(self) -> i32 {
        match self {
            OH_NativeXComponent_TouchEventType::OH_NATIVEXCOMPONENT_DOWN => 0,
            OH_NativeXComponent_TouchEventType::OH_NATIVEXCOMPONENT_UP => 1,
            OH_NativeXComponent_TouchEventType::OH_NATIVEXCOMPONENT_MOVE => 2,
            OH_NativeXComponent_TouchEventType::OH_NATIVEXCOMPONENT_CANCEL => 3,
            OH_NativeXComponent_TouchEventType::OH_NATIVEXCOMPONENT_UNKNOWN => 4,
        }
    }

    /// The C value of `self`.
    pub fn to_raw(self) -> (r: i32)
        ensures
            r == self.raw_value(),
    {
        match self {
            OH_NativeXComponent_TouchEventType::OH_NATIVEXCOMPONENT_DOWN => 0,
            OH_NativeXComponent_TouchEventType::OH_NATIVEXCOMPONENT_UP => 1,
            OH_NativeXComponent_TouchEventType::OH_NATIVEXCOMPONENT_MOVE => 2,
            OH_NativeXComponent_TouchEventType::OH_NATIVEXCOMPONENT_CANCEL => 3,
            OH_NativeXComponent_TouchEventType::OH_NATIVEXCOMPONENT_UNKNOWN => 4,
        }
    }

    /// The variant whose C value is `raw`, if there is one.
    pub open spec fn spec_from_raw(raw: i32) -> Option<Self> {
        if raw == 0 {
            Some(OH_NativeXComponent_TouchEventType::OH_NATIVEXCOMPONENT_DOWN)
        } else if raw == 1 {
            Some(OH_NativeXComponent_TouchEventType::OH_NATIVEXCOMPONENT_UP)
        } else if raw == 2 {
            Some(OH_NativeXComponent_TouchEventType::OH_NATIVEXCOMPONENT_MOVE)
        } else if raw == 3 {
            Some(OH_NativeXComponent_TouchEventType::OH_NATIVEXCOMPONENT_CANCEL)
        } else if raw == 4 {
            Some(OH_NativeXComponent_TouchEventType::OH_NATIVEXCOMPONENT_UNKNOWN)
        } else {
            None
        }
    }

    /// The variant whose C value is `raw`, if there is one: `from_raw(v.to_raw())`
    /// is `Some(v)`, and no other number gives a variant.
    pub fn from_raw(raw: i32) -> (r: Option<Self>)
        ensures
            r == Self::spec_from_raw(raw),
            forall|v: Self| #[trigger] v.raw_value() == raw <==> r == Some(v),
    {
        if raw == 0 {
            Some(OH_NativeXComponent_TouchEventType::OH_NATIVEXCOMPONENT_DOWN)
        } else if raw == 1 {
            Some(OH_NativeXComponent_TouchEventType::OH_NATIVEXCOMPONENT_UP)
        } else if raw == 2 {
            Some(OH_NativeXComponent_TouchEventType::OH_NATIVEXCOMPONENT_MOVE)
        } else if raw == 3 {
            Some(OH_NativeXComponent_TouchEventType::OH_NATIVEXCOMPONENT_CANCEL)
        } else if raw == 4 {
            Some(OH_NativeXComponent_TouchEventType::OH_NATIVEXCOMPONENT_UNKNOWN)
        } else {
            None
        }
    }
}

/// Tools a touch point can come from.
#[derive(Copy, Clone, Debug, PartialEq, Eq, Structural)]
pub enum OH_NativeXComponent_TouchPointToolType {
    /// Unknown tool (C value 0).
    OH_NATIVEXCOMPONENT_TOOL_TYPE_UNKNOWN,
    /// Finger (C value 1).
    OH_NATIVEXCOMPONENT_TOOL_TYPE_FINGER,
    /// Pen (C value 2).
    OH_NATIVEXCOMPONENT_TOOL_TYPE_PEN,
    /// Eraser (C value 3).
    OH_NATIVEXCOMPONENT_TOOL_TYPE_RUBBER,
    /// Brush (C value 4).
    OH_NATIVEXCOMPONENT_TOOL_TYPE_BRUSH,
    /// Pencil (C value 5).
    OH_NATIVEXCOMPONENT_TOOL_TYPE_PENCIL,
    /// Airbrush (C value 6).
    OH_NATIVEXCOMPONENT_TOOL_TYPE_AIRBRUSH,
    /// Mouse (C value 7).
    OH_NATIVEXCOMPONENT_TOOL_TYPE_MOUSE,
    /// Lens (C value 8).
    OH_NATIVEXCOMPONENT_TOOL_TYPE_LENS,
}

impl OH_NativeXComponent_TouchPointToolType {
    /// The C value of the variant.
    pub open spec fn raw_value(self) -> i32 {
        match self {
            OH_NativeXComponent_TouchPointToolType::OH_NATIVEXCOMPONENT_TOOL_TYPE_UNKNOWN => 0,
            OH_NativeXComponent_TouchPointToolType::OH_NATIVEXCOMPONENT_TOOL_TYPE_FINGER => 1,
            OH_NativeXComponent_TouchPointToolType::OH_NATIVEXCOMPONENT_TOOL_TYPE_PEN => 2,
            OH_NativeXComponent_TouchPointToolType::OH_NATIVEXCOMPONENT_TOOL_TYPE_RUBBER => 3,
            OH_NativeXComponent_TouchPointToolType::OH_NATIVEXCOMPONENT_TOOL_TYPE_BRUSH => 4,
            OH_NativeXComponent_TouchPointToolType::OH_NATIVEXCOMPONENT_TOOL_TYPE_PENCIL => 5,
            OH_NativeXComponent_TouchPointToolType::OH_NATIVEXCOMPONENT_TOOL_TYPE_AIRBRUSH => 6,
            OH_NativeXComponent_TouchPointToolType::OH_NATIVEXCOMPONENT_TOOL_TYPE_MOUSE => 7,
            OH_NativeXComponent_TouchPointToolType::OH_NATIVEXCOMPONENT_TOOL_TYPE_LENS => 8,
        }
    }

    /// The C value of `self`.
    pub fn to_raw(self) -> (r: i32)
        ensures
            r == self.raw_value(),
    {
        match self {
            OH_NativeXComponent_TouchPointToolType::OH_NATIVEXCOMPONENT_TOOL_TYPE_UNKNOWN => 0,
            OH_NativeXComponent_TouchPointToolType::OH_NATIVEXCOMPONENT_TOOL_TYPE_FINGER => 1,
            OH_NativeXComponent_TouchPointToolType::OH_NATIVEXCOMPONENT_TOOL_TYPE_PEN => 2,
            OH_NativeXComponent_TouchPointToolType::OH_NATIVEXCOMPONENT_TOOL_TYPE_RUBBER => 3,
            OH_NativeXComponent_TouchPointToolType::OH_NATIVEXCOMPONENT_TOOL_TYPE_BRUSH => 4,
            OH_NativeXComponent_TouchPointToolType::OH_NATIVEXCOMPONENT_TOOL_TYPE_PENCIL => 5,
            OH_NativeXComponent_TouchPointToolType::OH_NATIVEXCOMPONENT_TOOL_TYPE_AIRBRUSH => 6,
            OH_NativeXComponent_TouchPointToolType::OH_NATIVEXCOMPONENT_TOOL_TYPE_MOUSE => 7,
            OH_NativeXComponent_TouchPointToolType::OH_NATIVEXCOMPONENT_TOOL_TYPE_LENS => 8,
        }
    }

    /// The variant whose C value is `raw`, if there is one.
    pub open spec fn spec_from_raw(raw: i32) -> Option<Self> {
        if raw == 0 {
            Some(OH_NativeXComponent_TouchPointToolType::OH_NATIVEXCOMPONENT_TOOL_TYPE_UNKNOWN)
        } else if raw == 1 {
            Some(OH_NativeXComponent_TouchPointToolType::OH_NATIVEXCOMPONENT_TOOL_TYPE_FINGER)
        } else if raw == 2 {
            Some(OH_NativeXComponent_TouchPointToolType::OH_NATIVEXCOMPONENT_TOOL_TYPE_PEN)
        } else if raw == 3 {
            Some(OH_NativeXComponent_TouchPointToolType::OH_NATIVEXCOMPONENT_TOOL_TYPE_RUBBER)
        } else if raw == 4 {
            Some(OH_NativeXComponent_TouchPointToolType::OH_NATIVEXCOMPONENT_TOOL_TYPE_BRUSH)
        } else if raw == 5 {
            Some(OH_NativeXComponent_TouchPointToolType::OH_NATIVEXCOMPONENT_TOOL_TYPE_PENCIL)
        } else if raw == 6 {
            Some(OH_NativeXComponent_TouchPointToolType::OH_NATIVEXCOMPONENT_TOOL_TYPE_AIRBRUSH)
        } else if raw == 7 {
            Some(OH_NativeXComponent_TouchPointToolType::OH_NATIVEXCOMPONENT_TOOL_TYPE_MOUSE)
        } else if raw == 8 {
            Some(OH_NativeXComponent_TouchPointToolType::OH_NATIVEXCOMPONENT_TOOL_TYPE_LENS)
        } else {
            None
        }
    }

    /// The variant whose C value is `raw`, if there is one: `from_raw(v.to_raw())`
    /// is `Some(v)`, and no other number gives a variant.
    pub fn from_raw(raw: i32) -> (r: Option<Self>)
        ensures
            r == Self::spec_from_raw(raw),
            forall|v: Self| #[trigger] v.raw_value() == raw <==> r == Some(v),
    {
        if raw == 0 {
            Some(OH_NativeXComponent_TouchPointToolType::OH_NATIVEXCOMPONENT_TOOL_TYPE_UNKNOWN)
        } else if raw == 1 {
            Some(OH_NativeXComponent_TouchPointToolType::OH_NATIVEXCOMPONENT_TOOL_TYPE_FINGER)
        } else if raw == 2 {
            Some(OH_NativeXComponent_TouchPointToolType::OH_NATIVEXCOMPONENT_TOOL_TYPE_PEN)
        } else if raw == 3 {
            Some(OH_NativeXComponent_TouchPointToolType::OH_NATIVEXCOMPONENT_TOOL_TYPE_RUBBER)
        } else if raw == 4 {
            Some(OH_NativeXComponent_TouchPointToolType::OH_NATIVEXCOMPONENT_TOOL_TYPE_BRUSH)
        } else if raw == 5 {
            Some(OH_NativeXComponent_TouchPointToolType::OH_NATIVEXCOMPONENT_TOOL_TYPE_PENCIL)
        } else if raw == 6 {
            Some(OH_NativeXComponent_TouchPointToolType::OH_NATIVEXCOMPONENT_TOOL_TYPE_AIRBRUSH)
        } else if raw == 7 {
            Some(OH_NativeXComponent_TouchPointToolType::OH_NATIVEXCOMPONENT_TOOL_TYPE_MOUSE)
        } else if raw == 8 {
            Some(OH_NativeXComponent_TouchPointToolType::OH_NATIVEXCOMPONENT_TOOL_TYPE_LENS)
        } else {
            None
        }
    }
}

/// Sources an input event can come from.
#[derive(Copy, Clone, Debug, PartialEq, Eq, Structural)]
pub enum OH_NativeXComponent_EventSourceType {
    /// Unknown source (C value 0).
    OH_NATIVEXCOMPONENT_SOURCE_TYPE_UNKNOWN,
    /// Mouse (C value 1).
    OH_NATIVEXCOMPONENT_SOURCE_TYPE_MOUSE,
    /// Touch screen (C value 2).
    OH_NATIVEXCOMPONENT_SOURCE_TYPE_TOUCHSCREEN,
    /// Touch pad (C value 3).
    OH_NATIVEXCOMPONENT_SOURCE_TYPE_TOUCHPAD,
    /// Joystick (C value 4).
    OH_NATIVEXCOMPONENT_SOURCE_TYPE_JOYSTICK,
}

impl OH_NativeXComponent_EventSourceType {
    /// The C value of the variant.
    pub open spec fn raw_value(self) -> i32 {
        match self {
            OH_NativeXComponent_EventSourceType::OH_NATIVEXCOMPONENT_SOURCE_TYPE_UNKNOWN => 0,
            OH_NativeXComponent_EventSourceType::OH_NATIVEXCOMPONENT_SOURCE_TYPE_MOUSE => 1,
            OH_NativeXComponent_EventSourceType::OH_NATIVEXCOMPONENT_SOURCE_TYPE_TOUCHSCREEN => 2,
            OH_NativeXComponent_EventSourceType::OH_NATIVEXCOMPONENT_SOURCE_TYPE_TOUCHPAD => 3,
            OH_NativeXComponent_EventSourceType::OH_NATIVEXCOMPONENT_SOURCE_TYPE_JOYSTICK => 4,
        }
    }

    /// The C value of `self`.
    pub fn to_raw(self) -> (r: i32)
        ensures
            r == self.raw_value(),
    {
        match self {
            OH_NativeXComponent_EventSourceType::OH_NATIVEXCOMPONENT_SOURCE_TYPE_UNKNOWN => 0,
            OH_NativeXComponent_EventSourceType::OH_NATIVEXCOMPONENT_SOURCE_TYPE_MOUSE => 1,
            OH_NativeXComponent_EventSourceType::OH_NATIVEXCOMPONENT_SOURCE_TYPE_TOUCHSCREEN => 2,
            OH_NativeXComponent_EventSourceType::OH_NATIVEXCOMPONENT_SOURCE_TYPE_TOUCHPAD => 3,
            OH_NativeXComponent_EventSourceType::OH_NATIVEXCOMPONENT_SOURCE_TYPE_JOYSTICK => 4,
        }
    }

    /// The variant whose C value is `raw`, if there is one.
    pub open spec fn spec_from_raw(raw: i32) -> Option<Self> {
        if raw == 0 {
            Some(OH_NativeXComponent_EventSourceType::OH_NATIVEXCOMPONENT_SOURCE_TYPE_UNKNOWN)
        } else if raw == 1 {
            Some(OH_NativeXComponent_EventSourceType::OH_NATIVEXCOMPONENT_SOURCE_TYPE_MOUSE)
        } else if raw == 2 {
            Some(OH_NativeXComponent_EventSourceType::OH_NATIVEXCOMPONENT_SOURCE_TYPE_TOUCHSCREEN)
        } else if raw == 3 {
            Some(OH_NativeXComponent_EventSourceType::OH_NATIVEXCOMPONENT_SOURCE_TYPE_TOUCHPAD)
        } else if raw == 4 {
            Some(OH_NativeXComponent_EventSourceType::OH_NATIVEXCOMPONENT_SOURCE_TYPE_JOYSTICK)
        } else {
            None
        }
    }

    /// The variant whose C value is `raw`, if there is one: `from_raw(v.to_raw())`
    /// is `Some(v)`, and no other number gives a variant.
    pub fn from_raw(raw: i32) -> (r: Option<Self>)
        ensures
            r == Self::spec_from_raw(raw),
            forall|v: Self| #[trigger] v.raw_value() == raw <==> r == Some(v),
    {
        if raw == 0 {
            Some(OH_NativeXComponent_EventSourceType::OH_NATIVEXCOMPONENT_SOURCE_TYPE_UNKNOWN)
        } else if raw == 1 {
            Some(OH_NativeXComponent_EventSourceType::OH_NATIVEXCOMPONENT_SOURCE_TYPE_MOUSE)
        } else if raw == 2 {
            Some(OH_NativeXComponent_EventSourceType::OH_NATIVEXCOMPONENT_SOURCE_TYPE_TOUCHSCREEN)
        } else if raw == 3 {
            Some(OH_NativeXComponent_EventSourceType::OH_NATIVEXCOMPONENT_SOURCE_TYPE_TOUCHPAD)
        } else if raw == 4 {
            Some(OH_NativeXComponent_EventSourceType::OH_NATIVEXCOMPONENT_SOURCE_TYPE_JOYSTICK)
        } else {
            None
        }
    }
}

/// Actions of a mouse event.
#[derive(Copy, Clone, Debug, PartialEq, Eq, Structural)]
pub enum OH_NativeXComponent_MouseEventAction {
    /// No action (C value 0).
    OH_NATIVEXCOMPONENT_MOUSE_NONE,
    /// A button is pressed (C value 1).
    OH_NATIVEXCOMPONENT_MOUSE_PRESS,
    /// A button is released (C value 2).
    OH_NATIVEXCOMPONENT_MOUSE_RELEASE,
    /// The mouse moves (C value 3).
    OH_NATIVEXCOMPONENT_MOUSE_MOVE,
}

impl OH_NativeXComponent_MouseEventAction {
    /// The C value of the variant.
    pub open spec fn raw_value(self) -> i32 {
        match self {
            OH_NativeXComponent_MouseEventAction::OH_NATIVEXCOMPONENT_MOUSE_NONE => 0,
            OH_NativeXComponent_MouseEventAction::OH_NATIVEXCOMPONENT_MOUSE_PRESS => 1,
            OH_NativeXComponent_MouseEventAction::OH_NATIVEXCOMPONENT_MOUSE_RELEASE => 2,
            OH_NativeXComponent_MouseEventAction::OH_NATIVEXCOMPONENT_MOUSE_MOVE => 3,
        }
    }

    /// The C value of `self`.
    pub fn to_raw(self) -> (r: i32)
        ensures
            r == self.raw_value(),
    {
        match self {
            OH_NativeXComponent_MouseEventAction::OH_NATIVEXCOMPONENT_MOUSE_NONE => 0,
            OH_NativeXComponent_MouseEventAction::OH_NATIVEXCOMPONENT_MOUSE_PRESS => 1,
            OH_NativeXComponent_MouseEventAction::OH_NATIVEXCOMPONENT_MOUSE_RELEASE => 2,
            OH_NativeXComponent_MouseEventAction::OH_NATIVEXCOMPONENT_MOUSE_MOVE => 3,
        }
    }

    /// The variant whose C value is `raw`, if there is one.
    pub open spec fn spec_from_raw(raw: i32) -> Option<Self> {
        if raw == 0 {
            Some(OH_NativeXComponent_MouseEventAction::OH_NATIVEXCOMPONENT_MOUSE_NONE)
        } else if raw == 1 {
            Some(OH_NativeXComponent_MouseEventAction::OH_NATIVEXCOMPONENT_MOUSE_PRESS)
        } else if raw == 2 {
            Some(OH_NativeXComponent_MouseEventAction::OH_NATIVEXCOMPONENT_MOUSE_RELEASE)
        } else if raw == 3 {
            Some(OH_NativeXComponent_MouseEventAction::OH_NATIVEXCOMPONENT_MOUSE_MOVE)
        } else {
            None
        }
    }

    /// The variant whose C value is `raw`, if there is one: `from_raw(v.to_raw())`
    /// is `Some(v)`, and no other number gives a variant.
    pub fn from_raw(raw: i32) -> (r: Option<Self>)
        ensures
            r == Self::spec_from_raw(raw),
            forall|v: Self| #[trigger] v.raw_value() == raw <==> r == Some(v),
    {
        if raw == 0 {
            Some(OH_NativeXComponent_MouseEventAction::OH_NATIVEXCOMPONENT_MOUSE_NONE)
        } else if raw == 1 {
            Some(OH_NativeXComponent_MouseEventAction::OH_NATIVEXCOMPONENT_MOUSE_PRESS)
        } else if raw == 2 {
            Some(OH_NativeXComponent_MouseEventAction::OH_NATIVEXCOMPONENT_MOUSE_RELEASE)
        } else if raw == 3 {
            Some(OH_NativeXComponent_MouseEventAction::OH_NATIVEXCOMPONENT_MOUSE_MOVE)
        } else {
            None
        }
    }
}

/// Buttons of a mouse event; the C values are single bits.
#[derive(Copy, Clone, Debug, PartialEq, Eq, Structural)]
pub enum OH_NativeXComponent_MouseEventButton {
    /// No button (C value 0).
    OH_NATIVEXCOMPONENT_NONE_BUTTON,
    /// Left button (C value 0x01).
    OH_NATIVEXCOMPONENT_LEFT_BUTTON,
    /// Right button (C value 0x02).
    OH_NATIVEXCOMPONENT_RIGHT_BUTTON,
    /// Middle button (C value 0x04).
    OH_NATIVEXCOMPONENT_MIDDLE_BUTTON,
    /// Back button (C value 0x08).
    OH_NATIVEXCOMPONENT_BACK_BUTTON,
    /// Forward button (C value 0x10).
    OH_NATIVEXCOMPONENT_FORWARD_BUTTON,
}

impl OH_NativeXComponent_MouseEventButton {
    /// The C value of the variant.
    pub open spec fn raw_value(self) -> i32 {
        match self {
            OH_NativeXComponent_MouseEventButton::OH_NATIVEXCOMPONENT_NONE_BUTTON => 0,
            OH_NativeXComponent_MouseEventButton::OH_NATIVEXCOMPONENT_LEFT_BUTTON => 0x01,
            OH_NativeXComponent_MouseEventButton::OH_NATIVEXCOMPONENT_RIGHT_BUTTON => 0x02,
            OH_NativeXComponent_MouseEventButton::OH_NATIVEXCOMPONENT_MIDDLE_BUTTON => 0x04,
            OH_NativeXComponent_MouseEventButton::OH_NATIVEXCOMPONENT_BACK_BUTTON => 0x08,
            OH_NativeXComponent_MouseEventButton::OH_NATIVEXCOMPONENT_FORWARD_BUTTON => 0x10,
        }
    }

    /// The C value of `self`.
    pub fn to_raw(self) -> (r: i32)
        ensures
            r == self.raw_value(),
    {
        match self {
            OH_NativeXComponent_MouseEventButton::OH_NATIVEXCOMPONENT_NONE_BUTTON => 0,
            OH_NativeXComponent_MouseEventButton::OH_NATIVEXCOMPONENT_LEFT_BUTTON => 0x01,
            OH_NativeXComponent_MouseEventButton::OH_NATIVEXCOMPONENT_RIGHT_BUTTON => 0x02,
            OH_NativeXComponent_MouseEventButton::OH_NATIVEXCOMPONENT_MIDDLE_BUTTON => 0x04,
            OH_NativeXComponent_MouseEventButton::OH_NATIVEXCOMPONENT_BACK_BUTTON => 0x08,
            OH_NativeXComponent_MouseEventButton::OH_NATIVEXCOMPONENT_FORWARD_BUTTON => 0x10,
        }
    }

    /// The variant whose C value is `raw`, if there is one.
    pub open spec fn spec_from_raw(raw: i32) -> Option<Self> {
        if raw == 0 {
            Some(OH_NativeXComponent_MouseEventButton::OH_NATIVEXCOMPONENT_NONE_BUTTON)
        } else if raw == 0x01 {
            Some(OH_NativeXComponent_MouseEventButton::OH_NATIVEXCOMPONENT_LEFT_BUTTON)
        } else if raw == 0x02 {
            Some(OH_NativeXComponent_MouseEventButton::OH_NATIVEXCOMPONENT_RIGHT_BUTTON)
        } else if raw == 0x04 {
            Some(OH_NativeXComponent_MouseEventButton::OH_NATIVEXCOMPONENT_MIDDLE_BUTTON)
        } else if raw == 0x08 {
            Some(OH_NativeXComponent_MouseEventButton::OH_NATIVEXCOMPONENT_BACK_BUTTON)
        } else if raw == 0x10 {
            Some(OH_NativeXComponent_MouseEventButton::OH_NATIVEXCOMPONENT_FORWARD_BUTTON)
        } else {
            None
        }
    }

    /// The variant whose C value is `raw`, if there is one: `from_raw(v.to_raw())`
    /// is `Some(v)`, and no other number gives a variant.
    pub fn from_raw(raw: i32) -> (r: Option<Self>)
        ensures
            r == Self::spec_from_raw(raw),
            forall|v: Self| #[trigger] v.raw_value() == raw <==> r == Some(v),
    {
        if raw == 0 {
            Some(OH_NativeXComponent_MouseEventButton::OH_NATIVEXCOMPONENT_NONE_BUTTON)
        } else if raw == 0x01 {
            Some(OH_NativeXComponent_MouseEventButton::OH_NATIVEXCOMPONENT_LEFT_BUTTON)
        } else if raw == 0x02 {
            Some(OH_NativeXComponent_MouseEventButton::OH_NATIVEXCOMPONENT_RIGHT_BUTTON)
        } else if raw == 0x04 {
            Some(OH_NativeXComponent_MouseEventButton::OH_NATIVEXCOMPONENT_MIDDLE_BUTTON)
        } else if raw == 0x08 {
            Some(OH_NativeXComponent_MouseEventButton::OH_NATIVEXCOMPONENT_BACK_BUTTON)
        } else if raw == 0x10 {
            Some(OH_NativeXComponent_MouseEventButton::OH_NATIVEXCOMPONENT_FORWARD_BUTTON)
        } else {
            None
        }
    }
}

/// One touch point of a touch event.
#[derive(Copy, Clone, Debug, PartialEq, Eq, Structural)]
pub struct OH_NativeXComponent_TouchPoint {
    /// Unique identifier of the finger.
    pub id: i32,
    /// Bits of the `f32` X coordinate relative to the left edge of the screen.
    pub screenX: u32,
    /// Bits of the `f32` Y coordinate relative to the upper edge of the screen.
    pub screenY: u32,
    /// Bits of the `f32` X coordinate relative to the left edge of the element.
    pub x: u32,
    /// Bits of the `f32` Y coordinate relative to the upper edge of the element.
    pub y: u32,
    /// Kind of the touch.
    pub event_type: OH_NativeXComponent_TouchEventType,
    /// Bits of the `f64` contact area between finger and screen.
    pub size: u64,
    /// Bits of the `f32` pressure of the touch.
    pub force: u32,
    /// Timestamp of the touch.
    pub timeStamp: i64,
    /// Whether the point is pressed.
    pub isPressed: bool,
}

/// A touch event.
#[derive(Copy, Clone, Debug)]
pub struct OH_NativeXComponent_TouchEvent {
    /// Unique identifier of the finger.
    pub id: i32,
    /// Bits of the `f32` X coordinate relative to the left edge of the screen.
    pub screenX: u32,
    /// Bits of the `f32` Y coordinate relative to the upper edge of the screen.
    pub screenY: u32,
    /// Bits of the `f32` X coordinate relative to the left edge of the element.
    pub x: u32,
    /// Bits of the `f32` Y coordinate relative to the upper edge of the element.
    pub y: u32,
    /// Kind of the touch.
    pub event_type: OH_NativeXComponent_TouchEventType,
    /// Bits of the `f64` contact area between finger and screen.
    pub size: u64,
    /// Bits of the `f32` pressure of the touch.
    pub force: u32,
    /// Identifier of the device that produced the event.
    pub deviceId: i64,
    /// Timestamp of the event.
    pub timeStamp: i64,
    /// The touch points of the event.
    pub touchPoints: Option<[OH_NativeXComponent_TouchPoint; 10]>,
    /// Number of touch points.
    pub numPoints: u32,
}

/// A mouse event.
#[derive(Copy, Clone, Debug, PartialEq, Eq, Structural)]
pub struct OH_NativeXComponent_MouseEvent {
    /// Bits of the `f32` X coordinate relative to the left edge of the element.
    pub x: u32,
    /// Bits of the `f32` Y coordinate relative to the upper edge of the element.
    pub y: u32,
    /// Bits of the `f32` X coordinate relative to the left edge of the screen.
    pub screenX: u32,
    /// Bits of the `f32` Y coordinate relative to the upper edge of the screen.
    pub screenY: u32,
    /// Timestamp of the event.
    pub timestamp: i64,
    /// Action of the event.
    pub action: OH_NativeXComponent_MouseEventAction,
    /// Button of the event.
    pub button: OH_NativeXComponent_MouseEventButton,
}

/// An input event of the OpenHarmony system.
#[derive(Copy, Clone, Debug)]
pub enum OHOS_Input_Event {
    MouseEvent(OH_NativeXComponent_MouseEvent),
    TouchEvent(OH_NativeXComponent_TouchEvent),
    NoEvent,
}

/// Reading back the C value of a variant gives the variant again, and a C
/// value read as a variant is that variant's value: `to_raw` and `from_raw`
/// undo each other.
pub proof fn lemma_raw_values_round_trip()
    ensures
        forall|v: OH_NativeXComponent_Result| #[trigger] OH_NativeXComponent_Result::spec_from_raw(v.raw_value()) == Some(v),
        forall|raw: i32| #[trigger] OH_NativeXComponent_Result::spec_from_raw(raw) matches Some(v) ==> v.raw_value() == raw,
        forall|v: OH_NativeXComponent_TouchEventType| #[trigger] OH_NativeXComponent_TouchEventType::spec_from_raw(v.raw_value()) == Some(v),
        forall|raw: i32| #[trigger] OH_NativeXComponent_TouchEventType::spec_from_raw(raw) matches Some(v) ==> v.raw_value() == raw,
        forall|v: OH_NativeXComponent_TouchPointToolType| #[trigger] OH_NativeXComponent_TouchPointToolType::spec_from_raw(v.raw_value()) == Some(v),
        forall|raw: i32| #[trigger] OH_NativeXComponent_TouchPointToolType::spec_from_raw(raw) matches Some(v) ==> v.raw_value() == raw,
        forall|v: OH_NativeXComponent_EventSourceType| #[trigger] OH_NativeXComponent_EventSourceType::spec_from_raw(v.raw_value()) == Some(v),
        forall|raw: i32| #[trigger] OH_NativeXComponent_EventSourceType::spec_from_raw(raw) matches Some(v) ==> v.raw_value() == raw,
        forall|v: OH_NativeXComponent_MouseEventAction| #[trigger] OH_NativeXComponent_MouseEventAction::spec_from_raw(v.raw_value()) == Some(v),
        forall|raw: i32| #[trigger] OH_NativeXComponent_MouseEventAction::spec_from_raw(raw) matches Some(v) ==> v.raw_value() == raw,
        forall|v: OH_NativeXComponent_MouseEventButton| #[trigger] OH_NativeXComponent_MouseEventButton::spec_from_raw(v.raw_value()) == Some(v),
        forall|raw: i32| #[trigger] OH_NativeXComponent_MouseEventButton::spec_from_raw(raw) matches Some(v) ==> v.raw_value() == raw,
{
}

} // verus!
