//! Input events: the queue they can be kept in, and the window events of
//! the toolkit that they become.

use vstd::prelude::*;
use crate::error::EventLoopError;
use crate::ohos::{
    OH_NativeXComponent_MouseEvent, OH_NativeXComponent_MouseEventAction, OH_NativeXComponent_MouseEventButton, OH_NativeXComponent_TouchEvent,
    OH_NativeXComponent_TouchEventType, OHOS_Input_Event,
};

verus! {

/// A queue of input events received from the system.
pub enum OHOSEventQueue {
    Queue(Vec<OHOS_Input_Event>),
}

impl View for OHOSEventQueue {
    type V = Seq<OHOS_Input_Event>;

    /// The events in the queue, oldest first.
    open spec fn view(&self) -> Seq<OHOS_Input_Event> {
        match self {
            OHOSEventQueue::Queue(queue) => queue@,
        }
    }
}

impl OHOSEventQueue {
    /// Puts `event` at the end of the queue; this never fails.
    pub fn send_event(&mut self, event: OHOS_Input_Event) -> (r: Result<(), EventLoopError>)
        ensures
            r is Ok,
            final(self)@ == old(self)@.push(event),
    {
        match self {
            OHOSEventQueue::Queue(queue) => {
                queue.push(event);
                Ok(())
            },
        }
    }
}

impl Default for OHOSEventQueue {
    /// The empty queue.
    fn default() -> (r: Self)
        ensures
            r@ == Seq::<OHOS_Input_Event>::empty(),
    {
        OHOSEventQueue::Queue(Vec::new())
    }
}

/// A position in logical pixels; each coordinate is the bit pattern of the
/// toolkit's `f32` coordinate.
#[derive(Copy, Clone, Debug, PartialEq, Eq, Structural)]
pub struct LogicalPosition {
    pub x: u32,
    pub y: u32,
}

/// The pointer buttons of the toolkit.
#[derive(Copy, Clone, Debug, PartialEq, Eq, Structural)]
pub enum PointerEventButton {
    /// A button that is none of left, right or middle.
    Other,
    Left,
    Right,
    Middle,
}

/// The window events that input from the system becomes.
#[derive(Copy, Clone, Debug, PartialEq, Eq, Structural)]
pub enum WindowEvent {
    /// A pointer button was pressed at `position`.
    PointerPressed { position: LogicalPosition, button: PointerEventButton },
    /// A pointer button was released at `position`.
    PointerReleased { position: LogicalPosition, button: PointerEventButton },
    /// The pointer moved to `position`.
    PointerMoved { position: LogicalPosition },
}

/// The toolkit's button for a mouse button of the system: left, right and
/// middle are themselves, any other button (none, back, forward) is `Other`.
pub open spec fn spec_pointer_button(button: OH_NativeXComponent_MouseEventButton) -> PointerEventButton {
    match button {
        OH_NativeXComponent_MouseEventButton::OH_NATIVEXCOMPONENT_NONE_BUTTON => PointerEventButton::Other,
        OH_NativeXComponent_MouseEventButton::OH_NATIVEXCOMPONENT_LEFT_BUTTON => PointerEventButton::Left,
        OH_NativeXComponent_MouseEventButton::OH_NATIVEXCOMPONENT_RIGHT_BUTTON => PointerEventButton::Right,
        OH_NativeXComponent_MouseEventButton::OH_NATIVEXCOMPONENT_MIDDLE_BUTTON => PointerEventButton::Middle,
        OH_NativeXComponent_MouseEventButton::OH_NATIVEXCOMPONENT_BACK_BUTTON => PointerEventButton::Other,
        OH_NativeXComponent_MouseEventButton::OH_NATIVEXCOMPONENT_FORWARD_BUTTON => PointerEventButton::Other,
    }
}

/// The toolkit's button for the mouse button `button` of the system.
pub fn pointer_button(button: OH_NativeXComponent_MouseEventButton) -> (r: PointerEventButton)
    ensures
        r == spec_pointer_button(button),
        names_button(button, r),
{
    match button {
        OH_NativeXComponent_MouseEventButton::OH_NATIVEXCOMPONENT_NONE_BUTTON => PointerEventButton::Other,
        OH_NativeXComponent_MouseEventButton::OH_NATIVEXCOMPONENT_LEFT_BUTTON => PointerEventButton::Left,
        OH_NativeXComponent_MouseEventButton::OH_NATIVEXCOMPONENT_RIGHT_BUTTON => PointerEventButton::Right,
        OH_NativeXComponent_MouseEventButton::OH_NATIVEXCOMPONENT_MIDDLE_BUTTON => PointerEventButton::Middle,
        OH_NativeXComponent_MouseEventButton::OH_NATIVEXCOMPONENT_BACK_BUTTON => PointerEventButton::Other,
        OH_NativeXComponent_MouseEventButton::OH_NATIVEXCOMPONENT_FORWARD_BUTTON => PointerEventButton::Other,
    }
}

/// The window event that `event` becomes, at the position relative to the
/// element. A touch acts as the left button: going down presses it, going
/// up or being cancelled releases it, moving moves the pointer. A mouse
/// press, release or move is the pointer event of the same name, with the
/// mouse's button. A touch of unknown kind, a mouse event without action,
/// and no event give no window event.
pub open spec fn spec_window_event_for(event: OHOS_Input_Event) -> Option<WindowEvent> {
    match event {
        OHOS_Input_Event::TouchEvent(touch) => {
            let position = LogicalPosition { x: touch.x, y: touch.y };
            match touch.event_type {
                OH_NativeXComponent_TouchEventType::OH_NATIVEXCOMPONENT_DOWN =>
                    Some(WindowEvent::PointerPressed { position, button: PointerEventButton::Left }),
                OH_NativeXComponent_TouchEventType::OH_NATIVEXCOMPONENT_UP =>
                    Some(WindowEvent::PointerReleased { position, button: PointerEventButton::Left }),
                OH_NativeXComponent_TouchEventType::OH_NATIVEXCOMPONENT_MOVE =>
                    Some(WindowEvent::PointerMoved { position }),
                OH_NativeXComponent_TouchEventType::OH_NATIVEXCOMPONENT_CANCEL =>
                    Some(WindowEvent::PointerReleased { position, button: PointerEventButton::Left }),
                OH_NativeXComponent_TouchEventType::OH_NATIVEXCOMPONENT_UNKNOWN => None,
            }
        },
        OHOS_Input_Event::MouseEvent(mouse) => {
            let position = LogicalPosition { x: mouse.x, y: mouse.y };
            match mouse.action {
                OH_NativeXComponent_MouseEventAction::OH_NATIVEXCOMPONENT_MOUSE_PRESS =>
                    Some(WindowEvent::PointerPressed { position, button: spec_pointer_button(mouse.button) }),
                OH_NativeXComponent_MouseEventAction::OH_NATIVEXCOMPONENT_MOUSE_RELEASE =>
                    Some(WindowEvent::PointerReleased { position, button: spec_pointer_button(mouse.button) }),
                OH_NativeXComponent_MouseEventAction::OH_NATIVEXCOMPONENT_MOUSE_MOVE =>
                    Some(WindowEvent::PointerMoved { position }),
                OH_NativeXComponent_MouseEventAction::OH_NATIVEXCOMPONENT_MOUSE_NONE => None,
            }
        },
        OHOS_Input_Event::NoEvent => None,
    }
}

/// The window event to dispatch for the input event `event`, if any.
pub fn window_event_for(event: &OHOS_Input_Event) -> (r: Option<WindowEvent>)
    ensures
        r == spec_window_event_for(*event),
        r matches Some(w) ==> match *event {
            OHOS_Input_Event::TouchEvent(t) => event_position(w) == (LogicalPosition { x: t.x, y: t.y }),
            OHOS_Input_Event::MouseEvent(m) => event_position(w) == (LogicalPosition { x: m.x, y: m.y }),
            OHOS_Input_Event::NoEvent => false,
        },
{
    match event {
        OHOS_Input_Event::TouchEvent(touch) => {
            let position = LogicalPosition { x: touch.x, y: touch.y };
            match touch.event_type {
                OH_NativeXComponent_TouchEventType::OH_NATIVEXCOMPONENT_DOWN =>
                    Some(WindowEvent::PointerPressed { position, button: PointerEventButton::Left }),
                OH_NativeXComponent_TouchEventType::OH_NATIVEXCOMPONENT_UP =>
                    Some(WindowEvent::PointerReleased { position, button: PointerEventButton::Left }),
                OH_NativeXComponent_TouchEventType::OH_NATIVEXCOMPONENT_MOVE =>
                    Some(WindowEvent::PointerMoved { position }),
                OH_NativeXComponent_TouchEventType::OH_NATIVEXCOMPONENT_CANCEL =>
                    Some(WindowEvent::PointerReleased { position, button: PointerEventButton::Left }),
                OH_NativeXComponent_TouchEventType::OH_NATIVEXCOMPONENT_UNKNOWN => None,
            }
        },
        OHOS_Input_Event::MouseEvent(mouse) => {
            let position = LogicalPosition { x: mouse.x, y: mouse.y };
            match mouse.action {
                OH_NativeXComponent_MouseEventAction::OH_NATIVEXCOMPONENT_MOUSE_PRESS =>
                    Some(WindowEvent::PointerPressed { position, button: pointer_button(mouse.button) }),
                OH_NativeXComponent_MouseEventAction::OH_NATIVEXCOMPONENT_MOUSE_RELEASE =>
                    Some(WindowEvent::PointerReleased { position, button: pointer_button(mouse.button) }),
                OH_NativeXComponent_MouseEventAction::OH_NATIVEXCOMPONENT_MOUSE_MOVE =>
                    Some(WindowEvent::PointerMoved { position }),
                OH_NativeXComponent_MouseEventAction::OH_NATIVEXCOMPONENT_MOUSE_NONE => None,
            }
        },
        OHOS_Input_Event::NoEvent => None,
    }
}

/// A touch that goes down and comes up again at the same place makes a
/// complete click of the left button: a press followed by a release there.
pub proof fn lemma_touch_click_completes(down: OH_NativeXComponent_TouchEvent, up: OH_NativeXComponent_TouchEvent)
    requires
        down.event_type == OH_NativeXComponent_TouchEventType::OH_NATIVEXCOMPONENT_DOWN,
        up.event_type == OH_NativeXComponent_TouchEventType::OH_NATIVEXCOMPONENT_UP,
        down.x == up.x,
        down.y == up.y,
    ensures
        spec_window_event_for(OHOS_Input_Event::TouchEvent(down)) matches Some(WindowEvent::PointerPressed { position: p, button: b })
            && spec_window_event_for(OHOS_Input_Event::TouchEvent(up)) == Some(WindowEvent::PointerReleased { position: p, button: b })
            && b == PointerEventButton::Left,
{
}

/// Where a window event takes place, if it has a position.
pub open spec fn event_position(event: WindowEvent) -> LogicalPosition {
    match event {
        WindowEvent::PointerPressed { position, .. } => position,
        WindowEvent::PointerReleased { position, .. } => position,
        WindowEvent::PointerMoved { position } => position,
    }
}

/// Every window event made from a touch or a mouse event takes place at
/// that event's position relative to the element, unchanged: its `x` is the
/// input's `x` and its `y` the input's `y`.
pub proof fn lemma_window_event_keeps_element_position(event: OHOS_Input_Event)
    ensures
        spec_window_event_for(event) matches Some(w) ==> match event {
            OHOS_Input_Event::TouchEvent(t) => event_position(w).x == t.x && event_position(w).y == t.y,
            OHOS_Input_Event::MouseEvent(m) => event_position(w).x == m.x && event_position(w).y == m.y,
            OHOS_Input_Event::NoEvent => false,
        },
{
}

/// Each kind of touch becomes the pointer event of the left button that it
/// acts as, at the touch's element position: down presses, up and cancel
/// release, move moves; a touch of unknown kind gives nothing.
pub proof fn lemma_touch_events(t: OH_NativeXComponent_TouchEvent)
    ensures
        t.event_type == OH_NativeXComponent_TouchEventType::OH_NATIVEXCOMPONENT_DOWN ==>
            spec_window_event_for(OHOS_Input_Event::TouchEvent(t)) == Some(WindowEvent::PointerPressed {
                position: LogicalPosition { x: t.x, y: t.y },
                button: PointerEventButton::Left,
            }),
        (t.event_type == OH_NativeXComponent_TouchEventType::OH_NATIVEXCOMPONENT_UP
            || t.event_type == OH_NativeXComponent_TouchEventType::OH_NATIVEXCOMPONENT_CANCEL) ==>
            spec_window_event_for(OHOS_Input_Event::TouchEvent(t)) == Some(WindowEvent::PointerReleased {
                position: LogicalPosition { x: t.x, y: t.y },
                button: PointerEventButton::Left,
            }),
        t.event_type == OH_NativeXComponent_TouchEventType::OH_NATIVEXCOMPONENT_MOVE ==>
            spec_window_event_for(OHOS_Input_Event::TouchEvent(t)) == Some(WindowEvent::PointerMoved {
                position: LogicalPosition { x: t.x, y: t.y },
            }),
        t.event_type == OH_NativeXComponent_TouchEventType::OH_NATIVEXCOMPONENT_UNKNOWN ==>
            spec_window_event_for(OHOS_Input_Event::TouchEvent(t)) is None,
{
}

/// The toolkit button that a mouse button stands for: left, right and
/// middle as themselves, any other button (none, back, forward) as `Other`.
pub open spec fn names_button(m: OH_NativeXComponent_MouseEventButton, b: PointerEventButton) -> bool {
    &&& m == OH_NativeXComponent_MouseEventButton::OH_NATIVEXCOMPONENT_LEFT_BUTTON ==> b == PointerEventButton::Left
    &&& m == OH_NativeXComponent_MouseEventButton::OH_NATIVEXCOMPONENT_RIGHT_BUTTON ==> b == PointerEventButton::Right
    &&& m == OH_NativeXComponent_MouseEventButton::OH_NATIVEXCOMPONENT_MIDDLE_BUTTON ==> b == PointerEventButton::Middle
    &&& (m == OH_NativeXComponent_MouseEventButton::OH_NATIVEXCOMPONENT_NONE_BUTTON
        || m == OH_NativeXComponent_MouseEventButton::OH_NATIVEXCOMPONENT_BACK_BUTTON
        || m == OH_NativeXComponent_MouseEventButton::OH_NATIVEXCOMPONENT_FORWARD_BUTTON) ==> b == PointerEventButton::Other
}

/// Each mouse button is passed on as the toolkit button it stands for.
pub proof fn lemma_pointer_button(m: OH_NativeXComponent_MouseEventButton)
    ensures
        names_button(m, spec_pointer_button(m)),
{
}

/// A mouse press or release is the pointer event of the same name, for the
/// toolkit button that the mouse's button stands for, and a move moves the
/// pointer, all at the element position; a mouse event without action gives
/// nothing.
pub proof fn lemma_mouse_events(m: OH_NativeXComponent_MouseEvent)
    ensures
        m.action == OH_NativeXComponent_MouseEventAction::OH_NATIVEXCOMPONENT_MOUSE_PRESS ==>
            (spec_window_event_for(OHOS_Input_Event::MouseEvent(m)) matches Some(WindowEvent::PointerPressed { position, button })
                && position == (LogicalPosition { x: m.x, y: m.y }) && names_button(m.button, button)),
        m.action == OH_NativeXComponent_MouseEventAction::OH_NATIVEXCOMPONENT_MOUSE_RELEASE ==>
            (spec_window_event_for(OHOS_Input_Event::MouseEvent(m)) matches Some(WindowEvent::PointerReleased { position, button })
                && position == (LogicalPosition { x: m.x, y: m.y }) && names_button(m.button, button)),
        m.action == OH_NativeXComponent_MouseEventAction::OH_NATIVEXCOMPONENT_MOUSE_MOVE ==>
            spec_window_event_for(OHOS_Input_Event::MouseEvent(m)) == Some(WindowEvent::PointerMoved {
                position: LogicalPosition { x: m.x, y: m.y },
            }),
        m.action == OH_NativeXComponent_MouseEventAction::OH_NATIVEXCOMPONENT_MOUSE_NONE ==>
            spec_window_event_for(OHOS_Input_Event::MouseEvent(m)) is None,
{
}

/// A press and a release made from the same button at the same place name
/// the same toolkit button there, whether from a touch or a mouse.
pub proof fn lemma_mouse_click_completes(down: OH_NativeXComponent_MouseEvent, up: OH_NativeXComponent_MouseEvent)
    requires
        down.action == OH_NativeXComponent_MouseEventAction::OH_NATIVEXCOMPONENT_MOUSE_PRESS,
        up.action == OH_NativeXComponent_MouseEventAction::OH_NATIVEXCOMPONENT_MOUSE_RELEASE,
        down.button == up.button,
        down.x == up.x,
        down.y == up.y,
    ensures
        spec_window_event_for(OHOS_Input_Event::MouseEvent(down)) matches Some(WindowEvent::PointerPressed { position: p, button: b })
            && spec_window_event_for(OHOS_Input_Event::MouseEvent(up)) == Some(WindowEvent::PointerReleased { position: p, button: b }),
{
}

} // verus!
