//! A verified model of the OpenHarmony backend of the Slint toolkit:
//! the C event types handed over by the native XComponent, the queues and
//! state machines of the event loop, and the decisions taken on the way.
pub mod calloop_backend;
pub mod display;
pub mod error;
pub mod input;
pub mod ohos;
pub mod status;
