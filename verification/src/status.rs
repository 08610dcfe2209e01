//! The numbers and messages that the functions exported to the native side
//! answer with.

use vstd::prelude::*;
use crate::error::PlatformError;

verus! {

/// The sum exported to the JavaScript side: `a + b + 100`.
pub fn sum(a: i32, b: i32) -> (r: i32)
    requires
        i32::MIN <= a + b <= i32::MAX,
        a + b + 100 <= i32::MAX,
    ensures
        r == a + b + 100,
{
    a + b + 100
}

/// What the asynchronous export resolves to once the awaited number `v` is
/// there: `v + 210`.
pub fn async_plus_100(v: u32) -> (r: u32)
    requires
        v + 210 <= u32::MAX,
    ensures
        r == v + 210,
{
    v + 210
}

/// The status code of the EGL set-up: 0 on success, -1 on failure (the
/// caller then copies the error's message out).
pub fn egl_status(result: &Result<i32, PlatformError>) -> (r: i32)
    ensures
        r == (if result is Ok { 0i32 } else { -1i32 }),
{
    match result {
        Ok(_) => 0,
        Err(_) => -1,
    }
}

/// How the hand-over of an input event to the event loop went.
pub enum DeliveryOutcome {
    /// No sender was installed: no backend was created.
    NoSender,
    /// The sender's lock was poisoned; the text is the error's display.
    LockFailed(String),
    /// Sending failed; the text is the error's display.
    SendFailed(String),
    /// The event was sent.
    Sent,
}

/// The status code and message answered for a delivery: 0 and "事件发送成功"
/// when the event was sent, otherwise -1 and "事件发送失败" followed by the
/// reason.
pub open spec fn spec_event_proxy_report(outcome: &DeliveryOutcome) -> (i32, Seq<char>) {
    match outcome {
        DeliveryOutcome::NoSender => (-1i32, "事件发送失败,没有找到发送端"@),
        DeliveryOutcome::LockFailed(e) => (-1i32, "事件发送失败"@ + e@),
        DeliveryOutcome::SendFailed(e) => (-1i32, "事件发送失败"@ + e@),
        DeliveryOutcome::Sent => (0i32, "事件发送成功"@),
    }
}

/// The status code and message for the delivery `outcome`.
pub fn slint_event_proxy(outcome: &DeliveryOutcome) -> (r: (i32, String))
    ensures
        (r.0, r.1@) == spec_event_proxy_report(outcome),
{
    match outcome {
        DeliveryOutcome::NoSender => (-1, String::from_str("事件发送失败,没有找到发送端")),
        DeliveryOutcome::LockFailed(e) => {
            let mut message = String::from_str("事件发送失败");
            message.append(e.as_str());
            (-1, message)
        },
        DeliveryOutcome::SendFailed(e) => {
            let mut message = String::from_str("事件发送失败");
            message.append(e.as_str());
            (-1, message)
        },
        DeliveryOutcome::Sent => (0, String::from_str("事件发送成功")),
    }
}

/// How building and running the user interface went.
pub enum UiOutcome {
    /// The window could not be built; the text is the error's debug form.
    BuildFailed(String),
    /// The window ran and failed; the text is the error's debug form.
    RunFailed(String),
    /// The window ran to its end.
    Ran,
}

/// How the start-up of the toolkit went.
pub enum InitOutcome {
    /// The backend could not be created; the text is the error's debug form.
    BackendFailed(String),
    /// The backend was created; installing it as the platform gave
    /// `platform` (the error's debug form on failure), then the user
    /// interface gave `ui`.
    BackendCreated { platform: Result<(), String>, ui: UiOutcome },
}

/// The status code and message answered for a start-up: the outcome of the
/// user interface decides both, whatever installing the platform gave; when
/// the backend could not be created the message is its error and the code
/// stays 0.
pub open spec fn spec_init_report(outcome: &InitOutcome) -> (i32, Seq<char>) {
    match outcome {
        InitOutcome::BackendFailed(e) => (0i32, e@),
        InitOutcome::BackendCreated { platform, ui } => match ui {
            UiOutcome::BuildFailed(e) => (-1i32, "构建失败:"@ + e@),
            UiOutcome::RunFailed(e) => (-1i32, "运行失败:"@ + e@),
            UiOutcome::Ran => (0i32, "运行成功"@),
        },
    }
}

/// The status code and message for the start-up `outcome`, following the
/// steps in turn: each step that runs sets the message, and the error flag
/// where it fails or where the user interface ran.
pub fn init_slint(outcome: &InitOutcome) -> (r: (i32, String))
    ensures
        (r.0, r.1@) == spec_init_report(outcome),
{
    let mut errored = false;
    let mut message = String::from_str("运行成功");
    match outcome {
        InitOutcome::BackendFailed(e) => {
            message = e.clone();
        },
        InitOutcome::BackendCreated { platform, ui } => {
            match platform {
                Ok(()) => {
                    message = String::from_str("设置平台信息成功");
                },
                Err(e) => {
                    errored = true;
                    message = String::from_str("设置失败:");
                    message.append(e.as_str());
                },
            }
            match ui {
                UiOutcome::BuildFailed(e) => {
                    errored = true;
                    message = String::from_str("构建失败:");
                    message.append(e.as_str());
                },
                UiOutcome::RunFailed(e) => {
                    errored = true;
                    message = String::from_str("运行失败:");
                    message.append(e.as_str());
                },
                UiOutcome::Ran => {
                    errored = false;
                    message = String::from_str("运行成功");
                },
            }
        },
    }
    if errored {
        (-1, message)
    } else {
        (0, message)
    }
}

/// Installing the platform never shows in the answer to a start-up: two
/// start-ups that differ only there are answered alike.
pub proof fn lemma_platform_outcome_hidden(first: Result<(), String>, second: Result<(), String>, ui: UiOutcome)
    ensures
        spec_init_report(&InitOutcome::BackendCreated { platform: first, ui })
            == spec_init_report(&InitOutcome::BackendCreated { platform: second, ui }),
{
}

/// A start-up answers -1 exactly when the user interface could not be built
/// or failed; a failed backend is answered with 0.
pub proof fn lemma_init_status(outcome: &InitOutcome)
    ensures
        spec_init_report(outcome).0 == -1 <==> (outcome matches InitOutcome::BackendCreated { ui, .. }
            && !(ui is Ran)),
        spec_init_report(outcome).0 == -1 || spec_init_report(outcome).0 == 0,
{
}

} // verus!
