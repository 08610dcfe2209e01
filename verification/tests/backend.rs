use slint_ohos::calloop_backend::{loop_setup_error, Backend, Clipboard, LoopData, LoopSetupError, Proxy, ReceiverState};
use slint_ohos::error::{EventLoopError, PlatformError};

fn message(e: PlatformError) -> String {
    match e {
        PlatformError::Other(m) => m,
    }
}

fn fresh() -> Backend<u32> {
    match Backend::new(800, 600) {
        Ok(b) => b,
        Err(_) => panic!("backend"),
    }
}

#[test]
fn new_backend_waits_for_a_run() {
    let b = fresh();
    assert_eq!(b.width, 800);
    assert_eq!(b.height, 600);
    assert!(!b.window);
    assert!(b.ohos_event_receiver);
    assert_eq!(b.proxy.receiver, ReceiverState::Waiting);
    assert!(!b.proxy.loop_signal);
    assert!(b.clipboard_text(Clipboard::DefaultClipboard).is_none());
    assert!(b.clipboard_text(Clipboard::SelectionClipboard).is_none());
    let _data = LoopData::default();
}

#[test]
fn clipboard_gives_back_what_was_set() {
    let mut b = fresh();
    b.set_clipboard_text("hello", Clipboard::DefaultClipboard);
    assert_eq!(b.clipboard_text(Clipboard::DefaultClipboard), Some("hello".to_string()));
    assert_eq!(b.clipboard_text(Clipboard::SelectionClipboard), None);
    b.set_clipboard_text("sel", Clipboard::SelectionClipboard);
    assert_eq!(b.clipboard_text(Clipboard::SelectionClipboard), Some("sel".to_string()));
    assert_eq!(b.clipboard_text(Clipboard::DefaultClipboard), Some("hello".to_string()));
    b.set_clipboard_text("again", Clipboard::DefaultClipboard);
    assert_eq!(b.clipboard_text(Clipboard::DefaultClipboard), Some("again".to_string()));
    b.set_clipboard_text("ignored", Clipboard::Other);
    assert_eq!(b.clipboard_text(Clipboard::Other), None);
    assert_eq!(b.clipboard_text(Clipboard::SelectionClipboard), Some("sel".to_string()));
}

#[test]
fn run_without_window_is_refused() {
    let b = fresh();
    let r = b.check_window_adapter();
    assert_eq!(message(r.unwrap_err()), "Error windows adapter ");
}

#[test]
fn failed_window_adapter_is_handed_back() {
    let mut b = fresh();
    let r = b.create_window_adapter(Err(PlatformError::Other("no renderer".to_string())));
    assert_eq!(message(r.unwrap_err()), "no renderer");
    assert!(!b.window);
    assert!(b.create_window_adapter(Ok(())).is_ok());
    assert!(b.window);
    assert!(b.check_window_adapter().is_ok());
}

#[test]
fn quit_before_run_is_refused() {
    let mut p: Proxy<u32> = Proxy::new();
    assert_eq!(p.quit_event_loop(), Err(EventLoopError::EventLoopTerminated));
    assert!(!p.quit_loop);
}

#[test]
fn a_run_invokes_posted_callbacks_in_order_then_refuses() {
    let mut b = fresh();
    assert!(b.create_window_adapter(Ok(())).is_ok());
    assert_eq!(b.proxy.invoke_from_event_loop(1), Ok(()));
    assert!(b.check_window_adapter().is_ok());
    assert!(b.take_ohos_event_receiver().is_ok());
    assert!(b.take_user_event_receiver().is_ok());
    b.start_dispatching();
    assert!(b.keep_running());
    assert_eq!(b.proxy.invoke_from_event_loop(2), Ok(()));
    assert_eq!(b.take_callbacks(), Vec::<u32>::new());
    b.collect_user_events();
    assert_eq!(b.proxy.invoke_from_event_loop(3), Ok(()));
    assert_eq!(b.take_callbacks(), vec![1, 2]);
    b.collect_user_events();
    assert_eq!(b.take_callbacks(), vec![3]);
    assert_eq!(b.proxy.quit_event_loop(), Ok(()));
    assert!(!b.keep_running());
    assert_eq!(b.proxy.invoke_from_event_loop(4), Ok(()));
    b.end_event_loop();
    assert_eq!(b.proxy.receiver, ReceiverState::Dropped);
    assert!(b.proxy.user_events.is_empty());
    assert_eq!(b.proxy.invoke_from_event_loop(5), Err(EventLoopError::EventLoopTerminated));
    assert!(b.proxy.user_events.is_empty());
}

#[test]
fn second_run_is_refused() {
    let mut b = fresh();
    assert!(b.create_window_adapter(Ok(())).is_ok());
    assert!(b.take_ohos_event_receiver().is_ok());
    assert!(b.take_user_event_receiver().is_ok());
    b.start_dispatching();
    b.end_event_loop();
    let r = b.take_ohos_event_receiver();
    assert_eq!(message(r.unwrap_err()), "Re-entering the calloop event loop is currently not supported");
    let r = b.take_user_event_receiver();
    assert_eq!(message(r.unwrap_err()), "Re-entering the ohos event loop is currently not supported");
}

#[test]
fn failed_run_before_user_channel_keeps_posted_callbacks() {
    let mut b = fresh();
    assert!(b.create_window_adapter(Ok(())).is_ok());
    assert!(b.take_ohos_event_receiver().is_ok());
    assert_eq!(b.proxy.invoke_from_event_loop(9), Ok(()));
    b.end_event_loop();
    assert_eq!(b.proxy.receiver, ReceiverState::Waiting);
    assert_eq!(b.proxy.user_events, vec![9]);
    assert_eq!(b.proxy.invoke_from_event_loop(10), Ok(()));
}

#[test]
fn loop_setup_messages() {
    assert_eq!(message(loop_setup_error(&LoopSetupError::CreateEventLoop)), "Error creating event loop");
    assert_eq!(
        message(loop_setup_error(&LoopSetupError::Dispatch("epoll".to_string()))),
        "Error dispatch events: epoll"
    );
    assert_eq!(
        message(loop_setup_error(&LoopSetupError::RegisterInput("x".to_string()))),
        "Error registering libinput event source: x"
    );
    assert_eq!(
        message(loop_setup_error(&LoopSetupError::RegisterUserEvents("y".to_string()))),
        "Error registering user event channel source: y"
    );
}

#[test]
fn loop_stops_only_after_accepted_quit_and_drops_late_callbacks() {
    let mut b = fresh();
    assert!(b.create_window_adapter(Ok(())).is_ok());
    assert!(b.take_ohos_event_receiver().is_ok());
    assert!(b.take_user_event_receiver().is_ok());
    b.start_dispatching();
    let mut invoked = Vec::new();
    let mut posted: u32 = 0;
    let mut iterations = 0;
    while b.keep_running() {
        iterations += 1;
        invoked.extend(b.take_callbacks());
        if posted < 5 {
            assert_eq!(b.proxy.invoke_from_event_loop(posted), Ok(()));
            posted += 1;
            assert_eq!(b.proxy.invoke_from_event_loop(100 + posted), Ok(()));
        } else {
            assert_eq!(b.proxy.invoke_from_event_loop(999), Ok(()));
            assert_eq!(b.proxy.quit_event_loop(), Ok(()));
        }
        b.collect_user_events();
    }
    assert_eq!(iterations, 6);
    assert_eq!(invoked, vec![0, 101, 1, 102, 2, 103, 3, 104, 4, 105]);
    b.end_event_loop();
    assert!(b.take_callbacks().is_empty());
    assert_eq!(b.proxy.invoke_from_event_loop(7), Err(EventLoopError::EventLoopTerminated));
}
