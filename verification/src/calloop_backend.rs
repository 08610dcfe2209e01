//! The backend's state and the decisions of its event loop.
//!
//! The event loop itself (waiting for events, timers, rendering) runs
//! outside; at each of its steps it asks the `Backend` what to do and tells
//! it what happened. The backend keeps the window state, the two clipboards,
//! the two event channels whose receiving ends a run of the loop takes, and
//! the proxy through which other threads post callbacks to the loop or ask
//! it to quit. A callback is any value of type `C`.

use vstd::prelude::*;
use crate::error::{prefixed_error, EventLoopError, PlatformError, platform_error, platform_result_view};

verus! {

/// Where the receiving end of the channel of posted callbacks is.
#[derive(Copy, Clone, Debug, PartialEq, Eq, Structural)]
pub enum ReceiverState {
    /// Held by the backend, waiting for a run of the event loop.
    Waiting,
    /// Taken by a running event loop.
    Registered,
    /// Dropped with the event loop that had taken it.
    Dropped,
}

/// Which clipboard an operation is about.
#[derive(Copy, Clone, Debug, PartialEq, Eq, Structural)]
pub enum Clipboard {
    /// The default clipboard.
    DefaultClipboard,
    /// The selection clipboard.
    SelectionClipboard,
    /// Any other clipboard the toolkit may name; the backend keeps none.
    Other,
}

/// What the proxy holds, as plain values.
pub struct ProxyView<C> {
    pub loop_signal: bool,
    pub quit_loop: bool,
    pub receiver: ReceiverState,
    pub user_events: Seq<C>,
}

impl<C> ProxyView<C> {
    /// Posted callbacks wait only while some loop can still receive them.
    pub open spec fn wf(self) -> bool {
        self.receiver == ReceiverState::Dropped ==> self.user_events.len() == 0
    }

    /// Asking the loop to quit: refused while no loop has registered its
    /// signal, else the quit flag is raised.
    pub open spec fn quit(self) -> (ProxyView<C>, Result<(), EventLoopError>) {
        if !self.loop_signal {
            (self, Err(EventLoopError::EventLoopTerminated))
        } else {
            (ProxyView { quit_loop: true, ..self }, Ok(()))
        }
    }

    /// Posting a callback: refused once the receiving end is dropped, else
    /// the callback joins the end of the channel.
    pub open spec fn invoke(self, event: C) -> (ProxyView<C>, Result<(), EventLoopError>) {
        if self.receiver == ReceiverState::Dropped {
            (self, Err(EventLoopError::EventLoopTerminated))
        } else {
            (ProxyView { user_events: self.user_events.push(event), ..self }, Ok(()))
        }
    }

    /// Posting each callback of `events` in turn.
    pub open spec fn invoke_all(self, events: Seq<C>) -> ProxyView<C>
        decreases events.len(),
    {
        if events.len() == 0 {
            self
        } else {
            self.invoke_all(events.drop_last()).invoke(events.last()).0
        }
    }
}

/// The state shared with the event-loop proxies: the loop's wake-up signal
/// (whether a loop has registered one), the quit flag, and the channel of
/// posted callbacks.
pub struct Proxy<C> {
    pub loop_signal: bool,
    pub quit_loop: bool,
    pub receiver: ReceiverState,
    pub user_events: Vec<C>,
}

impl<C> View for Proxy<C> {
    type V = ProxyView<C>;

    open spec fn view(&self) -> ProxyView<C> {
        ProxyView {
            loop_signal: self.loop_signal,
            quit_loop: self.quit_loop,
            receiver: self.receiver,
            user_events: self.user_events@,
        }
    }
}

impl<C> Proxy<C> {
    /// A proxy of a backend whose event loop has not run: no signal, no quit
    /// request, an empty channel whose receiving end waits for a run.
    pub fn new() -> (p: Self)
        ensures
            p@.wf(),
            p@ == (ProxyView::<C> {
                loop_signal: false,
                quit_loop: false,
                receiver: ReceiverState::Waiting,
                user_events: Seq::empty(),
            }),
    {
        Proxy { loop_signal: false, quit_loop: false, receiver: ReceiverState::Waiting, user_events: Vec::new() }
    }

    /// Asks the running loop to quit. Fails with `EventLoopTerminated`, and
    /// changes nothing, while no loop has registered its signal; otherwise
    /// raises the quit flag (the caller then wakes the loop up).
    pub fn quit_event_loop(&mut self) -> (r: Result<(), EventLoopError>)
        requires
            old(self)@.wf(),
        ensures
            final(self)@.wf(),
            (final(self)@, r) == old(self)@.quit(),
    {
        if !self.loop_signal {
            Err(EventLoopError::EventLoopTerminated)
        } else {
            self.quit_loop = true;
            Ok(())
        }
    }

    /// Posts `event` to be invoked by the event loop. Fails with
    /// `EventLoopTerminated`, dropping the event, once the loop that took the
    /// channel has ended; otherwise the event joins the end of the channel.
    pub fn invoke_from_event_loop(&mut self, event: C) -> (r: Result<(), EventLoopError>)
        requires
            old(self)@.wf(),
        ensures
            final(self)@.wf(),
            (final(self)@, r) == old(self)@.invoke(event),
    {
        if self.receiver == ReceiverState::Dropped {
            Err(EventLoopError::EventLoopTerminated)
        } else {
            self.user_events.push(event);
            Ok(())
        }
    }
}

/// The message when the loop is run before a window adapter exists.
pub open spec fn no_window_message() -> Seq<char> {
    "Error windows adapter "@
}

/// The message when the input-event channel was taken by an earlier run.
pub open spec fn reentry_input_message() -> Seq<char> {
    "Re-entering the calloop event loop is currently not supported"@
}

/// The message when the channel of posted callbacks was taken by an earlier run.
pub open spec fn reentry_user_message() -> Seq<char> {
    "Re-entering the ohos event loop is currently not supported"@
}

/// The steps of a run of the event loop that fail outside, each with the
/// outside error's display where there is one.
pub enum LoopSetupError {
    CreateEventLoop,
    RegisterInput(String),
    RegisterUserEvents(String),
    Dispatch(String),
}

/// The message reported for a failed step of a run.
pub open spec fn spec_loop_setup_message(e: &LoopSetupError) -> Seq<char> {
    match e {
        LoopSetupError::CreateEventLoop => "Error creating event loop"@,
        LoopSetupError::RegisterInput(d) => "Error registering libinput event source: "@ + d@,
        LoopSetupError::RegisterUserEvents(d) => "Error registering user event channel source: "@ + d@,
        LoopSetupError::Dispatch(d) => "Error dispatch events: "@ + d@,
    }
}

/// The platform error reported for a failed step of a run.
pub fn loop_setup_error(e: &LoopSetupError) -> (r: PlatformError)
    ensures
        r@ == spec_loop_setup_message(e),
{
    match e {
        LoopSetupError::CreateEventLoop => platform_error("Error creating event loop"),
        LoopSetupError::RegisterInput(d) => prefixed_error("Error registering libinput event source: ", d),
        LoopSetupError::RegisterUserEvents(d) => prefixed_error("Error registering user event channel source: ", d),
        LoopSetupError::Dispatch(d) => prefixed_error("Error dispatch events: ", d),
    }
}

/// What the backend holds, as plain values.
pub struct BackendView<C> {
    pub width: u32,
    pub height: u32,
    /// Whether a window adapter has been created.
    pub window: bool,
    /// Whether the receiving end of the input-event channel is still held.
    pub ohos_event_receiver: bool,
    pub proxy: ProxyView<C>,
    /// Callbacks received by the running loop, to invoke at its next iteration.
    pub callbacks: Seq<C>,
    pub sel_clipboard: Option<Seq<char>>,
    pub clipboard: Option<Seq<char>>,
}

impl<C> BackendView<C> {
    /// Callbacks wait to be invoked only while a loop runs.
    pub open spec fn wf(self) -> bool {
        &&& self.proxy.wf()
        &&& self.proxy.receiver != ReceiverState::Registered ==> self.callbacks.len() == 0
    }

    /// The text of the clipboard `kind`.
    pub open spec fn clipboard_text(self, kind: Clipboard) -> Option<Seq<char>> {
        match kind {
            Clipboard::DefaultClipboard => self.clipboard,
            Clipboard::SelectionClipboard => self.sel_clipboard,
            Clipboard::Other => None,
        }
    }

    /// The backend after `text` is put into the clipboard `kind`.
    pub open spec fn set_clipboard_text(self, text: Seq<char>, kind: Clipboard) -> BackendView<C> {
        match kind {
            Clipboard::DefaultClipboard => BackendView { clipboard: Some(text), ..self },
            Clipboard::SelectionClipboard => BackendView { sel_clipboard: Some(text), ..self },
            Clipboard::Other => self,
        }
    }

    /// The first check of a run: a window adapter must exist.
    pub open spec fn check_window_adapter(self) -> Result<(), Seq<char>> {
        if self.window {
            Ok(())
        } else {
            Err(no_window_message())
        }
    }

    /// A run takes the receiving end of the input-event channel; a later run
    /// finds it gone.
    pub open spec fn take_ohos_event_receiver(self) -> (BackendView<C>, Result<(), Seq<char>>) {
        if self.ohos_event_receiver {
            (BackendView { ohos_event_receiver: false, ..self }, Ok(()))
        } else {
            (self, Err(reentry_input_message()))
        }
    }

    /// A run takes the receiving end of the channel of posted callbacks; a
    /// later run finds it gone.
    pub open spec fn take_user_event_receiver(self) -> (BackendView<C>, Result<(), Seq<char>>) {
        if self.proxy.receiver == ReceiverState::Waiting {
            (
                BackendView {
                    proxy: ProxyView { receiver: ReceiverState::Registered, ..self.proxy },
                    ..self
                },
                Ok(()),
            )
        } else {
            (self, Err(reentry_user_message()))
        }
    }

    /// The loop registers its wake-up signal and clears the quit flag.
    pub open spec fn start_dispatching(self) -> BackendView<C> {
        BackendView { proxy: ProxyView { loop_signal: true, quit_loop: false, ..self.proxy }, ..self }
    }

    /// The loop goes on while no quit was requested.
    pub open spec fn keep_running(self) -> bool {
        !self.proxy.quit_loop
    }

    /// A dispatch of the running loop receives every posted callback, in the
    /// order they were posted, behind those not yet invoked.
    pub open spec fn collect_user_events(self) -> BackendView<C> {
        if self.proxy.receiver == ReceiverState::Registered {
            BackendView {
                callbacks: self.callbacks + self.proxy.user_events,
                proxy: ProxyView { user_events: Seq::empty(), ..self.proxy },
                ..self
            }
        } else {
            self
        }
    }

    /// An iteration of the loop takes the received callbacks to invoke them.
    pub open spec fn take_callbacks(self) -> (BackendView<C>, Seq<C>) {
        (BackendView { callbacks: Seq::empty(), ..self }, self.callbacks)
    }

    /// The end of a run: the loop is dropped, and with it the channel of
    /// posted callbacks if it had taken it, and what it had not invoked.
    pub open spec fn end_event_loop(self) -> BackendView<C> {
        if self.proxy.receiver == ReceiverState::Registered {
            BackendView {
                callbacks: Seq::empty(),
                proxy: ProxyView { receiver: ReceiverState::Dropped, user_events: Seq::empty(), ..self.proxy },
                ..self
            }
        } else {
            BackendView { callbacks: Seq::empty(), ..self }
        }
    }
}

/// The data handed to each callback of the event loop; it holds nothing.
pub struct LoopData {}

impl Default for LoopData {
    fn default() -> (r: Self)
        ensures
            r == (LoopData {}),
    {
        LoopData {}
    }
}

/// The backend of the toolkit on OpenHarmony.
pub struct Backend<C> {
    pub width: u32,
    pub height: u32,
    pub window: bool,
    pub ohos_event_receiver: bool,
    pub proxy: Proxy<C>,
    pub callbacks_to_invoke: Vec<C>,
    pub sel_clipboard: Option<String>,
    pub clipboard: Option<String>,
}

impl<C> View for Backend<C> {
    type V = BackendView<C>;

    open spec fn view(&self) -> BackendView<C> {
        BackendView {
            width: self.width,
            height: self.height,
            window: self.window,
            ohos_event_receiver: self.ohos_event_receiver,
            proxy: self.proxy@,
            callbacks: self.callbacks_to_invoke@,
            sel_clipboard: self.sel_clipboard.deep_view(),
            clipboard: self.clipboard.deep_view(),
        }
    }
}

fn clone_text(text: &Option<String>) -> (r: Option<String>)
    ensures
        r.deep_view() == text.deep_view(),
{
    match text {
        Some(s) => Some(s.clone()),
        None => None,
    }
}

impl<C> Backend<C> {
    /// A backend for a window of `width` by `height` pixels: no window
    /// adapter yet, both channels waiting for a run, empty clipboards.
    pub fn new(width: u32, height: u32) -> (r: Result<Self, PlatformError>)
        ensures
            r matches Ok(b) && b@.wf(),
            r matches Ok(b) && b@ == (BackendView::<C> {
                width,
                height,
                window: false,
                ohos_event_receiver: true,
                proxy: ProxyView {
                    loop_signal: false,
                    quit_loop: false,
                    receiver: ReceiverState::Waiting,
                    user_events: Seq::empty(),
                },
                callbacks: Seq::empty(),
                sel_clipboard: None,
                clipboard: None,
            }),
    {
        Ok(Backend {
            width,
            height,
            window: false,
            ohos_event_receiver: true,
            proxy: Proxy::new(),
            callbacks_to_invoke: Vec::new(),
            sel_clipboard: None,
            clipboard: None,
        })
    }

    /// Records the outcome `created` of building the window adapter (its
    /// renderer and rotation come from outside): on success the backend has
    /// a window; an error is handed back and nothing changes.
    pub fn create_window_adapter(&mut self, created: Result<(), PlatformError>) -> (r: Result<(), PlatformError>)
        requires
            old(self)@.wf(),
        ensures
            final(self)@.wf(),
            platform_result_view(r) == platform_result_view(created),
            created is Ok ==> final(self)@ == (BackendView { window: true, ..old(self)@ }),
            created is Err ==> final(self)@ == old(self)@,
    {
        match created {
            Ok(()) => {
                self.window = true;
                Ok(())
            },
            Err(e) => Err(e),
        }
    }

    /// The text of the clipboard `clipboard`, if any was set.
    pub fn clipboard_text(&self, clipboard: Clipboard) -> (r: Option<String>)
        ensures
            r.deep_view() == self@.clipboard_text(clipboard),
    {
        match clipboard {
            Clipboard::DefaultClipboard => clone_text(&self.clipboard),
            Clipboard::SelectionClipboard => clone_text(&self.sel_clipboard),
            Clipboard::Other => None,
        }
    }

    /// Puts `text` into the clipboard `clipboard`.
    pub fn set_clipboard_text(&mut self, text: &str, clipboard: Clipboard)
        requires
            old(self)@.wf(),
        ensures
            final(self)@.wf(),
            final(self)@ == old(self)@.set_clipboard_text(text@, clipboard),
    {
        match clipboard {
            Clipboard::DefaultClipboard => {
                self.clipboard = Some(String::from_str(text));
            },
            Clipboard::SelectionClipboard => {
                self.sel_clipboard = Some(String::from_str(text));
            },
            Clipboard::Other => {},
        }
    }

    /// The first step of a run: fails with "Error windows adapter " while no
    /// window adapter exists.
    pub fn check_window_adapter(&self) -> (r: Result<(), PlatformError>)
        ensures
            platform_result_view(r) == self@.check_window_adapter(),
    {
        if self.window {
            Ok(())
        } else {
            Err(platform_error("Error windows adapter "))
        }
    }

    /// Takes the receiving end of the input-event channel for a run; fails,
    /// changing nothing, when an earlier run took it.
    pub fn take_ohos_event_receiver(&mut self) -> (r: Result<(), PlatformError>)
        requires
            old(self)@.wf(),
        ensures
            final(self)@.wf(),
            (final(self)@, platform_result_view(r)) == old(self)@.take_ohos_event_receiver(),
    {
        if self.ohos_event_receiver {
            self.ohos_event_receiver = false;
            Ok(())
        } else {
            Err(platform_error("Re-entering the calloop event loop is currently not supported"))
        }
    }

    /// Takes the receiving end of the channel of posted callbacks for a run;
    /// fails, changing nothing, when an earlier run took it.
    pub fn take_user_event_receiver(&mut self) -> (r: Result<(), PlatformError>)
        requires
            old(self)@.wf(),
        ensures
            final(self)@.wf(),
            (final(self)@, platform_result_view(r)) == old(self)@.take_user_event_receiver(),
    {
        if self.proxy.receiver == ReceiverState::Waiting {
            self.proxy.receiver = ReceiverState::Registered;
            Ok(())
        } else {
            Err(platform_error("Re-entering the ohos event loop is currently not supported"))
        }
    }

    /// Registers the running loop's wake-up signal and clears the quit flag.
    pub fn start_dispatching(&mut self)
        requires
            old(self)@.wf(),
        ensures
            final(self)@.wf(),
            final(self)@ == old(self)@.start_dispatching(),
    {
        self.proxy.loop_signal = true;
        self.proxy.quit_loop = false;
    }

    /// Whether the loop goes on: no quit was requested.
    pub fn keep_running(&self) -> (r: bool)
        ensures
            r == self@.keep_running(),
    {
        !self.proxy.quit_loop
    }

    /// A dispatch of the running loop: every posted callback is received.
    pub fn collect_user_events(&mut self)
        requires
            old(self)@.wf(),
        ensures
            final(self)@.wf(),
            final(self)@ == old(self)@.collect_user_events(),
    {
        if self.proxy.receiver == ReceiverState::Registered {
            self.callbacks_to_invoke.append(&mut self.proxy.user_events);
        }
    }

    /// Takes the received callbacks, in order, for the loop to invoke.
    pub fn take_callbacks(&mut self) -> (r: Vec<C>)
        requires
            old(self)@.wf(),
        ensures
            final(self)@.wf(),
            (final(self)@, r@) == old(self)@.take_callbacks(),
    {
        let mut taken: Vec<C> = Vec::new();
        std::mem::swap(&mut taken, &mut self.callbacks_to_invoke);
        taken
    }

    /// The end of a run, successful or not: the loop and what it had taken
    /// are dropped.
    pub fn end_event_loop(&mut self)
        requires
            old(self)@.wf(),
        ensures
            final(self)@.wf(),
            final(self)@ == old(self)@.end_event_loop(),
    {
        self.callbacks_to_invoke = Vec::new();
        if self.proxy.receiver == ReceiverState::Registered {
            self.proxy.receiver = ReceiverState::Dropped;
            self.proxy.user_events = Vec::new();
        }
    }
}

/// One thing that happens while the loop runs: a callback is posted, a quit
/// is requested, the loop dispatches (receiving the posted callbacks), or an
/// iteration takes the received callbacks to invoke them.
pub enum LoopStep<C> {
    Post(C),
    Quit,
    Dispatch,
    Iterate,
}

impl<C> BackendView<C> {
    /// The backend after `step`, and the callbacks the step takes to invoke.
    pub open spec fn step(self, step: LoopStep<C>) -> (BackendView<C>, Seq<C>) {
        match step {
            LoopStep::Post(event) => (BackendView { proxy: self.proxy.invoke(event).0, ..self }, Seq::empty()),
            LoopStep::Quit => (BackendView { proxy: self.proxy.quit().0, ..self }, Seq::empty()),
            LoopStep::Dispatch => (self.collect_user_events(), Seq::empty()),
            LoopStep::Iterate => self.take_callbacks(),
        }
    }

    /// The backend after `steps` in turn, and all the callbacks they take to
    /// invoke, in the order they are taken.
    pub open spec fn run(self, steps: Seq<LoopStep<C>>) -> (BackendView<C>, Seq<C>)
        decreases steps.len(),
    {
        if steps.len() == 0 {
            (self, Seq::empty())
        } else {
            let (before, taken) = self.run(steps.drop_last());
            let (after, more) = before.step(steps.last());
            (after, taken + more)
        }
    }
}

/// The callbacks posted by `steps`, in the order they are posted.
pub open spec fn posted<C>(steps: Seq<LoopStep<C>>) -> Seq<C>
    decreases steps.len(),
{
    if steps.len() == 0 {
        Seq::empty()
    } else {
        posted(steps.drop_last()) + match steps.last() {
            LoopStep::Post(event) => seq![event],
            _ => Seq::empty(),
        }
    }
}

/// While a loop runs, no callback is lost, repeated or reordered: those the
/// iterations take, followed by those received but not yet taken and those
/// posted but not yet received, are exactly those waiting at the start
/// followed by those posted meanwhile, in posting order. So each posted
/// callback is invoked at most once, in posting order; those still waiting
/// when the run ends are dropped with it (`end_event_loop`).
pub proof fn lemma_run_invokes_posted_callbacks_once_in_order<C>(b: BackendView<C>, steps: Seq<LoopStep<C>>)
    requires
        b.proxy.receiver == ReceiverState::Registered,
    ensures
        b.run(steps).0.proxy.receiver == ReceiverState::Registered,
        b.run(steps).1 + b.run(steps).0.callbacks + b.run(steps).0.proxy.user_events
            == b.callbacks + b.proxy.user_events + posted(steps),
    decreases steps.len(),
{
    if steps.len() == 0 {
        assert(Seq::<C>::empty() + b.callbacks + b.proxy.user_events =~= b.callbacks + b.proxy.user_events + Seq::<C>::empty());
    } else {
        let rest = steps.drop_last();
        lemma_run_invokes_posted_callbacks_once_in_order(b, rest);
        let (mid, taken) = b.run(rest);
        let last = steps.last();
        let start = b.callbacks + b.proxy.user_events;
        assert(taken + mid.callbacks + mid.proxy.user_events == start + posted(rest));
        match last {
            LoopStep::Post(event) => {
                assert(posted(steps) == posted(rest) + seq![event]);
                assert(taken + Seq::<C>::empty() + mid.callbacks + mid.proxy.user_events.push(event)
                    =~= (taken + mid.callbacks + mid.proxy.user_events).push(event));
                assert(start + (posted(rest) + seq![event]) =~= (start + posted(rest)).push(event));
            },
            LoopStep::Quit => {
                assert(posted(steps) =~= posted(rest));
                assert(taken + Seq::<C>::empty() =~= taken);
            },
            LoopStep::Dispatch => {
                assert(posted(steps) =~= posted(rest));
                assert(taken + Seq::<C>::empty() + (mid.callbacks + mid.proxy.user_events) + Seq::<C>::empty()
                    =~= taken + mid.callbacks + mid.proxy.user_events);
            },
            LoopStep::Iterate => {
                assert(posted(steps) =~= posted(rest));
                assert(taken + mid.callbacks + Seq::<C>::empty() + mid.proxy.user_events
                    =~= taken + mid.callbacks + mid.proxy.user_events);
            },
        }
    }
}

/// Steps of a running loop never clear the registered wake-up signal, and
/// only a quit raises the quit flag.
pub proof fn lemma_run_keeps_signal<C>(b: BackendView<C>, steps: Seq<LoopStep<C>>)
    ensures
        b.run(steps).0.proxy.loop_signal == b.proxy.loop_signal,
        (forall|i: int| 0 <= i < steps.len() ==> !(#[trigger] steps[i] is Quit))
            ==> b.run(steps).0.proxy.quit_loop == b.proxy.quit_loop,
    decreases steps.len(),
{
    if steps.len() > 0 {
        let rest = steps.drop_last();
        assert forall|i: int| 0 <= i < rest.len() implies #[trigger] rest[i] == steps[i] by {}
        lemma_run_keeps_signal(b, rest);
    }
}

/// A run of the loop ends, with `Ok`, only when the loop no longer goes on;
/// once the loop has started dispatching, that happens only after a request
/// to quit that was accepted.
pub proof fn lemma_run_ends_only_after_accepted_quit<C>(b: BackendView<C>, steps: Seq<LoopStep<C>>)
    ensures
        b.start_dispatching().keep_running(),
        !b.start_dispatching().run(steps).0.keep_running() ==> exists|i: int|
            0 <= i < steps.len() && #[trigger] steps[i] is Quit
                && b.start_dispatching().run(steps.take(i)).0.proxy.quit().1 == Ok::<(), EventLoopError>(()),
    decreases steps.len(),
{
    let s = b.start_dispatching();
    if steps.len() > 0 && !s.run(steps).0.keep_running() {
        let rest = steps.drop_last();
        let i = steps.len() - 1;
        assert(steps.take(i) =~= rest);
        lemma_run_keeps_signal(s, rest);
        if steps.last() is Quit {
            assert(steps[i] is Quit);
        } else {
            lemma_run_ends_only_after_accepted_quit(b, rest);
            let j = choose|j: int| 0 <= j < rest.len() && #[trigger] rest[j] is Quit
                && s.run(rest.take(j)).0.proxy.quit().1 == Ok::<(), EventLoopError>(());
            assert(rest.take(j) =~= steps.take(j));
            assert(steps[j] is Quit);
        }
    }
}

/// Read after write: what is put into the default or the selection
/// clipboard is what that clipboard then gives back.
pub proof fn lemma_clipboard_read_after_write<C>(b: BackendView<C>, text: Seq<char>, kind: Clipboard)
    requires
        kind != Clipboard::Other,
    ensures
        b.set_clipboard_text(text, kind).clipboard_text(kind) == Some(text),
{
}

/// Putting text into one clipboard leaves every other clipboard, and all
/// the rest of the backend but that clipboard, as it was.
pub proof fn lemma_clipboards_independent<C>(b: BackendView<C>, text: Seq<char>, kind: Clipboard, other: Clipboard)
    requires
        kind != other,
    ensures
        b.set_clipboard_text(text, kind).clipboard_text(other) == b.clipboard_text(other),
        b.set_clipboard_text(text, kind).proxy == b.proxy,
        b.set_clipboard_text(text, kind).callbacks == b.callbacks,
        b.set_clipboard_text(text, kind).window == b.window,
{
}

/// A clipboard that the backend does not keep ignores what is put into it
/// and gives nothing back.
pub proof fn lemma_other_clipboard_ignored<C>(b: BackendView<C>, text: Seq<char>)
    ensures
        b.set_clipboard_text(text, Clipboard::Other) == b,
        b.clipboard_text(Clipboard::Other) is None,
{
}

/// Callbacks posted while some loop can still receive them are all
/// accepted and queue up in the order they were posted.
pub proof fn lemma_posted_callbacks_queue_in_order<C>(p: ProxyView<C>, events: Seq<C>)
    requires
        p.receiver != ReceiverState::Dropped,
    ensures
        p.invoke_all(events).user_events == p.user_events + events,
        p.invoke_all(events).receiver == p.receiver,
        p.invoke_all(events).loop_signal == p.loop_signal,
        p.invoke_all(events).quit_loop == p.quit_loop,
    decreases events.len(),
{
    if events.len() == 0 {
        assert(p.user_events + events =~= p.user_events);
    } else {
        lemma_posted_callbacks_queue_in_order(p, events.drop_last());
        assert(p.user_events + events.drop_last() + seq![events.last()] =~= p.user_events + events);
    }
}

/// Callbacks posted to a running loop are each invoked once, in the order
/// they were posted, after those it had already received.
pub proof fn lemma_running_loop_invokes_in_order<C>(b: BackendView<C>, events: Seq<C>)
    requires
        b.proxy.receiver == ReceiverState::Registered,
    ensures
        (BackendView { proxy: b.proxy.invoke_all(events), ..b }).collect_user_events().take_callbacks().1
            == b.callbacks + b.proxy.user_events + events,
        (BackendView { proxy: b.proxy.invoke_all(events), ..b }).collect_user_events().take_callbacks().0.callbacks.len() == 0,
        (BackendView { proxy: b.proxy.invoke_all(events), ..b }).collect_user_events().proxy.user_events.len() == 0,
{
    lemma_posted_callbacks_queue_in_order(b.proxy, events);
    assert(b.callbacks + (b.proxy.user_events + events) =~= b.callbacks + b.proxy.user_events + events);
}

/// Once a run that took the channel of posted callbacks has ended, every
/// callback posted afterwards is refused with `EventLoopTerminated`.
pub proof fn lemma_posting_after_run_refused<C>(b: BackendView<C>, event: C)
    requires
        b.proxy.receiver == ReceiverState::Registered,
    ensures
        b.end_event_loop().proxy.invoke(event).1 == Err::<(), EventLoopError>(EventLoopError::EventLoopTerminated),
        b.end_event_loop().proxy.invoke(event).0 == b.end_event_loop().proxy,
{
}

/// Before any loop has registered its signal, a request to quit is refused
/// with `EventLoopTerminated`; once a loop dispatches, a request to quit is
/// accepted and the loop does not go on.
pub proof fn lemma_quit_only_after_start<C>(b: BackendView<C>)
    ensures
        !b.proxy.loop_signal ==> b.proxy.quit().1 == Err::<(), EventLoopError>(EventLoopError::EventLoopTerminated),
        b.start_dispatching().keep_running(),
        b.start_dispatching().proxy.quit().1 == Ok::<(), EventLoopError>(()),
        !(BackendView { proxy: b.start_dispatching().proxy.quit().0, ..b.start_dispatching() }).keep_running(),
{
}

/// A second run of the event loop is refused: the run that took the
/// receiving end of a channel leaves the backend without it, whether that
/// run succeeded or failed.
pub proof fn lemma_second_run_refused<C>(b: BackendView<C>)
    ensures
        b.take_ohos_event_receiver().1 is Ok ==>
            b.take_ohos_event_receiver().0.end_event_loop().take_ohos_event_receiver().1
                == Err::<(), Seq<char>>(reentry_input_message()),
        b.take_user_event_receiver().1 is Ok ==>
            b.take_user_event_receiver().0.end_event_loop().take_user_event_receiver().1
                == Err::<(), Seq<char>>(reentry_user_message()),
{
}

/// Every step of the backend keeps it well formed: callbacks wait only
/// while a loop can still receive or invoke them.
pub proof fn lemma_steps_keep_wf<C>(b: BackendView<C>, event: C, text: Seq<char>, kind: Clipboard)
    requires
        b.wf(),
    ensures
        b.set_clipboard_text(text, kind).wf(),
        b.take_ohos_event_receiver().0.wf(),
        b.take_user_event_receiver().0.wf(),
        b.start_dispatching().wf(),
        b.collect_user_events().wf(),
        b.take_callbacks().0.wf(),
        b.end_event_loop().wf(),
        (BackendView { proxy: b.proxy.invoke(event).0, ..b }).wf(),
        (BackendView { proxy: b.proxy.quit().0, ..b }).wf(),
{
}

} // verus!
