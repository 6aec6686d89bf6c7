//! What travels to the main thread, and the ids given out on the way.
use crate::platform::Platform;
use crate::webview::WebviewOp;
use crate::window::{WindowId, WindowOp};
use vstd::prelude::*;

verus! {

/// What the rest of the application asks of the main thread.
#[allow(inconsistent_fields)]
pub enum RuntimeMessage<P: Platform> {
    /// Apply an operation to a window.
    Window { id: WindowId, op: WindowOp<P> },
    /// Apply an operation to a webview.
    Webview { label: String, op: WebviewOp<P> },
    /// Run a closure.
    RunMainThread(P::Thunk),
}

/// What reaches the event loop.
pub enum TaoMessage<P: Platform> {
    /// Something for the runtime.
    Runtime(RuntimeMessage<P>),
    /// The engine has work to do.
    ServoWake,
    /// The native window with this number has to be drawn anew.
    RequestRedraw(u64),
}

/// The message that asks for an operation on a window.
pub open spec fn window_message<P: Platform>(id: WindowId, op: WindowOp<P>) -> TaoMessage<P> {
    TaoMessage::Runtime(RuntimeMessage::Window { id, op })
}

/// The message that asks for an operation on a webview.
pub open spec fn webview_message<P: Platform>(label: String, op: WebviewOp<P>) -> TaoMessage<P> {
    TaoMessage::Runtime(RuntimeMessage::Webview { label, op })
}

/// Gives out the ids of event handlers: 1, 2, 3 and so on, starting over with 0
/// after the largest id.
pub struct EventIds {
    next: u32,
}

/// The id that is given out after `earlier` others.
pub open spec fn event_id(earlier: nat) -> u32 {
    ((1 + earlier) % 0x1_0000_0000) as u32
}

impl View for EventIds {
    type V = u32;

    /// The id that is given out next.
    closed spec fn view(&self) -> u32 {
        self.next
    }
}

impl Default for EventIds {
    /// No id has been given out.
    fn default() -> (ids: Self)
        ensures
            ids@ == event_id(0),
    {
        EventIds { next: 1 }
    }
}

impl EventIds {
    /// Gives out an id.
    pub fn take(&mut self) -> (id: u32)
        ensures
            id == old(self)@,
            final(self)@ == (if old(self)@ == u32::MAX {
                0
            } else {
                (old(self)@ + 1) as u32
            }),
            forall|earlier: nat| #[trigger]
                event_id(earlier) == old(self)@ ==> final(self)@ == event_id(earlier + 1),
    {
        let id: u32 = self.next;
        self.next = id.wrapping_add(1);
        id
    }
}

/// Among as many ids as there are, given out one after the other, no two are the
/// same.
pub proof fn law_event_ids_differ(earlier: nat, later: nat)
    requires
        earlier < later < earlier + 0x1_0000_0000,
    ensures
        event_id(earlier) != event_id(later),
{
    let wrap: int = 0x1_0000_0000;
    let turns = (1 + later) as int / wrap - (1 + earlier) as int / wrap;
    if event_id(earlier) == event_id(later) {
        assert(later - earlier == 0x1_0000_0000 * turns);
    }
}

/// Runs a one-shot closure, if it has not run yet, and tells whether it ran now.
pub fn run_once<F: FnOnce()>(thunk: &mut Option<F>) -> (ran: bool)
    requires
        *old(thunk) matches Some(closure) ==> call_requires(closure, ()),
    ensures
        ran == (*old(thunk) is Some),
        *old(thunk) matches Some(closure) ==> call_ensures(closure, (), ()),
        *final(thunk) is None,
{
    match thunk.take() {
        Some(closure) => {
            closure();
            true
        },
        None => false,
    }
}

/// A message for a window or a webview names that window or webview and holds the
/// operation.
pub proof fn law_messages_hold_the_operation<P: Platform>(
    id: WindowId,
    window_op: WindowOp<P>,
    label: String,
    webview_op: WebviewOp<P>,
)
    ensures
        window_message(id, window_op) == TaoMessage::Runtime(
            RuntimeMessage::Window { id, op: window_op },
        ),
        webview_message(label, webview_op) == TaoMessage::Runtime(
            RuntimeMessage::Webview { label, op: webview_op },
        ),
{
}

/// The first id is 1, and each one is followed by the next number; 0 follows the
/// largest id.
pub proof fn law_event_ids_count_up(earlier: nat)
    ensures
        event_id(0) == 1,
        event_id(earlier) < u32::MAX ==> event_id(earlier + 1) == event_id(earlier) + 1,
        event_id(earlier) == u32::MAX ==> event_id(earlier + 1) == 0,
{
}

} // verus!
