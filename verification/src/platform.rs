//! What the runtime carries without looking inside.
use vstd::prelude::*;

verus! {

/// The types of the windowing system and of the engine, and the closures of the
/// application. The runtime keeps such values and hands them on.
pub trait Platform {
    /// A logical coordinate or a scale factor.
    type Scalar;

    /// A native window.
    type Window;

    /// An engine view.
    type View;

    /// A window-event handler.
    type WindowHandler;

    /// A webview-event handler.
    type WebviewHandler;

    /// A one-shot main-thread closure.
    type Thunk;

    /// An IPC command handler.
    type CommandHandler;

    /// A shared handle to the IPC dispatch table.
    type Registry;
}

} // verus!
