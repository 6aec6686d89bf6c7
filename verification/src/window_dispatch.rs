//! The handle to a window that every thread can use.
use crate::builder::Icon;
use crate::cursor::CursorIcon;
use crate::error::{
    roundtrip, roundtrip_result, send, send_result, unsupported, Delivery, RuntimeError,
};
use crate::geometry::{Monitor, PhysicalPosition, PhysicalSize, Position, Size};
use crate::message::{window_message, RuntimeMessage, TaoMessage};
use crate::platform::Platform;
use crate::window::{WindowEventId, WindowId, WindowOp};
use std::marker::PhantomData;
use tauri_utils::config::Color;
use tauri_utils::{Theme, TitleBarStyle};
use vstd::prelude::*;

verus! {

/// Handle to a window of the main thread. What it is asked for travels through
/// the event loop.
pub struct ServoWindowDispatcher<P: Platform, S> {
    pub id: WindowId,
    /// Hands a message to the event loop and tells whether the loop took it.
    pub shared: S,
    pub platform: PhantomData<P>,
}

impl<P: Platform, S: Fn(TaoMessage<P>) -> bool> ServoWindowDispatcher<P, S> {
    /// Whether every message can be handed to the event loop.
    ///
    /// The methods ask for less: each may hand over the one message that it is
    /// for, and no other.
    pub open spec fn connected(self) -> bool {
        forall|message: TaoMessage<P>| #[trigger] call_requires(self.shared, (message,))
    }

    /// Whether `result` is what comes of handing the event loop an operation on
    /// this window.
    pub open spec fn sends(self, op: WindowOp<P>, result: Result<(), RuntimeError>) -> bool {
        exists|taken: bool| #[trigger]
            call_ensures(self.shared, (window_message(self.id, op),), taken) && result
                == send_result(taken)
    }

    /// Whether `result` is what comes of handing `ask` an operation on this window
    /// for an answer.
    pub open spec fn asks<R, A: FnOnce(TaoMessage<P>) -> Delivery<R>>(
        self,
        ask: A,
        op: WindowOp<P>,
        result: Result<R, RuntimeError>,
    ) -> bool {
        exists|delivery: Delivery<R>| #[trigger]
            call_ensures(ask, (window_message(self.id, op),), delivery) && result
                == roundtrip_result(delivery)
    }

    fn send(&self, op: WindowOp<P>) -> (result: Result<(), RuntimeError>)
        requires
            call_requires(self.shared, (window_message(self.id, op),)),
        ensures
            self.sends(op, result),
    {
        let message = TaoMessage::Runtime(RuntimeMessage::Window { id: self.id, op });
        send((self.shared)(message))
    }

    fn set(&self, op: WindowOp<P>) -> (result: Result<(), RuntimeError>)
        requires
            call_requires(self.shared, (window_message(self.id, op),)),
        ensures
            self.sends(op, result),
    {
        self.send(op)
    }

    fn roundtrip<R, A: FnOnce(TaoMessage<P>) -> Delivery<R>>(
        &self,
        op: WindowOp<P>,
        ask: A,
    ) -> (result: Result<R, RuntimeError>)
        requires
            call_requires(ask, (window_message(self.id, op),)),
        ensures
            self.asks(ask, op, result),
    {
        let message = TaoMessage::Runtime(RuntimeMessage::Window { id: self.id, op });
        roundtrip(ask(message))
    }

    /// Runs a closure on the main thread, unless the window is gone by then.
    pub fn run_on_main_thread(&self, thunk: P::Thunk) -> (result: Result<(), RuntimeError>)
        requires
            call_requires(self.shared, (window_message(self.id, WindowOp::Run(thunk)),)),
        ensures
            self.sends(WindowOp::Run(thunk), result),
    {
        self.set(WindowOp::Run(thunk))
    }

    /// Stores a handler for the events of the window, waits until the main thread
    /// has done so or will not, and returns the id that was drawn for it in either
    /// case.
    pub fn on_window_event<A: FnOnce(TaoMessage<P>) -> Delivery<WindowEventId>>(
        &self,
        handler: P::WindowHandler,
        id: WindowEventId,
        ask: A,
    ) -> (given: WindowEventId)
        requires
            call_requires(ask, (window_message(self.id, WindowOp::OnEvent { handler }),)),
        ensures
            given == id,
            exists|delivery: Delivery<WindowEventId>| #[trigger]
                call_ensures(
                    ask,
                    (window_message(self.id, WindowOp::OnEvent { handler }),),
                    delivery,
                ),
    {
        let _stored = self.roundtrip(WindowOp::OnEvent { handler }, ask);
        id
    }

    /// How many physical pixels make a logical one.
    pub fn scale_factor<A: FnOnce(TaoMessage<P>) -> Delivery<P::Scalar>>(
        &self,
        ask: A,
    ) -> (result: Result<P::Scalar, RuntimeError>)
        requires
            call_requires(ask, (window_message(self.id, WindowOp::ScaleFactor),)),
        ensures
            self.asks(ask, WindowOp::ScaleFactor, result),
    {
        self.roundtrip(WindowOp::ScaleFactor, ask)
    }

    /// Where the content of the window is.
    pub fn inner_position<A: FnOnce(TaoMessage<P>) -> Delivery<PhysicalPosition>>(
        &self,
        ask: A,
    ) -> (result: Result<PhysicalPosition, RuntimeError>)
        requires
            call_requires(ask, (window_message(self.id, WindowOp::InnerPosition),)),
        ensures
            self.asks(ask, WindowOp::InnerPosition, result),
    {
        self.roundtrip(WindowOp::InnerPosition, ask)
    }

    /// Where the window is.
    pub fn outer_position<A: FnOnce(TaoMessage<P>) -> Delivery<PhysicalPosition>>(
        &self,
        ask: A,
    ) -> (result: Result<PhysicalPosition, RuntimeError>)
        requires
            call_requires(ask, (window_message(self.id, WindowOp::OuterPosition),)),
        ensures
            self.asks(ask, WindowOp::OuterPosition, result),
    {
        self.roundtrip(WindowOp::OuterPosition, ask)
    }

    /// How large the content of the window is.
    pub fn inner_size<A: FnOnce(TaoMessage<P>) -> Delivery<PhysicalSize>>(
        &self,
        ask: A,
    ) -> (result: Result<PhysicalSize, RuntimeError>)
        requires
            call_requires(ask, (window_message(self.id, WindowOp::InnerSize),)),
        ensures
            self.asks(ask, WindowOp::InnerSize, result),
    {
        self.roundtrip(WindowOp::InnerSize, ask)
    }

    /// How large the window is.
    pub fn outer_size<A: FnOnce(TaoMessage<P>) -> Delivery<PhysicalSize>>(
        &self,
        ask: A,
    ) -> (result: Result<PhysicalSize, RuntimeError>)
        requires
            call_requires(ask, (window_message(self.id, WindowOp::OuterSize),)),
        ensures
            self.asks(ask, WindowOp::OuterSize, result),
    {
        self.roundtrip(WindowOp::OuterSize, ask)
    }

    /// Whether the window fills a screen.
    pub fn is_fullscreen<A: FnOnce(TaoMessage<P>) -> Delivery<bool>>(
        &self,
        ask: A,
    ) -> (result: Result<bool, RuntimeError>)
        requires
            call_requires(ask, (window_message(self.id, WindowOp::IsFullscreen),)),
        ensures
            self.asks(ask, WindowOp::IsFullscreen, result),
    {
        self.roundtrip(WindowOp::IsFullscreen, ask)
    }

    /// Whether the window is minimized.
    pub fn is_minimized<A: FnOnce(TaoMessage<P>) -> Delivery<bool>>(
        &self,
        ask: A,
    ) -> (result: Result<bool, RuntimeError>)
        requires
            call_requires(ask, (window_message(self.id, WindowOp::IsMinimized),)),
        ensures
            self.asks(ask, WindowOp::IsMinimized, result),
    {
        self.roundtrip(WindowOp::IsMinimized, ask)
    }

    /// Whether the window is maximized.
    pub fn is_maximized<A: FnOnce(TaoMessage<P>) -> Delivery<bool>>(
        &self,
        ask: A,
    ) -> (result: Result<bool, RuntimeError>)
        requires
            call_requires(ask, (window_message(self.id, WindowOp::IsMaximized),)),
        ensures
            self.asks(ask, WindowOp::IsMaximized, result),
    {
        self.roundtrip(WindowOp::IsMaximized, ask)
    }

    /// Whether the window has the focus.
    pub fn is_focused<A: FnOnce(TaoMessage<P>) -> Delivery<bool>>(
        &self,
        ask: A,
    ) -> (result: Result<bool, RuntimeError>)
        requires
            call_requires(ask, (window_message(self.id, WindowOp::IsFocused),)),
        ensures
            self.asks(ask, WindowOp::IsFocused, result),
    {
        self.roundtrip(WindowOp::IsFocused, ask)
    }

    /// Whether the window has decorations.
    pub fn is_decorated<A: FnOnce(TaoMessage<P>) -> Delivery<bool>>(
        &self,
        ask: A,
    ) -> (result: Result<bool, RuntimeError>)
        requires
            call_requires(ask, (window_message(self.id, WindowOp::IsDecorated),)),
        ensures
            self.asks(ask, WindowOp::IsDecorated, result),
    {
        self.roundtrip(WindowOp::IsDecorated, ask)
    }

    /// Whether the window can be resized.
    pub fn is_resizable<A: FnOnce(TaoMessage<P>) -> Delivery<bool>>(
        &self,
        ask: A,
    ) -> (result: Result<bool, RuntimeError>)
        requires
            call_requires(ask, (window_message(self.id, WindowOp::IsResizable),)),
        ensures
            self.asks(ask, WindowOp::IsResizable, result),
    {
        self.roundtrip(WindowOp::IsResizable, ask)
    }

    /// Not offered.
    pub fn is_maximizable(&self) -> (result: Result<bool, RuntimeError>)
        ensures
            result == Err::<bool, RuntimeError>(RuntimeError::Unsupported("maximizable state")),
    {
        Err(unsupported("maximizable state"))
    }

    /// Not offered.
    pub fn is_minimizable(&self) -> (result: Result<bool, RuntimeError>)
        ensures
            result == Err::<bool, RuntimeError>(RuntimeError::Unsupported("minimizable state")),
    {
        Err(unsupported("minimizable state"))
    }

    /// Not offered.
    pub fn is_closable(&self) -> (result: Result<bool, RuntimeError>)
        ensures
            result == Err::<bool, RuntimeError>(RuntimeError::Unsupported("closable state")),
    {
        Err(unsupported("closable state"))
    }

    /// Whether the window is visible.
    pub fn is_visible<A: FnOnce(TaoMessage<P>) -> Delivery<bool>>(
        &self,
        ask: A,
    ) -> (result: Result<bool, RuntimeError>)
        requires
            call_requires(ask, (window_message(self.id, WindowOp::IsVisible),)),
        ensures
            self.asks(ask, WindowOp::IsVisible, result),
    {
        self.roundtrip(WindowOp::IsVisible, ask)
    }

    /// Not offered.
    pub fn is_enabled(&self) -> (result: Result<bool, RuntimeError>)
        ensures
            result == Err::<bool, RuntimeError>(RuntimeError::Unsupported("enabled state")),
    {
        Err(unsupported("enabled state"))
    }

    /// Not offered.
    pub fn is_always_on_top(&self) -> (result: Result<bool, RuntimeError>)
        ensures
            result == Err::<bool, RuntimeError>(RuntimeError::Unsupported("always-on-top state")),
    {
        Err(unsupported("always-on-top state"))
    }

    /// The title of the window.
    pub fn title<A: FnOnce(TaoMessage<P>) -> Delivery<String>>(
        &self,
        ask: A,
    ) -> (result: Result<String, RuntimeError>)
        requires
            call_requires(ask, (window_message(self.id, WindowOp::Title),)),
        ensures
            self.asks(ask, WindowOp::Title, result),
    {
        self.roundtrip(WindowOp::Title, ask)
    }

    /// The monitor that the window is on, if any.
    pub fn current_monitor<A: FnOnce(TaoMessage<P>) -> Delivery<Option<Monitor<P>>>>(
        &self,
        ask: A,
    ) -> (result: Result<Option<Monitor<P>>, RuntimeError>)
        requires
            call_requires(ask, (window_message(self.id, WindowOp::CurrentMonitor),)),
        ensures
            self.asks(ask, WindowOp::CurrentMonitor, result),
    {
        self.roundtrip(WindowOp::CurrentMonitor, ask)
    }

    /// Not offered.
    pub fn monitor_from_point(
        &self,
        _x: P::Scalar,
        _y: P::Scalar,
    ) -> (result: Result<Option<Monitor<P>>, RuntimeError>)
        ensures
            result == Err::<Option<Monitor<P>>, RuntimeError>(
                RuntimeError::Unsupported("monitor from point"),
            ),
    {
        Err(unsupported("monitor from point"))
    }

    /// The primary monitor, if any.
    pub fn primary_monitor<A: FnOnce(TaoMessage<P>) -> Delivery<Option<Monitor<P>>>>(
        &self,
        ask: A,
    ) -> (result: Result<Option<Monitor<P>>, RuntimeError>)
        requires
            call_requires(ask, (window_message(self.id, WindowOp::PrimaryMonitor),)),
        ensures
            self.asks(ask, WindowOp::PrimaryMonitor, result),
    {
        self.roundtrip(WindowOp::PrimaryMonitor, ask)
    }

    /// Not offered.
    pub fn available_monitors(&self) -> (result: Result<Vec<Monitor<P>>, RuntimeError>)
        ensures
            result == Err::<Vec<Monitor<P>>, RuntimeError>(
                RuntimeError::Unsupported("monitor enumeration on dispatcher"),
            ),
    {
        Err(unsupported("monitor enumeration on dispatcher"))
    }

    /// Not offered: the window belongs to the main thread.
    pub fn window_handle<H>(&self) -> (result: Result<H, RuntimeError>)
        ensures
            result == Err::<H, RuntimeError>(RuntimeError::HandleUnavailable),
    {
        Err(RuntimeError::HandleUnavailable)
    }

    /// Not offered.
    pub fn theme(&self) -> (result: Result<Theme, RuntimeError>)
        ensures
            result == Err::<Theme, RuntimeError>(RuntimeError::Unsupported("window theme query")),
    {
        Err(unsupported("window theme query"))
    }

    /// Not offered.
    pub fn center(&self) -> (result: Result<(), RuntimeError>)
        ensures
            result == Err::<(), RuntimeError>(RuntimeError::Unsupported("window centering")),
    {
        Err(unsupported("window centering"))
    }

    /// Not offered.
    pub fn request_user_attention<A>(
        &self,
        _request_type: Option<A>,
    ) -> (result: Result<(), RuntimeError>)
        ensures
            result == Err::<(), RuntimeError>(RuntimeError::Unsupported("user attention request")),
    {
        Err(unsupported("user attention request"))
    }

    /// Not offered.
    pub fn create_window<W, F, D>(
        &mut self,
        _pending: W,
        _after_window_creation: Option<F>,
    ) -> (result: Result<D, RuntimeError>)
        ensures
            result == Err::<D, RuntimeError>(RuntimeError::Unsupported("nested window creation")),
            *final(self) == *old(self),
    {
        Err(unsupported("nested window creation"))
    }

    /// Not offered.
    pub fn create_webview<W, D>(&mut self, _pending: W) -> (result: Result<D, RuntimeError>)
        ensures
            result == Err::<D, RuntimeError>(RuntimeError::Unsupported("nested webview creation")),
            *final(self) == *old(self),
    {
        Err(unsupported("nested webview creation"))
    }

    /// Says whether the window can be resized.
    pub fn set_resizable(&self, resizable: bool) -> (result: Result<(), RuntimeError>)
        requires
            call_requires(
                self.shared,
                (window_message(self.id, WindowOp::SetResizable(resizable)),),
            ),
        ensures
            self.sends(WindowOp::SetResizable(resizable), result),
    {
        self.set(WindowOp::SetResizable(resizable))
    }

    /// Says whether the window takes input.
    pub fn set_enabled(&self, enabled: bool) -> (result: Result<(), RuntimeError>)
        requires
            call_requires(self.shared, (window_message(self.id, WindowOp::SetEnabled(enabled)),)),
        ensures
            self.sends(WindowOp::SetEnabled(enabled), result),
    {
        self.set(WindowOp::SetEnabled(enabled))
    }

    /// Not offered.
    pub fn set_maximizable(&self, _maximizable: bool) -> (result: Result<(), RuntimeError>)
        ensures
            result == Err::<(), RuntimeError>(RuntimeError::Unsupported("maximizable flag")),
    {
        Err(unsupported("maximizable flag"))
    }

    /// Not offered.
    pub fn set_minimizable(&self, _minimizable: bool) -> (result: Result<(), RuntimeError>)
        ensures
            result == Err::<(), RuntimeError>(RuntimeError::Unsupported("minimizable flag")),
    {
        Err(unsupported("minimizable flag"))
    }

    /// Not offered.
    pub fn set_closable(&self, _closable: bool) -> (result: Result<(), RuntimeError>)
        ensures
            result == Err::<(), RuntimeError>(RuntimeError::Unsupported("closable flag")),
    {
        Err(unsupported("closable flag"))
    }

    /// Gives the window a title.
    pub fn set_title(&self, title: String) -> (result: Result<(), RuntimeError>)
        requires
            call_requires(self.shared, (window_message(self.id, WindowOp::SetTitle(title)),)),
        ensures
            self.sends(WindowOp::SetTitle(title), result),
    {
        self.set(WindowOp::SetTitle(title))
    }

    /// Maximizes the window.
    pub fn maximize(&self) -> (result: Result<(), RuntimeError>)
        requires
            call_requires(self.shared, (window_message(self.id, WindowOp::SetMaximized(true)),)),
        ensures
            self.sends(WindowOp::SetMaximized(true), result),
    {
        self.set(WindowOp::SetMaximized(true))
    }

    /// Undoes maximizing.
    pub fn unmaximize(&self) -> (result: Result<(), RuntimeError>)
        requires
            call_requires(self.shared, (window_message(self.id, WindowOp::SetMaximized(false)),)),
        ensures
            self.sends(WindowOp::SetMaximized(false), result),
    {
        self.set(WindowOp::SetMaximized(false))
    }

    /// Minimizes the window.
    pub fn minimize(&self) -> (result: Result<(), RuntimeError>)
        requires
            call_requires(self.shared, (window_message(self.id, WindowOp::SetMinimized(true)),)),
        ensures
            self.sends(WindowOp::SetMinimized(true), result),
    {
        self.set(WindowOp::SetMinimized(true))
    }

    /// Undoes minimizing.
    pub fn unminimize(&self) -> (result: Result<(), RuntimeError>)
        requires
            call_requires(self.shared, (window_message(self.id, WindowOp::SetMinimized(false)),)),
        ensures
            self.sends(WindowOp::SetMinimized(false), result),
    {
        self.set(WindowOp::SetMinimized(false))
    }

    /// Shows the window.
    pub fn show(&self) -> (result: Result<(), RuntimeError>)
        requires
            call_requires(self.shared, (window_message(self.id, WindowOp::SetVisible(true)),)),
        ensures
            self.sends(WindowOp::SetVisible(true), result),
    {
        self.set(WindowOp::SetVisible(true))
    }

    /// Hides the window.
    pub fn hide_window(&self) -> (result: Result<(), RuntimeError>)
        requires
            call_requires(self.shared, (window_message(self.id, WindowOp::SetVisible(false)),)),
        ensures
            self.sends(WindowOp::SetVisible(false), result),
    {
        self.set(WindowOp::SetVisible(false))
    }

    /// Asks for the window to be closed.
    pub fn close(&self) -> (result: Result<(), RuntimeError>)
        requires
            call_requires(self.shared, (window_message(self.id, WindowOp::Close),)),
        ensures
            self.sends(WindowOp::Close, result),
    {
        self.set(WindowOp::Close)
    }

    /// Asks for the window to be closed.
    pub fn destroy(&self) -> (result: Result<(), RuntimeError>)
        requires
            call_requires(self.shared, (window_message(self.id, WindowOp::Close),)),
        ensures
            self.sends(WindowOp::Close, result),
    {
        self.set(WindowOp::Close)
    }

    /// Says whether the window has decorations.
    pub fn set_decorations(&self, decorations: bool) -> (result: Result<(), RuntimeError>)
        requires
            call_requires(
                self.shared,
                (window_message(self.id, WindowOp::SetDecorations(decorations)),),
            ),
        ensures
            self.sends(WindowOp::SetDecorations(decorations), result),
    {
        self.set(WindowOp::SetDecorations(decorations))
    }

    /// Not offered.
    pub fn set_shadow(&self, _enable: bool) -> (result: Result<(), RuntimeError>)
        ensures
            result == Err::<(), RuntimeError>(RuntimeError::Unsupported("window shadow")),
    {
        Err(unsupported("window shadow"))
    }

    /// Not offered.
    pub fn set_always_on_bottom(
        &self,
        _always_on_bottom: bool,
    ) -> (result: Result<(), RuntimeError>)
        ensures
            result == Err::<(), RuntimeError>(RuntimeError::Unsupported("always-on-bottom")),
    {
        Err(unsupported("always-on-bottom"))
    }

    /// Says whether the window stays above others.
    pub fn set_always_on_top(&self, always_on_top: bool) -> (result: Result<(), RuntimeError>)
        requires
            call_requires(
                self.shared,
                (window_message(self.id, WindowOp::SetAlwaysOnTop(always_on_top)),),
            ),
        ensures
            self.sends(WindowOp::SetAlwaysOnTop(always_on_top), result),
    {
        self.set(WindowOp::SetAlwaysOnTop(always_on_top))
    }

    /// Not offered.
    pub fn set_visible_on_all_workspaces(
        &self,
        _visible: bool,
    ) -> (result: Result<(), RuntimeError>)
        ensures
            result == Err::<(), RuntimeError>(
                RuntimeError::Unsupported("visible-on-all-workspaces"),
            ),
    {
        Err(unsupported("visible-on-all-workspaces"))
    }

    /// Not offered.
    pub fn set_background_color(&self, _color: Option<Color>) -> (result: Result<(), RuntimeError>)
        ensures
            result == Err::<(), RuntimeError>(RuntimeError::Unsupported("window background color")),
    {
        Err(unsupported("window background color"))
    }

    /// Says whether the content can be captured.
    pub fn set_content_protected(&self, protected: bool) -> (result: Result<(), RuntimeError>)
        requires
            call_requires(
                self.shared,
                (window_message(self.id, WindowOp::SetContentProtected(protected)),),
            ),
        ensures
            self.sends(WindowOp::SetContentProtected(protected), result),
    {
        self.set(WindowOp::SetContentProtected(protected))
    }

    /// Resizes the window.
    pub fn set_size(&self, size: Size<P>) -> (result: Result<(), RuntimeError>)
        requires
            call_requires(self.shared, (window_message(self.id, WindowOp::SetSize(size)),)),
        ensures
            self.sends(WindowOp::SetSize(size), result),
    {
        self.set(WindowOp::SetSize(size))
    }

    /// Gives the window a least size, or none.
    pub fn set_min_size(&self, size: Option<Size<P>>) -> (result: Result<(), RuntimeError>)
        requires
            call_requires(self.shared, (window_message(self.id, WindowOp::SetMinSize(size)),)),
        ensures
            self.sends(WindowOp::SetMinSize(size), result),
    {
        self.set(WindowOp::SetMinSize(size))
    }

    /// Gives the window a largest size, or none.
    pub fn set_max_size(&self, size: Option<Size<P>>) -> (result: Result<(), RuntimeError>)
        requires
            call_requires(self.shared, (window_message(self.id, WindowOp::SetMaxSize(size)),)),
        ensures
            self.sends(WindowOp::SetMaxSize(size), result),
    {
        self.set(WindowOp::SetMaxSize(size))
    }

    /// Not offered.
    pub fn set_size_constraints<C>(&self, _constraints: C) -> (result: Result<(), RuntimeError>)
        ensures
            result == Err::<(), RuntimeError>(RuntimeError::Unsupported("size constraints")),
    {
        Err(unsupported("size constraints"))
    }

    /// Moves the window.
    pub fn set_position(&self, position: Position<P>) -> (result: Result<(), RuntimeError>)
        requires
            call_requires(self.shared, (window_message(self.id, WindowOp::SetPosition(position)),)),
        ensures
            self.sends(WindowOp::SetPosition(position), result),
    {
        self.set(WindowOp::SetPosition(position))
    }

    /// Says whether the window fills a screen.
    pub fn set_fullscreen(&self, fullscreen: bool) -> (result: Result<(), RuntimeError>)
        requires
            call_requires(
                self.shared,
                (window_message(self.id, WindowOp::SetFullscreen(fullscreen)),),
            ),
        ensures
            self.sends(WindowOp::SetFullscreen(fullscreen), result),
    {
        self.set(WindowOp::SetFullscreen(fullscreen))
    }

    /// Not offered.
    pub fn set_simple_fullscreen(&self, _enable: bool) -> (result: Result<(), RuntimeError>)
        ensures
            result == Err::<(), RuntimeError>(RuntimeError::Unsupported("macOS simple fullscreen")),
    {
        Err(unsupported("macOS simple fullscreen"))
    }

    /// Gives the window the focus.
    pub fn set_focus(&self) -> (result: Result<(), RuntimeError>)
        requires
            call_requires(self.shared, (window_message(self.id, WindowOp::SetFocus),)),
        ensures
            self.sends(WindowOp::SetFocus, result),
    {
        self.set(WindowOp::SetFocus)
    }

    /// Not offered.
    pub fn set_focusable(&self, _focusable: bool) -> (result: Result<(), RuntimeError>)
        ensures
            result == Err::<(), RuntimeError>(RuntimeError::Unsupported("focusable flag")),
    {
        Err(unsupported("focusable flag"))
    }

    /// Gives the window an icon.
    pub fn set_icon(&self, icon: Icon) -> (result: Result<(), RuntimeError>)
        requires
            call_requires(
                self.shared,
                (
                    window_message(
                        self.id,
                        WindowOp::SetIcon {
                            rgba: icon.rgba,
                            width: icon.width,
                            height: icon.height,
                        },
                    ),
                ),
            ),
        ensures
            self.sends(
                WindowOp::SetIcon { rgba: icon.rgba, width: icon.width, height: icon.height },
                result,
            ),
    {
        self.set(WindowOp::SetIcon { rgba: icon.rgba, width: icon.width, height: icon.height })
    }

    /// Says whether the taskbar leaves the window out.
    pub fn set_skip_taskbar(&self, skip: bool) -> (result: Result<(), RuntimeError>)
        requires
            call_requires(self.shared, (window_message(self.id, WindowOp::SetSkipTaskbar(skip)),)),
        ensures
            self.sends(WindowOp::SetSkipTaskbar(skip), result),
    {
        self.set(WindowOp::SetSkipTaskbar(skip))
    }

    /// Says whether the cursor is kept in the window.
    pub fn set_cursor_grab(&self, grab: bool) -> (result: Result<(), RuntimeError>)
        requires
            call_requires(self.shared, (window_message(self.id, WindowOp::SetCursorGrab(grab)),)),
        ensures
            self.sends(WindowOp::SetCursorGrab(grab), result),
    {
        self.set(WindowOp::SetCursorGrab(grab))
    }

    /// Says whether the cursor is visible.
    pub fn set_cursor_visible(&self, visible: bool) -> (result: Result<(), RuntimeError>)
        requires
            call_requires(
                self.shared,
                (window_message(self.id, WindowOp::SetCursorVisible(visible)),),
            ),
        ensures
            self.sends(WindowOp::SetCursorVisible(visible), result),
    {
        self.set(WindowOp::SetCursorVisible(visible))
    }

    /// Gives the cursor a shape.
    pub fn set_cursor_icon(&self, icon: CursorIcon) -> (result: Result<(), RuntimeError>)
        requires
            call_requires(self.shared, (window_message(self.id, WindowOp::SetCursorIcon(icon)),)),
        ensures
            self.sends(WindowOp::SetCursorIcon(icon), result),
    {
        self.set(WindowOp::SetCursorIcon(icon))
    }

    /// Not offered.
    pub fn set_cursor_position(&self, _position: Position<P>) -> (result: Result<(), RuntimeError>)
        ensures
            result == Err::<(), RuntimeError>(RuntimeError::Unsupported("cursor positioning")),
    {
        Err(unsupported("cursor positioning"))
    }

    /// Says whether the cursor acts on what is below the window.
    pub fn set_ignore_cursor_events(&self, ignore: bool) -> (result: Result<(), RuntimeError>)
        requires
            call_requires(
                self.shared,
                (window_message(self.id, WindowOp::SetIgnoreCursorEvents(ignore)),),
            ),
        ensures
            self.sends(WindowOp::SetIgnoreCursorEvents(ignore), result),
    {
        self.set(WindowOp::SetIgnoreCursorEvents(ignore))
    }

    /// Not offered.
    pub fn start_dragging(&self) -> (result: Result<(), RuntimeError>)
        ensures
            result == Err::<(), RuntimeError>(RuntimeError::Unsupported("window dragging")),
    {
        Err(unsupported("window dragging"))
    }

    /// Not offered.
    pub fn start_resize_dragging<D>(&self, _direction: D) -> (result: Result<(), RuntimeError>)
        ensures
            result == Err::<(), RuntimeError>(RuntimeError::Unsupported("resize dragging")),
    {
        Err(unsupported("resize dragging"))
    }

    /// Not offered.
    pub fn set_badge_count(
        &self,
        _count: Option<i64>,
        _desktop_filename: Option<String>,
    ) -> (result: Result<(), RuntimeError>)
        ensures
            result == Err::<(), RuntimeError>(RuntimeError::Unsupported("badge count")),
    {
        Err(unsupported("badge count"))
    }

    /// Not offered.
    pub fn set_badge_label(&self, _label: Option<String>) -> (result: Result<(), RuntimeError>)
        ensures
            result == Err::<(), RuntimeError>(RuntimeError::Unsupported("badge label")),
    {
        Err(unsupported("badge label"))
    }

    /// Not offered.
    pub fn set_overlay_icon(&self, _icon: Option<Icon>) -> (result: Result<(), RuntimeError>)
        ensures
            result == Err::<(), RuntimeError>(RuntimeError::Unsupported("overlay icon")),
    {
        Err(unsupported("overlay icon"))
    }

    /// Not offered.
    pub fn set_progress_bar<B>(&self, _progress_state: B) -> (result: Result<(), RuntimeError>)
        ensures
            result == Err::<(), RuntimeError>(RuntimeError::Unsupported("progress bar")),
    {
        Err(unsupported("progress bar"))
    }

    /// Not offered.
    pub fn set_title_bar_style(&self, _style: TitleBarStyle) -> (result: Result<(), RuntimeError>)
        ensures
            result == Err::<(), RuntimeError>(RuntimeError::Unsupported("title bar style")),
    {
        Err(unsupported("title bar style"))
    }

    /// Not offered.
    pub fn set_traffic_light_position(
        &self,
        _position: Position<P>,
    ) -> (result: Result<(), RuntimeError>)
        ensures
            result == Err::<(), RuntimeError>(RuntimeError::Unsupported("traffic light position")),
    {
        Err(unsupported("traffic light position"))
    }

    /// Not offered.
    pub fn set_theme(&self, _theme: Option<Theme>) -> (result: Result<(), RuntimeError>)
        ensures
            result == Err::<(), RuntimeError>(RuntimeError::Unsupported("window theme")),
    {
        Err(unsupported("window theme"))
    }
}

/// The event loop is handed the operation on this window, and the result tells
/// whether the loop took it.
pub proof fn law_window_operation_is_sent<P: Platform, S: Fn(TaoMessage<P>) -> bool>(
    dispatcher: ServoWindowDispatcher<P, S>,
    op: WindowOp<P>,
    result: Result<(), RuntimeError>,
)
    requires
        dispatcher.sends(op, result),
    ensures
        exists|taken: bool|
            {
                &&& #[trigger] call_ensures(
                    dispatcher.shared,
                    (
                        TaoMessage::Runtime(
                            RuntimeMessage::Window { id: dispatcher.id, op },
                        ),
                    ),
                    taken,
                )
                &&& taken ==> result == Ok::<(), RuntimeError>(())
                &&& !taken ==> result == Err::<(), RuntimeError>(
                    RuntimeError::FailedToSendMessage,
                )
            },
{
    let taken = choose|taken: bool| #[trigger]
        call_ensures(dispatcher.shared, (window_message(dispatcher.id, op),), taken) && result
            == send_result(taken);
    assert(call_ensures(
        dispatcher.shared,
        (TaoMessage::Runtime(RuntimeMessage::Window { id: dispatcher.id, op }),),
        taken,
    ));
}

/// What is asked is the operation on this window, and the result is the answer, or
/// tells why there is none.
pub proof fn law_window_question_is_asked<
    P: Platform,
    S: Fn(TaoMessage<P>) -> bool,
    R,
    A: FnOnce(TaoMessage<P>) -> Delivery<R>,
>(
    dispatcher: ServoWindowDispatcher<P, S>,
    ask: A,
    op: WindowOp<P>,
    result: Result<R, RuntimeError>,
)
    requires
        dispatcher.asks(ask, op, result),
    ensures
        exists|delivery: Delivery<R>|
            {
                &&& #[trigger] call_ensures(
                    ask,
                    (
                        TaoMessage::Runtime(
                            RuntimeMessage::Window { id: dispatcher.id, op },
                        ),
                    ),
                    delivery,
                )
                &&& delivery is NotSent ==> result == Err::<R, RuntimeError>(
                    RuntimeError::FailedToSendMessage,
                )
                &&& delivery is NotAnswered ==> result == Err::<R, RuntimeError>(
                    RuntimeError::FailedToReceiveMessage,
                )
                &&& delivery matches Delivery::Answered(answer) ==> result == answer
            },
{
    let delivery = choose|delivery: Delivery<R>| #[trigger]
        call_ensures(ask, (window_message(dispatcher.id, op),), delivery) && result
            == roundtrip_result(delivery);
    assert(call_ensures(
        ask,
        (TaoMessage::Runtime(RuntimeMessage::Window { id: dispatcher.id, op }),),
        delivery,
    ));
}


/// A connected dispatcher can send every operation on its window.
pub proof fn law_connected_window_takes_every_operation<P: Platform, S: Fn(TaoMessage<P>) -> bool>(
    dispatcher: ServoWindowDispatcher<P, S>,
    op: WindowOp<P>,
)
    requires
        dispatcher.connected(),
    ensures
        call_requires(
            dispatcher.shared,
            (TaoMessage::Runtime(RuntimeMessage::Window { id: dispatcher.id, op }),),
        ),
{
}

} // verus!
