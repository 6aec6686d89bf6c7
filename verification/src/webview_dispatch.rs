//! The handle to a webview that every thread can use.
use crate::error::{
    roundtrip, roundtrip_result, send, send_result, unsupported, Delivery, RuntimeError,
};
use crate::geometry::{PhysicalPosition, PhysicalRect, PhysicalSize, Position, Size};
use crate::message::{webview_message, RuntimeMessage, TaoMessage};
use crate::platform::Platform;
use crate::webview::{WebviewEventId, WebviewOp};
use std::marker::PhantomData;
use tauri_utils::config::Color;
use url::Url;
use vstd::prelude::*;

verus! {

/// Handle to a webview of the main thread. What it is asked for travels through
/// the event loop.
pub struct ServoWebviewDispatcher<P: Platform, S> {
    pub label: String,
    /// Hands a message to the event loop and tells whether the loop took it.
    pub shared: S,
    pub platform: PhantomData<P>,
}

impl<P: Platform, S: Fn(TaoMessage<P>) -> bool> ServoWebviewDispatcher<P, S> {
    /// Whether every message can be handed to the event loop.
    ///
    /// The methods ask for less: each may hand over the one message that it is
    /// for, and no other.
    pub open spec fn connected(self) -> bool {
        forall|message: TaoMessage<P>| #[trigger] call_requires(self.shared, (message,))
    }

    /// Whether `result` is what comes of handing the event loop an operation on
    /// this webview.
    pub open spec fn sends(self, op: WebviewOp<P>, result: Result<(), RuntimeError>) -> bool {
        exists|taken: bool| #[trigger]
            call_ensures(self.shared, (webview_message(self.label, op),), taken) && result
                == send_result(taken)
    }

    /// Whether `result` is what comes of handing `ask` an operation on this
    /// webview for an answer.
    pub open spec fn asks<R, A: FnOnce(TaoMessage<P>) -> Delivery<R>>(
        self,
        ask: A,
        op: WebviewOp<P>,
        result: Result<R, RuntimeError>,
    ) -> bool {
        exists|delivery: Delivery<R>| #[trigger]
            call_ensures(ask, (webview_message(self.label, op),), delivery) && result
                == roundtrip_result(delivery)
    }

    fn send(&self, op: WebviewOp<P>) -> (result: Result<(), RuntimeError>)
        requires
            call_requires(self.shared, (webview_message(self.label, op),)),
        ensures
            self.sends(op, result),
    {
        let message = TaoMessage::Runtime(
            RuntimeMessage::Webview { label: self.label.clone(), op },
        );
        send((self.shared)(message))
    }

    fn roundtrip<R, A: FnOnce(TaoMessage<P>) -> Delivery<R>>(
        &self,
        op: WebviewOp<P>,
        ask: A,
    ) -> (result: Result<R, RuntimeError>)
        requires
            call_requires(ask, (webview_message(self.label, op),)),
        ensures
            self.asks(ask, op, result),
    {
        let message = TaoMessage::Runtime(
            RuntimeMessage::Webview { label: self.label.clone(), op },
        );
        roundtrip(ask(message))
    }

    /// Runs a closure on the main thread.
    pub fn run_on_main_thread(&self, thunk: P::Thunk) -> (result: Result<(), RuntimeError>)
        requires
            call_requires(
                self.shared,
                (TaoMessage::Runtime(RuntimeMessage::RunMainThread(thunk)),),
            ),
        ensures
            exists|taken: bool| #[trigger]
                call_ensures(
                    self.shared,
                    (TaoMessage::Runtime(RuntimeMessage::RunMainThread(thunk)),),
                    taken,
                ) && result == send_result(taken),
    {
        send((self.shared)(TaoMessage::Runtime(RuntimeMessage::RunMainThread(thunk))))
    }

    /// Stores a handler for the events of the webview, waits until the main thread
    /// has done so or will not, and returns the id that was drawn for it in either
    /// case.
    pub fn on_webview_event<A: FnOnce(TaoMessage<P>) -> Delivery<WebviewEventId>>(
        &self,
        handler: P::WebviewHandler,
        id: WebviewEventId,
        ask: A,
    ) -> (given: WebviewEventId)
        requires
            call_requires(ask, (webview_message(self.label, WebviewOp::OnEvent { handler }),)),
        ensures
            given == id,
            exists|delivery: Delivery<WebviewEventId>| #[trigger]
                call_ensures(
                    ask,
                    (webview_message(self.label, WebviewOp::OnEvent { handler }),),
                    delivery,
                ),
    {
        let _stored = self.roundtrip(WebviewOp::OnEvent { handler }, ask);
        id
    }

    /// Not offered.
    pub fn with_webview<F>(&self, _f: F) -> (result: Result<(), RuntimeError>)
        ensures
            result == Err::<(), RuntimeError>(RuntimeError::Unsupported("platform webview access")),
    {
        Err(unsupported("platform webview access"))
    }

    /// Does nothing: the engine has no developer tools.
    pub fn open_devtools(&self) {
    }

    /// Does nothing: the engine has no developer tools.
    pub fn close_devtools(&self) {
    }

    /// Whether the developer tools are open, which they never are.
    pub fn is_devtools_open(&self) -> (result: Result<bool, RuntimeError>)
        ensures
            result == Ok::<bool, RuntimeError>(false),
    {
        Ok(false)
    }

    /// The address of the webview.
    pub fn url<A: FnOnce(TaoMessage<P>) -> Delivery<String>>(
        &self,
        ask: A,
    ) -> (result: Result<String, RuntimeError>)
        requires
            call_requires(ask, (webview_message(self.label, WebviewOp::Url),)),
        ensures
            self.asks(ask, WebviewOp::Url, result),
    {
        self.roundtrip(WebviewOp::Url, ask)
    }

    /// Not offered.
    pub fn bounds(&self) -> (result: Result<PhysicalRect, RuntimeError>)
        ensures
            result == Err::<PhysicalRect, RuntimeError>(
                RuntimeError::Unsupported("webview bounds query"),
            ),
    {
        Err(unsupported("webview bounds query"))
    }

    /// Not offered.
    pub fn position(&self) -> (result: Result<PhysicalPosition, RuntimeError>)
        ensures
            result == Err::<PhysicalPosition, RuntimeError>(
                RuntimeError::Unsupported("webview position query"),
            ),
    {
        Err(unsupported("webview position query"))
    }

    /// Not offered.
    pub fn size(&self) -> (result: Result<PhysicalSize, RuntimeError>)
        ensures
            result == Err::<PhysicalSize, RuntimeError>(
                RuntimeError::Unsupported("webview size query"),
            ),
    {
        Err(unsupported("webview size query"))
    }

    /// Loads an address.
    pub fn navigate(&self, url: Url) -> (result: Result<(), RuntimeError>)
        requires
            call_requires(self.shared, (webview_message(self.label, WebviewOp::Navigate(url)),)),
        ensures
            self.sends(WebviewOp::Navigate(url), result),
    {
        self.send(WebviewOp::Navigate(url))
    }

    /// Loads the address of the webview anew.
    pub fn reload(&self) -> (result: Result<(), RuntimeError>)
        requires
            call_requires(self.shared, (webview_message(self.label, WebviewOp::Reload),)),
        ensures
            self.sends(WebviewOp::Reload, result),
    {
        self.send(WebviewOp::Reload)
    }

    /// Not offered.
    pub fn print(&self) -> (result: Result<(), RuntimeError>)
        ensures
            result == Err::<(), RuntimeError>(RuntimeError::Unsupported("webview printing")),
    {
        Err(unsupported("webview printing"))
    }

    /// Asks for the webview to be closed.
    pub fn close(&self) -> (result: Result<(), RuntimeError>)
        requires
            call_requires(self.shared, (webview_message(self.label, WebviewOp::Close),)),
        ensures
            self.sends(WebviewOp::Close, result),
    {
        self.send(WebviewOp::Close)
    }

    /// Not offered.
    pub fn set_bounds<B>(&self, _bounds: B) -> (result: Result<(), RuntimeError>)
        ensures
            result == Err::<(), RuntimeError>(RuntimeError::Unsupported("webview bounds")),
    {
        Err(unsupported("webview bounds"))
    }

    /// Not offered.
    pub fn set_size(&self, _size: Size<P>) -> (result: Result<(), RuntimeError>)
        ensures
            result == Err::<(), RuntimeError>(RuntimeError::Unsupported("webview size")),
    {
        Err(unsupported("webview size"))
    }

    /// Not offered.
    pub fn set_position(&self, _position: Position<P>) -> (result: Result<(), RuntimeError>)
        ensures
            result == Err::<(), RuntimeError>(RuntimeError::Unsupported("webview position")),
    {
        Err(unsupported("webview position"))
    }

    /// Gives the webview the focus.
    pub fn set_focus(&self) -> (result: Result<(), RuntimeError>)
        requires
            call_requires(self.shared, (webview_message(self.label, WebviewOp::SetFocus),)),
        ensures
            self.sends(WebviewOp::SetFocus, result),
    {
        self.send(WebviewOp::SetFocus)
    }

    /// Hides the webview.
    pub fn hide_webview(&self) -> (result: Result<(), RuntimeError>)
        requires
            call_requires(self.shared, (webview_message(self.label, WebviewOp::Hide),)),
        ensures
            self.sends(WebviewOp::Hide, result),
    {
        self.send(WebviewOp::Hide)
    }

    /// Shows the webview.
    pub fn show(&self) -> (result: Result<(), RuntimeError>)
        requires
            call_requires(self.shared, (webview_message(self.label, WebviewOp::Show),)),
        ensures
            self.sends(WebviewOp::Show, result),
    {
        self.send(WebviewOp::Show)
    }

    /// Runs a script.
    pub fn eval_script(&self, script: String) -> (result: Result<(), RuntimeError>)
        requires
            call_requires(
                self.shared,
                (webview_message(self.label, WebviewOp::EvalScript { script }),),
            ),
        ensures
            self.sends(WebviewOp::EvalScript { script }, result),
    {
        self.send(WebviewOp::EvalScript { script })
    }

    /// Runs a script and has `await_reply` wait for its outcome, if the event loop
    /// took the script. Nothing waits for a script that the loop refused.
    pub fn eval_script_with_callback<W: FnOnce()>(&self, script: String, await_reply: W) -> (result:
        Result<(), RuntimeError>)
        requires
            call_requires(
                self.shared,
                (webview_message(self.label, WebviewOp::EvalScriptWithCallback { script }),),
            ),
            forall|taken: bool| #[trigger]
                call_ensures(
                    self.shared,
                    (webview_message(self.label, WebviewOp::EvalScriptWithCallback { script }),),
                    taken,
                ) && taken ==> call_requires(await_reply, ()),
        ensures
            self.sends(WebviewOp::EvalScriptWithCallback { script }, result),
            result is Ok ==> call_ensures(await_reply, (), ()),
    {
        let result = self.send(WebviewOp::EvalScriptWithCallback { script });
        if result.is_ok() {
            await_reply();
        }
        result
    }

    /// Not offered.
    pub fn reparent<I>(&self, _window_id: I) -> (result: Result<(), RuntimeError>)
        ensures
            result == Err::<(), RuntimeError>(RuntimeError::Unsupported("webview reparenting")),
    {
        Err(unsupported("webview reparenting"))
    }

    /// Not offered.
    pub fn cookies_for_url<K>(&self, _url: Url) -> (result: Result<Vec<K>, RuntimeError>)
        ensures
            result == Err::<Vec<K>, RuntimeError>(RuntimeError::Unsupported("cookie store")),
    {
        Err(unsupported("cookie store"))
    }

    /// Not offered.
    pub fn cookies<K>(&self) -> (result: Result<Vec<K>, RuntimeError>)
        ensures
            result == Err::<Vec<K>, RuntimeError>(RuntimeError::Unsupported("cookie store")),
    {
        Err(unsupported("cookie store"))
    }

    /// Not offered.
    pub fn set_cookie<K>(&self, _cookie: K) -> (result: Result<(), RuntimeError>)
        ensures
            result == Err::<(), RuntimeError>(RuntimeError::Unsupported("cookie store")),
    {
        Err(unsupported("cookie store"))
    }

    /// Not offered.
    pub fn delete_cookie<K>(&self, _cookie: K) -> (result: Result<(), RuntimeError>)
        ensures
            result == Err::<(), RuntimeError>(RuntimeError::Unsupported("cookie store")),
    {
        Err(unsupported("cookie store"))
    }

    /// Says whether the webview is resized with its window, which it always is.
    pub fn set_auto_resize(&self, _auto_resize: bool) -> (result: Result<(), RuntimeError>)
        ensures
            result == Ok::<(), RuntimeError>(()),
    {
        Ok(())
    }

    /// Not offered.
    pub fn set_zoom(&self, _scale_factor: P::Scalar) -> (result: Result<(), RuntimeError>)
        ensures
            result == Err::<(), RuntimeError>(RuntimeError::Unsupported("webview zoom")),
    {
        Err(unsupported("webview zoom"))
    }

    /// Not offered.
    pub fn set_background_color(&self, _color: Option<Color>) -> (result: Result<(), RuntimeError>)
        ensures
            result == Err::<(), RuntimeError>(
                RuntimeError::Unsupported("webview background color"),
            ),
    {
        Err(unsupported("webview background color"))
    }

    /// Not offered.
    pub fn clear_all_browsing_data(&self) -> (result: Result<(), RuntimeError>)
        ensures
            result == Err::<(), RuntimeError>(RuntimeError::Unsupported("browsing data clearing")),
    {
        Err(unsupported("browsing data clearing"))
    }

    /// Registers an IPC command handler on the webview.
    pub fn register_ipc_handler(&self, command: String, handler: P::CommandHandler) -> (result:
        Result<(), RuntimeError>)
        requires
            call_requires(
                self.shared,
                (webview_message(self.label, WebviewOp::RegisterIpc { command, handler }),),
            ),
        ensures
            self.sends(WebviewOp::RegisterIpc { command, handler }, result),
    {
        self.send(WebviewOp::RegisterIpc { command, handler })
    }
}

/// The event loop is handed the operation on this webview, and the result tells
/// whether the loop took it.
pub proof fn law_webview_operation_is_sent<P: Platform, S: Fn(TaoMessage<P>) -> bool>(
    dispatcher: ServoWebviewDispatcher<P, S>,
    op: WebviewOp<P>,
    result: Result<(), RuntimeError>,
)
    requires
        dispatcher.sends(op, result),
    ensures
        exists|taken: bool|
            {
                &&& #[trigger] call_ensures(
                    dispatcher.shared,
                    (
                        TaoMessage::Runtime(
                            RuntimeMessage::Webview { label: dispatcher.label, op },
                        ),
                    ),
                    taken,
                )
                &&& taken ==> result == Ok::<(), RuntimeError>(())
                &&& !taken ==> result == Err::<(), RuntimeError>(
                    RuntimeError::FailedToSendMessage,
                )
            },
{
    let taken = choose|taken: bool| #[trigger]
        call_ensures(dispatcher.shared, (webview_message(dispatcher.label, op),), taken) && result
            == send_result(taken);
    assert(call_ensures(
        dispatcher.shared,
        (TaoMessage::Runtime(RuntimeMessage::Webview { label: dispatcher.label, op }),),
        taken,
    ));
}

/// What is asked is the operation on this webview, and the result is the answer, or
/// tells why there is none.
pub proof fn law_webview_question_is_asked<
    P: Platform,
    S: Fn(TaoMessage<P>) -> bool,
    R,
    A: FnOnce(TaoMessage<P>) -> Delivery<R>,
>(
    dispatcher: ServoWebviewDispatcher<P, S>,
    ask: A,
    op: WebviewOp<P>,
    result: Result<R, RuntimeError>,
)
    requires
        dispatcher.asks(ask, op, result),
    ensures
        exists|delivery: Delivery<R>|
            {
                &&& #[trigger] call_ensures(
                    ask,
                    (
                        TaoMessage::Runtime(
                            RuntimeMessage::Webview { label: dispatcher.label, op },
                        ),
                    ),
                    delivery,
                )
                &&& delivery is NotSent ==> result == Err::<R, RuntimeError>(
                    RuntimeError::FailedToSendMessage,
                )
                &&& delivery is NotAnswered ==> result == Err::<R, RuntimeError>(
                    RuntimeError::FailedToReceiveMessage,
                )
                &&& delivery matches Delivery::Answered(answer) ==> result == answer
            },
{
    let delivery = choose|delivery: Delivery<R>| #[trigger]
        call_ensures(ask, (webview_message(dispatcher.label, op),), delivery) && result
            == roundtrip_result(delivery);
    assert(call_ensures(
        ask,
        (TaoMessage::Runtime(RuntimeMessage::Webview { label: dispatcher.label, op }),),
        delivery,
    ));
}


/// A connected dispatcher can send every operation on its webview.
pub proof fn law_connected_webview_takes_every_operation<P: Platform, S: Fn(TaoMessage<P>) -> bool>(
    dispatcher: ServoWebviewDispatcher<P, S>,
    op: WebviewOp<P>,
)
    requires
        dispatcher.connected(),
    ensures
        call_requires(
            dispatcher.shared,
            (TaoMessage::Runtime(RuntimeMessage::Webview { label: dispatcher.label, op }),),
        ),
{
}

} // verus!
