//! The engine: when it is built and with what, and how views are created in it.
use crate::error::RuntimeError;
use crate::ipc::{INIT_SCRIPT, IPC_SCHEME};
use crate::message::TaoMessage;
use crate::platform::Platform;
use std::marker::PhantomData;
use url::Url;
use vstd::prelude::*;

verus! {

/// Web features that the engine has switched off unless they are asked for.
#[derive(Debug, Clone, Copy, PartialEq, Eq, Structural)]
pub struct EnginePreferences {
    pub dom_indexeddb_enabled: bool,
    pub dom_async_clipboard_enabled: bool,
    pub dom_notification_enabled: bool,
    pub dom_fontface_enabled: bool,
    pub dom_resize_observer_enabled: bool,
    pub dom_intersection_observer_enabled: bool,
    pub dom_cookiestore_enabled: bool,
    pub dom_sanitizer_enabled: bool,
    pub dom_web_animations_enabled: bool,
    pub dom_exec_command_enabled: bool,
    pub dom_composition_event_enabled: bool,
    pub dom_storage_manager_api_enabled: bool,
}

/// What the engine is built with.
#[derive(Debug, Clone, Copy)]
pub struct EngineConfig {
    /// The scheme whose addresses the IPC protocol handler serves.
    pub scheme: &'static str,
    /// The web features to switch on.
    pub preferences: EnginePreferences,
}

/// What the engine is built with: the features that applications cannot do
/// without are all switched on.
pub open spec fn engine_config() -> EngineConfig {
    EngineConfig {
        scheme: IPC_SCHEME,
        preferences: EnginePreferences {
            dom_indexeddb_enabled: true,
            dom_async_clipboard_enabled: true,
            dom_notification_enabled: true,
            dom_fontface_enabled: true,
            dom_resize_observer_enabled: true,
            dom_intersection_observer_enabled: true,
            dom_cookiestore_enabled: true,
            dom_sanitizer_enabled: true,
            dom_web_animations_enabled: true,
            dom_exec_command_enabled: true,
            dom_composition_event_enabled: true,
            dom_storage_manager_api_enabled: true,
        },
    }
}

/// The shared engine, which is built on first use. Must run on the main thread.
pub fn ensure_servo<S, B: FnOnce(EngineConfig) -> S>(servo: &mut Option<S>, build: B) -> (engine:
    &S)
    requires
        *old(servo) is None ==> call_requires(build, (engine_config(),)),
    ensures
        *final(servo) == Some(*engine),
        match *old(servo) {
            Some(present) => *engine == present,
            None => call_ensures(build, (engine_config(),), *engine),
        },
{
    if servo.is_none() {
        let preferences = EnginePreferences {
            dom_indexeddb_enabled: true,
            dom_async_clipboard_enabled: true,
            dom_notification_enabled: true,
            dom_fontface_enabled: true,
            dom_resize_observer_enabled: true,
            dom_intersection_observer_enabled: true,
            dom_cookiestore_enabled: true,
            dom_sanitizer_enabled: true,
            dom_web_animations_enabled: true,
            dom_exec_command_enabled: true,
            dom_composition_event_enabled: true,
            dom_storage_manager_api_enabled: true,
        };
        let instance = build(EngineConfig { scheme: IPC_SCHEME, preferences });
        *servo = Some(instance);
    }
    servo.as_ref().unwrap()
}

/// Wakes the event loop when the engine has work.
pub struct ServoWaker<P: Platform, S> {
    /// Hands a message to the event loop and tells whether the loop took it.
    pub proxy: S,
    pub platform: PhantomData<P>,
}

impl<P: Platform, S: Fn(TaoMessage<P>) -> bool> ServoWaker<P, S> {
    /// Tells the event loop that the engine has work, whether or not the loop
    /// takes the message.
    pub fn wake(&self)
        requires
            call_requires(self.proxy, (TaoMessage::<P>::ServoWake,)),
        ensures
            exists|taken: bool| #[trigger]
                call_ensures(self.proxy, (TaoMessage::<P>::ServoWake,), taken),
    {
        let _taken: bool = (self.proxy)(TaoMessage::ServoWake);
    }
}

/// Per-webview delegate: redraw requests. Loads are not intercepted, so that
/// those of the IPC scheme reach the protocol handler.
pub struct LegatusDelegate<P: Platform, S> {
    /// Hands a message to the event loop and tells whether the loop took it.
    pub proxy: S,
    /// The native window that the webview fills.
    pub window_id: u64,
    pub platform: PhantomData<P>,
}

impl<P: Platform, S: Fn(TaoMessage<P>) -> bool> LegatusDelegate<P, S> {
    /// Asks the event loop to draw the window anew, whether or not the loop takes
    /// the message.
    pub fn notify_new_frame_ready(&self)
        requires
            call_requires(self.proxy, (TaoMessage::<P>::RequestRedraw(self.window_id),)),
        ensures
            exists|taken: bool| #[trigger]
                call_ensures(
                    self.proxy,
                    (TaoMessage::<P>::RequestRedraw(self.window_id),),
                    taken,
                ),
    {
        let _taken: bool = (self.proxy)(TaoMessage::RequestRedraw(self.window_id));
    }
}

/// What a view is created with, beside its rendering context.
pub struct ViewPlan {
    /// The address that the view loads first.
    pub url: Url,
    /// The script that runs in every page of the view.
    pub script: &'static str,
    /// The native window that is redrawn for the view.
    pub window_id: u64,
}

/// Whether `result` is the refusal of a webview, told by `what` and the words of
/// the error.
pub open spec fn refused<V>(
    result: Result<V, RuntimeError>,
    what: Seq<char>,
    error: Seq<char>,
) -> bool {
    result matches Err(RuntimeError::CreateWebview(message)) && message@ == what + error
}

fn refusal(what: &str, error: &String) -> (message: String)
    ensures
        message@ == what@ + error@,
{
    let mut message: String = what.to_owned();
    message.append(error.as_str());
    message
}

/// Creates a view that fills the native window `window_id`: gets the handle of
/// the window, makes a rendering context for it and builds the view in it. Must
/// run on the main thread.
pub fn create_view<H, C, V, HandleOf, ContextOf, Build>(
    window_id: u64,
    url: Url,
    window_handle: HandleOf,
    rendering_context: ContextOf,
    build: Build,
) -> (created: Result<(V, C), RuntimeError>) where
    HandleOf: FnOnce() -> Result<H, String>,
    ContextOf: FnOnce(H) -> Result<C, String>,
    Build: FnOnce(&C, ViewPlan) -> V,

    requires
        call_requires(window_handle, ()),
        forall|handle: H| call_requires(rendering_context, (handle,)),
        forall|context: &C, plan: ViewPlan| call_requires(build, (context, plan)),
    ensures
        exists|handle: Result<H, String>| #[trigger]
            call_ensures(window_handle, (), handle) && match handle {
                Err(error) => refused(created, "no window handle: "@, error@) && (
                created matches Err(RuntimeError::CreateWebview(message)) && message@
                    == "no window handle: "@ + error@),
                Ok(handle) => exists|context: Result<C, String>| #[trigger]
                    call_ensures(rendering_context, (handle,), context) && match context {
                        Err(error) => refused(created, "no rendering context: "@, error@) && (
                        created matches Err(RuntimeError::CreateWebview(message)) && message@
                            == "no rendering context: "@ + error@),
                        Ok(context) => {
                            &&& created matches Ok(pair)
                            &&& pair.1 == context
                            &&& call_ensures(
                                build,
                                (&context, ViewPlan { url, script: INIT_SCRIPT, window_id }),
                                pair.0,
                            )
                        },
                    },
            },
{
    let handle = match window_handle() {
        Ok(handle) => handle,
        Err(error) => return Err(
            RuntimeError::CreateWebview(refusal("no window handle: ", &error)),
        ),
    };
    let context = match rendering_context(handle) {
        Ok(context) => context,
        Err(error) => return Err(
            RuntimeError::CreateWebview(refusal("no rendering context: ", &error)),
        ),
    };
    let view = build(&context, ViewPlan { url, script: INIT_SCRIPT, window_id });
    Ok((view, context))
}

/// The engine serves the scheme `ipc` and has every feature switched on that
/// applications cannot do without.
pub proof fn law_engine_has_every_feature()
    ensures
        engine_config().scheme@ == "ipc"@,
        engine_config().preferences.dom_indexeddb_enabled,
        engine_config().preferences.dom_async_clipboard_enabled,
        engine_config().preferences.dom_notification_enabled,
        engine_config().preferences.dom_fontface_enabled,
        engine_config().preferences.dom_resize_observer_enabled,
        engine_config().preferences.dom_intersection_observer_enabled,
        engine_config().preferences.dom_cookiestore_enabled,
        engine_config().preferences.dom_sanitizer_enabled,
        engine_config().preferences.dom_web_animations_enabled,
        engine_config().preferences.dom_exec_command_enabled,
        engine_config().preferences.dom_composition_event_enabled,
        engine_config().preferences.dom_storage_manager_api_enabled,
{
}

/// A refused webview is an error that tells what is missing and why.
pub proof fn law_refusal_tells_why<V>(
    result: Result<V, RuntimeError>,
    what: Seq<char>,
    error: Seq<char>,
)
    requires
        refused(result, what, error),
    ensures
        result matches Err(RuntimeError::CreateWebview(message)) && message@ == what + error,
{
}

} // verus!
