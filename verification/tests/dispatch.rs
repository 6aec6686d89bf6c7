use std::cell::{Cell, RefCell};
use std::marker::PhantomData;
use tauri_runtime_servo::builder::Icon;
use tauri_runtime_servo::cursor::CursorIcon;
use tauri_runtime_servo::engine::{
    create_view, ensure_servo, EngineConfig, LegatusDelegate, ServoWaker, ViewPlan,
};
use tauri_runtime_servo::error::{unsupported, Delivery, RuntimeError};
use tauri_runtime_servo::geometry::PhysicalSize;
use tauri_runtime_servo::ipc::INIT_SCRIPT;
use tauri_runtime_servo::message::{run_once, EventIds, RuntimeMessage, TaoMessage};
use tauri_runtime_servo::platform::Platform;
use tauri_runtime_servo::webview::WebviewOp;
use tauri_runtime_servo::webview_dispatch::ServoWebviewDispatcher;
use tauri_runtime_servo::window::WindowOp;
use tauri_runtime_servo::window_dispatch::ServoWindowDispatcher;
use url::Url;

struct Desk;

impl Platform for Desk {
    type Scalar = f64;
    type Window = u8;
    type View = u8;
    type WindowHandler = u8;
    type WebviewHandler = u8;
    type Thunk = u8;
    type CommandHandler = u8;
    type Registry = ();
}

type Message = TaoMessage<Desk>;

fn window_op(message: Message) -> (u32, WindowOp<Desk>) {
    match message {
        TaoMessage::Runtime(RuntimeMessage::Window { id, op }) => (id, op),
        _ => panic!("no window message"),
    }
}

fn webview_op(message: Message) -> (String, WebviewOp<Desk>) {
    match message {
        TaoMessage::Runtime(RuntimeMessage::Webview { label, op }) => (label, op),
        _ => panic!("no webview message"),
    }
}

#[test]
fn window_operations_are_sent_to_the_loop() {
    let sent: RefCell<Vec<Message>> = RefCell::new(Vec::new());
    let window = ServoWindowDispatcher {
        id: 7,
        shared: |message: Message| {
            sent.borrow_mut().push(message);
            true
        },
        platform: PhantomData,
    };
    let last = || window_op(sent.borrow_mut().pop().unwrap());
    assert_eq!(window.show(), Ok(()));
    assert!(matches!(last(), (7, WindowOp::SetVisible(true))));
    assert_eq!(window.hide_window(), Ok(()));
    assert!(matches!(last(), (7, WindowOp::SetVisible(false))));
    assert_eq!(window.maximize(), Ok(()));
    assert!(matches!(last(), (7, WindowOp::SetMaximized(true))));
    assert_eq!(window.unminimize(), Ok(()));
    assert!(matches!(last(), (7, WindowOp::SetMinimized(false))));
    assert_eq!(window.close(), Ok(()));
    assert!(matches!(last(), (7, WindowOp::Close)));
    assert_eq!(window.destroy(), Ok(()));
    assert!(matches!(last(), (7, WindowOp::Close)));
    assert_eq!(window.set_title("servo".to_string()), Ok(()));
    assert!(matches!(last(), (7, WindowOp::SetTitle(title)) if title == "servo"));
    assert_eq!(window.set_cursor_icon(CursorIcon::Wait), Ok(()));
    assert!(matches!(last(), (7, WindowOp::SetCursorIcon(CursorIcon::Wait))));
    assert_eq!(window.set_icon(Icon { rgba: vec![9; 4], width: 1, height: 1 }), Ok(()));
    assert!(matches!(
        last(),
        (7, WindowOp::SetIcon { rgba, width: 1, height: 1 }) if rgba == vec![9; 4]
    ));
    assert_eq!(window.run_on_main_thread(5), Ok(()));
    assert!(matches!(last(), (7, WindowOp::Run(5))));
    assert!(sent.borrow().is_empty());
}

#[test]
fn refused_message_is_an_error() {
    let window = ServoWindowDispatcher {
        id: 7,
        shared: |_message: Message| false,
        platform: PhantomData,
    };
    assert_eq!(window.show(), Err(RuntimeError::FailedToSendMessage));
    let webview = ServoWebviewDispatcher {
        label: "main".to_string(),
        shared: |_message: Message| false,
        platform: PhantomData,
    };
    assert_eq!(webview.reload(), Err(RuntimeError::FailedToSendMessage));
    assert_eq!(webview.run_on_main_thread(1), Err(RuntimeError::FailedToSendMessage));
}

#[test]
fn question_is_asked_and_its_answer_handed_back() {
    let window = ServoWindowDispatcher {
        id: 2,
        shared: |_message: Message| false,
        platform: PhantomData,
    };
    let size = PhysicalSize { width: 3, height: 4 };
    let answer = window.inner_size(|message| {
        assert!(matches!(window_op(message), (2, WindowOp::InnerSize)));
        Delivery::Answered(Ok(size))
    });
    assert_eq!(answer, Ok(size));
    assert_eq!(window.scale_factor(|_| Delivery::Answered(Ok(1.5))), Ok(1.5));
    assert_eq!(
        window.inner_position(|_| Delivery::Answered(Err(RuntimeError::FailedToGetMonitor))),
        Err(RuntimeError::FailedToGetMonitor)
    );
    assert_eq!(
        window.is_visible(|_| Delivery::NotSent),
        Err(RuntimeError::FailedToSendMessage)
    );
    assert_eq!(
        window.title(|_| Delivery::NotAnswered),
        Err(RuntimeError::FailedToReceiveMessage)
    );
}

#[test]
fn windows_do_not_offer_everything() {
    let mut window = ServoWindowDispatcher {
        id: 2,
        shared: |_message: Message| panic!("nothing to send"),
        platform: PhantomData,
    };
    assert_eq!(window.is_closable(), Err(unsupported("closable state")));
    assert_eq!(window.center(), Err(unsupported("window centering")));
    assert_eq!(window.set_shadow(true), Err(unsupported("window shadow")));
    assert_eq!(window.set_theme(None), Err(unsupported("window theme")));
    assert_eq!(window.window_handle::<u8>(), Err(RuntimeError::HandleUnavailable));
    let created: Result<u8, RuntimeError> = window.create_webview(0);
    assert_eq!(created, Err(RuntimeError::Unsupported("nested webview creation")));
}

#[test]
fn event_ids_are_given_out_in_order() {
    let window = ServoWindowDispatcher {
        id: 2,
        shared: |_message: Message| true,
        platform: PhantomData,
    };
    let mut ids = EventIds::default();
    let first = window.on_window_event(4, ids.take(), |message| {
        assert!(matches!(window_op(message), (2, WindowOp::OnEvent { handler: 4 })));
        Delivery::Answered(Ok(0))
    });
    let second = window.on_window_event(4, ids.take(), |_| Delivery::NotSent);
    assert_eq!(first, 1);
    assert_eq!(second, 2);
    let webview = ServoWebviewDispatcher {
        label: "main".to_string(),
        shared: |_message: Message| true,
        platform: PhantomData,
    };
    let third = webview.on_webview_event(6, ids.take(), |message| {
        let (label, op) = webview_op(message);
        assert_eq!(label, "main");
        assert!(matches!(op, WebviewOp::OnEvent { handler: 6 }));
        Delivery::NotAnswered
    });
    assert_eq!(third, 3);
}

#[test]
fn webview_operations_are_sent_to_the_loop() {
    let sent: RefCell<Vec<Message>> = RefCell::new(Vec::new());
    let webview = ServoWebviewDispatcher {
        label: "main".to_string(),
        shared: |message: Message| {
            sent.borrow_mut().push(message);
            true
        },
        platform: PhantomData,
    };
    let last = || {
        let (label, op) = webview_op(sent.borrow_mut().pop().unwrap());
        assert_eq!(label, "main");
        op
    };
    let url = Url::parse("https://example.org/").unwrap();
    assert_eq!(webview.navigate(url.clone()), Ok(()));
    assert!(matches!(last(), WebviewOp::Navigate(sent) if sent == url));
    assert_eq!(webview.reload(), Ok(()));
    assert!(matches!(last(), WebviewOp::Reload));
    assert_eq!(webview.close(), Ok(()));
    assert!(matches!(last(), WebviewOp::Close));
    assert_eq!(webview.hide_webview(), Ok(()));
    assert!(matches!(last(), WebviewOp::Hide));
    assert_eq!(webview.eval_script("1".to_string()), Ok(()));
    assert!(matches!(last(), WebviewOp::EvalScript { script } if script == "1"));
    assert_eq!(webview.register_ipc_handler("greet".to_string(), 3), Ok(()));
    assert!(matches!(
        last(),
        WebviewOp::RegisterIpc { command, handler: 3 } if command == "greet"
    ));
    assert_eq!(
        webview.url(|message| {
            assert!(matches!(webview_op(message).1, WebviewOp::Url));
            Delivery::Answered(Ok("about:blank".to_string()))
        }),
        Ok("about:blank".to_string())
    );
    assert_eq!(webview.run_on_main_thread(9), Ok(()));
    assert!(matches!(
        sent.borrow_mut().pop(),
        Some(TaoMessage::Runtime(RuntimeMessage::RunMainThread(9)))
    ));
}

#[test]
fn webviews_do_not_offer_everything() {
    let webview = ServoWebviewDispatcher {
        label: "main".to_string(),
        shared: |_message: Message| panic!("nothing to send"),
        platform: PhantomData,
    };
    assert_eq!(webview.print(), Err(unsupported("webview printing")));
    assert_eq!(webview.cookies::<u8>(), Err(unsupported("cookie store")));
    assert_eq!(webview.set_zoom(2.0), Err(unsupported("webview zoom")));
    assert_eq!(webview.set_auto_resize(false), Ok(()));
    assert_eq!(webview.is_devtools_open(), Ok(false));
    webview.open_devtools();
    webview.close_devtools();
}

#[test]
fn reply_is_awaited_only_if_the_script_was_taken() {
    for taken in [true, false] {
        let waits = Cell::new(0);
        let webview = ServoWebviewDispatcher {
            label: "main".to_string(),
            shared: |message: Message| {
                assert!(matches!(
                    webview_op(message).1,
                    WebviewOp::EvalScriptWithCallback { script } if script == "2"
                ));
                taken
            },
            platform: PhantomData,
        };
        let wait = || waits.set(waits.get() + 1);
        let result = webview.eval_script_with_callback("2".to_string(), wait);
        assert_eq!(result.is_ok(), taken);
        assert_eq!(waits.get(), if taken { 1 } else { 0 });
    }
}

#[test]
fn closure_runs_once() {
    let runs = Cell::new(0);
    let mut thunk = Some(|| runs.set(runs.get() + 1));
    assert!(run_once(&mut thunk));
    assert!(!run_once(&mut thunk));
    assert_eq!(runs.get(), 1);
}

#[test]
fn engine_is_built_on_first_use_only() {
    let mut servo: Option<u8> = None;
    let first = *ensure_servo(&mut servo, |config: EngineConfig| {
        assert_eq!(config.scheme, "ipc");
        assert!(config.preferences.dom_indexeddb_enabled);
        assert!(config.preferences.dom_storage_manager_api_enabled);
        1
    });
    let second = *ensure_servo(&mut servo, |_config: EngineConfig| panic!("built twice"));
    assert_eq!((first, second), (1, 1));
}

#[test]
fn view_is_built_in_its_rendering_context() {
    let url = Url::parse("https://example.org/").unwrap();
    let created = create_view(
        12,
        url.clone(),
        || Ok(3),
        |handle: i32| Ok(handle + 1),
        |context: &i32, plan: ViewPlan| {
            assert_eq!(*context, 4);
            assert_eq!(plan.url, url);
            assert_eq!(plan.script, INIT_SCRIPT);
            assert_eq!(plan.window_id, 12);
            "view"
        },
    );
    assert_eq!(created, Ok(("view", 4)));
}

#[test]
fn view_without_a_handle_or_a_context_is_refused() {
    let url = Url::parse("https://example.org/").unwrap();
    let created: Result<(u8, u8), RuntimeError> = create_view(
        12,
        url.clone(),
        || Err::<u8, String>("gone".to_string()),
        |_handle: u8| panic!("no handle"),
        |_context: &u8, _plan: ViewPlan| panic!("no context"),
    );
    assert_eq!(
        created,
        Err(RuntimeError::CreateWebview("no window handle: gone".to_string()))
    );
    let created: Result<(u8, u8), RuntimeError> = create_view(
        12,
        url,
        || Ok(1u8),
        |_handle: u8| Err("Failed".to_string()),
        |_context: &u8, _plan: ViewPlan| panic!("no context"),
    );
    assert_eq!(
        created,
        Err(RuntimeError::CreateWebview("no rendering context: Failed".to_string()))
    );
}

#[test]
fn engine_wakes_the_loop_and_asks_for_redraws() {
    let sent: RefCell<Vec<Message>> = RefCell::new(Vec::new());
    let proxy = |message: Message| {
        sent.borrow_mut().push(message);
        false
    };
    ServoWaker { proxy, platform: PhantomData }.wake();
    assert!(matches!(sent.borrow_mut().pop(), Some(TaoMessage::ServoWake)));
    LegatusDelegate { proxy, window_id: 33, platform: PhantomData }.notify_new_frame_ready();
    assert!(matches!(sent.borrow_mut().pop(), Some(TaoMessage::RequestRedraw(33))));
}
