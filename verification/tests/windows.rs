use std::collections::HashMap;
use tauri_runtime_servo::cursor::{tao_cursor_icon, CursorIcon, TaoCursorIcon};
use tauri_runtime_servo::error::RuntimeError;
use tauri_runtime_servo::geometry::{
    monitor_reply, position_reply, tao_monitor, MonitorReading, PhysicalPosition, PhysicalRect,
    PhysicalSize, Size,
};
use tauri_runtime_servo::platform::Platform;
use tauri_runtime_servo::webview::{
    apply as apply_to_webview, url_reply, WebviewAction, WebviewEntry, WebviewOp, Webviews,
};
use tauri_runtime_servo::window::{
    apply as apply_to_window, icon_made, Fullscreen, WindowAction, WindowCall, WindowFeature,
    WindowOp, WindowQuery, Windows,
};
use url::Url;

struct Desk;

impl Platform for Desk {
    type Scalar = f64;
    type Window = &'static str;
    type View = &'static str;
    type WindowHandler = u8;
    type WebviewHandler = u8;
    type Thunk = u8;
    type CommandHandler = u8;
    type Registry = ();
}

fn two_windows() -> Windows<Desk> {
    let mut windows: Windows<Desk> = Windows::default();
    assert_eq!(windows.insert("main".to_string(), "native main", 70), 0);
    assert_eq!(windows.insert("side".to_string(), "native side", 71), 1);
    windows
}

fn view(label: &str, window_id: u32) -> WebviewEntry<Desk> {
    WebviewEntry {
        label: label.to_string(),
        window_id,
        view: "view",
        handlers: HashMap::new(),
        next_handler_id: 0,
        ipc: (),
    }
}

#[test]
fn inserted_window_is_found_by_both_ids() {
    let windows = two_windows();
    let main = windows.get(0).unwrap();
    assert_eq!(main.label, "main");
    assert_eq!(main.window, "native main");
    assert!(main.handlers.is_empty());
    assert_eq!(main.next_handler_id, 0);
    let (id, side) = windows.lookup_tao(71).unwrap();
    assert_eq!(id, 1);
    assert_eq!(side.label, "side");
    assert!(windows.get(2).is_none());
    assert!(windows.lookup_tao(72).is_none());
}

#[test]
fn removed_window_is_forgotten_and_its_id_not_reused() {
    let mut windows = two_windows();
    assert_eq!(windows.remove(0).unwrap().label, "main");
    assert!(windows.get(0).is_none());
    assert!(windows.lookup_tao(70).is_none());
    assert!(windows.remove(0).is_none());
    assert_eq!(windows.lookup_tao(71).unwrap().0, 1);
    assert_eq!(windows.insert("next".to_string(), "native next", 70), 2);
    assert_eq!(windows.lookup_tao(70).unwrap().0, 2);
}

#[test]
fn native_window_taken_in_again_leads_to_the_later_window() {
    let mut windows = two_windows();
    assert_eq!(windows.insert("again".to_string(), "native main", 70), 2);
    assert_eq!(windows.lookup_tao(70).unwrap().0, 2);
    assert!(windows.remove(0).is_some());
    assert_eq!(windows.lookup_tao(70).unwrap().0, 2);
}

#[test]
fn windows_are_listed_once_each() {
    let windows = two_windows();
    let mut rows: Vec<(u32, String)> =
        windows.iter().into_iter().map(|(id, entry)| (id, entry.label.clone())).collect();
    rows.sort();
    assert_eq!(rows, vec![(0, "main".to_string()), (1, "side".to_string())]);
}

#[test]
fn window_is_changed_in_place() {
    let mut windows = two_windows();
    windows.get_mut(1).unwrap().label = "renamed".to_string();
    assert_eq!(windows.get(1).unwrap().label, "renamed");
    assert_eq!(windows.get(0).unwrap().label, "main");
    assert!(windows.get_mut(5).is_none());
}

#[test]
fn window_handlers_get_ids_in_order() {
    let mut windows = two_windows();
    let first = apply_to_window(&mut windows, 0, WindowOp::OnEvent { handler: 10 });
    let second = apply_to_window(&mut windows, 0, WindowOp::OnEvent { handler: 11 });
    assert!(matches!(first, WindowAction::Registered(0)));
    assert!(matches!(second, WindowAction::Registered(1)));
    let main = windows.get(0).unwrap();
    assert_eq!(main.handlers.get(&0), Some(&10));
    assert_eq!(main.handlers.get(&1), Some(&11));
    assert_eq!(main.next_handler_id, 2);
    assert!(windows.get(1).unwrap().handlers.is_empty());
}

#[test]
fn operation_on_an_unknown_window_does_nothing() {
    let mut windows = two_windows();
    let action = apply_to_window(&mut windows, 9, WindowOp::OnEvent { handler: 10 });
    assert!(matches!(action, WindowAction::UnknownWindow));
    let action = apply_to_window(&mut windows, 9, WindowOp::SetFocus);
    assert!(matches!(action, WindowAction::UnknownWindow));
    assert_eq!(windows.iter().len(), 2);
}

#[test]
fn window_operations_lead_to_native_calls() {
    let mut windows = two_windows();
    let mut on = |op: WindowOp<Desk>| apply_to_window(&mut windows, 0, op);
    assert!(matches!(on(WindowOp::Title), WindowAction::Query(WindowQuery::Title)));
    assert!(matches!(
        on(WindowOp::IsFullscreen),
        WindowAction::Query(WindowQuery::Fullscreen)
    ));
    assert!(matches!(
        on(WindowOp::PrimaryMonitor),
        WindowAction::Query(WindowQuery::CurrentMonitor)
    ));
    assert!(matches!(
        on(WindowOp::SetFullscreen(true)),
        WindowAction::Call(WindowCall::SetFullscreen(Some(Fullscreen::Borderless)))
    ));
    assert!(matches!(
        on(WindowOp::SetFullscreen(false)),
        WindowAction::Call(WindowCall::SetFullscreen(None))
    ));
    assert!(matches!(
        on(WindowOp::SetFullscreenFallback),
        WindowAction::Call(WindowCall::SetFullscreen(Some(Fullscreen::Borderless)))
    ));
    assert!(matches!(
        on(WindowOp::SetSize(Size::Logical { width: 4.5, height: 2.0 })),
        WindowAction::Call(WindowCall::SetInnerSize(Size::Logical { width, height }))
            if width == 4.5 && height == 2.0
    ));
    assert!(matches!(
        on(WindowOp::SetMinSize(None)),
        WindowAction::Call(WindowCall::SetMinInnerSize(None))
    ));
    assert!(matches!(
        on(WindowOp::SetIcon { rgba: vec![1, 2, 3, 4], width: 1, height: 1 }),
        WindowAction::Call(WindowCall::SetWindowIcon { rgba, width: 1, height: 1 })
            if rgba == vec![1, 2, 3, 4]
    ));
    assert!(matches!(
        on(WindowOp::SetCursorIcon(CursorIcon::Hand)),
        WindowAction::Call(WindowCall::SetCursorIcon(TaoCursorIcon::Hand))
    ));
    assert!(matches!(
        on(WindowOp::SetCursorGrab(true)),
        WindowAction::Call(WindowCall::SetCursorGrab(true))
    ));
    assert!(matches!(on(WindowOp::Run(3)), WindowAction::Run(3)));
    assert!(matches!(on(WindowOp::Close), WindowAction::CloseRequested));
}

#[test]
fn refused_picture_leaves_the_icon() {
    assert_eq!(icon_made(Some("icon")), Some(Some("icon")));
    assert_eq!(icon_made::<u8>(None), None);
}

#[test]
fn what_native_windows_lack_is_left_out() {
    let mut windows = two_windows();
    let mut on = |op: WindowOp<Desk>| apply_to_window(&mut windows, 0, op);
    assert!(matches!(
        on(WindowOp::SetSkipTaskbar(true)),
        WindowAction::Unavailable(WindowFeature::SkipTaskbar)
    ));
    assert!(matches!(
        on(WindowOp::SetContentProtected(true)),
        WindowAction::Unavailable(WindowFeature::ContentProtection)
    ));
    assert!(matches!(
        on(WindowOp::SetEnabled(false)),
        WindowAction::Unavailable(WindowFeature::EnabledFlag)
    ));
}

#[test]
fn cursor_icons_have_native_ones() {
    assert_eq!(tao_cursor_icon(CursorIcon::Default), TaoCursorIcon::Default);
    assert_eq!(tao_cursor_icon(CursorIcon::ZoomOut), TaoCursorIcon::ZoomOut);
    assert_eq!(tao_cursor_icon(CursorIcon::Other), TaoCursorIcon::Default);
    assert_ne!(tao_cursor_icon(CursorIcon::Grab), tao_cursor_icon(CursorIcon::Grabbing));
}

#[test]
fn work_area_of_a_monitor_is_the_whole_monitor() {
    let reading = || MonitorReading::<Desk> {
        name: Some("left".to_string()),
        size: PhysicalSize { width: 1920, height: 1080 },
        position: PhysicalPosition { x: -1920, y: 0 },
        scale_factor: 1.25,
    };
    let monitor = tao_monitor(reading());
    assert_eq!(monitor.name, Some("left".to_string()));
    assert_eq!(
        monitor.work_area,
        PhysicalRect {
            position: PhysicalPosition { x: -1920, y: 0 },
            size: PhysicalSize { width: 1920, height: 1080 },
        }
    );
    assert_eq!(monitor.scale_factor, 1.25);
    let reply = monitor_reply(Some(reading()));
    assert_eq!(reply.unwrap().unwrap().size, PhysicalSize { width: 1920, height: 1080 });
    assert!(monitor_reply::<Desk>(None).unwrap().is_none());
}

#[test]
fn unknown_position_is_an_error() {
    let position = PhysicalPosition { x: 3, y: -4 };
    assert_eq!(position_reply(Some(position)), Ok(position));
    assert_eq!(position_reply(None), Err(RuntimeError::FailedToGetMonitor));
}

#[test]
fn webviews_are_found_by_label() {
    let mut views: Webviews<Desk> = Webviews::default();
    views.insert(view("main-view", 0));
    views.insert(view("side-view", 1));
    assert_eq!(views.get("side-view").unwrap().window_id, 1);
    assert!(views.get("nope").is_none());
    views.get_mut("side-view").unwrap().window_id = 4;
    assert_eq!(views.get("side-view").unwrap().window_id, 4);
    assert_eq!(views.get("main-view").unwrap().window_id, 0);
    views.insert(view("main-view", 9));
    assert_eq!(views.get("main-view").unwrap().window_id, 9);
    assert_eq!(views.remove("main-view").unwrap().window_id, 9);
    assert!(views.get("main-view").is_none());
    assert!(views.remove("main-view").is_none());
    assert!(views.get_mut("main-view").is_none());
}

#[test]
fn webviews_of_a_window_are_listed_once_each() {
    let mut views: Webviews<Desk> = Webviews::default();
    views.insert(view("a", 1));
    views.insert(view("b", 2));
    views.insert(view("c", 1));
    let mut labels: Vec<String> =
        views.iter_for_window(1).into_iter().map(|(label, _)| label).collect();
    labels.sort();
    assert_eq!(labels, vec!["a".to_string(), "c".to_string()]);
    assert!(views.iter_for_window(3).is_empty());
}

#[test]
fn webview_handlers_get_ids_in_order() {
    let mut views: Webviews<Desk> = Webviews::default();
    views.insert(view("a", 1));
    views.insert(view("b", 1));
    let first = apply_to_webview(&mut views, "a", WebviewOp::OnEvent { handler: 5 });
    let second = apply_to_webview(&mut views, "a", WebviewOp::OnEvent { handler: 6 });
    assert!(matches!(first, WebviewAction::Registered(0)));
    assert!(matches!(second, WebviewAction::Registered(1)));
    assert_eq!(views.get("a").unwrap().handlers.get(&1), Some(&6));
    assert_eq!(views.get("a").unwrap().handlers.get(&0), Some(&5));
    assert_eq!(views.get("b").unwrap().next_handler_id, 0);
}

#[test]
fn webview_operations_lead_to_engine_calls() {
    let mut views: Webviews<Desk> = Webviews::default();
    views.insert(view("a", 1));
    let url = Url::parse("https://example.org/x").unwrap();
    let mut on = |op: WebviewOp<Desk>| apply_to_webview(&mut views, "a", op);
    assert!(matches!(on(WebviewOp::Url), WebviewAction::ReadUrl));
    assert!(matches!(
        on(WebviewOp::Navigate(url.clone())),
        WebviewAction::Load(loaded) if loaded == url
    ));
    assert!(matches!(on(WebviewOp::Reload), WebviewAction::Reload));
    assert!(matches!(on(WebviewOp::GoBack), WebviewAction::GoBack(1)));
    assert!(matches!(on(WebviewOp::GoForward), WebviewAction::ForwardUnavailable));
    assert!(matches!(
        on(WebviewOp::EvalScript { script: "1".to_string() }),
        WebviewAction::Evaluate(script) if script == "1"
    ));
    assert!(matches!(
        on(WebviewOp::EvalScriptWithCallback { script: "2".to_string() }),
        WebviewAction::EvaluateForReply(script) if script == "2"
    ));
    assert!(matches!(
        on(WebviewOp::RegisterIpc { command: "greet".to_string(), handler: 8 }),
        WebviewAction::RegisterIpc { command, handler: 8 } if command == "greet"
    ));
    assert!(matches!(on(WebviewOp::Close), WebviewAction::SingleView));
    assert!(matches!(on(WebviewOp::Hide), WebviewAction::SingleView));
    assert!(matches!(on(WebviewOp::Show), WebviewAction::SingleView));
    assert!(matches!(on(WebviewOp::SetFocus), WebviewAction::SingleView));
}

#[test]
fn operation_on_an_unknown_webview_does_nothing() {
    let mut views: Webviews<Desk> = Webviews::default();
    views.insert(view("a", 1));
    let action = apply_to_webview(&mut views, "b", WebviewOp::OnEvent { handler: 5 });
    assert!(matches!(action, WebviewAction::UnknownWebview));
    assert!(views.get("b").is_none());
    assert!(views.get("a").unwrap().handlers.is_empty());
}

#[test]
fn address_of_a_view_may_be_empty() {
    let url = Url::parse("https://example.org").unwrap();
    assert_eq!(url_reply(Some(&url)), Ok("https://example.org/".to_string()));
    assert_eq!(url_reply(None), Ok(String::new()));
}
