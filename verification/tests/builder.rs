use tauri_runtime_servo::builder::{Icon, ServoWindowBuilder};
use tauri_runtime_servo::window::Fullscreen;
use tauri_utils::config::{Color, WindowConfig};
use tauri_utils::Theme;

fn no_icon(_rgba: Vec<u8>, _width: u32, _height: u32) -> Option<u8> {
    panic!("no icon to make")
}

#[test]
fn default_window() {
    let (attributes, color) = ServoWindowBuilder::<f64>::new().into_tao(no_icon);
    assert_eq!(attributes.title, "Servo");
    assert!(attributes.resizable && attributes.maximizable && attributes.minimizable);
    assert!(attributes.closable && attributes.focused && attributes.focusable);
    assert!(attributes.visible && attributes.decorations);
    assert!(!attributes.maximized && !attributes.transparent && !attributes.content_protection);
    assert!(!attributes.always_on_bottom && !attributes.always_on_top);
    assert!(!attributes.visible_on_all_workspaces);
    assert_eq!(attributes.fullscreen, None);
    assert_eq!(attributes.position, None);
    assert_eq!(attributes.inner_size, None);
    assert_eq!(attributes.min_inner_size, None);
    assert_eq!(attributes.max_inner_size, None);
    assert_eq!(attributes.window_icon, None);
    assert!(color.is_none());
}

#[test]
fn configured_window_is_a_default_window() {
    let config = WindowConfig { title: "configured".to_string(), ..Default::default() };
    let builder = ServoWindowBuilder::<f64>::with_config(&config);
    assert_eq!(builder.title, "Servo");
    assert!(builder.shadow && builder.drag_and_drop && !builder.skip_taskbar && !builder.center);
}

#[test]
fn attributes_reach_the_native_window() {
    let builder = ServoWindowBuilder::new()
        .title("hello".to_string())
        .position(1.5, -2.0)
        .inner_size(800.0, 600.0)
        .min_inner_size(80.0, 60.0)
        .max_inner_size(8000.0, 6000.0)
        .resizable(false)
        .maximizable(false)
        .minimizable(false)
        .closable(false)
        .fullscreen(true)
        .focused(false)
        .focusable(false)
        .maximized(true)
        .visible(false)
        .transparent(true)
        .decorations(false)
        .always_on_bottom(true)
        .always_on_top(true)
        .visible_on_all_workspaces(true)
        .content_protected(true)
        .background_color(Color(1, 2, 3, 4));
    let (attributes, color) = builder.into_tao(no_icon);
    assert_eq!(attributes.title, "hello");
    assert_eq!(attributes.position, Some((1.5, -2.0)));
    assert_eq!(attributes.inner_size, Some((800.0, 600.0)));
    assert_eq!(attributes.min_inner_size, Some((80.0, 60.0)));
    assert_eq!(attributes.max_inner_size, Some((8000.0, 6000.0)));
    assert!(!attributes.resizable && !attributes.maximizable && !attributes.minimizable);
    assert!(!attributes.closable && !attributes.focused && !attributes.focusable);
    assert!(!attributes.visible && !attributes.decorations);
    assert!(attributes.maximized && attributes.transparent && attributes.content_protection);
    assert!(attributes.always_on_bottom && attributes.always_on_top);
    assert!(attributes.visible_on_all_workspaces);
    assert_eq!(attributes.fullscreen, Some(Fullscreen::Borderless));
    assert_eq!(color, Some(Color(1, 2, 3, 4)));
}

#[test]
fn icon_is_made_of_the_picture() {
    let icon = || Icon { rgba: vec![1, 2, 3, 4], width: 1, height: 1 };
    let builder = ServoWindowBuilder::<f64>::new().icon(icon()).unwrap();
    assert!(builder.has_icon());
    let (attributes, _) = builder.into_tao(|rgba, width, height| Some((rgba, width, height)));
    assert_eq!(attributes.window_icon, Some((vec![1, 2, 3, 4], 1, 1)));
    let builder = ServoWindowBuilder::<f64>::new().icon(icon()).unwrap();
    let (attributes, _) = builder.into_tao(|_, _, _| None::<u8>);
    assert_eq!(attributes.window_icon, None);
    assert!(!ServoWindowBuilder::<f64>::new().has_icon());
}

#[test]
fn attributes_that_native_windows_lack_change_nothing() {
    let builder = ServoWindowBuilder::<f64>::new()
        .center()
        .skip_taskbar(true)
        .shadow(false)
        .owner(5)
        .parent(6)
        .drag_and_drop(false)
        .theme(Some(Theme::Dark))
        .window_classname("class".to_string())
        .inner_size_constraints(0)
        .prevent_overflow()
        .prevent_overflow_with_margin(0)
        .hidden_title(true)
        .tabbing_identifier("tab");
    assert_eq!(builder.get_theme(), Some(Theme::Dark));
    assert!(builder.center && builder.skip_taskbar && !builder.shadow && !builder.drag_and_drop);
    assert_eq!((builder.owner, builder.parent), (Some(5), Some(6)));
    assert_eq!(builder.window_classname, Some("class".to_string()));
    let told = format!("{:?}", builder.into_tao(no_icon).0);
    let untold = format!("{:?}", ServoWindowBuilder::<f64>::new().into_tao(no_icon).0);
    assert_eq!(told, untold);
}
