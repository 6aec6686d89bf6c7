//! What windows are created with.
use crate::error::RuntimeError;
use crate::window::Fullscreen;
use tauri_utils::config::{Color, WindowConfig};
use tauri_utils::{Theme, TitleBarStyle};
use vstd::prelude::*;

verus! {

/// `tauri_utils::Theme`, carried opaquely.
#[verifier::external_type_specification]
#[verifier::external_body]
pub struct ExTheme(tauri_utils::Theme);

/// `tauri_utils::config::Color`, carried opaquely.
#[verifier::external_type_specification]
#[verifier::external_body]
pub struct ExColor(tauri_utils::config::Color);

/// `tauri_utils::TitleBarStyle`, carried opaquely.
#[verifier::external_type_specification]
#[verifier::external_body]
pub struct ExTitleBarStyle(tauri_utils::TitleBarStyle);

/// `tauri_utils::config::WindowConfig`, carried opaquely.
#[verifier::external_type_specification]
#[verifier::external_body]
pub struct ExWindowConfig(tauri_utils::config::WindowConfig);

/// A picture of `width` times `height` pixels, row by row, with a red, a green, a
/// blue and an alpha byte for each pixel.
pub struct Icon {
    pub rgba: Vec<u8>,
    pub width: u32,
    pub height: u32,
}

/// Collects the attributes of a window to be created. Coordinates and sizes are
/// in logical pixels.
#[derive(Debug, Clone)]
pub struct ServoWindowBuilder<F> {
    pub title: String,
    pub position: Option<(F, F)>,
    pub inner_size: Option<(F, F)>,
    pub min_inner_size: Option<(F, F)>,
    pub max_inner_size: Option<(F, F)>,
    pub resizable: bool,
    pub maximizable: bool,
    pub minimizable: bool,
    pub closable: bool,
    pub fullscreen: bool,
    pub focused: bool,
    pub focusable: bool,
    pub maximized: bool,
    pub visible: bool,
    pub transparent: bool,
    pub decorations: bool,
    pub always_on_bottom: bool,
    pub always_on_top: bool,
    pub visible_on_all_workspaces: bool,
    pub content_protected: bool,
    pub skip_taskbar: bool,
    pub background_color: Option<Color>,
    pub shadow: bool,
    pub owner: Option<isize>,
    pub parent: Option<isize>,
    pub drag_and_drop: bool,
    pub theme: Option<Theme>,
    pub window_classname: Option<String>,
    pub icon_rgba: Option<(Vec<u8>, u32, u32)>,
    pub center: bool,
}

/// What a native window is created with.
#[derive(Debug)]
pub struct TaoAttributes<F, I> {
    pub title: String,
    pub resizable: bool,
    pub maximizable: bool,
    pub minimizable: bool,
    pub closable: bool,
    pub fullscreen: Option<Fullscreen>,
    pub focused: bool,
    pub focusable: bool,
    pub maximized: bool,
    pub visible: bool,
    pub transparent: bool,
    pub decorations: bool,
    pub always_on_bottom: bool,
    pub always_on_top: bool,
    pub visible_on_all_workspaces: bool,
    pub content_protection: bool,
    pub position: Option<(F, F)>,
    pub inner_size: Option<(F, F)>,
    pub min_inner_size: Option<(F, F)>,
    pub max_inner_size: Option<(F, F)>,
    pub window_icon: Option<I>,
}

/// What a native window is created with for a builder, where `window_icon` is the
/// native icon made of that of the builder. The attributes that native windows
/// lack are left out.
pub open spec fn tao_attributes<F, I>(
    builder: ServoWindowBuilder<F>,
    window_icon: Option<I>,
) -> TaoAttributes<F, I> {
    TaoAttributes {
        title: builder.title,
        resizable: builder.resizable,
        maximizable: builder.maximizable,
        minimizable: builder.minimizable,
        closable: builder.closable,
        fullscreen: if builder.fullscreen {
            Some(Fullscreen::Borderless)
        } else {
            None
        },
        focused: builder.focused,
        focusable: builder.focusable,
        maximized: builder.maximized,
        visible: builder.visible,
        transparent: builder.transparent,
        decorations: builder.decorations,
        always_on_bottom: builder.always_on_bottom,
        always_on_top: builder.always_on_top,
        visible_on_all_workspaces: builder.visible_on_all_workspaces,
        content_protection: builder.content_protected,
        position: builder.position,
        inner_size: builder.inner_size,
        min_inner_size: builder.min_inner_size,
        max_inner_size: builder.max_inner_size,
        window_icon,
    }
}

impl<F> Default for ServoWindowBuilder<F> {
    /// The attributes that windows have by default.
    fn default() -> (builder: Self)
        ensures
            builder.is_default(),
    {
        ServoWindowBuilder {
            title: "Servo".to_owned(),
            position: None,
            inner_size: None,
            min_inner_size: None,
            max_inner_size: None,
            resizable: true,
            maximizable: true,
            minimizable: true,
            closable: true,
            fullscreen: false,
            focused: true,
            focusable: true,
            maximized: false,
            visible: true,
            transparent: false,
            decorations: true,
            always_on_bottom: false,
            always_on_top: false,
            visible_on_all_workspaces: false,
            content_protected: false,
            skip_taskbar: false,
            background_color: None,
            shadow: true,
            owner: None,
            parent: None,
            drag_and_drop: true,
            theme: None,
            window_classname: None,
            icon_rgba: None,
            center: false,
        }
    }
}

impl<F> ServoWindowBuilder<F> {
    /// Whether this is a visible window that can be changed in every way, with
    /// decorations, a shadow and the focus, and with a size and a place of the
    /// system's choice.
    pub open spec fn is_default(self) -> bool {
        &&& self.title@ == "Servo"@
        &&& self.position is None
        &&& self.inner_size is None
        &&& self.min_inner_size is None
        &&& self.max_inner_size is None
        &&& self.resizable
        &&& self.maximizable
        &&& self.minimizable
        &&& self.closable
        &&& !self.fullscreen
        &&& self.focused
        &&& self.focusable
        &&& !self.maximized
        &&& self.visible
        &&& !self.transparent
        &&& self.decorations
        &&& !self.always_on_bottom
        &&& !self.always_on_top
        &&& !self.visible_on_all_workspaces
        &&& !self.content_protected
        &&& !self.skip_taskbar
        &&& self.background_color is None
        &&& self.shadow
        &&& self.owner is None
        &&& self.parent is None
        &&& self.drag_and_drop
        &&& self.theme is None
        &&& self.window_classname is None
        &&& self.icon_rgba is None
        &&& !self.center
    }

    /// What a native window is created with, and the background color. Where
    /// `make_icon` refuses the picture, the window has no icon.
    pub fn into_tao<I, M: FnOnce(Vec<u8>, u32, u32) -> Option<I>>(self, make_icon: M) -> (created: (
        TaoAttributes<F, I>,
        Option<Color>,
    ))
        requires
            self.icon_rgba matches Some(picture) ==> call_requires(
                make_icon,
                (picture.0, picture.1, picture.2),
            ),
        ensures
            created.0 == tao_attributes(self, created.0.window_icon),
            created.0.title == self.title,
            created.0.resizable == self.resizable,
            created.0.maximizable == self.maximizable,
            created.0.minimizable == self.minimizable,
            created.0.closable == self.closable,
            created.0.focused == self.focused,
            created.0.focusable == self.focusable,
            created.0.maximized == self.maximized,
            created.0.visible == self.visible,
            created.0.transparent == self.transparent,
            created.0.decorations == self.decorations,
            created.0.always_on_bottom == self.always_on_bottom,
            created.0.always_on_top == self.always_on_top,
            created.0.visible_on_all_workspaces == self.visible_on_all_workspaces,
            created.0.position == self.position,
            created.0.inner_size == self.inner_size,
            created.0.min_inner_size == self.min_inner_size,
            created.0.max_inner_size == self.max_inner_size,
            created.0.content_protection == self.content_protected,
            self.fullscreen ==> created.0.fullscreen == Some(Fullscreen::Borderless),
            !self.fullscreen ==> created.0.fullscreen is None,
            match self.icon_rgba {
                Some(picture) => call_ensures(
                    make_icon,
                    (picture.0, picture.1, picture.2),
                    created.0.window_icon,
                ),
                None => created.0.window_icon is None,
            },
            created.1 == self.background_color,
    {
        let window_icon = match self.icon_rgba {
            Some((rgba, width, height)) => make_icon(rgba, width, height),
            None => None,
        };
        let attributes = TaoAttributes {
            title: self.title,
            resizable: self.resizable,
            maximizable: self.maximizable,
            minimizable: self.minimizable,
            closable: self.closable,
            fullscreen: if self.fullscreen {
                Some(Fullscreen::Borderless)
            } else {
                None
            },
            focused: self.focused,
            focusable: self.focusable,
            maximized: self.maximized,
            visible: self.visible,
            transparent: self.transparent,
            decorations: self.decorations,
            always_on_bottom: self.always_on_bottom,
            always_on_top: self.always_on_top,
            visible_on_all_workspaces: self.visible_on_all_workspaces,
            content_protection: self.content_protected,
            position: self.position,
            inner_size: self.inner_size,
            min_inner_size: self.min_inner_size,
            max_inner_size: self.max_inner_size,
            window_icon,
        };
        (attributes, self.background_color)
    }

    /// A builder with the attributes that windows have by default.
    pub fn new() -> (builder: Self)
        ensures
            builder.is_default(),
    {
        Self::default()
    }

    /// A builder for a window of the configuration, which has the attributes that
    /// windows have by default.
    pub fn with_config(_config: &WindowConfig) -> (builder: Self)
        ensures
            builder.is_default(),
    {
        Self::default()
    }

    /// Asks for the window to be centered.
    pub fn center(self) -> (builder: Self)
        ensures
            builder == (Self { center: true, ..self }),
    {
        let mut builder = self;
        builder.center = true;
        builder
    }

    /// Sets where the window is.
    pub fn position(self, x: F, y: F) -> (builder: Self)
        ensures
            builder == (Self { position: Some((x, y)), ..self }),
    {
        let mut builder = self;
        builder.position = Some((x, y));
        builder
    }

    /// Sets how large the content of the window is.
    pub fn inner_size(self, width: F, height: F) -> (builder: Self)
        ensures
            builder == (Self { inner_size: Some((width, height)), ..self }),
    {
        let mut builder = self;
        builder.inner_size = Some((width, height));
        builder
    }

    /// Sets the least size of the content.
    pub fn min_inner_size(self, min_width: F, min_height: F) -> (builder: Self)
        ensures
            builder == (Self { min_inner_size: Some((min_width, min_height)), ..self }),
    {
        let mut builder = self;
        builder.min_inner_size = Some((min_width, min_height));
        builder
    }

    /// Sets the largest size of the content.
    pub fn max_inner_size(self, max_width: F, max_height: F) -> (builder: Self)
        ensures
            builder == (Self { max_inner_size: Some((max_width, max_height)), ..self }),
    {
        let mut builder = self;
        builder.max_inner_size = Some((max_width, max_height));
        builder
    }

    /// Has no effect.
    pub fn inner_size_constraints<C>(self, _constraints: C) -> (builder: Self)
        ensures
            builder == self,
    {
        self
    }

    /// Has no effect.
    pub fn prevent_overflow(self) -> (builder: Self)
        ensures
            builder == self,
    {
        self
    }

    /// Has no effect.
    pub fn prevent_overflow_with_margin<M>(self, _margin: M) -> (builder: Self)
        ensures
            builder == self,
    {
        self
    }

    /// Sets whether the window can be resized.
    pub fn resizable(self, resizable: bool) -> (builder: Self)
        ensures
            builder == (Self { resizable, ..self }),
    {
        let mut builder = self;
        builder.resizable = resizable;
        builder
    }

    /// Sets whether the window can be maximized.
    pub fn maximizable(self, maximizable: bool) -> (builder: Self)
        ensures
            builder == (Self { maximizable, ..self }),
    {
        let mut builder = self;
        builder.maximizable = maximizable;
        builder
    }

    /// Sets whether the window can be minimized.
    pub fn minimizable(self, minimizable: bool) -> (builder: Self)
        ensures
            builder == (Self { minimizable, ..self }),
    {
        let mut builder = self;
        builder.minimizable = minimizable;
        builder
    }

    /// Sets whether the window can be closed.
    pub fn closable(self, closable: bool) -> (builder: Self)
        ensures
            builder == (Self { closable, ..self }),
    {
        let mut builder = self;
        builder.closable = closable;
        builder
    }

    /// Sets the title.
    pub fn title(self, title: String) -> (builder: Self)
        ensures
            builder == (Self { title, ..self }),
    {
        let mut builder = self;
        builder.title = title;
        builder
    }

    /// Sets whether the window fills a screen.
    pub fn fullscreen(self, fullscreen: bool) -> (builder: Self)
        ensures
            builder == (Self { fullscreen, ..self }),
    {
        let mut builder = self;
        builder.fullscreen = fullscreen;
        builder
    }

    /// Sets whether the window has the focus.
    pub fn focused(self, focused: bool) -> (builder: Self)
        ensures
            builder == (Self { focused, ..self }),
    {
        let mut builder = self;
        builder.focused = focused;
        builder
    }

    /// Sets whether the window can have the focus.
    pub fn focusable(self, focusable: bool) -> (builder: Self)
        ensures
            builder == (Self { focusable, ..self }),
    {
        let mut builder = self;
        builder.focusable = focusable;
        builder
    }

    /// Sets whether the window is maximized.
    pub fn maximized(self, maximized: bool) -> (builder: Self)
        ensures
            builder == (Self { maximized, ..self }),
    {
        let mut builder = self;
        builder.maximized = maximized;
        builder
    }

    /// Sets whether the window is visible.
    pub fn visible(self, visible: bool) -> (builder: Self)
        ensures
            builder == (Self { visible, ..self }),
    {
        let mut builder = self;
        builder.visible = visible;
        builder
    }

    /// Sets whether the window is transparent.
    pub fn transparent(self, transparent: bool) -> (builder: Self)
        ensures
            builder == (Self { transparent, ..self }),
    {
        let mut builder = self;
        builder.transparent = transparent;
        builder
    }

    /// Sets whether the window has decorations.
    pub fn decorations(self, decorations: bool) -> (builder: Self)
        ensures
            builder == (Self { decorations, ..self }),
    {
        let mut builder = self;
        builder.decorations = decorations;
        builder
    }

    /// Sets whether the window stays below others.
    pub fn always_on_bottom(self, always_on_bottom: bool) -> (builder: Self)
        ensures
            builder == (Self { always_on_bottom, ..self }),
    {
        let mut builder = self;
        builder.always_on_bottom = always_on_bottom;
        builder
    }

    /// Sets whether the window stays above others.
    pub fn always_on_top(self, always_on_top: bool) -> (builder: Self)
        ensures
            builder == (Self { always_on_top, ..self }),
    {
        let mut builder = self;
        builder.always_on_top = always_on_top;
        builder
    }

    /// Sets whether the window is on all workspaces.
    pub fn visible_on_all_workspaces(self, visible_on_all_workspaces: bool) -> (builder: Self)
        ensures
            builder == (Self { visible_on_all_workspaces, ..self }),
    {
        let mut builder = self;
        builder.visible_on_all_workspaces = visible_on_all_workspaces;
        builder
    }

    /// Sets whether the content is kept from being captured.
    pub fn content_protected(self, protected: bool) -> (builder: Self)
        ensures
            builder == (Self { content_protected: protected, ..self }),
    {
        let mut builder = self;
        builder.content_protected = protected;
        builder
    }

    /// Sets the icon.
    pub fn icon(self, icon: Icon) -> (result: Result<Self, RuntimeError>)
        ensures
            result matches Ok(builder) && builder == (Self {
                icon_rgba: Some((icon.rgba, icon.width, icon.height)),
                ..self
            }),
    {
        let mut builder = self;
        builder.icon_rgba = Some((icon.rgba, icon.width, icon.height));
        Ok(builder)
    }

    /// Sets whether the taskbar leaves the window out.
    pub fn skip_taskbar(self, skip: bool) -> (builder: Self)
        ensures
            builder == (Self { skip_taskbar: skip, ..self }),
    {
        let mut builder = self;
        builder.skip_taskbar = skip;
        builder
    }

    /// Sets the background color.
    pub fn background_color(self, color: Color) -> (builder: Self)
        ensures
            builder == (Self { background_color: Some(color), ..self }),
    {
        let mut builder = self;
        builder.background_color = Some(color);
        builder
    }

    /// Sets whether the window has a shadow.
    pub fn shadow(self, enable: bool) -> (builder: Self)
        ensures
            builder == (Self { shadow: enable, ..self }),
    {
        let mut builder = self;
        builder.shadow = enable;
        builder
    }

    /// Sets the owner window, on Windows.
    pub fn owner(self, owner: isize) -> (builder: Self)
        ensures
            builder == (Self { owner: Some(owner), ..self }),
    {
        let mut builder = self;
        builder.owner = Some(owner);
        builder
    }

    /// Sets the parent window, on Windows.
    pub fn parent(self, parent: isize) -> (builder: Self)
        ensures
            builder == (Self { parent: Some(parent), ..self }),
    {
        let mut builder = self;
        builder.parent = Some(parent);
        builder
    }

    /// Has no effect.
    pub fn transient_for<W>(self, _parent: &W) -> (builder: Self)
        ensures
            builder == self,
    {
        self
    }

    /// Sets whether files can be dropped, on Windows.
    pub fn drag_and_drop(self, enabled: bool) -> (builder: Self)
        ensures
            builder == (Self { drag_and_drop: enabled, ..self }),
    {
        let mut builder = self;
        builder.drag_and_drop = enabled;
        builder
    }

    /// Has no effect.
    pub fn title_bar_style(self, _style: TitleBarStyle) -> (builder: Self)
        ensures
            builder == self,
    {
        self
    }

    /// Has no effect.
    pub fn traffic_light_position<T>(self, _position: T) -> (builder: Self)
        ensures
            builder == self,
    {
        self
    }

    /// Has no effect.
    pub fn hidden_title(self, _hidden: bool) -> (builder: Self)
        ensures
            builder == self,
    {
        self
    }

    /// Has no effect.
    pub fn tabbing_identifier(self, _identifier: &str) -> (builder: Self)
        ensures
            builder == self,
    {
        self
    }

    /// Sets the theme, or none.
    pub fn theme(self, theme: Option<Theme>) -> (builder: Self)
        ensures
            builder == (Self { theme, ..self }),
    {
        let mut builder = self;
        builder.theme = theme;
        builder
    }

    /// Whether an icon is set.
    pub fn has_icon(&self) -> (set: bool)
        ensures
            set == (self.icon_rgba is Some),
    {
        self.icon_rgba.is_some()
    }

    /// The theme, if one is set.
    pub fn get_theme(&self) -> (theme: Option<Theme>)
        ensures
            theme == self.theme,
    {
        self.theme
    }

    /// Sets the name of the window class.
    pub fn window_classname(self, window_classname: String) -> (builder: Self)
        ensures
            builder == (Self { window_classname: Some(window_classname), ..self }),
    {
        let mut builder = self;
        builder.window_classname = Some(window_classname);
        builder
    }
}

/// The attributes that native windows lack change nothing about what the native
/// window is created with, nor does the background color, which is handed out
/// beside it.
pub proof fn law_lacking_attributes_change_nothing<F, I>(
    builder: ServoWindowBuilder<F>,
    other: ServoWindowBuilder<F>,
    window_icon: Option<I>,
)
    requires
        builder == (ServoWindowBuilder {
            center: builder.center,
            skip_taskbar: builder.skip_taskbar,
            shadow: builder.shadow,
            owner: builder.owner,
            parent: builder.parent,
            drag_and_drop: builder.drag_and_drop,
            theme: builder.theme,
            window_classname: builder.window_classname,
            background_color: builder.background_color,
            ..other
        }),
    ensures
        tao_attributes(builder, window_icon) == tao_attributes(other, window_icon),
{
}

/// Every attribute that native windows have is the one of the builder, and the icon
/// is the one that was made.
pub proof fn law_attributes_reach_the_window<F, I>(
    builder: ServoWindowBuilder<F>,
    window_icon: Option<I>,
)
    ensures
        tao_attributes(builder, window_icon).title == builder.title,
        tao_attributes(builder, window_icon).resizable == builder.resizable,
        tao_attributes(builder, window_icon).maximizable == builder.maximizable,
        tao_attributes(builder, window_icon).minimizable == builder.minimizable,
        tao_attributes(builder, window_icon).closable == builder.closable,
        tao_attributes(builder, window_icon).focused == builder.focused,
        tao_attributes(builder, window_icon).focusable == builder.focusable,
        tao_attributes(builder, window_icon).maximized == builder.maximized,
        tao_attributes(builder, window_icon).visible == builder.visible,
        tao_attributes(builder, window_icon).transparent == builder.transparent,
        tao_attributes(builder, window_icon).decorations == builder.decorations,
        tao_attributes(builder, window_icon).always_on_bottom == builder.always_on_bottom,
        tao_attributes(builder, window_icon).always_on_top == builder.always_on_top,
        tao_attributes(builder, window_icon).visible_on_all_workspaces
            == builder.visible_on_all_workspaces,
        tao_attributes(builder, window_icon).position == builder.position,
        tao_attributes(builder, window_icon).inner_size == builder.inner_size,
        tao_attributes(builder, window_icon).min_inner_size == builder.min_inner_size,
        tao_attributes(builder, window_icon).max_inner_size == builder.max_inner_size,
        tao_attributes(builder, window_icon).content_protection == builder.content_protected,
        builder.fullscreen ==> tao_attributes(builder, window_icon).fullscreen
            == Some(Fullscreen::Borderless),
        !builder.fullscreen ==> tao_attributes(builder, window_icon).fullscreen is None,
        tao_attributes(builder, window_icon).window_icon == window_icon,
{
}

/// Setting what can be done with a window changes that attribute of the native
/// window and leaves the others.
pub proof fn law_abilities_are_independent<F, I>(
    builder: ServoWindowBuilder<F>,
    window_icon: Option<I>,
    flag: bool,
)
    ensures
        ({
            let before = tao_attributes(builder, window_icon);
            &&& tao_attributes(
                ServoWindowBuilder { resizable: flag, ..builder },
                window_icon,
            ) == (TaoAttributes { resizable: flag, ..before })
            &&& tao_attributes(
                ServoWindowBuilder { maximizable: flag, ..builder },
                window_icon,
            ) == (TaoAttributes { maximizable: flag, ..before })
            &&& tao_attributes(
                ServoWindowBuilder { minimizable: flag, ..builder },
                window_icon,
            ) == (TaoAttributes { minimizable: flag, ..before })
            &&& tao_attributes(
                ServoWindowBuilder { closable: flag, ..builder },
                window_icon,
            ) == (TaoAttributes { closable: flag, ..before })
            &&& tao_attributes(
                ServoWindowBuilder { focused: flag, ..builder },
                window_icon,
            ) == (TaoAttributes { focused: flag, ..before })
            &&& tao_attributes(
                ServoWindowBuilder { focusable: flag, ..builder },
                window_icon,
            ) == (TaoAttributes { focusable: flag, ..before })
            &&& tao_attributes(
                ServoWindowBuilder { maximized: flag, ..builder },
                window_icon,
            ) == (TaoAttributes { maximized: flag, ..before })
        }),
{
}

/// Setting how a window looks changes that attribute of the native window and
/// leaves the others.
pub proof fn law_looks_are_independent<F, I>(
    builder: ServoWindowBuilder<F>,
    window_icon: Option<I>,
    flag: bool,
)
    ensures
        ({
            let before = tao_attributes(builder, window_icon);
            &&& tao_attributes(
                ServoWindowBuilder { visible: flag, ..builder },
                window_icon,
            ) == (TaoAttributes { visible: flag, ..before })
            &&& tao_attributes(
                ServoWindowBuilder { transparent: flag, ..builder },
                window_icon,
            ) == (TaoAttributes { transparent: flag, ..before })
            &&& tao_attributes(
                ServoWindowBuilder { decorations: flag, ..builder },
                window_icon,
            ) == (TaoAttributes { decorations: flag, ..before })
            &&& tao_attributes(
                ServoWindowBuilder { always_on_bottom: flag, ..builder },
                window_icon,
            ) == (TaoAttributes { always_on_bottom: flag, ..before })
            &&& tao_attributes(
                ServoWindowBuilder { always_on_top: flag, ..builder },
                window_icon,
            ) == (TaoAttributes { always_on_top: flag, ..before })
            &&& tao_attributes(
                ServoWindowBuilder { visible_on_all_workspaces: flag, ..builder },
                window_icon,
            ) == (TaoAttributes { visible_on_all_workspaces: flag, ..before })
            &&& tao_attributes(
                ServoWindowBuilder { content_protected: flag, ..builder },
                window_icon,
            ) == (TaoAttributes { content_protection: flag, ..before })
            &&& tao_attributes(
                ServoWindowBuilder { fullscreen: true, ..builder },
                window_icon,
            ) == (TaoAttributes { fullscreen: Some(Fullscreen::Borderless), ..before })
            &&& tao_attributes(
                ServoWindowBuilder { fullscreen: false, ..builder },
                window_icon,
            ) == (TaoAttributes { fullscreen: None, ..before })
        }),
{
}

/// A builder that was not told otherwise stands for a window with the title
/// "Servo" that is visible, decorated, focused and can be changed in every way, and
/// that has no place, size, color, theme, class or icon of its own.
pub proof fn law_default_window<F>(builder: ServoWindowBuilder<F>)
    requires
        builder.is_default(),
    ensures
        builder.title@ == "Servo"@,
        builder.position is None,
        builder.inner_size is None,
        builder.min_inner_size is None,
        builder.max_inner_size is None,
        builder.resizable,
        builder.maximizable,
        builder.minimizable,
        builder.closable,
        !builder.fullscreen,
        builder.focused,
        builder.focusable,
        !builder.maximized,
        builder.visible,
        !builder.transparent,
        builder.decorations,
        !builder.always_on_bottom,
        !builder.always_on_top,
        !builder.visible_on_all_workspaces,
        !builder.content_protected,
        !builder.skip_taskbar,
        builder.background_color is None,
        builder.shadow,
        builder.owner is None,
        builder.parent is None,
        builder.drag_and_drop,
        builder.theme is None,
        builder.window_classname is None,
        builder.icon_rgba is None,
        !builder.center,
{
}

} // verus!
