//! Cursor icons.
use vstd::prelude::*;

verus! {

/// The cursor icons that the application can ask for.
#[derive(Debug, Clone, Copy, PartialEq, Eq, Structural)]
pub enum CursorIcon {
    Default,
    Crosshair,
    Hand,
    Arrow,
    Move,
    Text,
    Wait,
    Help,
    Progress,
    NotAllowed,
    ContextMenu,
    Cell,
    VerticalText,
    Alias,
    Copy,
    NoDrop,
    Grab,
    Grabbing,
    AllScroll,
    ZoomIn,
    ZoomOut,
    EResize,
    NResize,
    NeResize,
    NwResize,
    SResize,
    SeResize,
    SwResize,
    WResize,
    EwResize,
    NsResize,
    NeswResize,
    NwseResize,
    ColResize,
    RowResize,
    /// An icon that the runtime does not know.
    Other,
}

/// The cursor icons of the windowing system.
#[derive(Debug, Clone, Copy, PartialEq, Eq, Structural)]
pub enum TaoCursorIcon {
    Default,
    Crosshair,
    Hand,
    Arrow,
    Move,
    Text,
    Wait,
    Help,
    Progress,
    NotAllowed,
    ContextMenu,
    Cell,
    VerticalText,
    Alias,
    Copy,
    NoDrop,
    Grab,
    Grabbing,
    AllScroll,
    ZoomIn,
    ZoomOut,
    EResize,
    NResize,
    NeResize,
    NwResize,
    SResize,
    SeResize,
    SwResize,
    WResize,
    EwResize,
    NsResize,
    NeswResize,
    NwseResize,
    ColResize,
    RowResize,
}

/// The icon of the windowing system that bears the same name; the default one
/// for an icon that the runtime does not know.
pub open spec fn tao_icon(icon: CursorIcon) -> TaoCursorIcon {
    match icon {
        CursorIcon::Default => TaoCursorIcon::Default,
        CursorIcon::Crosshair => TaoCursorIcon::Crosshair,
        CursorIcon::Hand => TaoCursorIcon::Hand,
        CursorIcon::Arrow => TaoCursorIcon::Arrow,
        CursorIcon::Move => TaoCursorIcon::Move,
        CursorIcon::Text => TaoCursorIcon::Text,
        CursorIcon::Wait => TaoCursorIcon::Wait,
        CursorIcon::Help => TaoCursorIcon::Help,
        CursorIcon::Progress => TaoCursorIcon::Progress,
        CursorIcon::NotAllowed => TaoCursorIcon::NotAllowed,
        CursorIcon::ContextMenu => TaoCursorIcon::ContextMenu,
        CursorIcon::Cell => TaoCursorIcon::Cell,
        CursorIcon::VerticalText => TaoCursorIcon::VerticalText,
        CursorIcon::Alias => TaoCursorIcon::Alias,
        CursorIcon::Copy => TaoCursorIcon::Copy,
        CursorIcon::NoDrop => TaoCursorIcon::NoDrop,
        CursorIcon::Grab => TaoCursorIcon::Grab,
        CursorIcon::Grabbing => TaoCursorIcon::Grabbing,
        CursorIcon::AllScroll => TaoCursorIcon::AllScroll,
        CursorIcon::ZoomIn => TaoCursorIcon::ZoomIn,
        CursorIcon::ZoomOut => TaoCursorIcon::ZoomOut,
        CursorIcon::EResize => TaoCursorIcon::EResize,
        CursorIcon::NResize => TaoCursorIcon::NResize,
        CursorIcon::NeResize => TaoCursorIcon::NeResize,
        CursorIcon::NwResize => TaoCursorIcon::NwResize,
        CursorIcon::SResize => TaoCursorIcon::SResize,
        CursorIcon::SeResize => TaoCursorIcon::SeResize,
        CursorIcon::SwResize => TaoCursorIcon::SwResize,
        CursorIcon::WResize => TaoCursorIcon::WResize,
        CursorIcon::EwResize => TaoCursorIcon::EwResize,
        CursorIcon::NsResize => TaoCursorIcon::NsResize,
        CursorIcon::NeswResize => TaoCursorIcon::NeswResize,
        CursorIcon::NwseResize => TaoCursorIcon::NwseResize,
        CursorIcon::ColResize => TaoCursorIcon::ColResize,
        CursorIcon::RowResize => TaoCursorIcon::RowResize,
        CursorIcon::Other => TaoCursorIcon::Default,
    }
}

/// The icon of the windowing system for an icon of the application.
pub fn tao_cursor_icon(icon: CursorIcon) -> (tao: TaoCursorIcon)
    ensures
        tao == tao_icon(icon),
{
    match icon {
        CursorIcon::Default => TaoCursorIcon::Default,
        CursorIcon::Crosshair => TaoCursorIcon::Crosshair,
        CursorIcon::Hand => TaoCursorIcon::Hand,
        CursorIcon::Arrow => TaoCursorIcon::Arrow,
        CursorIcon::Move => TaoCursorIcon::Move,
        CursorIcon::Text => TaoCursorIcon::Text,
        CursorIcon::Wait => TaoCursorIcon::Wait,
        CursorIcon::Help => TaoCursorIcon::Help,
        CursorIcon::Progress => TaoCursorIcon::Progress,
        CursorIcon::NotAllowed => TaoCursorIcon::NotAllowed,
        CursorIcon::ContextMenu => TaoCursorIcon::ContextMenu,
        CursorIcon::Cell => TaoCursorIcon::Cell,
        CursorIcon::VerticalText => TaoCursorIcon::VerticalText,
        CursorIcon::Alias => TaoCursorIcon::Alias,
        CursorIcon::Copy => TaoCursorIcon::Copy,
        CursorIcon::NoDrop => TaoCursorIcon::NoDrop,
        CursorIcon::Grab => TaoCursorIcon::Grab,
        CursorIcon::Grabbing => TaoCursorIcon::Grabbing,
        CursorIcon::AllScroll => TaoCursorIcon::AllScroll,
        CursorIcon::ZoomIn => TaoCursorIcon::ZoomIn,
        CursorIcon::ZoomOut => TaoCursorIcon::ZoomOut,
        CursorIcon::EResize => TaoCursorIcon::EResize,
        CursorIcon::NResize => TaoCursorIcon::NResize,
        CursorIcon::NeResize => TaoCursorIcon::NeResize,
        CursorIcon::NwResize => TaoCursorIcon::NwResize,
        CursorIcon::SResize => TaoCursorIcon::SResize,
        CursorIcon::SeResize => TaoCursorIcon::SeResize,
        CursorIcon::SwResize => TaoCursorIcon::SwResize,
        CursorIcon::WResize => TaoCursorIcon::WResize,
        CursorIcon::EwResize => TaoCursorIcon::EwResize,
        CursorIcon::NsResize => TaoCursorIcon::NsResize,
        CursorIcon::NeswResize => TaoCursorIcon::NeswResize,
        CursorIcon::NwseResize => TaoCursorIcon::NwseResize,
        CursorIcon::ColResize => TaoCursorIcon::ColResize,
        CursorIcon::RowResize => TaoCursorIcon::RowResize,
        CursorIcon::Other => TaoCursorIcon::Default,
    }
}

/// No two icons that the runtime knows become the same icon of the windowing
/// system.
pub proof fn law_known_icons_stay_apart(left: CursorIcon, right: CursorIcon)
    requires
        left != right,
        left != CursorIcon::Other,
        right != CursorIcon::Other,
    ensures
        tao_icon(left) != tao_icon(right),
{
}

/// An icon that the runtime knows becomes the icon of the same name, and every
/// other one becomes the default icon.
pub proof fn law_icons_keep_their_names()
    ensures
        tao_icon(CursorIcon::Default) == TaoCursorIcon::Default,
        tao_icon(CursorIcon::Crosshair) == TaoCursorIcon::Crosshair,
        tao_icon(CursorIcon::Hand) == TaoCursorIcon::Hand,
        tao_icon(CursorIcon::Arrow) == TaoCursorIcon::Arrow,
        tao_icon(CursorIcon::Move) == TaoCursorIcon::Move,
        tao_icon(CursorIcon::Text) == TaoCursorIcon::Text,
        tao_icon(CursorIcon::Wait) == TaoCursorIcon::Wait,
        tao_icon(CursorIcon::Help) == TaoCursorIcon::Help,
        tao_icon(CursorIcon::Progress) == TaoCursorIcon::Progress,
        tao_icon(CursorIcon::NotAllowed) == TaoCursorIcon::NotAllowed,
        tao_icon(CursorIcon::ContextMenu) == TaoCursorIcon::ContextMenu,
        tao_icon(CursorIcon::Cell) == TaoCursorIcon::Cell,
        tao_icon(CursorIcon::VerticalText) == TaoCursorIcon::VerticalText,
        tao_icon(CursorIcon::Alias) == TaoCursorIcon::Alias,
        tao_icon(CursorIcon::Copy) == TaoCursorIcon::Copy,
        tao_icon(CursorIcon::NoDrop) == TaoCursorIcon::NoDrop,
        tao_icon(CursorIcon::Grab) == TaoCursorIcon::Grab,
        tao_icon(CursorIcon::Grabbing) == TaoCursorIcon::Grabbing,
        tao_icon(CursorIcon::AllScroll) == TaoCursorIcon::AllScroll,
        tao_icon(CursorIcon::ZoomIn) == TaoCursorIcon::ZoomIn,
        tao_icon(CursorIcon::ZoomOut) == TaoCursorIcon::ZoomOut,
        tao_icon(CursorIcon::EResize) == TaoCursorIcon::EResize,
        tao_icon(CursorIcon::NResize) == TaoCursorIcon::NResize,
        tao_icon(CursorIcon::NeResize) == TaoCursorIcon::NeResize,
        tao_icon(CursorIcon::NwResize) == TaoCursorIcon::NwResize,
        tao_icon(CursorIcon::SResize) == TaoCursorIcon::SResize,
        tao_icon(CursorIcon::SeResize) == TaoCursorIcon::SeResize,
        tao_icon(CursorIcon::SwResize) == TaoCursorIcon::SwResize,
        tao_icon(CursorIcon::WResize) == TaoCursorIcon::WResize,
        tao_icon(CursorIcon::EwResize) == TaoCursorIcon::EwResize,
        tao_icon(CursorIcon::NsResize) == TaoCursorIcon::NsResize,
        tao_icon(CursorIcon::NeswResize) == TaoCursorIcon::NeswResize,
        tao_icon(CursorIcon::NwseResize) == TaoCursorIcon::NwseResize,
        tao_icon(CursorIcon::ColResize) == TaoCursorIcon::ColResize,
        tao_icon(CursorIcon::RowResize) == TaoCursorIcon::RowResize,
        tao_icon(CursorIcon::Other) == TaoCursorIcon::Default,
{
}

} // verus!
