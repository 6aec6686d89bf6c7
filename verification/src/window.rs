//! Window management.
//!
//! Live windows are owned by the main thread inside [`Windows`].
//! [`ServoWindowDispatcher`] is the handle used everywhere else; every
//! operation travels through the event loop as a [`WindowOp`] and is applied on
//! the main thread.
use crate::cursor::{tao_cursor_icon, tao_icon, CursorIcon, TaoCursorIcon};
use crate::geometry::{Position, Size};
use crate::platform::Platform;
use std::collections::hash_map::Entry;
use std::collections::HashMap;
use vstd::prelude::*;
use vstd::std_specs::iter::IteratorSpec;

verus! {

broadcast use vstd::std_specs::hash::group_hash_axioms;

/// Identifies a window of the runtime.
pub type WindowId = u32;

/// Identifies a handler among those of one window.
pub type WindowEventId = u32;

/// State for one live window. Main thread only.
pub struct WindowEntry<P: Platform> {
    pub label: String,
    pub window: P::Window,
    pub handlers: HashMap<WindowEventId, P::WindowHandler>,
    pub next_handler_id: WindowEventId,
}

/// A live window together with the number of its native window.
struct Slot<P: Platform> {
    tao_id: u64,
    entry: WindowEntry<P>,
}

/// All live windows, keyed by [`WindowId`]. Main thread only.
///
/// Native windows are told apart by a number.
pub struct Windows<P: Platform> {
    inner: HashMap<WindowId, Slot<P>>,
    by_tao_id: HashMap<u64, WindowId>,
    next_id: u32,
}

/// What [`Windows`] holds.
pub struct WindowsView<P: Platform> {
    /// The live windows.
    pub entries: Map<WindowId, WindowEntry<P>>,
    /// Which live window a native window belongs to.
    pub by_tao_id: Map<u64, WindowId>,
    /// The id of the window that is inserted next.
    pub next_id: u32,
}

impl<P: Platform> WindowsView<P> {
    /// Every live window has an id given out earlier, and every native window
    /// that is known belongs to a live window of its own.
    pub open spec fn consistent(self) -> bool {
        &&& forall|id: WindowId| #[trigger] self.entries.contains_key(id) ==> id < self.next_id
        &&& forall|tao_id: u64| #[trigger]
            self.by_tao_id.contains_key(tao_id) ==> self.entries.contains_key(
                self.by_tao_id[tao_id],
            )
        &&& forall|left: u64, right: u64|
            #![trigger self.by_tao_id[left], self.by_tao_id[right]]
            self.by_tao_id.contains_key(left) && self.by_tao_id.contains_key(right) && left
                != right ==> self.by_tao_id[left] != self.by_tao_id[right]
    }

    /// The windows after taking in `entry` for the native window `tao_id`.
    pub open spec fn inserted(self, tao_id: u64, entry: WindowEntry<P>) -> Self {
        WindowsView {
            entries: self.entries.insert(self.next_id, entry),
            by_tao_id: self.by_tao_id.insert(tao_id, self.next_id),
            next_id: (self.next_id + 1) as u32,
        }
    }

    /// The windows after taking out the window `id`, which no native window
    /// belongs to any more.
    pub open spec fn removed(self, id: WindowId) -> Self {
        WindowsView {
            entries: self.entries.remove(id),
            by_tao_id: self.by_tao_id.restrict(
                Set::new(|tao_id: u64| self.by_tao_id[tao_id] != id),
            ),
            next_id: self.next_id,
        }
    }
}

impl<P: Platform> View for Windows<P> {
    type V = WindowsView<P>;

    closed spec fn view(&self) -> WindowsView<P> {
        WindowsView {
            entries: self.inner@.map_values(|slot: Slot<P>| slot.entry),
            by_tao_id: self.by_tao_id@,
            next_id: self.next_id,
        }
    }
}

impl<P: Platform> Default for Windows<P> {
    /// No window at all.
    fn default() -> (windows: Self)
        ensures
            windows.wf(),
            windows@ == (WindowsView::<P> {
                entries: Map::empty(),
                by_tao_id: Map::empty(),
                next_id: 0,
            }),
    {
        let windows = Windows { inner: HashMap::new(), by_tao_id: HashMap::new(), next_id: 0 };
        proof {
            assert(windows@.entries =~= Map::<WindowId, WindowEntry<P>>::empty());
        }
        windows
    }
}

impl<P: Platform> Windows<P> {
    /// Every live window has an id given out earlier, and every native window
    /// that is known belongs to one live window, which belongs to no other one.
    pub closed spec fn wf(self) -> bool {
        &&& forall|id: WindowId| #[trigger] self.inner@.contains_key(id) ==> id < self.next_id
        &&& forall|tao_id: u64| #[trigger]
            self.by_tao_id@.contains_key(tao_id) ==> {
                &&& self.inner@.contains_key(self.by_tao_id@[tao_id])
                &&& self.inner@[self.by_tao_id@[tao_id]].tao_id == tao_id
            }
    }

    /// Takes in a native window and returns the id it gets.
    pub fn insert(&mut self, label: String, window: P::Window, tao_id: u64) -> (id: WindowId)
        requires
            old(self).wf(),
            old(self)@.next_id < u32::MAX,
        ensures
            final(self).wf(),
            id == old(self)@.next_id,
            final(self)@ == old(self)@.inserted(tao_id, final(self)@.entries[id]),
            final(self)@.entries[id].label == label,
            final(self)@.entries[id].window == window,
            final(self)@.entries[id].handlers@ == Map::<WindowEventId, P::WindowHandler>::empty(),
            final(self)@.entries[id].next_handler_id == 0,
    {
        let ghost before = *self;
        let id: WindowId = self.next_id;
        self.next_id += 1;
        self.by_tao_id.insert(tao_id, id);
        let entry = WindowEntry { label, window, handlers: HashMap::new(), next_handler_id: 0 };
        self.inner.insert(id, Slot { tao_id, entry });
        proof {
            assert(self@.entries =~= before@.entries.insert(id, entry));
        }
        id
    }

    /// The window with an id.
    pub fn get(&self, id: WindowId) -> (entry: Option<&WindowEntry<P>>)
        ensures
            entry == (if self@.entries.contains_key(id) {
                Some(&self@.entries[id])
            } else {
                None
            }),
    {
        match self.inner.get(&id) {
            Some(slot) => Some(&slot.entry),
            None => None,
        }
    }

    /// The window with an id, to be changed in place.
    pub fn get_mut(&mut self, id: WindowId) -> (entry: Option<&mut WindowEntry<P>>)
        requires
            old(self).wf(),
        ensures
            final(self).wf(),
            match entry {
                Some(entry) => {
                    &&& old(self)@.entries.contains_key(id)
                    &&& *entry == old(self)@.entries[id]
                    &&& final(self)@ == (WindowsView {
                        entries: old(self)@.entries.insert(id, *final(entry)),
                        ..old(self)@
                    })
                },
                None => !old(self)@.entries.contains_key(id) && final(self)@ == old(self)@,
            },
    {
        let ghost before = *self;
        proof {
            assert forall|after: Self|
                #![trigger after.wf()]
                #![trigger after@]
                before.inner@.contains_key(id) && after.inner@ == before.inner@.insert(
                    id,
                    after.inner@[id],
                ) && after.inner@[id].tao_id == before.inner@[id].tao_id && after.by_tao_id
                    == before.by_tao_id && after.next_id == before.next_id implies after.wf()
                && after@ == (WindowsView {
                entries: before@.entries.insert(id, after.inner@[id].entry),
                ..before@
            }) by {
                assert(after@.entries =~= before@.entries.insert(id, after.inner@[id].entry));
            }
        }
        match self.inner.entry(id) {
            Entry::Occupied(slot) => Some(&mut slot.into_mut().entry),
            Entry::Vacant(_) => {
                proof {
                    assert(before.inner@.remove(id) =~= before.inner@);
                }
                None
            },
        }
    }

    /// Takes a window out.
    pub fn remove(&mut self, id: WindowId) -> (removed: Option<WindowEntry<P>>)
        requires
            old(self).wf(),
        ensures
            final(self).wf(),
            removed == (if old(self)@.entries.contains_key(id) {
                Some(old(self)@.entries[id])
            } else {
                None
            }),
            final(self)@ == old(self)@.removed(id),
    {
        let ghost before = *self;
        match self.inner.remove(&id) {
            Some(slot) => {
                let known: bool = match self.by_tao_id.get(&slot.tao_id) {
                    Some(owner) => *owner == id,
                    None => false,
                };
                if known {
                    self.by_tao_id.remove(&slot.tao_id);
                }
                proof {
                    assert(self@.entries =~= before@.removed(id).entries);
                    assert(self@.by_tao_id =~= before@.removed(id).by_tao_id);
                }
                Some(slot.entry)
            },
            None => {
                proof {
                    assert(self@.entries =~= before@.removed(id).entries);
                    assert(self@.by_tao_id =~= before@.removed(id).by_tao_id);
                }
                None
            },
        }
    }

    /// The live window that a native window belongs to.
    pub fn lookup_tao(&self, tao_id: u64) -> (found: Option<(WindowId, &WindowEntry<P>)>)
        requires
            self.wf(),
        ensures
            found == (if self@.by_tao_id.contains_key(tao_id) {
                Some(
                    (self@.by_tao_id[tao_id], &self@.entries[self@.by_tao_id[tao_id]]),
                )
            } else {
                None
            }),
            found matches Some(pair) ==> self@.entries.contains_key(pair.0),
    {
        match self.by_tao_id.get(&tao_id) {
            Some(id) => match self.inner.get(id) {
                Some(slot) => Some((*id, &slot.entry)),
                None => None,
            },
            None => None,
        }
    }

    /// All live windows, in no particular order.
    pub fn iter(&self) -> (rows: Vec<(WindowId, &WindowEntry<P>)>)
        ensures
            forall|i: int|
                0 <= i < rows@.len() ==> self@.entries.contains_key((#[trigger] rows@[i]).0)
                    && *rows@[i].1 == self@.entries[rows@[i].0],
            forall|i: int, j: int|
                #![trigger rows@[i], rows@[j]]
                0 <= i < j < rows@.len() ==> rows@[i].0 != rows@[j].0,
            forall|id: WindowId| #[trigger]
                self@.entries.contains_key(id) ==> exists|i: int|
                    0 <= i < rows@.len() && (#[trigger] rows@[i]).0 == id,
    {
        let mut rows: Vec<(WindowId, &WindowEntry<P>)> = Vec::new();
        let slots = self.inner.iter();
        let ghost all = slots.remaining();
        for slot in it: slots
            invariant
                it.seq() == all,
                rows@.len() == it.index(),
                forall|i: int|
                    0 <= i < rows@.len() ==> (#[trigger] rows@[i]).0 == *all[i].0 && *rows@[i].1
                        == all[i].1.entry,
        {
            rows.push((*slot.0, &slot.1.entry));
        }
        proof {
            assert forall|i: int| 0 <= i < rows@.len() implies self@.entries.contains_key(
                (#[trigger] rows@[i]).0,
            ) && *rows@[i].1 == self@.entries[rows@[i].0] by {
                assert(self.inner@.contains_key(*all[i].0));
            }
            assert forall|i: int, j: int|
                #![trigger rows@[i], rows@[j]]
                0 <= i < j < rows@.len() implies rows@[i].0 != rows@[j].0 by {
                assert(self.inner@.contains_key(*all[i].0));
                assert(self.inner@.contains_key(*all[j].0));
                assert(all[i] != all[j]);
            }
            assert forall|id: WindowId| #[trigger] self@.entries.contains_key(id) implies exists|
                i: int,
            | 0 <= i < rows@.len() && (#[trigger] rows@[i]).0 == id by {
                assert(self.inner@.contains_key(id));
                assert(all.contains((&id, &self.inner@[id])));
                let i = choose|i: int| 0 <= i < all.len() && all[i] == (&id, &self.inner@[id]);
                assert(rows@[i].0 == id);
            }
        }
        rows
    }
}

/// A window operation applied on the main thread.
pub enum WindowOp<P: Platform> {
    ScaleFactor,
    InnerPosition,
    OuterPosition,
    InnerSize,
    OuterSize,
    IsFullscreen,
    IsMinimized,
    IsMaximized,
    IsFocused,
    IsDecorated,
    IsResizable,
    IsVisible,
    Title,
    CurrentMonitor,
    PrimaryMonitor,
    OnEvent { handler: P::WindowHandler },
    SetTitle(String),
    SetVisible(bool),
    SetFocus,
    SetResizable(bool),
    SetMinimized(bool),
    SetMaximized(bool),
    SetFullscreen(bool),
    SetDecorations(bool),
    SetAlwaysOnTop(bool),
    SetSize(Size<P>),
    SetMinSize(Option<Size<P>>),
    SetMaxSize(Option<Size<P>>),
    SetPosition(Position<P>),
    SetIcon { rgba: Vec<u8>, width: u32, height: u32 },
    SetSkipTaskbar(bool),
    SetCursorIcon(CursorIcon),
    SetCursorVisible(bool),
    SetCursorGrab(bool),
    SetIgnoreCursorEvents(bool),
    SetContentProtected(bool),
    SetEnabled(bool),
    SetFullscreenFallback,
    Close,
    Run(P::Thunk),
}

/// What a native window is asked for.
#[derive(Debug, Clone, Copy, PartialEq, Eq, Structural)]
pub enum WindowQuery {
    ScaleFactor,
    InnerPosition,
    OuterPosition,
    InnerSize,
    OuterSize,
    /// Whether the window fills a screen.
    Fullscreen,
    Minimized,
    Maximized,
    Focused,
    Decorated,
    Resizable,
    Visible,
    Title,
    CurrentMonitor,
}

/// How a window fills a screen.
#[derive(Debug, Clone, Copy, PartialEq, Eq, Structural)]
pub enum Fullscreen {
    /// Without borders, on the monitor that the window is on.
    Borderless,
}

/// What a native window is told.
pub enum WindowCall<P: Platform> {
    SetTitle(String),
    SetVisible(bool),
    SetFocus,
    SetResizable(bool),
    SetMinimized(bool),
    SetMaximized(bool),
    SetFullscreen(Option<Fullscreen>),
    SetDecorations(bool),
    SetAlwaysOnTop(bool),
    SetInnerSize(Size<P>),
    SetMinInnerSize(Option<Size<P>>),
    SetMaxInnerSize(Option<Size<P>>),
    SetOuterPosition(Position<P>),
    /// To be made into an icon first; see [`icon_made`].
    SetWindowIcon { rgba: Vec<u8>, width: u32, height: u32 },
    SetCursorIcon(TaoCursorIcon),
    SetCursorVisible(bool),
    SetCursorGrab(bool),
    SetIgnoreCursorEvents(bool),
}

/// What native windows do not offer.
#[derive(Debug, Clone, Copy, PartialEq, Eq, Structural)]
pub enum WindowFeature {
    SkipTaskbar,
    ContentProtection,
    EnabledFlag,
}

/// What the main thread has to do for a window operation.
pub enum WindowAction<P: Platform> {
    /// Nothing: there is no such window.
    UnknownWindow,
    /// Tell the caller the id under which the handler was stored.
    Registered(WindowEventId),
    /// Ask the native window and tell the caller.
    Query(WindowQuery),
    /// Tell the native window.
    Call(WindowCall<P>),
    /// Nothing: native windows do not offer this.
    Unavailable(WindowFeature),
    /// Nothing: windows are closed by the windowing system.
    CloseRequested,
    /// Run the closure, if it has not run yet.
    Run(P::Thunk),
}

/// What the main thread has to do for an operation on the live window `entry`.
///
/// The primary monitor is taken to be the one that the window is on.
pub open spec fn action_on<P: Platform>(entry: WindowEntry<P>, op: WindowOp<P>) -> WindowAction<P> {
    match op {
        WindowOp::ScaleFactor => WindowAction::Query(WindowQuery::ScaleFactor),
        WindowOp::InnerPosition => WindowAction::Query(WindowQuery::InnerPosition),
        WindowOp::OuterPosition => WindowAction::Query(WindowQuery::OuterPosition),
        WindowOp::InnerSize => WindowAction::Query(WindowQuery::InnerSize),
        WindowOp::OuterSize => WindowAction::Query(WindowQuery::OuterSize),
        WindowOp::IsFullscreen => WindowAction::Query(WindowQuery::Fullscreen),
        WindowOp::IsMinimized => WindowAction::Query(WindowQuery::Minimized),
        WindowOp::IsMaximized => WindowAction::Query(WindowQuery::Maximized),
        WindowOp::IsFocused => WindowAction::Query(WindowQuery::Focused),
        WindowOp::IsDecorated => WindowAction::Query(WindowQuery::Decorated),
        WindowOp::IsResizable => WindowAction::Query(WindowQuery::Resizable),
        WindowOp::IsVisible => WindowAction::Query(WindowQuery::Visible),
        WindowOp::Title => WindowAction::Query(WindowQuery::Title),
        WindowOp::CurrentMonitor => WindowAction::Query(WindowQuery::CurrentMonitor),
        WindowOp::PrimaryMonitor => WindowAction::Query(WindowQuery::CurrentMonitor),
        WindowOp::OnEvent { handler } => WindowAction::Registered(entry.next_handler_id),
        WindowOp::SetTitle(title) => WindowAction::Call(WindowCall::SetTitle(title)),
        WindowOp::SetVisible(visible) => WindowAction::Call(WindowCall::SetVisible(visible)),
        WindowOp::SetFocus => WindowAction::Call(WindowCall::SetFocus),
        WindowOp::SetResizable(resizable) => {
            WindowAction::Call(WindowCall::SetResizable(resizable))
        },
        WindowOp::SetMinimized(minimized) => {
            WindowAction::Call(WindowCall::SetMinimized(minimized))
        },
        WindowOp::SetMaximized(maximized) => {
            WindowAction::Call(WindowCall::SetMaximized(maximized))
        },
        WindowOp::SetFullscreen(fullscreen) => {
            WindowAction::Call(
                WindowCall::SetFullscreen(
                    if fullscreen {
                        Some(Fullscreen::Borderless)
                    } else {
                        None
                    },
                ),
            )
        },
        WindowOp::SetDecorations(decorations) => {
            WindowAction::Call(WindowCall::SetDecorations(decorations))
        },
        WindowOp::SetAlwaysOnTop(always_on_top) => {
            WindowAction::Call(WindowCall::SetAlwaysOnTop(always_on_top))
        },
        WindowOp::SetSize(size) => WindowAction::Call(WindowCall::SetInnerSize(size)),
        WindowOp::SetMinSize(size) => WindowAction::Call(WindowCall::SetMinInnerSize(size)),
        WindowOp::SetMaxSize(size) => WindowAction::Call(WindowCall::SetMaxInnerSize(size)),
        WindowOp::SetPosition(position) => {
            WindowAction::Call(WindowCall::SetOuterPosition(position))
        },
        WindowOp::SetIcon { rgba, width, height } => {
            WindowAction::Call(WindowCall::SetWindowIcon { rgba, width, height })
        },
        WindowOp::SetSkipTaskbar(_) => WindowAction::Unavailable(WindowFeature::SkipTaskbar),
        WindowOp::SetCursorIcon(icon) => {
            WindowAction::Call(WindowCall::SetCursorIcon(tao_icon(icon)))
        },
        WindowOp::SetCursorVisible(visible) => {
            WindowAction::Call(WindowCall::SetCursorVisible(visible))
        },
        WindowOp::SetCursorGrab(grab) => WindowAction::Call(WindowCall::SetCursorGrab(grab)),
        WindowOp::SetIgnoreCursorEvents(ignore) => {
            WindowAction::Call(WindowCall::SetIgnoreCursorEvents(ignore))
        },
        WindowOp::SetContentProtected(_) => {
            WindowAction::Unavailable(WindowFeature::ContentProtection)
        },
        WindowOp::SetEnabled(_) => WindowAction::Unavailable(WindowFeature::EnabledFlag),
        WindowOp::SetFullscreenFallback => {
            WindowAction::Call(WindowCall::SetFullscreen(Some(Fullscreen::Borderless)))
        },
        WindowOp::Close => WindowAction::CloseRequested,
        WindowOp::Run(thunk) => WindowAction::Run(thunk),
    }
}

/// What the main thread has to do for an operation.
pub open spec fn window_action<P: Platform>(
    windows: WindowsView<P>,
    id: WindowId,
    op: WindowOp<P>,
) -> WindowAction<P> {
    if windows.entries.contains_key(id) {
        action_on(windows.entries[id], op)
    } else {
        WindowAction::UnknownWindow
    }
}

/// Whether `after` is `before` with one handler more, stored under the id that
/// was next.
pub open spec fn handler_added<P: Platform>(
    before: WindowEntry<P>,
    after: WindowEntry<P>,
    handler: P::WindowHandler,
) -> bool {
    &&& after.label == before.label
    &&& after.window == before.window
    &&& after.handlers@ == before.handlers@.insert(before.next_handler_id, handler)
    &&& after.next_handler_id == before.next_handler_id + 1
}

/// What an operation makes of the windows: a handler is added to the window that
/// it is for, and nothing else changes.
pub open spec fn windows_after<P: Platform>(
    before: WindowsView<P>,
    after: WindowsView<P>,
    id: WindowId,
    op: WindowOp<P>,
) -> bool {
    if op is OnEvent && before.entries.contains_key(id) {
        &&& after == (WindowsView {
            entries: before.entries.insert(id, after.entries[id]),
            ..before
        })
        &&& handler_added(before.entries[id], after.entries[id], op->handler)
    } else {
        after == before
    }
}

/// Applies an operation to the live windows and tells what the main thread has
/// to do for it.
pub fn apply<P: Platform>(windows: &mut Windows<P>, id: WindowId, op: WindowOp<P>) -> (action:
    WindowAction<P>)
    requires
        old(windows).wf(),
        op is OnEvent && old(windows)@.entries.contains_key(id) ==> old(
            windows,
        )@.entries[id].next_handler_id < u32::MAX,
    ensures
        final(windows).wf(),
        action == window_action(old(windows)@, id, op),
        windows_after(old(windows)@, final(windows)@, id, op),
{
    let ghost before = windows@;
    let entry = match windows.get_mut(id) {
        Some(entry) => entry,
        None => return WindowAction::UnknownWindow,
    };
    proof {
        assert(before.entries.insert(id, before.entries[id]) =~= before.entries);
    }
    match op {
        WindowOp::ScaleFactor => WindowAction::Query(WindowQuery::ScaleFactor),
        WindowOp::InnerPosition => WindowAction::Query(WindowQuery::InnerPosition),
        WindowOp::OuterPosition => WindowAction::Query(WindowQuery::OuterPosition),
        WindowOp::InnerSize => WindowAction::Query(WindowQuery::InnerSize),
        WindowOp::OuterSize => WindowAction::Query(WindowQuery::OuterSize),
        WindowOp::IsFullscreen => WindowAction::Query(WindowQuery::Fullscreen),
        WindowOp::IsMinimized => WindowAction::Query(WindowQuery::Minimized),
        WindowOp::IsMaximized => WindowAction::Query(WindowQuery::Maximized),
        WindowOp::IsFocused => WindowAction::Query(WindowQuery::Focused),
        WindowOp::IsDecorated => WindowAction::Query(WindowQuery::Decorated),
        WindowOp::IsResizable => WindowAction::Query(WindowQuery::Resizable),
        WindowOp::IsVisible => WindowAction::Query(WindowQuery::Visible),
        WindowOp::Title => WindowAction::Query(WindowQuery::Title),
        WindowOp::CurrentMonitor => WindowAction::Query(WindowQuery::CurrentMonitor),
        WindowOp::PrimaryMonitor => WindowAction::Query(WindowQuery::CurrentMonitor),
        WindowOp::OnEvent { handler } => {
            let handler_id: WindowEventId = entry.next_handler_id;
            entry.next_handler_id += 1;
            entry.handlers.insert(handler_id, handler);
            WindowAction::Registered(handler_id)
        },
        WindowOp::SetTitle(title) => WindowAction::Call(WindowCall::SetTitle(title)),
        WindowOp::SetVisible(visible) => WindowAction::Call(WindowCall::SetVisible(visible)),
        WindowOp::SetFocus => WindowAction::Call(WindowCall::SetFocus),
        WindowOp::SetResizable(resizable) => {
            WindowAction::Call(WindowCall::SetResizable(resizable))
        },
        WindowOp::SetMinimized(minimized) => {
            WindowAction::Call(WindowCall::SetMinimized(minimized))
        },
        WindowOp::SetMaximized(maximized) => {
            WindowAction::Call(WindowCall::SetMaximized(maximized))
        },
        WindowOp::SetFullscreen(fullscreen) => {
            WindowAction::Call(
                WindowCall::SetFullscreen(
                    if fullscreen {
                        Some(Fullscreen::Borderless)
                    } else {
                        None
                    },
                ),
            )
        },
        WindowOp::SetDecorations(decorations) => {
            WindowAction::Call(WindowCall::SetDecorations(decorations))
        },
        WindowOp::SetAlwaysOnTop(always_on_top) => {
            WindowAction::Call(WindowCall::SetAlwaysOnTop(always_on_top))
        },
        WindowOp::SetSize(size) => WindowAction::Call(WindowCall::SetInnerSize(size)),
        WindowOp::SetMinSize(size) => WindowAction::Call(WindowCall::SetMinInnerSize(size)),
        WindowOp::SetMaxSize(size) => WindowAction::Call(WindowCall::SetMaxInnerSize(size)),
        WindowOp::SetPosition(position) => {
            WindowAction::Call(WindowCall::SetOuterPosition(position))
        },
        WindowOp::SetIcon { rgba, width, height } => {
            WindowAction::Call(WindowCall::SetWindowIcon { rgba, width, height })
        },
        WindowOp::SetSkipTaskbar(_) => WindowAction::Unavailable(WindowFeature::SkipTaskbar),
        WindowOp::SetCursorIcon(icon) => {
            WindowAction::Call(WindowCall::SetCursorIcon(tao_cursor_icon(icon)))
        },
        WindowOp::SetCursorVisible(visible) => {
            WindowAction::Call(WindowCall::SetCursorVisible(visible))
        },
        WindowOp::SetCursorGrab(grab) => WindowAction::Call(WindowCall::SetCursorGrab(grab)),
        WindowOp::SetIgnoreCursorEvents(ignore) => {
            WindowAction::Call(WindowCall::SetIgnoreCursorEvents(ignore))
        },
        WindowOp::SetContentProtected(_) => {
            WindowAction::Unavailable(WindowFeature::ContentProtection)
        },
        WindowOp::SetEnabled(_) => WindowAction::Unavailable(WindowFeature::EnabledFlag),
        WindowOp::SetFullscreenFallback => {
            WindowAction::Call(WindowCall::SetFullscreen(Some(Fullscreen::Borderless)))
        },
        WindowOp::Close => WindowAction::CloseRequested,
        WindowOp::Run(thunk) => WindowAction::Run(thunk),
    }
}

/// What becomes of the icon of a window, given what the windowing system made of
/// a picture: the new icon is set, or, where the system refused the picture, the
/// icon stays as it is.
pub fn icon_made<I>(made: Option<I>) -> (set: Option<Option<I>>)
    ensures
        set == (match made {
            Some(icon) => Some(Some(icon)),
            None => None,
        }),
{
    match made {
        Some(icon) => Some(Some(icon)),
        None => None,
    }
}

impl<P: Platform> WindowEntry<P> {
    /// Every handler is stored under an id given out earlier.
    pub open spec fn ids_in_order(self) -> bool {
        forall|id: WindowEventId| #[trigger]
            self.handlers@.contains_key(id) ==> id < self.next_handler_id
    }
}

/// Windows that are well formed are consistent: no native window leads to a
/// window that is gone, and none shares its window with another one.
pub proof fn law_native_windows_are_live<P: Platform>(windows: Windows<P>)
    requires
        windows.wf(),
    ensures
        windows@.consistent(),
{
}

/// A window that is taken in is found by its id and by its native window, its id
/// was in use for no other window, and every other window stays as it was.
pub proof fn law_inserted_window_is_found<P: Platform>(
    windows: WindowsView<P>,
    tao_id: u64,
    entry: WindowEntry<P>,
)
    requires
        windows.consistent(),
        windows.next_id < u32::MAX,
    ensures
        ({
            let id = windows.next_id;
            let after = windows.inserted(tao_id, entry);
            &&& !windows.entries.contains_key(id)
            &&& after.entries.contains_key(id) && after.entries[id] == entry
            &&& after.by_tao_id.contains_key(tao_id) && after.by_tao_id[tao_id] == id
            &&& forall|other: WindowId|
                other != id ==> (#[trigger] after.entries.contains_key(other)
                    <==> windows.entries.contains_key(other)) && (after.entries.contains_key(other)
                    ==> after.entries[other] == windows.entries[other])
            &&& forall|other: u64|
                other != tao_id ==> (#[trigger] after.by_tao_id.contains_key(other)
                    <==> windows.by_tao_id.contains_key(other)) && (
                after.by_tao_id.contains_key(other) ==> after.by_tao_id[other]
                    == windows.by_tao_id[other])
            &&& after.next_id == id + 1
            &&& after.consistent()
        }),
{
    let after = windows.inserted(tao_id, entry);
    assert forall|left: u64, right: u64|
        #![trigger after.by_tao_id[left], after.by_tao_id[right]]
        after.by_tao_id.contains_key(left) && after.by_tao_id.contains_key(right) && left
            != right implies after.by_tao_id[left] != after.by_tao_id[right] by {
        if left != tao_id && right != tao_id {
            assert(windows.by_tao_id[left] != windows.by_tao_id[right]);
        } else if left == tao_id {
            assert(windows.entries.contains_key(windows.by_tao_id[right]));
        } else {
            assert(windows.entries.contains_key(windows.by_tao_id[left]));
        }
    }
}

/// A window that is taken out is found neither by its id nor by a native window,
/// and every other window stays as it was.
pub proof fn law_removed_window_is_forgotten<P: Platform>(windows: WindowsView<P>, id: WindowId)
    requires
        windows.consistent(),
    ensures
        ({
            let after = windows.removed(id);
            &&& !after.entries.contains_key(id)
            &&& forall|tao_id: u64| #[trigger]
                after.by_tao_id.contains_key(tao_id) ==> after.by_tao_id[tao_id] != id
            &&& forall|tao_id: u64| #[trigger]
                windows.by_tao_id.contains_key(tao_id) && windows.by_tao_id[tao_id] != id
                    ==> after.by_tao_id.contains_key(tao_id) && after.by_tao_id[tao_id]
                    == windows.by_tao_id[tao_id]
            &&& forall|tao_id: u64| #[trigger]
                after.by_tao_id.contains_key(tao_id) ==> windows.by_tao_id.contains_key(tao_id)
                    && after.by_tao_id[tao_id] == windows.by_tao_id[tao_id]
            &&& after.next_id == windows.next_id
            &&& forall|other: WindowId|
                other != id ==> (#[trigger] after.entries.contains_key(other)
                    <==> windows.entries.contains_key(other)) && (after.entries.contains_key(other)
                    ==> after.entries[other] == windows.entries[other])
            &&& after.consistent()
        }),
{
    let after = windows.removed(id);
    assert forall|tao_id: u64| #[trigger]
        after.by_tao_id.contains_key(tao_id) implies after.entries.contains_key(
        after.by_tao_id[tao_id],
    ) by {
        assert(windows.by_tao_id.contains_key(tao_id));
    }
    assert forall|left: u64, right: u64|
        #![trigger after.by_tao_id[left], after.by_tao_id[right]]
        after.by_tao_id.contains_key(left) && after.by_tao_id.contains_key(right) && left
            != right implies after.by_tao_id[left] != after.by_tao_id[right] by {
        assert(windows.by_tao_id[left] != windows.by_tao_id[right]);
    }
}

/// Taking a window in and out again leaves the other windows, and no id is given
/// out twice.
pub proof fn law_window_ids_are_not_reused<P: Platform>(
    windows: WindowsView<P>,
    tao_id: u64,
    entry: WindowEntry<P>,
)
    requires
        windows.consistent(),
        windows.next_id < u32::MAX,
    ensures
        windows.inserted(tao_id, entry).removed(windows.next_id).entries == windows.entries,
        windows.inserted(tao_id, entry).removed(windows.next_id).next_id > windows.next_id,
{
    let id = windows.next_id;
    assert(!windows.entries.contains_key(id));
    assert(windows.inserted(tao_id, entry).removed(id).entries =~= windows.entries);
}

/// An operation changes no window but the one that it is for, and none at all
/// unless it stores a handler. Exactly the operations on windows that are not
/// live come to nothing as unknown.
pub proof fn law_operations_keep_other_windows<P: Platform>(
    before: WindowsView<P>,
    after: WindowsView<P>,
    id: WindowId,
    op: WindowOp<P>,
    other: WindowId,
)
    requires
        windows_after(before, after, id, op),
    ensures
        after.by_tao_id == before.by_tao_id,
        after.next_id == before.next_id,
        after.entries.dom() == before.entries.dom(),
        other != id && before.entries.contains_key(other) ==> after.entries[other]
            == before.entries[other],
        op !is OnEvent ==> after == before,
        !before.entries.contains_key(id) ==> after == before,
        window_action(before, id, op) is UnknownWindow <==> !before.entries.contains_key(id),
        op matches WindowOp::OnEvent { handler } ==> before.entries.contains_key(id) ==> {
            let entry = before.entries[id];
            &&& window_action(before, id, op) == WindowAction::<P>::Registered(
                entry.next_handler_id,
            )
            &&& after.entries[id].label == entry.label
            &&& after.entries[id].window == entry.window
            &&& after.entries[id].handlers@ == entry.handlers@.insert(
                entry.next_handler_id,
                handler,
            )
            &&& after.entries[id].next_handler_id == entry.next_handler_id + 1
        },
{
    assert(after.entries.dom() =~= before.entries.dom());
}

/// A handler that is stored gets an id of its own and replaces no other handler.
pub proof fn law_handlers_are_kept<P: Platform>(
    before: WindowEntry<P>,
    after: WindowEntry<P>,
    handler: P::WindowHandler,
    earlier: WindowEventId,
)
    requires
        before.ids_in_order(),
        handler_added(before, after, handler),
    ensures
        after.ids_in_order(),
        !before.handlers@.contains_key(before.next_handler_id),
        after.handlers@.contains_key(before.next_handler_id),
        after.handlers@[before.next_handler_id] == handler,
        before.handlers@.contains_key(earlier) ==> after.handlers@.contains_key(earlier)
            && after.handlers@[earlier] == before.handlers@[earlier],
        after.handlers@.contains_key(earlier) ==> earlier == before.next_handler_id
            || before.handlers@.contains_key(earlier),
        after.label == before.label,
        after.window == before.window,
{
}

/// On a live window, each setter tells the native window the setting of the same
/// name, with the very value that was asked for.
pub proof fn law_setters_tell_the_value<P: Platform>(
    windows: WindowsView<P>,
    id: WindowId,
    flag: bool,
    title: String,
    size: Size<P>,
    limit: Option<Size<P>>,
    position: Position<P>,
    icon: CursorIcon,
)
    requires
        windows.entries.contains_key(id),
    ensures
        window_action(windows, id, WindowOp::SetTitle(title))
            == WindowAction::<P>::Call(WindowCall::SetTitle(title)),
        window_action(windows, id, WindowOp::SetVisible(flag))
            == WindowAction::<P>::Call(WindowCall::SetVisible(flag)),
        window_action(windows, id, WindowOp::SetResizable(flag))
            == WindowAction::<P>::Call(WindowCall::SetResizable(flag)),
        window_action(windows, id, WindowOp::SetMinimized(flag))
            == WindowAction::<P>::Call(WindowCall::SetMinimized(flag)),
        window_action(windows, id, WindowOp::SetMaximized(flag))
            == WindowAction::<P>::Call(WindowCall::SetMaximized(flag)),
        window_action(windows, id, WindowOp::SetDecorations(flag))
            == WindowAction::<P>::Call(WindowCall::SetDecorations(flag)),
        window_action(windows, id, WindowOp::SetAlwaysOnTop(flag))
            == WindowAction::<P>::Call(WindowCall::SetAlwaysOnTop(flag)),
        window_action(windows, id, WindowOp::SetCursorVisible(flag))
            == WindowAction::<P>::Call(WindowCall::SetCursorVisible(flag)),
        window_action(windows, id, WindowOp::SetCursorGrab(flag))
            == WindowAction::<P>::Call(WindowCall::SetCursorGrab(flag)),
        window_action(windows, id, WindowOp::SetIgnoreCursorEvents(flag))
            == WindowAction::<P>::Call(WindowCall::SetIgnoreCursorEvents(flag)),
        window_action(windows, id, WindowOp::SetFocus)
            == WindowAction::<P>::Call(WindowCall::SetFocus),
        window_action(windows, id, WindowOp::SetFullscreen(true)) == WindowAction::<P>::Call(
            WindowCall::SetFullscreen(Some(Fullscreen::Borderless)),
        ),
        window_action(windows, id, WindowOp::SetFullscreen(false)) == WindowAction::<P>::Call(
            WindowCall::SetFullscreen(None),
        ),
        window_action(windows, id, WindowOp::SetFullscreenFallback) == WindowAction::<P>::Call(
            WindowCall::SetFullscreen(Some(Fullscreen::Borderless)),
        ),
        window_action(windows, id, WindowOp::SetSize(size))
            == WindowAction::<P>::Call(WindowCall::SetInnerSize(size)),
        window_action(windows, id, WindowOp::SetMinSize(limit)) == WindowAction::<P>::Call(
            WindowCall::SetMinInnerSize(limit),
        ),
        window_action(windows, id, WindowOp::SetMaxSize(limit)) == WindowAction::<P>::Call(
            WindowCall::SetMaxInnerSize(limit),
        ),
        window_action(windows, id, WindowOp::SetPosition(position)) == WindowAction::<P>::Call(
            WindowCall::SetOuterPosition(position),
        ),
        window_action(windows, id, WindowOp::SetCursorIcon(icon)) == WindowAction::<P>::Call(
            WindowCall::SetCursorIcon(tao_icon(icon)),
        ),
{
}

/// On a live window, a picture for an icon is handed on as it is, a closure is run,
/// what native windows lack is named, and closing is left to the windowing system.
pub proof fn law_other_operations<P: Platform>(
    windows: WindowsView<P>,
    id: WindowId,
    flag: bool,
    rgba: Vec<u8>,
    width: u32,
    height: u32,
    thunk: P::Thunk,
)
    requires
        windows.entries.contains_key(id),
    ensures
        window_action(windows, id, WindowOp::SetIcon { rgba, width, height }) == WindowAction::<
            P,
        >::Call(WindowCall::SetWindowIcon { rgba, width, height }),
        window_action(windows, id, WindowOp::Run(thunk)) == WindowAction::<P>::Run(thunk),
        window_action(windows, id, WindowOp::Close) == WindowAction::<P>::CloseRequested,
        window_action(windows, id, WindowOp::SetSkipTaskbar(flag))
            == WindowAction::<P>::Unavailable(
            WindowFeature::SkipTaskbar,
        ),
        window_action(windows, id, WindowOp::SetContentProtected(flag))
            == WindowAction::<P>::Unavailable(
            WindowFeature::ContentProtection,
        ),
        window_action(windows, id, WindowOp::SetEnabled(flag)) == WindowAction::<P>::Unavailable(
            WindowFeature::EnabledFlag,
        ),
{
}

/// On a live window, each question is put to the native window as it is; the
/// primary monitor is taken to be the one that the window is on.
pub proof fn law_questions_are_put<P: Platform>(windows: WindowsView<P>, id: WindowId)
    requires
        windows.entries.contains_key(id),
    ensures
        window_action(windows, id, WindowOp::ScaleFactor)
            == WindowAction::<P>::Query(WindowQuery::ScaleFactor),
        window_action(windows, id, WindowOp::InnerPosition)
            == WindowAction::<P>::Query(WindowQuery::InnerPosition),
        window_action(windows, id, WindowOp::OuterPosition)
            == WindowAction::<P>::Query(WindowQuery::OuterPosition),
        window_action(windows, id, WindowOp::InnerSize)
            == WindowAction::<P>::Query(WindowQuery::InnerSize),
        window_action(windows, id, WindowOp::OuterSize)
            == WindowAction::<P>::Query(WindowQuery::OuterSize),
        window_action(windows, id, WindowOp::IsFullscreen)
            == WindowAction::<P>::Query(WindowQuery::Fullscreen),
        window_action(windows, id, WindowOp::IsMinimized)
            == WindowAction::<P>::Query(WindowQuery::Minimized),
        window_action(windows, id, WindowOp::IsMaximized)
            == WindowAction::<P>::Query(WindowQuery::Maximized),
        window_action(windows, id, WindowOp::IsFocused)
            == WindowAction::<P>::Query(WindowQuery::Focused),
        window_action(windows, id, WindowOp::IsDecorated)
            == WindowAction::<P>::Query(WindowQuery::Decorated),
        window_action(windows, id, WindowOp::IsResizable)
            == WindowAction::<P>::Query(WindowQuery::Resizable),
        window_action(windows, id, WindowOp::IsVisible)
            == WindowAction::<P>::Query(WindowQuery::Visible),
        window_action(windows, id, WindowOp::Title) == WindowAction::<P>::Query(WindowQuery::Title),
        window_action(windows, id, WindowOp::CurrentMonitor)
            == WindowAction::<P>::Query(WindowQuery::CurrentMonitor),
        window_action(windows, id, WindowOp::PrimaryMonitor)
            == WindowAction::<P>::Query(WindowQuery::CurrentMonitor),
{
}

} // verus!
