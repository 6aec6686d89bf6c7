//! Webview management.
//!
//! Live views are owned by the main thread inside [`Webviews`].
//! [`ServoWebviewDispatcher`](crate::webview_dispatch::ServoWebviewDispatcher) is
//! the handle used everywhere else; every operation travels through the event
//! loop as a [`WebviewOp`] and is applied on the main thread.
use crate::address::{text_of_url, url_text};
use crate::error::RuntimeError;
use crate::ipc::IpcRegistry;
use crate::platform::Platform;
use crate::table::NameTable;
use crate::window::WindowId;
use std::collections::HashMap;
use url::Url;
use vstd::prelude::*;

verus! {

broadcast use vstd::std_specs::hash::group_hash_axioms;

/// Identifies a handler among those of one webview.
pub type WebviewEventId = u32;

/// Per-webview state. Main thread only.
pub struct WebviewEntry<P: Platform> {
    pub label: String,
    pub window_id: WindowId,
    pub view: P::View,
    pub handlers: HashMap<WebviewEventId, P::WebviewHandler>,
    pub next_handler_id: WebviewEventId,
    pub ipc: P::Registry,
}

/// All live webviews, keyed by label. Main thread only.
pub struct Webviews<P: Platform> {
    inner: NameTable<WebviewEntry<P>>,
}

impl<P: Platform> View for Webviews<P> {
    type V = Map<Seq<char>, WebviewEntry<P>>;

    closed spec fn view(&self) -> Map<Seq<char>, WebviewEntry<P>> {
        self.inner@
    }
}

impl<P: Platform> Default for Webviews<P> {
    /// No webview at all.
    fn default() -> (views: Self)
        ensures
            views.wf(),
            views@ == Map::<Seq<char>, WebviewEntry<P>>::empty(),
    {
        Webviews { inner: NameTable::new() }
    }
}

impl<P: Platform> Webviews<P> {
    /// Each label occurs once.
    pub closed spec fn wf(self) -> bool {
        self.inner.wf()
    }

    /// Takes in a webview under its label, in place of the one that had it.
    pub fn insert(&mut self, entry: WebviewEntry<P>)
        requires
            old(self).wf(),
        ensures
            final(self).wf(),
            final(self)@ == old(self)@.insert(entry.label@, entry),
    {
        self.inner.insert(entry.label.clone(), entry);
    }

    /// The webview with a label.
    pub fn get(&self, label: &str) -> (entry: Option<&WebviewEntry<P>>)
        requires
            self.wf(),
        ensures
            entry == (if self@.contains_key(label@) {
                Some(&self@[label@])
            } else {
                None
            }),
    {
        self.inner.get(label)
    }

    /// The webview with a label, to be changed in place.
    pub fn get_mut(&mut self, label: &str) -> (entry: Option<&mut WebviewEntry<P>>)
        requires
            old(self).wf(),
        ensures
            final(self).wf(),
            match entry {
                Some(entry) => {
                    &&& old(self)@.contains_key(label@)
                    &&& *entry == old(self)@[label@]
                    &&& final(self)@ == old(self)@.insert(label@, *final(entry))
                },
                None => !old(self)@.contains_key(label@) && final(self)@ == old(self)@,
            },
    {
        self.inner.get_mut(label)
    }

    /// Takes a webview out.
    pub fn remove(&mut self, label: &str) -> (removed: Option<WebviewEntry<P>>)
        requires
            old(self).wf(),
        ensures
            final(self).wf(),
            final(self)@ == old(self)@.remove(label@),
            removed == (if old(self)@.contains_key(label@) {
                Some(old(self)@[label@])
            } else {
                None
            }),
    {
        self.inner.remove(label)
    }

    /// Whether the webview `label` is one of the window `window_id`.
    pub open spec fn is_of_window(self, label: Seq<char>, window_id: WindowId) -> bool {
        self@.contains_key(label) && self@[label].window_id == window_id
    }

    /// The webviews of a window with their labels, in no particular order.
    pub fn iter_for_window(&self, window_id: WindowId) -> (rows: Vec<(String, &WebviewEntry<P>)>)
        requires
            self.wf(),
        ensures
            forall|i: int|
                0 <= i < rows@.len() ==> self.is_of_window((#[trigger] rows@[i]).0@, window_id)
                    && *rows@[i].1 == self@[rows@[i].0@],
            forall|i: int, j: int|
                #![trigger rows@[i], rows@[j]]
                0 <= i < j < rows@.len() ==> rows@[i].0@ != rows@[j].0@,
            forall|label: Seq<char>| #[trigger]
                self.is_of_window(label, window_id) ==> exists|i: int|
                    0 <= i < rows@.len() && (#[trigger] rows@[i]).0@ == label,
            forall|i: int|
                0 <= i < rows@.len() ==> self@.contains_key((#[trigger] rows@[i]).0@)
                    && rows@[i].1.window_id == window_id,
            forall|label: Seq<char>|
                #[trigger] self@.contains_key(label) && self@[label].window_id == window_id
                    ==> exists|i: int| 0 <= i < rows@.len() && (#[trigger] rows@[i]).0@ == label,
    {
        let mut rows: Vec<(String, &WebviewEntry<P>)> = Vec::new();
        proof {
            self.inner.lemma_rows();
        }
        let mut i: usize = 0;
        while i < self.inner.len()
            invariant
                self.wf(),
                i <= self.inner.size(),
                forall|k: int|
                    0 <= k < rows@.len() ==> self.is_of_window((#[trigger] rows@[k]).0@, window_id)
                        && *rows@[k].1 == self@[rows@[k].0@] && exists|j: int|
                        0 <= j < i && #[trigger] self.inner.name_at(j) == rows@[k].0@,
                forall|k: int, l: int|
                    #![trigger rows@[k], rows@[l]]
                    0 <= k < l < rows@.len() ==> rows@[k].0@ != rows@[l].0@,
                forall|j: int|
                    0 <= j < i && self.is_of_window(#[trigger] self.inner.name_at(j), window_id)
                        ==> exists|k: int|
                        0 <= k < rows@.len() && (#[trigger] rows@[k]).0@ == self.inner.name_at(j),
            decreases self.inner.size() - i,
        {
            let (label, entry) = self.inner.row(i);
            let ghost before = rows@;
            proof {
                self.inner.lemma_rows();
            }
            if entry.window_id == window_id {
                rows.push((label.clone(), entry));
                proof {
                    assert forall|j: int|
                        0 <= j < i + 1 && self.is_of_window(
                            #[trigger] self.inner.name_at(j),
                            window_id,
                        ) implies exists|k: int|
                        0 <= k < rows@.len() && (#[trigger] rows@[k]).0@ == self.inner.name_at(
                            j,
                        ) by {
                        if j < i {
                            let k = choose|k: int|
                                0 <= k < before.len() && (#[trigger] before[k]).0@
                                    == self.inner.name_at(j);
                            assert(rows@[k] == before[k]);
                        } else {
                            assert(rows@[before.len() as int].0@ == self.inner.name_at(j));
                        }
                    }
                }
            }
            i += 1;
        }
        proof {
            assert forall|label: Seq<char>|
                #[trigger] self@.contains_key(label) && self@[label].window_id
                    == window_id implies exists|i: int|
                0 <= i < rows@.len() && (#[trigger] rows@[i]).0@ == label by {
                assert(self.is_of_window(label, window_id));
            }
        }
        rows
    }
}

/// A webview operation applied on the main thread.
#[allow(inconsistent_fields)]
pub enum WebviewOp<P: Platform> {
    Url,
    Navigate(Url),
    Reload,
    GoBack,
    GoForward,
    EvalScript { script: String },
    EvalScriptWithCallback { script: String },
    RegisterIpc { command: String, handler: P::CommandHandler },
    Close,
    OnEvent { handler: P::WebviewHandler },
    Hide,
    Show,
    SetFocus,
}

/// What the main thread has to do for a webview operation.
pub enum WebviewAction<P: Platform> {
    /// Nothing: there is no such webview.
    UnknownWebview,
    /// Tell the caller the id under which the handler was stored.
    Registered(WebviewEventId),
    /// Ask the view for its address and tell the caller.
    ReadUrl,
    /// Load an address into the view.
    Load(Url),
    /// Load the address of the view anew.
    Reload,
    /// Go back in the history of the view by so many steps.
    GoBack(usize),
    /// Nothing: the engine cannot go forward.
    ForwardUnavailable,
    /// Run a script in the view.
    Evaluate(String),
    /// Run a script in the view and tell the caller its outcome.
    EvaluateForReply(String),
    /// Put a handler into the IPC dispatch table of the webview.
    RegisterIpc { command: String, handler: P::CommandHandler },
    /// Nothing: the view fills its window.
    SingleView,
}

/// What the main thread has to do for an operation on the live webview `entry`.
pub open spec fn action_on<P: Platform>(
    entry: WebviewEntry<P>,
    op: WebviewOp<P>,
) -> WebviewAction<P> {
    match op {
        WebviewOp::Url => WebviewAction::ReadUrl,
        WebviewOp::Navigate(url) => WebviewAction::Load(url),
        WebviewOp::Reload => WebviewAction::Reload,
        WebviewOp::GoBack => WebviewAction::GoBack(1),
        WebviewOp::GoForward => WebviewAction::ForwardUnavailable,
        WebviewOp::EvalScript { script } => WebviewAction::Evaluate(script),
        WebviewOp::EvalScriptWithCallback { script } => WebviewAction::EvaluateForReply(script),
        WebviewOp::RegisterIpc { command, handler } => WebviewAction::RegisterIpc {
            command,
            handler,
        },
        WebviewOp::OnEvent { handler } => WebviewAction::Registered(entry.next_handler_id),
        WebviewOp::Close => WebviewAction::SingleView,
        WebviewOp::Hide => WebviewAction::SingleView,
        WebviewOp::Show => WebviewAction::SingleView,
        WebviewOp::SetFocus => WebviewAction::SingleView,
    }
}

/// What the main thread has to do for an operation.
pub open spec fn webview_action<P: Platform>(
    views: Map<Seq<char>, WebviewEntry<P>>,
    label: Seq<char>,
    op: WebviewOp<P>,
) -> WebviewAction<P> {
    if views.contains_key(label) {
        action_on(views[label], op)
    } else {
        WebviewAction::UnknownWebview
    }
}

/// Whether `after` is `before` with one handler more, stored under the id that
/// was next.
pub open spec fn handler_added<P: Platform>(
    before: WebviewEntry<P>,
    after: WebviewEntry<P>,
    handler: P::WebviewHandler,
) -> bool {
    &&& after.label == before.label
    &&& after.window_id == before.window_id
    &&& after.view == before.view
    &&& after.ipc == before.ipc
    &&& after.handlers@ == before.handlers@.insert(before.next_handler_id, handler)
    &&& after.next_handler_id == before.next_handler_id + 1
}

/// What an operation makes of the webviews: a handler is added to the webview
/// that it is for, and nothing else changes.
pub open spec fn webviews_after<P: Platform>(
    before: Map<Seq<char>, WebviewEntry<P>>,
    after: Map<Seq<char>, WebviewEntry<P>>,
    label: Seq<char>,
    op: WebviewOp<P>,
) -> bool {
    if op is OnEvent && before.contains_key(label) {
        &&& after == before.insert(label, after[label])
        &&& handler_added(before[label], after[label], op->OnEvent_handler)
    } else {
        after == before
    }
}

/// Applies an operation to the live webviews and tells what the main thread has
/// to do for it.
pub fn apply<P: Platform>(views: &mut Webviews<P>, label: &str, op: WebviewOp<P>) -> (action:
    WebviewAction<P>)
    requires
        old(views).wf(),
        op is OnEvent && old(views)@.contains_key(label@) ==> old(
            views,
        )@[label@].next_handler_id < u32::MAX,
    ensures
        final(views).wf(),
        action == webview_action(old(views)@, label@, op),
        webviews_after(old(views)@, final(views)@, label@, op),
{
    let ghost before = views@;
    let entry = match views.get_mut(label) {
        Some(entry) => entry,
        None => return WebviewAction::UnknownWebview,
    };
    proof {
        assert(before.insert(label@, before[label@]) =~= before);
    }
    match op {
        WebviewOp::OnEvent { handler } => {
            let handler_id: WebviewEventId = entry.next_handler_id;
            entry.next_handler_id += 1;
            entry.handlers.insert(handler_id, handler);
            WebviewAction::Registered(handler_id)
        },
        WebviewOp::Url => WebviewAction::ReadUrl,
        WebviewOp::Navigate(url) => WebviewAction::Load(url),
        WebviewOp::Reload => WebviewAction::Reload,
        WebviewOp::GoBack => WebviewAction::GoBack(1),
        WebviewOp::GoForward => WebviewAction::ForwardUnavailable,
        WebviewOp::EvalScript { script } => WebviewAction::Evaluate(script),
        WebviewOp::EvalScriptWithCallback { script } => WebviewAction::EvaluateForReply(script),
        WebviewOp::RegisterIpc { command, handler } => WebviewAction::RegisterIpc {
            command,
            handler,
        },
        WebviewOp::Close | WebviewOp::Hide | WebviewOp::Show | WebviewOp::SetFocus => {
            WebviewAction::SingleView
        },
    }
}

/// The answer to a question for the address of a view, which may show none.
pub fn url_reply(url: Option<&Url>) -> (reply: Result<String, RuntimeError>)
    ensures
        reply matches Ok(text) && text@ == (match url {
            Some(url) => url_text(*url),
            None => Seq::<char>::empty(),
        }),
{
    match url {
        Some(url) => Ok(text_of_url(url).to_owned()),
        None => Ok(String::new()),
    }
}

/// Puts a handler into a dispatch table, in place of the one that its command
/// had. Without a table, as when a thread panicked while it held the table, the
/// handler is dropped.
pub fn register_ipc<H>(table: Option<&mut IpcRegistry<H>>, command: String, handler: H)
    requires
        table matches Some(table) ==> (*table).wf(),
    ensures
        table matches Some(table) ==> final(table).wf() && final(table)@ == (*table)@.insert(
            command@,
            handler,
        ),
{
    if let Some(table) = table {
        table.insert(command, handler);
    }
}

impl<P: Platform> WebviewEntry<P> {
    /// Every handler is stored under an id given out earlier.
    pub open spec fn ids_in_order(self) -> bool {
        forall|id: WebviewEventId| #[trigger]
            self.handlers@.contains_key(id) ==> id < self.next_handler_id
    }
}

/// An operation changes no webview but the one that it is for, and none at all
/// unless it stores a handler. Exactly the operations on webviews that are not
/// live come to nothing as unknown.
pub proof fn law_operations_keep_other_webviews<P: Platform>(
    before: Map<Seq<char>, WebviewEntry<P>>,
    after: Map<Seq<char>, WebviewEntry<P>>,
    label: Seq<char>,
    op: WebviewOp<P>,
    other: Seq<char>,
)
    requires
        webviews_after(before, after, label, op),
    ensures
        after.dom() == before.dom(),
        other != label && before.contains_key(other) ==> after[other] == before[other],
        op !is OnEvent ==> after == before,
        !before.contains_key(label) ==> after == before,
        webview_action(before, label, op) is UnknownWebview <==> !before.contains_key(label),
        op matches WebviewOp::OnEvent { handler } ==> before.contains_key(label) ==> {
            let entry = before[label];
            &&& webview_action(before, label, op) == WebviewAction::<P>::Registered(
                entry.next_handler_id,
            )
            &&& after[label].label == entry.label
            &&& after[label].window_id == entry.window_id
            &&& after[label].view == entry.view
            &&& after[label].ipc == entry.ipc
            &&& after[label].handlers@ == entry.handlers@.insert(entry.next_handler_id, handler)
            &&& after[label].next_handler_id == entry.next_handler_id + 1
        },
{
    assert(after.dom() =~= before.dom());
}

/// A handler that is stored gets an id of its own and replaces no other handler.
pub proof fn law_webview_handlers_are_kept<P: Platform>(
    before: WebviewEntry<P>,
    after: WebviewEntry<P>,
    handler: P::WebviewHandler,
    earlier: WebviewEventId,
)
    requires
        before.ids_in_order(),
        handler_added(before, after, handler),
    ensures
        after.ids_in_order(),
        !before.handlers@.contains_key(before.next_handler_id),
        after.handlers@.contains_key(before.next_handler_id),
        after.handlers@[before.next_handler_id] == handler,
        before.handlers@.contains_key(earlier) ==> after.handlers@.contains_key(earlier)
            && after.handlers@[earlier] == before.handlers@[earlier],
        after.handlers@.contains_key(earlier) ==> earlier == before.next_handler_id
            || before.handlers@.contains_key(earlier),
        after.label == before.label,
        after.window_id == before.window_id,
        after.view == before.view,
        after.ipc == before.ipc,
{
}

/// On a live webview, an address is loaded as it was asked for, a script is run as
/// it is, with a reply only where one was asked for, a handler is registered for
/// its command, the history goes back by one step, and what a view that fills its
/// window cannot do does nothing.
pub proof fn law_webview_operations_do_what_is_asked<P: Platform>(
    views: Map<Seq<char>, WebviewEntry<P>>,
    label: Seq<char>,
    url: Url,
    script: String,
    command: String,
    handler: P::CommandHandler,
)
    requires
        views.contains_key(label),
    ensures
        webview_action(views, label, WebviewOp::Url) == WebviewAction::<P>::ReadUrl,
        webview_action(views, label, WebviewOp::Navigate(url)) == WebviewAction::<P>::Load(url),
        webview_action(views, label, WebviewOp::Reload) == WebviewAction::<P>::Reload,
        webview_action(views, label, WebviewOp::GoBack) == WebviewAction::<P>::GoBack(1),
        webview_action(views, label, WebviewOp::GoForward)
            == WebviewAction::<P>::ForwardUnavailable,
        webview_action(views, label, WebviewOp::EvalScript { script })
            == WebviewAction::<P>::Evaluate(
            script,
        ),
        webview_action(views, label, WebviewOp::EvalScriptWithCallback { script })
            == WebviewAction::<P>::EvaluateForReply(script),
        webview_action(views, label, WebviewOp::RegisterIpc { command, handler })
            == (WebviewAction::<P>::RegisterIpc { command, handler }),
        webview_action(views, label, WebviewOp::Close) == WebviewAction::<P>::SingleView,
        webview_action(views, label, WebviewOp::Hide) == WebviewAction::<P>::SingleView,
        webview_action(views, label, WebviewOp::Show) == WebviewAction::<P>::SingleView,
        webview_action(views, label, WebviewOp::SetFocus) == WebviewAction::<P>::SingleView,
{
}

/// The webviews of a window are those whose entry names it.
pub proof fn law_webviews_of_a_window<P: Platform>(
    views: Webviews<P>,
    label: Seq<char>,
    window_id: WindowId,
)
    ensures
        views.is_of_window(label, window_id) <==> views@.contains_key(label)
            && views@[label].window_id == window_id,
{
}

} // verus!
