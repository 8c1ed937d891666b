//! Handing work from any thread to the thread that owns the window.
//!
//! Whoever has work for the owning thread calls [`webview_dispatch`]. The
//! work joins the back of the instance's queue, and a message is posted to
//! the window. When the owning thread comes to that message it takes the
//! work at the front of the queue and runs it. The sender gives the work
//! away for good, and the receiver alone takes it out.

use vstd::prelude::*;
use crate::chrome::exit_state;
use crate::host::{HostState, WebView};
use crate::messages::{message_action, message_state, HostAction, Message};

verus! {

/// The message that tells the owning thread that work is waiting.
pub const WM_WEBVIEW_DISPATCH: u32 = 0x8001;

/// One piece of work: call `func` with `target` and `arg`. All three are
/// addresses that only the caller can make sense of.
#[derive(Debug, PartialEq, Eq, Structural)]
pub struct DispatchData {
    /// The instance that the work is for.
    pub target: usize,
    /// The function to call.
    pub func: usize,
    /// What to call it with.
    pub arg: usize,
}

/// A message to be posted to a window's queue.
#[derive(Clone, Copy, Debug, PartialEq, Eq, Structural)]
pub struct PostRequest {
    /// The window that the message is for.
    pub hwnd: usize,
    /// The message's number.
    pub msg: u32,
    /// Its first parameter.
    pub w_param: usize,
    /// Its second parameter.
    pub l_param: isize,
}

/// The instance once `data` was handed in: with a live window the work waits
/// at the back of the queue; without one it is dropped.
pub open spec fn dispatch_state(s: HostState, data: DispatchData) -> HostState {
    if s.stage.has_window() {
        HostState { pending: s.pending.push(data), ..s }
    } else {
        s
    }
}

/// The message that is to be posted once work was handed in; none where the
/// work was dropped.
pub open spec fn dispatch_post(s: HostState) -> Option<PostRequest> {
    if s.stage.has_window() {
        Some(PostRequest { hwnd: s.hwnd, msg: WM_WEBVIEW_DISPATCH, w_param: 0, l_param: 0 })
    } else {
        None
    }
}

/// Hands a piece of work to the owning thread: `func` will be called there
/// with `target` and `arg`.
///
/// The call only queues. Nothing is run by it, whichever thread it comes
/// from, the owning one included; the work is run when the owning thread
/// comes to the message that is posted for it. Nothing tells the sender that
/// it was. Work for an instance without a live window is dropped.
pub fn webview_dispatch(webview: &mut WebView, target: usize, func: usize, arg: usize) -> (post:
    Option<PostRequest>)
    ensures
        final(webview)@ == dispatch_state(old(webview)@, DispatchData { target, func, arg }),
        post == dispatch_post(old(webview)@),
        old(webview)@.wf() ==> final(webview)@.wf(),
{
    if webview.stage.has_window() {
        webview.pending.push_back(DispatchData { target, func, arg });
        Some(PostRequest { hwnd: webview.hwnd, msg: WM_WEBVIEW_DISPATCH, w_param: 0, l_param: 0 })
    } else {
        None
    }
}

/// The instance once every piece of `items` was handed in, first to last.
pub open spec fn dispatch_all(s: HostState, items: Seq<DispatchData>) -> HostState
    decreases items.len(),
{
    if items.len() == 0 {
        s
    } else {
        dispatch_all(dispatch_state(s, items[0]), items.drop_first())
    }
}

/// The instance once every message of `msgs` was handled, first to last.
pub open spec fn handle_all(s: HostState, msgs: Seq<Message>) -> HostState
    decreases msgs.len(),
{
    if msgs.len() == 0 {
        s
    } else {
        handle_all(message_state(s, msgs[0]), msgs.drop_first())
    }
}

/// The pieces of work that are run while `msgs` are handled, in the order in
/// which they are run.
pub open spec fn invoked(s: HostState, msgs: Seq<Message>) -> Seq<DispatchData>
    decreases msgs.len(),
{
    if msgs.len() == 0 {
        Seq::empty()
    } else {
        let rest = invoked(message_state(s, msgs[0]), msgs.drop_first());
        match message_action(s, msgs[0]) {
            HostAction::Invoke { data } => seq![data] + rest,
            _ => rest,
        }
    }
}

/// How many dispatch messages `msgs` holds.
pub open spec fn dispatch_messages(msgs: Seq<Message>) -> nat
    decreases msgs.len(),
{
    if msgs.len() == 0 {
        0
    } else if msgs[0].msg == WM_WEBVIEW_DISPATCH {
        1 + dispatch_messages(msgs.drop_first())
    } else {
        dispatch_messages(msgs.drop_first())
    }
}

/// Work handed to an instance with a live window joins the queue in the
/// order in which it was handed in, behind what waited there already.
pub proof fn lemma_dispatch_appends(s: HostState, items: Seq<DispatchData>)
    requires
        s.stage.has_window(),
    ensures
        dispatch_all(s, items) == (HostState { pending: s.pending + items, ..s }),
    decreases items.len(),
{
    if items.len() == 0 {
        assert(s.pending + items =~= s.pending);
    } else {
        let next = dispatch_state(s, items[0]);
        lemma_dispatch_appends(next, items.drop_first());
        assert(next.pending + items.drop_first() =~= s.pending + items);
    }
}

/// Pending work is run oldest first, one piece for each dispatch message,
/// and in no other order: whatever other messages come before, between or
/// after, what is run is a front part of the queue, and what is left is the
/// rest of it.
pub proof fn lemma_runs_in_queue_order(s: HostState, msgs: Seq<Message>)
    ensures
        ({
            let n = if dispatch_messages(msgs) <= s.pending.len() {
                dispatch_messages(msgs) as int
            } else {
                s.pending.len() as int
            };
            &&& invoked(s, msgs) == s.pending.take(n)
            &&& handle_all(s, msgs) == (HostState { pending: s.pending.skip(n), ..s })
        }),
    decreases msgs.len(),
{
    let n = if dispatch_messages(msgs) <= s.pending.len() {
        dispatch_messages(msgs) as int
    } else {
        s.pending.len() as int
    };
    if msgs.len() == 0 {
        assert(s.pending.take(0) =~= Seq::empty());
        assert(s.pending.skip(0) =~= s.pending);
    } else {
        let next = message_state(s, msgs[0]);
        let rest = msgs.drop_first();
        lemma_runs_in_queue_order(next, rest);
        let m = if dispatch_messages(rest) <= next.pending.len() {
            dispatch_messages(rest) as int
        } else {
            next.pending.len() as int
        };
        if msgs[0].msg == WM_WEBVIEW_DISPATCH && s.pending.len() > 0 {
            assert(n == m + 1);
            assert(seq![s.pending[0]] + next.pending.take(m) =~= s.pending.take(n));
            assert(next.pending.skip(m) =~= s.pending.skip(n));
        } else {
            assert(next == s);
            assert(n == m);
        }
    }
}

/// Work that is handed in as A, B, C is run as A, B, C: once the queue was
/// empty and the window live, handling any messages afterwards runs a front
/// part of what was handed in, and as many dispatch messages as pieces of
/// work run all of it.
pub proof fn lemma_dispatch_order_kept(s: HostState, items: Seq<DispatchData>, msgs: Seq<Message>)
    requires
        s.stage.has_window(),
        s.pending.len() == 0,
    ensures
        invoked(dispatch_all(s, items), msgs).is_prefix_of(items),
        dispatch_messages(msgs) >= items.len() ==> invoked(dispatch_all(s, items), msgs) == items,
{
    lemma_dispatch_appends(s, items);
    assert(s.pending + items =~= items);
    lemma_runs_in_queue_order(dispatch_all(s, items), msgs);
    if dispatch_messages(msgs) >= items.len() {
        assert(items.take(items.len() as int) =~= items);
    }
}

/// Handing work in runs nothing: what waits afterwards is what waited
/// before and the new piece behind it, and only a dispatch message that is
/// handled later takes it out.
pub proof fn lemma_dispatch_is_deferred(s: HostState, data: DispatchData)
    requires
        s.stage.has_window(),
    ensures
        dispatch_state(s, data).pending == s.pending.push(data),
        dispatch_state(s, data).pending.len() == s.pending.len() + 1,
        message_action(
            dispatch_state(s, data),
            Message { msg: WM_WEBVIEW_DISPATCH, w_param: 0 },
        ) is Invoke,
        s.pending.len() == 0 ==> message_action(
            dispatch_state(s, data),
            Message { msg: WM_WEBVIEW_DISPATCH, w_param: 0 },
        ) == (HostAction::Invoke { data }),
{
}

/// Work for an instance whose window is gone is dropped, and the instance
/// stays as it is: no message is posted and nothing is queued.
pub proof fn lemma_dispatch_without_window(s: HostState, data: DispatchData)
    requires
        !s.stage.has_window(),
    ensures
        dispatch_state(s, data) == s,
        dispatch_post(s) is None,
{
}

/// Once the host has had the window destroyed, work that is handed in for
/// the instance is dropped, however often that is tried: the instance stays
/// as the exit left it, no message is posted, and what still waited in the
/// queue is neither run nor lost.
pub proof fn lemma_dispatch_after_exit(s: HostState, items: Seq<DispatchData>)
    ensures
        !exit_state(s).stage.has_window(),
        dispatch_post(exit_state(s)) is None,
        dispatch_all(exit_state(s), items) == exit_state(s),
        exit_state(s).pending == s.pending,
    decreases items.len(),
{
    if items.len() > 0 {
        lemma_dispatch_after_exit(s, items.drop_first());
    }
}

} // verus!
