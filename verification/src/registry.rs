//! The slot that binds one window procedure to the platform's callback.
//!
//! The platform calls a single, statically known function for every message
//! of a window class. That function, the trampoline, looks into the slot: the
//! handler found there gets the message. The handler lives in the slot from
//! registration until the window is destroyed, and is released by nothing
//! else.

use vstd::prelude::*;
use std::rc::Rc;

verus! {

/// Sent when a window is being destroyed.
pub const WM_DESTROY: u32 = 0x0002;

/// The place of the one live window procedure.
///
/// The slot shares the handler with the calls of it that are under way: a
/// handler that is released while it runs lives until it returns.
pub struct HandlerSlot<F> {
    handler: Option<Rc<F>>,
}

/// What the trampoline does with a message.
pub enum Routed<F> {
    /// The window is gone: ask the message loop to end, and answer the
    /// platform with zero. `released` says whether this message took a
    /// handler out of the slot.
    Quit { released: bool },
    /// Call this handler with the message and answer the platform with what
    /// it returns.
    Forward { handler: Rc<F> },
    /// No handler is registered: leave the message to the platform.
    Default,
}

impl<F> HandlerSlot<F> {
    /// The handler in the slot, if there is one.
    pub closed spec fn handler(&self) -> Option<Rc<F>> {
        self.handler
    }

    /// An empty slot.
    pub fn new() -> (slot: Self)
        ensures
            slot.handler() is None,
    {
        HandlerSlot { handler: None }
    }

    /// Whether a handler is registered.
    pub fn is_registered(&self) -> (registered: bool)
        ensures
            registered == self.handler() is Some,
    {
        self.handler.is_some()
    }
}

/// `Rc::clone`: one more pointer to the same handler.
#[verifier::external_body]
fn share<F>(handler: &Rc<F>) -> (shared: Rc<F>)
    ensures
        shared == *handler,
{
    Rc::clone(handler)
}

/// The slot's content once the trampoline has routed `msg`.
pub open spec fn slot_after<F>(handler: Option<Rc<F>>, msg: u32) -> Option<Rc<F>> {
    if msg == WM_DESTROY {
        None
    } else {
        handler
    }
}

/// Whether routing `msg` releases a handler.
pub open spec fn releases<F>(handler: Option<Rc<F>>, msg: u32) -> bool {
    msg == WM_DESTROY && handler is Some
}

/// The slot's content once the trampoline has routed `msgs`, first to last.
pub open spec fn slot_after_all<F>(handler: Option<Rc<F>>, msgs: Seq<u32>) -> Option<Rc<F>>
    decreases msgs.len(),
{
    if msgs.len() == 0 {
        handler
    } else {
        slot_after_all(slot_after(handler, msgs[0]), msgs.drop_first())
    }
}

/// How many handlers the trampoline releases while it routes `msgs`.
pub open spec fn release_count<F>(handler: Option<Rc<F>>, msgs: Seq<u32>) -> nat
    decreases msgs.len(),
{
    if msgs.len() == 0 {
        0
    } else {
        let rest = release_count(slot_after(handler, msgs[0]), msgs.drop_first());
        if releases(handler, msgs[0]) {
            rest + 1
        } else {
            rest
        }
    }
}

/// Makes `f` the window procedure. A handler that was in the slot before is
/// handed back unreleased; it gets no further message.
pub fn as_global_wnd_proc<F: Fn(usize, u32, usize, isize) -> isize>(
    slot: &mut HandlerSlot<F>,
    f: F,
) -> (displaced: Option<Rc<F>>)
    ensures
        final(slot).handler() == Some(Rc::new(f)),
        displaced == old(slot).handler(),
{
    let displaced = slot.handler.take();
    slot.handler = Some(Rc::new(f));
    displaced
}

/// What the trampoline answers to `msg` with `handler` in the slot.
pub open spec fn routed<F>(handler: Option<Rc<F>>, msg: u32) -> Routed<F> {
    if msg == WM_DESTROY {
        Routed::Quit { released: releases(handler, msg) }
    } else {
        match handler {
            Some(h) => Routed::Forward { handler: h },
            None => Routed::Default,
        }
    }
}

/// The trampoline: routes one message.
///
/// The destroy notification never reaches the handler. It empties the slot,
/// which releases the handler, and ends the message loop. Every other message
/// goes to the handler if there is one, and to the platform's default
/// handling if there is none.
pub fn wnd_proc<F>(slot: &mut HandlerSlot<F>, msg: u32) -> (answer: Routed<F>)
    ensures
        final(slot).handler() == slot_after(old(slot).handler(), msg),
        answer == routed(old(slot).handler(), msg),
{
    if msg == WM_DESTROY {
        let released = slot.handler.take();
        return Routed::Quit { released: released.is_some() };
    }
    match &slot.handler {
        Some(handler) => Routed::Forward { handler: share(handler) },
        None => Routed::Default,
    }
}

/// A registered handler is released exactly once if the window is ever
/// destroyed, and not at all if it never is; with no handler registered
/// nothing is released. Whatever else is routed before, between or after
/// changes nothing in that.
pub proof fn lemma_released_exactly_once<F>(handler: Option<Rc<F>>, msgs: Seq<u32>)
    ensures
        release_count(handler, msgs) == (if handler is Some && msgs.contains(WM_DESTROY) {
            1nat
        } else {
            0nat
        }),
        slot_after_all(handler, msgs) == (if msgs.contains(WM_DESTROY) {
            None
        } else {
            handler
        }),
    decreases msgs.len(),
{
    if msgs.len() > 0 {
        let rest = msgs.drop_first();
        lemma_released_exactly_once(slot_after(handler, msgs[0]), rest);
        assert(msgs.contains(WM_DESTROY) <==> msgs[0] == WM_DESTROY || rest.contains(WM_DESTROY))
            by {
            if rest.contains(WM_DESTROY) {
                let i = choose|i: int| 0 <= i < rest.len() && rest[i] == WM_DESTROY;
                assert(msgs[i + 1] == WM_DESTROY);
            }
            if msgs.contains(WM_DESTROY) && msgs[0] != WM_DESTROY {
                let i = choose|i: int| 0 <= i < msgs.len() && msgs[i] == WM_DESTROY;
                assert(rest[i - 1] == WM_DESTROY);
            }
        }
    }
}

} // verus!
