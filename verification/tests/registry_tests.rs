use std::cell::Cell;
use std::rc::Rc;
use webview_host::registry::{as_global_wnd_proc, wnd_proc, HandlerSlot, Routed, WM_DESTROY};

type Handler = Box<dyn Fn(usize, u32, usize, isize) -> isize>;

struct CountsDrops {
    drops: Rc<Cell<u32>>,
}

impl Drop for CountsDrops {
    fn drop(&mut self) {
        self.drops.set(self.drops.get() + 1);
    }
}

/// What a trampoline does with the library's answer; the platform's default
/// handling answers -1 here and a quit request answers 0.
fn deliver(slot: &mut HandlerSlot<Handler>, hwnd: usize, msg: u32, w: usize, l: isize) -> isize {
    match wnd_proc(slot, msg) {
        Routed::Quit { .. } => 0,
        Routed::Forward { handler } => handler(hwnd, msg, w, l),
        Routed::Default => -1,
    }
}

#[test]
fn an_empty_slot_leaves_every_message_to_the_platform() {
    let mut slot: HandlerSlot<Handler> = HandlerSlot::new();
    assert!(!slot.is_registered());
    assert!(matches!(wnd_proc(&mut slot, 0x0005), Routed::Default));
    assert!(matches!(wnd_proc(&mut slot, 0x8001), Routed::Default));
    assert!(!slot.is_registered());
}

#[test]
fn the_registered_handler_gets_the_message() {
    let mut slot: HandlerSlot<Handler> = HandlerSlot::new();
    let displaced = as_global_wnd_proc(
        &mut slot,
        Box::new(|hwnd: usize, msg: u32, w: usize, l: isize| {
            (hwnd as isize) * 1000 + (msg as isize) * 100 + (w as isize) * 10 + l
        }),
    );
    assert!(displaced.is_none());
    assert!(slot.is_registered());
    assert_eq!(deliver(&mut slot, 4, 3, 2, 1), 4321);
    assert_eq!(deliver(&mut slot, 1, 5, 0, -7), 1493);
    assert!(slot.is_registered());
}

#[test]
fn destroy_releases_the_handler_once_and_never_reaches_it() {
    let drops = Rc::new(Cell::new(0));
    let calls = Rc::new(Cell::new(0));
    let guard = CountsDrops { drops: drops.clone() };
    let seen = calls.clone();
    let mut slot: HandlerSlot<Handler> = HandlerSlot::new();
    as_global_wnd_proc(
        &mut slot,
        Box::new(move |_hwnd: usize, _msg: u32, _w: usize, _l: isize| {
            let _keep = &guard;
            seen.set(seen.get() + 1);
            7isize
        }),
    );
    assert_eq!(deliver(&mut slot, 1, 0x0003, 0, 0), 7);
    assert_eq!(calls.get(), 1);
    assert_eq!(drops.get(), 0);

    assert!(matches!(wnd_proc(&mut slot, WM_DESTROY), Routed::Quit { released: true }));
    assert_eq!(calls.get(), 1);
    assert_eq!(drops.get(), 1);
    assert!(!slot.is_registered());

    assert_eq!(deliver(&mut slot, 1, 0x0003, 0, 0), -1);
    assert!(matches!(wnd_proc(&mut slot, WM_DESTROY), Routed::Quit { released: false }));
    assert_eq!(calls.get(), 1);
    assert_eq!(drops.get(), 1);
}

#[test]
fn a_handler_that_is_released_while_it_runs_lives_until_it_returns() {
    let drops = Rc::new(Cell::new(0));
    let guard = CountsDrops { drops: drops.clone() };
    let mut slot: HandlerSlot<Handler> = HandlerSlot::new();
    as_global_wnd_proc(
        &mut slot,
        Box::new(move |_h: usize, _m: u32, _w: usize, _l: isize| {
            let _keep = &guard;
            5isize
        }),
    );
    let running = match wnd_proc(&mut slot, 0x0005) {
        Routed::Forward { handler } => handler,
        _ => panic!("the handler was expected"),
    };
    // The window is destroyed while the handler is under way.
    assert!(matches!(wnd_proc(&mut slot, WM_DESTROY), Routed::Quit { released: true }));
    assert!(!slot.is_registered());
    assert_eq!(drops.get(), 0);
    assert_eq!(running(1, 0x0005, 0, 0), 5);
    drop(running);
    assert_eq!(drops.get(), 1);
}

#[test]
fn registering_again_hands_the_earlier_handler_back_unreleased() {
    let drops = Rc::new(Cell::new(0));
    let guard = CountsDrops { drops: drops.clone() };
    let mut slot: HandlerSlot<Handler> = HandlerSlot::new();
    as_global_wnd_proc(
        &mut slot,
        Box::new(move |_h: usize, _m: u32, _w: usize, _l: isize| {
            let _keep = &guard;
            1isize
        }),
    );
    let displaced = as_global_wnd_proc(
        &mut slot,
        Box::new(|_h: usize, _m: u32, _w: usize, _l: isize| 2isize),
    );
    assert_eq!(drops.get(), 0);
    assert_eq!(deliver(&mut slot, 1, 0x0005, 0, 0), 2);
    let earlier = displaced.expect("the earlier handler");
    assert_eq!(earlier(0, 0, 0, 0), 1);
    assert_eq!(drops.get(), 0);
    drop(earlier);
    assert_eq!(drops.get(), 1);
}
