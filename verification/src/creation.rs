//! Setting an instance up, step by step.
//!
//! The platform calls of setting up are made by the embedding program. After
//! each of them it reports what came back, and [`creation_step`] decides what
//! is done next: register the window class, ask how much room the frame
//! takes, create the window, show it and start the engine.

use vstd::prelude::*;
use crate::geometry::{
    centered, centered_spec, effective_dpi, effective_dpi_spec, fits_centered,
    lemma_centered_is_centered, lemma_scale_round_trip, magnitude, mul_div_spec,
    scaled_client_rect, scaled_client_rect_spec, Rect,
};
use crate::host::{HostState, Stage, WebView};
use crate::style::{has_bits, initial_style, initial_style_spec, lacks_bits, lemma_initial_style_bits, FRAME_BITS, WS_SIZEBOX};
use crate::window::ShowMode;

verus! {

/// What the embedding program reports while an instance is set up.
#[derive(Clone, Copy, Debug, PartialEq, Eq, Structural)]
pub enum CreationEvent {
    /// The window class was registered, with `atom` as the platform's answer
    /// (zero: it failed), and the system's DPI was asked for (zero: no
    /// answer).
    ClassRegistered { atom: u16, dpi: u32 },
    /// The platform has turned the client rectangle into the window's outer
    /// rectangle `outer`; `work_area` is the primary desktop without the
    /// taskbar.
    FrameAdjusted { outer: Rect, work_area: Rect },
    /// The window was created, with `hwnd` as its handle (zero: it failed).
    WindowCreated { hwnd: usize },
    /// The engine was asked to start, and accepted (`ok`) or refused.
    EngineStarted { ok: bool },
}

/// What the embedding program is to do next.
#[derive(Clone, Copy, Debug, PartialEq, Eq, Structural)]
pub enum CreationAction {
    /// Have the platform add the frame that goes with `style` around
    /// `client`, and read the desktop's work area.
    AdjustFrame { client: Rect, style: u32 },
    /// Create the window with these style bits and bounds.
    CreateWindow { style: u32, x: i32, y: i32, cx: i32, cy: i32 },
    /// Set the window's style bits once more, show it in the given mode,
    /// repaint it, and start the engine.
    Present { style: u32, show: ShowMode },
    /// The instance is ready: hand it to the caller.
    Finish,
    /// Give up: the caller gets no instance.
    Abort,
}

/// The instance after `event`, and what is to be done next.
///
/// An event that the current stage does not wait for leaves the instance as
/// it is and is answered with [`CreationAction::Abort`].
pub open spec fn creation_next(s: HostState, event: CreationEvent) -> (HostState, CreationAction) {
    match (s.stage, event) {
        (Stage::ClassPending, CreationEvent::ClassRegistered { atom, dpi }) => if atom == 0 {
            (HostState { stage: Stage::Failed, ..s }, CreationAction::Abort)
        } else {
            (
                HostState { stage: Stage::FramePending, ..s },
                CreationAction::AdjustFrame {
                    client: scaled_client_rect_spec(
                        s.config.width,
                        s.config.height,
                        effective_dpi_spec(dpi),
                    ),
                    style: initial_style_spec(s.config.resizable, s.config.frameless),
                },
            )
        },
        (Stage::FramePending, CreationEvent::FrameAdjusted { outer, work_area }) => {
            let placed = centered_spec(outer, work_area);
            (
                HostState { stage: Stage::WindowPending, ..s },
                CreationAction::CreateWindow {
                    style: initial_style_spec(s.config.resizable, s.config.frameless),
                    x: placed.left,
                    y: placed.top,
                    cx: placed.spec_width(),
                    cy: placed.spec_height(),
                },
            )
        },
        (Stage::WindowPending, CreationEvent::WindowCreated { hwnd }) => if hwnd == 0 {
            (HostState { stage: Stage::Failed, ..s }, CreationAction::Abort)
        } else {
            (
                HostState { stage: Stage::EnginePending, hwnd, ..s },
                CreationAction::Present {
                    style: initial_style_spec(s.config.resizable, s.config.frameless),
                    show: if s.config.visible {
                        ShowMode::ShowDefault
                    } else {
                        ShowMode::Hide
                    },
                },
            )
        },
        (Stage::EnginePending, CreationEvent::EngineStarted { ok }) => if ok {
            (HostState { stage: Stage::Running, ..s }, CreationAction::Finish)
        } else {
            (HostState { stage: Stage::Failed, ..s }, CreationAction::Abort)
        },
        _ => (s, CreationAction::Abort),
    }
}

/// Takes the instance one step further in setting up.
pub fn creation_step(webview: &mut WebView, event: CreationEvent) -> (action: CreationAction)
    ensures
        (final(webview)@, action) == creation_next(old(webview)@, event),
        old(webview)@.wf() ==> final(webview)@.wf(),
{
    match (webview.stage, event) {
        (Stage::ClassPending, CreationEvent::ClassRegistered { atom, dpi }) => {
            if atom == 0 {
                webview.stage = Stage::Failed;
                CreationAction::Abort
            } else {
                webview.stage = Stage::FramePending;
                CreationAction::AdjustFrame {
                    client: scaled_client_rect(
                        webview.config.width,
                        webview.config.height,
                        effective_dpi(dpi),
                    ),
                    style: initial_style(webview.config.resizable, webview.config.frameless),
                }
            }
        },
        (Stage::FramePending, CreationEvent::FrameAdjusted { outer, work_area }) => {
            let placed = centered(outer, work_area);
            webview.stage = Stage::WindowPending;
            CreationAction::CreateWindow {
                style: initial_style(webview.config.resizable, webview.config.frameless),
                x: placed.left,
                y: placed.top,
                cx: placed.width(),
                cy: placed.height(),
            }
        },
        (Stage::WindowPending, CreationEvent::WindowCreated { hwnd }) => {
            if hwnd == 0 {
                webview.stage = Stage::Failed;
                CreationAction::Abort
            } else {
                webview.stage = Stage::EnginePending;
                webview.hwnd = hwnd;
                CreationAction::Present {
                    style: initial_style(webview.config.resizable, webview.config.frameless),
                    show: if webview.config.visible {
                        ShowMode::ShowDefault
                    } else {
                        ShowMode::Hide
                    },
                }
            }
        },
        (Stage::EnginePending, CreationEvent::EngineStarted { ok }) => {
            if ok {
                webview.stage = Stage::Running;
                CreationAction::Finish
            } else {
                webview.stage = Stage::Failed;
                CreationAction::Abort
            }
        },
        _ => CreationAction::Abort,
    }
}

/// Whether a logical extent can be scaled to `dpi` and back without leaving
/// 32 bits: it stays below the largest 32-bit value, and so does what it
/// scales to.
pub open spec fn scalable(logical: i32, dpi: i32) -> bool {
    &&& magnitude(logical as int) < i32::MAX
    &&& magnitude(logical as int) * dpi + 48 < 96 * 0x8000_0000
}

/// The client area that a new window is asked to have, converted back
/// through the DPI it was scaled with, is the logical size that the instance
/// was made with, to within one pixel each way, and exactly so at the
/// nominal DPI and above. Resizable or not, frameless or not makes no
/// difference to it.
pub proof fn lemma_client_area_matches_logical_size(s: HostState, atom: u16, dpi: u32)
    requires
        s.stage == Stage::ClassPending,
        atom != 0,
        effective_dpi_spec(dpi) >= 33,
        scalable(s.config.width, effective_dpi_spec(dpi)),
        scalable(s.config.height, effective_dpi_spec(dpi)),
    ensures
        ({
            let scale = effective_dpi_spec(dpi) as int;
            let action = creation_next(s, CreationEvent::ClassRegistered { atom, dpi }).1;
            &&& action is AdjustFrame
            &&& action->client.left == 0
            &&& action->client.top == 0
            &&& -1 <= mul_div_spec(action->client.right as int, 96, scale) - s.config.width <= 1
            &&& -1 <= mul_div_spec(action->client.bottom as int, 96, scale) - s.config.height
                <= 1
            &&& scale >= 96 ==> mul_div_spec(action->client.right as int, 96, scale)
                == s.config.width
            &&& scale >= 96 ==> mul_div_spec(action->client.bottom as int, 96, scale)
                == s.config.height
        }),
{
    let scale = effective_dpi_spec(dpi);
    lemma_scale_round_trip(s.config.width, scale);
    lemma_scale_round_trip(s.config.height, scale);
}

/// The window is created in the middle of the work area: its corner is the
/// work area's corner, plus half the work area's extent, less half its own,
/// and its extent is the outer one that the platform gave. Where the work
/// area begins, at the screen's corner or beside a taskbar, makes no
/// difference to that.
pub proof fn lemma_created_in_the_middle(s: HostState, outer: Rect, work_area: Rect)
    requires
        s.stage == Stage::FramePending,
        fits_centered(outer, work_area),
    ensures
        ({
            let action = creation_next(s, CreationEvent::FrameAdjusted { outer, work_area }).1;
            &&& action is CreateWindow
            &&& action->x == work_area.left + (work_area.right - work_area.left) / 2 - (outer.right
                - outer.left) / 2
            &&& action->y == work_area.top + (work_area.bottom - work_area.top) / 2 - (outer.bottom
                - outer.top) / 2
            &&& action->cx == outer.right - outer.left
            &&& action->cy == outer.bottom - outer.top
        }),
{
    lemma_centered_is_centered(outer, work_area);
}

/// The window is created, and presented, with the sizing border exactly if
/// the instance is resizable, and with caption, window menu and buttons
/// exactly if it is not frameless.
pub proof fn lemma_created_style(s: HostState, event: CreationEvent)
    ensures
        ({
            let action = creation_next(s, event).1;
            let style = match action {
                CreationAction::AdjustFrame { style, .. } => Some(style),
                CreationAction::CreateWindow { style, .. } => Some(style),
                CreationAction::Present { style, .. } => Some(style),
                _ => None,
            };
            style matches Some(bits) ==> {
                &&& s.config.resizable ==> has_bits(bits, WS_SIZEBOX)
                &&& !s.config.resizable ==> lacks_bits(bits, WS_SIZEBOX)
                &&& s.config.frameless ==> lacks_bits(bits, FRAME_BITS)
                &&& !s.config.frameless ==> has_bits(bits, FRAME_BITS)
            }
        }),
{
    lemma_initial_style_bits(s.config.resizable, s.config.frameless);
}

/// Setting up changes the stage and the window handle and nothing else. It
/// gives the instance its handle at most once, and never takes a handle
/// away or replaces it.
pub proof fn lemma_handle_assigned_once(s: HostState, event: CreationEvent)
    ensures
        creation_next(s, event).0.config == s.config,
        creation_next(s, event).0.chrome == s.chrome,
        creation_next(s, event).0.controller == s.controller,
        creation_next(s, event).0.pending == s.pending,
        s.wf() && s.hwnd != 0 ==> creation_next(s, event).0.hwnd == s.hwnd,
        s.wf() ==> creation_next(s, event).0.wf(),
{
}

} // verus!
