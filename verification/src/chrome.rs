//! Maximize, minimize and fullscreen: what is saved on the way in, and what
//! is restored on the way out.

use vstd::prelude::*;
use crate::geometry::Rect;
use crate::host::{HostState, Stage, WebView};
use crate::style::{
    fullscreen_ex_style, fullscreen_ex_style_spec, fullscreen_style, fullscreen_style_spec,
};
use crate::window::{ShowMode, WindowCommand, WindowState, PLACE_REFRAMED};

verus! {

/// What the host remembers of its window's chrome.
///
/// Maximized and minimized are asked of the platform each time and not kept
/// here. The saved fields mean something only between a transition and the
/// one that reverses it.
#[derive(Clone, Copy, Debug, PartialEq, Eq, Structural)]
pub struct Chrome {
    /// Whether the host has put the window into fullscreen.
    pub is_fullscreen: bool,
    /// The style bits from before fullscreen.
    pub saved_style: u32,
    /// The extended style bits from before fullscreen.
    pub saved_ex_style: u32,
    /// The bounds from before fullscreen, or from before maximizing.
    pub saved_rect: Rect,
}

/// The command that puts the window where `rect` is, after a change of frame.
pub open spec fn place_at(rect: Rect) -> WindowCommand {
    WindowCommand::Place {
        x: rect.left,
        y: rect.top,
        cx: rect.spec_width(),
        cy: rect.spec_height(),
        flags: PLACE_REFRAMED,
    }
}

impl Chrome {
    /// Nothing saved, not fullscreen.
    pub open spec fn initial() -> Chrome {
        Chrome {
            is_fullscreen: false,
            saved_style: 0,
            saved_ex_style: 0,
            saved_rect: Rect { left: 0, top: 0, right: 0, bottom: 0 },
        }
    }

    /// What is remembered once `fullscreen` was asked for, of a window that
    /// the platform reports as `window`.
    pub open spec fn fullscreen_chrome(self, fullscreen: bool, window: WindowState) -> Chrome {
        if fullscreen == self.is_fullscreen {
            self
        } else if fullscreen {
            Chrome {
                is_fullscreen: true,
                saved_style: window.style,
                saved_ex_style: window.ex_style,
                saved_rect: window.rect,
            }
        } else {
            Chrome { is_fullscreen: false, ..self }
        }
    }

    /// What the platform is asked to do once `fullscreen` was asked for.
    ///
    /// Entering strips caption and borders from what the window has now and
    /// stretches it over `monitor`; leaving puts back what entering saved.
    pub open spec fn fullscreen_commands(
        self,
        fullscreen: bool,
        window: WindowState,
        monitor: Rect,
    ) -> Seq<WindowCommand> {
        if fullscreen == self.is_fullscreen {
            Seq::empty()
        } else if fullscreen {
            seq![
                WindowCommand::SetStyle { style: fullscreen_style_spec(window.style) },
                WindowCommand::SetExStyle { ex_style: fullscreen_ex_style_spec(window.ex_style) },
                place_at(monitor),
            ]
        } else {
            seq![
                WindowCommand::SetStyle { style: self.saved_style },
                WindowCommand::SetExStyle { ex_style: self.saved_ex_style },
                place_at(self.saved_rect),
            ]
        }
    }

    /// What is remembered once `maximize` was asked for.
    pub open spec fn maximized_chrome(self, maximize: bool, window: WindowState) -> Chrome {
        if maximize && !window.maximized {
            Chrome { saved_rect: window.rect, ..self }
        } else {
            self
        }
    }

    /// What the platform is asked to do once `maximize` was asked for.
    ///
    /// Maximizing fills `work_area`, the desktop without the taskbar;
    /// restoring goes back to the bounds that maximizing saved.
    pub open spec fn maximized_commands(
        self,
        maximize: bool,
        window: WindowState,
        work_area: Rect,
    ) -> Seq<WindowCommand> {
        if maximize == window.maximized {
            Seq::empty()
        } else if maximize {
            seq![WindowCommand::Show { mode: ShowMode::Maximize }, place_at(work_area)]
        } else {
            seq![WindowCommand::Show { mode: ShowMode::Restore }, place_at(self.saved_rect)]
        }
    }
}

/// What the platform is asked to do once `minimize` was asked for. The
/// platform keeps a minimized window's bounds by itself, so nothing is saved.
pub open spec fn minimized_commands(minimize: bool, window: WindowState) -> Seq<WindowCommand> {
    if minimize == window.minimized {
        Seq::empty()
    } else if minimize {
        seq![WindowCommand::Show { mode: ShowMode::Minimize }]
    } else {
        seq![WindowCommand::Show { mode: ShowMode::Restore }]
    }
}

/// The command that shows or hides the window.
pub open spec fn visible_command(visible: bool) -> WindowCommand {
    if visible {
        WindowCommand::Show { mode: ShowMode::Show }
    } else {
        WindowCommand::Show { mode: ShowMode::Hide }
    }
}

fn place_command(rect: Rect) -> (command: WindowCommand)
    ensures
        command == place_at(rect),
{
    WindowCommand::Place {
        x: rect.left,
        y: rect.top,
        cx: rect.width(),
        cy: rect.height(),
        flags: PLACE_REFRAMED,
    }
}

/// Puts the window into fullscreen, or takes it out again.
///
/// `window` is what the platform reports of the window now, and `monitor`
/// the full bounds of the monitor nearest to it. The commands that come
/// back are to be carried out in order. Asking for what already is the case
/// does nothing.
pub fn webview_set_fullscreen(
    webview: &mut WebView,
    fullscreen: bool,
    window: &WindowState,
    monitor: Rect,
) -> (commands: Vec<WindowCommand>)
    ensures
        commands@ == old(webview)@.chrome.fullscreen_commands(fullscreen, *window, monitor),
        final(webview)@ == (HostState {
            chrome: old(webview)@.chrome.fullscreen_chrome(fullscreen, *window),
            ..old(webview)@
        }),
        old(webview)@.wf() ==> final(webview)@.wf(),
{
    let mut commands: Vec<WindowCommand> = Vec::new();
    if fullscreen == webview.chrome.is_fullscreen {
        return commands;
    }
    if fullscreen {
        webview.chrome = Chrome {
            is_fullscreen: true,
            saved_style: window.style,
            saved_ex_style: window.ex_style,
            saved_rect: window.rect,
        };
        commands.push(WindowCommand::SetStyle { style: fullscreen_style(window.style) });
        commands.push(WindowCommand::SetExStyle { ex_style: fullscreen_ex_style(window.ex_style) });
        commands.push(place_command(monitor));
    } else {
        webview.chrome.is_fullscreen = false;
        commands.push(WindowCommand::SetStyle { style: webview.chrome.saved_style });
        commands.push(WindowCommand::SetExStyle { ex_style: webview.chrome.saved_ex_style });
        commands.push(place_command(webview.chrome.saved_rect));
    }
    assert(commands@ =~= old(webview)@.chrome.fullscreen_commands(fullscreen, *window, monitor));
    commands
}

/// Maximizes the window, or restores it.
///
/// `window` is what the platform reports of the window now, and `work_area`
/// the desktop without the taskbar. The commands that come back are to be
/// carried out in order. Asking for what already is the case does nothing.
pub fn webview_set_maximized(
    webview: &mut WebView,
    maximize: bool,
    window: &WindowState,
    work_area: Rect,
) -> (commands: Vec<WindowCommand>)
    ensures
        commands@ == old(webview)@.chrome.maximized_commands(maximize, *window, work_area),
        final(webview)@ == (HostState {
            chrome: old(webview)@.chrome.maximized_chrome(maximize, *window),
            ..old(webview)@
        }),
        old(webview)@.wf() ==> final(webview)@.wf(),
{
    let mut commands: Vec<WindowCommand> = Vec::new();
    if maximize == window.maximized {
        return commands;
    }
    if maximize {
        webview.chrome.saved_rect = window.rect;
        commands.push(WindowCommand::Show { mode: ShowMode::Maximize });
        commands.push(place_command(work_area));
    } else {
        commands.push(WindowCommand::Show { mode: ShowMode::Restore });
        commands.push(place_command(webview.chrome.saved_rect));
    }
    assert(commands@ =~= old(webview)@.chrome.maximized_commands(maximize, *window, work_area));
    commands
}

/// Minimizes the window, or restores it. Asking for what already is the
/// case does nothing.
pub fn webview_set_minimized(minimize: bool, window: &WindowState) -> (commands: Vec<
    WindowCommand,
>)
    ensures
        commands@ == minimized_commands(minimize, *window),
{
    let mut commands: Vec<WindowCommand> = Vec::new();
    if minimize != window.minimized {
        if minimize {
            commands.push(WindowCommand::Show { mode: ShowMode::Minimize });
        } else {
            commands.push(WindowCommand::Show { mode: ShowMode::Restore });
        }
    }
    assert(commands@ =~= minimized_commands(minimize, *window));
    commands
}

/// Shows the window, or hides it.
#[verifier::when_used_as_spec(visible_command)]
pub fn webview_set_visible(visible: bool) -> (command: WindowCommand)
    ensures
        command == visible_command(visible),
{
    if visible {
        WindowCommand::Show { mode: ShowMode::Show }
    } else {
        WindowCommand::Show { mode: ShowMode::Hide }
    }
}

/// The colour value for the given red, green and blue.
pub open spec fn color_value(r: u8, g: u8, b: u8) -> u32 {
    (r + g * 0x100 + b * 0x1_0000) as u32
}

/// Paints the window's background in the given colour. The platform's
/// background brush has no transparency: `a` is not looked at.
pub fn webview_set_color(r: u8, g: u8, b: u8, a: u8) -> (command: WindowCommand)
    ensures
        command == (WindowCommand::SetBackground { color: color_value(r, g, b) }),
{
    let red: u32 = r as u32;
    let green: u32 = g as u32;
    let blue: u32 = b as u32;
    WindowCommand::SetBackground { color: red + green * 0x100 + blue * 0x1_0000 }
}

/// The instance once the host was asked to close it.
pub open spec fn exit_state(s: HostState) -> HostState {
    if s.stage.has_window() {
        HostState { stage: Stage::Destroyed, ..s }
    } else {
        s
    }
}

/// Closes the instance: the command that destroys its window, if it has a
/// live one. From then on work that is handed in is dropped.
pub fn webview_exit(webview: &mut WebView) -> (command: Option<WindowCommand>)
    ensures
        final(webview)@ == exit_state(old(webview)@),
        command == (if old(webview)@.stage.has_window() {
            Some(WindowCommand::Destroy)
        } else {
            None
        }),
        old(webview)@.wf() ==> final(webview)@.wf(),
{
    if webview.stage.has_window() {
        webview.stage = Stage::Destroyed;
        Some(WindowCommand::Destroy)
    } else {
        None
    }
}

/// Entering fullscreen and leaving it again gives the window back the style,
/// the extended style and the bounds that it had, whatever they were and
/// whether it was maximized or not, and wherever the monitor is.
pub proof fn lemma_fullscreen_round_trip(
    chrome: Chrome,
    window: WindowState,
    monitor: Rect,
    later_monitor: Rect,
)
    requires
        !chrome.is_fullscreen,
    ensures
        ({
            let entered = chrome.fullscreen_chrome(true, window);
            let inside = window.after_all(chrome.fullscreen_commands(true, window, monitor));
            let left = entered.fullscreen_chrome(false, inside);
            let outside = inside.after_all(
                entered.fullscreen_commands(false, inside, later_monitor),
            );
            &&& entered.is_fullscreen
            &&& !left.is_fullscreen
            &&& outside == window
        }),
{
    reveal_with_fuel(WindowState::after_all, 4);
    let entered = chrome.fullscreen_chrome(true, window);
    let enter = chrome.fullscreen_commands(true, window, monitor);
    assert(enter.drop_first().drop_first().drop_first() =~= Seq::empty());
    let inside = window.after_all(enter);
    let leave = entered.fullscreen_commands(false, inside, later_monitor);
    assert(leave.drop_first().drop_first().drop_first() =~= Seq::empty());
    window.rect.lemma_at_own_extent();
}

/// Asking for fullscreen, or for leaving it, a second time changes nothing:
/// no command goes out and what was saved stays as it is.
pub proof fn lemma_fullscreen_idempotent(
    chrome: Chrome,
    fullscreen: bool,
    window: WindowState,
    monitor: Rect,
    later_monitor: Rect,
)
    ensures
        ({
            let once = chrome.fullscreen_chrome(fullscreen, window);
            let then = window.after_all(chrome.fullscreen_commands(fullscreen, window, monitor));
            &&& once.fullscreen_chrome(fullscreen, then) == once
            &&& once.fullscreen_commands(fullscreen, then, later_monitor) == Seq::<
                WindowCommand,
            >::empty()
        }),
{
}

/// Maximizing a window and restoring it puts it back exactly where it was.
pub proof fn lemma_maximize_round_trip(
    chrome: Chrome,
    window: WindowState,
    work_area: Rect,
    later_work_area: Rect,
)
    requires
        window.exists,
        !window.maximized,
    ensures
        ({
            let saved = chrome.maximized_chrome(true, window);
            let large = window.after_all(chrome.maximized_commands(true, window, work_area));
            let back = large.after_all(saved.maximized_commands(false, large, later_work_area));
            &&& large.maximized
            &&& large.rect == work_area
            &&& !back.maximized
            &&& back.rect == window.rect
            &&& back.style == window.style
            &&& back.ex_style == window.ex_style
        }),
{
    reveal_with_fuel(WindowState::after_all, 3);
    let up = chrome.maximized_commands(true, window, work_area);
    assert(up.drop_first().drop_first() =~= Seq::empty());
    let saved = chrome.maximized_chrome(true, window);
    let large = window.after_all(up);
    work_area.lemma_at_own_extent();
    let down = saved.maximized_commands(false, large, later_work_area);
    assert(down.drop_first().drop_first() =~= Seq::empty());
    window.rect.lemma_at_own_extent();
}

/// Asking a second time for the maximized state that a window has by now
/// changes nothing: no command goes out and the saved bounds stay.
pub proof fn lemma_maximized_idempotent(
    chrome: Chrome,
    maximize: bool,
    window: WindowState,
    work_area: Rect,
    later_work_area: Rect,
)
    requires
        window.exists,
    ensures
        ({
            let once = chrome.maximized_chrome(maximize, window);
            let then = window.after_all(chrome.maximized_commands(maximize, window, work_area));
            &&& then.maximized == maximize
            &&& once.maximized_chrome(maximize, then) == once
            &&& once.maximized_commands(maximize, then, later_work_area) == Seq::<
                WindowCommand,
            >::empty()
        }),
{
    reveal_with_fuel(WindowState::after_all, 3);
    let first = chrome.maximized_commands(maximize, window, work_area);
    if first.len() > 0 {
        assert(first.drop_first().drop_first() =~= Seq::empty());
    }
}

/// Asking a second time for the minimized state that a window has by now
/// sends no command.
pub proof fn lemma_minimized_idempotent(minimize: bool, window: WindowState)
    requires
        window.exists,
    ensures
        ({
            let then = window.after_all(minimized_commands(minimize, window));
            &&& then.minimized == minimize
            &&& minimized_commands(minimize, then) == Seq::<WindowCommand>::empty()
        }),
{
    reveal_with_fuel(WindowState::after_all, 2);
    let first = minimized_commands(minimize, window);
    if first.len() > 0 {
        assert(first.drop_first() =~= Seq::empty());
    }
}

} // verus!
