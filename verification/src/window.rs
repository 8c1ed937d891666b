//! What the host asks of the platform window, and what each request does to it.
//!
//! The host never touches the window itself. It returns [`WindowCommand`]s for
//! the embedding program to carry out, in order, and it is handed a
//! [`WindowState`] with what the program read from the platform beforehand.
//! [`WindowState::after`] says what a carried-out command leaves behind, so
//! that sequences of host calls can be reasoned about.

use vstd::prelude::*;
use crate::geometry::Rect;

verus! {

/// Retain the current Z order.
pub const SWP_NOZORDER: u32 = 0x0004;

/// Do not activate the window.
pub const SWP_NOACTIVATE: u32 = 0x0010;

/// Apply new frame styles and recompute the client area.
pub const SWP_FRAMECHANGED: u32 = 0x0020;

/// Placement flags for a move that follows a DPI change: `SWP_NOZORDER` and
/// `SWP_NOACTIVATE`.
pub const PLACE_QUIETLY: u32 = 0x0014;

/// Placement flags for a move that follows a change of frame: the two above
/// and `SWP_FRAMECHANGED`.
pub const PLACE_REFRAMED: u32 = 0x0034;

/// How a window is to be shown.
#[derive(Clone, Copy, Debug, PartialEq, Eq, Structural)]
pub enum ShowMode {
    /// Hide the window.
    Hide,
    /// Maximize the window.
    Maximize,
    /// Show the window in its current size and position.
    Show,
    /// Minimize the window.
    Minimize,
    /// Show the window and undo minimizing or maximizing.
    Restore,
    /// Show the window as the program that started the process asked.
    ShowDefault,
}

impl ShowMode {
    /// The platform's number for this mode.
    pub open spec fn spec_code(self) -> i32 {
        match self {
            ShowMode::Hide => 0,
            ShowMode::Maximize => 3,
            ShowMode::Show => 5,
            ShowMode::Minimize => 6,
            ShowMode::Restore => 9,
            ShowMode::ShowDefault => 10,
        }
    }

    #[verifier::when_used_as_spec(spec_code)]
    pub fn code(self) -> (c: i32)
        ensures
            c == self.spec_code(),
    {
        match self {
            ShowMode::Hide => 0,
            ShowMode::Maximize => 3,
            ShowMode::Show => 5,
            ShowMode::Minimize => 6,
            ShowMode::Restore => 9,
            ShowMode::ShowDefault => 10,
        }
    }
}

/// One request to the platform about the host's window.
#[derive(Clone, Copy, Debug, PartialEq, Eq, Structural)]
pub enum WindowCommand {
    /// Replace the window's style bits.
    SetStyle { style: u32 },
    /// Replace the window's extended style bits.
    SetExStyle { ex_style: u32 },
    /// Move the window's top-left corner to `(x, y)` and make it `cx` wide
    /// and `cy` high.
    Place { x: i32, y: i32, cx: i32, cy: i32, flags: u32 },
    /// Change how the window is shown.
    Show { mode: ShowMode },
    /// Repaint the window's client area now.
    Update,
    /// Paint the window's background in the given colour (red in the lowest
    /// byte, then green, then blue).
    SetBackground { color: u32 },
    /// Destroy the window.
    Destroy,
}

/// What the platform knows of the host's window.
#[derive(Clone, Copy, Debug, PartialEq, Eq, Structural)]
pub struct WindowState {
    pub style: u32,
    pub ex_style: u32,
    pub rect: Rect,
    pub maximized: bool,
    pub minimized: bool,
    pub visible: bool,
    pub exists: bool,
}

impl WindowState {
    /// The window once the platform has carried out `command`.
    ///
    /// A show command changes the three flags only: where the platform puts a
    /// window that it maximizes or restores by itself is not foretold here,
    /// and the host always places the window itself afterwards. A destroyed
    /// window takes no further command.
    pub open spec fn after(self, command: WindowCommand) -> WindowState {
        if !self.exists {
            self
        } else {
            match command {
                WindowCommand::SetStyle { style } => WindowState { style, ..self },
                WindowCommand::SetExStyle { ex_style } => WindowState { ex_style, ..self },
                WindowCommand::Place { x, y, cx, cy, flags } => WindowState {
                    rect: Rect::spec_at(x, y, cx, cy),
                    ..self
                },
                WindowCommand::Show { mode } => match mode {
                    ShowMode::Hide => WindowState { visible: false, ..self },
                    ShowMode::Maximize => WindowState {
                        maximized: true,
                        minimized: false,
                        visible: true,
                        ..self
                    },
                    ShowMode::Minimize => WindowState { minimized: true, visible: true, ..self },
                    ShowMode::Restore => WindowState {
                        maximized: false,
                        minimized: false,
                        visible: true,
                        ..self
                    },
                    ShowMode::Show | ShowMode::ShowDefault => WindowState {
                        visible: true,
                        ..self
                    },
                },
                WindowCommand::Update => self,
                WindowCommand::SetBackground { color } => self,
                WindowCommand::Destroy => WindowState { exists: false, visible: false, ..self },
            }
        }
    }

    /// The window once the platform has carried out `commands`, first to last.
    pub open spec fn after_all(self, commands: Seq<WindowCommand>) -> WindowState
        decreases commands.len(),
    {
        if commands.len() == 0 {
            self
        } else {
            self.after(commands[0]).after_all(commands.drop_first())
        }
    }
}

} // verus!
