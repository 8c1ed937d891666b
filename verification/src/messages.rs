//! The message loop, and what the host does with each message of its window.

use vstd::prelude::*;
use crate::controller::cell_get;
use crate::dispatch::{DispatchData, WM_WEBVIEW_DISPATCH};
use crate::engine::{request_for, EngineCommand, EngineRequest};
use crate::geometry::Rect;
use crate::host::{HostState, WebView};
use crate::window::{WindowCommand, PLACE_QUIETLY};

verus! {

/// Sent after a window was moved.
pub const WM_MOVE: u32 = 0x0003;

/// Sent after a window's size changed.
pub const WM_SIZE: u32 = 0x0005;

/// Sent when the user picks a command from the window menu, or one of the
/// buttons on the title bar.
pub const WM_SYSCOMMAND: u32 = 0x0112;

/// Sent when the DPI of the window's monitor changed.
pub const WM_DPICHANGED: u32 = 0x02E0;

/// The window-menu command that minimizes the window.
pub const SC_MINIMIZE: usize = 0xF020;

/// The window-menu command that restores the window.
pub const SC_RESTORE: usize = 0xF120;

/// What the embedding program is to do with a message.
#[derive(Debug, PartialEq, Eq)]
pub enum HostAction {
    /// Pass the request on to the engine and answer the platform with zero.
    Tell { request: EngineRequest },
    /// Pass the request on to the engine, then leave the message to the
    /// platform and answer with what it answers.
    TellThenDefault { request: EngineRequest },
    /// Call the function of this piece of work with its target and argument,
    /// and answer the platform with one.
    Invoke { data: DispatchData },
    /// Read the rectangle that the message points to, place the window as
    /// [`reposition_command`] says, and answer the platform with zero.
    Reposition,
    /// Do nothing and answer the platform with `result`.
    Answer { result: isize },
    /// Leave the message to the platform.
    Default,
}

/// One message, as far as the host looks at it.
#[derive(Clone, Copy, Debug, PartialEq, Eq, Structural)]
pub struct Message {
    /// The message's number.
    pub msg: u32,
    /// Its first parameter.
    pub w_param: usize,
}

/// What is done with a message.
///
/// A resize or a move is told to the engine. A minimize or restore from the
/// window menu first stops or resumes rendering and then goes to the
/// platform. All of these need the controller and come to nothing much while
/// it is not there. A dispatch message runs the oldest piece of pending
/// work; a DPI change moves the window to where the platform suggests.
pub open spec fn message_action(s: HostState, m: Message) -> HostAction {
    if m.msg == WM_SIZE {
        match request_for(s, EngineCommand::SetBounds) {
            Some(request) => HostAction::Tell { request },
            None => HostAction::Answer { result: 0 },
        }
    } else if m.msg == WM_WEBVIEW_DISPATCH {
        if s.pending.len() > 0 {
            HostAction::Invoke { data: s.pending[0] }
        } else {
            HostAction::Answer { result: 1 }
        }
    } else if m.msg == WM_MOVE {
        match request_for(s, EngineCommand::NotifyParentMoved) {
            Some(request) => HostAction::Tell { request },
            None => HostAction::Answer { result: 0 },
        }
    } else if m.msg == WM_SYSCOMMAND && (m.w_param == SC_MINIMIZE || m.w_param == SC_RESTORE) {
        match request_for(s, EngineCommand::SetVisible { visible: m.w_param == SC_RESTORE }) {
            Some(request) => HostAction::TellThenDefault { request },
            None => HostAction::Default,
        }
    } else if m.msg == WM_DPICHANGED {
        HostAction::Reposition
    } else {
        HostAction::Default
    }
}

/// The instance once a message was handled: a dispatch message takes the
/// oldest piece of pending work away, and nothing else changes anything.
pub open spec fn message_state(s: HostState, m: Message) -> HostState {
    if m.msg == WM_WEBVIEW_DISPATCH && s.pending.len() > 0 {
        HostState { pending: s.pending.drop_first(), ..s }
    } else {
        s
    }
}

/// The host's window procedure: decides what is done with one message.
pub fn webview_wnd_proc(webview: &mut WebView, msg: u32, w_param: usize) -> (action: HostAction)
    ensures
        action == message_action(old(webview)@, Message { msg, w_param }),
        final(webview)@ == message_state(old(webview)@, Message { msg, w_param }),
        old(webview)@.wf() ==> final(webview)@.wf(),
{
    if msg == WM_SIZE {
        match cell_get(&webview.controller) {
            Some(controller) => HostAction::Tell {
                request: EngineRequest { controller, command: EngineCommand::SetBounds },
            },
            None => HostAction::Answer { result: 0 },
        }
    } else if msg == WM_WEBVIEW_DISPATCH {
        match webview.pending.pop_front() {
            Some(data) => HostAction::Invoke { data },
            None => HostAction::Answer { result: 1 },
        }
    } else if msg == WM_MOVE {
        match cell_get(&webview.controller) {
            Some(controller) => HostAction::Tell {
                request: EngineRequest { controller, command: EngineCommand::NotifyParentMoved },
            },
            None => HostAction::Answer { result: 0 },
        }
    } else if msg == WM_SYSCOMMAND && (w_param == SC_MINIMIZE || w_param == SC_RESTORE) {
        match cell_get(&webview.controller) {
            Some(controller) => HostAction::TellThenDefault {
                request: EngineRequest {
                    controller,
                    command: EngineCommand::SetVisible { visible: w_param == SC_RESTORE },
                },
            },
            None => HostAction::Default,
        }
    } else if msg == WM_DPICHANGED {
        HostAction::Reposition
    } else {
        HostAction::Default
    }
}

/// The command that puts the window where a DPI-change message suggests.
/// The suggested rectangle is the window's outer one already: nothing is
/// added for the frame.
pub open spec fn reposition_command_spec(suggested: Rect) -> WindowCommand {
    WindowCommand::Place {
        x: suggested.left,
        y: suggested.top,
        cx: suggested.spec_width(),
        cy: suggested.spec_height(),
        flags: PLACE_QUIETLY,
    }
}

#[verifier::when_used_as_spec(reposition_command_spec)]
pub fn reposition_command(suggested: Rect) -> (command: WindowCommand)
    ensures
        command == reposition_command_spec(suggested),
{
    WindowCommand::Place {
        x: suggested.left,
        y: suggested.top,
        cx: suggested.width(),
        cy: suggested.height(),
        flags: PLACE_QUIETLY,
    }
}

/// What the message loop does after a retrieval.
#[derive(Clone, Copy, Debug, PartialEq, Eq, Structural)]
pub enum LoopStep {
    /// A message was retrieved: translate it, dispatch it, and retrieve the
    /// next.
    Deliver,
    /// No message is left to come, or the retrieval failed: leave the loop
    /// with this exit code.
    Exit { code: i32 },
}

/// One turn of the message loop: `retrieved` is what the blocking retrieval
/// of the next message returned. The loop goes on while that is positive
/// and ends with exit code zero as soon as it is not.
pub fn webview_loop(retrieved: i32) -> (step: LoopStep)
    ensures
        step == (if retrieved > 0 {
            LoopStep::Deliver
        } else {
            LoopStep::Exit { code: 0 }
        }),
{
    if retrieved > 0 {
        LoopStep::Deliver
    } else {
        LoopStep::Exit { code: 0 }
    }
}

} // verus!
