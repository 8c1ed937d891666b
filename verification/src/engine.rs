//! What the host asks of the rendering engine.
//!
//! The engine is somebody else's. The host holds the address of its
//! controller once there is one, and returns requests for the embedding
//! program to pass on. Before the controller is there, whatever needs it is
//! dropped: nothing is queued for later.

use vstd::prelude::*;
use crate::controller::{cell_get, cell_set, cell_value};
use crate::host::{HostState, WebView};

verus! {

/// The status with which a script is taken, or dropped for want of a
/// controller.
pub const EVAL_TAKEN: i32 = 0;

/// The status with which a script is turned down because another one is
/// still being evaluated.
pub const EVAL_BUSY: i32 = -1;

/// One thing the engine can be asked to do.
#[derive(Debug, PartialEq, Eq)]
pub enum EngineCommand {
    /// Fit the content to the window's client rectangle as it is now.
    SetBounds,
    /// Take note that the window has moved.
    NotifyParentMoved,
    /// Render the content, or stop rendering it.
    SetVisible { visible: bool },
    /// Zoom by the factor whose 64-bit floating-point representation is
    /// `factor_bits`.
    SetZoom { factor_bits: u64 },
    /// Show this HTML.
    Navigate { html: String },
    /// Evaluate this script, and report when it is done.
    Execute { script: String },
}

/// A command together with the controller it goes to.
#[derive(Debug, PartialEq, Eq)]
pub struct EngineRequest {
    /// The controller's address.
    pub controller: usize,
    /// What it is asked to do.
    pub command: EngineCommand,
}

/// The request that carries `command` to the instance's controller, if the
/// controller is there.
pub open spec fn request_for(s: HostState, command: EngineCommand) -> Option<EngineRequest> {
    match s.controller {
        Some(controller) => Some(EngineRequest { controller, command }),
        None => None,
    }
}

/// The instance once the engine has handed over `controller`.
///
/// The controller is taken if it is not null, none was taken before, and the
/// instance has a live window.
pub open spec fn attached(s: HostState, controller: usize) -> HostState {
    if controller != 0 && s.controller is None && s.stage.has_window() {
        HostState { controller: Some(controller), ..s }
    } else {
        s
    }
}

/// Takes the controller that the engine has created for the window. From
/// then on the instance is ready, and the first request is to fit the
/// content to the window. A controller that is not taken is handed back.
pub fn webview_attach_controller(webview: &mut WebView, controller: usize) -> (outcome: Result<
    EngineRequest,
    usize,
>)
    ensures
        final(webview)@ == attached(old(webview)@, controller),
        outcome == (if final(webview)@.controller == old(webview)@.controller {
            Err::<EngineRequest, usize>(controller)
        } else {
            Ok::<EngineRequest, usize>(
                EngineRequest { controller, command: EngineCommand::SetBounds },
            )
        }),
        old(webview)@.wf() ==> final(webview)@.wf(),
{
    if controller == 0 || !webview.stage.has_window() {
        return Err(controller);
    }
    match cell_set(&mut webview.controller, controller) {
        Ok(()) => Ok(EngineRequest { controller, command: EngineCommand::SetBounds }),
        Err(rejected) => Err(rejected),
    }
}

/// The request that sets the zoom factor; nothing while there is no
/// controller.
pub fn webview_set_zoom_level(webview: &WebView, factor_bits: u64) -> (request: Option<
    EngineRequest,
>)
    ensures
        request == request_for(webview@, EngineCommand::SetZoom { factor_bits }),
{
    match cell_get(&webview.controller) {
        Some(controller) => Some(
            EngineRequest { controller, command: EngineCommand::SetZoom { factor_bits } },
        ),
        None => None,
    }
}

/// The request that shows `html`; nothing while there is no controller.
pub fn webview_set_html(webview: &WebView, html: String) -> (request: Option<EngineRequest>)
    ensures
        request == request_for(webview@, EngineCommand::Navigate { html }),
{
    match cell_get(&webview.controller) {
        Some(controller) => Some(
            EngineRequest { controller, command: EngineCommand::Navigate { html } },
        ),
        None => None,
    }
}

/// The instance once a script was handed in for evaluation.
pub open spec fn eval_state(s: HostState) -> HostState {
    if s.controller is Some && !s.js_busy {
        HostState { js_busy: true, ..s }
    } else {
        s
    }
}

/// The status with which a script is answered.
pub open spec fn eval_status(s: HostState) -> i32 {
    if s.controller is Some && s.js_busy {
        EVAL_BUSY
    } else {
        EVAL_TAKEN
    }
}

/// The request that a script leads to.
pub open spec fn eval_request(s: HostState, script: String) -> Option<EngineRequest> {
    if s.js_busy {
        None
    } else {
        request_for(s, EngineCommand::Execute { script })
    }
}

/// Hands a script in for evaluation. One script is evaluated at a time:
/// while one is under way, the next is turned down with [`EVAL_BUSY`]. While
/// there is no controller the script is dropped, with [`EVAL_TAKEN`] all the
/// same.
pub fn webview_eval(webview: &mut WebView, js: String) -> (outcome: (i32, Option<EngineRequest>))
    ensures
        final(webview)@ == eval_state(old(webview)@),
        outcome.0 == eval_status(old(webview)@),
        outcome.1 == eval_request(old(webview)@, js),
        old(webview)@.wf() ==> final(webview)@.wf(),
{
    match cell_get(&webview.controller) {
        None => (EVAL_TAKEN, None),
        Some(controller) => {
            if webview.js_busy {
                (EVAL_BUSY, None)
            } else {
                webview.js_busy = true;
                (
                    EVAL_TAKEN,
                    Some(EngineRequest { controller, command: EngineCommand::Execute { script: js } }),
                )
            }
        },
    }
}

/// Takes note that the engine is done with the script it was given.
pub fn webview_eval_finished(webview: &mut WebView)
    ensures
        final(webview)@ == (HostState { js_busy: false, ..old(webview)@ }),
        old(webview)@.wf() ==> final(webview)@.wf(),
{
    webview.js_busy = false;
}

/// After a script was taken every further one is turned down, and changes
/// nothing, until the engine reports the first one done; then the next is
/// taken again.
pub proof fn lemma_one_script_at_a_time(s: HostState, script: String)
    requires
        s.controller is Some,
        !s.js_busy,
    ensures
        eval_status(s) == EVAL_TAKEN,
        eval_request(s, script) is Some,
        eval_status(eval_state(s)) == EVAL_BUSY,
        eval_request(eval_state(s), script) is None,
        eval_state(eval_state(s)) == eval_state(s),
        eval_status(HostState { js_busy: false, ..eval_state(s) }) == EVAL_TAKEN,
{
}

} // verus!
