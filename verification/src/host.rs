//! The host instance: one record per embedded window.

use vstd::prelude::*;
use once_cell::unsync::OnceCell;
use std::collections::VecDeque;
use crate::chrome::Chrome;
use crate::controller::{cell_get, cell_new, cell_value};
use crate::dispatch::DispatchData;
use crate::geometry::Rect;

verus! {

/// What an instance is made with. Nothing changes it afterwards.
pub struct Config {
    /// The window's first title.
    pub title: String,
    /// The first address or content to show.
    pub url: String,
    /// The client area's width in logical pixels.
    pub width: i32,
    /// The client area's height in logical pixels.
    pub height: i32,
    /// Whether the user can resize the window.
    pub resizable: bool,
    /// Whether the engine's developer tools are wanted.
    pub debug: bool,
    /// Whether the window goes without caption and buttons.
    pub frameless: bool,
    /// Whether the window is shown as soon as it exists.
    pub visible: bool,
    /// The least width the window should take.
    pub min_width: i32,
    /// The least height the window should take.
    pub min_height: i32,
    /// The caller's function for messages from the page, as an address.
    pub external_invoke_cb: usize,
    /// The caller's own pointer, as an address; the host never looks at it.
    pub userdata: usize,
}

/// How far an instance has come.
#[derive(Clone, Copy, Debug, PartialEq, Eq, Structural)]
pub enum Stage {
    /// Made; the window class is not registered yet.
    ClassPending,
    /// The class is registered; the platform has yet to say how much room
    /// the frame takes.
    FramePending,
    /// The bounds are decided; the window is not created yet.
    WindowPending,
    /// The window exists; the rendering engine is being started.
    EnginePending,
    /// Everything is set up and messages are being handled.
    Running,
    /// The host has had the window destroyed.
    Destroyed,
    /// Setting up failed. A window may exist all the same.
    Failed,
}

impl Stage {
    /// Whether the instance has a window that takes messages.
    pub open spec fn spec_has_window(self) -> bool {
        self == Stage::EnginePending || self == Stage::Running
    }

    #[verifier::when_used_as_spec(spec_has_window)]
    pub fn has_window(self) -> (live: bool)
        ensures
            live == self.spec_has_window(),
    {
        match self {
            Stage::EnginePending | Stage::Running => true,
            _ => false,
        }
    }
}

/// One embedded window and what the host knows of it.
pub struct WebView {
    pub(crate) config: Config,
    pub(crate) stage: Stage,
    pub(crate) hwnd: usize,
    pub(crate) chrome: Chrome,
    pub(crate) js_busy: bool,
    pub(crate) controller: OnceCell<usize>,
    pub(crate) pending: VecDeque<DispatchData>,
}

/// An instance as contracts speak of it.
pub struct HostState {
    /// What the instance was made with.
    pub config: Config,
    /// How far it has come.
    pub stage: Stage,
    /// The window's handle as an address; zero until the window exists.
    pub hwnd: usize,
    /// What is remembered of the window's chrome.
    pub chrome: Chrome,
    /// Whether a script is being evaluated.
    pub js_busy: bool,
    /// The engine's controller as an address, once it is there.
    pub controller: Option<usize>,
    /// The work handed over from other threads, oldest first.
    pub pending: Seq<DispatchData>,
}

impl HostState {
    /// What holds of every instance, whatever was done with it.
    pub open spec fn wf(self) -> bool {
        &&& (self.stage == Stage::ClassPending || self.stage == Stage::FramePending || self.stage
            == Stage::WindowPending) ==> self.hwnd == 0
        &&& (self.stage == Stage::EnginePending || self.stage == Stage::Running || self.stage
            == Stage::Destroyed) ==> self.hwnd != 0
        &&& self.hwnd == 0 ==> self.controller is None && self.pending.len() == 0
        &&& self.controller != Some(0usize)
        &&& self.js_busy ==> self.controller is Some
    }
}

impl View for WebView {
    type V = HostState;

    open(crate) spec fn view(&self) -> HostState {
        HostState {
            config: self.config,
            stage: self.stage,
            hwnd: self.hwnd,
            chrome: self.chrome,
            js_busy: self.js_busy,
            controller: cell_value(self.controller),
            pending: self.pending@,
        }
    }
}

/// Makes the record of an instance. No window exists yet, nothing is saved
/// and nothing is pending; the caller goes on with [`crate::creation`].
pub fn webview_new(
    title: String,
    url: String,
    width: i32,
    height: i32,
    resizable: bool,
    debug: bool,
    frameless: bool,
    visible: bool,
    min_width: i32,
    min_height: i32,
    external_invoke_cb: usize,
    userdata: usize,
) -> (webview: WebView)
    ensures
        webview@ == (HostState {
            config: Config {
                title,
                url,
                width,
                height,
                resizable,
                debug,
                frameless,
                visible,
                min_width,
                min_height,
                external_invoke_cb,
                userdata,
            },
            stage: Stage::ClassPending,
            hwnd: 0,
            chrome: Chrome::initial(),
            js_busy: false,
            controller: None,
            pending: Seq::empty(),
        }),
        webview@.wf(),
{
    WebView {
        config: Config {
            title,
            url,
            width,
            height,
            resizable,
            debug,
            frameless,
            visible,
            min_width,
            min_height,
            external_invoke_cb,
            userdata,
        },
        stage: Stage::ClassPending,
        hwnd: 0,
        chrome: Chrome {
            is_fullscreen: false,
            saved_style: 0,
            saved_ex_style: 0,
            saved_rect: Rect::zero(),
        },
        js_busy: false,
        controller: cell_new(),
        pending: VecDeque::new(),
    }
}

/// The caller's own pointer, as it was given.
pub fn webview_get_user_data(webview: &WebView) -> (userdata: usize)
    ensures
        userdata == webview@.config.userdata,
{
    webview.config.userdata
}

/// The window's handle; zero while there is no window.
pub fn webview_get_window_handle(webview: &WebView) -> (hwnd: usize)
    ensures
        hwnd == webview@.hwnd,
{
    webview.hwnd
}

impl WebView {
    /// What the instance was made with.
    pub fn config(&self) -> (config: &Config)
        ensures
            *config == self@.config,
    {
        &self.config
    }

    /// How far the instance has come.
    pub fn stage(&self) -> (stage: Stage)
        ensures
            stage == self@.stage,
    {
        self.stage
    }

    /// What is remembered of the window's chrome.
    pub fn chrome(&self) -> (chrome: Chrome)
        ensures
            chrome == self@.chrome,
    {
        self.chrome
    }

    /// The engine's controller, once it is there.
    pub fn controller(&self) -> (controller: Option<usize>)
        ensures
            controller == self@.controller,
    {
        cell_get(&self.controller)
    }

    /// Whether a script is being evaluated.
    pub fn js_busy(&self) -> (busy: bool)
        ensures
            busy == self@.js_busy,
    {
        self.js_busy
    }

    /// How many pieces of work wait for the owning thread.
    pub fn pending_len(&self) -> (n: usize)
        ensures
            n == self@.pending.len(),
    {
        self.pending.len()
    }
}

} // verus!
