//! One platform window: its native handle, its state snapshot, and the
//! rendering resources attached to it.
//!
//! The native handle doubles as the window's identity — it keys the
//! runtime's window map. A window either renders through a hardware
//! graphics context or in software; when a context is present, a renderer
//! instance must be present too.

use vstd::prelude::*;
use crate::errors::WindowsWindowCreateError;

verus! {

/// What the embedding caller requests for one window: the parts of the
/// configuration this shell reads. The title becomes the native window's
/// caption; the parent handle, if any, parents the native window.
pub struct WindowCreateOptions {
    pub title: String,
    pub parent_window: Option<usize>,
}

/// What the driver's native calls produced for one requested window:
/// the handle from window allocation (null on failure, with the platform
/// error code read right after), the optional hardware graphics context,
/// and the handles of the rendering resources built for the window.
pub struct NativeWindowOutcome {
    pub hwnd: usize,
    pub last_error: u32,
    pub gl_context: Option<usize>,
    pub render_api: usize,
    pub renderer: Option<usize>,
    pub hit_tester: usize,
}

impl NativeWindowOutcome {
    /// What every native outcome satisfies: a context handle is never
    /// null, and hardware rendering always comes with a renderer.
    pub open spec fn wf(self) -> bool {
        &&& self.gl_context is Some ==> self.gl_context->0 != 0
        &&& self.gl_context is Some ==> self.renderer is Some
    }
}

/// One live window of the runtime.
pub struct PlatformWindow {
    /// The native handle: the window's identity and its map key.
    pub hwnd: usize,
    /// The caption the window was created with.
    pub title: String,
    /// The parent window's native handle, if the window is parented.
    pub parent_window: Option<usize>,
    /// The hardware graphics context, absent for software rendering.
    pub gl_context: Option<usize>,
    /// The render-API handle used to register fonts and images.
    pub render_api: usize,
    /// The renderer instance; consumed once rendering starts.
    pub renderer: Option<usize>,
    /// The geometry hit-tester, replaced wholesale when layout changes.
    pub hit_tester: usize,
    /// Whether the window has been made visible.
    pub shown: bool,
}

/// The window a successful creation yields: not yet shown, carrying the
/// requested configuration and the resources of the native outcome.
pub open spec fn spec_created_window(
    options: WindowCreateOptions,
    outcome: NativeWindowOutcome,
) -> PlatformWindow {
    PlatformWindow {
        hwnd: outcome.hwnd,
        title: options.title,
        parent_window: options.parent_window,
        gl_context: outcome.gl_context,
        render_api: outcome.render_api,
        renderer: outcome.renderer,
        hit_tester: outcome.hit_tester,
        shown: false,
    }
}

impl PlatformWindow {
    /// The window invariant: the handle is non-null, a context handle is
    /// non-null, and a window with a graphics context has a renderer.
    pub open spec fn wf(self) -> bool {
        &&& self.hwnd != 0
        &&& self.gl_context is Some ==> self.gl_context->0 != 0
        &&& self.gl_context is Some ==> self.renderer is Some
    }

    /// Builds the window for one creation request from what the native
    /// calls produced. A null handle means the native allocation failed:
    /// that one window is reported with the platform error code and is
    /// simply absent from the runtime — siblings are unaffected.
    pub fn create(options: WindowCreateOptions, outcome: NativeWindowOutcome) -> (r: Result<
        PlatformWindow,
        WindowsWindowCreateError,
    >)
        requires
            outcome.wf(),
        ensures
            r is Ok <==> outcome.hwnd != 0,
            outcome.hwnd == 0 ==> r == Result::<PlatformWindow, WindowsWindowCreateError>::Err(
                WindowsWindowCreateError::FailedToCreateHWND(outcome.last_error),
            ),
            outcome.hwnd != 0 ==> {
                let w = r->Ok_0;
                &&& w == spec_created_window(options, outcome)
                &&& w.wf()
            },
    {
        if outcome.hwnd == 0 {
            return Err(WindowsWindowCreateError::FailedToCreateHWND(outcome.last_error));
        }
        Ok(
            PlatformWindow {
                hwnd: outcome.hwnd,
                title: options.title,
                parent_window: options.parent_window,
                gl_context: outcome.gl_context,
                render_api: outcome.render_api,
                renderer: outcome.renderer,
                hit_tester: outcome.hit_tester,
                shown: false,
            },
        )
    }

    /// The window's identity in the runtime's map: its native handle.
    pub fn get_id(&self) -> (r: usize)
        ensures
            r == self.hwnd,
    {
        self.hwnd
    }

    /// The window after it was made visible; nothing else changes.
    pub open spec fn spec_shown(self) -> PlatformWindow {
        PlatformWindow { shown: true, ..self }
    }

    /// Marks the window visible. Idempotent: showing a window that is
    /// already visible leaves it visible.
    pub fn show(&mut self)
        ensures
            *final(self) == old(self).spec_shown(),
    {
        self.shown = true;
    }
}

} // verus!
