//! Error taxonomy of the shell.
//!
//! Three layers: a per-window creation failure, the OpenGL context failures,
//! and the startup errors surfaced to the embedding process. Every variant
//! that stems from a native call carries the platform error code that was
//! read right after the call failed.

use vstd::prelude::*;

verus! {

/// Failure to allocate one native window. Per-window and non-fatal to
/// startup: the window is simply absent from the runtime.
#[derive(Clone, Copy, PartialEq, Eq, Structural, Debug)]
pub enum WindowsWindowCreateError {
    FailedToCreateHWND(u32),
}

/// Failures while obtaining a hardware graphics context for a window.
#[derive(Clone, Copy, PartialEq, Eq, Structural, Debug)]
pub enum WindowsOpenGlError {
    OpenGL32DllNotFound(u32),
    FailedToGetDC(u32),
    FailedToGetPixelFormat(u32),
    NoMatchingPixelFormat(u32),
    OpenGLNotAvailable(u32),
    FailedToStoreContext(u32),
}

/// Errors surfaced by the shell's entry point to the embedding process.
///
/// `Borrow` and `BorrowMut` report contention on the runtime handle, whose
/// dynamic borrow checking happens at the native boundary in the driver: a
/// shared-read conflict and an exclusive-write conflict respectively.
#[derive(Clone, Copy, PartialEq, Eq, Structural, Debug)]
pub enum WindowsStartupError {
    NoAppInstance(u32),
    WindowCreationFailed,
    Borrow,
    BorrowMut,
    Create(WindowsWindowCreateError),
    Gl(WindowsOpenGlError),
}

impl From<WindowsWindowCreateError> for WindowsStartupError {
    fn from(e: WindowsWindowCreateError) -> (r: WindowsStartupError) {
        WindowsStartupError::Create(e)
    }
}

impl vstd::std_specs::convert::FromSpecImpl<WindowsWindowCreateError> for WindowsStartupError {
    open spec fn obeys_from_spec() -> bool {
        true
    }

    open spec fn from_spec(e: WindowsWindowCreateError) -> WindowsStartupError {
        WindowsStartupError::Create(e)
    }
}

impl From<WindowsOpenGlError> for WindowsStartupError {
    fn from(e: WindowsOpenGlError) -> (r: WindowsStartupError) {
        WindowsStartupError::Gl(e)
    }
}

impl vstd::std_specs::convert::FromSpecImpl<WindowsOpenGlError> for WindowsStartupError {
    open spec fn obeys_from_spec() -> bool {
        true
    }

    open spec fn from_spec(e: WindowsOpenGlError) -> WindowsStartupError {
        WindowsStartupError::Gl(e)
    }
}

} // verus!
