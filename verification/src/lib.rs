//! Model of a Windows desktop shell for a GUI toolkit: the native window
//! lifecycle, the message-dispatch loop, lazy resolution of the OpenGL
//! function table, and the optional-value bridge of the toolkit's foreign
//! interface.
//!
//! Everything the shell decides — which windows enter the runtime, how a
//! symbol address is chosen between the context resolver and the static
//! export table, when the dispatch loop terminates — is verified here over
//! plain values. The native calls themselves (window creation, message
//! retrieval, library loading) live in the unverified driver, which hands
//! their outcomes to this crate and carries out the actions it returns.

pub mod encode;
pub mod errors;
pub mod event_loop;
pub mod loader;
pub mod optional;
pub mod runtime;
pub mod window;
