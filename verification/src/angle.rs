//! The platform rendering-context collaborator.
//!
//! On this platform the required backend does not exist: construction always
//! fails immediately with the fixed unsupported-platform failure, and since
//! the crate offers no other way to obtain a [`Context`], no method on one
//! can ever be reached.  Callers treat the construction failure as
//! recoverable and fall back to an alternate rendering path.

use vstd::prelude::*;

verus! {

/// Why constructing a rendering context failed.
#[derive(Clone, Copy, Debug, PartialEq, Eq, Structural)]
pub enum CreationError {
    /// The platform lacks the required backend.
    UnsupportedPlatform,
}

/// A failure reported by a live rendering context.
#[derive(Clone, Copy, Debug, PartialEq, Eq, Structural)]
pub enum ContextError {
    ContextLost,
}

/// The API a rendering context exposes.
#[derive(Clone, Copy, Debug, PartialEq, Eq, Structural)]
pub enum Api {
    OpenGl,
    OpenGlEs,
    WebGl,
}

/// A rendering context of the absent backend.  The field is private and the
/// only constructor always fails, so no value of this type is ever obtained
/// on this platform.
pub struct Context {
    _backend: (),
}

impl Context {
    /// Tries to construct a window-backed rendering context; on this
    /// platform the attempt always fails with the fixed unsupported-platform
    /// failure.
    pub fn with_window(_using_compositor: bool) -> (r: Result<Context, CreationError>)
        ensures
            r == Err::<Context, CreationError>(CreationError::UnsupportedPlatform),
    {
        Err(CreationError::UnsupportedPlatform)
    }

    /// Makes the context current.  Unreachable on this platform: no context
    /// is ever constructed.
    pub fn make_current(&self) -> Result<(), ContextError> {
        Err(ContextError::ContextLost)
    }

    /// Resolves a GL symbol to a raw address.  Unreachable on this platform:
    /// no context is ever constructed.
    pub fn get_proc_address(&self, _symbol: &str) -> usize {
        0
    }

    /// Swaps the buffers.  Unreachable on this platform: no context is ever
    /// constructed.
    pub fn swap_buffers(&self) -> Result<(), ContextError> {
        Err(ContextError::ContextLost)
    }

    /// Reports the context's API.  Unreachable on this platform: no context
    /// is ever constructed.
    pub fn get_api(&self) -> Api {
        Api::OpenGlEs
    }
}

} // verus!
