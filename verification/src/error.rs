//! Errors.
use crate::egl::EGLint;
use vstd::prelude::*;

verus! {

/// An error of the windowing API, which is EGL here: the code that it gave.
#[derive(Clone, Copy, Debug, PartialEq, Eq, Structural)]
pub struct WindowingApiError {
    pub code: EGLint,
}

/// What can go wrong with a context.
#[derive(Clone, Copy, Debug, PartialEq, Eq, Structural)]
pub enum Error {
    /// EGL could not select a configuration.
    PixelFormatSelectionFailed(WindowingApiError),
    /// No configuration has the wanted attributes.
    NoPixelFormatFound,
    /// EGL could not create the context.
    ContextCreationFailed(WindowingApiError),
    /// EGL could not make the context current, or not current.
    MakeCurrentFailed(WindowingApiError),
    /// There is no such GL function.
    GLFunctionNotFound,
    /// The context renders to a target that is not managed here.
    ExternalRenderTarget,
    /// The surface does not fit the context.
    IncompatibleContextDescriptor,
}

/// The error for an EGL error code.
pub fn to_windowing_api_error(code: EGLint) -> (error: WindowingApiError)
    ensures
        error == (WindowingApiError { code }),
{
    WindowingApiError { code }
}

} // verus!
