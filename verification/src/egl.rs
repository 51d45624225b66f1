//! The part of EGL that contexts need: types, constants, calls and replies.
use crate::surface::Surface;
use vstd::prelude::*;

verus! {

pub type EGLint = i32;

pub type EGLBoolean = u32;

/// Handles are addresses; zero is no object.
pub type EGLDisplay = usize;

pub type EGLConfig = usize;

pub type EGLContext = usize;

pub type EGLSurface = usize;

pub type EGLDeviceEXT = usize;

pub const FALSE: EGLBoolean = 0;

pub const NO_DISPLAY: EGLDisplay = 0;

pub const NO_CONTEXT: EGLContext = 0;

pub const NO_SURFACE: EGLSurface = 0;

pub const NO_DEVICE_EXT: EGLDeviceEXT = 0;

pub const NO_CONFIG: EGLConfig = 0;

pub const PBUFFER_BIT: EGLint = 0x0001;

pub const OPENGL_ES2_BIT: EGLint = 0x0004;

pub const OPENGL_BIT: EGLint = 0x0008;

pub const ALPHA_SIZE: EGLint = 0x3021;

pub const BLUE_SIZE: EGLint = 0x3022;

pub const GREEN_SIZE: EGLint = 0x3023;

pub const RED_SIZE: EGLint = 0x3024;

pub const DEPTH_SIZE: EGLint = 0x3025;

pub const STENCIL_SIZE: EGLint = 0x3026;

pub const CONFIG_ID: EGLint = 0x3028;

pub const SURFACE_TYPE: EGLint = 0x3033;

pub const NONE: EGLint = 0x3038;

pub const BIND_TO_TEXTURE_RGBA: EGLint = 0x303a;

pub const RENDERABLE_TYPE: EGLint = 0x3040;

pub const CONTEXT_CLIENT_VERSION: EGLint = 0x3098;

/// `EGL_DEVICE_EXT`: the device of a display.
pub const DEVICE_EXT: EGLint = 0x322c;

/// `EGL_D3D11_DEVICE_ANGLE`: the Direct3D 11 device of an EGL device.
pub const D3D11_DEVICE_ANGLE: EGLint = 0x33a1;

/// A call that the embedding program has to make.
///
/// Arguments that point to memory for results are left out. The memory is zeroed
/// before the call.
#[derive(Debug, PartialEq, Eq)]
pub enum NativeCall {
    /// `eglChooseConfig`, for at most `config_size` configurations.
    ChooseConfig { display: EGLDisplay, config_attributes: [EGLint; 22], config_size: EGLint },
    /// `eglChooseConfig` with the shorter list that names one configuration.
    ChooseConfigById { display: EGLDisplay, id_attributes: [EGLint; 6], config_size: EGLint },
    /// `eglGetConfigAttrib`.
    GetConfigAttrib { display: EGLDisplay, config: EGLConfig, attribute: EGLint },
    /// `eglCreateContext`.
    CreateContext {
        display: EGLDisplay,
        config: EGLConfig,
        share_context: EGLContext,
        context_attributes: [EGLint; 6],
    },
    /// `eglDestroyContext`.
    DestroyContext { display: EGLDisplay, context: EGLContext },
    /// `eglQueryContext`.
    QueryContext { display: EGLDisplay, context: EGLContext, attribute: EGLint },
    /// `eglMakeCurrent`.
    MakeCurrent {
        display: EGLDisplay,
        draw: EGLSurface,
        read: EGLSurface,
        context: EGLContext,
    },
    /// `eglGetCurrentDisplay`.
    GetCurrentDisplay,
    /// `eglGetCurrentContext`.
    GetCurrentContext,
    /// `eglQueryDisplayAttribEXT`.
    QueryDisplayAttrib { display: EGLDisplay, attribute: EGLint },
    /// `eglQueryDeviceAttribEXT`.
    QueryDeviceAttrib { device: EGLDeviceEXT, attribute: EGLint },
    /// `eglGetError`.
    GetError,
    /// Look up the EGL surface of the surface with this handle.
    LookupSurface { handle: usize },
    /// Destroy the surface.
    DestroySurface { surface: Surface },
    /// Load the GL functions, looking each of them up by its name.
    LoadGL,
}

/// The reply to a call. What a call does not produce is zero.
#[derive(Clone, Copy, Debug, PartialEq, Eq, Structural)]
pub struct NativeReply {
    /// The truth value that the call returned.
    pub status: EGLBoolean,
    /// The handle that the call returned or wrote.
    pub handle: usize,
    /// The integer that the call returned or wrote; for `eglChooseConfig`, the
    /// number of configurations.
    pub value: EGLint,
}

} // verus!
