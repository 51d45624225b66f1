//! OpenGL contexts on top of ANGLE's EGL implementation over Direct3D 11.
//!
//! Every operation that talks to EGL is a small state machine. Starting it yields
//! the first call to make; handing it the reply to a call yields the next call or
//! the result. Nothing here performs a call: the embedding program does, one at a
//! time, in the order in which they are asked for. What is proved is which calls
//! are asked for, with which arguments, and what comes of the replies.
pub mod adopt;
pub mod attributes;
pub mod config;
pub mod context;
pub mod create;
pub mod current;
pub mod describe;
pub mod destroy;
pub mod device;
pub mod egl;
pub mod error;
pub mod gl_utils;
pub mod laws;
pub mod native_context;
pub mod operation;
pub mod populate;
pub mod replace;
pub mod runs;
pub mod surface;

pub use attributes::{
    ContextAttributeFlags, ContextAttributes, GLApi, GLFlavor, GLInfo, GLVersion,
};
pub use context::{Context, ContextDescriptor};
pub use create::CreateContextFailure;
pub use device::{Device, GLLoader, SurfaceBindings};
pub use egl::{NativeCall, NativeReply};
pub use error::{Error, WindowingApiError};
pub use native_context::{NativeContext, OwnedEGLContext, UnsafeEGLContextRef};
pub use operation::{Operation, ReplyCheck, Step};
pub use surface::{ColorSurface, Surface};
