//! Contexts and their descriptors.
use crate::attributes::{GLApi, GLFlavor, GLInfo, GLVersion};
use crate::egl::{EGLint, NO_CONTEXT};
use crate::error::Error;
use crate::gl_utils::GLuint;
use crate::native_context::NativeContext;
use crate::surface::{ColorSurface, Surface};
use vstd::prelude::*;

verus! {

/// A kind of context: one EGL configuration, and one version of GL.
#[derive(Clone, Copy, Debug, PartialEq, Eq, Structural)]
pub struct ContextDescriptor {
    pub egl_config_id: EGLint,
    pub egl_context_client_version: EGLint,
    pub flavor: GLFlavor,
}

impl ContextDescriptor {
    /// The version that contexts of this kind are created for is the one that they are
    /// known by.
    pub open spec fn wf(self) -> bool {
        self.egl_context_client_version == self.flavor.version.major
    }

    /// The descriptor of a context of this flavor.
    pub open spec fn of_flavor(egl_config_id: EGLint, flavor: GLFlavor) -> ContextDescriptor {
        ContextDescriptor {
            egl_config_id,
            egl_context_client_version: flavor.version.major as EGLint,
            flavor,
        }
    }

    /// The descriptor of a context that EGL describes by these two numbers. A client
    /// version is a version of GLES, the only API that contexts are created for.
    pub open spec fn of_context(
        egl_config_id: EGLint,
        client_version: EGLint,
    ) -> ContextDescriptor {
        ContextDescriptor {
            egl_config_id,
            egl_context_client_version: client_version,
            flavor: GLFlavor {
                api: GLApi::GLES,
                version: GLVersion { major: client_version as u8, minor: 0 },
            },
        }
    }

    /// Surfaces of the one kind can be used with contexts of the other.
    pub open spec fn fits(self, other: ContextDescriptor) -> bool {
        &&& self.egl_config_id == other.egl_config_id
        &&& self.egl_context_client_version == other.egl_context_client_version
    }

    pub fn for_flavor(egl_config_id: EGLint, flavor: GLFlavor) -> (descriptor: ContextDescriptor)
        ensures
            descriptor == Self::of_flavor(egl_config_id, flavor),
            descriptor.egl_config_id == egl_config_id,
            descriptor.egl_context_client_version == flavor.version.major,
            descriptor.flavor == flavor,
    {
        ContextDescriptor {
            egl_config_id,
            egl_context_client_version: flavor.version.major as EGLint,
            flavor,
        }
    }

    pub fn for_context(egl_config_id: EGLint, client_version: EGLint) -> (descriptor:
        ContextDescriptor)
        ensures
            descriptor == Self::of_context(egl_config_id, client_version),
            descriptor.egl_config_id == egl_config_id,
            descriptor.egl_context_client_version == client_version,
            descriptor.flavor.api == GLApi::GLES,
            descriptor.flavor.version.major == client_version as u8,
            descriptor.flavor.version.minor == 0,
    {
        ContextDescriptor {
            egl_config_id,
            egl_context_client_version: client_version,
            flavor: GLFlavor {
                api: GLApi::GLES,
                version: GLVersion {
                    major: #[verifier::truncate]
                    (client_version as u8),
                    minor: 0,
                },
            },
        }
    }

    pub fn is_compatible_with(&self, other: &ContextDescriptor) -> (compatible: bool)
        ensures
            compatible == self.fits(*other),
            compatible == (self.egl_config_id == other.egl_config_id
                && self.egl_context_client_version == other.egl_context_client_version),
    {
        self.egl_config_id == other.egl_config_id && self.egl_context_client_version
            == other.egl_context_client_version
    }
}

/// A context. It has to be destroyed with `Device::destroy_context`.
#[derive(Debug, PartialEq, Eq)]
pub struct Context {
    pub native_context: NativeContext,
    pub gl_info: GLInfo,
    pub color_surface: ColorSurface,
}

impl Context {
    /// What holds of a context between operations: while it lives, a context that
    /// was created here has a surface of its own, and one that was created elsewhere
    /// has a target of its own; once destroyed, it has neither.
    pub open spec fn wf(self) -> bool {
        if self.native_context.destroyed() {
            self.color_surface is Nothing
        } else {
            match self.native_context {
                NativeContext::Owned(_) => self.color_surface is Managed,
                NativeContext::Borrowed(_) => self.color_surface is External,
            }
        }
    }

    /// The surface of the context, if it is managed here.
    pub open spec fn managed_surface(self) -> Option<Surface> {
        match self.color_surface {
            ColorSurface::Managed(surface) => Some(surface),
            _ => None,
        }
    }

    /// The framebuffer object to draw to: the default one, unless the target is not
    /// managed here.
    pub open spec fn framebuffer_object(self) -> Result<GLuint, Error> {
        if self.color_surface is External {
            Err(Error::ExternalRenderTarget)
        } else {
            Ok(0)
        }
    }

    /// The context is not to be dropped: it has not been destroyed, and its thread is
    /// not unwinding from a panic already.
    pub open spec fn leaked_by_drop(self, thread_panicking: bool) -> bool {
        !self.native_context.destroyed() && !thread_panicking
    }

    /// Tells whether it is an error to drop the context now.
    pub fn is_leaked_by_drop(&self, thread_panicking: bool) -> (leaked: bool)
        ensures
            leaked == self.leaked_by_drop(thread_panicking),
            self.native_context matches NativeContext::Owned(owned) ==> leaked == (
            owned.egl_context != NO_CONTEXT && !thread_panicking),
            self.native_context matches NativeContext::Borrowed(borrowed) ==> leaked == (
            borrowed.egl_context != NO_CONTEXT && !thread_panicking),
    {
        !self.native_context.is_destroyed() && !thread_panicking
    }
}

} // verus!
