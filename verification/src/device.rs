//! Devices, and the operations on contexts that need no call at all.
use crate::attributes::GLInfo;
use crate::context::Context;
use crate::egl::{EGLDeviceEXT, EGLDisplay};
use crate::error::Error;
use crate::gl_utils::GLuint;
use crate::surface::{ColorSurface, Surface};
use vstd::prelude::*;

verus! {

/// The Direct3D driver type is not known.
pub const D3D_DRIVER_TYPE_UNKNOWN: u32 = 0;

/// The surfaces that are bound on a device, by their handles, the last one first.
#[derive(Debug, PartialEq, Eq)]
pub enum SurfaceBindings {
    /// No surface is bound.
    Unbound,
    /// One surface is bound, and those before it.
    Bound { handle: usize, before: Box<SurfaceBindings> },
}

impl SurfaceBindings {
    /// The handles of the bound surfaces, the last one first.
    pub open spec fn handles(self) -> Seq<usize>
        decreases self,
    {
        match self {
            SurfaceBindings::Unbound => Seq::empty(),
            SurfaceBindings::Bound { handle, before } => seq![handle] + before.handles(),
        }
    }

    /// The bindings of a new device.
    pub fn new() -> (bindings: SurfaceBindings)
        ensures
            bindings == SurfaceBindings::Unbound,
            bindings.handles().len() == 0,
    {
        SurfaceBindings::Unbound
    }

    pub fn is_empty(&self) -> (empty: bool)
        ensures
            empty == (self.handles().len() == 0),
            empty == (self is Unbound),
    {
        match self {
            SurfaceBindings::Unbound => true,
            SurfaceBindings::Bound { .. } => false,
        }
    }
}

/// An EGL display, with the devices behind it and the surfaces that are bound.
#[derive(Debug, PartialEq, Eq)]
pub struct Device {
    pub egl_display: EGLDisplay,
    pub egl_device: EGLDeviceEXT,
    /// The address of the Direct3D 11 device.
    pub d3d11_device: usize,
    pub d3d_driver_type: u32,
    pub surface_bindings: SurfaceBindings,
}

/// Remembers whether a context has been set up before: the GL functions are loaded
/// with the first one, and never again.
#[derive(Clone, Copy, Debug, PartialEq, Eq, Structural)]
pub struct GLLoader {
    pub previous_context_created: bool,
}

impl GLLoader {
    pub fn new() -> (loader: GLLoader)
        ensures
            !loader.previous_context_created,
    {
        GLLoader { previous_context_created: false }
    }

    /// Remembers that the GL functions have been loaded.
    pub fn note_loaded(&mut self)
        ensures
            final(self).previous_context_created,
    {
        self.previous_context_created = true;
    }
}

/// A GL function that is being looked up with `eglGetProcAddress`.
#[derive(Clone, Copy, Debug)]
pub struct ProcAddressLookup<'a> {
    /// The name to look up.
    pub symbol_name: &'a str,
}

impl<'a> ProcAddressLookup<'a> {
    /// Starts to look a function up. EGL takes the name as a C string, so there can
    /// be no NUL in it.
    pub fn new(symbol_name: &'a str) -> (lookup: ProcAddressLookup<'a>)
        requires
            !symbol_name@.contains('\0'),
        ensures
            lookup.symbol_name@ == symbol_name@,
    {
        ProcAddressLookup { symbol_name }
    }

    /// What comes of the address that EGL gave: null is no function.
    pub open spec fn outcome(address: usize) -> Result<usize, Error> {
        if address == 0 {
            Err(Error::GLFunctionNotFound)
        } else {
            Ok(address)
        }
    }

    /// Takes the address that EGL gave.
    pub fn finish(self, address: usize) -> (result: Result<usize, Error>)
        ensures
            result == Self::outcome(address),
            address == 0 ==> result == Err::<usize, Error>(Error::GLFunctionNotFound),
            address != 0 ==> result == Ok::<usize, Error>(address),
    {
        if address == 0 {
            return Err(Error::GLFunctionNotFound);
        }
        Ok(address)
    }
}

/// The address, or null.
pub open spec fn address_or_null(result: Result<usize, Error>) -> usize {
    match result {
        Ok(found) => found,
        Err(_) => 0,
    }
}

/// Returns what the GL loader gets for a function: its address, or null.
pub fn loader_address(result: Result<usize, Error>) -> (address: usize)
    ensures
        address == address_or_null(result),
        result matches Ok(found) ==> address == found,
        result is Err ==> address == 0,
{
    match result {
        Ok(found) => found,
        Err(_) => 0,
    }
}

impl Device {
    /// Returns what is known of the GL of the context.
    pub fn context_gl_info<'c>(&self, context: &'c Context) -> (info: &'c GLInfo)
        ensures
            *info == context.gl_info,
    {
        &context.gl_info
    }

    /// Returns the surface that the context renders to, if it is one that is managed
    /// here.
    pub fn context_color_surface<'c>(&self, context: &'c Context) -> (surface: Option<&'c Surface>)
        ensures
            surface == (match context.managed_surface() {
                Some(managed) => Some(&managed),
                None => None,
            }),
            surface is Some <==> context.color_surface is Managed,
            context.color_surface matches ColorSurface::Managed(managed) ==> *surface->0 == managed,
    {
        match &context.color_surface {
            ColorSurface::Nothing | ColorSurface::External => None,
            ColorSurface::Managed(surface) => Some(surface),
        }
    }

    /// Returns the framebuffer object to draw to, which is the default one. For a
    /// context that renders to a target that is not managed here, it is not known.
    pub fn context_surface_framebuffer_object(&self, context: &Context) -> (result: Result<
        GLuint,
        Error,
    >)
        ensures
            result == context.framebuffer_object(),
            context.color_surface is External ==> result == Err::<GLuint, Error>(
                Error::ExternalRenderTarget,
            ),
            context.color_surface !is External ==> result == Ok::<GLuint, Error>(0),
    {
        if let ColorSurface::External = context.color_surface {
            return Err(Error::ExternalRenderTarget);
        }
        Ok(0)
    }

    /// Starts to look a GL function up.
    pub fn get_proc_address<'a>(&self, _context: &Context, symbol_name: &'a str) -> (lookup:
        ProcAddressLookup<'a>)
        requires
            !symbol_name@.contains('\0'),
        ensures
            lookup.symbol_name@ == symbol_name@,
    {
        ProcAddressLookup::new(symbol_name)
    }
}

} // verus!
