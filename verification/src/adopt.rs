//! Taking over the context that is current.
use crate::attributes::GLInfo;
use crate::context::Context;
use crate::device::{Device, GLLoader, SurfaceBindings, D3D_DRIVER_TYPE_UNKNOWN};
use crate::egl::{
    EGLContext, EGLDeviceEXT, EGLDisplay, NativeCall, NativeReply, D3D11_DEVICE_ANGLE, DEVICE_EXT,
    FALSE, NO_CONTEXT, NO_DEVICE_EXT, NO_DISPLAY,
};
use crate::error::Error;
use crate::native_context::{NativeContext, UnsafeEGLContextRef};
use crate::operation::{Operation, ReplyCheck, Step};
use crate::populate::{PopulateGLInfo, Population};
use crate::surface::ColorSurface;
use vstd::prelude::*;

verus! {

/// The current context, being taken over.
#[derive(Debug, PartialEq, Eq)]
pub enum FromCurrentContext {
    /// EGL is asked for the current display.
    Display,
    /// EGL is asked for the current context.
    Context { egl_display: EGLDisplay },
    /// EGL is asked for the device of the display.
    Device { egl_display: EGLDisplay, egl_context: EGLContext },
    /// EGL is asked for the Direct3D 11 device of the device.
    Direct3D { egl_display: EGLDisplay, egl_context: EGLContext, egl_device: EGLDeviceEXT },
    /// The GL of the context is found out about.
    Populating { device: Device, context: Context, populate: PopulateGLInfo },
}

impl FromCurrentContext {
    /// The current context as it is taken over, with nothing known of its GL.
    pub open spec fn adopted(egl_context: EGLContext) -> Context {
        Context {
            native_context: NativeContext::Borrowed(UnsafeEGLContextRef { egl_context }),
            gl_info: GLInfo { attributes: None },
            color_surface: ColorSurface::External,
        }
    }

    pub open spec fn after_populating(
        device: Device,
        context: Context,
        populated: (Population, Step<PopulateGLInfo, NativeCall, ()>),
    ) -> (GLLoader, Step<FromCurrentContext, NativeCall, Result<(Device, Context), Error>>) {
        let context = Context { gl_info: populated.0.gl_info, ..context };
        (
            populated.0.loader,
            match populated.1 {
                Step::Call(call, populate) => Step::Call(
                    call,
                    FromCurrentContext::Populating { device, context, populate },
                ),
                Step::Done(()) => Step::Done(Ok((device, context))),
            },
        )
    }

    pub open spec fn begin() -> Step<
        FromCurrentContext,
        NativeCall,
        Result<(Device, Context), Error>,
    > {
        Step::Call(NativeCall::GetCurrentDisplay, FromCurrentContext::Display)
    }

    fn resume_populating(
        loader: &mut GLLoader,
        device: Device,
        context: Context,
        population: Population,
        step: Step<PopulateGLInfo, NativeCall, ()>,
    ) -> (lifted: Step<FromCurrentContext, NativeCall, Result<(Device, Context), Error>>)
        ensures
            (*final(loader), lifted) == Self::after_populating(
                device,
                context,
                (population, step),
            ),
    {
        *loader = population.loader;
        let mut context = context;
        context.gl_info = population.gl_info;
        match step {
            Step::Call(call, populate) => Step::Call(
                call,
                FromCurrentContext::Populating { device, context, populate },
            ),
            Step::Done(()) => Step::Done(Ok((device, context))),
        }
    }
}

impl Operation for FromCurrentContext {
    type Target = GLLoader;

    type Call = NativeCall;

    type Reply = NativeReply;

    type Output = Result<(Device, Context), Error>;

    open spec fn check_of(self, target: GLLoader, reply: NativeReply) -> ReplyCheck {
        match self {
            FromCurrentContext::Display => if reply.handle == NO_DISPLAY {
                ReplyCheck::DebugFault
            } else {
                ReplyCheck::Accepted
            },
            FromCurrentContext::Context { .. } => if reply.handle == NO_CONTEXT {
                ReplyCheck::DebugFault
            } else {
                ReplyCheck::Accepted
            },
            FromCurrentContext::Device { .. } => if reply.status == FALSE {
                ReplyCheck::Fault
            } else if reply.handle == NO_DEVICE_EXT {
                ReplyCheck::DebugFault
            } else {
                ReplyCheck::Accepted
            },
            FromCurrentContext::Direct3D { .. } => if reply.status == FALSE || reply.handle == 0 {
                ReplyCheck::Fault
            } else {
                ReplyCheck::Accepted
            },
            FromCurrentContext::Populating { context, populate, .. } => populate.check_of(
                Population { gl_info: context.gl_info, loader: target },
                reply,
            ),
        }
    }

    open spec fn next(self, target: GLLoader, reply: NativeReply) -> (
        GLLoader,
        Step<FromCurrentContext, NativeCall, Result<(Device, Context), Error>>,
    ) {
        match self {
            FromCurrentContext::Display => (
                target,
                Step::Call(
                    NativeCall::GetCurrentContext,
                    FromCurrentContext::Context { egl_display: reply.handle },
                ),
            ),
            FromCurrentContext::Context { egl_display } => (
                target,
                Step::Call(
                    NativeCall::QueryDisplayAttrib { display: egl_display, attribute: DEVICE_EXT },
                    FromCurrentContext::Device { egl_display, egl_context: reply.handle },
                ),
            ),
            FromCurrentContext::Device { egl_display, egl_context } => (
                target,
                Step::Call(
                    NativeCall::QueryDeviceAttrib {
                        device: reply.handle,
                        attribute: D3D11_DEVICE_ANGLE,
                    },
                    FromCurrentContext::Direct3D {
                        egl_display,
                        egl_context,
                        egl_device: reply.handle,
                    },
                ),
            ),
            FromCurrentContext::Direct3D {
                egl_display,
                egl_context,
                egl_device,
            } => Self::after_populating(
                Device {
                    egl_display,
                    egl_device,
                    d3d11_device: reply.handle,
                    d3d_driver_type: D3D_DRIVER_TYPE_UNKNOWN,
                    surface_bindings: SurfaceBindings::Unbound,
                },
                Self::adopted(egl_context),
                PopulateGLInfo::begin(
                    Population { gl_info: GLInfo { attributes: None }, loader: target },
                    egl_display,
                    egl_context,
                ),
            ),
            FromCurrentContext::Populating { device, context, populate } => Self::after_populating(
                device,
                context,
                populate.next(Population { gl_info: context.gl_info, loader: target }, reply),
            ),
        }
    }

    open spec fn remaining(self) -> nat {
        match self {
            FromCurrentContext::Display => 11,
            FromCurrentContext::Context { .. } => 10,
            FromCurrentContext::Device { .. } => 9,
            FromCurrentContext::Direct3D { .. } => 8,
            FromCurrentContext::Populating { populate, .. } => populate.remaining(),
        }
    }

    proof fn lemma_progress(self, target: GLLoader, reply: NativeReply) {
        if let FromCurrentContext::Populating { context, populate, .. } = self {
            populate.lemma_progress(
                Population { gl_info: context.gl_info, loader: target },
                reply,
            );
        }
    }

    fn check(&self, target: &GLLoader, reply: &NativeReply) -> (check: ReplyCheck) {
        match self {
            FromCurrentContext::Display => if reply.handle == NO_DISPLAY {
                ReplyCheck::DebugFault
            } else {
                ReplyCheck::Accepted
            },
            FromCurrentContext::Context { .. } => if reply.handle == NO_CONTEXT {
                ReplyCheck::DebugFault
            } else {
                ReplyCheck::Accepted
            },
            FromCurrentContext::Device { .. } => if reply.status == FALSE {
                ReplyCheck::Fault
            } else if reply.handle == NO_DEVICE_EXT {
                ReplyCheck::DebugFault
            } else {
                ReplyCheck::Accepted
            },
            FromCurrentContext::Direct3D { .. } => if reply.status == FALSE || reply.handle == 0 {
                ReplyCheck::Fault
            } else {
                ReplyCheck::Accepted
            },
            FromCurrentContext::Populating { context, populate, .. } => populate.check(
                &Population { gl_info: context.gl_info, loader: *target },
                reply,
            ),
        }
    }

    fn step(self, target: &mut GLLoader, reply: NativeReply) -> (step: Step<
        FromCurrentContext,
        NativeCall,
        Result<(Device, Context), Error>,
    >) {
        match self {
            FromCurrentContext::Display => Step::Call(
                NativeCall::GetCurrentContext,
                FromCurrentContext::Context { egl_display: reply.handle },
            ),
            FromCurrentContext::Context { egl_display } => Step::Call(
                NativeCall::QueryDisplayAttrib { display: egl_display, attribute: DEVICE_EXT },
                FromCurrentContext::Device { egl_display, egl_context: reply.handle },
            ),
            FromCurrentContext::Device { egl_display, egl_context } => Step::Call(
                NativeCall::QueryDeviceAttrib {
                    device: reply.handle,
                    attribute: D3D11_DEVICE_ANGLE,
                },
                FromCurrentContext::Direct3D {
                    egl_display,
                    egl_context,
                    egl_device: reply.handle,
                },
            ),
            FromCurrentContext::Direct3D { egl_display, egl_context, egl_device } => {
                let device = Device {
                    egl_display,
                    egl_device,
                    d3d11_device: reply.handle,
                    d3d_driver_type: D3D_DRIVER_TYPE_UNKNOWN,
                    surface_bindings: SurfaceBindings::new(),
                };
                let context = Context {
                    native_context: NativeContext::Borrowed(UnsafeEGLContextRef { egl_context }),
                    gl_info: GLInfo::new(),
                    color_surface: ColorSurface::External,
                };
                let mut population = Population { gl_info: context.gl_info, loader: *target };
                let populating = PopulateGLInfo::start(&mut population, egl_display, egl_context);
                Self::resume_populating(target, device, context, population, populating)
            },
            FromCurrentContext::Populating { device, context, populate } => {
                let mut population = Population { gl_info: context.gl_info, loader: *target };
                let next = populate.step(&mut population, reply);
                Self::resume_populating(target, device, context, population, next)
            },
        }
    }
}

impl Device {
    /// Starts to open the device and the context that belong to the current EGL
    /// context.
    ///
    /// The EGL context is not retained, since EGL has no way to do so: the caller has
    /// to keep it alive for as long as this context is used. This is a last resort.
    ///
    /// It is meant for contexts that were created elsewhere, and works whatever they
    /// render to. The target stays opaque: it is neither changed nor looked at. So
    /// whatever asks for the surface of such a context, replaces it or binds it fails.
    pub fn from_current_context() -> (step: Step<
        FromCurrentContext,
        NativeCall,
        Result<(Device, Context), Error>,
    >)
        ensures
            step == FromCurrentContext::begin(),
    {
        Step::Call(NativeCall::GetCurrentDisplay, FromCurrentContext::Display)
    }
}

} // verus!
