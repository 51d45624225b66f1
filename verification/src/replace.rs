//! Giving a context another surface.
use crate::context::{Context, ContextDescriptor};
use crate::current::MakeCurrent;
use crate::describe::DescribeContext;
use crate::device::Device;
use crate::egl::{EGLDisplay, NativeCall, NativeReply};
use crate::error::Error;
use crate::operation::{Operation, ReplyCheck, Step};
use crate::surface::{ColorSurface, Surface};
use vstd::prelude::*;

verus! {

/// A context that is being given another surface.
#[derive(Debug, PartialEq, Eq)]
pub enum ReplaceColorSurface {
    /// EGL is asked what kind the context is of.
    Describing { display: EGLDisplay, new_color_surface: Surface, describe: DescribeContext },
    /// The context has the new surface, and is made current with it.
    Binding { old_surface: Option<Surface>, current: MakeCurrent },
}

impl ReplaceColorSurface {
    pub open spec fn after_binding(
        old_surface: Option<Surface>,
        step: Step<MakeCurrent, NativeCall, Result<(), Error>>,
    ) -> Step<ReplaceColorSurface, NativeCall, Result<Option<Surface>, Error>> {
        match step {
            Step::Call(call, current) => Step::Call(
                call,
                ReplaceColorSurface::Binding { old_surface, current },
            ),
            Step::Done(Ok(())) => Step::Done(Ok(old_surface)),
            Step::Done(Err(error)) => Step::Done(Err(error)),
        }
    }

    pub open spec fn after_describing(
        context: Context,
        display: EGLDisplay,
        new_color_surface: Surface,
        step: Step<DescribeContext, NativeCall, ContextDescriptor>,
    ) -> (Context, Step<ReplaceColorSurface, NativeCall, Result<Option<Surface>, Error>>) {
        match step {
            Step::Call(call, describe) => (
                context,
                Step::Call(
                    call,
                    ReplaceColorSurface::Describing { display, new_color_surface, describe },
                ),
            ),
            Step::Done(descriptor) => if !new_color_surface.descriptor.fits(descriptor) {
                (context, Step::Done(Err(Error::IncompatibleContextDescriptor)))
            } else {
                let after = Context {
                    color_surface: ColorSurface::Managed(new_color_surface),
                    ..context
                };
                (
                    after,
                    Self::after_binding(
                        context.managed_surface(),
                        MakeCurrent::begin(display, after),
                    ),
                )
            },
        }
    }

    pub open spec fn begin(context: Context, display: EGLDisplay, new_color_surface: Surface) -> (
        Context,
        Step<ReplaceColorSurface, NativeCall, Result<Option<Surface>, Error>>,
    ) {
        if context.color_surface is External {
            (context, Step::Done(Err(Error::ExternalRenderTarget)))
        } else {
            Self::after_describing(
                context,
                display,
                new_color_surface,
                DescribeContext::begin(display, context.native_context.handle()),
            )
        }
    }

    fn resume_binding(
        old_surface: Option<Surface>,
        step: Step<MakeCurrent, NativeCall, Result<(), Error>>,
    ) -> (lifted: Step<ReplaceColorSurface, NativeCall, Result<Option<Surface>, Error>>)
        ensures
            lifted == Self::after_binding(old_surface, step),
    {
        match step {
            Step::Call(call, current) => Step::Call(
                call,
                ReplaceColorSurface::Binding { old_surface, current },
            ),
            Step::Done(Ok(())) => Step::Done(Ok(old_surface)),
            Step::Done(Err(error)) => Step::Done(Err(error)),
        }
    }

    fn resume_describing(
        context: &mut Context,
        display: EGLDisplay,
        new_color_surface: Surface,
        step: Step<DescribeContext, NativeCall, ContextDescriptor>,
    ) -> (lifted: Step<ReplaceColorSurface, NativeCall, Result<Option<Surface>, Error>>)
        ensures
            (*final(context), lifted) == Self::after_describing(
                *old(context),
                display,
                new_color_surface,
                step,
            ),
    {
        match step {
            Step::Call(call, describe) => Step::Call(
                call,
                ReplaceColorSurface::Describing { display, new_color_surface, describe },
            ),
            Step::Done(descriptor) => {
                if !new_color_surface.descriptor.is_compatible_with(&descriptor) {
                    return Step::Done(Err(Error::IncompatibleContextDescriptor));
                }
                let mut color_surface = ColorSurface::Managed(new_color_surface);
                std::mem::swap(&mut context.color_surface, &mut color_surface);
                let old_surface = match color_surface {
                    ColorSurface::Managed(old_surface) => Some(old_surface),
                    ColorSurface::Nothing | ColorSurface::External => None,
                };
                let binding = MakeCurrent::start(display, context);
                Self::resume_binding(old_surface, binding)
            },
        }
    }
}

impl Operation for ReplaceColorSurface {
    type Target = Context;

    type Call = NativeCall;

    type Reply = NativeReply;

    type Output = Result<Option<Surface>, Error>;

    open spec fn check_of(self, target: Context, reply: NativeReply) -> ReplyCheck {
        match self {
            ReplaceColorSurface::Describing { describe, .. } => describe.check_of((), reply),
            ReplaceColorSurface::Binding { current, .. } => current.check_of((), reply),
        }
    }

    open spec fn next(self, target: Context, reply: NativeReply) -> (
        Context,
        Step<ReplaceColorSurface, NativeCall, Result<Option<Surface>, Error>>,
    ) {
        match self {
            ReplaceColorSurface::Describing {
                display,
                new_color_surface,
                describe,
            } => Self::after_describing(
                target,
                display,
                new_color_surface,
                describe.next((), reply).1,
            ),
            ReplaceColorSurface::Binding { old_surface, current } => (
                target,
                Self::after_binding(old_surface, current.next((), reply).1),
            ),
        }
    }

    open spec fn remaining(self) -> nat {
        match self {
            ReplaceColorSurface::Describing { describe, .. } => describe.remaining() + 3,
            ReplaceColorSurface::Binding { current, .. } => current.remaining(),
        }
    }

    proof fn lemma_progress(self, target: Context, reply: NativeReply) {
        match self {
            ReplaceColorSurface::Describing { describe, .. } => describe.lemma_progress((), reply),
            ReplaceColorSurface::Binding { current, .. } => current.lemma_progress((), reply),
        }
    }

    fn check(&self, _target: &Context, reply: &NativeReply) -> (check: ReplyCheck) {
        match self {
            ReplaceColorSurface::Describing { describe, .. } => describe.check(&(), reply),
            ReplaceColorSurface::Binding { current, .. } => current.check(&(), reply),
        }
    }

    fn step(self, target: &mut Context, reply: NativeReply) -> (step: Step<
        ReplaceColorSurface,
        NativeCall,
        Result<Option<Surface>, Error>,
    >) {
        let mut unit = ();
        match self {
            ReplaceColorSurface::Describing { display, new_color_surface, describe } => {
                let next = describe.step(&mut unit, reply);
                Self::resume_describing(target, display, new_color_surface, next)
            },
            ReplaceColorSurface::Binding { old_surface, current } => {
                let next = current.step(&mut unit, reply);
                Self::resume_binding(old_surface, next)
            },
        }
    }
}

impl Device {
    /// Starts to give the context another surface. In the end the context is current
    /// with it, and the surface that it had before is given back.
    ///
    /// Where the context cannot be made current it has the new surface all the same,
    /// and the surface that it had before is dropped.
    pub fn replace_context_color_surface(
        &self,
        context: &mut Context,
        new_color_surface: Surface,
    ) -> (step: Step<ReplaceColorSurface, NativeCall, Result<Option<Surface>, Error>>)
        ensures
            (*final(context), step) == ReplaceColorSurface::begin(
                *old(context),
                self.egl_display,
                new_color_surface,
            ),
            *final(context) == *old(context),
    {
        if let ColorSurface::External = context.color_surface {
            return Step::Done(Err(Error::ExternalRenderTarget));
        }
        let describing = self.context_descriptor(context);
        ReplaceColorSurface::resume_describing(
            context,
            self.egl_display,
            new_color_surface,
            describing,
        )
    }
}

} // verus!
