//! Making contexts current.
use crate::context::Context;
use crate::device::Device;
use crate::egl::{EGLContext, EGLDisplay, NativeCall, NativeReply, FALSE, NO_CONTEXT, NO_SURFACE};
use crate::error::{to_windowing_api_error, Error, WindowingApiError};
use crate::operation::{Operation, ReplyCheck, Step};
use crate::surface::ColorSurface;
use vstd::prelude::*;

verus! {

/// A context that is being made current, or not current.
#[derive(Clone, Copy, Debug, PartialEq, Eq, Structural)]
pub enum MakeCurrent {
    /// The EGL surface of the context is looked up.
    LookingUp { display: EGLDisplay, context: EGLContext },
    /// EGL is told.
    Binding,
    /// That failed; EGL is asked why.
    Failing,
}

impl MakeCurrent {
    pub open spec fn begin(display: EGLDisplay, context: Context) -> Step<
        MakeCurrent,
        NativeCall,
        Result<(), Error>,
    > {
        match context.color_surface {
            ColorSurface::Managed(surface) => Step::Call(
                NativeCall::LookupSurface { handle: surface.handle },
                MakeCurrent::LookingUp {
                    display,
                    context: context.native_context.handle(),
                },
            ),
            ColorSurface::External => Step::Done(Err(Error::ExternalRenderTarget)),
            ColorSurface::Nothing => Step::Call(
                NativeCall::MakeCurrent {
                    display,
                    draw: NO_SURFACE,
                    read: NO_SURFACE,
                    context: context.native_context.handle(),
                },
                MakeCurrent::Binding,
            ),
        }
    }

    pub fn start(display: EGLDisplay, context: &Context) -> (step: Step<
        MakeCurrent,
        NativeCall,
        Result<(), Error>,
    >)
        ensures
            step == Self::begin(display, *context),
    {
        match &context.color_surface {
            ColorSurface::Managed(surface) => Step::Call(
                NativeCall::LookupSurface { handle: surface.handle },
                MakeCurrent::LookingUp { display, context: context.native_context.egl_context() },
            ),
            ColorSurface::External => Step::Done(Err(Error::ExternalRenderTarget)),
            ColorSurface::Nothing => Step::Call(
                NativeCall::MakeCurrent {
                    display,
                    draw: NO_SURFACE,
                    read: NO_SURFACE,
                    context: context.native_context.egl_context(),
                },
                MakeCurrent::Binding,
            ),
        }
    }

    pub open spec fn begin_not_current(display: EGLDisplay) -> Step<
        MakeCurrent,
        NativeCall,
        Result<(), Error>,
    > {
        Step::Call(
            NativeCall::MakeCurrent {
                display,
                draw: NO_SURFACE,
                read: NO_SURFACE,
                context: NO_CONTEXT,
            },
            MakeCurrent::Binding,
        )
    }
}

impl Operation for MakeCurrent {
    type Target = ();

    type Call = NativeCall;

    type Reply = NativeReply;

    type Output = Result<(), Error>;

    open spec fn check_of(self, target: (), reply: NativeReply) -> ReplyCheck {
        ReplyCheck::Accepted
    }

    open spec fn next(self, target: (), reply: NativeReply) -> (
        (),
        Step<MakeCurrent, NativeCall, Result<(), Error>>,
    ) {
        (
            (),
            match self {
                MakeCurrent::LookingUp { display, context } => Step::Call(
                    NativeCall::MakeCurrent {
                        display,
                        draw: reply.handle,
                        read: reply.handle,
                        context,
                    },
                    MakeCurrent::Binding,
                ),
                MakeCurrent::Binding => if reply.status == FALSE {
                    Step::Call(NativeCall::GetError, MakeCurrent::Failing)
                } else {
                    Step::Done(Ok(()))
                },
                MakeCurrent::Failing => Step::Done(
                    Err(Error::MakeCurrentFailed(WindowingApiError { code: reply.value })),
                ),
            },
        )
    }

    open spec fn remaining(self) -> nat {
        match self {
            MakeCurrent::LookingUp { .. } => 3,
            MakeCurrent::Binding => 2,
            MakeCurrent::Failing => 1,
        }
    }

    proof fn lemma_progress(self, target: (), reply: NativeReply) {
    }

    fn check(&self, _target: &(), _reply: &NativeReply) -> (check: ReplyCheck) {
        ReplyCheck::Accepted
    }

    fn step(self, _target: &mut (), reply: NativeReply) -> (step: Step<
        MakeCurrent,
        NativeCall,
        Result<(), Error>,
    >) {
        match self {
            MakeCurrent::LookingUp { display, context } => Step::Call(
                NativeCall::MakeCurrent {
                    display,
                    draw: reply.handle,
                    read: reply.handle,
                    context,
                },
                MakeCurrent::Binding,
            ),
            MakeCurrent::Binding => {
                if reply.status == FALSE {
                    return Step::Call(NativeCall::GetError, MakeCurrent::Failing);
                }
                Step::Done(Ok(()))
            },
            MakeCurrent::Failing => {
                let error = to_windowing_api_error(reply.value);
                Step::Done(Err(Error::MakeCurrentFailed(error)))
            },
        }
    }
}

impl Device {
    /// Starts to make the context current, with its surface to draw to and to read
    /// from.
    ///
    /// A context that renders to a target that is not managed here is refused: to bind
    /// it is to bind a surface with it, and its own is not known here.
    pub fn make_context_current(&self, context: &Context) -> (step: Step<
        MakeCurrent,
        NativeCall,
        Result<(), Error>,
    >)
        ensures
            step == MakeCurrent::begin(self.egl_display, *context),
    {
        MakeCurrent::start(self.egl_display, context)
    }

    /// Starts to make no context current.
    pub fn make_context_not_current(&self, _context: &Context) -> (step: Step<
        MakeCurrent,
        NativeCall,
        Result<(), Error>,
    >)
        ensures
            step == MakeCurrent::begin_not_current(self.egl_display),
    {
        Step::Call(
            NativeCall::MakeCurrent {
                display: self.egl_display,
                draw: NO_SURFACE,
                read: NO_SURFACE,
                context: NO_CONTEXT,
            },
            MakeCurrent::Binding,
        )
    }
}

} // verus!
