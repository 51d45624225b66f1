//! Destroying contexts.
use crate::context::Context;
use crate::device::Device;
use crate::egl::{EGLDisplay, NativeCall, NativeReply, FALSE, NO_CONTEXT, NO_SURFACE};
use crate::error::Error;
use crate::native_context::NativeContext;
use crate::operation::{Operation, ReplyCheck, Step};
use crate::surface::ColorSurface;
use vstd::prelude::*;

verus! {

/// An EGL context that is being destroyed.
#[derive(Clone, Copy, Debug, PartialEq, Eq, Structural)]
pub enum DestroyNativeContext {
    /// No context is to be current. Whether that worked does not matter.
    Unbinding { display: EGLDisplay },
    /// The context is to be deleted.
    Deleting,
}

impl DestroyNativeContext {
    pub open spec fn begin(target: NativeContext, display: EGLDisplay) -> (
        NativeContext,
        Step<DestroyNativeContext, NativeCall, ()>,
    ) {
        match target {
            NativeContext::Owned(_) => (
                target,
                Step::Call(
                    NativeCall::MakeCurrent {
                        display,
                        draw: NO_SURFACE,
                        read: NO_SURFACE,
                        context: NO_CONTEXT,
                    },
                    DestroyNativeContext::Unbinding { display },
                ),
            ),
            NativeContext::Borrowed(_) => (target.cleared(), Step::Done(())),
        }
    }
}

impl Operation for DestroyNativeContext {
    type Target = NativeContext;

    type Call = NativeCall;

    type Reply = NativeReply;

    type Output = ();

    open spec fn check_of(self, target: NativeContext, reply: NativeReply) -> ReplyCheck {
        if self is Deleting && reply.status == FALSE {
            ReplyCheck::Fault
        } else {
            ReplyCheck::Accepted
        }
    }

    open spec fn next(self, target: NativeContext, reply: NativeReply) -> (
        NativeContext,
        Step<DestroyNativeContext, NativeCall, ()>,
    ) {
        match self {
            DestroyNativeContext::Unbinding { display } => (
                target,
                Step::Call(
                    NativeCall::DestroyContext { display, context: target.handle() },
                    DestroyNativeContext::Deleting,
                ),
            ),
            DestroyNativeContext::Deleting => (target.cleared(), Step::Done(())),
        }
    }

    open spec fn remaining(self) -> nat {
        match self {
            DestroyNativeContext::Unbinding { .. } => 2,
            DestroyNativeContext::Deleting => 1,
        }
    }

    proof fn lemma_progress(self, target: NativeContext, reply: NativeReply) {
    }

    fn check(&self, _target: &NativeContext, reply: &NativeReply) -> (check: ReplyCheck) {
        match self {
            DestroyNativeContext::Deleting => if reply.status == FALSE {
                ReplyCheck::Fault
            } else {
                ReplyCheck::Accepted
            },
            DestroyNativeContext::Unbinding { .. } => ReplyCheck::Accepted,
        }
    }

    fn step(self, target: &mut NativeContext, _reply: NativeReply) -> (step: Step<
        DestroyNativeContext,
        NativeCall,
        (),
    >) {
        match self {
            DestroyNativeContext::Unbinding { display } => {
                let context = target.egl_context();
                Step::Call(
                    NativeCall::DestroyContext { display, context },
                    DestroyNativeContext::Deleting,
                )
            },
            DestroyNativeContext::Deleting => {
                target.clear();
                Step::Done(())
            },
        }
    }
}

/// A context that is being destroyed.
#[derive(Clone, Copy, Debug, PartialEq, Eq, Structural)]
pub enum DestroyContext {
    /// The surface of the context is to be destroyed. The EGL context has to live on
    /// meanwhile.
    Surface { display: EGLDisplay },
    /// The EGL context is to be destroyed.
    Native { native: DestroyNativeContext },
}

impl DestroyContext {
    /// The context goes on as its EGL context does.
    pub open spec fn lift(
        context: Context,
        native: (NativeContext, Step<DestroyNativeContext, NativeCall, ()>),
    ) -> (Context, Step<DestroyContext, NativeCall, Result<(), Error>>) {
        (Context { native_context: native.0, ..context }, Self::lift_step(native.1))
    }

    pub open spec fn lift_step(step: Step<DestroyNativeContext, NativeCall, ()>) -> Step<
        DestroyContext,
        NativeCall,
        Result<(), Error>,
    > {
        match step {
            Step::Call(call, native) => Step::Call(call, DestroyContext::Native { native }),
            Step::Done(()) => Step::Done(Ok(())),
        }
    }

    pub open spec fn begin(context: Context, display: EGLDisplay) -> (
        Context,
        Step<DestroyContext, NativeCall, Result<(), Error>>,
    ) {
        if context.native_context.destroyed() {
            (context, Step::Done(Ok(())))
        } else {
            let detached = Context { color_surface: ColorSurface::Nothing, ..context };
            match context.color_surface {
                ColorSurface::Managed(surface) => (
                    detached,
                    Step::Call(
                        NativeCall::DestroySurface { surface },
                        DestroyContext::Surface { display },
                    ),
                ),
                _ => Self::lift(
                    detached,
                    DestroyNativeContext::begin(context.native_context, display),
                ),
            }
        }
    }

    fn after_native(step: Step<DestroyNativeContext, NativeCall, ()>) -> (lifted: Step<
        DestroyContext,
        NativeCall,
        Result<(), Error>,
    >)
        ensures
            lifted == Self::lift_step(step),
    {
        match step {
            Step::Call(call, native) => Step::Call(call, DestroyContext::Native { native }),
            Step::Done(()) => Step::Done(Ok(())),
        }
    }
}

impl Operation for DestroyContext {
    type Target = Context;

    type Call = NativeCall;

    type Reply = NativeReply;

    type Output = Result<(), Error>;

    open spec fn check_of(self, target: Context, reply: NativeReply) -> ReplyCheck {
        match self {
            DestroyContext::Surface { .. } => if target.native_context.destroyed() {
                ReplyCheck::Fault
            } else {
                ReplyCheck::Accepted
            },
            DestroyContext::Native { native } => native.check_of(target.native_context, reply),
        }
    }

    open spec fn next(self, target: Context, reply: NativeReply) -> (
        Context,
        Step<DestroyContext, NativeCall, Result<(), Error>>,
    ) {
        match self {
            DestroyContext::Surface { display } => Self::lift(
                target,
                DestroyNativeContext::begin(target.native_context, display),
            ),
            DestroyContext::Native { native } => Self::lift(
                target,
                native.next(target.native_context, reply),
            ),
        }
    }

    open spec fn remaining(self) -> nat {
        match self {
            DestroyContext::Surface { .. } => 3,
            DestroyContext::Native { native } => native.remaining(),
        }
    }

    proof fn lemma_progress(self, target: Context, reply: NativeReply) {
        if let DestroyContext::Native { native } = self {
            native.lemma_progress(target.native_context, reply);
        }
    }

    fn check(&self, target: &Context, reply: &NativeReply) -> (check: ReplyCheck) {
        match self {
            DestroyContext::Surface { .. } => if target.native_context.is_destroyed() {
                ReplyCheck::Fault
            } else {
                ReplyCheck::Accepted
            },
            DestroyContext::Native { native } => native.check(&target.native_context, reply),
        }
    }

    fn step(self, target: &mut Context, reply: NativeReply) -> (step: Step<
        DestroyContext,
        NativeCall,
        Result<(), Error>,
    >) {
        match self {
            DestroyContext::Surface { display } => {
                let native = target.native_context.destroy(display);
                Self::after_native(native)
            },
            DestroyContext::Native { native } => {
                let next = native.step(&mut target.native_context, reply);
                Self::after_native(next)
            },
        }
    }
}

impl Device {
    /// Starts to destroy the context. One that has been destroyed before is left
    /// alone.
    pub fn destroy_context(&self, context: &mut Context) -> (step: Step<
        DestroyContext,
        NativeCall,
        Result<(), Error>,
    >)
        ensures
            (*final(context), step) == DestroyContext::begin(*old(context), self.egl_display),
            final(context).gl_info == old(context).gl_info,
            old(context).native_context.destroyed() ==> *final(context) == *old(context),
            !old(context).native_context.destroyed() ==> final(context).color_surface is Nothing,
            old(context).native_context is Owned ==> final(context).native_context == old(
                context,
            ).native_context,
    {
        if context.native_context.is_destroyed() {
            return Step::Done(Ok(()));
        }
        let mut color_surface = ColorSurface::Nothing;
        std::mem::swap(&mut context.color_surface, &mut color_surface);
        if let ColorSurface::Managed(surface) = color_surface {
            return Step::Call(
                NativeCall::DestroySurface { surface },
                DestroyContext::Surface { display: self.egl_display },
            );
        }
        let native = context.native_context.destroy(self.egl_display);
        DestroyContext::after_native(native)
    }
}

} // verus!
