//! EGL contexts, owned or borrowed.
use crate::destroy::DestroyNativeContext;
use crate::egl::{EGLContext, EGLDisplay, NativeCall, NO_CONTEXT, NO_SURFACE};
use crate::operation::Step;
use vstd::prelude::*;

verus! {

/// An EGL context that was created here, and is destroyed here.
#[derive(Clone, Copy, Debug, PartialEq, Eq, Structural)]
pub struct OwnedEGLContext {
    pub egl_context: EGLContext,
}

impl OwnedEGLContext {
    pub open spec fn destroyed(self) -> bool {
        self.egl_context == NO_CONTEXT
    }

    pub fn egl_context(&self) -> (context: EGLContext)
        ensures
            context == self.egl_context,
    {
        self.egl_context
    }

    pub fn is_destroyed(&self) -> (destroyed: bool)
        ensures
            destroyed == self.destroyed(),
            destroyed == (self.egl_context == NO_CONTEXT),
    {
        self.egl_context == NO_CONTEXT
    }

    /// Starts to destroy the context: no context is to be current any more, before
    /// this one is deleted.
    pub fn destroy(
        &mut self,
        display: EGLDisplay,
    ) -> (step: Step<DestroyNativeContext, NativeCall, ()>)
        requires
            !old(self).destroyed(),
        ensures
            *final(self) == *old(self),
            step == Step::<DestroyNativeContext, NativeCall, ()>::Call(
                NativeCall::MakeCurrent {
                    display,
                    draw: NO_SURFACE,
                    read: NO_SURFACE,
                    context: NO_CONTEXT,
                },
                DestroyNativeContext::Unbinding { display },
            ),
    {
        Step::Call(
            NativeCall::MakeCurrent {
                display,
                draw: NO_SURFACE,
                read: NO_SURFACE,
                context: NO_CONTEXT,
            },
            DestroyNativeContext::Unbinding { display },
        )
    }
}

/// An EGL context that was created elsewhere. It is not retained: whoever created
/// it keeps it alive, and destroys it.
#[derive(Clone, Copy, Debug, PartialEq, Eq, Structural)]
pub struct UnsafeEGLContextRef {
    pub egl_context: EGLContext,
}

impl UnsafeEGLContextRef {
    pub open spec fn destroyed(self) -> bool {
        self.egl_context == NO_CONTEXT
    }

    pub fn egl_context(&self) -> (context: EGLContext)
        ensures
            context == self.egl_context,
    {
        self.egl_context
    }

    pub fn is_destroyed(&self) -> (destroyed: bool)
        ensures
            destroyed == self.destroyed(),
            destroyed == (self.egl_context == NO_CONTEXT),
    {
        self.egl_context == NO_CONTEXT
    }

    /// Lets go of the context. EGL is not told.
    pub fn destroy(
        &mut self,
        _display: EGLDisplay,
    ) -> (step: Step<DestroyNativeContext, NativeCall, ()>)
        requires
            !old(self).destroyed(),
        ensures
            final(self).destroyed(),
            final(self).egl_context == NO_CONTEXT,
            step == Step::<DestroyNativeContext, NativeCall, ()>::Done(()),
    {
        self.egl_context = NO_CONTEXT;
        Step::Done(())
    }
}

/// The EGL context of a context.
#[derive(Clone, Copy, Debug, PartialEq, Eq, Structural)]
pub enum NativeContext {
    Owned(OwnedEGLContext),
    Borrowed(UnsafeEGLContextRef),
}

impl NativeContext {
    pub open spec fn handle(self) -> EGLContext {
        match self {
            NativeContext::Owned(context) => context.egl_context,
            NativeContext::Borrowed(context) => context.egl_context,
        }
    }

    pub open spec fn destroyed(self) -> bool {
        self.handle() == NO_CONTEXT
    }

    /// This context, destroyed.
    pub open spec fn cleared(self) -> NativeContext {
        match self {
            NativeContext::Owned(_) => NativeContext::Owned(
                OwnedEGLContext { egl_context: NO_CONTEXT },
            ),
            NativeContext::Borrowed(_) => NativeContext::Borrowed(
                UnsafeEGLContextRef { egl_context: NO_CONTEXT },
            ),
        }
    }

    pub fn egl_context(&self) -> (context: EGLContext)
        ensures
            context == self.handle(),
            *self matches NativeContext::Owned(owned) ==> context == owned.egl_context,
            *self matches NativeContext::Borrowed(borrowed) ==> context == borrowed.egl_context,
    {
        match self {
            NativeContext::Owned(context) => context.egl_context(),
            NativeContext::Borrowed(context) => context.egl_context(),
        }
    }

    pub fn is_destroyed(&self) -> (destroyed: bool)
        ensures
            destroyed == self.destroyed(),
            *self matches NativeContext::Owned(owned) ==> destroyed == (owned.egl_context
                == NO_CONTEXT),
            *self matches NativeContext::Borrowed(borrowed) ==> destroyed == (borrowed.egl_context
                == NO_CONTEXT),
    {
        match self {
            NativeContext::Owned(context) => context.is_destroyed(),
            NativeContext::Borrowed(context) => context.is_destroyed(),
        }
    }

    /// Starts to destroy the context.
    pub fn destroy(
        &mut self,
        display: EGLDisplay,
    ) -> (step: Step<DestroyNativeContext, NativeCall, ()>)
        requires
            !old(self).destroyed(),
        ensures
            (*final(self), step) == DestroyNativeContext::begin(*old(self), display),
            *old(self) is Owned ==> {
                &&& *final(self) == *old(self)
                &&& step == Step::<DestroyNativeContext, NativeCall, ()>::Call(
                    NativeCall::MakeCurrent {
                        display,
                        draw: NO_SURFACE,
                        read: NO_SURFACE,
                        context: NO_CONTEXT,
                    },
                    DestroyNativeContext::Unbinding { display },
                )
            },
            *old(self) is Borrowed ==> {
                &&& *final(self) == NativeContext::Borrowed(
                    UnsafeEGLContextRef { egl_context: NO_CONTEXT },
                )
                &&& step == Step::<DestroyNativeContext, NativeCall, ()>::Done(())
            },
    {
        match self {
            NativeContext::Owned(context) => context.destroy(display),
            NativeContext::Borrowed(context) => context.destroy(display),
        }
    }

    /// Forgets the handle of a context that is gone.
    pub fn clear(&mut self)
        ensures
            *final(self) == old(self).cleared(),
            *old(self) is Owned ==> *final(self) == NativeContext::Owned(
                OwnedEGLContext { egl_context: NO_CONTEXT },
            ),
            *old(self) is Borrowed ==> *final(self) == NativeContext::Borrowed(
                UnsafeEGLContextRef { egl_context: NO_CONTEXT },
            ),
    {
        match self {
            NativeContext::Owned(context) => {
                context.egl_context = NO_CONTEXT;
            },
            NativeContext::Borrowed(context) => {
                context.egl_context = NO_CONTEXT;
            },
        }
    }
}

} // verus!
