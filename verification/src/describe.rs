//! Asking EGL what kind a context is of.
use crate::context::{Context, ContextDescriptor};
use crate::device::Device;
use crate::egl::{
    EGLContext, EGLDisplay, EGLint, NativeCall, NativeReply, CONFIG_ID, CONTEXT_CLIENT_VERSION,
    FALSE,
};
use crate::operation::{Operation, ReplyCheck, Step};
use vstd::prelude::*;

verus! {

/// A context that is being described.
#[derive(Clone, Copy, Debug, PartialEq, Eq, Structural)]
pub enum DescribeContext {
    /// EGL is asked for the configuration.
    ConfigId { display: EGLDisplay, context: EGLContext },
    /// EGL is asked for the version.
    ClientVersion { egl_config_id: EGLint },
}

impl DescribeContext {
    pub open spec fn begin(display: EGLDisplay, context: EGLContext) -> Step<
        DescribeContext,
        NativeCall,
        ContextDescriptor,
    > {
        Step::Call(
            NativeCall::QueryContext {
                display,
                context,
                attribute: CONFIG_ID,
            },
            DescribeContext::ConfigId { display, context },
        )
    }

    pub fn start(display: EGLDisplay, context: EGLContext) -> (step: Step<
        DescribeContext,
        NativeCall,
        ContextDescriptor,
    >)
        ensures
            step == Self::begin(display, context),
    {
        Step::Call(
            NativeCall::QueryContext {
                display,
                context,
                attribute: CONFIG_ID,
            },
            DescribeContext::ConfigId { display, context },
        )
    }
}

impl Operation for DescribeContext {
    type Target = ();

    type Call = NativeCall;

    type Reply = NativeReply;

    type Output = ContextDescriptor;

    open spec fn check_of(self, target: (), reply: NativeReply) -> ReplyCheck {
        if reply.status == FALSE {
            ReplyCheck::Fault
        } else if self is ClientVersion && reply.value <= 0 {
            ReplyCheck::DebugFault
        } else {
            ReplyCheck::Accepted
        }
    }

    open spec fn next(self, target: (), reply: NativeReply) -> (
        (),
        Step<DescribeContext, NativeCall, ContextDescriptor>,
    ) {
        (
            (),
            match self {
                DescribeContext::ConfigId { display, context } => Step::Call(
                    NativeCall::QueryContext {
                        display,
                        context,
                        attribute: CONTEXT_CLIENT_VERSION,
                    },
                    DescribeContext::ClientVersion { egl_config_id: reply.value },
                ),
                DescribeContext::ClientVersion { egl_config_id } => Step::Done(
                    ContextDescriptor::of_context(egl_config_id, reply.value),
                ),
            },
        )
    }

    open spec fn remaining(self) -> nat {
        match self {
            DescribeContext::ConfigId { .. } => 2,
            DescribeContext::ClientVersion { .. } => 1,
        }
    }

    proof fn lemma_progress(self, target: (), reply: NativeReply) {
    }

    fn check(&self, _target: &(), reply: &NativeReply) -> (check: ReplyCheck) {
        if reply.status == FALSE {
            return ReplyCheck::Fault;
        }
        match self {
            DescribeContext::ClientVersion { .. } => if reply.value <= 0 {
                ReplyCheck::DebugFault
            } else {
                ReplyCheck::Accepted
            },
            DescribeContext::ConfigId { .. } => ReplyCheck::Accepted,
        }
    }

    fn step(self, _target: &mut (), reply: NativeReply) -> (step: Step<
        DescribeContext,
        NativeCall,
        ContextDescriptor,
    >) {
        match self {
            DescribeContext::ConfigId { display, context } => Step::Call(
                NativeCall::QueryContext { display, context, attribute: CONTEXT_CLIENT_VERSION },
                DescribeContext::ClientVersion { egl_config_id: reply.value },
            ),
            DescribeContext::ClientVersion { egl_config_id } => Step::Done(
                ContextDescriptor::for_context(egl_config_id, reply.value),
            ),
        }
    }
}

impl Device {
    /// Starts to find out what kind the context is of.
    pub fn context_descriptor(&self, context: &Context) -> (step: Step<
        DescribeContext,
        NativeCall,
        ContextDescriptor,
    >)
        ensures
            step == DescribeContext::begin(self.egl_display, context.native_context.handle()),
    {
        DescribeContext::start(self.egl_display, context.native_context.egl_context())
    }
}

} // verus!
