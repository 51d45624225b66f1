//! Creating contexts.
use crate::attributes::GLInfo;
use crate::config::ResolveConfig;
use crate::context::{Context, ContextDescriptor};
use crate::current::MakeCurrent;
use crate::device::{Device, GLLoader};
use crate::egl::{
    EGLConfig, EGLContext, EGLDisplay, EGLint, NativeCall, NativeReply, CONTEXT_CLIENT_VERSION,
    NONE, NO_CONTEXT,
};
use crate::error::{to_windowing_api_error, Error, WindowingApiError};
use crate::native_context::{NativeContext, OwnedEGLContext};
use crate::operation::{Operation, ReplyCheck, Step};
use crate::populate::{PopulateGLInfo, Population};
use crate::surface::{ColorSurface, Surface};
use vstd::prelude::*;

verus! {

/// The attribute list for a new context of this kind. Behind its end stand some more
/// zeroes, for implementations that read on.
pub open spec fn context_attribute_list(descriptor: ContextDescriptor) -> [EGLint; 6] {
    [CONTEXT_CLIENT_VERSION, descriptor.flavor.version.major as EGLint, NONE, 0, 0, 0]
}

pub fn context_attributes(descriptor: &ContextDescriptor) -> (list: [EGLint; 6])
    ensures
        list == context_attribute_list(*descriptor),
        list@ == seq![
            CONTEXT_CLIENT_VERSION,
            descriptor.flavor.version.major as EGLint,
            NONE,
            0,
            0,
            0,
        ],
{
    [CONTEXT_CLIENT_VERSION, descriptor.flavor.version.major as EGLint, NONE, 0, 0, 0]
}

/// Why a context was not created.
#[derive(Debug, PartialEq, Eq)]
pub struct CreateContextFailure {
    pub error: Error,
    /// The context, if EGL created it and only failed to make it current. It is not
    /// destroyed, and has its surface still.
    pub context: Option<Context>,
}

/// A context that is being created.
#[derive(Debug, PartialEq, Eq)]
pub enum CreateContext {
    /// The configuration is looked up.
    Configuring { display: EGLDisplay, color_surface: Surface, resolve: ResolveConfig },
    /// EGL is asked to create the context.
    Creating { display: EGLDisplay, color_surface: Surface },
    /// That failed; EGL is asked why.
    Failing,
    /// Its GL is found out about.
    Populating { display: EGLDisplay, context: Context, populate: PopulateGLInfo },
    /// It is made current.
    Binding { context: Context, current: MakeCurrent },
}

impl CreateContext {
    /// A context as it is created, with nothing known of its GL.
    pub open spec fn fresh(egl_context: EGLContext, color_surface: Surface) -> Context {
        Context {
            native_context: NativeContext::Owned(OwnedEGLContext { egl_context }),
            gl_info: GLInfo { attributes: None },
            color_surface: ColorSurface::Managed(color_surface),
        }
    }

    pub open spec fn after_configuring(
        display: EGLDisplay,
        color_surface: Surface,
        step: Step<ResolveConfig, NativeCall, EGLConfig>,
    ) -> Step<CreateContext, NativeCall, Result<Context, CreateContextFailure>> {
        match step {
            Step::Call(call, resolve) => Step::Call(
                call,
                CreateContext::Configuring { display, color_surface, resolve },
            ),
            Step::Done(config) => Step::Call(
                NativeCall::CreateContext {
                    display,
                    config,
                    share_context: NO_CONTEXT,
                    context_attributes: context_attribute_list(color_surface.descriptor),
                },
                CreateContext::Creating { display, color_surface },
            ),
        }
    }

    pub open spec fn after_binding(
        context: Context,
        step: Step<MakeCurrent, NativeCall, Result<(), Error>>,
    ) -> Step<CreateContext, NativeCall, Result<Context, CreateContextFailure>> {
        match step {
            Step::Call(call, current) => Step::Call(
                call,
                CreateContext::Binding { context, current },
            ),
            Step::Done(Ok(())) => Step::Done(Ok(context)),
            Step::Done(Err(error)) => Step::Done(
                Err(CreateContextFailure { error, context: Some(context) }),
            ),
        }
    }

    pub open spec fn after_populating(
        display: EGLDisplay,
        context: Context,
        populated: (Population, Step<PopulateGLInfo, NativeCall, ()>),
    ) -> (GLLoader, Step<CreateContext, NativeCall, Result<Context, CreateContextFailure>>) {
        let context = Context { gl_info: populated.0.gl_info, ..context };
        (
            populated.0.loader,
            match populated.1 {
                Step::Call(call, populate) => Step::Call(
                    call,
                    CreateContext::Populating { display, context, populate },
                ),
                Step::Done(()) => Self::after_binding(
                    context,
                    MakeCurrent::begin(display, context),
                ),
            },
        )
    }

    pub open spec fn begin(display: EGLDisplay, color_surface: Surface) -> Step<
        CreateContext,
        NativeCall,
        Result<Context, CreateContextFailure>,
    > {
        Self::after_configuring(
            display,
            color_surface,
            ResolveConfig::begin(display, color_surface.descriptor),
        )
    }

    fn resume_configuring(
        display: EGLDisplay,
        color_surface: Surface,
        step: Step<ResolveConfig, NativeCall, EGLConfig>,
    ) -> (lifted: Step<CreateContext, NativeCall, Result<Context, CreateContextFailure>>)
        ensures
            lifted == Self::after_configuring(display, color_surface, step),
    {
        match step {
            Step::Call(call, resolve) => Step::Call(
                call,
                CreateContext::Configuring { display, color_surface, resolve },
            ),
            Step::Done(config) => {
                let context_attributes = context_attributes(&color_surface.descriptor);
                Step::Call(
                    NativeCall::CreateContext {
                        display,
                        config,
                        share_context: NO_CONTEXT,
                        context_attributes,
                    },
                    CreateContext::Creating { display, color_surface },
                )
            },
        }
    }

    fn resume_binding(
        context: Context,
        step: Step<MakeCurrent, NativeCall, Result<(), Error>>,
    ) -> (lifted: Step<CreateContext, NativeCall, Result<Context, CreateContextFailure>>)
        ensures
            lifted == Self::after_binding(context, step),
    {
        match step {
            Step::Call(call, current) => Step::Call(
                call,
                CreateContext::Binding { context, current },
            ),
            Step::Done(Ok(())) => Step::Done(Ok(context)),
            Step::Done(Err(error)) => Step::Done(
                Err(CreateContextFailure { error, context: Some(context) }),
            ),
        }
    }

    fn resume_populating(
        loader: &mut GLLoader,
        display: EGLDisplay,
        context: Context,
        population: Population,
        step: Step<PopulateGLInfo, NativeCall, ()>,
    ) -> (lifted: Step<CreateContext, NativeCall, Result<Context, CreateContextFailure>>)
        ensures
            (*final(loader), lifted) == Self::after_populating(
                display,
                context,
                (population, step),
            ),
    {
        *loader = population.loader;
        let mut context = context;
        context.gl_info = population.gl_info;
        match step {
            Step::Call(call, populate) => Step::Call(
                call,
                CreateContext::Populating { display, context, populate },
            ),
            Step::Done(()) => {
                let binding = MakeCurrent::start(display, &context);
                Self::resume_binding(context, binding)
            },
        }
    }
}

impl Operation for CreateContext {
    type Target = GLLoader;

    type Call = NativeCall;

    type Reply = NativeReply;

    type Output = Result<Context, CreateContextFailure>;

    open spec fn check_of(self, target: GLLoader, reply: NativeReply) -> ReplyCheck {
        match self {
            CreateContext::Configuring { resolve, .. } => resolve.check_of((), reply),
            CreateContext::Creating { .. } => ReplyCheck::Accepted,
            CreateContext::Failing => ReplyCheck::Accepted,
            CreateContext::Populating { context, populate, .. } => populate.check_of(
                Population { gl_info: context.gl_info, loader: target },
                reply,
            ),
            CreateContext::Binding { current, .. } => current.check_of((), reply),
        }
    }

    open spec fn next(self, target: GLLoader, reply: NativeReply) -> (
        GLLoader,
        Step<CreateContext, NativeCall, Result<Context, CreateContextFailure>>,
    ) {
        match self {
            CreateContext::Configuring { display, color_surface, resolve } => (
                target,
                Self::after_configuring(display, color_surface, resolve.next((), reply).1),
            ),
            CreateContext::Creating { display, color_surface } => if reply.handle == NO_CONTEXT {
                (target, Step::Call(NativeCall::GetError, CreateContext::Failing))
            } else {
                Self::after_populating(
                    display,
                    Self::fresh(reply.handle, color_surface),
                    PopulateGLInfo::begin(
                        Population { gl_info: GLInfo { attributes: None }, loader: target },
                        display,
                        reply.handle,
                    ),
                )
            },
            CreateContext::Failing => (
                target,
                Step::Done(
                    Err(
                        CreateContextFailure {
                            error: Error::ContextCreationFailed(
                                WindowingApiError { code: reply.value },
                            ),
                            context: None,
                        },
                    ),
                ),
            ),
            CreateContext::Populating { display, context, populate } => Self::after_populating(
                display,
                context,
                populate.next(Population { gl_info: context.gl_info, loader: target }, reply),
            ),
            CreateContext::Binding { context, current } => (
                target,
                Self::after_binding(context, current.next((), reply).1),
            ),
        }
    }

    open spec fn remaining(self) -> nat {
        match self {
            CreateContext::Configuring { resolve, .. } => resolve.remaining() + 11,
            CreateContext::Creating { .. } => 11,
            CreateContext::Failing => 1,
            CreateContext::Populating { populate, .. } => populate.remaining() + 3,
            CreateContext::Binding { current, .. } => current.remaining(),
        }
    }

    proof fn lemma_progress(self, target: GLLoader, reply: NativeReply) {
        match self {
            CreateContext::Configuring { resolve, .. } => resolve.lemma_progress((), reply),
            CreateContext::Populating { context, populate, .. } => populate.lemma_progress(
                Population { gl_info: context.gl_info, loader: target },
                reply,
            ),
            CreateContext::Binding { current, .. } => current.lemma_progress((), reply),
            _ => {},
        }
    }

    fn check(&self, target: &GLLoader, reply: &NativeReply) -> (check: ReplyCheck) {
        match self {
            CreateContext::Configuring { resolve, .. } => resolve.check(&(), reply),
            CreateContext::Creating { .. } => ReplyCheck::Accepted,
            CreateContext::Failing => ReplyCheck::Accepted,
            CreateContext::Populating { context, populate, .. } => populate.check(
                &Population { gl_info: context.gl_info, loader: *target },
                reply,
            ),
            CreateContext::Binding { current, .. } => current.check(&(), reply),
        }
    }

    fn step(self, target: &mut GLLoader, reply: NativeReply) -> (step: Step<
        CreateContext,
        NativeCall,
        Result<Context, CreateContextFailure>,
    >) {
        let mut unit = ();
        match self {
            CreateContext::Configuring { display, color_surface, resolve } => {
                let next = resolve.step(&mut unit, reply);
                Self::resume_configuring(display, color_surface, next)
            },
            CreateContext::Creating { display, color_surface } => {
                if reply.handle == NO_CONTEXT {
                    return Step::Call(NativeCall::GetError, CreateContext::Failing);
                }
                let context = Context {
                    native_context: NativeContext::Owned(
                        OwnedEGLContext { egl_context: reply.handle },
                    ),
                    gl_info: GLInfo::new(),
                    color_surface: ColorSurface::Managed(color_surface),
                };
                let mut population = Population { gl_info: context.gl_info, loader: *target };
                let populating = PopulateGLInfo::start(&mut population, display, reply.handle);
                Self::resume_populating(target, display, context, population, populating)
            },
            CreateContext::Failing => {
                let error = to_windowing_api_error(reply.value);
                Step::Done(
                    Err(
                        CreateContextFailure {
                            error: Error::ContextCreationFailed(error),
                            context: None,
                        },
                    ),
                )
            },
            CreateContext::Populating { display, context, populate } => {
                let mut population = Population { gl_info: context.gl_info, loader: *target };
                let next = populate.step(&mut population, reply);
                Self::resume_populating(target, display, context, population, next)
            },
            CreateContext::Binding { context, current } => {
                let next = current.step(&mut unit, reply);
                Self::resume_binding(context, next)
            },
        }
    }
}

impl Device {
    /// Starts to create a context that renders to the surface. In the end it is
    /// current, and the GL functions have been loaded, now or with a context before.
    pub fn create_context(&self, color_surface: Surface) -> (step: Step<
        CreateContext,
        NativeCall,
        Result<Context, CreateContextFailure>,
    >)
        ensures
            step == CreateContext::begin(self.egl_display, color_surface),
    {
        let resolving = self.context_descriptor_to_egl_config(&color_surface.descriptor);
        CreateContext::resume_configuring(self.egl_display, color_surface, resolving)
    }
}

} // verus!
