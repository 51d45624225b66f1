//! What holds of the operations together.
use crate::adopt::FromCurrentContext;
use crate::attributes::{
    flags_of_sizes, lemma_flags_of_sizes, ContextAttributeFlags, ContextAttributes, GLFlavor,
};
use crate::config::{
    config_attribute_list, config_id_attribute_list, wanted_size, CreateContextDescriptor,
    ReadContextAttributes,
};
use crate::context::{Context, ContextDescriptor};
use crate::create::{context_attribute_list, CreateContext, CreateContextFailure};
use crate::current::MakeCurrent;
use crate::describe::DescribeContext;
use crate::destroy::DestroyContext;
use crate::device::{
    address_or_null, Device, GLLoader, ProcAddressLookup, D3D_DRIVER_TYPE_UNKNOWN,
};
use crate::egl::{
    EGLDisplay, EGLint, NativeCall, NativeReply, ALPHA_SIZE, BIND_TO_TEXTURE_RGBA, BLUE_SIZE,
    CONFIG_ID, CONTEXT_CLIENT_VERSION, D3D11_DEVICE_ANGLE, DEPTH_SIZE, DEVICE_EXT, FALSE,
    GREEN_SIZE, NONE, NO_CONFIG, NO_CONTEXT, NO_DEVICE_EXT, NO_DISPLAY, NO_SURFACE, OPENGL_BIT,
    OPENGL_ES2_BIT, PBUFFER_BIT, RED_SIZE, RENDERABLE_TYPE, STENCIL_SIZE, SURFACE_TYPE,
};
use crate::error::Error;
use crate::gl_utils::{
    DestroyFramebuffer, GLCall, GLint, GLuint, DRAW_FRAMEBUFFER, DRAW_FRAMEBUFFER_BINDING,
    READ_FRAMEBUFFER, READ_FRAMEBUFFER_BINDING,
};
use crate::native_context::{NativeContext, OwnedEGLContext, UnsafeEGLContextRef};
use crate::operation::{run, run_from, End, Operation, ReplyCheck, Run, Step};
use crate::populate::{PopulateGLInfo, Population};
use crate::replace::ReplaceColorSurface;
use crate::runs::{
    run_context_descriptor, run_create_context, run_destroy_context, run_destroy_framebuffer,
    run_from_current_context, run_replace_context_color_surface,
};
use crate::surface::{ColorSurface, Surface};
use vstd::prelude::*;

verus! {

/// Every operation ends: with as many replies as it says that it takes at most, it
/// does not wait for another.
pub proof fn law_runs_end<O: Operation>(
    target: O::Target,
    step: Step<O, O::Call, O::Output>,
    replies: Seq<O::Reply>,
)
    requires
        step matches Step::Call(_, state) ==> state.remaining() <= replies.len(),
    ensures
        !(run(target, step, replies).end is Waiting),
{
    lemma_runs_end(target, step, replies, 0);
}

proof fn lemma_runs_end<O: Operation>(
    target: O::Target,
    step: Step<O, O::Call, O::Output>,
    replies: Seq<O::Reply>,
    at: nat,
)
    requires
        at <= replies.len(),
        step matches Step::Call(_, state) ==> state.remaining() <= replies.len() - at,
    ensures
        !(run_from(target, step, replies, at).end is Waiting),
    decreases replies.len() - at,
{
    if let Step::Call(_, state) = step {
        state.lemma_progress(target, replies[at as int]);
        let (after, next) = state.next(target, replies[at as int]);
        lemma_runs_end(after, next, replies, at + 1);
    }
}

/// Every call but one that still waits for its reply has been answered, and nothing is
/// asked after a reply that the operation cannot take.
pub proof fn law_each_reply_is_checked<O: Operation>(
    target: O::Target,
    step: Step<O, O::Call, O::Output>,
    replies: Seq<O::Reply>,
)
    ensures
        ({
            let r = run(target, step, replies);
            let answered = r.checks.len();
            &&& r.calls.len() == answered + if r.end is Waiting {
                1int
            } else {
                0
            }
            &&& forall|i: int|
                0 <= i < answered && #[trigger] r.checks[i] == ReplyCheck::Fault ==> i == answered
                    - 1
            &&& r.end is Faulted <==> answered > 0 && r.checks.last() == ReplyCheck::Fault
        }),
{
    lemma_each_reply_is_checked(target, step, replies, 0);
}

proof fn lemma_each_reply_is_checked<O: Operation>(
    target: O::Target,
    step: Step<O, O::Call, O::Output>,
    replies: Seq<O::Reply>,
    at: nat,
)
    ensures
        ({
            let r = run_from(target, step, replies, at);
            let answered = r.checks.len();
            &&& r.calls.len() == answered + if r.end is Waiting {
                1int
            } else {
                0
            }
            &&& forall|i: int|
                0 <= i < answered && #[trigger] r.checks[i] == ReplyCheck::Fault ==> i == answered
                    - 1
            &&& r.end is Faulted <==> answered > 0 && r.checks.last() == ReplyCheck::Fault
        }),
    decreases replies.len() - at,
{
    if let Step::Call(_, state) = step {
        if at < replies.len() && state.check_of(target, replies[at as int]) != ReplyCheck::Fault {
            let (after, next) = state.next(target, replies[at as int]);
            lemma_each_reply_is_checked(after, next, replies, at + 1);
            let rest = run_from(after, next, replies, at + 1);
            let r = run_from(target, step, replies, at);
            assert(r.checks == seq![r.checks[0]] + rest.checks);
            assert forall|i: int|
                0 <= i < r.checks.len() && #[trigger] r.checks[i]
                    == ReplyCheck::Fault implies i == r.checks.len() - 1 by {
                if i > 0 {
                    assert(r.checks[i] == rest.checks[i - 1]);
                }
            }
        }
    }
}

/// EGL answers with success, a handle and a positive number.
pub open spec fn succeeds(reply: NativeReply) -> bool {
    &&& reply.status != FALSE
    &&& reply.handle != 0
    &&& reply.value > 0
}

/// All is well with these replies.
pub open spec fn all_accepted(checks: Seq<ReplyCheck>) -> bool {
    forall|i: int| 0 <= i < checks.len() ==> #[trigger] checks[i] == ReplyCheck::Accepted
}

/// While EGL answers every call with success, no expectation is broken when a context is
/// created, and a context is what comes of it.
pub proof fn law_creation_succeeds(
    display: EGLDisplay,
    color_surface: Surface,
    loader: GLLoader,
    replies: Seq<NativeReply>,
)
    requires
        replies.len() >= 12,
        forall|i: int| 0 <= i < replies.len() ==> succeeds(#[trigger] replies[i]),
    ensures
        ({
            let r = run::<CreateContext>(
                loader,
                CreateContext::begin(display, color_surface),
                replies,
            );
            &&& all_accepted(r.checks)
            &&& r.end matches End::Finished(result)
            &&& result is Ok
        }),
{
    run_create_context(display, color_surface, loader, replies);
}

/// While EGL answers every call with success, no expectation is broken when the current
/// context is taken over, and a context is what comes of it.
pub proof fn law_adoption_succeeds(loader: GLLoader, replies: Seq<NativeReply>)
    requires
        replies.len() >= 11,
        forall|i: int| 0 <= i < replies.len() ==> succeeds(#[trigger] replies[i]),
    ensures
        ({
            let r = run::<FromCurrentContext>(loader, FromCurrentContext::begin(), replies);
            &&& all_accepted(r.checks)
            &&& r.end matches End::Finished(result)
            &&& result is Ok
        }),
{
    run_from_current_context(loader, replies);
}

/// While a context is created, a reply breaks an expectation only once there is a context
/// whose GL is found out about: if a version is not positive, or if something cannot be
/// read. Where EGL gives no configuration the operation stops, and nowhere else before.
pub proof fn law_creation_expectations(state: CreateContext, loader: GLLoader, reply: NativeReply)
    ensures
        ({
            let check = state.check_of(loader, reply);
            &&& state is Creating || state is Failing || state is Binding ==> check
                == ReplyCheck::Accepted
            &&& state is Configuring ==> check == if reply.status == FALSE || reply.value <= 0 {
                ReplyCheck::Fault
            } else {
                ReplyCheck::Accepted
            }
            &&& check == ReplyCheck::DebugFault ==> state is Populating && (reply.value <= 0
                || reply.status == FALSE)
            &&& reply.status != FALSE && reply.value > 0 ==> check == ReplyCheck::Accepted
        }),
{
}

/// While the GL of a context is found out about, a reply breaks an expectation only if a
/// version is not positive, or if a size cannot be read; that the GL functions are loaded
/// is always taken. Neither what is known so far nor the loader matters.
pub proof fn law_population_expectations(
    state: PopulateGLInfo,
    population: Population,
    reply: NativeReply,
)
    ensures
        ({
            let check = state.check_of(population, reply);
            &&& state is Loading ==> check == ReplyCheck::Accepted
            &&& check == ReplyCheck::DebugFault ==> match state {
                PopulateGLInfo::Loading { .. } => false,
                PopulateGLInfo::Describing { .. } => reply.status != FALSE && reply.value <= 0,
                PopulateGLInfo::Reading { .. } => reply.status == FALSE,
            }
            &&& reply.status != FALSE && reply.value > 0 ==> check == ReplyCheck::Accepted
        }),
{
}

/// While a context is destroyed, its EGL context has to live on until its surface is
/// gone, and EGL has to delete it then. Nothing else is expected.
pub proof fn law_destruction_expectations(
    state: DestroyContext,
    context: Context,
    reply: NativeReply,
)
    ensures
        state.check_of(context, reply) == match state {
            DestroyContext::Surface { .. } => match context.native_context {
                NativeContext::Owned(owned) => if owned.egl_context == NO_CONTEXT {
                    ReplyCheck::Fault
                } else {
                    ReplyCheck::Accepted
                },
                NativeContext::Borrowed(borrowed) => if borrowed.egl_context == NO_CONTEXT {
                    ReplyCheck::Fault
                } else {
                    ReplyCheck::Accepted
                },
            },
            DestroyContext::Native { native } => if native is Deleting && reply.status == FALSE {
                ReplyCheck::Fault
            } else {
                ReplyCheck::Accepted
            },
        },
{
}

/// A context that has been destroyed is destroyed for good: it may be dropped, and to
/// destroy it once more asks for no call and changes nothing.
pub proof fn law_destroyed_for_good(
    display: EGLDisplay,
    context: Context,
    replies: Seq<NativeReply>,
    thread_panicking: bool,
)
    ensures
        ({
            let (begun, step) = DestroyContext::begin(context, display);
            let r = run::<DestroyContext>(begun, step, replies);
            r.end is Finished ==> {
                &&& r.end == End::<DestroyContext, _>::Finished(Ok::<(), Error>(()))
                &&& r.target.native_context.destroyed()
                &&& !r.target.leaked_by_drop(thread_panicking)
                &&& DestroyContext::begin(r.target, display) == (
                    r.target,
                    Step::<DestroyContext, NativeCall, _>::Done(Ok::<(), Error>(())),
                )
            }
        }),
{
    reveal_with_fuel(run_from, 5);
}

/// A context that has not been destroyed may be dropped only while its thread is
/// panicking.
pub proof fn law_live_context_is_leaked(context: Context, thread_panicking: bool)
    requires
        !context.native_context.destroyed(),
    ensures
        context.leaked_by_drop(thread_panicking) == !thread_panicking,
{
}

/// A target that is not managed here is left alone: there is no surface and no
/// framebuffer object to give, and neither making the context current nor giving it a
/// surface asks for any call, or changes anything. All are refused.
pub proof fn law_external_target_is_left_alone(
    display: EGLDisplay,
    context: Context,
    new_color_surface: Surface,
)
    requires
        context.color_surface is External,
    ensures
        context.managed_surface() is None,
        context.framebuffer_object() == Err::<GLuint, Error>(Error::ExternalRenderTarget),
        MakeCurrent::begin(display, context) == Step::<MakeCurrent, NativeCall, _>::Done(
            Err::<(), Error>(Error::ExternalRenderTarget),
        ),
        ReplaceColorSurface::begin(context, display, new_color_surface) == (
            context,
            Step::<ReplaceColorSurface, NativeCall, _>::Done(
                Err::<Option<Surface>, Error>(Error::ExternalRenderTarget),
            ),
        ),
{
}

/// A context that was taken over has no surface and no framebuffer object to give, and
/// refuses to be given a surface: no call is made and nothing changes.
pub proof fn law_adopted_context_has_no_surface(
    loader: GLLoader,
    replies: Seq<NativeReply>,
    display: EGLDisplay,
    new_color_surface: Surface,
)
    ensures
        run::<FromCurrentContext>(loader, FromCurrentContext::begin(), replies).end matches
            End::Finished(Ok((_, context))) ==> {
            &&& context.managed_surface() is None
            &&& context.framebuffer_object() == Err::<GLuint, Error>(Error::ExternalRenderTarget)
            &&& ReplaceColorSurface::begin(context, display, new_color_surface) == (
                context,
                Step::<ReplaceColorSurface, NativeCall, _>::Done(
                    Err::<Option<Surface>, Error>(Error::ExternalRenderTarget),
                ),
            )
        },
{
    lemma_adoption(loader, FromCurrentContext::begin(), replies, 0);
}

/// Making a context current that was taken over never binds another surface with it:
/// it is refused without a call, whatever EGL would reply.
pub proof fn law_adopted_context_keeps_its_target(
    loader: GLLoader,
    replies: Seq<NativeReply>,
    display: EGLDisplay,
    bind_replies: Seq<NativeReply>,
)
    ensures
        run::<FromCurrentContext>(loader, FromCurrentContext::begin(), replies).end matches
            End::Finished(Ok((_, context))) ==> {
            let r = run::<MakeCurrent>((), MakeCurrent::begin(display, context), bind_replies);
            &&& r.calls == Seq::<NativeCall>::empty()
            &&& r.end == End::<MakeCurrent, _>::Finished(
                Err::<(), Error>(Error::ExternalRenderTarget),
            )
        },
{
    lemma_adoption(loader, FromCurrentContext::begin(), replies, 0);
}

/// A call that changes neither what is rendered to nor which context is current, and
/// neither creates nor destroys anything.
pub open spec fn only_asks(call: NativeCall) -> bool {
    match call {
        NativeCall::GetConfigAttrib { .. } => true,
        NativeCall::ChooseConfigById { .. } => true,
        NativeCall::QueryContext { .. } => true,
        NativeCall::GetCurrentDisplay => true,
        NativeCall::GetCurrentContext => true,
        NativeCall::QueryDisplayAttrib { .. } => true,
        NativeCall::QueryDeviceAttrib { .. } => true,
        NativeCall::LoadGL => true,
        _ => false,
    }
}

/// Taking over the current context never touches what it renders to: whatever EGL
/// replies, all calls only ask.
pub proof fn law_adoption_only_asks(loader: GLLoader, replies: Seq<NativeReply>)
    ensures
        ({
            let r = run::<FromCurrentContext>(loader, FromCurrentContext::begin(), replies);
            forall|i: int| 0 <= i < r.calls.len() ==> only_asks(#[trigger] r.calls[i])
        }),
{
    lemma_adoption(loader, FromCurrentContext::begin(), replies, 0);
}

/// What holds of every step of taking over the current context.
spec fn adoption_step(
    step: Step<FromCurrentContext, NativeCall, Result<(Device, Context), Error>>,
) -> bool {
    match step {
        Step::Call(call, state) => {
            &&& only_asks(call)
            &&& state matches FromCurrentContext::Populating { context, .. } ==> {
                &&& context.color_surface is External
                &&& context.native_context is Borrowed
            }
        },
        Step::Done(Ok((_, context))) => {
            &&& context.color_surface is External
            &&& context.native_context is Borrowed
        },
        Step::Done(Err(_)) => false,
    }
}

proof fn lemma_adoption(
    loader: GLLoader,
    step: Step<FromCurrentContext, NativeCall, Result<(Device, Context), Error>>,
    replies: Seq<NativeReply>,
    at: nat,
)
    requires
        adoption_step(step),
    ensures
        ({
            let r = run_from::<FromCurrentContext>(loader, step, replies, at);
            &&& forall|i: int| 0 <= i < r.calls.len() ==> only_asks(#[trigger] r.calls[i])
            &&& r.end matches End::Finished(result) ==> {
                &&& result matches Ok((_, context))
                &&& context.color_surface is External
                &&& context.native_context is Borrowed
            }
        }),
    decreases replies.len() - at,
{
    if let Step::Call(call, state) = step {
        if at < replies.len() && state.check_of(loader, replies[at as int]) != ReplyCheck::Fault {
            let (after, next) = state.next(loader, replies[at as int]);
            assert(adoption_step(next));
            lemma_adoption(after, next, replies, at + 1);
            let rest = run_from::<FromCurrentContext>(after, next, replies, at + 1);
            let r = run_from::<FromCurrentContext>(loader, step, replies, at);
            assert(r.calls == seq![call] + rest.calls);
            assert forall|i: int| 0 <= i < r.calls.len() implies only_asks(
                #[trigger] r.calls[i],
            ) by {
                if i > 0 {
                    assert(r.calls[i] == rest.calls[i - 1]);
                }
            }
        }
    }
}

/// The context that is taken over is the one that EGL says is current, on the display
/// that EGL says is current, handle for handle, whatever EGL replies otherwise. To ask
/// what kind it is of is to ask about that handle on that display.
pub proof fn law_adopted_context_is_the_current_one(
    loader: GLLoader,
    replies: Seq<NativeReply>,
    describe_replies: Seq<NativeReply>,
)
    requires
        describe_replies.len() >= 2,
    ensures
        run::<FromCurrentContext>(loader, FromCurrentContext::begin(), replies).end matches
            End::Finished(Ok((device, context))) ==> {
            let described = run::<DescribeContext>(
                (),
                DescribeContext::begin(device.egl_display, context.native_context.handle()),
                describe_replies,
            );
            &&& device.egl_display == replies[0].handle
            &&& device.egl_device == replies[2].handle
            &&& device.d3d11_device == replies[3].handle
            &&& context.native_context == NativeContext::Borrowed(
                UnsafeEGLContextRef { egl_context: replies[1].handle },
            )
            &&& described.calls[0] == NativeCall::QueryContext {
                display: replies[0].handle,
                context: replies[1].handle,
                attribute: CONFIG_ID,
            }
        },
{
    lemma_adopted_handles(loader, FromCurrentContext::begin(), replies, 0);
    if let End::Finished(Ok((device, context))) = run::<FromCurrentContext>(
        loader,
        FromCurrentContext::begin(),
        replies,
    ).end {
        run_context_descriptor(
            device.egl_display,
            context.native_context.handle(),
            describe_replies,
        );
    }
}

/// What has been learnt of the current context from the first `at` replies.
spec fn adopted_handles(
    step: Step<FromCurrentContext, NativeCall, Result<(Device, Context), Error>>,
    replies: Seq<NativeReply>,
    at: nat,
) -> bool {
    let learnt = |device: Device, context: Context|
        {
            &&& device.egl_display == replies[0].handle
            &&& device.egl_device == replies[2].handle
            &&& device.d3d11_device == replies[3].handle
            &&& context.native_context == NativeContext::Borrowed(
                UnsafeEGLContextRef { egl_context: replies[1].handle },
            )
        };
    match step {
        Step::Call(_, state) => match state {
            FromCurrentContext::Display => at == 0,
            FromCurrentContext::Context { egl_display } => {
                &&& at == 1
                &&& egl_display == replies[0].handle
            },
            FromCurrentContext::Device { egl_display, egl_context } => {
                &&& at == 2
                &&& egl_display == replies[0].handle
                &&& egl_context == replies[1].handle
            },
            FromCurrentContext::Direct3D { egl_display, egl_context, egl_device } => {
                &&& at == 3
                &&& egl_display == replies[0].handle
                &&& egl_context == replies[1].handle
                &&& egl_device == replies[2].handle
            },
            FromCurrentContext::Populating { device, context, .. } => learnt(device, context),
        },
        Step::Done(Ok((device, context))) => learnt(device, context),
        Step::Done(Err(_)) => false,
    }
}

proof fn lemma_adopted_handles(
    loader: GLLoader,
    step: Step<FromCurrentContext, NativeCall, Result<(Device, Context), Error>>,
    replies: Seq<NativeReply>,
    at: nat,
)
    requires
        adopted_handles(step, replies, at),
    ensures
        run_from::<FromCurrentContext>(loader, step, replies, at).end matches End::Finished(result)
            ==> adopted_handles(Step::Done(result), replies, at),
    decreases replies.len() - at,
{
    if let Step::Call(_, state) = step {
        if at < replies.len() && state.check_of(loader, replies[at as int]) != ReplyCheck::Fault {
            let (after, next) = state.next(loader, replies[at as int]);
            assert(adopted_handles(next, replies, at + 1));
            lemma_adopted_handles(after, next, replies, at + 1);
        }
    }
}

/// The context that is created is the one that EGL created, handle for handle, whatever
/// EGL replies otherwise; and so is one that could not be made current. When it is
/// destroyed, it is that handle that EGL is told to delete, on the display where it was
/// created.
pub proof fn law_created_context_is_the_new_one(
    display: EGLDisplay,
    color_surface: Surface,
    loader: GLLoader,
    replies: Seq<NativeReply>,
    destroy_replies: Seq<NativeReply>,
)
    requires
        destroy_replies.len() >= 3,
    ensures
        ({
            let new_one = NativeContext::Owned(OwnedEGLContext { egl_context: replies[1].handle });
            run::<CreateContext>(
                loader,
                CreateContext::begin(display, color_surface),
                replies,
            ).end matches End::Finished(result) ==> (match result {
                Ok(context) => {
                    let (begun, step) = DestroyContext::begin(context, display);
                    let destroyed = run::<DestroyContext>(begun, step, destroy_replies);
                    &&& replies[1].handle != NO_CONTEXT
                    &&& context.native_context == new_one
                    &&& destroyed.calls.last() == NativeCall::DestroyContext {
                        display,
                        context: replies[1].handle,
                    }
                },
                Err(failure) => match failure.context {
                    Some(context) => {
                        &&& replies[1].handle != NO_CONTEXT
                        &&& context.native_context == new_one
                    },
                    None => replies[1].handle == NO_CONTEXT,
                },
            })
        }),
{
    lemma_created_handle(loader, CreateContext::begin(display, color_surface), replies, 0);
    if let End::Finished(Ok(context)) = run::<CreateContext>(
        loader,
        CreateContext::begin(display, color_surface),
        replies,
    ).end {
        run_destroy_context(display, context, destroy_replies);
    }
}

/// What has been learnt of the new context from the first `at` replies.
spec fn created_handle(
    step: Step<CreateContext, NativeCall, Result<Context, CreateContextFailure>>,
    replies: Seq<NativeReply>,
    at: nat,
) -> bool {
    let learnt = |context: Context|
        {
            &&& replies[1].handle != NO_CONTEXT
            &&& context.native_context == NativeContext::Owned(
                OwnedEGLContext { egl_context: replies[1].handle },
            )
        };
    match step {
        Step::Call(_, state) => match state {
            CreateContext::Configuring { .. } => at == 0,
            CreateContext::Creating { .. } => at == 1,
            CreateContext::Failing => replies[1].handle == NO_CONTEXT,
            CreateContext::Populating { context, .. } => learnt(context),
            CreateContext::Binding { context, .. } => learnt(context),
        },
        Step::Done(Ok(context)) => learnt(context),
        Step::Done(Err(failure)) => match failure.context {
            Some(context) => learnt(context),
            None => replies[1].handle == NO_CONTEXT,
        },
    }
}

proof fn lemma_created_handle(
    loader: GLLoader,
    step: Step<CreateContext, NativeCall, Result<Context, CreateContextFailure>>,
    replies: Seq<NativeReply>,
    at: nat,
)
    requires
        created_handle(step, replies, at),
    ensures
        run_from::<CreateContext>(loader, step, replies, at).end matches End::Finished(result)
            ==> created_handle(Step::Done(result), replies, at),
    decreases replies.len() - at,
{
    if let Step::Call(_, state) = step {
        if at < replies.len() && state.check_of(loader, replies[at as int]) != ReplyCheck::Fault {
            let (after, next) = state.next(loader, replies[at as int]);
            assert(created_handle(next, replies, at + 1));
            lemma_created_handle(after, next, replies, at + 1);
        }
    }
}

/// An EGL context that was created elsewhere is not destroyed with the context: no
/// call is made, only the handle is forgotten.
pub proof fn law_adopted_context_is_only_forgotten(display: EGLDisplay, context: Context)
    requires
        context.wf(),
        context.native_context is Borrowed,
        !context.native_context.destroyed(),
    ensures
        DestroyContext::begin(context, display) == (
            Context {
                native_context: context.native_context.cleared(),
                color_surface: ColorSurface::Nothing,
                ..context
            },
            Step::<DestroyContext, NativeCall, _>::Done(Ok::<(), Error>(())),
        ),
{
}

/// A context that is created is live and well-formed and has its surface, whatever EGL
/// replies; so is one that could not be made current.
pub proof fn law_create_context_wf(
    display: EGLDisplay,
    color_surface: Surface,
    loader: GLLoader,
    replies: Seq<NativeReply>,
)
    ensures
        run::<CreateContext>(
            loader,
            CreateContext::begin(display, color_surface),
            replies,
        ).end matches End::Finished(result) ==> (match result {
            Ok(context) => created_for(context, color_surface),
            Err(failure) => failure.context matches Some(context) ==> created_for(
                context,
                color_surface,
            ),
        }),
{
    lemma_creation(loader, color_surface, CreateContext::begin(display, color_surface), replies, 0);
}

/// A live context that was created here, with this surface.
pub open spec fn created_for(context: Context, color_surface: Surface) -> bool {
    &&& context.wf()
    &&& context.native_context is Owned
    &&& !context.native_context.destroyed()
    &&& context.managed_surface() == Some(color_surface)
}

/// What holds of every step of creating a context.
spec fn creation_step(
    color_surface: Surface,
    step: Step<CreateContext, NativeCall, Result<Context, CreateContextFailure>>,
) -> bool {
    match step {
        Step::Call(_, state) => match state {
            CreateContext::Configuring { color_surface: s, .. } => s == color_surface,
            CreateContext::Creating { color_surface: s, .. } => s == color_surface,
            CreateContext::Failing => true,
            CreateContext::Populating { context, .. } => created_for(context, color_surface),
            CreateContext::Binding { context, .. } => created_for(context, color_surface),
        },
        Step::Done(Ok(context)) => created_for(context, color_surface),
        Step::Done(Err(failure)) => failure.context matches Some(context) ==> created_for(
            context,
            color_surface,
        ),
    }
}

proof fn lemma_creation(
    loader: GLLoader,
    color_surface: Surface,
    step: Step<CreateContext, NativeCall, Result<Context, CreateContextFailure>>,
    replies: Seq<NativeReply>,
    at: nat,
)
    requires
        creation_step(color_surface, step),
    ensures
        run_from::<CreateContext>(loader, step, replies, at).end matches End::Finished(result)
            ==> creation_step(color_surface, Step::Done(result)),
    decreases replies.len() - at,
{
    if let Step::Call(_, state) = step {
        if at < replies.len() && state.check_of(loader, replies[at as int]) != ReplyCheck::Fault {
            let (after, next) = state.next(loader, replies[at as int]);
            assert(creation_step(color_surface, next));
            lemma_creation(after, color_surface, next, replies, at + 1);
        }
    }
}

/// A context that was taken over is well-formed, if there was one.
pub proof fn law_from_current_context_wf(loader: GLLoader, replies: Seq<NativeReply>)
    ensures
        run::<FromCurrentContext>(loader, FromCurrentContext::begin(), replies).end matches
            End::Finished(result) ==> {
            &&& result matches Ok((_, context))
            &&& context.native_context.handle() != NO_CONTEXT ==> context.wf()
        },
{
    lemma_adoption(loader, FromCurrentContext::begin(), replies, 0);
}

/// A well-formed context is well-formed after it has been destroyed.
pub proof fn law_destroy_context_wf(
    display: EGLDisplay,
    context: Context,
    replies: Seq<NativeReply>,
)
    requires
        context.wf(),
    ensures
        ({
            let (begun, step) = DestroyContext::begin(context, display);
            let r = run::<DestroyContext>(begun, step, replies);
            r.end is Finished ==> r.target.wf()
        }),
{
    reveal_with_fuel(run_from, 5);
}

/// A live, well-formed context stays so, at every step, when it is given another
/// surface; and keeps its EGL context, and what is known of its GL.
#[verifier::rlimit(40)]
#[verifier::spinoff_prover]
pub proof fn law_replace_context_color_surface_wf(
    display: EGLDisplay,
    context: Context,
    new_color_surface: Surface,
    replies: Seq<NativeReply>,
)
    requires
        context.wf(),
        !context.native_context.destroyed(),
    ensures
        ({
            let (begun, step) = ReplaceColorSurface::begin(context, display, new_color_surface);
            let r = run::<ReplaceColorSurface>(begun, step, replies);
            &&& r.target.wf()
            &&& r.target.native_context == context.native_context
            &&& r.target.gl_info == context.gl_info
        }),
{
    reveal_with_fuel(run_from, 7);
}

/// At every moment of giving a context another surface, be EGL still to reply or not:
/// the context has the new surface if EGL has described it by exactly the configuration
/// and the version of that surface, and is unchanged otherwise. Any other surface is
/// refused as soon as both are known.
#[verifier::rlimit(60)]
#[verifier::spinoff_prover]
pub proof fn law_only_fitting_surfaces_are_taken(
    display: EGLDisplay,
    context: Context,
    new_color_surface: Surface,
    replies: Seq<NativeReply>,
)
    requires
        context.color_surface !is External,
    ensures
        ({
            let (begun, step) = ReplaceColorSurface::begin(context, display, new_color_surface);
            let r = run::<ReplaceColorSurface>(begun, step, replies);
            let known = replies.len() >= 2 && replies[0].status != FALSE && replies[1].status
                != FALSE;
            let same_config = new_color_surface.descriptor.egl_config_id == replies[0].value;
            let same_version = new_color_surface.descriptor.egl_context_client_version
                == replies[1].value;
            &&& known && same_config && same_version ==> r.target == Context {
                color_surface: ColorSurface::Managed(new_color_surface),
                ..context
            }
            &&& !(known && same_config && same_version) ==> r.target == context
            &&& known && !(same_config && same_version) ==> {
                &&& r.calls.len() == 2
                &&& r.end == End::<ReplaceColorSurface, _>::Finished(
                    Err::<Option<Surface>, Error>(Error::IncompatibleContextDescriptor),
                )
            }
        }),
{
    reveal_with_fuel(run_from, 7);
}

/// Two kinds of context fit each other if and only if they have the same configuration
/// and the same version. It does not matter which is asked first.
pub proof fn law_fitting_is_sameness(one: ContextDescriptor, other: ContextDescriptor)
    ensures
        one.fits(other) == (one.egl_config_id == other.egl_config_id
            && one.egl_context_client_version == other.egl_context_client_version),
        one.fits(other) == other.fits(one),
{
}

/// At every moment of destroying a live context, be EGL still to reply or not: it has no
/// surface any more. It has its EGL context until EGL has deleted that, and not after;
/// one that was created elsewhere is let go of once the surface is gone.
pub proof fn law_destruction_order(
    display: EGLDisplay,
    context: Context,
    replies: Seq<NativeReply>,
)
    requires
        !context.native_context.destroyed(),
    ensures
        ({
            let (begun, step) = DestroyContext::begin(context, display);
            let r = run::<DestroyContext>(begun, step, replies);
            &&& r.target.color_surface is Nothing
            &&& r.target.gl_info == context.gl_info
            &&& r.end !is Finished ==> r.target.native_context == context.native_context
            &&& r.end is Finished ==> r.target.native_context == match context.native_context {
                NativeContext::Owned(_) => NativeContext::Owned(
                    OwnedEGLContext { egl_context: NO_CONTEXT },
                ),
                NativeContext::Borrowed(_) => NativeContext::Borrowed(
                    UnsafeEGLContextRef { egl_context: NO_CONTEXT },
                ),
            }
        }),
{
    reveal_with_fuel(run_from, 5);
}

/// The surface that a context was created with is the one that is read back from it,
/// and the one that is destroyed with it.
pub proof fn law_created_context_owns_its_surface(
    display: EGLDisplay,
    color_surface: Surface,
    loader: GLLoader,
    replies: Seq<NativeReply>,
)
    ensures
        run::<CreateContext>(
            loader,
            CreateContext::begin(display, color_surface),
            replies,
        ).end matches End::Finished(Ok(context)) ==> {
            &&& context.managed_surface() == Some(color_surface)
            &&& DestroyContext::begin(context, display).1 matches Step::Call(call, _)
            &&& call == NativeCall::DestroySurface { surface: color_surface }
        },
{
    lemma_creation(loader, color_surface, CreateContext::begin(display, color_surface), replies, 0);
}

/// To replace the surface of a context, and then to replace the new one by the one
/// that came back, is to change nothing; and the new surface comes back.
#[verifier::rlimit(40)]
#[verifier::spinoff_prover]
pub proof fn law_replace_and_back(
    display: EGLDisplay,
    context: Context,
    new_color_surface: Surface,
    replies: Seq<NativeReply>,
    back_replies: Seq<NativeReply>,
)
    ensures
        ({
            let (begun, step) = ReplaceColorSurface::begin(context, display, new_color_surface);
            let there = run::<ReplaceColorSurface>(begun, step, replies);
            there.end matches End::Finished(Ok(Some(old_surface))) ==> {
                let (begun, step) = ReplaceColorSurface::begin(there.target, display, old_surface);
                let back = run::<ReplaceColorSurface>(begun, step, back_replies);
                &&& there.target.managed_surface() == Some(new_color_surface)
                &&& context.managed_surface() == Some(old_surface)
                &&& back.end matches End::Finished(Ok(given_back)) ==> {
                    &&& given_back == Some(new_color_surface)
                    &&& back.target == context
                }
            }
        }),
{
    reveal_with_fuel(run_from, 7);
}

/// How many times the GL functions are loaded.
pub open spec fn load_count(calls: Seq<NativeCall>) -> nat
    decreases calls.len(),
{
    if calls.len() == 0 {
        0
    } else {
        load_count(calls.drop_first()) + if calls[0] is LoadGL {
            1nat
        } else {
            0
        }
    }
}

proof fn lemma_load_count_add(first: Seq<NativeCall>, second: Seq<NativeCall>)
    ensures
        load_count(first + second) == load_count(first) + load_count(second),
    decreases first.len(),
{
    if first.len() == 0 {
        assert(first + second == second);
    } else {
        lemma_load_count_add(first.drop_first(), second);
        assert((first + second).drop_first() == first.drop_first() + second);
    }
}

proof fn lemma_load_count_one(call: NativeCall, rest: Seq<NativeCall>)
    ensures
        load_count(seq![call] + rest) == load_count(rest) + if call is LoadGL {
            1nat
        } else {
            0
        },
        load_count(seq![call]) == if call is LoadGL {
            1nat
        } else {
            0
        },
{
    assert((seq![call] + rest).drop_first() == rest);
    assert(seq![call].drop_first() == Seq::<NativeCall>::empty());
    assert(load_count(Seq::<NativeCall>::empty()) == 0);
}

/// How many loads it takes to get from the one loader to the other.
pub open spec fn loads_between(before: GLLoader, after: GLLoader) -> nat {
    if after.previous_context_created && !before.previous_context_created {
        1
    } else {
        0
    }
}

/// What a run of setting a context up does to the loader: what has been loaded stays
/// loaded, nothing is loaded twice, and the loader knows about the load once it has been
/// replied to.
pub open spec fn loads_kept<O: Operation<Target = GLLoader, Call = NativeCall>>(
    before: GLLoader,
    r: Run<O>,
) -> bool {
    &&& before.previous_context_created ==> r.target.previous_context_created
    &&& before.previous_context_created ==> load_count(r.calls) == 0
    &&& load_count(r.calls) <= 1
    &&& !(r.end is Waiting) ==> load_count(r.calls) == loads_between(before, r.target)
    &&& load_count(r.calls.take(r.checks.len() as int)) == loads_between(before, r.target)
}

/// What holds of the loader at every step of creating a context.
spec fn creation_loads(
    loader: GLLoader,
    step: Step<CreateContext, NativeCall, Result<Context, CreateContextFailure>>,
) -> bool {
    match step {
        Step::Call(call, state) => match state {
            CreateContext::Populating { populate, .. } => {
                &&& call is LoadGL <==> populate is Loading
                &&& populate is Loading <==> !loader.previous_context_created
            },
            CreateContext::Binding { .. } => call !is LoadGL && loader.previous_context_created,
            _ => call !is LoadGL,
        },
        Step::Done(Ok(_)) => loader.previous_context_created,
        Step::Done(Err(failure)) => failure.context is Some ==> loader.previous_context_created,
    }
}

proof fn lemma_creation_loads(
    loader: GLLoader,
    step: Step<CreateContext, NativeCall, Result<Context, CreateContextFailure>>,
    replies: Seq<NativeReply>,
    at: nat,
)
    requires
        creation_loads(loader, step),
    ensures
        ({
            let r = run_from::<CreateContext>(loader, step, replies, at);
            &&& loads_kept(loader, r)
            &&& r.end matches End::Finished(result) ==> creation_loads(
                r.target,
                Step::Done(result),
            )
        }),
    decreases replies.len() - at,
{
    let r = run_from::<CreateContext>(loader, step, replies, at);
    assert(r.checks.len() == 0 ==> r.calls.take(0) == Seq::<NativeCall>::empty());
    if let Step::Call(call, state) = step {
        lemma_load_count_one(call, Seq::empty());
        assert(seq![call].take(1) == seq![call]);
        if at < replies.len() && state.check_of(loader, replies[at as int]) != ReplyCheck::Fault {
            let (after, next) = state.next(loader, replies[at as int]);
            assert(creation_loads(after, next));
            lemma_creation_loads(after, next, replies, at + 1);
            let rest = run_from::<CreateContext>(after, next, replies, at + 1);
            lemma_load_count_one(call, rest.calls);
            let answered = rest.calls.take(rest.checks.len() as int);
            lemma_each_reply_is_checked(after, next, replies, at + 1);
            lemma_load_count_one(call, answered);
            assert(r.calls.take(r.checks.len() as int) == seq![call] + answered);
        }
    }
}

/// What holds of the loader at every step of taking over the current context.
spec fn adoption_loads(
    loader: GLLoader,
    step: Step<FromCurrentContext, NativeCall, Result<(Device, Context), Error>>,
) -> bool {
    match step {
        Step::Call(call, state) => match state {
            FromCurrentContext::Populating { populate, .. } => {
                &&& call is LoadGL <==> populate is Loading
                &&& populate is Loading <==> !loader.previous_context_created
            },
            _ => call !is LoadGL,
        },
        Step::Done(_) => loader.previous_context_created,
    }
}

proof fn lemma_adoption_loads(
    loader: GLLoader,
    step: Step<FromCurrentContext, NativeCall, Result<(Device, Context), Error>>,
    replies: Seq<NativeReply>,
    at: nat,
)
    requires
        adoption_loads(loader, step),
    ensures
        ({
            let r = run_from::<FromCurrentContext>(loader, step, replies, at);
            &&& loads_kept(loader, r)
            &&& r.end is Finished ==> r.target.previous_context_created
        }),
    decreases replies.len() - at,
{
    let r = run_from::<FromCurrentContext>(loader, step, replies, at);
    assert(r.checks.len() == 0 ==> r.calls.take(0) == Seq::<NativeCall>::empty());
    if let Step::Call(call, state) = step {
        lemma_load_count_one(call, Seq::empty());
        assert(seq![call].take(1) == seq![call]);
        if at < replies.len() && state.check_of(loader, replies[at as int]) != ReplyCheck::Fault {
            let (after, next) = state.next(loader, replies[at as int]);
            assert(adoption_loads(after, next));
            lemma_adoption_loads(after, next, replies, at + 1);
            let rest = run_from::<FromCurrentContext>(after, next, replies, at + 1);
            lemma_load_count_one(call, rest.calls);
            let answered = rest.calls.take(rest.checks.len() as int);
            lemma_each_reply_is_checked(after, next, replies, at + 1);
            lemma_load_count_one(call, answered);
            assert(r.calls.take(r.checks.len() as int) == seq![call] + answered);
        }
    }
}

/// One context that is set up, with what EGL replies meanwhile.
pub enum Setup {
    /// A context is created.
    Create { display: EGLDisplay, color_surface: Surface, replies: Seq<NativeReply> },
    /// The current context is taken over.
    Adopt { replies: Seq<NativeReply> },
}

impl Setup {
    pub open spec fn creation(
        loader: GLLoader,
        display: EGLDisplay,
        color_surface: Surface,
        replies: Seq<NativeReply>,
    ) -> Run<CreateContext> {
        run(loader, CreateContext::begin(display, color_surface), replies)
    }

    pub open spec fn adoption(loader: GLLoader, replies: Seq<NativeReply>) -> Run<
        FromCurrentContext,
    > {
        run(loader, FromCurrentContext::begin(), replies)
    }

    /// The calls that are asked for.
    pub open spec fn calls(self, loader: GLLoader) -> Seq<NativeCall> {
        match self {
            Setup::Create { display, color_surface, replies } => Self::creation(
                loader,
                display,
                color_surface,
                replies,
            ).calls,
            Setup::Adopt { replies } => Self::adoption(loader, replies).calls,
        }
    }

    /// The loader that is left.
    pub open spec fn loader_after(self, loader: GLLoader) -> GLLoader {
        match self {
            Setup::Create { display, color_surface, replies } => Self::creation(
                loader,
                display,
                color_surface,
                replies,
            ).target,
            Setup::Adopt { replies } => Self::adoption(loader, replies).target,
        }
    }

    /// The calls that have been replied to.
    pub open spec fn answered_calls(self, loader: GLLoader) -> Seq<NativeCall> {
        match self {
            Setup::Create { display, color_surface, replies } => {
                let r = Self::creation(loader, display, color_surface, replies);
                r.calls.take(r.checks.len() as int)
            },
            Setup::Adopt { replies } => {
                let r = Self::adoption(loader, replies);
                r.calls.take(r.checks.len() as int)
            },
        }
    }

    /// It has come to its end: no call is left without a reply.
    pub open spec fn is_over(self, loader: GLLoader) -> bool {
        match self {
            Setup::Create { display, color_surface, replies } => !(Self::creation(
                loader,
                display,
                color_surface,
                replies,
            ).end is Waiting),
            Setup::Adopt { replies } => !(Self::adoption(loader, replies).end is Waiting),
        }
    }

    /// It has come to a context, be it one that could not be made current.
    pub open spec fn reaches_context(self, loader: GLLoader) -> bool {
        match self {
            Setup::Create { display, color_surface, replies } => {
                &&& Self::creation(loader, display, color_surface, replies).end matches
                    End::Finished(result)
                &&& match result {
                    Ok(_) => true,
                    Err(failure) => failure.context is Some,
                }
            },
            Setup::Adopt { replies } => {
                &&& Self::adoption(loader, replies).end matches End::Finished(result)
                &&& result is Ok
            },
        }
    }
}

/// Whatever EGL replies while a context is set up: what has been loaded stays loaded;
/// where a context is reached, the GL functions have been loaded; they are loaded
/// exactly once if they had not been loaded before, and not at all if they had.
pub proof fn law_gl_is_loaded_once(setup: Setup, loader: GLLoader)
    ensures
        loader.previous_context_created ==> setup.loader_after(loader).previous_context_created,
        loader.previous_context_created ==> load_count(setup.calls(loader)) == 0,
        load_count(setup.calls(loader)) <= 1,
        setup.is_over(loader) ==> load_count(setup.calls(loader)) == loads_between(
            loader,
            setup.loader_after(loader),
        ),
        setup.reaches_context(loader) ==> {
            &&& setup.loader_after(loader).previous_context_created
            &&& !loader.previous_context_created ==> load_count(setup.calls(loader)) == 1
        },
{
    match setup {
        Setup::Create { display, color_surface, replies } => {
            lemma_creation_loads(loader, CreateContext::begin(display, color_surface), replies, 0);
        },
        Setup::Adopt { replies } => {
            lemma_adoption_loads(loader, FromCurrentContext::begin(), replies, 0);
        },
    }
}

/// At every moment of setting a context up, be EGL still to reply or not: the loader
/// remembers that the GL functions have been loaded if they had been before, or if the
/// call that loads them has been replied to; not earlier, and not otherwise.
pub proof fn law_load_is_noted_when_done(setup: Setup, loader: GLLoader)
    ensures
        setup.loader_after(loader).previous_context_created <==> loader.previous_context_created
            || load_count(setup.answered_calls(loader)) == 1,
{
    match setup {
        Setup::Create { display, color_surface, replies } => {
            lemma_creation_loads(loader, CreateContext::begin(display, color_surface), replies, 0);
        },
        Setup::Adopt { replies } => {
            lemma_adoption_loads(loader, FromCurrentContext::begin(), replies, 0);
        },
    }
}

/// Once it is under way, finding out about the GL of a context takes the same course
/// whatever was known of it, and whatever the loader remembers. Loading is remembered
/// when it is done, nothing is forgotten, and what is found out is known at the end only.
pub proof fn law_population_course(
    state: PopulateGLInfo,
    one: Population,
    other: Population,
    reply: NativeReply,
)
    ensures
        ({
            let (after, step) = state.next(one, reply);
            &&& state.check_of(one, reply) == state.check_of(other, reply)
            &&& step == state.next(other, reply).1
            &&& after.loader == if state is Loading {
                GLLoader { previous_context_created: true }
            } else {
                one.loader
            }
            &&& step is Call ==> after.gl_info == one.gl_info
            &&& step is Done ==> after.gl_info == state.next(other, reply).0.gl_info
        }),
{
}

/// What the loader remembers decides one thing when a context is created: what is done
/// next when EGL has created it. A load is remembered when it is done, and nothing else
/// changes the loader.
pub proof fn law_creation_course(
    state: CreateContext,
    one: GLLoader,
    other: GLLoader,
    reply: NativeReply,
)
    ensures
        ({
            let (after, step) = state.next(one, reply);
            let loading = state matches CreateContext::Populating { populate, .. }
                && populate is Loading;
            &&& state.check_of(one, reply) == state.check_of(other, reply)
            &&& state !is Creating ==> step == state.next(other, reply).1
            &&& after == if loading {
                GLLoader { previous_context_created: true }
            } else {
                one
            }
        }),
{
}

/// What the loader remembers decides one thing when the current context is taken over:
/// what is done next when the devices are known. A load is remembered when it is done,
/// and nothing else changes the loader.
pub proof fn law_adoption_course(
    state: FromCurrentContext,
    one: GLLoader,
    other: GLLoader,
    reply: NativeReply,
)
    ensures
        ({
            let (after, step) = state.next(one, reply);
            let loading = state matches FromCurrentContext::Populating { populate, .. }
                && populate is Loading;
            &&& state.check_of(one, reply) == state.check_of(other, reply)
            &&& state !is Direct3D ==> step == state.next(other, reply).1
            &&& after == if loading {
                GLLoader { previous_context_created: true }
            } else {
                one
            }
        }),
{
}

/// The loader that contexts leave which are set up one after the other.
pub open spec fn loader_after_all(loader: GLLoader, setups: Seq<Setup>) -> GLLoader
    decreases setups.len(),
{
    if setups.len() == 0 {
        loader
    } else {
        setups.last().loader_after(loader_after_all(loader, setups.drop_last()))
    }
}

/// All the calls that are asked for meanwhile.
pub open spec fn all_calls(loader: GLLoader, setups: Seq<Setup>) -> Seq<NativeCall>
    decreases setups.len(),
{
    if setups.len() == 0 {
        Seq::empty()
    } else {
        all_calls(loader, setups.drop_last()) + setups.last().calls(
            loader_after_all(loader, setups.drop_last()),
        )
    }
}

/// Each of them is over before the next one starts.
pub open spec fn all_over(loader: GLLoader, setups: Seq<Setup>) -> bool
    decreases setups.len(),
{
    setups.len() > 0 ==> {
        &&& all_over(loader, setups.drop_last())
        &&& setups.last().is_over(loader_after_all(loader, setups.drop_last()))
    }
}

/// However many contexts are set up, one after the other, and whatever comes of each:
/// the GL functions are loaded at most once over all of them, and what has been loaded
/// stays loaded. If the last one comes to a context, they have been loaded exactly
/// once, unless they were loaded before the first.
pub proof fn law_gl_is_loaded_once_in_all(loader: GLLoader, setups: Seq<Setup>)
    requires
        all_over(loader, setups),
    ensures
        loader.previous_context_created ==> loader_after_all(
            loader,
            setups,
        ).previous_context_created,
        load_count(all_calls(loader, setups)) == loads_between(
            loader,
            loader_after_all(loader, setups),
        ),
        (setups.len() > 0 && setups.last().reaches_context(
            loader_after_all(loader, setups.drop_last()),
        )) ==> {
            &&& loader_after_all(loader, setups).previous_context_created
            &&& !loader.previous_context_created ==> load_count(all_calls(loader, setups)) == 1
        },
    decreases setups.len(),
{
    if setups.len() > 0 {
        let before = loader_after_all(loader, setups.drop_last());
        law_gl_is_loaded_once_in_all(loader, setups.drop_last());
        law_gl_is_loaded_once(setups.last(), before);
        lemma_load_count_add(
            all_calls(loader, setups.drop_last()),
            setups.last().calls(before),
        );
    }
}

/// Of a descriptor that was made for some attributes, the same flavor is read back;
/// and all flags that were wanted are, from a configuration whose buffers have at
/// least the sizes that were asked for.
pub proof fn law_attributes_are_read_back(
    display: EGLDisplay,
    attributes: ContextAttributes,
    replies: Seq<NativeReply>,
    read_replies: Seq<NativeReply>,
)
    requires
        read_replies.len() >= 4,
        read_replies[1].value >= wanted_size(attributes.flags, ContextAttributeFlags::ALPHA, 8),
        read_replies[2].value >= wanted_size(attributes.flags, ContextAttributeFlags::DEPTH, 24),
        read_replies[3].value >= wanted_size(attributes.flags, ContextAttributeFlags::STENCIL, 8),
    ensures
        run::<CreateContextDescriptor>(
            (),
            CreateContextDescriptor::begin(display, attributes),
            replies,
        ).end matches End::Finished(Ok(descriptor)) ==> (run::<ReadContextAttributes>(
            (),
            ReadContextAttributes::begin(display, descriptor),
            read_replies,
        ).end matches End::Finished(read) ==> {
            &&& read.flavor == attributes.flavor
            &&& attributes.flags.has(ContextAttributeFlags::ALPHA) ==> read.flags.has(
                ContextAttributeFlags::ALPHA,
            )
            &&& attributes.flags.has(ContextAttributeFlags::DEPTH) ==> read.flags.has(
                ContextAttributeFlags::DEPTH,
            )
            &&& attributes.flags.has(ContextAttributeFlags::STENCIL) ==> read.flags.has(
                ContextAttributeFlags::STENCIL,
            )
        }),
{
    reveal_with_fuel(run_from, 6);
    lemma_flags_of_sizes(
        read_replies[1].value as int,
        read_replies[2].value as int,
        read_replies[3].value as int,
    );
}

/// Buffers that are not there give no flag: what is read back are exactly the flags
/// that were wanted, if the configuration has exactly the buffers that were asked for.
pub proof fn law_flags_are_exact(flags: ContextAttributeFlags)
    requires
        flags.bits <= 7,
    ensures
        flags_of_sizes(
            wanted_size(flags, ContextAttributeFlags::ALPHA, 8) as int,
            wanted_size(flags, ContextAttributeFlags::DEPTH, 24) as int,
            wanted_size(flags, ContextAttributeFlags::STENCIL, 8) as int,
        ) == flags,
{
    let a = flags.has(ContextAttributeFlags::ALPHA);
    let d = flags.has(ContextAttributeFlags::DEPTH);
    let s = flags.has(ContextAttributeFlags::STENCIL);
    let bits = flags.bits;
    let b0 = 0u8;
    let b1 = if a { b0 | 1u8 } else { b0 & !1u8 };
    let b2 = if d { b1 | 2u8 } else { b1 & !2u8 };
    let b3 = if s { b2 | 4u8 } else { b2 & !4u8 };
    assert(b3 == bits) by (bit_vector)
        requires
            bits <= 7,
            a == (bits & 1u8 == 1u8),
            d == (bits & 2u8 == 2u8),
            s == (bits & 4u8 == 4u8),
            b0 == 0u8,
            b1 == (if a { b0 | 1u8 } else { b0 & !1u8 }),
            b2 == (if d { b1 | 2u8 } else { b1 & !2u8 }),
            b3 == (if s { b2 | 4u8 } else { b2 & !4u8 }),
    ;
}

/// A context is created for the version of its descriptor; and if EGL describes it by
/// the configuration and the version that it was created for, then surfaces of that
/// descriptor fit it.
pub proof fn law_context_of_descriptor_fits(egl_config_id: EGLint, flavor: GLFlavor)
    ensures
        ({
            let descriptor = ContextDescriptor::of_flavor(egl_config_id, flavor);
            let version = descriptor.egl_context_client_version;
            &&& context_attribute_list(descriptor)@ == seq![
                CONTEXT_CLIENT_VERSION,
                version,
                NONE,
                0,
                0,
                0,
            ]
            &&& descriptor.fits(ContextDescriptor::of_context(egl_config_id, version))
        }),
{
}

/// What is found for some attributes has one version: that of the wanted flavor.
pub proof fn law_created_descriptor_wf(
    display: EGLDisplay,
    attributes: ContextAttributes,
    replies: Seq<NativeReply>,
)
    ensures
        run::<CreateContextDescriptor>(
            (),
            CreateContextDescriptor::begin(display, attributes),
            replies,
        ).end matches End::Finished(Ok(descriptor)) ==> {
            &&& descriptor.wf()
            &&& descriptor.flavor == attributes.flavor
        },
{
    reveal_with_fuel(run_from, 4);
}

/// A context fits the surface that it was created for, if EGL reports of it the
/// configuration and the version that it was created with: it is described as the
/// descriptor of that surface says, and other surfaces of that descriptor are not
/// refused.
pub proof fn law_created_context_fits_its_surface(
    display: EGLDisplay,
    color_surface: Surface,
    loader: GLLoader,
    replies: Seq<NativeReply>,
    describe_replies: Seq<NativeReply>,
    other: Surface,
)
    requires
        color_surface.descriptor.wf(),
        other.descriptor == color_surface.descriptor,
        describe_replies.len() >= 5,
        describe_replies[0].value == config_id_attribute_list(
            color_surface.descriptor.egl_config_id,
        )@[1],
        describe_replies[1].value == context_attribute_list(color_surface.descriptor)@[1],
    ensures
        run::<CreateContext>(
            loader,
            CreateContext::begin(display, color_surface),
            replies,
        ).end matches End::Finished(Ok(context)) ==> {
            let handle = context.native_context.handle();
            let described = run::<DescribeContext>(
                (),
                DescribeContext::begin(display, handle),
                describe_replies,
            );
            let (begun, step) = ReplaceColorSurface::begin(context, display, other);
            let replaced = run::<ReplaceColorSurface>(begun, step, describe_replies);
            &&& described.end matches End::Finished(descriptor) ==> {
                &&& descriptor.egl_config_id == color_surface.descriptor.egl_config_id
                &&& descriptor.egl_context_client_version
                    == color_surface.descriptor.egl_context_client_version
                &&& color_surface.descriptor.fits(descriptor)
            }
            &&& replaced.end matches End::Finished(result) ==> result
                != Err::<Option<Surface>, Error>(Error::IncompatibleContextDescriptor)
        },
{
    lemma_creation(loader, color_surface, CreateContext::begin(display, color_surface), replies, 0);
    let end = run::<CreateContext>(
        loader,
        CreateContext::begin(display, color_surface),
        replies,
    ).end;
    if let End::Finished(Ok(context)) = end {
        run_context_descriptor(display, context.native_context.handle(), describe_replies);
        run_replace_context_color_surface(display, context, other, describe_replies);
    }
}

/// The version of a context that EGL describes is the one that EGL gives, for all
/// versions that can be written down.
pub proof fn law_described_version(egl_config_id: EGLint, client_version: EGLint)
    requires
        0 <= client_version <= 255,
    ensures
        ContextDescriptor::of_context(egl_config_id, client_version).flavor.version.major
            == client_version,
{
}

/// Every attribute list ends where EGL stops reading: no attribute before the end has
/// the name of the end, and only zeroes stand behind it.
pub proof fn law_attribute_lists_end(
    attributes: ContextAttributes,
    egl_config_id: EGLint,
    descriptor: ContextDescriptor,
)
    ensures
        ends_at(config_attribute_list(attributes)@, 18),
        ends_at(config_id_attribute_list(egl_config_id)@, 2),
        ends_at(context_attribute_list(descriptor)@, 2),
{
}

/// The list holds pairs of a name and a value up to `end`, and nothing behind it.
pub open spec fn ends_at(list: Seq<EGLint>, end: int) -> bool {
    &&& 0 <= end < list.len()
    &&& end % 2 == 0
    &&& list[end] == NONE
    &&& forall|i: int| 0 <= i < end && i % 2 == 0 ==> #[trigger] list[i] != NONE && list[i] != 0
    &&& forall|i: int| end < i < list.len() ==> #[trigger] list[i] == 0
}

/// The GL loader gets what EGL gave for a function, null included.
pub proof fn law_loader_gets_address(address: usize)
    ensures
        address_or_null(ProcAddressLookup::outcome(address)) == address,
{
}

/// A function is found exactly where EGL gives an address, and at that address; what
/// the GL loader gets of a function that was found is its address, and null of any other.
pub proof fn law_proc_address(address: usize, error: Error)
    ensures
        address != 0 ==> ProcAddressLookup::outcome(address) == Ok::<usize, Error>(address),
        ProcAddressLookup::outcome(0) == Err::<usize, Error>(Error::GLFunctionNotFound),
        address_or_null(Ok(address)) == address,
        address_or_null(Err(error)) == 0,
{
}

/// Setting or clearing flags does that to all of their bits, and leaves the others as
/// they are; and what has been set is there, and is the only thing that was added.
pub proof fn law_flags_are_set(flags: ContextAttributeFlags, flag: u8, value: bool)
    ensures
        flags.with(flag, value).bits & flag == if value {
            flag
        } else {
            0u8
        },
        flags.with(flag, value).bits & !flag == flags.bits & !flag,
        flags.with(flag, true).has(flag),
        flag != 0 ==> !flags.with(flag, false).has(flag),
{
    let bits = flags.bits;
    assert((bits | flag) & flag == flag) by (bit_vector);
    assert((bits | flag) & !flag == bits & !flag) by (bit_vector);
    assert((bits & !flag) & flag == 0u8) by (bit_vector);
    assert((bits & !flag) & !flag == bits & !flag) by (bit_vector);
}

/// A context says what it holds: its handle, its surface, and where it draws to. The
/// handle is that of its EGL context, whoever created it.
pub proof fn law_context_parts(context: Context)
    ensures
        context.native_context.handle() == match context.native_context {
            NativeContext::Owned(owned) => owned.egl_context,
            NativeContext::Borrowed(borrowed) => borrowed.egl_context,
        },
        context.native_context.destroyed() == (context.native_context.handle() == NO_CONTEXT),
        context.native_context matches NativeContext::Owned(owned) ==> owned.destroyed() == (
        owned.egl_context == NO_CONTEXT),
        context.native_context matches NativeContext::Borrowed(borrowed) ==> borrowed.destroyed()
            == (borrowed.egl_context == NO_CONTEXT),
        context.managed_surface() is Some == context.color_surface is Managed,
        context.managed_surface() matches Some(surface) ==> context.color_surface
            == ColorSurface::Managed(surface),
        context.color_surface is External ==> context.framebuffer_object() == Err::<GLuint, Error>(
            Error::ExternalRenderTarget,
        ),
        context.color_surface !is External ==> context.framebuffer_object() == Ok::<GLuint, Error>(
            0,
        ),
{
}

/// The numbers that EGL and GL are spoken to with are those of their headers.
pub proof fn law_constants()
    ensures
        FALSE == 0,
        NO_DISPLAY == 0,
        NO_CONTEXT == 0,
        NO_SURFACE == 0,
        NO_DEVICE_EXT == 0,
        NO_CONFIG == 0,
        PBUFFER_BIT == 0x0001,
        OPENGL_ES2_BIT == 0x0004,
        OPENGL_BIT == 0x0008,
        ALPHA_SIZE == 0x3021,
        BLUE_SIZE == 0x3022,
        GREEN_SIZE == 0x3023,
        RED_SIZE == 0x3024,
        DEPTH_SIZE == 0x3025,
        STENCIL_SIZE == 0x3026,
        CONFIG_ID == 0x3028,
        SURFACE_TYPE == 0x3033,
        NONE == 0x3038,
        BIND_TO_TEXTURE_RGBA == 0x303a,
        RENDERABLE_TYPE == 0x3040,
        CONTEXT_CLIENT_VERSION == 0x3098,
        DEVICE_EXT == 0x322c,
        D3D11_DEVICE_ANGLE == 0x33a1,
        D3D_DRIVER_TYPE_UNKNOWN == 0,
        DRAW_FRAMEBUFFER_BINDING == 0x8ca6,
        READ_FRAMEBUFFER_BINDING == 0x8caa,
        READ_FRAMEBUFFER == 0x8ca8,
        DRAW_FRAMEBUFFER == 0x8ca9,
        ContextAttributeFlags::ALPHA == 1,
        ContextAttributeFlags::DEPTH == 2,
        ContextAttributeFlags::STENCIL == 4,
{
}

/// The framebuffers of GL: which are bound, and which there are.
pub struct GLFramebuffers {
    pub draw: GLuint,
    pub read: GLuint,
    pub objects: Set<GLuint>,
}

impl GLFramebuffers {
    /// What a call does to the framebuffers.
    pub open spec fn after(self, call: GLCall) -> GLFramebuffers {
        match call {
            GLCall::GetInteger { .. } => self,
            GLCall::BindFramebuffer { target, framebuffer } => if target == DRAW_FRAMEBUFFER {
                GLFramebuffers { draw: framebuffer, ..self }
            } else if target == READ_FRAMEBUFFER {
                GLFramebuffers { read: framebuffer, ..self }
            } else {
                self
            },
            GLCall::DeleteFramebuffer { framebuffer } => GLFramebuffers {
                objects: self.objects.remove(framebuffer),
                ..self
            },
        }
    }

    /// What calls do, one after the other.
    pub open spec fn after_all(self, calls: Seq<GLCall>) -> GLFramebuffers
        decreases calls.len(),
    {
        if calls.len() == 0 {
            self
        } else {
            self.after_all(calls.drop_last()).after(calls.last())
        }
    }

    /// The framebuffers, with `framebuffer` bound nowhere.
    pub open spec fn without_binding(self, framebuffer: GLuint) -> GLFramebuffers {
        GLFramebuffers {
            draw: if self.draw == framebuffer {
                0
            } else {
                self.draw
            },
            read: if self.read == framebuffer {
                0
            } else {
                self.read
            },
            ..self
        }
    }
}

/// A framebuffer object that is destroyed is bound nowhere when it is deleted, and is
/// gone then. Other bindings and objects stay as they are.
pub proof fn law_destroyed_framebuffer_is_unbound(
    framebuffers: GLFramebuffers,
    framebuffer_object: GLuint,
    replies: Seq<GLint>,
)
    requires
        replies.len() >= 5,
        replies[0] as GLuint == framebuffers.draw,
        replies[1] as GLuint == framebuffers.read,
    ensures
        ({
            let calls = run::<DestroyFramebuffer>(
                (),
                DestroyFramebuffer::begin(framebuffer_object),
                replies,
            ).calls;
            let unbound = framebuffers.without_binding(framebuffer_object);
            &&& framebuffers.after_all(calls.drop_last()) == unbound
            &&& framebuffers.after_all(calls) == GLFramebuffers {
                objects: framebuffers.objects.remove(framebuffer_object),
                ..unbound
            }
        }),
{
    run_destroy_framebuffer(framebuffer_object, replies);
    reveal_with_fuel(GLFramebuffers::after_all, 6);
}

} // verus!
