//! What whole runs of the operations do, for all replies.
use crate::adopt::FromCurrentContext;
use crate::attributes::{
    flags_of_sizes, lemma_flags_of_sizes, ContextAttributeFlags, ContextAttributes, GLApi,
    GLFlavor, GLInfo, GLVersion,
};
use crate::config::{
    config_id_attribute_list, CreateContextDescriptor, ReadContextAttributes, ResolveConfig,
};
use crate::context::{Context, ContextDescriptor};
use crate::create::{context_attribute_list, CreateContext, CreateContextFailure};
use crate::current::MakeCurrent;
use crate::describe::DescribeContext;
use crate::destroy::{DestroyContext, DestroyNativeContext};
use crate::device::{Device, GLLoader, SurfaceBindings, D3D_DRIVER_TYPE_UNKNOWN};
use crate::egl::{
    EGLConfig, EGLContext, EGLDisplay, EGLSurface, EGLint, NativeCall, NativeReply, ALPHA_SIZE,
    BIND_TO_TEXTURE_RGBA, BLUE_SIZE, CONFIG_ID, CONTEXT_CLIENT_VERSION, D3D11_DEVICE_ANGLE,
    DEPTH_SIZE, DEVICE_EXT, FALSE, GREEN_SIZE, NONE, NO_CONFIG, NO_CONTEXT, NO_SURFACE,
    OPENGL_BIT, OPENGL_ES2_BIT, PBUFFER_BIT, RED_SIZE, RENDERABLE_TYPE, STENCIL_SIZE,
    SURFACE_TYPE,
};
use crate::error::{Error, WindowingApiError};
use crate::gl_utils::{
    DestroyFramebuffer, GLCall, GLint, GLuint, DRAW_FRAMEBUFFER, DRAW_FRAMEBUFFER_BINDING,
    READ_FRAMEBUFFER, READ_FRAMEBUFFER_BINDING,
};
use crate::native_context::{NativeContext, OwnedEGLContext, UnsafeEGLContextRef};
use crate::operation::{run, run_from, End, ReplyCheck};
use crate::populate::{PopulateGLInfo, Population};
use crate::replace::ReplaceColorSurface;
use crate::surface::{ColorSurface, Surface};
use vstd::prelude::*;

verus! {

/// The call that asks for the configuration with the number in `descriptor`.
pub open spec fn resolve_call(display: EGLDisplay, descriptor: ContextDescriptor) -> NativeCall {
    NativeCall::ChooseConfigById {
        display,
        id_attributes: config_id_attribute_list(descriptor.egl_config_id),
        config_size: 1,
    }
}

/// A reply to that call with a configuration in it.
pub open spec fn resolved(reply: NativeReply) -> bool {
    reply.status != FALSE && reply.value > 0
}

/// The two calls that ask what kind a context is of.
pub open spec fn describe_calls(display: EGLDisplay, context: EGLContext) -> Seq<NativeCall> {
    seq![
        NativeCall::QueryContext { display, context, attribute: CONFIG_ID },
        NativeCall::QueryContext {
            display,
            context,
            attribute: CONTEXT_CLIENT_VERSION,
        },
    ]
}

/// The three calls that ask for the sizes of the buffers of a configuration.
pub open spec fn size_calls(display: EGLDisplay, config: EGLConfig) -> Seq<NativeCall> {
    seq![
        NativeCall::GetConfigAttrib { display, config, attribute: ALPHA_SIZE },
        NativeCall::GetConfigAttrib { display, config, attribute: DEPTH_SIZE },
        NativeCall::GetConfigAttrib {
            display,
            config,
            attribute: STENCIL_SIZE,
        },
    ]
}

/// The call that makes a context current with a surface to draw to and to read from.
pub open spec fn bind_call(
    display: EGLDisplay,
    surface: EGLSurface,
    context: EGLContext,
) -> NativeCall {
    NativeCall::MakeCurrent {
        display,
        draw: surface,
        read: surface,
        context,
    }
}

/// Looking for a configuration asks EGL for one with a pbuffer that can be bound to an
/// RGBA texture, for the wanted API, with colors of eight bits, and with as many bits of
/// alpha, depth and stencil as the flags ask for, whatever the version; then for its
/// number. Where EGL fails, its error code comes back; where it finds none, that is the
/// error. Only a number that cannot be read breaks an expectation.
pub proof fn run_create_context_descriptor(
    display: EGLDisplay,
    attributes: ContextAttributes,
    replies: Seq<NativeReply>,
)
    requires
        replies.len() >= 2,
    ensures
        ({
            let r = run::<CreateContextDescriptor>(
                (),
                CreateContextDescriptor::begin(display, attributes),
                replies,
            );
            let bits = attributes.flags.bits;
            let choose = NativeCall::ChooseConfig {
                display,
                config_attributes: [
                    SURFACE_TYPE,
                    PBUFFER_BIT,
                    RENDERABLE_TYPE,
                    if attributes.flavor.api is GL {
                        OPENGL_BIT
                    } else {
                        OPENGL_ES2_BIT
                    },
                    BIND_TO_TEXTURE_RGBA,
                    1,
                    RED_SIZE,
                    8,
                    GREEN_SIZE,
                    8,
                    BLUE_SIZE,
                    8,
                    ALPHA_SIZE,
                    if bits & ContextAttributeFlags::ALPHA == ContextAttributeFlags::ALPHA {
                        8
                    } else {
                        0
                    },
                    DEPTH_SIZE,
                    if bits & ContextAttributeFlags::DEPTH == ContextAttributeFlags::DEPTH {
                        24
                    } else {
                        0
                    },
                    STENCIL_SIZE,
                    if bits & ContextAttributeFlags::STENCIL == ContextAttributeFlags::STENCIL {
                        8
                    } else {
                        0
                    },
                    NONE,
                    0,
                    0,
                    0,
                ],
                config_size: 1,
            };
            let identify = NativeCall::GetConfigAttrib {
                display,
                config: replies[0].handle,
                attribute: CONFIG_ID,
            };
            if replies[0].status == FALSE {
                &&& r.calls == seq![choose, NativeCall::GetError]
                &&& r.checks == seq![ReplyCheck::Accepted, ReplyCheck::Accepted]
                &&& r.end == End::<CreateContextDescriptor, _>::Finished(
                    Err::<ContextDescriptor, Error>(
                        Error::PixelFormatSelectionFailed(
                            WindowingApiError { code: replies[1].value },
                        ),
                    ),
                )
            } else if replies[0].value == 0 || replies[0].handle == NO_CONFIG {
                &&& r.calls == seq![choose]
                &&& r.checks == seq![ReplyCheck::Accepted]
                &&& r.end == End::<CreateContextDescriptor, _>::Finished(
                    Err::<ContextDescriptor, Error>(Error::NoPixelFormatFound),
                )
            } else {
                &&& r.calls == seq![choose, identify]
                &&& r.checks == seq![
                    ReplyCheck::Accepted,
                    if replies[1].status == FALSE {
                        ReplyCheck::DebugFault
                    } else {
                        ReplyCheck::Accepted
                    },
                ]
                &&& r.end == End::<CreateContextDescriptor, _>::Finished(
                    Ok::<ContextDescriptor, Error>(
                        ContextDescriptor {
                            egl_config_id: replies[1].value,
                            egl_context_client_version: attributes.flavor.version.major as EGLint,
                            flavor: attributes.flavor,
                        },
                    ),
                )
            }
        }),
{
    reveal_with_fuel(run_from, 4);
}

/// Describing a context asks EGL for the number of its configuration and for its
/// version, and gives back both; the flavor is GLES of that version. It goes no further
/// where EGL fails. Only a version that is not positive breaks an expectation.
pub proof fn run_context_descriptor(
    display: EGLDisplay,
    context: EGLContext,
    replies: Seq<NativeReply>,
)
    requires
        replies.len() >= 2,
    ensures
        ({
            let r = run::<DescribeContext>((), DescribeContext::begin(display, context), replies);
            let ask_config = NativeCall::QueryContext { display, context, attribute: CONFIG_ID };
            let ask_version = NativeCall::QueryContext {
                display,
                context,
                attribute: CONTEXT_CLIENT_VERSION,
            };
            if replies[0].status == FALSE {
                &&& r.calls == seq![ask_config]
                &&& r.checks == seq![ReplyCheck::Fault]
                &&& r.end is Faulted
            } else if replies[1].status == FALSE {
                &&& r.calls == seq![ask_config, ask_version]
                &&& r.checks == seq![ReplyCheck::Accepted, ReplyCheck::Fault]
                &&& r.end is Faulted
            } else {
                &&& r.calls == seq![ask_config, ask_version]
                &&& r.checks == seq![
                    ReplyCheck::Accepted,
                    if replies[1].value <= 0 {
                        ReplyCheck::DebugFault
                    } else {
                        ReplyCheck::Accepted
                    },
                ]
                &&& r.end == End::<DescribeContext, _>::Finished(
                    ContextDescriptor {
                        egl_config_id: replies[0].value,
                        egl_context_client_version: replies[1].value,
                        flavor: GLFlavor {
                            api: GLApi::GLES,
                            version: GLVersion { major: replies[1].value as u8, minor: 0 },
                        },
                    },
                )
            }
        }),
{
    reveal_with_fuel(run_from, 4);
}

/// Looking up the configuration of a descriptor asks EGL for the one with its number.
/// It goes no further where EGL fails or has none.
pub proof fn run_context_descriptor_to_egl_config(
    display: EGLDisplay,
    descriptor: ContextDescriptor,
    replies: Seq<NativeReply>,
)
    requires
        replies.len() >= 1,
    ensures
        ({
            let r = run::<ResolveConfig>((), ResolveConfig::begin(display, descriptor), replies);
            &&& r.calls == seq![
                NativeCall::ChooseConfigById {
                    display,
                    id_attributes: [CONFIG_ID, descriptor.egl_config_id, NONE, 0, 0, 0],
                    config_size: 1,
                },
            ]
            &&& if replies[0].status == FALSE || replies[0].value <= 0 {
                &&& r.checks == seq![ReplyCheck::Fault]
                &&& r.end is Faulted
            } else {
                &&& r.checks == seq![ReplyCheck::Accepted]
                &&& r.end == End::<ResolveConfig, EGLConfig>::Finished(replies[0].handle)
            }
        }),
{
    reveal_with_fuel(run_from, 3);
}

/// Reading the attributes of a descriptor asks EGL for its configuration and for the
/// sizes of the three buffers. There is a flag for each buffer whose size is not
/// zero, and no other; the flavor is that of the descriptor. Only a size that cannot be
/// read breaks an expectation.
pub proof fn run_context_descriptor_attributes(
    display: EGLDisplay,
    descriptor: ContextDescriptor,
    replies: Seq<NativeReply>,
)
    requires
        replies.len() >= 4,
    ensures
        ({
            let r = run::<ReadContextAttributes>(
                (),
                ReadContextAttributes::begin(display, descriptor),
                replies,
            );
            let config = replies[0].handle;
            let resolve = NativeCall::ChooseConfigById {
                display,
                id_attributes: [CONFIG_ID, descriptor.egl_config_id, NONE, 0, 0, 0],
                config_size: 1,
            };
            let sized = |reply: NativeReply|
                if reply.status == FALSE {
                    ReplyCheck::DebugFault
                } else {
                    ReplyCheck::Accepted
                };
            if replies[0].status == FALSE || replies[0].value <= 0 {
                &&& r.calls == seq![resolve]
                &&& r.checks == seq![ReplyCheck::Fault]
                &&& r.end is Faulted
            } else {
                &&& r.calls == seq![
                    resolve,
                    NativeCall::GetConfigAttrib { display, config, attribute: ALPHA_SIZE },
                    NativeCall::GetConfigAttrib { display, config, attribute: DEPTH_SIZE },
                    NativeCall::GetConfigAttrib { display, config, attribute: STENCIL_SIZE },
                ]
                &&& r.checks == seq![
                    ReplyCheck::Accepted,
                    sized(replies[1]),
                    sized(replies[2]),
                    sized(replies[3]),
                ]
                &&& r.end matches End::Finished(read)
                &&& read.flavor == descriptor.flavor
                &&& read.flags.bits == (if replies[1].value != 0 {
                    1int
                } else {
                    0
                }) + (if replies[2].value != 0 {
                    2int
                } else {
                    0
                }) + (if replies[3].value != 0 {
                    4int
                } else {
                    0
                })
            }
        }),
{
    reveal_with_fuel(run_from, 6);
    lemma_flags_of_sizes(
        replies[1].value as int,
        replies[2].value as int,
        replies[3].value as int,
    );
}

/// What comes of the reply to a call that makes a context current, and of the error
/// code that is asked for if that failed.
pub open spec fn bind_result(bound: NativeReply, error: NativeReply) -> Result<(), Error> {
    if bound.status == FALSE {
        Err(Error::MakeCurrentFailed(WindowingApiError { code: error.value }))
    } else {
        Ok(())
    }
}

/// The call for the error code, where binding failed.
pub open spec fn error_calls(bound: NativeReply) -> Seq<NativeCall> {
    if bound.status == FALSE {
        seq![NativeCall::GetError]
    } else {
        Seq::empty()
    }
}

/// Making a context current binds it with the EGL surface of its surface, both to
/// draw to and to read from; or with none, if it has no surface. A context that renders
/// to a target that is not managed here is refused without a call. Where EGL fails, its
/// error code comes back. Every reply is taken.
pub proof fn run_make_context_current(
    display: EGLDisplay,
    context: Context,
    replies: Seq<NativeReply>,
)
    requires
        replies.len() >= 3,
    ensures
        ({
            let r = run::<MakeCurrent>((), MakeCurrent::begin(display, context), replies);
            let handle = match context.native_context {
                NativeContext::Owned(owned) => owned.egl_context,
                NativeContext::Borrowed(borrowed) => borrowed.egl_context,
            };
            let bind = |surface: EGLSurface|
                NativeCall::MakeCurrent { display, draw: surface, read: surface, context: handle };
            &&& forall|i: int|
                0 <= i < r.checks.len() ==> #[trigger] r.checks[i] == ReplyCheck::Accepted
            &&& r.checks.len() == r.calls.len()
            &&& match context.color_surface {
                ColorSurface::Managed(surface) => {
                    let lookup = NativeCall::LookupSurface { handle: surface.handle };
                    if replies[1].status == FALSE {
                        &&& r.calls == seq![lookup, bind(replies[0].handle), NativeCall::GetError]
                        &&& r.end == End::<MakeCurrent, _>::Finished(
                            Err::<(), Error>(
                                Error::MakeCurrentFailed(
                                    WindowingApiError { code: replies[2].value },
                                ),
                            ),
                        )
                    } else {
                        &&& r.calls == seq![lookup, bind(replies[0].handle)]
                        &&& r.end == End::<MakeCurrent, _>::Finished(Ok::<(), Error>(()))
                    }
                },
                ColorSurface::External => {
                    &&& r.calls == Seq::<NativeCall>::empty()
                    &&& r.end == End::<MakeCurrent, _>::Finished(
                        Err::<(), Error>(Error::ExternalRenderTarget),
                    )
                },
                ColorSurface::Nothing => if replies[0].status == FALSE {
                    &&& r.calls == seq![bind(NO_SURFACE), NativeCall::GetError]
                    &&& r.end == End::<MakeCurrent, _>::Finished(
                        Err::<(), Error>(
                            Error::MakeCurrentFailed(WindowingApiError { code: replies[1].value }),
                        ),
                    )
                } else {
                    &&& r.calls == seq![bind(NO_SURFACE)]
                    &&& r.end == End::<MakeCurrent, _>::Finished(Ok::<(), Error>(()))
                },
            }
        }),
{
    reveal_with_fuel(run_from, 5);
}

/// Making no context current binds nothing, with no surface, whatever the context. Where
/// EGL fails, its error code comes back. Every reply is taken.
pub proof fn run_make_context_not_current(display: EGLDisplay, replies: Seq<NativeReply>)
    requires
        replies.len() >= 2,
    ensures
        ({
            let r = run::<MakeCurrent>((), MakeCurrent::begin_not_current(display), replies);
            let unbind = NativeCall::MakeCurrent {
                display,
                draw: NO_SURFACE,
                read: NO_SURFACE,
                context: NO_CONTEXT,
            };
            if replies[0].status == FALSE {
                &&& r.calls == seq![unbind, NativeCall::GetError]
                &&& r.checks == seq![ReplyCheck::Accepted, ReplyCheck::Accepted]
                &&& r.end == End::<MakeCurrent, _>::Finished(
                    Err::<(), Error>(
                        Error::MakeCurrentFailed(WindowingApiError { code: replies[1].value }),
                    ),
                )
            } else {
                &&& r.calls == seq![unbind]
                &&& r.checks == seq![ReplyCheck::Accepted]
                &&& r.end == End::<MakeCurrent, _>::Finished(Ok::<(), Error>(()))
            }
        }),
{
    reveal_with_fuel(run_from, 4);
}

/// Destroying a context destroys its surface if it has one that is managed here, then
/// its EGL context if that was created here. Afterwards it is destroyed and has no
/// surface. One that has been destroyed before is left alone. Only an EGL context that
/// EGL does not delete stops it.
pub proof fn run_destroy_context(display: EGLDisplay, context: Context, replies: Seq<NativeReply>)
    requires
        replies.len() >= 3,
    ensures
        ({
            let (begun, step) = DestroyContext::begin(context, display);
            let r = run::<DestroyContext>(begun, step, replies);
            let surface_calls = match context.color_surface {
                ColorSurface::Managed(surface) => seq![NativeCall::DestroySurface { surface }],
                _ => Seq::empty(),
            };
            let surface_checks = match context.color_surface {
                ColorSurface::Managed(_) => seq![ReplyCheck::Accepted],
                _ => Seq::empty(),
            };
            match context.native_context {
                NativeContext::Owned(owned) => if owned.egl_context == NO_CONTEXT {
                    &&& r.calls == Seq::<NativeCall>::empty()
                    &&& r.checks == Seq::<ReplyCheck>::empty()
                    &&& r.target == context
                    &&& r.end == End::<DestroyContext, _>::Finished(Ok::<(), Error>(()))
                } else {
                    &&& r.calls == surface_calls + seq![
                        NativeCall::MakeCurrent {
                            display,
                            draw: NO_SURFACE,
                            read: NO_SURFACE,
                            context: NO_CONTEXT,
                        },
                        NativeCall::DestroyContext { display, context: owned.egl_context },
                    ]
                    &&& if replies[(surface_calls.len() + 1) as int].status == FALSE {
                        &&& r.checks == surface_checks + seq![
                            ReplyCheck::Accepted,
                            ReplyCheck::Fault,
                        ]
                        &&& r.target == Context {
                            color_surface: ColorSurface::Nothing,
                            ..context
                        }
                        &&& r.end is Faulted
                    } else {
                        &&& r.checks == surface_checks + seq![
                            ReplyCheck::Accepted,
                            ReplyCheck::Accepted,
                        ]
                        &&& r.target == Context {
                            native_context: NativeContext::Owned(
                                OwnedEGLContext { egl_context: NO_CONTEXT },
                            ),
                            gl_info: context.gl_info,
                            color_surface: ColorSurface::Nothing,
                        }
                        &&& r.end == End::<DestroyContext, _>::Finished(Ok::<(), Error>(()))
                    }
                },
                NativeContext::Borrowed(borrowed) => if borrowed.egl_context == NO_CONTEXT {
                    &&& r.calls == Seq::<NativeCall>::empty()
                    &&& r.checks == Seq::<ReplyCheck>::empty()
                    &&& r.target == context
                    &&& r.end == End::<DestroyContext, _>::Finished(Ok::<(), Error>(()))
                } else {
                    &&& r.calls == surface_calls
                    &&& r.checks == surface_checks
                    &&& r.target == Context {
                        native_context: NativeContext::Borrowed(
                            UnsafeEGLContextRef { egl_context: NO_CONTEXT },
                        ),
                        gl_info: context.gl_info,
                        color_surface: ColorSurface::Nothing,
                    }
                    &&& r.end == End::<DestroyContext, _>::Finished(Ok::<(), Error>(()))
                },
            }
        }),
{
    reveal_with_fuel(run_from, 5);
}

/// Destroying an EGL context that was created here unbinds whatever is current and
/// deletes it; one that was created elsewhere is only forgotten.
pub proof fn run_destroy_native_context(
    display: EGLDisplay,
    native_context: NativeContext,
    replies: Seq<NativeReply>,
)
    requires
        replies.len() >= 2,
    ensures
        ({
            let (begun, step) = DestroyNativeContext::begin(native_context, display);
            let r = run::<DestroyNativeContext>(begun, step, replies);
            match native_context {
                NativeContext::Owned(owned) => {
                    &&& r.calls == seq![
                        NativeCall::MakeCurrent {
                            display,
                            draw: NO_SURFACE,
                            read: NO_SURFACE,
                            context: NO_CONTEXT,
                        },
                        NativeCall::DestroyContext { display, context: owned.egl_context },
                    ]
                    &&& if replies[1].status == FALSE {
                        &&& r.checks == seq![ReplyCheck::Accepted, ReplyCheck::Fault]
                        &&& r.target == native_context
                        &&& r.end is Faulted
                    } else {
                        &&& r.checks == seq![ReplyCheck::Accepted, ReplyCheck::Accepted]
                        &&& r.target == NativeContext::Owned(
                            OwnedEGLContext { egl_context: NO_CONTEXT },
                        )
                        &&& r.end == End::<DestroyNativeContext, ()>::Finished(())
                    }
                },
                NativeContext::Borrowed(_) => {
                    &&& r.calls == Seq::<NativeCall>::empty()
                    &&& r.target == NativeContext::Borrowed(
                        UnsafeEGLContextRef { egl_context: NO_CONTEXT },
                    )
                    &&& r.end == End::<DestroyNativeContext, ()>::Finished(())
                },
            }
        }),
{
    reveal_with_fuel(run_from, 4);
}

/// Giving a context another surface is refused for a target that is not managed here,
/// and for a surface whose configuration or version is not the one that EGL reports of
/// the context: then the context stays as it is. Otherwise the context gets the new
/// surface and is made current with it; if that works, the surface that it had before
/// comes back. Nothing else of the context changes.
#[verifier::rlimit(40)]
#[verifier::spinoff_prover]
pub proof fn run_replace_context_color_surface(
    display: EGLDisplay,
    context: Context,
    new_color_surface: Surface,
    replies: Seq<NativeReply>,
)
    requires
        replies.len() >= 5,
    ensures
        ({
            let (begun, step) = ReplaceColorSurface::begin(context, display, new_color_surface);
            let r = run::<ReplaceColorSurface>(begun, step, replies);
            let handle = match context.native_context {
                NativeContext::Owned(owned) => owned.egl_context,
                NativeContext::Borrowed(borrowed) => borrowed.egl_context,
            };
            let ask_config = NativeCall::QueryContext {
                display,
                context: handle,
                attribute: CONFIG_ID,
            };
            let ask_version = NativeCall::QueryContext {
                display,
                context: handle,
                attribute: CONTEXT_CLIENT_VERSION,
            };
            let lookup = NativeCall::LookupSurface { handle: new_color_surface.handle };
            let bind = NativeCall::MakeCurrent {
                display,
                draw: replies[2].handle,
                read: replies[2].handle,
                context: handle,
            };
            let version = if replies[1].value <= 0 {
                ReplyCheck::DebugFault
            } else {
                ReplyCheck::Accepted
            };
            let accepted = ReplyCheck::Accepted;
            if context.color_surface is External {
                &&& r.calls == Seq::<NativeCall>::empty()
                &&& r.target == context
                &&& r.end == End::<ReplaceColorSurface, _>::Finished(
                    Err::<Option<Surface>, Error>(Error::ExternalRenderTarget),
                )
            } else if replies[0].status == FALSE {
                &&& r.calls == seq![ask_config]
                &&& r.checks == seq![ReplyCheck::Fault]
                &&& r.target == context
                &&& r.end is Faulted
            } else if replies[1].status == FALSE {
                &&& r.calls == seq![ask_config, ask_version]
                &&& r.checks == seq![accepted, ReplyCheck::Fault]
                &&& r.target == context
                &&& r.end is Faulted
            } else if new_color_surface.descriptor.egl_config_id != replies[0].value
                || new_color_surface.descriptor.egl_context_client_version != replies[1].value {
                &&& r.calls == seq![ask_config, ask_version]
                &&& r.checks == seq![accepted, version]
                &&& r.target == context
                &&& r.end == End::<ReplaceColorSurface, _>::Finished(
                    Err::<Option<Surface>, Error>(Error::IncompatibleContextDescriptor),
                )
            } else {
                &&& r.target == Context {
                    native_context: context.native_context,
                    gl_info: context.gl_info,
                    color_surface: ColorSurface::Managed(new_color_surface),
                }
                &&& if replies[3].status == FALSE {
                    &&& r.calls == seq![
                        ask_config,
                        ask_version,
                        lookup,
                        bind,
                        NativeCall::GetError,
                    ]
                    &&& r.checks == seq![accepted, version, accepted, accepted, accepted]
                    &&& r.end == End::<ReplaceColorSurface, _>::Finished(
                        Err::<Option<Surface>, Error>(
                            Error::MakeCurrentFailed(WindowingApiError { code: replies[4].value }),
                        ),
                    )
                } else {
                    &&& r.calls == seq![ask_config, ask_version, lookup, bind]
                    &&& r.checks == seq![accepted, version, accepted, accepted]
                    &&& r.end == End::<ReplaceColorSurface, _>::Finished(
                        Ok::<Option<Surface>, Error>(
                            match context.color_surface {
                                ColorSurface::Managed(old_surface) => Some(old_surface),
                                _ => None,
                            },
                        ),
                    )
                }
            }
        }),
{
    reveal_with_fuel(run_from, 7);
}

/// Where the replies about the GL of a new context start: loading the GL functions
/// takes one reply before.
pub open spec fn population_start(loader: GLLoader, at: int) -> int {
    if loader.previous_context_created {
        at
    } else {
        at + 1
    }
}

/// The calls that find out about the GL of a new context.
pub open spec fn population_calls(
    display: EGLDisplay,
    context: EGLContext,
    loader: GLLoader,
    replies: Seq<NativeReply>,
    at: int,
) -> Seq<NativeCall> {
    let k = population_start(loader, at);
    let load = if loader.previous_context_created {
        Seq::empty()
    } else {
        seq![NativeCall::LoadGL]
    };
    let found = ContextDescriptor::of_context(replies[k].value, replies[k + 1].value);
    load + describe_calls(display, context) + seq![resolve_call(display, found)] + size_calls(
        display,
        replies[k + 2].handle,
    )
}

/// EGL answers all those calls that have to be answered.
pub open spec fn population_answered(loader: GLLoader, replies: Seq<NativeReply>, at: int) -> bool {
    let k = population_start(loader, at);
    &&& replies[k].status != FALSE
    &&& replies[k + 1].status != FALSE
    &&& resolved(replies[k + 2])
}

/// How many of those calls are made, where EGL does not answer one of them.
pub open spec fn population_faulted(loader: GLLoader, replies: Seq<NativeReply>, at: int) -> int {
    let k = population_start(loader, at);
    k - at + if replies[k].status == FALSE {
        1int
    } else if replies[k + 1].status == FALSE {
        2
    } else {
        3
    }
}

/// What is made of the replies to those calls.
pub open spec fn population_checks(
    loader: GLLoader,
    replies: Seq<NativeReply>,
    at: int,
) -> Seq<ReplyCheck> {
    let k = population_start(loader, at);
    let load = if loader.previous_context_created {
        Seq::empty()
    } else {
        seq![ReplyCheck::Accepted]
    };
    let version = if replies[k + 1].status == FALSE {
        ReplyCheck::Fault
    } else if replies[k + 1].value <= 0 {
        ReplyCheck::DebugFault
    } else {
        ReplyCheck::Accepted
    };
    let found = if replies[k].status == FALSE {
        seq![ReplyCheck::Fault]
    } else if replies[k + 1].status == FALSE {
        seq![ReplyCheck::Accepted, ReplyCheck::Fault]
    } else if !resolved(replies[k + 2]) {
        seq![ReplyCheck::Accepted, version, ReplyCheck::Fault]
    } else {
        seq![
            ReplyCheck::Accepted,
            version,
            ReplyCheck::Accepted,
            size_check(replies[k + 3]),
            size_check(replies[k + 4]),
            size_check(replies[k + 5]),
        ]
    };
    load + found
}

/// What is made of a reply with the size of a buffer.
pub open spec fn size_check(reply: NativeReply) -> ReplyCheck {
    if reply.status == FALSE {
        ReplyCheck::DebugFault
    } else {
        ReplyCheck::Accepted
    }
}

/// What is known of the GL of the context when EGL has answered.
pub open spec fn population_info(loader: GLLoader, replies: Seq<NativeReply>, at: int) -> GLInfo {
    let k = population_start(loader, at);
    GLInfo {
        attributes: Some(
            ContextAttributes {
                flags: flags_of_sizes(
                    replies[k + 3].value as int,
                    replies[k + 4].value as int,
                    replies[k + 5].value as int,
                ),
                flavor: ContextDescriptor::of_context(
                    replies[k].value,
                    replies[k + 1].value,
                ).flavor,
            },
        ),
    }
}

/// Finding out about the GL of a context loads the GL functions if that was not done
/// before, asks EGL for the configuration and the version of the context, and reads which
/// buffers that configuration has. What was known before does not matter. It goes no
/// further where EGL does not answer.
#[verifier::rlimit(40)]
#[verifier::spinoff_prover]
pub proof fn run_populate_gl_info(
    population: Population,
    display: EGLDisplay,
    context: EGLContext,
    replies: Seq<NativeReply>,
)
    requires
        replies.len() >= 7,
    ensures
        ({
            let (begun, step) = PopulateGLInfo::begin(population, display, context);
            let r = run::<PopulateGLInfo>(begun, step, replies);
            let loaded = population.loader.previous_context_created;
            let k: int = if loaded {
                0
            } else {
                1
            };
            let load = if loaded {
                Seq::empty()
            } else {
                seq![NativeCall::LoadGL]
            };
            let accepted = ReplyCheck::Accepted;
            let load_check = if loaded {
                Seq::empty()
            } else {
                seq![accepted]
            };
            let ask_config = NativeCall::QueryContext { display, context, attribute: CONFIG_ID };
            let ask_version = NativeCall::QueryContext {
                display,
                context,
                attribute: CONTEXT_CLIENT_VERSION,
            };
            let resolve = NativeCall::ChooseConfigById {
                display,
                id_attributes: [CONFIG_ID, replies[k].value, NONE, 0, 0, 0],
                config_size: 1,
            };
            let ask_size = |attribute: EGLint|
                NativeCall::GetConfigAttrib { display, config: replies[k + 2].handle, attribute };
            let version = if replies[k + 1].value <= 0 {
                ReplyCheck::DebugFault
            } else {
                accepted
            };
            let sized = |reply: NativeReply|
                if reply.status == FALSE {
                    ReplyCheck::DebugFault
                } else {
                    ReplyCheck::Accepted
                };
            &&& r.target.loader.previous_context_created
            &&& if replies[k].status == FALSE {
                &&& r.calls == load + seq![ask_config]
                &&& r.checks == load_check + seq![ReplyCheck::Fault]
                &&& r.target.gl_info == population.gl_info
                &&& r.end is Faulted
            } else if replies[k + 1].status == FALSE {
                &&& r.calls == load + seq![ask_config, ask_version]
                &&& r.checks == load_check + seq![accepted, ReplyCheck::Fault]
                &&& r.target.gl_info == population.gl_info
                &&& r.end is Faulted
            } else if replies[k + 2].status == FALSE || replies[k + 2].value <= 0 {
                &&& r.calls == load + seq![ask_config, ask_version, resolve]
                &&& r.checks == load_check + seq![accepted, version, ReplyCheck::Fault]
                &&& r.target.gl_info == population.gl_info
                &&& r.end is Faulted
            } else {
                &&& r.calls == load + seq![
                    ask_config,
                    ask_version,
                    resolve,
                    ask_size(ALPHA_SIZE),
                    ask_size(DEPTH_SIZE),
                    ask_size(STENCIL_SIZE),
                ]
                &&& r.checks == load_check + seq![
                    accepted,
                    version,
                    accepted,
                    sized(replies[k + 3]),
                    sized(replies[k + 4]),
                    sized(replies[k + 5]),
                ]
                &&& r.end == End::<PopulateGLInfo, ()>::Finished(())
                &&& r.target.gl_info.attributes matches Some(attributes)
                &&& attributes.flavor == (GLFlavor {
                    api: GLApi::GLES,
                    version: GLVersion { major: replies[k + 1].value as u8, minor: 0 },
                })
                &&& attributes.flags.bits == (if replies[k + 3].value != 0 {
                    1int
                } else {
                    0
                }) + (if replies[k + 4].value != 0 {
                    2int
                } else {
                    0
                }) + (if replies[k + 5].value != 0 {
                    4int
                } else {
                    0
                })
            }
        }),
{
    let k = population_start(population.loader, 0);
    lemma_flags_of_sizes(
        replies[k + 3].value as int,
        replies[k + 4].value as int,
        replies[k + 5].value as int,
    );
    if population.loader.previous_context_created {
        reveal_with_fuel(run_from, 7);
    } else {
        reveal_with_fuel(run_from, 8);
    }
}

/// The calls that create an EGL context for a surface.
pub open spec fn create_calls(
    display: EGLDisplay,
    color_surface: Surface,
    config: EGLConfig,
) -> Seq<NativeCall> {
    seq![
        resolve_call(display, color_surface.descriptor),
        NativeCall::CreateContext {
            display,
            config,
            share_context: NO_CONTEXT,
            context_attributes: context_attribute_list(color_surface.descriptor),
        },
    ]
}

/// Those calls and what is made of their replies, one by one.
proof fn lemma_population_calls(
    display: EGLDisplay,
    context: EGLContext,
    loader: GLLoader,
    replies: Seq<NativeReply>,
    at: int,
)
    ensures
        ({
            let k = population_start(loader, at);
            let load = if loader.previous_context_created {
                Seq::empty()
            } else {
                seq![NativeCall::LoadGL]
            };
            let calls = population_calls(display, context, loader, replies, at);
            let stop = population_faulted(loader, replies, at);
            let ask_config = NativeCall::QueryContext { display, context, attribute: CONFIG_ID };
            let ask_version = NativeCall::QueryContext {
                display,
                context,
                attribute: CONTEXT_CLIENT_VERSION,
            };
            let resolve = NativeCall::ChooseConfigById {
                display,
                id_attributes: [CONFIG_ID, replies[k].value, NONE, 0, 0, 0],
                config_size: 1,
            };
            let ask_size = |attribute: EGLint|
                NativeCall::GetConfigAttrib { display, config: replies[k + 2].handle, attribute };
            &&& calls == load + seq![
                ask_config,
                ask_version,
                resolve,
                ask_size(ALPHA_SIZE),
                ask_size(DEPTH_SIZE),
                ask_size(STENCIL_SIZE),
            ]
            &&& replies[k].status == FALSE ==> calls.take(stop) == load + seq![ask_config]
            &&& replies[k].status != FALSE && replies[k + 1].status == FALSE ==> calls.take(stop)
                == load + seq![ask_config, ask_version]
            &&& replies[k].status != FALSE && replies[k + 1].status != FALSE ==> calls.take(stop)
                == load + seq![ask_config, ask_version, resolve]
        }),
{
}

/// The part of creating a context that reads the attributes of its kind.
proof fn lemma_create_reading(
    display: EGLDisplay,
    context: Context,
    population: Population,
    descriptor: ContextDescriptor,
    replies: Seq<NativeReply>,
    at: nat,
)
    requires
        replies.len() >= at + 4,
        population.gl_info == context.gl_info,
        population.loader.previous_context_created,
    ensures
        ({
            let reading = PopulateGLInfo::after_reading(
                population,
                ReadContextAttributes::begin(display, descriptor),
            );
            let (begun, step) = CreateContext::after_populating(display, context, reading);
            let r = run_from::<CreateContext>(begun, step, replies, at);
            let populated = Context {
                gl_info: GLInfo {
                    attributes: Some(
                        ContextAttributes {
                            flags: flags_of_sizes(
                                replies[at + 1int].value as int,
                                replies[at + 2int].value as int,
                                replies[at + 3int].value as int,
                            ),
                            flavor: descriptor.flavor,
                        },
                    ),
                },
                ..context
            };
            let rest = run_from::<CreateContext>(
                population.loader,
                CreateContext::after_binding(populated, MakeCurrent::begin(display, populated)),
                replies,
                at + 4,
            );
            let resolve = resolve_call(display, descriptor);
            if resolved(replies[at as int]) {
                &&& r.calls == seq![resolve] + size_calls(display, replies[at as int].handle)
                    + rest.calls
                &&& r.checks == seq![
                    ReplyCheck::Accepted,
                    size_check(replies[at + 1int]),
                    size_check(replies[at + 2int]),
                    size_check(replies[at + 3int]),
                ] + rest.checks
                &&& r.target == rest.target
                &&& r.end == rest.end
            } else {
                &&& r.calls == seq![resolve]
                &&& r.checks == seq![ReplyCheck::Fault]
                &&& r.target == population.loader
                &&& r.end is Faulted
            }
        }),
{
    reveal_with_fuel(run_from, 5);
}

/// The part of creating a context that finds out its kind.
proof fn lemma_create_describing(
    display: EGLDisplay,
    context: Context,
    population: Population,
    replies: Seq<NativeReply>,
    at: nat,
)
    requires
        replies.len() >= at + 2,
        population.gl_info == context.gl_info,
        population.loader.previous_context_created,
    ensures
        ({
            let handle = context.native_context.handle();
            let describing = PopulateGLInfo::after_describing(
                population,
                display,
                DescribeContext::begin(display, handle),
            );
            let (begun, step) = CreateContext::after_populating(display, context, describing);
            let r = run_from::<CreateContext>(begun, step, replies, at);
            let calls = describe_calls(display, handle);
            let (found, reading) = CreateContext::after_populating(
                display,
                context,
                PopulateGLInfo::after_reading(
                    population,
                    ReadContextAttributes::begin(
                        display,
                        ContextDescriptor::of_context(
                            replies[at as int].value,
                            replies[at + 1int].value,
                        ),
                    ),
                ),
            );
            let rest = run_from::<CreateContext>(found, reading, replies, at + 2);
            if replies[at as int].status == FALSE {
                &&& r.calls == calls.take(1)
                &&& r.checks == seq![ReplyCheck::Fault]
                &&& r.target == population.loader
                &&& r.end is Faulted
            } else if replies[at + 1int].status == FALSE {
                &&& r.calls == calls
                &&& r.checks == seq![ReplyCheck::Accepted, ReplyCheck::Fault]
                &&& r.target == population.loader
                &&& r.end is Faulted
            } else {
                &&& r.calls == calls + rest.calls
                &&& r.checks == seq![
                    ReplyCheck::Accepted,
                    if replies[at + 1int].value <= 0 {
                        ReplyCheck::DebugFault
                    } else {
                        ReplyCheck::Accepted
                    },
                ] + rest.checks
                &&& r.target == rest.target
                &&& r.end == rest.end
            }
        }),
{
    reveal_with_fuel(run_from, 3);
}

/// The part of creating a context that finds out about its GL.
proof fn lemma_create_populating(
    display: EGLDisplay,
    context: Context,
    loader: GLLoader,
    replies: Seq<NativeReply>,
    at: nat,
)
    requires
        replies.len() >= at + 7,
    ensures
        ({
            let handle = context.native_context.handle();
            let populating = PopulateGLInfo::begin(
                Population { gl_info: context.gl_info, loader },
                display,
                handle,
            );
            let (begun, step) = CreateContext::after_populating(display, context, populating);
            let r = run_from::<CreateContext>(begun, step, replies, at);
            let populated = Context {
                gl_info: population_info(loader, replies, at as int),
                ..context
            };
            let rest = run_from::<CreateContext>(
                GLLoader { previous_context_created: true },
                CreateContext::after_binding(populated, MakeCurrent::begin(display, populated)),
                replies,
                (population_start(loader, at as int) + 6) as nat,
            );
            let calls = population_calls(display, handle, loader, replies, at as int);
            if population_answered(loader, replies, at as int) {
                &&& r.calls == calls + rest.calls
                &&& r.checks == population_checks(loader, replies, at as int) + rest.checks
                &&& r.target == rest.target
                &&& r.end == rest.end
            } else {
                &&& r.calls == calls.take(population_faulted(loader, replies, at as int))
                &&& r.checks == population_checks(loader, replies, at as int)
                &&& r.target.previous_context_created
                &&& r.end is Faulted
            }
        }),
{
    let loaded = Population {
        gl_info: context.gl_info,
        loader: GLLoader { previous_context_created: true },
    };
    let k = population_start(loader, at as int) as nat;
    lemma_create_describing(display, context, loaded, replies, k);
    lemma_create_reading(
        display,
        context,
        loaded,
        ContextDescriptor::of_context(replies[k as int].value, replies[k + 1int].value),
        replies,
        k + 2,
    );
}

/// The part of creating a context that makes it current.
proof fn lemma_create_binding(
    display: EGLDisplay,
    context: Context,
    color_surface: Surface,
    loader: GLLoader,
    replies: Seq<NativeReply>,
    at: nat,
)
    requires
        replies.len() >= at + 3,
        context.color_surface == ColorSurface::Managed(color_surface),
    ensures
        ({
            let r = run_from::<CreateContext>(
                loader,
                CreateContext::after_binding(context, MakeCurrent::begin(display, context)),
                replies,
                at,
            );
            &&& r.calls == seq![
                NativeCall::LookupSurface { handle: color_surface.handle },
                bind_call(
                    display,
                    replies[at as int].handle,
                    context.native_context.handle(),
                ),
            ] + error_calls(replies[at + 1int])
            &&& r.checks == if replies[at + 1int].status == FALSE {
                seq![ReplyCheck::Accepted, ReplyCheck::Accepted, ReplyCheck::Accepted]
            } else {
                seq![ReplyCheck::Accepted, ReplyCheck::Accepted]
            }
            &&& r.target == loader
            &&& r.end == End::<CreateContext, _>::Finished(
                match bind_result(replies[at + 1int], replies[at + 2int]) {
                    Ok(()) => Ok(context),
                    Err(error) => Err(CreateContextFailure { error, context: Some(context) }),
                },
            )
        }),
{
    reveal_with_fuel(run_from, 5);
}

/// The part of creating a context that has EGL create it.
proof fn lemma_create_started(
    display: EGLDisplay,
    color_surface: Surface,
    loader: GLLoader,
    replies: Seq<NativeReply>,
)
    requires
        replies.len() >= 2,
        resolved(replies[0]),
        replies[1].handle != NO_CONTEXT,
    ensures
        ({
            let r = run::<CreateContext>(
                loader,
                CreateContext::begin(display, color_surface),
                replies,
            );
            let (begun, step) = CreateContext::after_populating(
                display,
                CreateContext::fresh(replies[1].handle, color_surface),
                PopulateGLInfo::begin(
                    Population { gl_info: GLInfo { attributes: None }, loader },
                    display,
                    replies[1].handle,
                ),
            );
            let rest = run_from::<CreateContext>(begun, step, replies, 2);
            &&& r.calls == create_calls(display, color_surface, replies[0].handle) + rest.calls
            &&& r.checks == seq![ReplyCheck::Accepted, ReplyCheck::Accepted] + rest.checks
            &&& r.target == rest.target
            &&& r.end == rest.end
        }),
{
    reveal_with_fuel(run_from, 3);
}

/// Creating a context looks up the configuration of the surface, has EGL create a
/// context for it, loads the GL functions if this is the first context, finds out
/// about the GL of the context, and makes it current with the surface. It goes no
/// further where EGL does not describe the context. What comes back has the handle that
/// EGL gave, the surface, and the attributes that EGL reports. A reply breaks an
/// expectation only if it gives a version that is not positive, or if a size cannot be
/// read.
#[verifier::rlimit(60)]
#[verifier::spinoff_prover]
pub proof fn run_create_context(
    display: EGLDisplay,
    color_surface: Surface,
    loader: GLLoader,
    replies: Seq<NativeReply>,
)
    requires
        replies.len() >= 12,
    ensures
        ({
            let r = run::<CreateContext>(
                loader,
                CreateContext::begin(display, color_surface),
                replies,
            );
            let loaded = loader.previous_context_created;
            let k: int = if loaded {
                2
            } else {
                3
            };
            let load = if loaded {
                Seq::empty()
            } else {
                seq![NativeCall::LoadGL]
            };
            let accepted = ReplyCheck::Accepted;
            let load_check = if loaded {
                Seq::empty()
            } else {
                seq![accepted]
            };
            let ask_config = NativeCall::QueryContext {
                display,
                context: replies[1].handle,
                attribute: CONFIG_ID,
            };
            let ask_version = NativeCall::QueryContext {
                display,
                context: replies[1].handle,
                attribute: CONTEXT_CLIENT_VERSION,
            };
            let resolve = NativeCall::ChooseConfigById {
                display,
                id_attributes: [CONFIG_ID, replies[k].value, NONE, 0, 0, 0],
                config_size: 1,
            };
            let ask_size = |attribute: EGLint|
                NativeCall::GetConfigAttrib { display, config: replies[k + 2].handle, attribute };
            let version = if replies[k + 1].value <= 0 {
                ReplyCheck::DebugFault
            } else {
                accepted
            };
            let sized = |reply: NativeReply|
                if reply.status == FALSE {
                    ReplyCheck::DebugFault
                } else {
                    ReplyCheck::Accepted
                };
            let find = NativeCall::ChooseConfigById {
                display,
                id_attributes: [CONFIG_ID, color_surface.descriptor.egl_config_id, NONE, 0, 0, 0],
                config_size: 1,
            };
            let create = NativeCall::CreateContext {
                display,
                config: replies[0].handle,
                share_context: NO_CONTEXT,
                context_attributes: [
                    CONTEXT_CLIENT_VERSION,
                    color_surface.descriptor.flavor.version.major as EGLint,
                    NONE,
                    0,
                    0,
                    0,
                ],
            };
            let populate = seq![
                ask_config,
                ask_version,
                resolve,
                ask_size(ALPHA_SIZE),
                ask_size(DEPTH_SIZE),
                ask_size(STENCIL_SIZE),
            ];
            let populate_checks = seq![
                accepted,
                version,
                accepted,
                sized(replies[k + 3]),
                sized(replies[k + 4]),
                sized(replies[k + 5]),
            ];
            let lookup = NativeCall::LookupSurface { handle: color_surface.handle };
            let bind = NativeCall::MakeCurrent {
                display,
                draw: replies[k + 6].handle,
                read: replies[k + 6].handle,
                context: replies[1].handle,
            };
            let right = |context: Context|
                {
                    &&& context.native_context == NativeContext::Owned(
                        OwnedEGLContext { egl_context: replies[1].handle },
                    )
                    &&& context.color_surface == ColorSurface::Managed(color_surface)
                    &&& context.gl_info.attributes matches Some(attributes)
                    &&& attributes.flavor == (GLFlavor {
                        api: GLApi::GLES,
                        version: GLVersion { major: replies[k + 1].value as u8, minor: 0 },
                    })
                    &&& attributes.flags.bits == (if replies[k + 3].value != 0 {
                        1int
                    } else {
                        0
                    }) + (if replies[k + 4].value != 0 {
                        2int
                    } else {
                        0
                    }) + (if replies[k + 5].value != 0 {
                        4int
                    } else {
                        0
                    })
                };
            if replies[0].status == FALSE || replies[0].value <= 0 {
                &&& r.calls == seq![find]
                &&& r.checks == seq![ReplyCheck::Fault]
                &&& r.target == loader
                &&& r.end is Faulted
            } else if replies[1].handle == NO_CONTEXT {
                &&& r.calls == seq![find, create, NativeCall::GetError]
                &&& r.checks == seq![accepted, accepted, accepted]
                &&& r.target == loader
                &&& r.end == End::<CreateContext, _>::Finished(
                    Err::<Context, CreateContextFailure>(
                        CreateContextFailure {
                            error: Error::ContextCreationFailed(
                                WindowingApiError { code: replies[2].value },
                            ),
                            context: None,
                        },
                    ),
                )
            } else if replies[k].status == FALSE {
                &&& r.calls == seq![find, create] + load + seq![ask_config]
                &&& r.checks == seq![accepted, accepted] + load_check + seq![ReplyCheck::Fault]
                &&& r.target.previous_context_created
                &&& r.end is Faulted
            } else if replies[k + 1].status == FALSE {
                &&& r.calls == seq![find, create] + load + seq![ask_config, ask_version]
                &&& r.checks == seq![accepted, accepted] + load_check + seq![
                    accepted,
                    ReplyCheck::Fault,
                ]
                &&& r.target.previous_context_created
                &&& r.end is Faulted
            } else if replies[k + 2].status == FALSE || replies[k + 2].value <= 0 {
                &&& r.calls == seq![find, create] + load + seq![ask_config, ask_version, resolve]
                &&& r.checks == seq![accepted, accepted] + load_check + seq![
                    accepted,
                    version,
                    ReplyCheck::Fault,
                ]
                &&& r.target.previous_context_created
                &&& r.end is Faulted
            } else if replies[k + 7].status == FALSE {
                &&& r.calls == seq![find, create] + load + populate + seq![
                    lookup,
                    bind,
                    NativeCall::GetError,
                ]
                &&& r.checks == seq![accepted, accepted] + load_check + populate_checks + seq![
                    accepted,
                    accepted,
                    accepted,
                ]
                &&& r.target.previous_context_created
                &&& r.end matches End::Finished(Err(failure))
                &&& failure.error == Error::MakeCurrentFailed(
                    WindowingApiError { code: replies[k + 8].value },
                )
                &&& failure.context matches Some(context)
                &&& right(context)
            } else {
                &&& r.calls == seq![find, create] + load + populate + seq![lookup, bind]
                &&& r.checks == seq![accepted, accepted] + load_check + populate_checks + seq![
                    accepted,
                    accepted,
                ]
                &&& r.target.previous_context_created
                &&& r.end matches End::Finished(Ok(context))
                &&& right(context)
            }
        }),
{
    if replies[0].status == FALSE || replies[0].value <= 0 {
        reveal_with_fuel(run_from, 2);
    } else if replies[1].handle == NO_CONTEXT {
        reveal_with_fuel(run_from, 4);
    } else {
        let fresh = CreateContext::fresh(replies[1].handle, color_surface);
        let context = Context { gl_info: population_info(loader, replies, 2), ..fresh };
        let k = population_start(loader, 2);
        lemma_create_started(display, color_surface, loader, replies);
        lemma_create_populating(display, fresh, loader, replies, 2);
        lemma_population_calls(display, replies[1].handle, loader, replies, 2);
        lemma_create_binding(
            display,
            context,
            color_surface,
            GLLoader { previous_context_created: true },
            replies,
            (k + 6) as nat,
        );
        lemma_flags_of_sizes(
            replies[k + 3].value as int,
            replies[k + 4].value as int,
            replies[k + 5].value as int,
        );
    }
}

/// The calls that find the current context, and the devices behind its display.
pub open spec fn adopt_calls(replies: Seq<NativeReply>) -> Seq<NativeCall> {
    seq![
        NativeCall::GetCurrentDisplay,
        NativeCall::GetCurrentContext,
        NativeCall::QueryDisplayAttrib { display: replies[0].handle, attribute: DEVICE_EXT },
        NativeCall::QueryDeviceAttrib {
            device: replies[2].handle,
            attribute: D3D11_DEVICE_ANGLE,
        },
    ]
}

/// The part of taking over the current context that reads the attributes of its kind.
proof fn lemma_adopt_reading(
    device: Device,
    context: Context,
    population: Population,
    descriptor: ContextDescriptor,
    replies: Seq<NativeReply>,
    at: nat,
)
    requires
        replies.len() >= at + 4,
        population.gl_info == context.gl_info,
        population.loader.previous_context_created,
    ensures
        ({
            let reading = PopulateGLInfo::after_reading(
                population,
                ReadContextAttributes::begin(device.egl_display, descriptor),
            );
            let (begun, step) = FromCurrentContext::after_populating(device, context, reading);
            let r = run_from::<FromCurrentContext>(begun, step, replies, at);
            let populated = Context {
                gl_info: GLInfo {
                    attributes: Some(
                        ContextAttributes {
                            flags: flags_of_sizes(
                                replies[at + 1int].value as int,
                                replies[at + 2int].value as int,
                                replies[at + 3int].value as int,
                            ),
                            flavor: descriptor.flavor,
                        },
                    ),
                },
                ..context
            };
            let resolve = resolve_call(device.egl_display, descriptor);
            if resolved(replies[at as int]) {
                &&& r.calls == seq![resolve] + size_calls(
                    device.egl_display,
                    replies[at as int].handle,
                )
                &&& r.checks == seq![
                    ReplyCheck::Accepted,
                    size_check(replies[at + 1int]),
                    size_check(replies[at + 2int]),
                    size_check(replies[at + 3int]),
                ]
                &&& r.target == population.loader
                &&& r.end == End::<FromCurrentContext, _>::Finished(
                    Ok::<(Device, Context), Error>((device, populated)),
                )
            } else {
                &&& r.calls == seq![resolve]
                &&& r.checks == seq![ReplyCheck::Fault]
                &&& r.target == population.loader
                &&& r.end is Faulted
            }
        }),
{
    reveal_with_fuel(run_from, 5);
}

/// The part of taking over the current context that finds out its kind.
proof fn lemma_adopt_describing(
    device: Device,
    context: Context,
    population: Population,
    replies: Seq<NativeReply>,
    at: nat,
)
    requires
        replies.len() >= at + 2,
        population.gl_info == context.gl_info,
        population.loader.previous_context_created,
    ensures
        ({
            let handle = context.native_context.handle();
            let describing = PopulateGLInfo::after_describing(
                population,
                device.egl_display,
                DescribeContext::begin(device.egl_display, handle),
            );
            let (begun, step) = FromCurrentContext::after_populating(device, context, describing);
            let r = run_from::<FromCurrentContext>(begun, step, replies, at);
            let calls = describe_calls(device.egl_display, handle);
            let (found, reading) = FromCurrentContext::after_populating(
                device,
                context,
                PopulateGLInfo::after_reading(
                    population,
                    ReadContextAttributes::begin(
                        device.egl_display,
                        ContextDescriptor::of_context(
                            replies[at as int].value,
                            replies[at + 1int].value,
                        ),
                    ),
                ),
            );
            let rest = run_from::<FromCurrentContext>(found, reading, replies, at + 2);
            if replies[at as int].status == FALSE {
                &&& r.calls == calls.take(1)
                &&& r.checks == seq![ReplyCheck::Fault]
                &&& r.target == population.loader
                &&& r.end is Faulted
            } else if replies[at + 1int].status == FALSE {
                &&& r.calls == calls
                &&& r.checks == seq![ReplyCheck::Accepted, ReplyCheck::Fault]
                &&& r.target == population.loader
                &&& r.end is Faulted
            } else {
                &&& r.calls == calls + rest.calls
                &&& r.checks == seq![
                    ReplyCheck::Accepted,
                    if replies[at + 1int].value <= 0 {
                        ReplyCheck::DebugFault
                    } else {
                        ReplyCheck::Accepted
                    },
                ] + rest.checks
                &&& r.target == rest.target
                &&& r.end == rest.end
            }
        }),
{
    reveal_with_fuel(run_from, 3);
}

/// The part of taking over the current context that finds out about its GL.
proof fn lemma_adopt_populating(
    device: Device,
    context: Context,
    loader: GLLoader,
    replies: Seq<NativeReply>,
    at: nat,
)
    requires
        replies.len() >= at + 7,
    ensures
        ({
            let handle = context.native_context.handle();
            let populating = PopulateGLInfo::begin(
                Population { gl_info: context.gl_info, loader },
                device.egl_display,
                handle,
            );
            let (begun, step) = FromCurrentContext::after_populating(device, context, populating);
            let r = run_from::<FromCurrentContext>(begun, step, replies, at);
            let populated = Context {
                gl_info: population_info(loader, replies, at as int),
                ..context
            };
            let calls = population_calls(
                device.egl_display,
                handle,
                loader,
                replies,
                at as int,
            );
            &&& r.checks == population_checks(loader, replies, at as int)
            &&& r.target.previous_context_created
            &&& if population_answered(loader, replies, at as int) {
                &&& r.calls == calls
                &&& r.end == End::<FromCurrentContext, _>::Finished(
                    Ok::<(Device, Context), Error>((device, populated)),
                )
            } else {
                &&& r.calls == calls.take(population_faulted(loader, replies, at as int))
                &&& r.end is Faulted
            }
        }),
{
    let loaded = Population {
        gl_info: context.gl_info,
        loader: GLLoader { previous_context_created: true },
    };
    let k = population_start(loader, at as int) as nat;
    lemma_adopt_describing(device, context, loaded, replies, k);
    lemma_adopt_reading(
        device,
        context,
        loaded,
        ContextDescriptor::of_context(replies[k as int].value, replies[k + 1int].value),
        replies,
        k + 2,
    );
}

/// What is made of a handle that is asked for.
pub open spec fn present_check(handle: usize) -> ReplyCheck {
    if handle == 0 {
        ReplyCheck::DebugFault
    } else {
        ReplyCheck::Accepted
    }
}

/// The part of taking over the current context that finds it.
proof fn lemma_adopt_started(device: Device, loader: GLLoader, replies: Seq<NativeReply>)
    requires
        replies.len() >= 4,
        replies[2].status != FALSE,
        replies[3].status != FALSE,
        replies[3].handle != 0,
        device.egl_display == replies[0].handle,
        device.egl_device == replies[2].handle,
        device.d3d11_device == replies[3].handle,
        device.d3d_driver_type == D3D_DRIVER_TYPE_UNKNOWN,
        device.surface_bindings == SurfaceBindings::Unbound,
    ensures
        ({
            let r = run::<FromCurrentContext>(loader, FromCurrentContext::begin(), replies);
            let (begun, step) = FromCurrentContext::after_populating(
                device,
                FromCurrentContext::adopted(replies[1].handle),
                PopulateGLInfo::begin(
                    Population { gl_info: GLInfo { attributes: None }, loader },
                    device.egl_display,
                    replies[1].handle,
                ),
            );
            let rest = run_from::<FromCurrentContext>(begun, step, replies, 4);
            &&& r.calls == adopt_calls(replies) + rest.calls
            &&& r.checks == seq![
                present_check(replies[0].handle),
                present_check(replies[1].handle),
                present_check(replies[2].handle),
                ReplyCheck::Accepted,
            ] + rest.checks
            &&& r.target == rest.target
            &&& r.end == rest.end
        }),
{
    reveal_with_fuel(run_from, 5);
}

/// Taking over the current context asks EGL for it, for its display and for the
/// devices behind that, loads the GL functions if this is the first context, and
/// finds out about the GL of the context. It never fails with an error, but goes no
/// further where EGL does not answer. What comes back has exactly the handles that EGL
/// gave, an external target, and the attributes that EGL reports; no surface is bound on
/// the new device. A reply breaks an expectation only if there is no display, no context
/// or no device, if it gives a version that is not positive, or if a size cannot be read.
#[verifier::rlimit(60)]
#[verifier::spinoff_prover]
pub proof fn run_from_current_context(loader: GLLoader, replies: Seq<NativeReply>)
    requires
        replies.len() >= 11,
    ensures
        ({
            let r = run::<FromCurrentContext>(loader, FromCurrentContext::begin(), replies);
            let loaded = loader.previous_context_created;
            let k: int = if loaded {
                4
            } else {
                5
            };
            let load = if loaded {
                Seq::empty()
            } else {
                seq![NativeCall::LoadGL]
            };
            let accepted = ReplyCheck::Accepted;
            let load_check = if loaded {
                Seq::empty()
            } else {
                seq![accepted]
            };
            let ask_config = NativeCall::QueryContext {
                display: replies[0].handle,
                context: replies[1].handle,
                attribute: CONFIG_ID,
            };
            let ask_version = NativeCall::QueryContext {
                display: replies[0].handle,
                context: replies[1].handle,
                attribute: CONTEXT_CLIENT_VERSION,
            };
            let resolve = NativeCall::ChooseConfigById {
                display: replies[0].handle,
                id_attributes: [CONFIG_ID, replies[k].value, NONE, 0, 0, 0],
                config_size: 1,
            };
            let ask_size = |attribute: EGLint|
                NativeCall::GetConfigAttrib {
                    display: replies[0].handle,
                    config: replies[k + 2].handle,
                    attribute,
                };
            let version = if replies[k + 1].value <= 0 {
                ReplyCheck::DebugFault
            } else {
                accepted
            };
            let sized = |reply: NativeReply|
                if reply.status == FALSE {
                    ReplyCheck::DebugFault
                } else {
                    ReplyCheck::Accepted
                };
            let present = |handle: usize|
                if handle == 0 {
                    ReplyCheck::DebugFault
                } else {
                    ReplyCheck::Accepted
                };
            let ask_device = NativeCall::QueryDisplayAttrib {
                display: replies[0].handle,
                attribute: DEVICE_EXT,
            };
            let ask_direct3d = NativeCall::QueryDeviceAttrib {
                device: replies[2].handle,
                attribute: D3D11_DEVICE_ANGLE,
            };
            let find = seq![
                NativeCall::GetCurrentDisplay,
                NativeCall::GetCurrentContext,
                ask_device,
                ask_direct3d,
            ];
            let find_checks = seq![
                present(replies[0].handle),
                present(replies[1].handle),
                present(replies[2].handle),
                accepted,
            ];
            if replies[2].status == FALSE {
                &&& r.calls == seq![
                    NativeCall::GetCurrentDisplay,
                    NativeCall::GetCurrentContext,
                    ask_device,
                ]
                &&& r.checks == seq![
                    present(replies[0].handle),
                    present(replies[1].handle),
                    ReplyCheck::Fault,
                ]
                &&& r.target == loader
                &&& r.end is Faulted
            } else if replies[3].status == FALSE || replies[3].handle == 0 {
                &&& r.calls == find
                &&& r.checks == seq![
                    present(replies[0].handle),
                    present(replies[1].handle),
                    present(replies[2].handle),
                    ReplyCheck::Fault,
                ]
                &&& r.target == loader
                &&& r.end is Faulted
            } else if replies[k].status == FALSE {
                &&& r.calls == find + load + seq![ask_config]
                &&& r.checks == find_checks + load_check + seq![ReplyCheck::Fault]
                &&& r.target.previous_context_created
                &&& r.end is Faulted
            } else if replies[k + 1].status == FALSE {
                &&& r.calls == find + load + seq![ask_config, ask_version]
                &&& r.checks == find_checks + load_check + seq![accepted, ReplyCheck::Fault]
                &&& r.target.previous_context_created
                &&& r.end is Faulted
            } else if replies[k + 2].status == FALSE || replies[k + 2].value <= 0 {
                &&& r.calls == find + load + seq![ask_config, ask_version, resolve]
                &&& r.checks == find_checks + load_check + seq![
                    accepted,
                    version,
                    ReplyCheck::Fault,
                ]
                &&& r.target.previous_context_created
                &&& r.end is Faulted
            } else {
                &&& r.calls == find + load + seq![
                    ask_config,
                    ask_version,
                    resolve,
                    ask_size(ALPHA_SIZE),
                    ask_size(DEPTH_SIZE),
                    ask_size(STENCIL_SIZE),
                ]
                &&& r.checks == find_checks + load_check + seq![
                    accepted,
                    version,
                    accepted,
                    sized(replies[k + 3]),
                    sized(replies[k + 4]),
                    sized(replies[k + 5]),
                ]
                &&& r.target.previous_context_created
                &&& r.end matches End::Finished(Ok((device, context)))
                &&& device.egl_display == replies[0].handle
                &&& device.egl_device == replies[2].handle
                &&& device.d3d11_device == replies[3].handle
                &&& device.d3d_driver_type == D3D_DRIVER_TYPE_UNKNOWN
                &&& device.surface_bindings is Unbound
                &&& device.surface_bindings.handles().len() == 0
                &&& context.native_context == NativeContext::Borrowed(
                    UnsafeEGLContextRef { egl_context: replies[1].handle },
                )
                &&& context.color_surface is External
                &&& context.gl_info.attributes matches Some(attributes)
                &&& attributes.flavor == (GLFlavor {
                    api: GLApi::GLES,
                    version: GLVersion { major: replies[k + 1].value as u8, minor: 0 },
                })
                &&& attributes.flags.bits == (if replies[k + 3].value != 0 {
                    1int
                } else {
                    0
                }) + (if replies[k + 4].value != 0 {
                    2int
                } else {
                    0
                }) + (if replies[k + 5].value != 0 {
                    4int
                } else {
                    0
                })
            }
        }),
{
    if replies[2].status == FALSE {
        reveal_with_fuel(run_from, 4);
    } else if replies[3].status == FALSE || replies[3].handle == 0 {
        reveal_with_fuel(run_from, 5);
    } else {
        let device = Device {
            egl_display: replies[0].handle,
            egl_device: replies[2].handle,
            d3d11_device: replies[3].handle,
            d3d_driver_type: D3D_DRIVER_TYPE_UNKNOWN,
            surface_bindings: SurfaceBindings::Unbound,
        };
        let context = FromCurrentContext::adopted(replies[1].handle);
        let k = population_start(loader, 4);
        lemma_adopt_started(device, loader, replies);
        lemma_adopt_populating(device, context, loader, replies, 4);
        lemma_population_calls(replies[0].handle, replies[1].handle, loader, replies, 4);
        lemma_flags_of_sizes(
            replies[k + 3].value as int,
            replies[k + 4].value as int,
            replies[k + 5].value as int,
        );
    }
}

/// Destroying a framebuffer object asks which ones are bound, unbinds it where it is
/// bound, and deletes it last. Every reply is taken.
pub proof fn run_destroy_framebuffer(framebuffer_object: GLuint, replies: Seq<GLint>)
    requires
        replies.len() >= 5,
    ensures
        ({
            let r = run::<DestroyFramebuffer>(
                (),
                DestroyFramebuffer::begin(framebuffer_object),
                replies,
            );
            let unbind_draw = if replies[0] as GLuint == framebuffer_object {
                seq![GLCall::BindFramebuffer { target: DRAW_FRAMEBUFFER, framebuffer: 0 }]
            } else {
                Seq::empty()
            };
            let unbind_read = if replies[1] as GLuint == framebuffer_object {
                seq![GLCall::BindFramebuffer { target: READ_FRAMEBUFFER, framebuffer: 0 }]
            } else {
                Seq::empty()
            };
            &&& r.calls == seq![
                GLCall::GetInteger { parameter: DRAW_FRAMEBUFFER_BINDING },
                GLCall::GetInteger { parameter: READ_FRAMEBUFFER_BINDING },
            ] + unbind_draw + unbind_read + seq![
                GLCall::DeleteFramebuffer { framebuffer: framebuffer_object },
            ]
            &&& r.checks.len() == r.calls.len()
            &&& forall|i: int|
                0 <= i < r.checks.len() ==> #[trigger] r.checks[i] == ReplyCheck::Accepted
            &&& r.end == End::<DestroyFramebuffer, ()>::Finished(())
        }),
{
    reveal_with_fuel(run_from, 7);
}

} // verus!
