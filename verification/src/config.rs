//! Configurations: finding one with the wanted attributes, and reading the
//! attributes of one.
use crate::attributes::{ContextAttributeFlags, ContextAttributes, GLApi, GLFlavor};
use crate::context::ContextDescriptor;
use crate::device::Device;
use crate::egl::{
    EGLConfig, EGLDisplay, EGLint, NativeCall, NativeReply, ALPHA_SIZE, BIND_TO_TEXTURE_RGBA,
    BLUE_SIZE, CONFIG_ID, DEPTH_SIZE, FALSE, GREEN_SIZE, NONE, NO_CONFIG, OPENGL_BIT,
    OPENGL_ES2_BIT, PBUFFER_BIT, RED_SIZE, RENDERABLE_TYPE, STENCIL_SIZE, SURFACE_TYPE,
};
use crate::error::{to_windowing_api_error, Error, WindowingApiError};
use crate::operation::{Operation, ReplyCheck, Step};
use vstd::prelude::*;

verus! {

/// The size that a buffer is wanted to have at least: nothing, without its flag.
pub open spec fn wanted_size(flags: ContextAttributeFlags, flag: u8, size: EGLint) -> EGLint {
    if flags.has(flag) {
        size
    } else {
        0
    }
}

pub open spec fn renderable_type(api: GLApi) -> EGLint {
    match api {
        GLApi::GL => OPENGL_BIT,
        GLApi::GLES => OPENGL_ES2_BIT,
    }
}

/// The attribute list that asks for a configuration. Behind its end stand some more
/// zeroes.
pub open spec fn config_attribute_list(attributes: ContextAttributes) -> [EGLint; 22] {
    let flags = attributes.flags;
    [
        SURFACE_TYPE,
        PBUFFER_BIT,
        RENDERABLE_TYPE,
        renderable_type(attributes.flavor.api),
        BIND_TO_TEXTURE_RGBA,
        1,
        RED_SIZE,
        8,
        GREEN_SIZE,
        8,
        BLUE_SIZE,
        8,
        ALPHA_SIZE,
        wanted_size(flags, ContextAttributeFlags::ALPHA, 8),
        DEPTH_SIZE,
        wanted_size(flags, ContextAttributeFlags::DEPTH, 24),
        STENCIL_SIZE,
        wanted_size(flags, ContextAttributeFlags::STENCIL, 8),
        NONE,
        0,
        0,
        0,
    ]
}

pub fn config_attributes(attributes: &ContextAttributes) -> (list: [EGLint; 22])
    ensures
        list == config_attribute_list(*attributes),
        list@ == seq![
            SURFACE_TYPE,
            PBUFFER_BIT,
            RENDERABLE_TYPE,
            if attributes.flavor.api is GL {
                OPENGL_BIT
            } else {
                OPENGL_ES2_BIT
            },
            BIND_TO_TEXTURE_RGBA,
            1,
            RED_SIZE,
            8,
            GREEN_SIZE,
            8,
            BLUE_SIZE,
            8,
            ALPHA_SIZE,
            if attributes.flags.bits & ContextAttributeFlags::ALPHA
                == ContextAttributeFlags::ALPHA {
                8
            } else {
                0
            },
            DEPTH_SIZE,
            if attributes.flags.bits & ContextAttributeFlags::DEPTH
                == ContextAttributeFlags::DEPTH {
                24
            } else {
                0
            },
            STENCIL_SIZE,
            if attributes.flags.bits & ContextAttributeFlags::STENCIL
                == ContextAttributeFlags::STENCIL {
                8
            } else {
                0
            },
            NONE,
            0,
            0,
            0,
        ],
{
    let renderable_type: EGLint = match attributes.flavor.api {
        GLApi::GL => OPENGL_BIT,
        GLApi::GLES => OPENGL_ES2_BIT,
    };
    let flags = attributes.flags;
    let alpha_size: EGLint = if flags.contains(ContextAttributeFlags::ALPHA) {
        8
    } else {
        0
    };
    let depth_size: EGLint = if flags.contains(ContextAttributeFlags::DEPTH) {
        24
    } else {
        0
    };
    let stencil_size: EGLint = if flags.contains(ContextAttributeFlags::STENCIL) {
        8
    } else {
        0
    };
    [
        SURFACE_TYPE,
        PBUFFER_BIT,
        RENDERABLE_TYPE,
        renderable_type,
        BIND_TO_TEXTURE_RGBA,
        1,
        RED_SIZE,
        8,
        GREEN_SIZE,
        8,
        BLUE_SIZE,
        8,
        ALPHA_SIZE,
        alpha_size,
        DEPTH_SIZE,
        depth_size,
        STENCIL_SIZE,
        stencil_size,
        NONE,
        0,
        0,
        0,
    ]
}

/// The attribute list that asks for the configuration with this number.
pub open spec fn config_id_attribute_list(egl_config_id: EGLint) -> [EGLint; 6] {
    [CONFIG_ID, egl_config_id, NONE, 0, 0, 0]
}

pub fn config_id_attributes(egl_config_id: EGLint) -> (list: [EGLint; 6])
    ensures
        list == config_id_attribute_list(egl_config_id),
        list@ == seq![CONFIG_ID, egl_config_id, NONE, 0, 0, 0],
{
    [CONFIG_ID, egl_config_id, NONE, 0, 0, 0]
}

/// A configuration that is being looked for.
#[derive(Clone, Copy, Debug, PartialEq, Eq, Structural)]
pub enum CreateContextDescriptor {
    /// EGL is asked for a configuration.
    Choosing { display: EGLDisplay, flavor: GLFlavor },
    /// That failed; EGL is asked why.
    Failing,
    /// EGL is asked for the number of the configuration.
    Identifying { flavor: GLFlavor },
}

impl CreateContextDescriptor {
    pub open spec fn begin(display: EGLDisplay, attributes: ContextAttributes) -> Step<
        CreateContextDescriptor,
        NativeCall,
        Result<ContextDescriptor, Error>,
    > {
        Step::Call(
            NativeCall::ChooseConfig {
                display,
                config_attributes: config_attribute_list(attributes),
                config_size: 1,
            },
            CreateContextDescriptor::Choosing {
                display,
                flavor: attributes.flavor,
            },
        )
    }
}

impl Operation for CreateContextDescriptor {
    type Target = ();

    type Call = NativeCall;

    type Reply = NativeReply;

    type Output = Result<ContextDescriptor, Error>;

    open spec fn check_of(self, target: (), reply: NativeReply) -> ReplyCheck {
        if self is Identifying && reply.status == FALSE {
            ReplyCheck::DebugFault
        } else {
            ReplyCheck::Accepted
        }
    }

    open spec fn next(self, target: (), reply: NativeReply) -> (
        (),
        Step<CreateContextDescriptor, NativeCall, Result<ContextDescriptor, Error>>,
    ) {
        (
            (),
            match self {
                CreateContextDescriptor::Choosing { display, flavor } => if reply.status == FALSE {
                    Step::Call(NativeCall::GetError, CreateContextDescriptor::Failing)
                } else if reply.value == 0 || reply.handle == NO_CONFIG {
                    Step::Done(Err(Error::NoPixelFormatFound))
                } else {
                    Step::Call(
                        NativeCall::GetConfigAttrib {
                            display,
                            config: reply.handle,
                            attribute: CONFIG_ID,
                        },
                        CreateContextDescriptor::Identifying { flavor },
                    )
                },
                CreateContextDescriptor::Failing => Step::Done(
                    Err(
                        Error::PixelFormatSelectionFailed(WindowingApiError { code: reply.value }),
                    ),
                ),
                CreateContextDescriptor::Identifying { flavor } => Step::Done(
                    Ok(ContextDescriptor::of_flavor(reply.value, flavor)),
                ),
            },
        )
    }

    open spec fn remaining(self) -> nat {
        match self {
            CreateContextDescriptor::Choosing { .. } => 2,
            CreateContextDescriptor::Failing => 1,
            CreateContextDescriptor::Identifying { .. } => 1,
        }
    }

    proof fn lemma_progress(self, target: (), reply: NativeReply) {
    }

    fn check(&self, _target: &(), reply: &NativeReply) -> (check: ReplyCheck) {
        match self {
            CreateContextDescriptor::Identifying { .. } => if reply.status == FALSE {
                ReplyCheck::DebugFault
            } else {
                ReplyCheck::Accepted
            },
            _ => ReplyCheck::Accepted,
        }
    }

    fn step(self, _target: &mut (), reply: NativeReply) -> (step: Step<
        CreateContextDescriptor,
        NativeCall,
        Result<ContextDescriptor, Error>,
    >) {
        match self {
            CreateContextDescriptor::Choosing { display, flavor } => {
                if reply.status == FALSE {
                    return Step::Call(NativeCall::GetError, CreateContextDescriptor::Failing);
                }
                if reply.value == 0 || reply.handle == NO_CONFIG {
                    return Step::Done(Err(Error::NoPixelFormatFound));
                }
                Step::Call(
                    NativeCall::GetConfigAttrib {
                        display,
                        config: reply.handle,
                        attribute: CONFIG_ID,
                    },
                    CreateContextDescriptor::Identifying { flavor },
                )
            },
            CreateContextDescriptor::Failing => {
                let error = to_windowing_api_error(reply.value);
                Step::Done(Err(Error::PixelFormatSelectionFailed(error)))
            },
            CreateContextDescriptor::Identifying { flavor } => Step::Done(
                Ok(ContextDescriptor::for_flavor(reply.value, flavor)),
            ),
        }
    }
}

/// The configuration of a descriptor, being looked up.
#[derive(Clone, Copy, Debug, PartialEq, Eq, Structural)]
pub struct ResolveConfig;

impl ResolveConfig {
    pub open spec fn begin(display: EGLDisplay, descriptor: ContextDescriptor) -> Step<
        ResolveConfig,
        NativeCall,
        EGLConfig,
    > {
        Step::Call(
            NativeCall::ChooseConfigById {
                display,
                id_attributes: config_id_attribute_list(descriptor.egl_config_id),
                config_size: 1,
            },
            ResolveConfig,
        )
    }

    pub fn start(display: EGLDisplay, descriptor: &ContextDescriptor) -> (step: Step<
        ResolveConfig,
        NativeCall,
        EGLConfig,
    >)
        ensures
            step == Self::begin(display, *descriptor),
    {
        Step::Call(
            NativeCall::ChooseConfigById {
                display,
                id_attributes: config_id_attributes(descriptor.egl_config_id),
                config_size: 1,
            },
            ResolveConfig,
        )
    }
}

impl Operation for ResolveConfig {
    type Target = ();

    type Call = NativeCall;

    type Reply = NativeReply;

    type Output = EGLConfig;

    open spec fn check_of(self, target: (), reply: NativeReply) -> ReplyCheck {
        if reply.status == FALSE || reply.value <= 0 {
            ReplyCheck::Fault
        } else {
            ReplyCheck::Accepted
        }
    }

    open spec fn next(self, target: (), reply: NativeReply) -> (
        (),
        Step<ResolveConfig, NativeCall, EGLConfig>,
    ) {
        ((), Step::Done(reply.handle))
    }

    open spec fn remaining(self) -> nat {
        1
    }

    proof fn lemma_progress(self, target: (), reply: NativeReply) {
    }

    fn check(&self, _target: &(), reply: &NativeReply) -> (check: ReplyCheck) {
        if reply.status == FALSE || reply.value <= 0 {
            ReplyCheck::Fault
        } else {
            ReplyCheck::Accepted
        }
    }

    fn step(self, _target: &mut (), reply: NativeReply) -> (step: Step<
        ResolveConfig,
        NativeCall,
        EGLConfig,
    >) {
        Step::Done(reply.handle)
    }
}

/// The attributes of a descriptor, being read.
#[derive(Clone, Copy, Debug, PartialEq, Eq, Structural)]
pub enum ReadContextAttributes {
    /// The configuration is looked up.
    Resolving { display: EGLDisplay, flavor: GLFlavor, resolve: ResolveConfig },
    /// EGL is asked for the size of the alpha channel.
    Alpha { display: EGLDisplay, flavor: GLFlavor, config: EGLConfig },
    /// EGL is asked for the size of the depth buffer.
    Depth { display: EGLDisplay, flavor: GLFlavor, config: EGLConfig, alpha_size: EGLint },
    /// EGL is asked for the size of the stencil buffer.
    Stencil { flavor: GLFlavor, alpha_size: EGLint, depth_size: EGLint },
}

impl ReadContextAttributes {
    pub open spec fn after_resolving(
        display: EGLDisplay,
        flavor: GLFlavor,
        step: Step<ResolveConfig, NativeCall, EGLConfig>,
    ) -> Step<ReadContextAttributes, NativeCall, ContextAttributes> {
        match step {
            Step::Call(call, resolve) => Step::Call(
                call,
                ReadContextAttributes::Resolving { display, flavor, resolve },
            ),
            Step::Done(config) => Step::Call(
                NativeCall::GetConfigAttrib { display, config, attribute: ALPHA_SIZE },
                ReadContextAttributes::Alpha { display, flavor, config },
            ),
        }
    }

    pub open spec fn begin(display: EGLDisplay, descriptor: ContextDescriptor) -> Step<
        ReadContextAttributes,
        NativeCall,
        ContextAttributes,
    > {
        Self::after_resolving(
            display,
            descriptor.flavor,
            ResolveConfig::begin(display, descriptor),
        )
    }

    pub fn start(display: EGLDisplay, descriptor: &ContextDescriptor) -> (step: Step<
        ReadContextAttributes,
        NativeCall,
        ContextAttributes,
    >)
        ensures
            step == Self::begin(display, *descriptor),
    {
        let resolving = ResolveConfig::start(display, descriptor);
        Self::resume_resolving(display, descriptor.flavor, resolving)
    }

    fn resume_resolving(
        display: EGLDisplay,
        flavor: GLFlavor,
        step: Step<ResolveConfig, NativeCall, EGLConfig>,
    ) -> (lifted: Step<ReadContextAttributes, NativeCall, ContextAttributes>)
        ensures
            lifted == Self::after_resolving(display, flavor, step),
    {
        match step {
            Step::Call(call, resolve) => Step::Call(
                call,
                ReadContextAttributes::Resolving { display, flavor, resolve },
            ),
            Step::Done(config) => Step::Call(
                NativeCall::GetConfigAttrib { display, config, attribute: ALPHA_SIZE },
                ReadContextAttributes::Alpha { display, flavor, config },
            ),
        }
    }
}

impl Operation for ReadContextAttributes {
    type Target = ();

    type Call = NativeCall;

    type Reply = NativeReply;

    type Output = ContextAttributes;

    open spec fn check_of(self, target: (), reply: NativeReply) -> ReplyCheck {
        match self {
            ReadContextAttributes::Resolving { resolve, .. } => resolve.check_of((), reply),
            _ => if reply.status == FALSE {
                ReplyCheck::DebugFault
            } else {
                ReplyCheck::Accepted
            },
        }
    }

    open spec fn next(self, target: (), reply: NativeReply) -> (
        (),
        Step<ReadContextAttributes, NativeCall, ContextAttributes>,
    ) {
        (
            (),
            match self {
                ReadContextAttributes::Resolving {
                    display,
                    flavor,
                    resolve,
                } => Self::after_resolving(display, flavor, resolve.next((), reply).1),
                ReadContextAttributes::Alpha { display, flavor, config } => Step::Call(
                    NativeCall::GetConfigAttrib { display, config, attribute: DEPTH_SIZE },
                    ReadContextAttributes::Depth {
                        display,
                        flavor,
                        config,
                        alpha_size: reply.value,
                    },
                ),
                ReadContextAttributes::Depth { display, flavor, config, alpha_size } => Step::Call(
                    NativeCall::GetConfigAttrib { display, config, attribute: STENCIL_SIZE },
                    ReadContextAttributes::Stencil {
                        flavor,
                        alpha_size,
                        depth_size: reply.value,
                    },
                ),
                ReadContextAttributes::Stencil { flavor, alpha_size, depth_size } => Step::Done(
                    ContextAttributes {
                        flags: crate::attributes::flags_of_sizes(
                            alpha_size as int,
                            depth_size as int,
                            reply.value as int,
                        ),
                        flavor,
                    },
                ),
            },
        )
    }

    open spec fn remaining(self) -> nat {
        match self {
            ReadContextAttributes::Resolving { resolve, .. } => resolve.remaining() + 3,
            ReadContextAttributes::Alpha { .. } => 3,
            ReadContextAttributes::Depth { .. } => 2,
            ReadContextAttributes::Stencil { .. } => 1,
        }
    }

    proof fn lemma_progress(self, target: (), reply: NativeReply) {
        if let ReadContextAttributes::Resolving { resolve, .. } = self {
            resolve.lemma_progress((), reply);
        }
    }

    fn check(&self, _target: &(), reply: &NativeReply) -> (check: ReplyCheck) {
        match self {
            ReadContextAttributes::Resolving { resolve, .. } => resolve.check(&(), reply),
            _ => if reply.status == FALSE {
                ReplyCheck::DebugFault
            } else {
                ReplyCheck::Accepted
            },
        }
    }

    fn step(self, _target: &mut (), reply: NativeReply) -> (step: Step<
        ReadContextAttributes,
        NativeCall,
        ContextAttributes,
    >) {
        match self {
            ReadContextAttributes::Resolving { display, flavor, resolve } => {
                let mut unit = ();
                let next = resolve.step(&mut unit, reply);
                Self::resume_resolving(display, flavor, next)
            },
            ReadContextAttributes::Alpha { display, flavor, config } => Step::Call(
                NativeCall::GetConfigAttrib { display, config, attribute: DEPTH_SIZE },
                ReadContextAttributes::Depth { display, flavor, config, alpha_size: reply.value },
            ),
            ReadContextAttributes::Depth { display, flavor, config, alpha_size } => Step::Call(
                NativeCall::GetConfigAttrib { display, config, attribute: STENCIL_SIZE },
                ReadContextAttributes::Stencil { flavor, alpha_size, depth_size: reply.value },
            ),
            ReadContextAttributes::Stencil { flavor, alpha_size, depth_size } => {
                let mut flags = ContextAttributeFlags::empty();
                flags.set(ContextAttributeFlags::ALPHA, alpha_size != 0);
                flags.set(ContextAttributeFlags::DEPTH, depth_size != 0);
                flags.set(ContextAttributeFlags::STENCIL, reply.value != 0);
                Step::Done(ContextAttributes { flags, flavor })
            },
        }
    }
}

impl Device {
    /// Starts to look for a configuration with the wanted attributes.
    pub fn create_context_descriptor(&self, attributes: &ContextAttributes) -> (step: Step<
        CreateContextDescriptor,
        NativeCall,
        Result<ContextDescriptor, Error>,
    >)
        ensures
            step == CreateContextDescriptor::begin(self.egl_display, *attributes),
    {
        Step::Call(
            NativeCall::ChooseConfig {
                display: self.egl_display,
                config_attributes: config_attributes(attributes),
                config_size: 1,
            },
            CreateContextDescriptor::Choosing {
                display: self.egl_display,
                flavor: attributes.flavor,
            },
        )
    }

    /// Starts to look up the configuration of the descriptor.
    pub fn context_descriptor_to_egl_config(&self, descriptor: &ContextDescriptor) -> (step: Step<
        ResolveConfig,
        NativeCall,
        EGLConfig,
    >)
        ensures
            step == ResolveConfig::begin(self.egl_display, *descriptor),
    {
        ResolveConfig::start(self.egl_display, descriptor)
    }

    /// Starts to read the attributes of the descriptor.
    pub fn context_descriptor_attributes(&self, descriptor: &ContextDescriptor) -> (step: Step<
        ReadContextAttributes,
        NativeCall,
        ContextAttributes,
    >)
        ensures
            step == ReadContextAttributes::begin(self.egl_display, *descriptor),
    {
        ReadContextAttributes::start(self.egl_display, descriptor)
    }
}

} // verus!
