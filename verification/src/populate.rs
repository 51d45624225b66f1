//! Finding out about the GL of a new context.
use crate::attributes::{ContextAttributes, GLInfo};
use crate::config::ReadContextAttributes;
use crate::context::ContextDescriptor;
use crate::describe::DescribeContext;
use crate::device::GLLoader;
use crate::egl::{EGLContext, EGLDisplay, NativeCall, NativeReply};
use crate::operation::{Operation, ReplyCheck, Step};
use vstd::prelude::*;

verus! {

/// What changes while the GL of a new context is found out about.
#[derive(Clone, Copy, Debug, PartialEq, Eq, Structural)]
pub struct Population {
    /// What is known of the GL of the context.
    pub gl_info: GLInfo,
    /// Whether the GL functions have been loaded.
    pub loader: GLLoader,
}

/// A context whose GL is being found out about.
#[derive(Clone, Copy, Debug, PartialEq, Eq, Structural)]
pub enum PopulateGLInfo {
    /// The GL functions are loaded, for the first context only.
    Loading { display: EGLDisplay, context: EGLContext },
    /// EGL is asked what kind the context is of.
    Describing { display: EGLDisplay, describe: DescribeContext },
    /// EGL is asked for the attributes of that kind.
    Reading { read: ReadContextAttributes },
}

impl PopulateGLInfo {
    pub open spec fn after_reading(
        population: Population,
        step: Step<ReadContextAttributes, NativeCall, ContextAttributes>,
    ) -> (Population, Step<PopulateGLInfo, NativeCall, ()>) {
        match step {
            Step::Call(call, read) => (
                population,
                Step::Call(call, PopulateGLInfo::Reading { read }),
            ),
            Step::Done(attributes) => (
                Population { gl_info: GLInfo { attributes: Some(attributes) }, ..population },
                Step::Done(()),
            ),
        }
    }

    pub open spec fn after_describing(
        population: Population,
        display: EGLDisplay,
        step: Step<DescribeContext, NativeCall, ContextDescriptor>,
    ) -> (Population, Step<PopulateGLInfo, NativeCall, ()>) {
        match step {
            Step::Call(call, describe) => (
                population,
                Step::Call(call, PopulateGLInfo::Describing { display, describe }),
            ),
            Step::Done(descriptor) => Self::after_reading(
                population,
                ReadContextAttributes::begin(display, descriptor),
            ),
        }
    }

    pub open spec fn begin(
        population: Population,
        display: EGLDisplay,
        context: EGLContext,
    ) -> (Population, Step<PopulateGLInfo, NativeCall, ()>) {
        if population.loader.previous_context_created {
            Self::after_describing(population, display, DescribeContext::begin(display, context))
        } else {
            (
                population,
                Step::Call(NativeCall::LoadGL, PopulateGLInfo::Loading { display, context }),
            )
        }
    }

    fn resume_reading(
        population: &mut Population,
        step: Step<ReadContextAttributes, NativeCall, ContextAttributes>,
    ) -> (lifted: Step<PopulateGLInfo, NativeCall, ()>)
        ensures
            (*final(population), lifted) == Self::after_reading(*old(population), step),
    {
        match step {
            Step::Call(call, read) => Step::Call(call, PopulateGLInfo::Reading { read }),
            Step::Done(attributes) => {
                population.gl_info.populate(&attributes);
                Step::Done(())
            },
        }
    }

    fn resume_describing(
        population: &mut Population,
        display: EGLDisplay,
        step: Step<DescribeContext, NativeCall, ContextDescriptor>,
    ) -> (lifted: Step<PopulateGLInfo, NativeCall, ()>)
        ensures
            (*final(population), lifted) == Self::after_describing(
                *old(population),
                display,
                step,
            ),
    {
        match step {
            Step::Call(call, describe) => Step::Call(
                call,
                PopulateGLInfo::Describing { display, describe },
            ),
            Step::Done(descriptor) => {
                let reading = ReadContextAttributes::start(display, &descriptor);
                Self::resume_reading(population, reading)
            },
        }
    }

    /// Starts to find out about the GL of the context, and loads the GL functions
    /// before if there was no context yet.
    pub fn start(
        population: &mut Population,
        display: EGLDisplay,
        context: EGLContext,
    ) -> (step: Step<PopulateGLInfo, NativeCall, ()>)
        ensures
            (*final(population), step) == Self::begin(*old(population), display, context),
    {
        if !population.loader.previous_context_created {
            return Step::Call(NativeCall::LoadGL, PopulateGLInfo::Loading { display, context });
        }
        let describing = DescribeContext::start(display, context);
        Self::resume_describing(population, display, describing)
    }
}

impl Operation for PopulateGLInfo {
    type Target = Population;

    type Call = NativeCall;

    type Reply = NativeReply;

    type Output = ();

    open spec fn check_of(self, target: Population, reply: NativeReply) -> ReplyCheck {
        match self {
            PopulateGLInfo::Loading { .. } => ReplyCheck::Accepted,
            PopulateGLInfo::Describing { describe, .. } => describe.check_of((), reply),
            PopulateGLInfo::Reading { read } => read.check_of((), reply),
        }
    }

    open spec fn next(self, target: Population, reply: NativeReply) -> (
        Population,
        Step<PopulateGLInfo, NativeCall, ()>,
    ) {
        match self {
            PopulateGLInfo::Loading { display, context } => Self::after_describing(
                Population { loader: GLLoader { previous_context_created: true }, ..target },
                display,
                DescribeContext::begin(display, context),
            ),
            PopulateGLInfo::Describing { display, describe } => Self::after_describing(
                target,
                display,
                describe.next((), reply).1,
            ),
            PopulateGLInfo::Reading { read } => Self::after_reading(
                target,
                read.next((), reply).1,
            ),
        }
    }

    open spec fn remaining(self) -> nat {
        match self {
            PopulateGLInfo::Loading { .. } => 7,
            PopulateGLInfo::Describing { describe, .. } => describe.remaining() + 4,
            PopulateGLInfo::Reading { read } => read.remaining(),
        }
    }

    proof fn lemma_progress(self, target: Population, reply: NativeReply) {
        match self {
            PopulateGLInfo::Loading { .. } => {},
            PopulateGLInfo::Describing { describe, .. } => describe.lemma_progress((), reply),
            PopulateGLInfo::Reading { read } => read.lemma_progress((), reply),
        }
    }

    fn check(&self, _target: &Population, reply: &NativeReply) -> (check: ReplyCheck) {
        match self {
            PopulateGLInfo::Loading { .. } => ReplyCheck::Accepted,
            PopulateGLInfo::Describing { describe, .. } => describe.check(&(), reply),
            PopulateGLInfo::Reading { read } => read.check(&(), reply),
        }
    }

    fn step(self, target: &mut Population, reply: NativeReply) -> (step: Step<
        PopulateGLInfo,
        NativeCall,
        (),
    >) {
        let mut unit = ();
        match self {
            PopulateGLInfo::Loading { display, context } => {
                target.loader.note_loaded();
                let describing = DescribeContext::start(display, context);
                Self::resume_describing(target, display, describing)
            },
            PopulateGLInfo::Describing { display, describe } => {
                let next = describe.step(&mut unit, reply);
                Self::resume_describing(target, display, next)
            },
            PopulateGLInfo::Reading { read } => {
                let next = read.step(&mut unit, reply);
                Self::resume_reading(target, next)
            },
        }
    }
}

} // verus!
