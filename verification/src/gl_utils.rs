//! OpenGL utilities.
use crate::operation::{Operation, ReplyCheck, Step};
use vstd::prelude::*;

verus! {

pub type GLint = i32;

pub type GLuint = u32;

pub type GLenum = u32;

pub const DRAW_FRAMEBUFFER_BINDING: GLenum = 0x8ca6;

pub const READ_FRAMEBUFFER_BINDING: GLenum = 0x8caa;

pub const DRAW_FRAMEBUFFER: GLenum = 0x8ca9;

pub const READ_FRAMEBUFFER: GLenum = 0x8ca8;

/// A GL call that the embedding program has to make.
#[derive(Clone, Copy, Debug, PartialEq, Eq, Structural)]
pub enum GLCall {
    /// `glGetIntegerv`, for one integer. The integer is zero before the call, and is
    /// the reply after it.
    GetInteger { parameter: GLenum },
    /// `glBindFramebuffer`. The reply is zero.
    BindFramebuffer { target: GLenum, framebuffer: GLuint },
    /// `glDeleteFramebuffers`, for one framebuffer. The reply is zero.
    DeleteFramebuffer { framebuffer: GLuint },
}

/// A framebuffer object that is being destroyed.
#[derive(Clone, Copy, Debug, PartialEq, Eq, Structural)]
pub enum DestroyFramebuffer {
    /// GL is asked which framebuffer is drawn to.
    DrawBinding { framebuffer_object: GLuint },
    /// GL is asked which framebuffer is read from.
    ReadBinding { framebuffer_object: GLuint, current_draw_framebuffer: GLint },
    /// The framebuffer is not to be drawn to any more.
    UnbindingDraw { framebuffer_object: GLuint, current_read_framebuffer: GLint },
    /// The framebuffer is not to be read from any more.
    UnbindingRead { framebuffer_object: GLuint },
    /// The framebuffer is deleted.
    Deleting,
}

impl DestroyFramebuffer {
    pub open spec fn begin(framebuffer_object: GLuint) -> Step<DestroyFramebuffer, GLCall, ()> {
        Step::Call(
            GLCall::GetInteger { parameter: DRAW_FRAMEBUFFER_BINDING },
            DestroyFramebuffer::DrawBinding { framebuffer_object },
        )
    }

    pub open spec fn deletion(framebuffer_object: GLuint) -> Step<DestroyFramebuffer, GLCall, ()> {
        Step::Call(
            GLCall::DeleteFramebuffer { framebuffer: framebuffer_object },
            DestroyFramebuffer::Deleting,
        )
    }

    pub open spec fn after_draw(
        framebuffer_object: GLuint,
        current_read_framebuffer: GLint,
    ) -> Step<DestroyFramebuffer, GLCall, ()> {
        if current_read_framebuffer as GLuint == framebuffer_object {
            Step::Call(
                GLCall::BindFramebuffer { target: READ_FRAMEBUFFER, framebuffer: 0 },
                DestroyFramebuffer::UnbindingRead { framebuffer_object },
            )
        } else {
            Self::deletion(framebuffer_object)
        }
    }

    fn delete(framebuffer_object: GLuint) -> (step: Step<DestroyFramebuffer, GLCall, ()>)
        ensures
            step == Self::deletion(framebuffer_object),
    {
        Step::Call(
            GLCall::DeleteFramebuffer { framebuffer: framebuffer_object },
            DestroyFramebuffer::Deleting,
        )
    }

    fn resume_after_draw(
        framebuffer_object: GLuint,
        current_read_framebuffer: GLint,
    ) -> (step: Step<DestroyFramebuffer, GLCall, ()>)
        ensures
            step == Self::after_draw(framebuffer_object, current_read_framebuffer),
    {
        let current: GLuint = #[verifier::truncate]
        (current_read_framebuffer as GLuint);
        if current == framebuffer_object {
            return Step::Call(
                GLCall::BindFramebuffer { target: READ_FRAMEBUFFER, framebuffer: 0 },
                DestroyFramebuffer::UnbindingRead { framebuffer_object },
            );
        }
        Self::delete(framebuffer_object)
    }
}

impl Operation for DestroyFramebuffer {
    type Target = ();

    type Call = GLCall;

    type Reply = GLint;

    type Output = ();

    open spec fn check_of(self, target: (), reply: GLint) -> ReplyCheck {
        ReplyCheck::Accepted
    }

    open spec fn next(self, target: (), reply: GLint) -> (
        (),
        Step<DestroyFramebuffer, GLCall, ()>,
    ) {
        (
            (),
            match self {
                DestroyFramebuffer::DrawBinding { framebuffer_object } => Step::Call(
                    GLCall::GetInteger { parameter: READ_FRAMEBUFFER_BINDING },
                    DestroyFramebuffer::ReadBinding {
                        framebuffer_object,
                        current_draw_framebuffer: reply,
                    },
                ),
                DestroyFramebuffer::ReadBinding {
                    framebuffer_object,
                    current_draw_framebuffer,
                } => if current_draw_framebuffer as GLuint == framebuffer_object {
                    Step::Call(
                        GLCall::BindFramebuffer { target: DRAW_FRAMEBUFFER, framebuffer: 0 },
                        DestroyFramebuffer::UnbindingDraw {
                            framebuffer_object,
                            current_read_framebuffer: reply,
                        },
                    )
                } else {
                    Self::after_draw(framebuffer_object, reply)
                },
                DestroyFramebuffer::UnbindingDraw {
                    framebuffer_object,
                    current_read_framebuffer,
                } => Self::after_draw(framebuffer_object, current_read_framebuffer),
                DestroyFramebuffer::UnbindingRead { framebuffer_object } => Self::deletion(
                    framebuffer_object,
                ),
                DestroyFramebuffer::Deleting => Step::Done(()),
            },
        )
    }

    open spec fn remaining(self) -> nat {
        match self {
            DestroyFramebuffer::DrawBinding { .. } => 5,
            DestroyFramebuffer::ReadBinding { .. } => 4,
            DestroyFramebuffer::UnbindingDraw { .. } => 3,
            DestroyFramebuffer::UnbindingRead { .. } => 2,
            DestroyFramebuffer::Deleting => 1,
        }
    }

    proof fn lemma_progress(self, target: (), reply: GLint) {
    }

    fn check(&self, _target: &(), _reply: &GLint) -> (check: ReplyCheck) {
        ReplyCheck::Accepted
    }

    fn step(self, _target: &mut (), reply: GLint) -> (step: Step<DestroyFramebuffer, GLCall, ()>) {
        match self {
            DestroyFramebuffer::DrawBinding { framebuffer_object } => Step::Call(
                GLCall::GetInteger { parameter: READ_FRAMEBUFFER_BINDING },
                DestroyFramebuffer::ReadBinding {
                    framebuffer_object,
                    current_draw_framebuffer: reply,
                },
            ),
            DestroyFramebuffer::ReadBinding { framebuffer_object, current_draw_framebuffer } => {
                let current: GLuint = #[verifier::truncate]
                (current_draw_framebuffer as GLuint);
                if current == framebuffer_object {
                    return Step::Call(
                        GLCall::BindFramebuffer { target: DRAW_FRAMEBUFFER, framebuffer: 0 },
                        DestroyFramebuffer::UnbindingDraw {
                            framebuffer_object,
                            current_read_framebuffer: reply,
                        },
                    );
                }
                Self::resume_after_draw(framebuffer_object, reply)
            },
            DestroyFramebuffer::UnbindingDraw { framebuffer_object, current_read_framebuffer } =>
            Self::resume_after_draw(framebuffer_object, current_read_framebuffer),
            DestroyFramebuffer::UnbindingRead { framebuffer_object } => Self::delete(
                framebuffer_object,
            ),
            DestroyFramebuffer::Deleting => Step::Done(()),
        }
    }
}

/// Starts to destroy the framebuffer object. Where it is bound it is unbound first.
pub fn destroy_framebuffer(framebuffer_object: GLuint) -> (step: Step<
    DestroyFramebuffer,
    GLCall,
    (),
>)
    ensures
        step == DestroyFramebuffer::begin(framebuffer_object),
{
    Step::Call(
        GLCall::GetInteger { parameter: DRAW_FRAMEBUFFER_BINDING },
        DestroyFramebuffer::DrawBinding { framebuffer_object },
    )
}

} // verus!
