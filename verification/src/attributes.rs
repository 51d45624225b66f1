//! What kind of context is wanted, or had.
use vstd::prelude::*;

verus! {

/// The family of GL.
#[derive(Clone, Copy, Debug, PartialEq, Eq, Structural)]
pub enum GLApi {
    GL,
    GLES,
}

#[derive(Clone, Copy, Debug, PartialEq, Eq, Structural)]
pub struct GLVersion {
    pub major: u8,
    pub minor: u8,
}

#[derive(Clone, Copy, Debug, PartialEq, Eq, Structural)]
pub struct GLFlavor {
    pub api: GLApi,
    pub version: GLVersion,
}

/// A set of flags: which buffers a context has besides the colors.
#[derive(Clone, Copy, Debug, PartialEq, Eq, Structural)]
pub struct ContextAttributeFlags {
    pub bits: u8,
}

impl ContextAttributeFlags {
    /// The surfaces have an alpha channel.
    pub const ALPHA: u8 = 0x01;

    /// The surfaces have a depth buffer.
    pub const DEPTH: u8 = 0x02;

    /// The surfaces have a stencil buffer.
    pub const STENCIL: u8 = 0x04;

    /// All bits of `flag` are set.
    pub open spec fn has(self, flag: u8) -> bool {
        self.bits & flag == flag
    }

    /// These flags, with the bits of `flag` set or cleared.
    pub open spec fn with(self, flag: u8, value: bool) -> ContextAttributeFlags {
        ContextAttributeFlags { bits: if value { self.bits | flag } else { self.bits & !flag } }
    }

    pub fn empty() -> (flags: ContextAttributeFlags)
        ensures
            flags == (ContextAttributeFlags { bits: 0 }),
    {
        ContextAttributeFlags { bits: 0 }
    }

    pub fn contains(&self, flag: u8) -> (contained: bool)
        ensures
            contained == self.has(flag),
            contained == (self.bits & flag == flag),
    {
        self.bits & flag == flag
    }

    pub fn set(&mut self, flag: u8, value: bool)
        ensures
            *final(self) == old(self).with(flag, value),
            value ==> final(self).bits == old(self).bits | flag,
            !value ==> final(self).bits == old(self).bits & !flag,
    {
        if value {
            self.bits = self.bits | flag;
        } else {
            self.bits = self.bits & !flag;
        }
    }
}

/// The flags of a configuration with buffers of these sizes, in bits per pixel.
pub open spec fn flags_of_sizes(
    alpha_size: int,
    depth_size: int,
    stencil_size: int,
) -> ContextAttributeFlags {
    ContextAttributeFlags { bits: 0 }.with(ContextAttributeFlags::ALPHA, alpha_size != 0).with(
        ContextAttributeFlags::DEPTH,
        depth_size != 0,
    ).with(ContextAttributeFlags::STENCIL, stencil_size != 0)
}

/// A flag is set if and only if the size of its buffer is not zero, and no other bit is.
pub proof fn lemma_flags_of_sizes(alpha_size: int, depth_size: int, stencil_size: int)
    ensures
        ({
            let flags = flags_of_sizes(alpha_size, depth_size, stencil_size);
            &&& flags.has(ContextAttributeFlags::ALPHA) <==> alpha_size != 0
            &&& flags.has(ContextAttributeFlags::DEPTH) <==> depth_size != 0
            &&& flags.has(ContextAttributeFlags::STENCIL) <==> stencil_size != 0
            &&& flags.bits <= 7
            &&& flags.bits == (if alpha_size != 0 {
                1int
            } else {
                0
            }) + (if depth_size != 0 {
                2int
            } else {
                0
            }) + (if stencil_size != 0 {
                4int
            } else {
                0
            })
        }),
{
    let a = alpha_size != 0;
    let d = depth_size != 0;
    let s = stencil_size != 0;
    let b0 = 0u8;
    let b1 = if a { b0 | 1u8 } else { b0 & !1u8 };
    let b2 = if d { b1 | 2u8 } else { b1 & !2u8 };
    let b3 = if s { b2 | 4u8 } else { b2 & !4u8 };
    assert((b3 & 1u8 == 1u8 <==> a) && (b3 & 2u8 == 2u8 <==> d) && (b3 & 4u8 == 4u8 <==> s) && b3
        == (if a { 1u8 } else { 0u8 }) + (if d { 2u8 } else { 0u8 }) + (if s { 4u8 } else { 0u8 })
        && b3 <= 7) by (bit_vector)
        requires
            b0 == 0u8,
            b1 == (if a { b0 | 1u8 } else { b0 & !1u8 }),
            b2 == (if d { b1 | 2u8 } else { b1 & !2u8 }),
            b3 == (if s { b2 | 4u8 } else { b2 & !4u8 }),
    ;
}

/// What is asked of a context.
#[derive(Clone, Copy, Debug, PartialEq, Eq, Structural)]
pub struct ContextAttributes {
    pub flags: ContextAttributeFlags,
    pub flavor: GLFlavor,
}

/// What is known of the GL of a context: nothing before it is populated, then the
/// attributes that the context turned out to have.
#[derive(Clone, Copy, Debug, PartialEq, Eq, Structural)]
pub struct GLInfo {
    pub attributes: Option<ContextAttributes>,
}

impl GLInfo {
    pub fn new() -> (info: GLInfo)
        ensures
            info == (GLInfo { attributes: None }),
    {
        GLInfo { attributes: None }
    }

    pub fn populate(&mut self, attributes: &ContextAttributes)
        ensures
            *final(self) == (GLInfo { attributes: Some(*attributes) }),
    {
        self.attributes = Some(*attributes);
    }
}

} // verus!
