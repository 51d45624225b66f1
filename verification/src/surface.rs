//! Surfaces, as far as contexts know them.
use crate::context::ContextDescriptor;
use vstd::prelude::*;

verus! {

/// A surface that a context can render to.
#[derive(Debug, PartialEq, Eq)]
pub struct Surface {
    /// The kind of context that the surface was made for.
    pub descriptor: ContextDescriptor,
    /// What identifies the surface.
    pub handle: usize,
}

/// The surface that a context renders to.
#[derive(Debug, PartialEq, Eq)]
pub enum ColorSurface {
    /// No surface.
    Nothing,
    /// A surface that the context owns.
    Managed(Surface),
    /// A target that was set up elsewhere and is not touched here.
    External,
}

} // verus!
