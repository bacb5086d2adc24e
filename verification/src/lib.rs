//! Resource-description layer for a GPU graphics API.
//!
//! The types here describe what a renderer asks of the graphics stack:
//! bind group layouts with automatically assigned binding slots, buffer
//! descriptors with their size arithmetic, texture descriptors with their
//! upload layout, and the pass schedule of a small paint simulation.
//! Everything is plain data with proved contracts; turning these
//! descriptions into live GPU objects is the caller's job.

pub mod binding;
pub mod buffer;
pub mod glsl;
pub mod paintsim;
pub mod texture;
pub mod wgsl;

use vstd::prelude::*;

verus! {

/// Shader stages that a binding can be visible to, one flag per stage.
#[derive(Clone, Copy, Debug, PartialEq, Eq, Structural)]
pub struct ShaderStages {
    pub vertex: bool,
    pub fragment: bool,
    pub compute: bool,
}

impl ShaderStages {
    /// Visibility covering no stage.
    pub fn none() -> (r: ShaderStages)
        ensures
            r == (ShaderStages { vertex: false, fragment: false, compute: false }),
    {
        ShaderStages { vertex: false, fragment: false, compute: false }
    }

    /// Visibility of the vertex stage alone.
    pub fn vertex() -> (r: ShaderStages)
        ensures
            r == (ShaderStages { vertex: true, fragment: false, compute: false }),
    {
        ShaderStages { vertex: true, fragment: false, compute: false }
    }

    /// Visibility of the fragment stage alone.
    pub fn fragment() -> (r: ShaderStages)
        ensures
            r == (ShaderStages { vertex: false, fragment: true, compute: false }),
    {
        ShaderStages { vertex: false, fragment: true, compute: false }
    }

    /// Visibility of the compute stage alone.
    pub fn compute() -> (r: ShaderStages)
        ensures
            r == (ShaderStages { vertex: false, fragment: false, compute: true }),
    {
        ShaderStages { vertex: false, fragment: false, compute: true }
    }

    /// Visibility covering every stage.
    pub fn all() -> (r: ShaderStages)
        ensures
            r == (ShaderStages { vertex: true, fragment: true, compute: true }),
    {
        ShaderStages { vertex: true, fragment: true, compute: true }
    }
}

} // verus!
