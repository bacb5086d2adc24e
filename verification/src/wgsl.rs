//! Binding types for the resources a WGSL shader declares.

use vstd::prelude::*;
use crate::binding::{
    BindingType, BufferBindingType, SamplerBindingType, TextureSampleType, TextureViewDimension,
};

verus! {

/// A uniform buffer binding.
pub fn uniform() -> (r: BindingType)
    ensures
        r == (BindingType::Buffer {
            ty: BufferBindingType::Uniform,
            has_dynamic_offset: false,
            min_binding_size: None,
        }),
{
    BindingType::Buffer {
        ty: BufferBindingType::Uniform,
        has_dynamic_offset: false,
        min_binding_size: None,
    }
}

/// A filtering sampler binding.
pub fn sampler() -> (r: BindingType)
    ensures
        r == BindingType::Sampler(SamplerBindingType::Filtering),
{
    BindingType::Sampler(SamplerBindingType::Filtering)
}

/// A filterable float 2D texture binding.
pub fn texture_2d() -> (r: BindingType)
    ensures
        r == (BindingType::Texture {
            sample_type: TextureSampleType::Float { filterable: true },
            view_dimension: TextureViewDimension::D2,
            multisampled: false,
        }),
{
    BindingType::Texture {
        sample_type: TextureSampleType::Float { filterable: true },
        view_dimension: TextureViewDimension::D2,
        multisampled: false,
    }
}

} // verus!
