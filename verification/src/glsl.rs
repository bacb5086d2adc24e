//! Binding types for the resources a GLSL shader declares, one
//! constructor per GLSL resource kind.

use vstd::prelude::*;
use crate::binding::{
    BindingType, BufferBindingType, SamplerBindingType, StorageTextureAccess, TextureFormat,
    TextureSampleType, TextureViewDimension,
};

verus! {

/// A storage buffer binding.
pub fn buffer(read_only: bool) -> (r: BindingType)
    ensures
        r == (BindingType::Buffer {
            ty: BufferBindingType::Storage { read_only },
            has_dynamic_offset: false,
            min_binding_size: None,
        }),
{
    BindingType::Buffer {
        ty: BufferBindingType::Storage { read_only },
        has_dynamic_offset: false,
        min_binding_size: None,
    }
}

/// A uniform buffer binding.
pub fn uniform() -> (r: BindingType)
    ensures
        r == (BindingType::Buffer {
            ty: BufferBindingType::Uniform,
            has_dynamic_offset: false,
            min_binding_size: None,
        }),
{
    BindingType::Buffer {
        ty: BufferBindingType::Uniform,
        has_dynamic_offset: false,
        min_binding_size: None,
    }
}

/// A sampler binding. The binding is always filtering, whatever is asked.
pub fn sampler(filtering: bool) -> (r: BindingType)
    ensures
        r == BindingType::Sampler(SamplerBindingType::Filtering),
{
    let _ = filtering;
    BindingType::Sampler(SamplerBindingType::Filtering)
}

/// A filterable float 2D texture binding.
#[allow(non_snake_case)]
pub fn texture2D() -> (r: BindingType)
    ensures
        r == (BindingType::Texture {
            sample_type: TextureSampleType::Float { filterable: true },
            view_dimension: TextureViewDimension::D2,
            multisampled: false,
        }),
{
    BindingType::Texture {
        sample_type: TextureSampleType::Float { filterable: true },
        view_dimension: TextureViewDimension::D2,
        multisampled: false,
    }
}

/// A filterable float 2D array texture binding.
#[allow(non_snake_case)]
pub fn texture2DArray() -> (r: BindingType)
    ensures
        r == (BindingType::Texture {
            sample_type: TextureSampleType::Float { filterable: true },
            view_dimension: TextureViewDimension::D2Array,
            multisampled: false,
        }),
{
    BindingType::Texture {
        sample_type: TextureSampleType::Float { filterable: true },
        view_dimension: TextureViewDimension::D2Array,
        multisampled: false,
    }
}

/// A signed-integer 2D texture binding.
#[allow(non_snake_case)]
pub fn itexture2D() -> (r: BindingType)
    ensures
        r == (BindingType::Texture {
            sample_type: TextureSampleType::Sint,
            view_dimension: TextureViewDimension::D2,
            multisampled: false,
        }),
{
    BindingType::Texture {
        sample_type: TextureSampleType::Sint,
        view_dimension: TextureViewDimension::D2,
        multisampled: false,
    }
}

/// An unsigned-integer 2D texture binding.
#[allow(non_snake_case)]
pub fn utexture2D() -> (r: BindingType)
    ensures
        r == (BindingType::Texture {
            sample_type: TextureSampleType::Uint,
            view_dimension: TextureViewDimension::D2,
            multisampled: false,
        }),
{
    BindingType::Texture {
        sample_type: TextureSampleType::Uint,
        view_dimension: TextureViewDimension::D2,
        multisampled: false,
    }
}

/// A filterable float 3D texture binding.
#[allow(non_snake_case)]
pub fn texture3D() -> (r: BindingType)
    ensures
        r == (BindingType::Texture {
            sample_type: TextureSampleType::Float { filterable: true },
            view_dimension: TextureViewDimension::D3,
            multisampled: false,
        }),
{
    BindingType::Texture {
        sample_type: TextureSampleType::Float { filterable: true },
        view_dimension: TextureViewDimension::D3,
        multisampled: false,
    }
}

/// A signed-integer 3D texture binding.
#[allow(non_snake_case)]
pub fn itexture3D() -> (r: BindingType)
    ensures
        r == (BindingType::Texture {
            sample_type: TextureSampleType::Sint,
            view_dimension: TextureViewDimension::D3,
            multisampled: false,
        }),
{
    BindingType::Texture {
        sample_type: TextureSampleType::Sint,
        view_dimension: TextureViewDimension::D3,
        multisampled: false,
    }
}

/// An unsigned-integer 3D texture binding.
#[allow(non_snake_case)]
pub fn utexture3D() -> (r: BindingType)
    ensures
        r == (BindingType::Texture {
            sample_type: TextureSampleType::Uint,
            view_dimension: TextureViewDimension::D3,
            multisampled: false,
        }),
{
    BindingType::Texture {
        sample_type: TextureSampleType::Uint,
        view_dimension: TextureViewDimension::D3,
        multisampled: false,
    }
}

/// A filterable float cube texture binding.
#[allow(non_snake_case)]
pub fn textureCube() -> (r: BindingType)
    ensures
        r == (BindingType::Texture {
            sample_type: TextureSampleType::Float { filterable: true },
            view_dimension: TextureViewDimension::Cube,
            multisampled: false,
        }),
{
    BindingType::Texture {
        sample_type: TextureSampleType::Float { filterable: true },
        view_dimension: TextureViewDimension::Cube,
        multisampled: false,
    }
}

/// A 2D storage image binding.
#[allow(non_snake_case)]
pub fn image2D(format: TextureFormat, access: StorageTextureAccess) -> (r: BindingType)
    ensures
        r == (BindingType::StorageTexture {
            access,
            view_dimension: TextureViewDimension::D2,
            format,
        }),
{
    BindingType::StorageTexture { access, view_dimension: TextureViewDimension::D2, format }
}

/// A 2D array storage image binding.
#[allow(non_snake_case)]
pub fn image2DArray(format: TextureFormat, access: StorageTextureAccess) -> (r: BindingType)
    ensures
        r == (BindingType::StorageTexture {
            access,
            view_dimension: TextureViewDimension::D2Array,
            format,
        }),
{
    BindingType::StorageTexture { access, view_dimension: TextureViewDimension::D2Array, format }
}

/// A 3D storage image binding.
#[allow(non_snake_case)]
pub fn image3D(format: TextureFormat, access: StorageTextureAccess) -> (r: BindingType)
    ensures
        r == (BindingType::StorageTexture {
            access,
            view_dimension: TextureViewDimension::D3,
            format,
        }),
{
    BindingType::StorageTexture { access, view_dimension: TextureViewDimension::D3, format }
}

} // verus!
