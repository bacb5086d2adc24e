//! Texture descriptors, upload layouts and copies.
//!
//! Creating a texture means handing the graphics API a descriptor, a block
//! of pixel data with its row layout, a sampler descriptor, and a bind
//! group layout for sampling it. This module computes all of those as
//! plain data, with the size arithmetic proved, and decides which pixel
//! formats an image upload supports.

use vstd::prelude::*;
use crate::ShaderStages;
use crate::binding::{
    BindGroupLayoutBuilder, BindGroupLayoutEntry, BindGroupLayoutWithDesc, BindingType,
    SamplerBindingType, TextureFormat, TextureSampleType, TextureViewDimension,
};
use crate::wgsl;

verus! {

/// Usage flags of a texture, one flag per capability.
#[derive(Clone, Copy, Debug, PartialEq, Eq, Structural)]
pub struct TextureUsages {
    pub copy_src: bool,
    pub copy_dst: bool,
    pub texture_binding: bool,
    pub storage_binding: bool,
    pub render_attachment: bool,
}

/// The extent of a texture in texels and layers.
#[derive(Clone, Copy, Debug, PartialEq, Eq, Structural)]
pub struct Extent3d {
    pub width: u32,
    pub height: u32,
    pub depth_or_array_layers: u32,
}

/// The origin of a texture copy, in texels and layers.
#[derive(Clone, Copy, Debug, PartialEq, Eq, Structural)]
pub struct Origin3d {
    pub x: u32,
    pub y: u32,
    pub z: u32,
}

/// Dimensionality of a texture.
#[derive(Clone, Copy, Debug, PartialEq, Eq, Structural)]
pub enum TextureDimension {
    D1,
    D2,
    D3,
}

/// How a sampler treats coordinates outside the texture.
#[derive(Clone, Copy, Debug, PartialEq, Eq, Structural)]
pub enum AddressMode {
    ClampToEdge,
    Repeat,
    MirrorRepeat,
}

/// How a sampler blends between texels.
#[derive(Clone, Copy, Debug, PartialEq, Eq, Structural)]
pub enum FilterMode {
    Nearest,
    Linear,
}

/// The description of a sampler.
#[derive(Clone, Copy, Debug, PartialEq, Eq, Structural)]
pub struct SamplerDescriptor {
    pub address_mode_u: AddressMode,
    pub address_mode_v: AddressMode,
    pub address_mode_w: AddressMode,
    pub mag_filter: FilterMode,
    pub min_filter: FilterMode,
    pub mipmap_filter: FilterMode,
}

/// The description of a texture to create.
pub struct TextureDescriptor {
    pub label: Option<String>,
    pub size: Extent3d,
    pub mip_level_count: u32,
    pub sample_count: u32,
    pub dimension: TextureDimension,
    pub format: TextureFormat,
    pub usage: TextureUsages,
}

/// The row layout of pixel data handed to a texture upload.
#[derive(Clone, Copy, Debug, PartialEq, Eq)]
pub struct ImageDataLayout {
    pub offset: u64,
    pub bytes_per_row: Option<u32>,
    pub rows_per_image: Option<u32>,
}

/// What the library keeps of a created texture: its format and its size
/// in texels.
#[derive(Clone, Copy, Debug, PartialEq, Eq)]
pub struct Texture {
    pub format: TextureFormat,
    pub size: (u32, u32),
}

/// The channel order pixel data must be converted to before upload.
#[derive(Clone, Copy, Debug, PartialEq, Eq, Structural)]
pub enum ChannelOrder {
    Rgba,
    Bgra,
}

/// Why a texture could not be described.
#[derive(Clone, Copy, Debug, PartialEq, Eq, Structural)]
pub enum TextureError {
    FormatNotSupported,
}

/// Everything needed to create a black texture: the descriptor, the zero
/// pixel data with its layout, the sampler, and the bind group layout for
/// sampling it.
pub struct TexturePlan {
    pub desc: TextureDescriptor,
    pub data: Vec<u8>,
    pub data_layout: ImageDataLayout,
    pub sampler: SamplerDescriptor,
    pub bind_group_layout: BindGroupLayoutWithDesc,
    pub texture: Texture,
}

/// Everything needed to create a texture from a decoded image: the
/// channel order to convert the pixels to, the descriptor, the layout of
/// the converted data, the sampler, and the bind group layout.
pub struct ImagePlan {
    pub channel_order: ChannelOrder,
    pub desc: TextureDescriptor,
    pub data_layout: ImageDataLayout,
    pub sampler: SamplerDescriptor,
    pub bind_group_layout: BindGroupLayoutWithDesc,
    pub texture: Texture,
}

/// A texel-to-texel copy between two textures.
#[derive(Clone, Copy, Debug, PartialEq, Eq, Structural)]
pub struct TextureCopy {
    pub src_mip_level: u32,
    pub src_origin: Origin3d,
    pub dst_mip_level: u32,
    pub dst_origin: Origin3d,
    pub extent: Extent3d,
}

/// The usage every texture of this layer is created with: sampled,
/// copied both ways, and rendered to.
pub open spec fn color_target_usage() -> TextureUsages {
    TextureUsages {
        copy_src: true,
        copy_dst: true,
        texture_binding: true,
        storage_binding: false,
        render_attachment: true,
    }
}

/// The descriptor of a single-mip 2D texture of the given size and
/// format, usable as color target.
pub open spec fn color_target_descriptor(
    label: Option<String>,
    size: (u32, u32),
    format: TextureFormat,
) -> TextureDescriptor {
    TextureDescriptor {
        label,
        size: Extent3d { width: size.0, height: size.1, depth_or_array_layers: 1 },
        mip_level_count: 1,
        sample_count: 1,
        dimension: TextureDimension::D2,
        format,
        usage: color_target_usage(),
    }
}

/// The sampler every texture of this layer is created with: clamping,
/// linear magnification, nearest minification and mip filtering.
pub open spec fn default_sampler() -> SamplerDescriptor {
    SamplerDescriptor {
        address_mode_u: AddressMode::ClampToEdge,
        address_mode_v: AddressMode::ClampToEdge,
        address_mode_w: AddressMode::ClampToEdge,
        mag_filter: FilterMode::Linear,
        min_filter: FilterMode::Nearest,
        mipmap_filter: FilterMode::Nearest,
    }
}

/// The upload layout of tightly packed rows of 4-byte texels: a row pitch
/// of `4 * width` bytes, given as `None` when it is zero.
pub open spec fn packed_rgba_layout(size: (u32, u32)) -> ImageDataLayout {
    ImageDataLayout {
        offset: 0,
        bytes_per_row: if 4 * size.0 == 0 {
            None
        } else {
            Some((4 * size.0) as u32)
        },
        rows_per_image: if size.1 == 0 {
            None
        } else {
            Some(size.1)
        },
    }
}

/// The entries of the bind group layout for sampling a texture: slot 0 a
/// 2D texture, slot 1 a filtering sampler, both visible to every stage.
pub open spec fn sampling_layout_entries() -> Seq<BindGroupLayoutEntry> {
    seq![
        BindGroupLayoutEntry {
            binding: 0,
            visibility: ShaderStages { vertex: true, fragment: true, compute: true },
            ty: BindingType::Texture {
                sample_type: TextureSampleType::Float { filterable: true },
                view_dimension: TextureViewDimension::D2,
                multisampled: false,
            },
            count: None,
        },
        BindGroupLayoutEntry {
            binding: 1,
            visibility: ShaderStages { vertex: true, fragment: true, compute: true },
            ty: BindingType::Sampler(SamplerBindingType::Filtering),
            count: None,
        },
    ]
}

/// The channel order a format's pixel data must be converted to, if the
/// format is supported for image uploads.
pub open spec fn channel_order_of(format: TextureFormat) -> Option<ChannelOrder> {
    match format {
        TextureFormat::Rgba8Unorm => Some(ChannelOrder::Rgba),
        TextureFormat::Rgba8UnormSrgb => Some(ChannelOrder::Rgba),
        TextureFormat::Bgra8Unorm => Some(ChannelOrder::Bgra),
        TextureFormat::Bgra8UnormSrgb => Some(ChannelOrder::Bgra),
        TextureFormat::Rgba32Float => None,
    }
}

/// What `new_black` promises: the plan describes a black, single-mip 2D
/// color target of the given size and format, with tightly packed zeroed
/// pixel data, the default sampler, and the sampling bind group layout.
pub open spec fn black_texture_plan(
    plan: TexturePlan,
    label: Option<String>,
    size: (u32, u32),
    format: TextureFormat,
) -> bool {
    &&& plan.desc == color_target_descriptor(label, size, format)
    &&& plan.data@.len() == size.0 * size.1 * 4
    &&& forall|i: int| 0 <= i < plan.data@.len() ==> plan.data@[i] == 0
    &&& plan.data_layout == packed_rgba_layout(size)
    &&& plan.sampler == default_sampler()
    &&& plan.bind_group_layout.label == label
    &&& plan.bind_group_layout.entries@ == sampling_layout_entries()
    &&& plan.texture == (Texture { format, size })
}

/// A vector of `n` zero bytes.
fn zero_bytes(n: usize) -> (r: Vec<u8>)
    ensures
        r@.len() == n,
        forall|i: int| 0 <= i < n ==> r@[i] == 0,
{
    let mut data: Vec<u8> = Vec::new();
    let mut i: usize = 0;
    while i < n
        invariant
            i <= n,
            data@.len() == i,
            forall|j: int| 0 <= j < i ==> data@[j] == 0,
        decreases n - i,
    {
        data.push(0);
        i = i + 1;
    }
    data
}

fn make_sampler() -> (r: SamplerDescriptor)
    ensures
        r == default_sampler(),
{
    SamplerDescriptor {
        address_mode_u: AddressMode::ClampToEdge,
        address_mode_v: AddressMode::ClampToEdge,
        address_mode_w: AddressMode::ClampToEdge,
        mag_filter: FilterMode::Linear,
        min_filter: FilterMode::Nearest,
        mipmap_filter: FilterMode::Nearest,
    }
}

fn make_descriptor(label: Option<String>, size: (u32, u32), format: TextureFormat) -> (r:
    TextureDescriptor)
    ensures
        r == color_target_descriptor(label, size, format),
{
    TextureDescriptor {
        label,
        size: Extent3d { width: size.0, height: size.1, depth_or_array_layers: 1 },
        mip_level_count: 1,
        sample_count: 1,
        dimension: TextureDimension::D2,
        format,
        usage: TextureUsages {
            copy_src: true,
            copy_dst: true,
            texture_binding: true,
            storage_binding: false,
            render_attachment: true,
        },
    }
}

fn make_data_layout(size: (u32, u32)) -> (r: ImageDataLayout)
    requires
        4 * size.0 <= u32::MAX,
    ensures
        r == packed_rgba_layout(size),
{
    let pitch: u32 = 4 * size.0;
    ImageDataLayout {
        offset: 0,
        bytes_per_row: if pitch == 0 {
            None
        } else {
            Some(pitch)
        },
        rows_per_image: if size.1 == 0 {
            None
        } else {
            Some(size.1)
        },
    }
}

impl Texture {
    /// The bind group layout for sampling a texture: slot 0 a 2D texture,
    /// slot 1 a filtering sampler, both visible to every stage.
    pub fn create_bind_group_layout(label: Option<String>) -> (r: BindGroupLayoutWithDesc)
        ensures
            r.label == label,
            r.entries@ == sampling_layout_entries(),
    {
        let r = BindGroupLayoutBuilder::new().push_entry_all(wgsl::texture_2d()).push_entry_all(
            wgsl::sampler(),
        ).create(label);
        proof {
            assert(r.entries@ =~= sampling_layout_entries());
        }
        r
    }

    /// Describe a black texture of the given size: a zeroed pixel block
    /// of `4 * width * height` bytes with tightly packed rows, the
    /// descriptor of a single-mip 2D color target, the default sampler,
    /// and the sampling bind group layout.
    pub fn new_black(size: (u32, u32), label: Option<String>, format: TextureFormat) -> (r:
        TexturePlan)
        requires
            size.0 * size.1 * 4 <= u32::MAX,
            4 * size.0 <= u32::MAX,
        ensures
            black_texture_plan(r, label, size, format),
    {
        let data_len: u32 = size.0 * size.1 * 4;
        let data = zero_bytes(data_len as usize);
        let desc = make_descriptor(label_clone(&label), size, format);
        let data_layout = make_data_layout(size);
        let sampler = make_sampler();
        let bind_group_layout = Texture::create_bind_group_layout(label);
        TexturePlan {
            desc,
            data,
            data_layout,
            sampler,
            bind_group_layout,
            texture: Texture { format, size },
        }
    }

    /// Describe a texture holding a decoded image of the given
    /// dimensions. Succeeds exactly for the four 8-bit formats and names
    /// the channel order the pixels must be converted to; every other
    /// format is refused.
    pub fn from_image(dimensions: (u32, u32), label: Option<String>, format: TextureFormat) -> (r:
        Result<ImagePlan, TextureError>)
        requires
            4 * dimensions.0 <= u32::MAX,
        ensures
            r is Ok <==> channel_order_of(format) is Some,
            r is Err ==> r == Result::<ImagePlan, TextureError>::Err(
                TextureError::FormatNotSupported,
            ),
            r matches Ok(plan) ==> {
                &&& Some(plan.channel_order) == channel_order_of(format)
                &&& plan.desc == color_target_descriptor(label, dimensions, format)
                &&& plan.data_layout == packed_rgba_layout(dimensions)
                &&& plan.sampler == default_sampler()
                &&& plan.bind_group_layout.label == label
                &&& plan.bind_group_layout.entries@ == sampling_layout_entries()
                &&& plan.texture == (Texture { format, size: dimensions })
            },
    {
        let channel_order = match format {
            TextureFormat::Rgba8Unorm => ChannelOrder::Rgba,
            TextureFormat::Rgba8UnormSrgb => ChannelOrder::Rgba,
            TextureFormat::Bgra8Unorm => ChannelOrder::Bgra,
            TextureFormat::Bgra8UnormSrgb => ChannelOrder::Bgra,
            TextureFormat::Rgba32Float => {
                return Err(TextureError::FormatNotSupported);
            },
        };
        let desc = make_descriptor(label_clone(&label), dimensions, format);
        let data_layout = make_data_layout(dimensions);
        let sampler = make_sampler();
        let bind_group_layout = Texture::create_bind_group_layout(label);
        Ok(
            ImagePlan {
                channel_order,
                desc,
                data_layout,
                sampler,
                bind_group_layout,
                texture: Texture { format, size: dimensions },
            },
        )
    }

    /// The copy that moves this whole texture into `dst`: both at mip 0
    /// and origin zero, over this texture's full extent.
    pub fn copy_all_to(&self, dst: &Texture) -> (r: TextureCopy)
        ensures
            r == (TextureCopy {
                src_mip_level: 0,
                src_origin: Origin3d { x: 0, y: 0, z: 0 },
                dst_mip_level: 0,
                dst_origin: Origin3d { x: 0, y: 0, z: 0 },
                extent: Extent3d {
                    width: self.size.0,
                    height: self.size.1,
                    depth_or_array_layers: 1,
                },
            }),
    {
        let _ = dst;
        TextureCopy {
            src_mip_level: 0,
            src_origin: Origin3d { x: 0, y: 0, z: 0 },
            dst_mip_level: 0,
            dst_origin: Origin3d { x: 0, y: 0, z: 0 },
            extent: Extent3d {
                width: self.size.0,
                height: self.size.1,
                depth_or_array_layers: 1,
            },
        }
    }
}

/// A copy of an optional label.
fn label_clone(label: &Option<String>) -> (r: Option<String>)
    ensures
        r == *label,
{
    match label {
        Some(s) => Some(s.clone()),
        None => None,
    }
}

} // verus!
