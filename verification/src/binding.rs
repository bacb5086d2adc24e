//! Bind group layouts and bind groups, described as plain data.
//!
//! A layout builder assigns binding slots to entries in the order they are
//! pushed; a bind group builder pairs resources with those slots, one for
//! one. The contracts pin down exactly which slot each entry receives.

use vstd::prelude::*;
use crate::ShaderStages;

verus! {

/// How a buffer binding is used by shaders.
#[derive(Clone, Copy, Debug, PartialEq, Eq)]
pub enum BufferBindingType {
    Uniform,
    Storage { read_only: bool },
}

/// Which values a sampled texture yields.
#[derive(Clone, Copy, Debug, PartialEq, Eq)]
pub enum TextureSampleType {
    Float { filterable: bool },
    Sint,
    Uint,
}

/// Dimensionality of a texture view.
#[derive(Clone, Copy, Debug, PartialEq, Eq)]
pub enum TextureViewDimension {
    D1,
    D2,
    D2Array,
    D3,
    Cube,
}

/// How a storage texture binding may be accessed.
#[derive(Clone, Copy, Debug, PartialEq, Eq)]
pub enum StorageTextureAccess {
    ReadOnly,
    WriteOnly,
    ReadWrite,
}

/// Behaviour of a sampler binding.
#[derive(Clone, Copy, Debug, PartialEq, Eq)]
pub enum SamplerBindingType {
    Filtering,
    NonFiltering,
    Comparison,
}

/// Pixel formats that this layer knows how to describe.
#[derive(Clone, Copy, Debug, PartialEq, Eq, Structural)]
pub enum TextureFormat {
    Rgba8Unorm,
    Rgba8UnormSrgb,
    Bgra8Unorm,
    Bgra8UnormSrgb,
    Rgba32Float,
}

/// What kind of resource a binding slot holds.
#[derive(Clone, Copy, Debug, PartialEq, Eq)]
pub enum BindingType {
    Buffer {
        ty: BufferBindingType,
        has_dynamic_offset: bool,
        min_binding_size: Option<u64>,
    },
    Sampler(SamplerBindingType),
    Texture {
        sample_type: TextureSampleType,
        view_dimension: TextureViewDimension,
        multisampled: bool,
    },
    StorageTexture {
        access: StorageTextureAccess,
        view_dimension: TextureViewDimension,
        format: TextureFormat,
    },
}

/// One slot of a bind group layout.
#[derive(Clone, Copy, Debug, PartialEq, Eq)]
pub struct BindGroupLayoutEntry {
    pub binding: u32,
    pub visibility: ShaderStages,
    pub ty: BindingType,
    pub count: Option<u32>,
}

/// A finished bind group layout: the entries it was created from, and the
/// label it was created under.
pub struct BindGroupLayoutWithDesc {
    pub label: Option<String>,
    pub entries: Vec<BindGroupLayoutEntry>,
}

/// Builds a bind group layout, assigning binding slots in push order.
pub struct BindGroupLayoutBuilder {
    pub index: u32,
    pub entries: Vec<BindGroupLayoutEntry>,
}

impl BindGroupLayoutBuilder {
    /// An empty builder; the first pushed entry receives slot 0.
    pub fn new() -> (r: Self)
        ensures
            r.index == 0,
            r.entries@ == Seq::<BindGroupLayoutEntry>::empty(),
    {
        Self { index: 0, entries: Vec::new() }
    }

    /// Append an explicit entry; the next auto-assigned slot follows it.
    pub fn entry(self, entry: BindGroupLayoutEntry) -> (r: Self)
        requires
            entry.binding < u32::MAX,
        ensures
            r.entries@ == self.entries@.push(entry),
            r.index == entry.binding + 1,
    {
        let mut entries = self.entries;
        entries.push(entry);
        Self { index: entry.binding + 1, entries }
    }

    /// Append an entry at the next free slot with the given visibility.
    pub fn push_entry(self, visibility: ShaderStages, ty: BindingType) -> (r: Self)
        requires
            self.index < u32::MAX,
        ensures
            r.entries@ == self.entries@.push(
                (BindGroupLayoutEntry { binding: self.index, visibility, ty, count: None }),
            ),
            r.index == self.index + 1,
    {
        let binding: u32 = self.index;
        self.entry(BindGroupLayoutEntry { binding, visibility, ty, count: None })
    }

    /// Append a compute-stage entry at the next free slot.
    pub fn push_entry_compute(self, ty: BindingType) -> (r: Self)
        requires
            self.index < u32::MAX,
        ensures
            r.entries@ == self.entries@.push(
                (BindGroupLayoutEntry {
                    binding: self.index,
                    visibility: ShaderStages { vertex: false, fragment: false, compute: true },
                    ty,
                    count: None,
                }),
            ),
            r.index == self.index + 1,
    {
        self.push_entry(ShaderStages::compute(), ty)
    }

    /// Append a fragment-stage entry at the next free slot.
    pub fn push_entry_fragment(self, ty: BindingType) -> (r: Self)
        requires
            self.index < u32::MAX,
        ensures
            r.entries@ == self.entries@.push(
                (BindGroupLayoutEntry {
                    binding: self.index,
                    visibility: ShaderStages { vertex: false, fragment: true, compute: false },
                    ty,
                    count: None,
                }),
            ),
            r.index == self.index + 1,
    {
        self.push_entry(ShaderStages::fragment(), ty)
    }

    /// Append a vertex-stage entry at the next free slot.
    pub fn push_entry_vertex(self, ty: BindingType) -> (r: Self)
        requires
            self.index < u32::MAX,
        ensures
            r.entries@ == self.entries@.push(
                (BindGroupLayoutEntry {
                    binding: self.index,
                    visibility: ShaderStages { vertex: true, fragment: false, compute: false },
                    ty,
                    count: None,
                }),
            ),
            r.index == self.index + 1,
    {
        self.push_entry(ShaderStages::vertex(), ty)
    }

    /// Append an entry visible to every stage at the next free slot.
    pub fn push_entry_all(self, ty: BindingType) -> (r: Self)
        requires
            self.index < u32::MAX,
        ensures
            r.entries@ == self.entries@.push(
                (BindGroupLayoutEntry {
                    binding: self.index,
                    visibility: ShaderStages { vertex: true, fragment: true, compute: true },
                    ty,
                    count: None,
                }),
            ),
            r.index == self.index + 1,
    {
        self.push_entry(ShaderStages::all(), ty)
    }

    /// Finish the layout, keeping the entries in push order.
    pub fn create(self, label: Option<String>) -> (r: BindGroupLayoutWithDesc)
        ensures
            r.entries@ == self.entries@,
            r.label == label,
    {
        BindGroupLayoutWithDesc { label, entries: self.entries }
    }
}

/// The entries of a bind group layout holding a single uniform buffer at
/// slot 0, visible to every stage.
pub open spec fn uniform_layout_entries() -> Seq<BindGroupLayoutEntry> {
    seq![
        BindGroupLayoutEntry {
            binding: 0,
            visibility: ShaderStages { vertex: true, fragment: true, compute: true },
            ty: BindingType::Buffer {
                ty: BufferBindingType::Uniform,
                has_dynamic_offset: false,
                min_binding_size: None,
            },
            count: None,
        },
    ]
}

/// The bind group layout of a single uniform buffer binding, as a
/// uniform bind group is laid out.
pub fn uniform_bind_group_layout(label: Option<String>) -> (r: BindGroupLayoutWithDesc)
    ensures
        r.label == label,
        r.entries@ == uniform_layout_entries(),
{
    let r = BindGroupLayoutBuilder::new().push_entry_all(
        BindingType::Buffer {
            ty: BufferBindingType::Uniform,
            has_dynamic_offset: false,
            min_binding_size: None,
        },
    ).create(label);
    proof {
        assert(r.entries@ =~= uniform_layout_entries());
    }
    r
}

/// A resource bound into one slot of a bind group. The handle type `R` is
/// chosen by the caller and carried through untouched.
pub enum BindingResource<R> {
    Sampler(R),
    TextureView(R),
    Buffer(R),
}

/// One slot of a bind group: a binding index and the resource bound there.
pub struct BindGroupEntry<R> {
    pub binding: u32,
    pub resource: BindingResource<R>,
}

/// A finished bind group: one resource per slot of its layout, in the
/// layout's order.
pub struct BindGroupDesc<R> {
    pub entries: Vec<BindGroupEntry<R>>,
}

/// Pairs resources with the slots of a bind group layout, in order: the
/// n-th resource pushed is bound at the layout's n-th entry.
pub struct BindGroupBuilder<'l, R> {
    pub layout_with_desc: &'l BindGroupLayoutWithDesc,
    pub entries: Vec<BindGroupEntry<R>>,
}

impl<'l, R> BindGroupBuilder<'l, R> {
    /// A builder for a bind group over the given layout, with no resource
    /// bound yet.
    pub fn new(layout_with_desc: &'l BindGroupLayoutWithDesc) -> (r: Self)
        ensures
            r.layout_with_desc == layout_with_desc,
            r.entries@ == Seq::<BindGroupEntry<R>>::empty(),
    {
        BindGroupBuilder { layout_with_desc, entries: Vec::new() }
    }

    /// Bind a resource at the next unfilled slot of the layout.
    pub fn resource(self, resource: BindingResource<R>) -> (r: Self)
        requires
            self.entries@.len() < self.layout_with_desc.entries@.len(),
        ensures
            r.layout_with_desc == self.layout_with_desc,
            r.entries@ == self.entries@.push(
                (BindGroupEntry {
                    binding: self.layout_with_desc.entries@[self.entries@.len() as int].binding,
                    resource,
                }),
            ),
    {
        let binding: u32 = self.layout_with_desc.entries[self.entries.len()].binding;
        let mut entries = self.entries;
        entries.push(BindGroupEntry { binding, resource });
        BindGroupBuilder { layout_with_desc: self.layout_with_desc, entries }
    }

    /// Bind a sampler at the next unfilled slot.
    pub fn sampler(self, sampler: R) -> (r: Self)
        requires
            self.entries@.len() < self.layout_with_desc.entries@.len(),
        ensures
            r.layout_with_desc == self.layout_with_desc,
            r.entries@ == self.entries@.push(
                (BindGroupEntry {
                    binding: self.layout_with_desc.entries@[self.entries@.len() as int].binding,
                    resource: BindingResource::Sampler(sampler),
                }),
            ),
    {
        self.resource(BindingResource::Sampler(sampler))
    }

    /// Bind a texture view at the next unfilled slot.
    pub fn texture(self, texture_view: R) -> (r: Self)
        requires
            self.entries@.len() < self.layout_with_desc.entries@.len(),
        ensures
            r.layout_with_desc == self.layout_with_desc,
            r.entries@ == self.entries@.push(
                (BindGroupEntry {
                    binding: self.layout_with_desc.entries@[self.entries@.len() as int].binding,
                    resource: BindingResource::TextureView(texture_view),
                }),
            ),
    {
        self.resource(BindingResource::TextureView(texture_view))
    }

    /// Finish the bind group. Every slot of the layout must be filled.
    pub fn create(self) -> (r: BindGroupDesc<R>)
        requires
            self.entries@.len() == self.layout_with_desc.entries@.len(),
        ensures
            r.entries@ == self.entries@,
    {
        BindGroupDesc { entries: self.entries }
    }
}

} // verus!
