use wgpu_utils::binding::{
    BindGroupBuilder, BindGroupLayoutBuilder, BindGroupLayoutEntry, BindingResource, BindingType,
    BufferBindingType, SamplerBindingType, StorageTextureAccess, TextureFormat, TextureSampleType,
    TextureViewDimension, uniform_bind_group_layout,
};
use wgpu_utils::{glsl, wgsl, ShaderStages};

#[test]
fn shader_stage_masks() {
    assert_eq!(
        ShaderStages::none(),
        ShaderStages { vertex: false, fragment: false, compute: false }
    );
    assert_eq!(
        ShaderStages::vertex(),
        ShaderStages { vertex: true, fragment: false, compute: false }
    );
    assert_eq!(
        ShaderStages::fragment(),
        ShaderStages { vertex: false, fragment: true, compute: false }
    );
    assert_eq!(
        ShaderStages::compute(),
        ShaderStages { vertex: false, fragment: false, compute: true }
    );
    assert_eq!(ShaderStages::all(), ShaderStages { vertex: true, fragment: true, compute: true });
}

#[test]
fn layout_builder_assigns_slots_in_order() {
    let layout = BindGroupLayoutBuilder::new()
        .push_entry_vertex(wgsl::uniform())
        .push_entry_fragment(wgsl::texture_2d())
        .push_entry_compute(glsl::buffer(true))
        .push_entry_all(wgsl::sampler())
        .create(None);
    assert_eq!(layout.entries.len(), 4);
    assert_eq!(layout.entries[0].binding, 0);
    assert_eq!(layout.entries[1].binding, 1);
    assert_eq!(layout.entries[2].binding, 2);
    assert_eq!(layout.entries[3].binding, 3);
    assert_eq!(layout.entries[0].visibility, ShaderStages::vertex());
    assert_eq!(layout.entries[1].visibility, ShaderStages::fragment());
    assert_eq!(layout.entries[2].visibility, ShaderStages::compute());
    assert_eq!(layout.entries[3].visibility, ShaderStages::all());
    assert_eq!(layout.entries[0].count, None);
    assert_eq!(layout.label, None);
}

#[test]
fn layout_builder_explicit_entry_moves_next_slot() {
    let layout = BindGroupLayoutBuilder::new()
        .entry(BindGroupLayoutEntry {
            binding: 5,
            visibility: ShaderStages::fragment(),
            ty: wgsl::uniform(),
            count: None,
        })
        .push_entry_all(wgsl::sampler())
        .create(Some(String::from("after five")));
    assert_eq!(layout.entries[0].binding, 5);
    assert_eq!(layout.entries[1].binding, 6);
    assert_eq!(layout.label.as_deref(), Some("after five"));
}

#[test]
fn bind_group_builder_pairs_resources_with_layout_slots() {
    let layout = BindGroupLayoutBuilder::new()
        .entry(BindGroupLayoutEntry {
            binding: 2,
            visibility: ShaderStages::all(),
            ty: wgsl::texture_2d(),
            count: None,
        })
        .push_entry_all(wgsl::sampler())
        .create(None);
    // Resource handles stand in for GPU objects; any type will do.
    let group = BindGroupBuilder::new(&layout)
        .texture("the view")
        .sampler("the sampler")
        .create();
    assert_eq!(group.entries.len(), 2);
    assert_eq!(group.entries[0].binding, 2);
    assert_eq!(group.entries[1].binding, 3);
    assert!(matches!(group.entries[0].resource, BindingResource::TextureView("the view")));
    assert!(matches!(group.entries[1].resource, BindingResource::Sampler("the sampler")));
}

#[test]
fn bind_group_builder_generic_resource() {
    let layout = BindGroupLayoutBuilder::new().push_entry_all(glsl::buffer(false)).create(None);
    let group = BindGroupBuilder::new(&layout).resource(BindingResource::Buffer(7u64)).create();
    assert_eq!(group.entries[0].binding, 0);
    assert!(matches!(group.entries[0].resource, BindingResource::Buffer(7)));
}

#[test]
fn uniform_layout_single_slot() {
    let layout = uniform_bind_group_layout(None);
    assert_eq!(layout.entries.len(), 1);
    assert_eq!(
        layout.entries[0],
        BindGroupLayoutEntry {
            binding: 0,
            visibility: ShaderStages::all(),
            ty: BindingType::Buffer {
                ty: BufferBindingType::Uniform,
                has_dynamic_offset: false,
                min_binding_size: None,
            },
            count: None,
        }
    );
}

#[test]
fn glsl_binding_types() {
    assert_eq!(
        glsl::buffer(true),
        BindingType::Buffer {
            ty: BufferBindingType::Storage { read_only: true },
            has_dynamic_offset: false,
            min_binding_size: None,
        }
    );
    assert_eq!(
        glsl::uniform(),
        BindingType::Buffer {
            ty: BufferBindingType::Uniform,
            has_dynamic_offset: false,
            min_binding_size: None,
        }
    );
    // The sampler is filtering whatever is asked for.
    assert_eq!(glsl::sampler(false), BindingType::Sampler(SamplerBindingType::Filtering));
    assert_eq!(glsl::sampler(true), BindingType::Sampler(SamplerBindingType::Filtering));
    assert_eq!(
        glsl::texture2D(),
        BindingType::Texture {
            sample_type: TextureSampleType::Float { filterable: true },
            view_dimension: TextureViewDimension::D2,
            multisampled: false,
        }
    );
    assert_eq!(
        glsl::itexture2D(),
        BindingType::Texture {
            sample_type: TextureSampleType::Sint,
            view_dimension: TextureViewDimension::D2,
            multisampled: false,
        }
    );
    assert_eq!(
        glsl::utexture3D(),
        BindingType::Texture {
            sample_type: TextureSampleType::Uint,
            view_dimension: TextureViewDimension::D3,
            multisampled: false,
        }
    );
    assert_eq!(
        glsl::textureCube(),
        BindingType::Texture {
            sample_type: TextureSampleType::Float { filterable: true },
            view_dimension: TextureViewDimension::Cube,
            multisampled: false,
        }
    );
}

#[test]
fn glsl_storage_image_types() {
    assert_eq!(
        glsl::image2D(TextureFormat::Rgba32Float, StorageTextureAccess::ReadWrite),
        BindingType::StorageTexture {
            access: StorageTextureAccess::ReadWrite,
            view_dimension: TextureViewDimension::D2,
            format: TextureFormat::Rgba32Float,
        }
    );
    assert_eq!(
        glsl::image2DArray(TextureFormat::Rgba8Unorm, StorageTextureAccess::ReadOnly),
        BindingType::StorageTexture {
            access: StorageTextureAccess::ReadOnly,
            view_dimension: TextureViewDimension::D2Array,
            format: TextureFormat::Rgba8Unorm,
        }
    );
    assert_eq!(
        glsl::image3D(TextureFormat::Rgba8Unorm, StorageTextureAccess::WriteOnly),
        BindingType::StorageTexture {
            access: StorageTextureAccess::WriteOnly,
            view_dimension: TextureViewDimension::D3,
            format: TextureFormat::Rgba8Unorm,
        }
    );
}

#[test]
fn wgsl_binding_types() {
    assert_eq!(wgsl::uniform(), glsl::uniform());
    assert_eq!(wgsl::sampler(), BindingType::Sampler(SamplerBindingType::Filtering));
    assert_eq!(wgsl::texture_2d(), glsl::texture2D());
    assert_eq!(
        glsl::texture2DArray(),
        BindingType::Texture {
            sample_type: TextureSampleType::Float { filterable: true },
            view_dimension: TextureViewDimension::D2Array,
            multisampled: false,
        }
    );
    assert_eq!(
        glsl::texture3D(),
        BindingType::Texture {
            sample_type: TextureSampleType::Float { filterable: true },
            view_dimension: TextureViewDimension::D3,
            multisampled: false,
        }
    );
    assert_eq!(
        glsl::utexture2D(),
        BindingType::Texture {
            sample_type: TextureSampleType::Uint,
            view_dimension: TextureViewDimension::D2,
            multisampled: false,
        }
    );
    assert_eq!(
        glsl::itexture3D(),
        BindingType::Texture {
            sample_type: TextureSampleType::Sint,
            view_dimension: TextureViewDimension::D3,
            multisampled: false,
        }
    );
}
