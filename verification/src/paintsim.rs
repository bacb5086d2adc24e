//! The pass schedule of the paint simulation.
//!
//! One simulation step renders the three state textures into temporaries,
//! blurs the velocity texture vertically and horizontally through a
//! ping-pong with its temporary, and copies every temporary back. The
//! schedule is returned as plain data for the caller to replay against
//! the graphics API, and the contracts pin down the exact sequence of
//! passes and copies.

use vstd::prelude::*;
use crate::binding::{uniform_bind_group_layout, uniform_layout_entries, BindGroupLayoutEntry,
    BindGroupLayoutWithDesc, TextureFormat};
use crate::texture::{black_texture_plan, sampling_layout_entries, Texture, TexturePlan};

verus! {

/// The textures the simulation works on: velocity/pressure/fluidity,
/// base-layer color and floating particulate, each with a temporary, and
/// the source image.
#[derive(Clone, Copy, Debug, PartialEq, Eq, Structural)]
pub enum TexSlot {
    Vpf,
    VpfTmp,
    Color,
    ColorTmp,
    Float,
    FloatTmp,
    Src,
}

/// The render pipelines of the simulation.
#[derive(Clone, Copy, Debug, PartialEq, Eq, Structural)]
pub enum PipelineSlot {
    Paint,
    BlurWv,
    BlurWh,
    SrcToColor,
}

/// What a render pass binds at one bind group slot.
#[derive(Clone, Copy, Debug, PartialEq, Eq, Structural)]
pub enum BindSlot {
    GlobalUniform,
    Tex(TexSlot),
}

/// One operation of the schedule: a render pass that clears its targets
/// and draws the full-screen quad, or a whole-texture copy.
#[derive(Debug, PartialEq, Eq)]
pub enum SimOp {
    RenderPass { targets: Vec<TexSlot>, pipeline: PipelineSlot, bind_groups: Vec<BindSlot> },
    CopyTexture { src: TexSlot, dst: TexSlot },
}

/// Whether `op` is the render pass that clears `targets`, runs
/// `pipeline` and binds `bind_groups` in slot order.
pub open spec fn is_render_pass(
    op: SimOp,
    pipeline: PipelineSlot,
    targets: Seq<TexSlot>,
    bind_groups: Seq<BindSlot>,
) -> bool {
    match op {
        SimOp::RenderPass { targets: t, pipeline: p, bind_groups: b } => {
            &&& p == pipeline
            &&& t@ == targets
            &&& b@ == bind_groups
        },
        _ => false,
    }
}

/// Whether each layout in `ls` has the entries of the matching shape in
/// `shapes`, in order.
pub open spec fn layouts_shaped(
    ls: Seq<BindGroupLayoutWithDesc>,
    shapes: Seq<Seq<BindGroupLayoutEntry>>,
) -> bool {
    &&& ls.len() == shapes.len()
    &&& forall|i: int| 0 <= i < ls.len() ==> ls[i].entries@ == shapes[i]
}

/// Everything the simulation constructor decides: the six black state
/// textures and the pipeline layouts of the four pipelines.
pub struct SimSetup {
    pub tex_vpf: TexturePlan,
    pub tex_vpf_tmp: TexturePlan,
    pub tex_color: TexturePlan,
    pub tex_color_tmp: TexturePlan,
    pub tex_float: TexturePlan,
    pub tex_float_tmp: TexturePlan,
    pub paint_pipeline_layout: Vec<BindGroupLayoutWithDesc>,
    pub blurwv_pipeline_layout: Vec<BindGroupLayoutWithDesc>,
    pub blurwh_pipeline_layout: Vec<BindGroupLayoutWithDesc>,
    pub src_to_color_pipeline_layout: Vec<BindGroupLayoutWithDesc>,
}

/// The paint simulation's own state: the texel size it runs at and how
/// many steps have been scheduled.
pub struct PaintSim {
    pub size: (u32, u32),
    pub sc: usize,
}

/// The pipeline layout of the simulation pass: the global uniform, then
/// the three sampled state textures.
pub open spec fn paint_layout_shapes() -> Seq<Seq<BindGroupLayoutEntry>> {
    seq![
        uniform_layout_entries(),
        sampling_layout_entries(),
        sampling_layout_entries(),
        sampling_layout_entries(),
    ]
}

/// The pipeline layout of a blur pass: the global uniform, then the
/// sampled velocity texture.
pub open spec fn blur_layout_shapes() -> Seq<Seq<BindGroupLayoutEntry>> {
    seq![uniform_layout_entries(), sampling_layout_entries()]
}

/// The pipeline layout of the initialisation pass: the sampled source
/// texture alone.
pub open spec fn src_to_color_layout_shapes() -> Seq<Seq<BindGroupLayoutEntry>> {
    seq![sampling_layout_entries()]
}

fn texture_layout_list(n: usize, with_uniform: bool) -> (r: Vec<BindGroupLayoutWithDesc>)
    ensures
        r@.len() == n + if with_uniform {
            1int
        } else {
            0int
        },
        with_uniform ==> r@[0].entries@ == uniform_layout_entries(),
        forall|i: int|
            (if with_uniform {
                1int
            } else {
                0int
            }) <= i < r@.len() ==> r@[i].entries@ == sampling_layout_entries(),
{
    let mut r: Vec<BindGroupLayoutWithDesc> = Vec::new();
    if with_uniform {
        r.push(uniform_bind_group_layout(None));
    }
    let base: usize = r.len();
    let mut i: usize = 0;
    while i < n
        invariant
            base == if with_uniform {
                1int
            } else {
                0int
            },
            r@.len() == base + i,
            i <= n,
            with_uniform ==> r@[0].entries@ == uniform_layout_entries(),
            forall|j: int| base <= j < r@.len() ==> r@[j].entries@ == sampling_layout_entries(),
        decreases n - i,
    {
        r.push(Texture::create_bind_group_layout(None));
        i = i + 1;
    }
    r
}

impl PaintSim {
    /// Set up a simulation over a source image of the given size: six
    /// black velocity, color and particulate textures of that size, and
    /// the layouts of the simulation, blur and initialisation pipelines.
    /// The step counter starts at zero.
    pub fn new(src_size: (u32, u32)) -> (r: (PaintSim, SimSetup))
        requires
            src_size.0 * src_size.1 * 4 <= u32::MAX,
            4 * src_size.0 <= u32::MAX,
        ensures
            r.0.size == src_size,
            r.0.sc == 0,
            black_texture_plan(r.1.tex_vpf, None, src_size, TextureFormat::Rgba32Float),
            black_texture_plan(r.1.tex_vpf_tmp, None, src_size, TextureFormat::Rgba32Float),
            black_texture_plan(r.1.tex_color, None, src_size, TextureFormat::Rgba32Float),
            black_texture_plan(r.1.tex_color_tmp, None, src_size, TextureFormat::Rgba32Float),
            black_texture_plan(r.1.tex_float, None, src_size, TextureFormat::Rgba32Float),
            black_texture_plan(r.1.tex_float_tmp, None, src_size, TextureFormat::Rgba32Float),
            layouts_shaped(r.1.paint_pipeline_layout@, paint_layout_shapes()),
            layouts_shaped(r.1.blurwv_pipeline_layout@, blur_layout_shapes()),
            layouts_shaped(r.1.blurwh_pipeline_layout@, blur_layout_shapes()),
            layouts_shaped(r.1.src_to_color_pipeline_layout@, src_to_color_layout_shapes()),
    {
        let setup = SimSetup {
            tex_vpf: Texture::new_black(src_size, None, TextureFormat::Rgba32Float),
            tex_vpf_tmp: Texture::new_black(src_size, None, TextureFormat::Rgba32Float),
            tex_color: Texture::new_black(src_size, None, TextureFormat::Rgba32Float),
            tex_color_tmp: Texture::new_black(src_size, None, TextureFormat::Rgba32Float),
            tex_float: Texture::new_black(src_size, None, TextureFormat::Rgba32Float),
            tex_float_tmp: Texture::new_black(src_size, None, TextureFormat::Rgba32Float),
            paint_pipeline_layout: texture_layout_list(3, true),
            blurwv_pipeline_layout: texture_layout_list(1, true),
            blurwh_pipeline_layout: texture_layout_list(1, true),
            src_to_color_pipeline_layout: texture_layout_list(1, false),
        };
        (PaintSim { size: src_size, sc: 0 }, setup)
    }

    /// The pass that initialises the color texture from the source
    /// image: one clearing render of the source-to-color pipeline.
    pub fn prepare(&self) -> (ops: Vec<SimOp>)
        ensures
            ops@.len() == 1,
            is_render_pass(
                ops@[0],
                PipelineSlot::SrcToColor,
                seq![TexSlot::Color],
                seq![BindSlot::Tex(TexSlot::Src)],
            ),
    {
        let mut targets: Vec<TexSlot> = Vec::new();
        targets.push(TexSlot::Color);
        let mut bind_groups: Vec<BindSlot> = Vec::new();
        bind_groups.push(BindSlot::Tex(TexSlot::Src));
        proof {
            assert(targets@ =~= seq![TexSlot::Color]);
            assert(bind_groups@ =~= seq![BindSlot::Tex(TexSlot::Src)]);
        }
        let mut ops: Vec<SimOp> = Vec::new();
        ops.push(SimOp::RenderPass { targets, pipeline: PipelineSlot::SrcToColor, bind_groups });
        ops
    }

    /// Schedule one simulation step and count it.
    ///
    /// The step renders the simulation pass into the three temporaries,
    /// then twice ping-pongs the velocity texture through its temporary
    /// (copy back, blur vertically; copy back, blur horizontally), and
    /// finally copies all three temporaries back onto the state textures.
    pub fn step(&mut self) -> (ops: Vec<SimOp>)
        requires
            old(self).sc < usize::MAX,
        ensures
            final(self).size == old(self).size,
            final(self).sc == old(self).sc + 1,
            ops@.len() == 8,
            is_render_pass(
                ops@[0],
                PipelineSlot::Paint,
                seq![TexSlot::VpfTmp, TexSlot::ColorTmp, TexSlot::FloatTmp],
                seq![
                    BindSlot::GlobalUniform,
                    BindSlot::Tex(TexSlot::Vpf),
                    BindSlot::Tex(TexSlot::Color),
                    BindSlot::Tex(TexSlot::Float),
                ],
            ),
            ops@[1] == (SimOp::CopyTexture { src: TexSlot::VpfTmp, dst: TexSlot::Vpf }),
            is_render_pass(
                ops@[2],
                PipelineSlot::BlurWv,
                seq![TexSlot::VpfTmp],
                seq![BindSlot::GlobalUniform, BindSlot::Tex(TexSlot::Vpf)],
            ),
            ops@[3] == (SimOp::CopyTexture { src: TexSlot::VpfTmp, dst: TexSlot::Vpf }),
            is_render_pass(
                ops@[4],
                PipelineSlot::BlurWh,
                seq![TexSlot::VpfTmp],
                seq![BindSlot::GlobalUniform, BindSlot::Tex(TexSlot::Vpf)],
            ),
            ops@[5] == (SimOp::CopyTexture { src: TexSlot::VpfTmp, dst: TexSlot::Vpf }),
            ops@[6] == (SimOp::CopyTexture { src: TexSlot::ColorTmp, dst: TexSlot::Color }),
            ops@[7] == (SimOp::CopyTexture { src: TexSlot::FloatTmp, dst: TexSlot::Float }),
    {
        let mut ops: Vec<SimOp> = Vec::new();

        // Simulation pass into the three temporaries.
        let mut targets: Vec<TexSlot> = Vec::new();
        targets.push(TexSlot::VpfTmp);
        targets.push(TexSlot::ColorTmp);
        targets.push(TexSlot::FloatTmp);
        let mut bind_groups: Vec<BindSlot> = Vec::new();
        bind_groups.push(BindSlot::GlobalUniform);
        bind_groups.push(BindSlot::Tex(TexSlot::Vpf));
        bind_groups.push(BindSlot::Tex(TexSlot::Color));
        bind_groups.push(BindSlot::Tex(TexSlot::Float));
        proof {
            assert(targets@ =~= seq![TexSlot::VpfTmp, TexSlot::ColorTmp, TexSlot::FloatTmp]);
            assert(bind_groups@ =~= seq![
                BindSlot::GlobalUniform,
                BindSlot::Tex(TexSlot::Vpf),
                BindSlot::Tex(TexSlot::Color),
                BindSlot::Tex(TexSlot::Float),
            ]);
        }
        ops.push(SimOp::RenderPass { targets, pipeline: PipelineSlot::Paint, bind_groups });

        // Blur vertically: copy the temporary back, then blur into it.
        ops.push(SimOp::CopyTexture { src: TexSlot::VpfTmp, dst: TexSlot::Vpf });
        let mut targets: Vec<TexSlot> = Vec::new();
        targets.push(TexSlot::VpfTmp);
        let mut bind_groups: Vec<BindSlot> = Vec::new();
        bind_groups.push(BindSlot::GlobalUniform);
        bind_groups.push(BindSlot::Tex(TexSlot::Vpf));
        proof {
            assert(targets@ =~= seq![TexSlot::VpfTmp]);
            assert(bind_groups@ =~= seq![BindSlot::GlobalUniform, BindSlot::Tex(TexSlot::Vpf)]);
        }
        ops.push(SimOp::RenderPass { targets, pipeline: PipelineSlot::BlurWv, bind_groups });

        // Blur horizontally, with the same ping-pong.
        ops.push(SimOp::CopyTexture { src: TexSlot::VpfTmp, dst: TexSlot::Vpf });
        let mut targets: Vec<TexSlot> = Vec::new();
        targets.push(TexSlot::VpfTmp);
        let mut bind_groups: Vec<BindSlot> = Vec::new();
        bind_groups.push(BindSlot::GlobalUniform);
        bind_groups.push(BindSlot::Tex(TexSlot::Vpf));
        proof {
            assert(targets@ =~= seq![TexSlot::VpfTmp]);
            assert(bind_groups@ =~= seq![BindSlot::GlobalUniform, BindSlot::Tex(TexSlot::Vpf)]);
        }
        ops.push(SimOp::RenderPass { targets, pipeline: PipelineSlot::BlurWh, bind_groups });

        // Copy every temporary back onto its state texture.
        ops.push(SimOp::CopyTexture { src: TexSlot::VpfTmp, dst: TexSlot::Vpf });
        ops.push(SimOp::CopyTexture { src: TexSlot::ColorTmp, dst: TexSlot::Color });
        ops.push(SimOp::CopyTexture { src: TexSlot::FloatTmp, dst: TexSlot::Float });

        self.sc = self.sc + 1;
        ops
    }
}

/// The layout the paint pipelines share, named as the render-data layout
/// of the simulation: the global uniform bind group, then three sampled
/// texture bind groups.
pub struct PaintRenderDataLayout {}

impl PaintRenderDataLayout {
    /// The pipeline layout the render data binds to: the global uniform,
    /// then three sampled textures.
    pub fn create_pipeline_layout() -> (r: Vec<BindGroupLayoutWithDesc>)
        ensures
            layouts_shaped(r@, paint_layout_shapes()),
    {
        texture_layout_list(3, true)
    }
}

} // verus!
