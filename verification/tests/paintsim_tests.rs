use wgpu_utils::binding::TextureFormat;
use wgpu_utils::paintsim::{
    BindSlot, PaintRenderDataLayout, PaintSim, PipelineSlot, SimOp, TexSlot,
};

fn expect_pass(op: &SimOp, pipeline: PipelineSlot, targets: &[TexSlot], binds: &[BindSlot]) {
    match op {
        SimOp::RenderPass { targets: t, pipeline: p, bind_groups: b } => {
            assert_eq!(*p, pipeline);
            assert_eq!(t.as_slice(), targets);
            assert_eq!(b.as_slice(), binds);
        }
        other => panic!("expected a render pass, got {:?}", other),
    }
}

#[test]
fn sim_setup_creates_six_black_state_textures() {
    let (sim, setup) = PaintSim::new((320, 200));
    assert_eq!(sim.size, (320, 200));
    assert_eq!(sim.sc, 0);
    for plan in [
        &setup.tex_vpf,
        &setup.tex_vpf_tmp,
        &setup.tex_color,
        &setup.tex_color_tmp,
        &setup.tex_float,
        &setup.tex_float_tmp,
    ] {
        assert_eq!(plan.texture.format, TextureFormat::Rgba32Float);
        assert_eq!(plan.texture.size, (320, 200));
        assert_eq!(plan.data.len(), 320 * 200 * 4);
        assert!(plan.data.iter().all(|&b| b == 0));
    }
}

#[test]
fn sim_setup_pipeline_layouts() {
    let (_, setup) = PaintSim::new((8, 8));
    assert_eq!(setup.paint_pipeline_layout.len(), 4);
    assert_eq!(setup.paint_pipeline_layout[0].entries.len(), 1);
    for i in 1..4 {
        assert_eq!(setup.paint_pipeline_layout[i].entries.len(), 2);
    }
    assert_eq!(setup.blurwv_pipeline_layout.len(), 2);
    assert_eq!(setup.blurwh_pipeline_layout.len(), 2);
    assert_eq!(setup.src_to_color_pipeline_layout.len(), 1);
    assert_eq!(setup.src_to_color_pipeline_layout[0].entries.len(), 2);
}

#[test]
fn prepare_renders_source_into_color() {
    let (sim, _) = PaintSim::new((4, 4));
    let ops = sim.prepare();
    assert_eq!(ops.len(), 1);
    expect_pass(
        &ops[0],
        PipelineSlot::SrcToColor,
        &[TexSlot::Color],
        &[BindSlot::Tex(TexSlot::Src)],
    );
}

#[test]
fn step_schedules_sim_blurs_and_copy_backs() {
    let (mut sim, _) = PaintSim::new((4, 4));
    let ops = sim.step();
    assert_eq!(ops.len(), 8);
    expect_pass(
        &ops[0],
        PipelineSlot::Paint,
        &[TexSlot::VpfTmp, TexSlot::ColorTmp, TexSlot::FloatTmp],
        &[
            BindSlot::GlobalUniform,
            BindSlot::Tex(TexSlot::Vpf),
            BindSlot::Tex(TexSlot::Color),
            BindSlot::Tex(TexSlot::Float),
        ],
    );
    assert_eq!(ops[1], SimOp::CopyTexture { src: TexSlot::VpfTmp, dst: TexSlot::Vpf });
    expect_pass(
        &ops[2],
        PipelineSlot::BlurWv,
        &[TexSlot::VpfTmp],
        &[BindSlot::GlobalUniform, BindSlot::Tex(TexSlot::Vpf)],
    );
    assert_eq!(ops[3], SimOp::CopyTexture { src: TexSlot::VpfTmp, dst: TexSlot::Vpf });
    expect_pass(
        &ops[4],
        PipelineSlot::BlurWh,
        &[TexSlot::VpfTmp],
        &[BindSlot::GlobalUniform, BindSlot::Tex(TexSlot::Vpf)],
    );
    assert_eq!(ops[5], SimOp::CopyTexture { src: TexSlot::VpfTmp, dst: TexSlot::Vpf });
    assert_eq!(ops[6], SimOp::CopyTexture { src: TexSlot::ColorTmp, dst: TexSlot::Color });
    assert_eq!(ops[7], SimOp::CopyTexture { src: TexSlot::FloatTmp, dst: TexSlot::Float });
}

#[test]
fn step_counts_scheduled_steps() {
    let (mut sim, _) = PaintSim::new((4, 4));
    assert_eq!(sim.sc, 0);
    let _ = sim.step();
    assert_eq!(sim.sc, 1);
    let second = sim.step();
    assert_eq!(sim.sc, 2);
    // Every step emits the same schedule.
    assert_eq!(second.len(), 8);
    assert_eq!(sim.size, (4, 4));
}

#[test]
fn render_data_layout_matches_paint_pipeline() {
    let layout = PaintRenderDataLayout::create_pipeline_layout();
    let (_, setup) = PaintSim::new((4, 4));
    assert_eq!(layout.len(), setup.paint_pipeline_layout.len());
    for (a, b) in layout.iter().zip(setup.paint_pipeline_layout.iter()) {
        assert_eq!(a.entries, b.entries);
    }
}
