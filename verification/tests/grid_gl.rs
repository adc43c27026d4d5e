use alacritree::gl_build::{
    shader_header, Build, BuildEvent, BuildStep, GpuGrid, LinkStep, Linking, Paint, ProgramName,
    ShaderKind, ShaderVersion, Stand,
};
use alacritree::gl_frame::{draw, Arm, Extras, FrameInputs, FrameStep, GlyphProgram, Stage};
use alacritree::grid_gl::{pad_slots, Ab, GridState, RecordUpload, Timing, SLOTS_PER_ROW};
use alacritree::grid_instances::{Face, GlyphSlot};

const BLACK: [u8; 4] = [0, 0, 0, 255];

/// A resize moves every record, so nothing the GPU holds is still valid.
#[test]
fn a_resize_dirties_every_row() {
    let mut state = GridState::default();
    state.instances.resize(4, 3, BLACK);

    state.mark_all_dirty();

    assert_eq!(state.dirty_rows, 0..3);
}

/// Two damaged spans in one frame upload as one range.
#[test]
fn two_damaged_spans_merge_into_one_upload() {
    let mut state = GridState::default();
    state.instances.resize(4, 10, BLACK);

    state.mark_rows_dirty(2..3);
    state.mark_rows_dirty(7..9);

    assert_eq!(state.dirty_rows, 2..9);
}

#[test]
fn an_untouched_frame_uploads_nothing() {
    let state = GridState::default();

    assert!(state.dirty_rows.is_empty());
}

/// The shader reads slot `i` at `(i % SLOTS_PER_ROW, i / SLOTS_PER_ROW)`,
/// which only finds it if the padding leaves every slot at its own index.
#[test]
fn padding_leaves_each_slot_at_its_own_index() {
    let marked =
        |n: usize| GlyphSlot { size: [(n as f32).to_bits(), 0.0f32.to_bits()], ..GlyphSlot::default() };
    let slots: Vec<GlyphSlot> = (0..SLOTS_PER_ROW + 44).map(marked).collect();
    let mut padded = Vec::new();

    let rows = pad_slots(&slots, &mut padded);

    assert_eq!(rows, 2);
    assert_eq!(padded.len(), 2 * SLOTS_PER_ROW, "a row was left short of texels");
    assert_eq!(padded[SLOTS_PER_ROW + 43], marked(SLOTS_PER_ROW + 43));
    assert_eq!(padded[SLOTS_PER_ROW + 44], GlyphSlot::default(), "the tail carries data");
}

#[test]
fn laying_glyphs_out_can_grow_the_atlas_mid_frame() {
    let ctx = egui::Context::default();
    let _ = ctx.run(egui::RawInput::default(), |_| {});
    let before = ctx.fonts(|f| f.font_image_size());

    for ch in ('\u{20}'..='\u{4ff}').filter(|c| !c.is_control()) {
        let mut job = egui::text::LayoutJob::single_section(
            ch.to_string(),
            egui::TextFormat::simple(egui::FontId::monospace(72.0), egui::Color32::WHITE),
        );
        job.wrap.max_width = f32::INFINITY;
        let _ = ctx.fonts(|f| f.layout_job(job));
    }

    assert_ne!(before, ctx.fonts(|f| f.font_image_size()));
}

#[test]
fn a_frame_that_rewrote_two_rows_sends_two_rows() {
    let mut state = GridState::default();
    state.instances.resize(4, 10, BLACK);
    let first = state.upload(0);
    assert!(matches!(first.records, RecordUpload::Whole));
    assert_eq!(first.capacity, 480);
    assert_eq!(first.slot_rows, None);

    state.mark_rows_dirty(3..5);
    let second = state.upload(first.capacity);
    assert!(matches!(second.records, RecordUpload::Bytes(span) if span == (144..240)));
    assert_eq!(second.capacity, 480);

    let third = state.upload(second.capacity);
    assert!(matches!(third.records, RecordUpload::Nothing));
}

#[test]
fn a_smaller_grid_is_sent_into_the_buffer_there_is() {
    let mut state = GridState::default();
    state.instances.resize(4, 10, BLACK);
    let capacity = state.upload(0).capacity;
    state.instances.resize(4, 2, BLACK);
    let upload = state.upload(capacity);
    assert!(matches!(upload.records, RecordUpload::Bytes(span) if span == (0..96)));
    assert_eq!(upload.capacity, 480);
}

#[test]
fn a_table_that_grew_is_sent_once() {
    let mut state = GridState::default();
    let (instances, table) = state.buffers();
    instances.resize(1, 1, BLACK);
    table.slot('a', Face::Normal, 1, || Some(GlyphSlot::default()));
    assert_eq!(state.upload(0).slot_rows, Some(1));
    assert_eq!(state.upload(12).slot_rows, None);
}

fn no_arm() -> Arm {
    Arm {
        lifts_clear_scissor: false,
        draws_clear_quad: false,
        skips_clear: false,
        forces_backgrounds: false,
        skips_background_blend: false,
        forces_glyph_gamma: false,
        discards_blank_coverage: false,
        forces_decorations: false,
    }
}

fn plain() -> FrameInputs {
    FrameInputs {
        cols: 4,
        rows: 3,
        arm: None,
        extras: Extras { glyph_gamma: false, glyph_discard: false, clear_quad: false },
        atlas: true,
        strip: true,
        decorated: true,
    }
}

#[test]
fn a_plain_frame_draws_three_passes_lines_last() {
    assert_eq!(
        draw(&plain()),
        vec![
            FrameStep::Clear,
            FrameStep::Upload,
            FrameStep::BindRecords,
            FrameStep::Backgrounds { all: false },
            FrameStep::Glyphs(GlyphProgram::Plain),
            FrameStep::Decorations,
            FrameStep::Unbind,
        ]
    );
}

#[test]
fn an_empty_grid_draws_nothing() {
    assert_eq!(draw(&FrameInputs { cols: 0, ..plain() }), vec![]);
    assert_eq!(draw(&FrameInputs { rows: 0, ..plain() }), vec![]);
}

#[test]
fn an_undecorated_screen_draws_no_lines() {
    let steps = draw(&FrameInputs { decorated: false, ..plain() });
    assert!(!steps.contains(&FrameStep::Decorations));
    let forced = Arm { forces_decorations: true, ..no_arm() };
    let steps = draw(&FrameInputs { decorated: false, arm: Some(forced), ..plain() });
    assert!(steps.contains(&FrameStep::Decorations));
    let steps = draw(&FrameInputs { strip: false, arm: Some(forced), ..plain() });
    assert!(steps.contains(&FrameStep::SkippedDecorations));
}

#[test]
fn a_timed_frame_restores_what_an_arm_switches() {
    let arm = Arm {
        lifts_clear_scissor: true,
        draws_clear_quad: true,
        skips_background_blend: true,
        forces_backgrounds: true,
        forces_glyph_gamma: true,
        ..no_arm()
    };
    let extras = Extras { glyph_gamma: true, glyph_discard: false, clear_quad: true };
    let steps = draw(&FrameInputs { arm: Some(arm), extras, decorated: false, ..plain() });
    assert_eq!(
        steps,
        vec![
            FrameStep::BeginFrame,
            FrameStep::Begin(Stage::Clear),
            FrameStep::LiftScissor,
            FrameStep::ClearQuad,
            FrameStep::RestoreScissor,
            FrameStep::End,
            FrameStep::Begin(Stage::Upload),
            FrameStep::Upload,
            FrameStep::End,
            FrameStep::BindRecords,
            FrameStep::Begin(Stage::Backgrounds),
            FrameStep::DisableBlend,
            FrameStep::Backgrounds { all: true },
            FrameStep::EnableBlend,
            FrameStep::End,
            FrameStep::Begin(Stage::Glyphs),
            FrameStep::Glyphs(GlyphProgram::Gamma),
            FrameStep::End,
            FrameStep::SkippedDecorations,
            FrameStep::Unbind,
            FrameStep::EndFrame,
        ]
    );
}

#[test]
fn an_arm_without_its_program_draws_the_plain_way() {
    let arm = Arm { forces_glyph_gamma: true, draws_clear_quad: true, ..no_arm() };
    let steps = draw(&FrameInputs { arm: Some(arm), ..plain() });
    assert!(steps.contains(&FrameStep::Glyphs(GlyphProgram::Plain)));
    assert!(steps.contains(&FrameStep::Clear));
    let arm = Arm { skips_clear: true, discards_blank_coverage: true, ..no_arm() };
    let extras = Extras { glyph_gamma: false, glyph_discard: true, clear_quad: false };
    let steps = draw(&FrameInputs { arm: Some(arm), extras, ..plain() });
    assert!(!steps.contains(&FrameStep::Clear));
    assert!(steps.contains(&FrameStep::Glyphs(GlyphProgram::Discard)));
}

#[test]
fn an_old_dialect_has_no_instanced_arrays() {
    assert_eq!(shader_header(ShaderVersion::Gl140), Ok("#version 140\n"));
    assert_eq!(
        shader_header(ShaderVersion::Es300),
        Ok("#version 300 es\nprecision highp float;\n")
    );
    assert_eq!(
        shader_header(ShaderVersion::Gl120),
        Err("Gl120 has no instanced arrays".to_string())
    );
    assert_eq!(
        shader_header(ShaderVersion::Es100),
        Err("Es100 has no instanced arrays".to_string())
    );
}

#[test]
fn a_linked_program_leaves_no_shader() {
    let (mut linking, step) = Linking::start();
    assert_eq!(step, LinkStep::CreateProgram);
    assert_eq!(
        linking.next(true),
        vec![LinkStep::BindAttributes, LinkStep::CreateShader(ShaderKind::Vertex)]
    );
    assert_eq!(linking.next(true), vec![LinkStep::Compile(ShaderKind::Vertex)]);
    assert_eq!(
        linking.next(true),
        vec![LinkStep::Attach(ShaderKind::Vertex), LinkStep::CreateShader(ShaderKind::Fragment)]
    );
    assert_eq!(linking.next(true), vec![LinkStep::Compile(ShaderKind::Fragment)]);
    assert_eq!(linking.next(true), vec![LinkStep::Attach(ShaderKind::Fragment), LinkStep::Link]);
    assert_eq!(
        linking.next(true),
        vec![
            LinkStep::Detach(ShaderKind::Vertex),
            LinkStep::DeleteShader(ShaderKind::Vertex),
            LinkStep::Detach(ShaderKind::Fragment),
            LinkStep::DeleteShader(ShaderKind::Fragment),
            LinkStep::ReadUniforms,
        ]
    );
    assert_eq!(linking, Linking::Done);
    assert_eq!(linking.next(false), vec![]);
}

#[test]
fn a_rejected_shader_gives_everything_back() {
    let (mut linking, _) = Linking::start();
    for _ in 0..4 {
        linking.next(true);
    }
    assert_eq!(
        linking.next(false),
        vec![
            LinkStep::DeleteShader(ShaderKind::Vertex),
            LinkStep::DeleteShader(ShaderKind::Fragment),
            LinkStep::DeleteProgram,
        ]
    );
    assert_eq!(linking, Linking::Failed);

    let (mut linking, _) = Linking::start();
    assert_eq!(linking.next(false), vec![]);
    assert_eq!(linking, Linking::Failed);
}

fn no_ab() -> Ab {
    Ab { glyph_gamma: false, glyph_discard: false, clear_quad: false }
}

#[test]
fn a_build_makes_the_programs_then_the_buffers() {
    let (mut build, step) = Build::start(Timing { enabled: false, ab: no_ab() });
    assert_eq!(step, BuildStep::Link(ProgramName::Glyph));
    assert_eq!(build.next(BuildEvent::Made), vec![BuildStep::Link(ProgramName::Background)]);
    assert_eq!(build.next(BuildEvent::Made), vec![BuildStep::Link(ProgramName::Decoration)]);
    assert_eq!(build.next(BuildEvent::Made), vec![BuildStep::CreateVertexArray]);
    assert_eq!(build.next(BuildEvent::Made), vec![BuildStep::CreateBuffer]);
    assert_eq!(build.next(BuildEvent::Made), vec![BuildStep::CreateTexture]);
    assert_eq!(build.next(BuildEvent::Made), vec![BuildStep::ConfigureTexture]);
    assert_eq!(build.stand, Stand::Ready);
    assert!(!build.timed);
}

#[test]
fn a_refused_program_gives_back_those_before_it() {
    let (mut build, _) = Build::start(Timing { enabled: false, ab: no_ab() });
    build.next(BuildEvent::Made);
    build.next(BuildEvent::Made);
    assert_eq!(
        build.next(BuildEvent::Refused),
        vec![
            BuildStep::DeleteProgram(ProgramName::Glyph),
            BuildStep::DeleteProgram(ProgramName::Background),
        ]
    );
    assert_eq!(build.stand, Stand::Failed);
}

#[test]
fn a_comparison_builds_the_programs_it_is_about() {
    let ab = Ab { glyph_gamma: true, glyph_discard: false, clear_quad: true };
    let (mut build, _) = Build::start(Timing { enabled: true, ab });
    for _ in 0..5 {
        build.next(BuildEvent::Made);
    }
    assert_eq!(
        build.next(BuildEvent::Made),
        vec![BuildStep::ConfigureTexture, BuildStep::StartTimers]
    );
    let mut untimed = build;
    assert_eq!(untimed.next(BuildEvent::Refused), vec![]);
    assert_eq!((untimed.stand, untimed.timed), (Stand::Ready, false));

    assert_eq!(build.next(BuildEvent::Made), vec![BuildStep::Link(ProgramName::GlyphGamma)]);
    assert_eq!(build.next(BuildEvent::Made), vec![BuildStep::Link(ProgramName::ClearQuad)]);
    assert_eq!(build.next(BuildEvent::Made), vec![]);
    assert_eq!(build.stand, Stand::Ready);
    assert_eq!(
        build.extras,
        Extras { glyph_gamma: true, glyph_discard: false, clear_quad: true }
    );
}

#[test]
fn a_build_is_tried_once() {
    let mut grid = GpuGrid::new();
    assert_eq!(grid.paint(), Paint::Build);
    assert!(!grid.unavailable());
    grid.built(false);
    assert!(grid.unavailable());
    assert_eq!(grid.paint(), Paint::Nothing);
    grid.built(true);
    assert!(grid.unavailable());

    let mut grid = GpuGrid::new();
    grid.built(true);
    assert_eq!(grid.paint(), Paint::Draw);
    grid.mark_unavailable();
    assert!(grid.unavailable());
}
