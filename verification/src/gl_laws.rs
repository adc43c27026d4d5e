//! What is asked of the graphics card, in what order.

use vstd::prelude::*;

#[allow(unused_imports)]
use crate::gl_build::{
    built_from, header_of, paint_of, version_name, Build, BuildEvent, BuildStep, GlSlot, LinkStep, Linking, Paint,
    ProgramName, ShaderKind, ShaderVersion, Stand,
};
#[allow(unused_imports)]
use crate::gl_frame::{
    after_lines, background_steps, before_lines, clear_steps, frame_steps, glyph_steps, line_steps, Arm,
    FrameInputs, FrameStep, GlyphProgram, Stage,
};
#[allow(unused_imports)]
use crate::grid_gl::{dirtied, has_rows, merged_rows, received, texture_rows, GridState, RecordUpload};
#[allow(unused_imports)]
use crate::grid_instances::GlyphInstance;

verus! {

/// A shader version is named as it is spelled.
pub proof fn a_shader_version_is_named()
    ensures
        version_name(ShaderVersion::Gl120) == "Gl120"@,
        version_name(ShaderVersion::Gl140) == "Gl140"@,
        version_name(ShaderVersion::Es100) == "Es100"@,
        version_name(ShaderVersion::Es300) == "Es300"@,
{
}

/// A program is linked in this order: its attributes are bound before anything
/// is compiled, the vertex shader goes before the fragment shader, each is
/// attached once it compiled, and both are let go before the uniforms are read.
pub proof fn a_program_is_linked_in_order()
    ensures
        Linking::Program.steps(true) == seq![LinkStep::BindAttributes, LinkStep::CreateShader(ShaderKind::Vertex)],
        Linking::Program.after(true) == Linking::Shader(ShaderKind::Vertex),
        Linking::Shader(ShaderKind::Vertex).steps(true) == seq![LinkStep::Compile(ShaderKind::Vertex)],
        Linking::Shader(ShaderKind::Vertex).after(true) == Linking::Compiled(ShaderKind::Vertex),
        Linking::Compiled(ShaderKind::Vertex).steps(true) == seq![
            LinkStep::Attach(ShaderKind::Vertex),
            LinkStep::CreateShader(ShaderKind::Fragment),
        ],
        Linking::Compiled(ShaderKind::Vertex).after(true) == Linking::Shader(ShaderKind::Fragment),
        Linking::Shader(ShaderKind::Fragment).steps(true) == seq![LinkStep::Compile(ShaderKind::Fragment)],
        Linking::Shader(ShaderKind::Fragment).after(true) == Linking::Compiled(ShaderKind::Fragment),
        Linking::Compiled(ShaderKind::Fragment).steps(true) == seq![
            LinkStep::Attach(ShaderKind::Fragment),
            LinkStep::Link,
        ],
        Linking::Compiled(ShaderKind::Fragment).after(true) == Linking::Linked,
        Linking::Linked.steps(true) == seq![
            LinkStep::Detach(ShaderKind::Vertex),
            LinkStep::DeleteShader(ShaderKind::Vertex),
            LinkStep::Detach(ShaderKind::Fragment),
            LinkStep::DeleteShader(ShaderKind::Fragment),
            LinkStep::ReadUniforms,
        ],
        Linking::Linked.after(true) == Linking::Done,
{
}

/// A step that fails ends the link; what has ended stays so and asks for
/// nothing.
pub proof fn a_failed_step_ends_the_link(linking: Linking, succeeded: bool)
    ensures
        !(linking is Done) ==> linking.after(false) == Linking::Failed,
        linking is Done || linking is Failed ==> linking.after(succeeded) == linking && linking.steps(succeeded).len()
            == 0,
{
}

/// The grid's objects are made in this order: the programs for glyphs,
/// backgrounds and lines, the vertex array, the buffer and the texture; the
/// timers come last, and only where drawing is timed.
pub proof fn the_grid_is_made_in_order(build: Build)
    ensures
        ({
            let next = |stand: Stand| (Build { stand, ..build }).after(BuildEvent::Made).stand;
            let asks = |stand: Stand| (Build { stand, ..build }).steps(BuildEvent::Made);
            &&& next(Stand::Program(ProgramName::Glyph)) == Stand::Program(ProgramName::Background)
            &&& asks(Stand::Program(ProgramName::Glyph)) == seq![BuildStep::Link(ProgramName::Background)]
            &&& next(Stand::Program(ProgramName::Background)) == Stand::Program(ProgramName::Decoration)
            &&& asks(Stand::Program(ProgramName::Background)) == seq![BuildStep::Link(ProgramName::Decoration)]
            &&& next(Stand::Program(ProgramName::Decoration)) == Stand::VertexArray
            &&& asks(Stand::Program(ProgramName::Decoration)) == seq![BuildStep::CreateVertexArray]
            &&& next(Stand::VertexArray) == Stand::Buffer
            &&& asks(Stand::VertexArray) == seq![BuildStep::CreateBuffer]
            &&& next(Stand::Buffer) == Stand::Texture
            &&& asks(Stand::Buffer) == seq![BuildStep::CreateTexture]
            &&& build.timing.enabled ==> next(Stand::Texture) == Stand::Timers && asks(Stand::Texture) == seq![
                BuildStep::ConfigureTexture,
                BuildStep::StartTimers,
            ]
            &&& !build.timing.enabled ==> next(Stand::Texture) == Stand::Ready && asks(Stand::Texture) == seq![
                BuildStep::ConfigureTexture,
            ]
        }),
{
    assert(seq![BuildStep::ConfigureTexture] + seq![BuildStep::StartTimers] =~= seq![
        BuildStep::ConfigureTexture,
        BuildStep::StartTimers,
    ]);
    assert(seq![BuildStep::ConfigureTexture] + Seq::<BuildStep>::empty() =~= seq![BuildStep::ConfigureTexture]);
}

/// A grid is drawn without timers where they cannot be had, and not at all
/// where one of its own objects cannot; what is ready or failed stays so.
pub proof fn what_a_refusal_means(build: Build, event: BuildEvent)
    ensures
        build.stand is Timers ==> build.after(BuildEvent::Refused).stand == Stand::Ready && !(build.after(
            BuildEvent::Refused,
        ).timed && !build.timed),
        build.stand is Timers ==> build.after(BuildEvent::Made).timed,
        build.stand is VertexArray || build.stand is Buffer || build.stand is Texture || build.stand is Program
            ==> build.after(BuildEvent::Refused).stand == Stand::Failed,
        build.stand is Ready || build.stand is Failed ==> build.after(event) == build && build.steps(event).len() == 0,
{
}

/// The programs for a comparison are linked in the order gamma, discard and
/// clear quad, those of them that are compared.
pub proof fn the_programs_for_a_comparison(build: Build)
    ensures
        ({
            let ab = build.timing.ab;
            let next = |stand: Stand| (Build { stand, ..build }).after(BuildEvent::Made);
            let from_timers = next(Stand::Timers).stand;
            let from_gamma = next(Stand::Program(ProgramName::GlyphGamma)).stand;
            let from_discard = next(Stand::Program(ProgramName::GlyphDiscard)).stand;
            &&& ab.glyph_gamma ==> from_timers == Stand::Program(ProgramName::GlyphGamma)
            &&& !ab.glyph_gamma && ab.glyph_discard ==> from_timers == Stand::Program(ProgramName::GlyphDiscard)
            &&& !ab.glyph_gamma && !ab.glyph_discard && ab.clear_quad ==> from_timers == Stand::Program(
                ProgramName::ClearQuad,
            )
            &&& !ab.glyph_gamma && !ab.glyph_discard && !ab.clear_quad ==> from_timers == Stand::Ready
            &&& ab.glyph_discard ==> from_gamma == Stand::Program(ProgramName::GlyphDiscard)
            &&& !ab.glyph_discard && ab.clear_quad ==> from_gamma == Stand::Program(ProgramName::ClearQuad)
            &&& !ab.glyph_discard && !ab.clear_quad ==> from_gamma == Stand::Ready
            &&& ab.clear_quad ==> from_discard == Stand::Program(ProgramName::ClearQuad)
            &&& !ab.clear_quad ==> from_discard == Stand::Ready
            &&& next(Stand::Program(ProgramName::ClearQuad)).stand == Stand::Ready
            &&& next(Stand::Program(ProgramName::GlyphGamma)).extras.glyph_gamma
            &&& next(Stand::Program(ProgramName::GlyphDiscard)).extras.glyph_discard
            &&& next(Stand::Program(ProgramName::ClearQuad)).extras.clear_quad
        }),
{
}

/// A frame that is not timed clears, uploads, draws the backgrounds, then the
/// glyphs if there is an atlas and the lines if there are any and a strip for
/// them, and lets go of the records.
pub proof fn a_plain_frame_is_drawn_in_order(inputs: FrameInputs)
    requires
        inputs.arm is None,
        inputs.cols > 0,
        inputs.rows > 0,
    ensures
        ({
            let start = seq![
                FrameStep::Clear,
                FrameStep::Upload,
                FrameStep::BindRecords,
                FrameStep::Backgrounds { all: false },
            ];
            let glyphs = if inputs.atlas {
                seq![FrameStep::Glyphs(GlyphProgram::Plain)]
            } else {
                Seq::empty()
            };
            let lines = if inputs.strip && inputs.decorated {
                seq![FrameStep::Decorations]
            } else {
                Seq::empty()
            };
            frame_steps(inputs) == start + glyphs + lines + seq![FrameStep::Unbind]
        }),
{
    let start = seq![
        FrameStep::Clear,
        FrameStep::Upload,
        FrameStep::BindRecords,
        FrameStep::Backgrounds { all: false },
    ];
    let glyphs = if inputs.atlas {
        seq![FrameStep::Glyphs(GlyphProgram::Plain)]
    } else {
        Seq::empty()
    };
    let lines = if inputs.strip && inputs.decorated {
        seq![FrameStep::Decorations]
    } else {
        Seq::empty()
    };
    assert(clear_steps(inputs) =~= seq![FrameStep::Clear]);
    assert(background_steps(inputs) =~= seq![FrameStep::Backgrounds { all: false }]);
    assert(glyph_steps(inputs) =~= glyphs);
    assert(line_steps(inputs) =~= lines);
    assert(before_lines(inputs) =~= start + glyphs);
    assert(after_lines(inputs) =~= seq![FrameStep::Unbind]);
    assert(frame_steps(inputs) =~= start + glyphs + lines + seq![FrameStep::Unbind]);
}

/// Nothing is drawn of a grid without a cell.
pub proof fn an_empty_grid_draws_nothing(inputs: FrameInputs)
    requires
        inputs.cols == 0 || inputs.rows == 0,
    ensures
        frame_steps(inputs).len() == 0,
{
}

/// What an arm of a comparison does to the clear: a quad in its place where
/// that was built, none where it skips it, and without the scissor where it
/// lifts that.
pub proof fn how_an_arm_clears(inputs: FrameInputs, arm: Arm)
    requires
        inputs.arm == Some(arm),
    ensures
        ({
            let quad = arm.draws_clear_quad && inputs.extras.clear_quad;
            let fill = if quad {
                seq![FrameStep::ClearQuad]
            } else if arm.skips_clear {
                Seq::empty()
            } else {
                seq![FrameStep::Clear]
            };
            &&& !arm.lifts_clear_scissor ==> clear_steps(inputs) == fill
            &&& arm.lifts_clear_scissor ==> clear_steps(inputs) == seq![FrameStep::LiftScissor] + fill + seq![
                FrameStep::RestoreScissor,
            ]
        }),
{
    let quad = arm.draws_clear_quad && inputs.extras.clear_quad;
    let fill = if quad {
        seq![FrameStep::ClearQuad]
    } else if arm.skips_clear {
        Seq::empty()
    } else {
        seq![FrameStep::Clear]
    };
    if !arm.lifts_clear_scissor {
        assert(clear_steps(inputs) =~= fill);
    }
}

/// What an arm does to the rest: all backgrounds where it forces them, without
/// blending where it skips that, the glyphs by its own program where that was
/// built, and lines where it forces them and there is a strip.
pub proof fn how_an_arm_draws(inputs: FrameInputs, arm: Arm)
    requires
        inputs.arm == Some(arm),
    ensures
        !arm.skips_background_blend ==> background_steps(inputs) == seq![
            FrameStep::Backgrounds { all: arm.forces_backgrounds },
        ],
        arm.skips_background_blend ==> background_steps(inputs) == seq![
            FrameStep::DisableBlend,
            FrameStep::Backgrounds { all: arm.forces_backgrounds },
            FrameStep::EnableBlend,
        ],
        arm.forces_glyph_gamma && inputs.extras.glyph_gamma ==> inputs.glyph_program() == GlyphProgram::Gamma,
        arm.forces_glyph_gamma && !inputs.extras.glyph_gamma ==> inputs.glyph_program() == GlyphProgram::Plain,
        !arm.forces_glyph_gamma && arm.discards_blank_coverage && inputs.extras.glyph_discard
            ==> inputs.glyph_program() == GlyphProgram::Discard,
        !arm.forces_glyph_gamma && !(arm.discards_blank_coverage && inputs.extras.glyph_discard)
            ==> inputs.glyph_program() == GlyphProgram::Plain,
        inputs.draws_lines() <==> inputs.strip && (inputs.decorated || arm.forces_decorations),
{
    if !arm.skips_background_blend {
        assert(background_steps(inputs) =~= seq![FrameStep::Backgrounds { all: arm.forces_backgrounds }]);
    } else {
        assert(background_steps(inputs) =~= seq![
            FrameStep::DisableBlend,
            FrameStep::Backgrounds { all: arm.forces_backgrounds },
            FrameStep::EnableBlend,
        ]);
    }
}

proof fn stages_stand_in_a_row(clear: Seq<FrameStep>, backgrounds: Seq<FrameStep>, glyphs: Seq<FrameStep>)
    ensures
        seq![FrameStep::BeginFrame] + (seq![FrameStep::Begin(Stage::Clear)] + clear + seq![FrameStep::End]) + (seq![
            FrameStep::Begin(Stage::Upload),
        ] + seq![FrameStep::Upload] + seq![FrameStep::End]) + seq![FrameStep::BindRecords] + (seq![
            FrameStep::Begin(Stage::Backgrounds),
        ] + backgrounds + seq![FrameStep::End]) + glyphs == seq![FrameStep::BeginFrame, FrameStep::Begin(Stage::Clear)]
            + clear + seq![
            FrameStep::End,
            FrameStep::Begin(Stage::Upload),
            FrameStep::Upload,
            FrameStep::End,
            FrameStep::BindRecords,
            FrameStep::Begin(Stage::Backgrounds),
        ] + backgrounds + seq![FrameStep::End] + glyphs,
{
    assert(seq![FrameStep::BeginFrame] + (seq![FrameStep::Begin(Stage::Clear)] + clear + seq![FrameStep::End])
        =~= seq![FrameStep::BeginFrame, FrameStep::Begin(Stage::Clear)] + clear + seq![FrameStep::End]);
    let head = seq![FrameStep::BeginFrame, FrameStep::Begin(Stage::Clear)] + clear;
    let upload = seq![FrameStep::Begin(Stage::Upload)] + seq![FrameStep::Upload] + seq![FrameStep::End];
    let between = seq![
        FrameStep::End,
        FrameStep::Begin(Stage::Upload),
        FrameStep::Upload,
        FrameStep::End,
        FrameStep::BindRecords,
        FrameStep::Begin(Stage::Backgrounds),
    ];
    assert(head + seq![FrameStep::End] + upload + seq![FrameStep::BindRecords] + seq![
        FrameStep::Begin(Stage::Backgrounds),
    ] =~= head + between);
    let shown = head + seq![FrameStep::End] + upload + seq![FrameStep::BindRecords];
    assert(shown + (seq![FrameStep::Begin(Stage::Backgrounds)] + backgrounds + seq![FrameStep::End]) =~= shown + seq![
        FrameStep::Begin(Stage::Backgrounds),
    ] + backgrounds + seq![FrameStep::End]);
}

/// A frame that is timed is timed as a whole, and each stage of it by itself,
/// under its own name: the clear, the upload and the backgrounds.
pub proof fn a_timed_frame_is_timed_by_stages(inputs: FrameInputs, arm: Arm)
    requires
        inputs.arm == Some(arm),
    ensures
        before_lines(inputs) == seq![FrameStep::BeginFrame, FrameStep::Begin(Stage::Clear)] + clear_steps(inputs) + seq![
            FrameStep::End,
            FrameStep::Begin(Stage::Upload),
            FrameStep::Upload,
            FrameStep::End,
            FrameStep::BindRecords,
            FrameStep::Begin(Stage::Backgrounds),
        ] + background_steps(inputs) + seq![FrameStep::End] + glyph_steps(inputs),
        inputs.cols > 0 && inputs.rows > 0 ==> frame_steps(inputs) == before_lines(inputs) + line_steps(inputs) + seq![
            FrameStep::Unbind,
            FrameStep::EndFrame,
        ],
{
    stages_stand_in_a_row(clear_steps(inputs), background_steps(inputs), glyph_steps(inputs));
    assert(after_lines(inputs) =~= seq![FrameStep::Unbind, FrameStep::EndFrame]);
}

/// So are the glyphs and the lines, and lines that are left out are noted.
pub proof fn timed_glyphs_and_lines(inputs: FrameInputs, arm: Arm)
    requires
        inputs.arm == Some(arm),
    ensures
        inputs.atlas ==> glyph_steps(inputs) == seq![
            FrameStep::Begin(Stage::Glyphs),
            FrameStep::Glyphs(inputs.glyph_program()),
            FrameStep::End,
        ],
        !inputs.atlas ==> glyph_steps(inputs).len() == 0,
        inputs.draws_lines() ==> line_steps(inputs) == seq![
            FrameStep::Begin(Stage::Decorations),
            FrameStep::Decorations,
            FrameStep::End,
        ],
        !inputs.draws_lines() ==> line_steps(inputs) == seq![FrameStep::SkippedDecorations],
{
    if inputs.atlas {
        assert(glyph_steps(inputs) =~= seq![
            FrameStep::Begin(Stage::Glyphs),
            FrameStep::Glyphs(inputs.glyph_program()),
            FrameStep::End,
        ]);
    }
    if inputs.draws_lines() {
        assert(line_steps(inputs) =~= seq![
            FrameStep::Begin(Stage::Decorations),
            FrameStep::Decorations,
            FrameStep::End,
        ]);
    }
}

/// Two spans of rows merge into the smallest that holds both.
pub proof fn spans_of_rows_merge(a: core::ops::Range<usize>, b: core::ops::Range<usize>, row: int)
    ensures
        a.start <= row < a.end || b.start <= row < b.end ==> merged_rows(a, b).start <= row < merged_rows(a, b).end,
        merged_rows(a, b).start == a.start || merged_rows(a, b).start == b.start,
        merged_rows(a, b).end == a.end || merged_rows(a, b).end == b.end,
        merged_rows(a, b).start <= a.start && merged_rows(a, b).start <= b.start,
        merged_rows(a, b).end >= a.end && merged_rows(a, b).end >= b.end,
        a.start <= row < a.end ==> has_rows(a),
        a.start >= a.end ==> !has_rows(a),
{
}

/// The slot table takes as many rows of 256 as hold every slot, and no more.
pub proof fn the_rows_of_the_slot_table(slots: nat)
    ensures
        texture_rows(slots) * 256 >= slots,
        slots > 0 ==> (texture_rows(slots) - 1) * 256 < slots,
        texture_rows(0) == 0,
{
}

/// What is sent of the records: all of them where the buffer is too small;
/// else the bytes of the rows that changed, twelve to a cell; and nothing where
/// none did. After a change of size that is every row.
pub proof fn what_is_sent_of_the_records(state: GridState, capacity: usize)
    requires
        state.instances.wf(),
        state.instances.glyphs@.len() * 12 <= usize::MAX,
        state.dirty_rows.end <= state.instances.rows,
    ensures
        capacity < state.instances.glyphs@.len() * 12 ==> state.record_upload(capacity) is Whole,
        capacity >= state.instances.glyphs@.len() * 12 ==> {
            let rows = state.rows_to_send();
            &&& rows.start >= rows.end ==> state.record_upload(capacity) is Nothing
            &&& rows.start < rows.end ==> {
                &&& state.record_upload(capacity) matches RecordUpload::Bytes(span)
                &&& span.start == rows.start * state.instances.cols * 12
                &&& span.end == rows.end * state.instances.cols * 12
            }
        },
        state.uploaded_dims == (state.instances.cols, state.instances.rows) ==> state.rows_to_send() == state.dirty_rows,
        state.uploaded_dims != (state.instances.cols, state.instances.rows) ==> state.rows_to_send().start == 0
            && state.rows_to_send().end == state.instances.rows,
{
    let rows = state.rows_to_send();
    let cols = state.instances.cols as int;
    let all = state.instances.rows as int;
    let s = rows.start as int;
    let e = rows.end as int;
    if s < e {
        assert(s * (cols * 12) == s * cols * 12) by (nonlinear_arith);
        assert(e * (cols * 12) == e * cols * 12) by (nonlinear_arith);
        assert(e * cols <= all * cols) by (nonlinear_arith)
            requires
                e <= all,
                cols >= 0,
        ;
        assert(0 <= s * cols <= e * cols) by (nonlinear_arith)
            requires
                0 <= s < e,
                cols >= 0,
        ;
    }
}

/// The card holds every record after a whole upload, the records of the bytes
/// that were sent and its own elsewhere after a part, and what it held after
/// none.
pub proof fn what_the_card_holds(
    held: Seq<GlyphInstance>,
    cells: Seq<GlyphInstance>,
    span: core::ops::Range<usize>,
    i: int,
)
    requires
        0 <= i < held.len(),
    ensures
        received(held, RecordUpload::Whole, cells) == cells,
        received(held, RecordUpload::Nothing, cells) == held,
        received(held, RecordUpload::Bytes(span), cells).len() == held.len(),
        span.start <= i * 12 < span.end ==> received(held, RecordUpload::Bytes(span), cells)[i] == cells[i],
        !(span.start <= i * 12 < span.end) ==> received(held, RecordUpload::Bytes(span), cells)[i] == held[i],
{
}

/// A frame builds what is not built, draws with what is ready and leaves alone
/// what failed; only the first attempt counts.
pub proof fn a_grid_is_built_once(gl: GlSlot, made: bool)
    ensures
        paint_of(GlSlot::Unbuilt) == Paint::Build,
        paint_of(GlSlot::Ready) == Paint::Draw,
        paint_of(GlSlot::Failed) == Paint::Nothing,
        built_from(GlSlot::Unbuilt, true) == GlSlot::Ready,
        built_from(GlSlot::Unbuilt, false) == GlSlot::Failed,
        !(gl is Unbuilt) ==> built_from(gl, made) == gl,
        !(built_from(gl, made) is Unbuilt),
{
}

/// A shader starts with its dialect, which must have instanced arrays.
pub proof fn what_a_shader_starts_with()
    ensures
        header_of(ShaderVersion::Gl140) == Ok::<Seq<char>, Seq<char>>("#version 140\n"@),
        header_of(ShaderVersion::Es300) == Ok::<Seq<char>, Seq<char>>(
            "#version 300 es\nprecision highp float;\n"@,
        ),
        header_of(ShaderVersion::Gl120) == Err::<Seq<char>, Seq<char>>("Gl120"@ + " has no instanced arrays"@),
        header_of(ShaderVersion::Es100) == Err::<Seq<char>, Seq<char>>("Es100"@ + " has no instanced arrays"@),
{
}

/// Rows that are to be sent stay so when others are, and the others are too;
/// where none were, exactly the others are.
pub proof fn rows_stay_dirty(was: core::ops::Range<usize>, rows: core::ops::Range<usize>, row: int)
    ensures
        was.start <= row < was.end || rows.start <= row < rows.end ==> dirtied(was, rows).start <= row < dirtied(
            was,
            rows,
        ).end,
        was.start >= was.end ==> dirtied(was, rows) == rows,
{
}

} // verus!
