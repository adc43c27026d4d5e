//! The steps of one frame, in order.
//!
//! A frame clears the grid to the terminal's background, sends what changed,
//! and draws the three passes. While a comparison of two ways to draw is
//! running, its current arm swaps one of the steps for another; what it turns
//! off it turns on again before the frame ends.
use vstd::prelude::*;

verus! {

/// A part of the frame that is timed on its own.
#[derive(Clone, Copy, Debug, PartialEq, Eq, Structural)]
pub enum Stage {
    Clear,
    Upload,
    Backgrounds,
    Glyphs,
    Decorations,
}

/// The program the glyphs are drawn with.
#[derive(Clone, Copy, Debug, PartialEq, Eq, Structural)]
pub enum GlyphProgram {
    Plain,
    /// Takes coverage from the colour channels.
    Gamma,
    /// Throws fragments without coverage away.
    Discard,
}

/// One thing to do with the graphics context.
#[derive(Clone, Copy, Debug, PartialEq, Eq, Structural)]
pub enum FrameStep {
    /// Start timing the frame as a whole.
    BeginFrame,
    /// Start timing a stage.
    Begin(Stage),
    /// Stop timing the stage.
    End,
    LiftScissor,
    RestoreScissor,
    /// Clear to the default background.
    Clear,
    /// Draw the default background as one triangle.
    ClearQuad,
    Upload,
    /// Point every attribute at the record buffer.
    BindRecords,
    DisableBlend,
    EnableBlend,
    /// Draw the backgrounds; when `all`, those of the default colour too.
    Backgrounds { all: bool },
    Glyphs(GlyphProgram),
    Decorations,
    /// Note that the lines were left out.
    SkippedDecorations,
    /// Let go of the record buffer.
    Unbind,
    /// Stop timing the frame.
    EndFrame,
}

/// What the current arm of a comparison does differently.
#[derive(Clone, Copy, Debug, PartialEq, Eq, Structural)]
pub struct Arm {
    pub lifts_clear_scissor: bool,
    pub draws_clear_quad: bool,
    pub skips_clear: bool,
    pub forces_backgrounds: bool,
    pub skips_background_blend: bool,
    pub forces_glyph_gamma: bool,
    pub discards_blank_coverage: bool,
    pub forces_decorations: bool,
}

/// The programs that were built for the sake of a comparison.
#[derive(Clone, Copy, Debug, PartialEq, Eq, Structural)]
pub struct Extras {
    pub glyph_gamma: bool,
    pub glyph_discard: bool,
    pub clear_quad: bool,
}

/// What a frame is drawn from.
#[derive(Clone, Copy, Debug, PartialEq, Eq, Structural)]
pub struct FrameInputs {
    pub cols: usize,
    pub rows: usize,
    /// What the comparison does this frame; absent while nothing is timed.
    pub arm: Option<Arm>,
    pub extras: Extras,
    /// Whether there is an atlas to take glyphs from.
    pub atlas: bool,
    /// Whether there is a strip to take lines from.
    pub strip: bool,
    /// Whether any cell carries a line.
    pub decorated: bool,
}

pub open spec fn plain_arm() -> Arm {
    Arm {
        lifts_clear_scissor: false,
        draws_clear_quad: false,
        skips_clear: false,
        forces_backgrounds: false,
        skips_background_blend: false,
        forces_glyph_gamma: false,
        discards_blank_coverage: false,
        forces_decorations: false,
    }
}

impl FrameInputs {
    /// Whether the frame is timed.
    pub open spec fn timed(self) -> bool {
        self.arm is Some
    }

    /// What the arm asks for; nothing when there is none.
    pub open spec fn asks(self) -> Arm {
        match self.arm {
            Some(arm) => arm,
            None => plain_arm(),
        }
    }

    /// The program the glyphs are drawn with: the one the arm asks for where
    /// it was built.
    pub open spec fn glyph_program(self) -> GlyphProgram {
        if self.asks().forces_glyph_gamma {
            if self.extras.glyph_gamma {
                GlyphProgram::Gamma
            } else {
                GlyphProgram::Plain
            }
        } else if self.asks().discards_blank_coverage && self.extras.glyph_discard {
            GlyphProgram::Discard
        } else {
            GlyphProgram::Plain
        }
    }

    /// Whether the lines are drawn. Holding a strip says only that there
    /// could be some.
    pub open spec fn draws_lines(self) -> bool {
        self.strip && (self.decorated || self.asks().forces_decorations)
    }
}

/// `step` where `wanted`, and nothing otherwise.
pub open spec fn when(wanted: bool, step: FrameStep) -> Seq<FrameStep> {
    if wanted {
        seq![step]
    } else {
        Seq::empty()
    }
}

/// `inner`, timed as `stage` where the frame is timed.
pub open spec fn staged(timed: bool, stage: Stage, inner: Seq<FrameStep>) -> Seq<FrameStep> {
    when(timed, FrameStep::Begin(stage)) + inner + when(timed, FrameStep::End)
}

/// How the grid is cleared.
pub open spec fn clear_steps(inputs: FrameInputs) -> Seq<FrameStep> {
    let asks = inputs.asks();
    let fill = if inputs.extras.clear_quad && asks.draws_clear_quad {
        seq![FrameStep::ClearQuad]
    } else {
        when(!asks.skips_clear, FrameStep::Clear)
    };
    when(asks.lifts_clear_scissor, FrameStep::LiftScissor) + fill + when(
        asks.lifts_clear_scissor,
        FrameStep::RestoreScissor,
    )
}

/// How the backgrounds are drawn.
pub open spec fn background_steps(inputs: FrameInputs) -> Seq<FrameStep> {
    let asks = inputs.asks();
    when(asks.skips_background_blend, FrameStep::DisableBlend) + seq![
        FrameStep::Backgrounds { all: asks.forces_backgrounds },
    ] + when(asks.skips_background_blend, FrameStep::EnableBlend)
}

/// How the glyphs are drawn, where there is an atlas.
pub open spec fn glyph_steps(inputs: FrameInputs) -> Seq<FrameStep> {
    if inputs.atlas {
        staged(inputs.timed(), Stage::Glyphs, seq![FrameStep::Glyphs(inputs.glyph_program())])
    } else {
        Seq::empty()
    }
}

/// How the lines are drawn, or that they were left out.
pub open spec fn line_steps(inputs: FrameInputs) -> Seq<FrameStep> {
    if inputs.draws_lines() {
        staged(inputs.timed(), Stage::Decorations, seq![FrameStep::Decorations])
    } else {
        when(inputs.timed(), FrameStep::SkippedDecorations)
    }
}

/// What comes before the lines.
pub open spec fn before_lines(inputs: FrameInputs) -> Seq<FrameStep> {
    when(inputs.timed(), FrameStep::BeginFrame) + staged(
        inputs.timed(),
        Stage::Clear,
        clear_steps(inputs),
    ) + staged(inputs.timed(), Stage::Upload, seq![FrameStep::Upload]) + seq![
        FrameStep::BindRecords,
    ] + staged(inputs.timed(), Stage::Backgrounds, background_steps(inputs)) + glyph_steps(inputs)
}

/// What comes after them.
pub open spec fn after_lines(inputs: FrameInputs) -> Seq<FrameStep> {
    seq![FrameStep::Unbind] + when(inputs.timed(), FrameStep::EndFrame)
}

/// Every step of a frame.
pub open spec fn frame_steps(inputs: FrameInputs) -> Seq<FrameStep> {
    if inputs.cols == 0 || inputs.rows == 0 {
        Seq::empty()
    } else {
        before_lines(inputs) + line_steps(inputs) + after_lines(inputs)
    }
}

/// Add `step` where it is wanted.
fn push_when(steps: &mut Vec<FrameStep>, wanted: bool, step: FrameStep)
    ensures
        final(steps)@ == old(steps)@ + when(wanted, step),
{
    let ghost before = steps@;
    if wanted {
        steps.push(step);
    }
    assert(steps@ =~= before + when(wanted, step));
}

fn push_clear(steps: &mut Vec<FrameStep>, inputs: &FrameInputs, asks: &Arm)
    requires
        *asks == inputs.asks(),
    ensures
        final(steps)@ == old(steps)@ + clear_steps(*inputs),
{
    let ghost before = steps@;
    push_when(steps, asks.lifts_clear_scissor, FrameStep::LiftScissor);
    if inputs.extras.clear_quad && asks.draws_clear_quad {
        steps.push(FrameStep::ClearQuad);
    } else {
        push_when(steps, !asks.skips_clear, FrameStep::Clear);
    }
    push_when(steps, asks.lifts_clear_scissor, FrameStep::RestoreScissor);
    assert(steps@ =~= before + clear_steps(*inputs));
}

fn push_backgrounds(steps: &mut Vec<FrameStep>, inputs: &FrameInputs, asks: &Arm)
    requires
        *asks == inputs.asks(),
    ensures
        final(steps)@ == old(steps)@ + background_steps(*inputs),
{
    let ghost before = steps@;
    push_when(steps, asks.skips_background_blend, FrameStep::DisableBlend);
    steps.push(FrameStep::Backgrounds { all: asks.forces_backgrounds });
    push_when(steps, asks.skips_background_blend, FrameStep::EnableBlend);
    assert(steps@ =~= before + background_steps(*inputs));
}

fn push_glyphs(steps: &mut Vec<FrameStep>, inputs: &FrameInputs, asks: &Arm, timed: bool)
    requires
        *asks == inputs.asks(),
        timed == inputs.timed(),
    ensures
        final(steps)@ == old(steps)@ + glyph_steps(*inputs),
{
    let ghost before = steps@;
    if inputs.atlas {
        let program = if asks.forces_glyph_gamma {
            if inputs.extras.glyph_gamma {
                GlyphProgram::Gamma
            } else {
                GlyphProgram::Plain
            }
        } else if asks.discards_blank_coverage && inputs.extras.glyph_discard {
            GlyphProgram::Discard
        } else {
            GlyphProgram::Plain
        };
        push_when(steps, timed, FrameStep::Begin(Stage::Glyphs));
        steps.push(FrameStep::Glyphs(program));
        push_when(steps, timed, FrameStep::End);
    }
    assert(steps@ =~= before + glyph_steps(*inputs));
}

fn push_lines(steps: &mut Vec<FrameStep>, inputs: &FrameInputs, asks: &Arm, timed: bool)
    requires
        *asks == inputs.asks(),
        timed == inputs.timed(),
    ensures
        final(steps)@ == old(steps)@ + line_steps(*inputs),
{
    let ghost before = steps@;
    if inputs.strip && (inputs.decorated || asks.forces_decorations) {
        push_when(steps, timed, FrameStep::Begin(Stage::Decorations));
        steps.push(FrameStep::Decorations);
        push_when(steps, timed, FrameStep::End);
    } else {
        push_when(steps, timed, FrameStep::SkippedDecorations);
    }
    assert(steps@ =~= before + line_steps(*inputs));
}

/// Every step of a frame. A grid without a cell takes none.
pub fn draw(inputs: &FrameInputs) -> (r: Vec<FrameStep>)
    ensures
        r@ == frame_steps(*inputs),
{
    let mut steps: Vec<FrameStep> = Vec::new();
    if inputs.cols == 0 || inputs.rows == 0 {
        return steps;
    }
    let timed = inputs.arm.is_some();
    let asks = match inputs.arm {
        Some(arm) => arm,
        None => Arm {
            lifts_clear_scissor: false,
            draws_clear_quad: false,
            skips_clear: false,
            forces_backgrounds: false,
            skips_background_blend: false,
            forces_glyph_gamma: false,
            discards_blank_coverage: false,
            forces_decorations: false,
        },
    };
    push_when(&mut steps, timed, FrameStep::BeginFrame);
    push_when(&mut steps, timed, FrameStep::Begin(Stage::Clear));
    push_clear(&mut steps, inputs, &asks);
    push_when(&mut steps, timed, FrameStep::End);
    push_when(&mut steps, timed, FrameStep::Begin(Stage::Upload));
    steps.push(FrameStep::Upload);
    push_when(&mut steps, timed, FrameStep::End);
    steps.push(FrameStep::BindRecords);
    push_when(&mut steps, timed, FrameStep::Begin(Stage::Backgrounds));
    push_backgrounds(&mut steps, inputs, &asks);
    push_when(&mut steps, timed, FrameStep::End);
    push_glyphs(&mut steps, inputs, &asks, timed);
    assert(steps@ =~= before_lines(*inputs));
    push_lines(&mut steps, inputs, &asks, timed);
    steps.push(FrameStep::Unbind);
    push_when(&mut steps, timed, FrameStep::EndFrame);
    assert(steps@ =~= frame_steps(*inputs));
    steps
}

/// What a frame may leave switched in the graphics context.
pub struct Switches {
    pub scissor: bool,
    pub blend: bool,
    pub bound: bool,
    /// The stage that is being timed.
    pub stage: Option<Stage>,
    /// Whether the frame is being timed.
    pub frame: bool,
    /// Whether any step came when it could not: a stage begun within another,
    /// a pass drawn with no records bound.
    pub amiss: bool,
}

/// What `step` does to the switches.
pub open spec fn switched(now: Switches, step: FrameStep) -> Switches {
    match step {
        FrameStep::BeginFrame => Switches { frame: true, amiss: now.amiss || now.frame, ..now },
        FrameStep::EndFrame => Switches { frame: false, amiss: now.amiss || !now.frame, ..now },
        FrameStep::Begin(stage) => Switches {
            stage: Some(stage),
            amiss: now.amiss || now.stage is Some || !now.frame,
            ..now
        },
        FrameStep::End => Switches { stage: None, amiss: now.amiss || now.stage is None, ..now },
        FrameStep::LiftScissor => Switches { scissor: false, ..now },
        FrameStep::RestoreScissor => Switches { scissor: true, ..now },
        FrameStep::DisableBlend => Switches { blend: false, ..now },
        FrameStep::EnableBlend => Switches { blend: true, ..now },
        FrameStep::BindRecords => Switches { bound: true, ..now },
        FrameStep::Unbind => Switches { bound: false, ..now },
        FrameStep::Backgrounds { all } => Switches { amiss: now.amiss || !now.bound, ..now },
        FrameStep::Glyphs(program) => Switches {
            amiss: now.amiss || !now.bound || !now.blend,
            ..now
        },
        FrameStep::Decorations => Switches { amiss: now.amiss || !now.bound || !now.blend, ..now },
        _ => now,
    }
}

/// The switches once `steps` were performed.
pub open spec fn performed(now: Switches, steps: Seq<FrameStep>) -> Switches
    decreases steps.len(),
{
    if steps.len() == 0 {
        now
    } else {
        switched(performed(now, steps.drop_last()), steps.last())
    }
}

proof fn performed_in_turn(now: Switches, a: Seq<FrameStep>, b: Seq<FrameStep>)
    ensures
        performed(now, a + b) == performed(performed(now, a), b),
    decreases b.len(),
{
    if b.len() == 0 {
        assert(a + b =~= a);
    } else {
        assert((a + b).drop_last() =~= a + b.drop_last());
        performed_in_turn(now, a, b.drop_last());
    }
}

proof fn performed_one(now: Switches, wanted: bool, step: FrameStep)
    ensures
        performed(now, when(wanted, step)) == if wanted {
            switched(now, step)
        } else {
            now
        },
        performed(now, seq![step]) == switched(now, step),
{
    reveal_with_fuel(performed, 2);
    assert(seq![step].drop_last() =~= Seq::empty());
}

proof fn performed_staged(now: Switches, timed: bool, stage: Stage, inner: Seq<FrameStep>)
    ensures
        performed(now, staged(timed, stage, inner)) == {
            let begun = if timed {
                switched(now, FrameStep::Begin(stage))
            } else {
                now
            };
            let done = performed(begun, inner);
            if timed {
                switched(done, FrameStep::End)
            } else {
                done
            }
        },
{
    let head = when(timed, FrameStep::Begin(stage));
    let tail = when(timed, FrameStep::End);
    performed_in_turn(now, head + inner, tail);
    performed_in_turn(now, head, inner);
    performed_one(now, timed, FrameStep::Begin(stage));
    performed_one(performed(now, head + inner), timed, FrameStep::End);
}

/// A frame leaves the context as it found it, times no stage within another,
/// and draws with the records bound and, but for the backgrounds, blended.
pub proof fn a_frame_leaves_nothing_switched(inputs: FrameInputs)
    ensures
        ({
            let found = Switches {
                scissor: true,
                blend: true,
                bound: false,
                stage: None,
                frame: false,
                amiss: false,
            };
            performed(found, frame_steps(inputs)) == found
        }),
{
    let found = Switches {
        scissor: true,
        blend: true,
        bound: false,
        stage: None,
        frame: false,
        amiss: false,
    };
    if inputs.cols != 0 && inputs.rows != 0 {
        let timed = inputs.timed();
        let asks = inputs.asks();
        let s0 = when(timed, FrameStep::BeginFrame);
        let s1 = staged(timed, Stage::Clear, clear_steps(inputs));
        let s2 = staged(timed, Stage::Upload, seq![FrameStep::Upload]);
        let s3 = seq![FrameStep::BindRecords];
        let s4 = staged(timed, Stage::Backgrounds, background_steps(inputs));
        let s5 = glyph_steps(inputs);
        let s6 = line_steps(inputs);
        let t0 = performed(found, s0);
        performed_one(found, timed, FrameStep::BeginFrame);
        assert(t0 == Switches { frame: timed, ..found });

        let t1 = performed(t0, s1);
        performed_staged(t0, timed, Stage::Clear, clear_steps(inputs));
        let begun = if timed {
            switched(t0, FrameStep::Begin(Stage::Clear))
        } else {
            t0
        };
        let lift = when(asks.lifts_clear_scissor, FrameStep::LiftScissor);
        let fill = if inputs.extras.clear_quad && asks.draws_clear_quad {
            seq![FrameStep::ClearQuad]
        } else {
            when(!asks.skips_clear, FrameStep::Clear)
        };
        let back = when(asks.lifts_clear_scissor, FrameStep::RestoreScissor);
        performed_in_turn(begun, lift + fill, back);
        performed_in_turn(begun, lift, fill);
        performed_one(begun, asks.lifts_clear_scissor, FrameStep::LiftScissor);
        let lifted = performed(begun, lift);
        performed_one(lifted, true, FrameStep::ClearQuad);
        performed_one(lifted, !asks.skips_clear, FrameStep::Clear);
        performed_one(lifted, asks.lifts_clear_scissor, FrameStep::RestoreScissor);
        assert(t1 == t0);

        let t2 = performed(t1, s2);
        performed_staged(t1, timed, Stage::Upload, seq![FrameStep::Upload]);
        let begun = if timed {
            switched(t1, FrameStep::Begin(Stage::Upload))
        } else {
            t1
        };
        performed_one(begun, true, FrameStep::Upload);
        assert(t2 == t0);

        let t3 = performed(t2, s3);
        performed_one(t2, true, FrameStep::BindRecords);
        assert(t3 == Switches { bound: true, ..t0 });

        let t4 = performed(t3, s4);
        performed_staged(t3, timed, Stage::Backgrounds, background_steps(inputs));
        let begun = if timed {
            switched(t3, FrameStep::Begin(Stage::Backgrounds))
        } else {
            t3
        };
        let off = when(asks.skips_background_blend, FrameStep::DisableBlend);
        let pass = seq![FrameStep::Backgrounds { all: asks.forces_backgrounds }];
        let on = when(asks.skips_background_blend, FrameStep::EnableBlend);
        performed_in_turn(begun, off + pass, on);
        performed_in_turn(begun, off, pass);
        performed_one(begun, asks.skips_background_blend, FrameStep::DisableBlend);
        let plain = performed(begun, off);
        performed_one(plain, true, FrameStep::Backgrounds { all: asks.forces_backgrounds });
        performed_one(plain, asks.skips_background_blend, FrameStep::EnableBlend);
        assert(t4 == t3);

        let t5 = performed(t4, s5);
        let glyphs = FrameStep::Glyphs(inputs.glyph_program());
        performed_staged(t4, timed, Stage::Glyphs, seq![glyphs]);
        let begun = if timed {
            switched(t4, FrameStep::Begin(Stage::Glyphs))
        } else {
            t4
        };
        performed_one(begun, true, glyphs);
        assert(t5 == t3);

        let t6 = performed(t5, s6);
        performed_staged(t5, timed, Stage::Decorations, seq![FrameStep::Decorations]);
        let begun = if timed {
            switched(t5, FrameStep::Begin(Stage::Decorations))
        } else {
            t5
        };
        performed_one(begun, true, FrameStep::Decorations);
        performed_one(t5, timed, FrameStep::SkippedDecorations);
        assert(t6 == t3);

        let s7 = after_lines(inputs);
        performed_in_turn(t6, seq![FrameStep::Unbind], when(timed, FrameStep::EndFrame));
        performed_one(t6, true, FrameStep::Unbind);
        performed_one(performed(t6, seq![FrameStep::Unbind]), timed, FrameStep::EndFrame);
        assert(performed(t6, s7) == found);

        performed_in_turn(found, s0, s1);
        performed_in_turn(found, s0 + s1, s2);
        performed_in_turn(found, s0 + s1 + s2, s3);
        performed_in_turn(found, s0 + s1 + s2 + s3, s4);
        performed_in_turn(found, s0 + s1 + s2 + s3 + s4, s5);
        performed_in_turn(found, before_lines(inputs), s6);
        performed_in_turn(found, before_lines(inputs) + s6, s7);
    }
}

/// Whether a list of steps draws no lines.
spec fn lineless(steps: Seq<FrameStep>) -> bool {
    forall|k: int| 0 <= k < steps.len() ==> !(#[trigger] steps[k] is Decorations)
}

proof fn lineless_in_turn(a: Seq<FrameStep>, b: Seq<FrameStep>)
    requires
        lineless(a),
        lineless(b),
    ensures
        lineless(a + b),
{
    assert forall|k: int| 0 <= k < (a + b).len() implies !(#[trigger] (a + b)[k] is Decorations) by {
        if k < a.len() {
            assert((a + b)[k] == a[k]);
        } else {
            assert((a + b)[k] == b[k - a.len()]);
        }
    }
}

proof fn lineless_staged(timed: bool, stage: Stage, inner: Seq<FrameStep>)
    requires
        lineless(inner),
    ensures
        lineless(staged(timed, stage, inner)),
{
    lineless_in_turn(when(timed, FrameStep::Begin(stage)), inner);
    lineless_in_turn(
        when(timed, FrameStep::Begin(stage)) + inner,
        when(timed, FrameStep::End),
    );
}

proof fn nothing_before_the_lines_draws_them(inputs: FrameInputs)
    ensures
        lineless(before_lines(inputs)),
{
    let timed = inputs.timed();
    let s0 = when(timed, FrameStep::BeginFrame);
    let s1 = staged(timed, Stage::Clear, clear_steps(inputs));
    let s2 = staged(timed, Stage::Upload, seq![FrameStep::Upload]);
    let s3 = seq![FrameStep::BindRecords];
    let s4 = staged(timed, Stage::Backgrounds, background_steps(inputs));
    let s5 = glyph_steps(inputs);
    assert(lineless(clear_steps(inputs)));
    lineless_staged(timed, Stage::Clear, clear_steps(inputs));
    lineless_staged(timed, Stage::Upload, seq![FrameStep::Upload]);
    assert(lineless(background_steps(inputs)));
    lineless_staged(timed, Stage::Backgrounds, background_steps(inputs));
    assert(lineless(s5));
    lineless_in_turn(s0, s1);
    lineless_in_turn(s0 + s1, s2);
    lineless_in_turn(s0 + s1 + s2, s3);
    lineless_in_turn(s0 + s1 + s2 + s3, s4);
    lineless_in_turn(s0 + s1 + s2 + s3 + s4, s5);
}

/// The lines are drawn over everything else: no pass comes after them.
pub proof fn lines_are_drawn_last(inputs: FrameInputs, i: int, j: int)
    requires
        0 <= i < frame_steps(inputs).len(),
        0 <= j < frame_steps(inputs).len(),
        frame_steps(inputs)[i] is Decorations,
        frame_steps(inputs)[j] is Glyphs || frame_steps(inputs)[j] is Backgrounds
            || frame_steps(inputs)[j] is Clear || frame_steps(inputs)[j] is ClearQuad,
    ensures
        j < i,
{
    let before = before_lines(inputs);
    let n = before.len();
    nothing_before_the_lines_draws_them(inputs);
    assert(lineless(before));
    if i < n {
        assert(frame_steps(inputs)[i] == before[i]);
    }
    if j >= n {
        let rest = line_steps(inputs) + after_lines(inputs);
        assert(frame_steps(inputs)[j] == rest[j - n]);
    }
}

/// A screen without a line pays for no pass over them, unless one is forced.
pub proof fn an_undecorated_screen_draws_no_lines(inputs: FrameInputs, i: int)
    requires
        !inputs.decorated,
        !inputs.asks().forces_decorations,
        0 <= i < frame_steps(inputs).len(),
    ensures
        !(frame_steps(inputs)[i] is Decorations),
{
    nothing_before_the_lines_draws_them(inputs);
    assert(lineless(line_steps(inputs)));
    assert(lineless(after_lines(inputs)));
    lineless_in_turn(before_lines(inputs), line_steps(inputs));
    lineless_in_turn(before_lines(inputs) + line_steps(inputs), after_lines(inputs));
}

} // verus!
