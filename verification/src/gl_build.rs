//! Building the programs that draw the grid.
//!
//! A driver may reject a shader, and each attempt makes objects before it
//! discovers that, so every object a failed attempt made is given back and no
//! attempt is made twice. [`Linking`] makes one program out of two shaders,
//! [`Build`] makes every object the grid is drawn with, and [`GpuGrid`] holds
//! how far that got. Each says what to do next; whoever holds the graphics
//! context does it and reports whether it worked.
use vstd::prelude::*;

use crate::gl_frame::Extras;
use crate::grid_gl::{Ab, GridState, Timing};
use crate::text::concat2;

verus! {

/// The dialects of the shading language a context can speak.
#[derive(Clone, Copy, Debug, PartialEq, Eq, Structural)]
pub enum ShaderVersion {
    Gl120,
    Gl140,
    Es100,
    Es300,
}

/// The name of a dialect.
pub open spec fn version_name(version: ShaderVersion) -> Seq<char> {
    match version {
        ShaderVersion::Gl120 => "Gl120"@,
        ShaderVersion::Gl140 => "Gl140"@,
        ShaderVersion::Es100 => "Es100"@,
        ShaderVersion::Es300 => "Es300"@,
    }
}

/// What a shader of a dialect starts with.
pub open spec fn header_of(version: ShaderVersion) -> Result<Seq<char>, Seq<char>> {
    match version {
        ShaderVersion::Gl140 => Ok("#version 140\n"@),
        ShaderVersion::Es300 => Ok("#version 300 es\nprecision highp float;\n"@),
        _ => Err(version_name(version) + " has no instanced arrays"@),
    }
}

/// What every shader starts with. Instanced arrays, texel fetches and integer
/// attributes arrive together, so an older dialect cannot draw the grid.
pub fn shader_header(version: ShaderVersion) -> (r: Result<&'static str, String>)
    ensures
        (match r {
            Ok(header) => Ok(header@),
            Err(message) => Err(message@),
        }) == header_of(version),
        version is Gl140 ==> r is Ok && (r->Ok_0)@ == "#version 140\n"@,
        version is Es300 ==> r is Ok && (r->Ok_0)@
            == "#version 300 es\nprecision highp float;\n"@,
        version is Gl120 || version is Es100 ==> r is Err && (r->Err_0)@ == version_name(version)
            + " has no instanced arrays"@,
{
    match version {
        ShaderVersion::Gl140 => Ok("#version 140\n"),
        ShaderVersion::Es300 => Ok("#version 300 es\nprecision highp float;\n"),
        ShaderVersion::Gl120 => Err(concat2("Gl120", " has no instanced arrays")),
        ShaderVersion::Es100 => Err(concat2("Es100", " has no instanced arrays")),
    }
}

/// The two shaders of a program, in the order they are made.
#[derive(Clone, Copy, Debug, PartialEq, Eq, Structural)]
pub enum ShaderKind {
    Vertex,
    Fragment,
}

/// One thing to do for a program. The creations, the compilation and the link
/// may fail, and each is the last step of its turn.
#[derive(Clone, Copy, Debug, PartialEq, Eq, Structural)]
pub enum LinkStep {
    CreateProgram,
    /// Bind every attribute to its location.
    BindAttributes,
    CreateShader(ShaderKind),
    /// Give a shader its text and compile it.
    Compile(ShaderKind),
    Attach(ShaderKind),
    Link,
    Detach(ShaderKind),
    DeleteShader(ShaderKind),
    DeleteProgram,
    /// Look up where the program takes its values.
    ReadUniforms,
}

/// How far a program got: what is being waited for.
#[derive(Clone, Copy, Debug, PartialEq, Eq, Structural)]
pub enum Linking {
    Program,
    Shader(ShaderKind),
    Compiled(ShaderKind),
    Linked,
    Done,
    Failed,
}

/// What a program's making has made so far.
pub struct Made {
    pub program: bool,
    pub vertex: bool,
    pub fragment: bool,
}

impl Linking {
    /// What there is while this is waited for.
    pub open spec fn made(self) -> Made {
        match self {
            Linking::Program => Made { program: false, vertex: false, fragment: false },
            Linking::Shader(ShaderKind::Vertex) => Made {
                program: true,
                vertex: false,
                fragment: false,
            },
            Linking::Shader(ShaderKind::Fragment) => Made {
                program: true,
                vertex: true,
                fragment: false,
            },
            Linking::Compiled(ShaderKind::Vertex) => Made {
                program: true,
                vertex: true,
                fragment: false,
            },
            Linking::Compiled(ShaderKind::Fragment) => Made {
                program: true,
                vertex: true,
                fragment: true,
            },
            Linking::Linked => Made { program: true, vertex: true, fragment: true },
            Linking::Done => Made { program: true, vertex: false, fragment: false },
            Linking::Failed => Made { program: false, vertex: false, fragment: false },
        }
    }

    /// What there is once what was waited for succeeded.
    pub open spec fn made_and_got(self) -> Made {
        match self {
            Linking::Program => Made { program: true, ..self.made() },
            Linking::Shader(ShaderKind::Vertex) => Made { vertex: true, ..self.made() },
            Linking::Shader(ShaderKind::Fragment) => Made { fragment: true, ..self.made() },
            _ => self.made(),
        }
    }

    /// What is waited for next.
    pub open spec fn after(self, succeeded: bool) -> Linking {
        match self {
            Linking::Done | Linking::Failed => self,
            _ if !succeeded => Linking::Failed,
            Linking::Program => Linking::Shader(ShaderKind::Vertex),
            Linking::Shader(kind) => Linking::Compiled(kind),
            Linking::Compiled(ShaderKind::Vertex) => Linking::Shader(ShaderKind::Fragment),
            Linking::Compiled(ShaderKind::Fragment) => Linking::Linked,
            Linking::Linked => Linking::Done,
        }
    }

    /// What is done about it.
    pub open spec fn steps(self, succeeded: bool) -> Seq<LinkStep> {
        if succeeded {
            match self {
                Linking::Program => seq![
                    LinkStep::BindAttributes,
                    LinkStep::CreateShader(ShaderKind::Vertex),
                ],
                Linking::Shader(kind) => seq![LinkStep::Compile(kind)],
                Linking::Compiled(ShaderKind::Vertex) => seq![
                    LinkStep::Attach(ShaderKind::Vertex),
                    LinkStep::CreateShader(ShaderKind::Fragment),
                ],
                Linking::Compiled(ShaderKind::Fragment) => seq![
                    LinkStep::Attach(ShaderKind::Fragment),
                    LinkStep::Link,
                ],
                Linking::Linked => seq![
                    LinkStep::Detach(ShaderKind::Vertex),
                    LinkStep::DeleteShader(ShaderKind::Vertex),
                    LinkStep::Detach(ShaderKind::Fragment),
                    LinkStep::DeleteShader(ShaderKind::Fragment),
                    LinkStep::ReadUniforms,
                ],
                _ => Seq::empty(),
            }
        } else {
            let made = self.made();
            if self is Done || self is Failed || !made.program {
                Seq::empty()
            } else if made.fragment {
                seq![
                    LinkStep::DeleteShader(ShaderKind::Vertex),
                    LinkStep::DeleteShader(ShaderKind::Fragment),
                    LinkStep::DeleteProgram,
                ]
            } else if made.vertex {
                seq![LinkStep::DeleteShader(ShaderKind::Vertex), LinkStep::DeleteProgram]
            } else {
                seq![LinkStep::DeleteProgram]
            }
        }
    }

    /// Start a program: the first thing to do is to create it.
    pub fn start() -> (r: (Linking, LinkStep))
        ensures
            r.0 == Linking::Program,
            r.1 == LinkStep::CreateProgram,
    {
        (Linking::Program, LinkStep::CreateProgram)
    }

    /// Go on from what was waited for: what to do next, in order.
    pub fn next(&mut self, succeeded: bool) -> (r: Vec<LinkStep>)
        ensures
            *final(self) == old(self).after(succeeded),
            r@ == old(self).steps(succeeded),
    {
        let was = *self;
        let mut steps: Vec<LinkStep> = Vec::new();
        if succeeded {
            match was {
                Linking::Program => {
                    steps.push(LinkStep::BindAttributes);
                    steps.push(LinkStep::CreateShader(ShaderKind::Vertex));
                    *self = Linking::Shader(ShaderKind::Vertex);
                },
                Linking::Shader(kind) => {
                    steps.push(LinkStep::Compile(kind));
                    *self = Linking::Compiled(kind);
                },
                Linking::Compiled(ShaderKind::Vertex) => {
                    steps.push(LinkStep::Attach(ShaderKind::Vertex));
                    steps.push(LinkStep::CreateShader(ShaderKind::Fragment));
                    *self = Linking::Shader(ShaderKind::Fragment);
                },
                Linking::Compiled(ShaderKind::Fragment) => {
                    steps.push(LinkStep::Attach(ShaderKind::Fragment));
                    steps.push(LinkStep::Link);
                    *self = Linking::Linked;
                },
                Linking::Linked => {
                    steps.push(LinkStep::Detach(ShaderKind::Vertex));
                    steps.push(LinkStep::DeleteShader(ShaderKind::Vertex));
                    steps.push(LinkStep::Detach(ShaderKind::Fragment));
                    steps.push(LinkStep::DeleteShader(ShaderKind::Fragment));
                    steps.push(LinkStep::ReadUniforms);
                    *self = Linking::Done;
                },
                Linking::Done => {},
                Linking::Failed => {},
            }
        } else {
            match was {
                Linking::Program | Linking::Failed | Linking::Done => {},
                Linking::Shader(ShaderKind::Vertex) => {},
                Linking::Shader(ShaderKind::Fragment) | Linking::Compiled(ShaderKind::Vertex) => {
                    steps.push(LinkStep::DeleteShader(ShaderKind::Vertex));
                },
                Linking::Compiled(ShaderKind::Fragment) | Linking::Linked => {
                    steps.push(LinkStep::DeleteShader(ShaderKind::Vertex));
                    steps.push(LinkStep::DeleteShader(ShaderKind::Fragment));
                },
            }
            match was {
                Linking::Done => {},
                Linking::Failed => {},
                Linking::Program => {
                    *self = Linking::Failed;
                },
                _ => {
                    steps.push(LinkStep::DeleteProgram);
                    *self = Linking::Failed;
                },
            }
        }
        assert(steps@ =~= was.steps(succeeded));
        steps
    }
}

/// What is left once `steps` were taken.
pub open spec fn left(made: Made, steps: Seq<LinkStep>) -> Made
    decreases steps.len(),
{
    if steps.len() == 0 {
        made
    } else {
        let before = left(made, steps.drop_last());
        match steps.last() {
            LinkStep::DeleteShader(ShaderKind::Vertex) => Made { vertex: false, ..before },
            LinkStep::DeleteShader(ShaderKind::Fragment) => Made { fragment: false, ..before },
            LinkStep::DeleteProgram => Made { program: false, ..before },
            _ => before,
        }
    }
}

proof fn left_after_one(made: Made, steps: Seq<LinkStep>, step: LinkStep)
    ensures
        left(made, steps.push(step)) == match step {
            LinkStep::DeleteShader(ShaderKind::Vertex) => Made {
                vertex: false,
                ..left(made, steps)
            },
            LinkStep::DeleteShader(ShaderKind::Fragment) => Made {
                fragment: false,
                ..left(made, steps)
            },
            LinkStep::DeleteProgram => Made { program: false, ..left(made, steps) },
            _ => left(made, steps),
        },
{
    assert(steps.push(step).drop_last() =~= steps);
}

/// At every turn what there is is exactly what was made and not given back: a
/// failed program leaves nothing, and a finished one itself alone.
pub proof fn a_link_leaves_nothing_behind(linking: Linking, succeeded: bool)
    ensures
        ({
            let got = if succeeded {
                linking.made_and_got()
            } else {
                linking.made()
            };
            left(got, linking.steps(succeeded)) == linking.after(succeeded).made()
        }),
{
    let got = if succeeded {
        linking.made_and_got()
    } else {
        linking.made()
    };
    let steps = linking.steps(succeeded);
    let n = steps.len();
    reveal_with_fuel(left, 1);
    if n >= 1 {
        assert(steps.take(0) =~= Seq::empty());
        left_after_one(got, steps.take(0), steps[0]);
        assert(steps.take(0).push(steps[0]) =~= steps.take(1));
    }
    if n >= 2 {
        left_after_one(got, steps.take(1), steps[1]);
        assert(steps.take(1).push(steps[1]) =~= steps.take(2));
    }
    if n >= 3 {
        left_after_one(got, steps.take(2), steps[2]);
        assert(steps.take(2).push(steps[2]) =~= steps.take(3));
    }
    if n >= 4 {
        left_after_one(got, steps.take(3), steps[3]);
        assert(steps.take(3).push(steps[3]) =~= steps.take(4));
    }
    if n >= 5 {
        left_after_one(got, steps.take(4), steps[4]);
        assert(steps.take(4).push(steps[4]) =~= steps.take(5));
    }
    assert(steps.take(n as int) =~= steps);
}

/// The programs the grid is drawn with, in the order they are linked.
#[derive(Clone, Copy, Debug, PartialEq, Eq, Structural)]
pub enum ProgramName {
    Glyph,
    Background,
    Decoration,
    GlyphGamma,
    GlyphDiscard,
    ClearQuad,
}

/// One thing to do for the grid's objects. All but the deletions and the
/// configuration may fail, and each such is the last step of its turn.
#[derive(Clone, Copy, Debug, PartialEq, Eq, Structural)]
pub enum BuildStep {
    Link(ProgramName),
    DeleteProgram(ProgramName),
    CreateVertexArray,
    CreateBuffer,
    CreateTexture,
    /// Have the slot texture sampled as it stands, without filtering.
    ConfigureTexture,
    /// See whether the context can time what it draws.
    StartTimers,
}

/// What came of the step that was waited for.
#[derive(Clone, Copy, Debug, PartialEq, Eq, Structural)]
pub enum BuildEvent {
    Made,
    Refused,
}

/// How far the grid's objects got: what is being waited for.
#[derive(Clone, Copy, Debug, PartialEq, Eq, Structural)]
pub enum Stand {
    Program(ProgramName),
    VertexArray,
    Buffer,
    Texture,
    Timers,
    Ready,
    Failed,
}

/// The making of the grid's objects.
#[derive(Clone, Copy, Debug, PartialEq, Eq, Structural)]
pub struct Build {
    pub timing: Timing,
    pub stand: Stand,
    /// Whether what is drawn is timed.
    pub timed: bool,
    /// The programs made for the sake of a comparison.
    pub extras: Extras,
}

pub open spec fn no_extras() -> Extras {
    Extras { glyph_gamma: false, glyph_discard: false, clear_quad: false }
}

/// The next program a comparison asks for, from `name` on.
pub open spec fn extra_from(ab: Ab, name: ProgramName) -> Option<ProgramName> {
    if name is GlyphGamma && ab.glyph_gamma {
        Some(ProgramName::GlyphGamma)
    } else if (name is GlyphGamma || name is GlyphDiscard) && ab.glyph_discard {
        Some(ProgramName::GlyphDiscard)
    } else if ab.clear_quad {
        Some(ProgramName::ClearQuad)
    } else {
        None
    }
}

impl Build {
    /// The build once it waits for the next program the comparison asks for,
    /// from `name` on, or is ready.
    pub open spec fn on_to(self, name: ProgramName) -> Build {
        match extra_from(self.timing.ab, name) {
            Some(next) => Build { stand: Stand::Program(next), ..self },
            None => Build { stand: Stand::Ready, ..self },
        }
    }

    /// What the build becomes. A context that cannot time is drawn with all
    /// the same, only untimed.
    pub open spec fn after(self, event: BuildEvent) -> Build {
        let failed = Build { stand: Stand::Failed, ..self };
        match self.stand {
            Stand::Ready | Stand::Failed => self,
            Stand::Timers => if event is Made {
                (Build { timed: true, ..self }).on_to(ProgramName::GlyphGamma)
            } else {
                Build { stand: Stand::Ready, ..self }
            },
            _ if event is Refused => failed,
            Stand::Program(ProgramName::Glyph) => Build {
                stand: Stand::Program(ProgramName::Background),
                ..self
            },
            Stand::Program(ProgramName::Background) => Build {
                stand: Stand::Program(ProgramName::Decoration),
                ..self
            },
            Stand::Program(ProgramName::Decoration) => Build { stand: Stand::VertexArray, ..self },
            Stand::VertexArray => Build { stand: Stand::Buffer, ..self },
            Stand::Buffer => Build { stand: Stand::Texture, ..self },
            Stand::Texture => if self.timing.enabled {
                Build { stand: Stand::Timers, ..self }
            } else {
                Build { stand: Stand::Ready, ..self }
            },
            Stand::Program(ProgramName::GlyphGamma) => (Build {
                extras: Extras { glyph_gamma: true, ..self.extras },
                ..self
            }).on_to(ProgramName::GlyphDiscard),
            Stand::Program(ProgramName::GlyphDiscard) => (Build {
                extras: Extras { glyph_discard: true, ..self.extras },
                ..self
            }).on_to(ProgramName::ClearQuad),
            Stand::Program(ProgramName::ClearQuad) => Build {
                extras: Extras { clear_quad: true, ..self.extras },
                stand: Stand::Ready,
                ..self
            },
        }
    }

    /// What to do once the build waits for something.
    pub open spec fn asked(stand: Stand) -> Seq<BuildStep> {
        match stand {
            Stand::Program(name) => seq![BuildStep::Link(name)],
            Stand::VertexArray => seq![BuildStep::CreateVertexArray],
            Stand::Buffer => seq![BuildStep::CreateBuffer],
            Stand::Texture => seq![BuildStep::CreateTexture],
            Stand::Timers => seq![BuildStep::StartTimers],
            Stand::Ready | Stand::Failed => Seq::empty(),
        }
    }

    /// What is done about an event: a refused program takes those linked
    /// before it along.
    pub open spec fn steps(self, event: BuildEvent) -> Seq<BuildStep> {
        if self.stand is Ready || self.stand is Failed {
            Seq::empty()
        } else if event is Refused && self.stand == Stand::Program(ProgramName::Background) {
            seq![BuildStep::DeleteProgram(ProgramName::Glyph)]
        } else if event is Refused && self.stand == Stand::Program(ProgramName::Decoration) {
            seq![
                BuildStep::DeleteProgram(ProgramName::Glyph),
                BuildStep::DeleteProgram(ProgramName::Background),
            ]
        } else if event is Made && self.stand is Texture {
            seq![BuildStep::ConfigureTexture] + Build::asked(self.after(event).stand)
        } else {
            Build::asked(self.after(event).stand)
        }
    }

    /// Start making the grid's objects with the first of the programs.
    pub fn start(timing: Timing) -> (r: (Build, BuildStep))
        ensures
            r.0 == (Build {
                timing,
                stand: Stand::Program(ProgramName::Glyph),
                timed: false,
                extras: no_extras(),
            }),
            r.1 == BuildStep::Link(ProgramName::Glyph),
    {
        let build = Build {
            timing,
            stand: Stand::Program(ProgramName::Glyph),
            timed: false,
            extras: Extras { glyph_gamma: false, glyph_discard: false, clear_quad: false },
        };
        (build, BuildStep::Link(ProgramName::Glyph))
    }

    fn go_on(&mut self, name: ProgramName)
        ensures
            *final(self) == old(self).on_to(name),
    {
        let ab = self.timing.ab;
        let gamma = matches!(name, ProgramName::GlyphGamma);
        let discard = gamma || matches!(name, ProgramName::GlyphDiscard);
        self.stand = if gamma && ab.glyph_gamma {
            Stand::Program(ProgramName::GlyphGamma)
        } else if discard && ab.glyph_discard {
            Stand::Program(ProgramName::GlyphDiscard)
        } else if ab.clear_quad {
            Stand::Program(ProgramName::ClearQuad)
        } else {
            Stand::Ready
        };
    }

    /// Go on from what was waited for: what to do next, in order.
    pub fn next(&mut self, event: BuildEvent) -> (r: Vec<BuildStep>)
        ensures
            *final(self) == old(self).after(event),
            r@ == old(self).steps(event),
    {
        let was = *self;
        let made = matches!(event, BuildEvent::Made);
        let mut steps: Vec<BuildStep> = Vec::new();
        match was.stand {
            Stand::Ready | Stand::Failed => {
                return steps;
            },
            Stand::Timers => {
                if made {
                    self.timed = true;
                    self.go_on(ProgramName::GlyphGamma);
                } else {
                    self.stand = Stand::Ready;
                }
            },
            Stand::Program(ProgramName::Glyph) => {
                self.stand = if made {
                    Stand::Program(ProgramName::Background)
                } else {
                    Stand::Failed
                };
            },
            Stand::Program(ProgramName::Background) => {
                if made {
                    self.stand = Stand::Program(ProgramName::Decoration);
                } else {
                    steps.push(BuildStep::DeleteProgram(ProgramName::Glyph));
                    self.stand = Stand::Failed;
                }
            },
            Stand::Program(ProgramName::Decoration) => {
                if made {
                    self.stand = Stand::VertexArray;
                } else {
                    steps.push(BuildStep::DeleteProgram(ProgramName::Glyph));
                    steps.push(BuildStep::DeleteProgram(ProgramName::Background));
                    self.stand = Stand::Failed;
                }
            },
            Stand::VertexArray => {
                self.stand = if made {
                    Stand::Buffer
                } else {
                    Stand::Failed
                };
            },
            Stand::Buffer => {
                self.stand = if made {
                    Stand::Texture
                } else {
                    Stand::Failed
                };
            },
            Stand::Texture => {
                if made {
                    steps.push(BuildStep::ConfigureTexture);
                    self.stand = if self.timing.enabled {
                        Stand::Timers
                    } else {
                        Stand::Ready
                    };
                } else {
                    self.stand = Stand::Failed;
                }
            },
            Stand::Program(ProgramName::GlyphGamma) => {
                if made {
                    self.extras.glyph_gamma = true;
                    self.go_on(ProgramName::GlyphDiscard);
                } else {
                    self.stand = Stand::Failed;
                }
            },
            Stand::Program(ProgramName::GlyphDiscard) => {
                if made {
                    self.extras.glyph_discard = true;
                    self.go_on(ProgramName::ClearQuad);
                } else {
                    self.stand = Stand::Failed;
                }
            },
            Stand::Program(ProgramName::ClearQuad) => {
                if made {
                    self.extras.clear_quad = true;
                    self.stand = Stand::Ready;
                } else {
                    self.stand = Stand::Failed;
                }
            },
        }
        match self.stand {
            Stand::Program(name) => steps.push(BuildStep::Link(name)),
            Stand::VertexArray => steps.push(BuildStep::CreateVertexArray),
            Stand::Buffer => steps.push(BuildStep::CreateBuffer),
            Stand::Texture => steps.push(BuildStep::CreateTexture),
            Stand::Timers => steps.push(BuildStep::StartTimers),
            Stand::Ready => {},
            Stand::Failed => {},
        }
        assert(steps@ =~= was.steps(event));
        steps
    }
}

/// A refused program gives back every program linked before it, while nothing
/// but programs was made.
pub proof fn a_refused_program_gives_the_others_back(build: Build, linked: Seq<ProgramName>)
    requires
        ({
            ||| build.stand == Stand::Program(ProgramName::Glyph) && linked == Seq::<
                ProgramName,
            >::empty()
            ||| build.stand == Stand::Program(ProgramName::Background) && linked == seq![
                ProgramName::Glyph,
            ]
            ||| build.stand == Stand::Program(ProgramName::Decoration) && linked == seq![
                ProgramName::Glyph,
                ProgramName::Background,
            ]
        }),
    ensures
        build.after(BuildEvent::Refused).stand is Failed,
        build.steps(BuildEvent::Refused) == linked.map_values(
            |name: ProgramName| BuildStep::DeleteProgram(name),
        ),
{
    assert(build.steps(BuildEvent::Refused) =~= linked.map_values(
        |name: ProgramName| BuildStep::DeleteProgram(name),
    ));
}

/// A program for a comparison is made only where the comparison is about it.
pub proof fn an_extra_is_made_when_asked(build: Build, event: BuildEvent)
    requires
        build.extras.glyph_gamma ==> build.timing.ab.glyph_gamma,
        build.extras.glyph_discard ==> build.timing.ab.glyph_discard,
        build.extras.clear_quad ==> build.timing.ab.clear_quad,
        build.stand == Stand::Program(ProgramName::GlyphGamma) ==> build.timing.ab.glyph_gamma,
        build.stand == Stand::Program(ProgramName::GlyphDiscard) ==> build.timing.ab.glyph_discard,
        build.stand == Stand::Program(ProgramName::ClearQuad) ==> build.timing.ab.clear_quad,
    ensures
        ({
            let after = build.after(event);
            &&& after.timing == build.timing
            &&& after.extras.glyph_gamma ==> after.timing.ab.glyph_gamma
            &&& after.extras.glyph_discard ==> after.timing.ab.glyph_discard
            &&& after.extras.clear_quad ==> after.timing.ab.clear_quad
            &&& after.stand == Stand::Program(ProgramName::GlyphGamma)
                ==> after.timing.ab.glyph_gamma
            &&& after.stand == Stand::Program(ProgramName::GlyphDiscard)
                ==> after.timing.ab.glyph_discard
            &&& after.stand == Stand::Program(ProgramName::ClearQuad)
                ==> after.timing.ab.clear_quad
        }),
{
}

/// What a frame does with the objects as far as they got.
pub open spec fn paint_of(gl: GlSlot) -> Paint {
    match gl {
        GlSlot::Unbuilt => Paint::Build,
        GlSlot::Ready => Paint::Draw,
        GlSlot::Failed => Paint::Nothing,
    }
}

/// How far the objects got once making them came to something.
pub open spec fn built_from(gl: GlSlot, made: bool) -> GlSlot {
    if !(gl is Unbuilt) {
        gl
    } else if made {
        GlSlot::Ready
    } else {
        GlSlot::Failed
    }
}

/// How far the grid's objects got over the life of the window.
#[derive(Clone, Copy, Debug, PartialEq, Eq, Structural)]
pub enum GlSlot {
    Unbuilt,
    Ready,
    Failed,
}

/// What a frame does.
#[derive(Clone, Copy, Debug, PartialEq, Eq, Structural)]
pub enum Paint {
    /// Make the objects, report, and ask again.
    Build,
    Draw,
    /// Nothing: the objects cannot be made.
    Nothing,
}

/// The grid's records beside what is known of the graphics side.
pub struct GpuGrid {
    pub state: GridState,
    pub gl: GlSlot,
}

impl GpuGrid {
    pub fn new() -> (r: Self)
        ensures
            r.gl is Unbuilt,
            r.state.wf(),
            r.state.instances.cols == 0,
            r.state.instances.rows == 0,
    {
        GpuGrid { state: GridState::default(), gl: GlSlot::Unbuilt }
    }

    /// Whether the objects are known not to build, so that the grid has to be
    /// drawn another way.
    pub fn unavailable(&self) -> (r: bool)
        ensures
            r == (self.gl is Failed),
    {
        matches!(self.gl, GlSlot::Failed)
    }

    /// Take it that the objects do not build.
    pub fn mark_unavailable(&mut self)
        ensures
            *final(self) == (GpuGrid { gl: GlSlot::Failed, ..*old(self) }),
    {
        self.gl = GlSlot::Failed;
    }

    /// What a frame does.
    pub fn paint(&self) -> (r: Paint)
        ensures
            r == paint_of(self.gl),
            r == match self.gl {
                GlSlot::Unbuilt => Paint::Build,
                GlSlot::Ready => Paint::Draw,
                GlSlot::Failed => Paint::Nothing,
            },
    {
        match self.gl {
            GlSlot::Unbuilt => Paint::Build,
            GlSlot::Ready => Paint::Draw,
            GlSlot::Failed => Paint::Nothing,
        }
    }

    /// Take what came of making the objects. Only the first word counts: a
    /// driver that refused once refuses every frame.
    pub fn built(&mut self, made: bool)
        ensures
            final(self).gl == built_from(old(self).gl, made),
            *final(self) == (GpuGrid {
                gl: if !(old(self).gl is Unbuilt) {
                    old(self).gl
                } else if made {
                    GlSlot::Ready
                } else {
                    GlSlot::Failed
                },
                ..*old(self)
            }),
            !(final(self).gl is Unbuilt),
    {
        if matches!(self.gl, GlSlot::Unbuilt) {
            self.gl = if made {
                GlSlot::Ready
            } else {
                GlSlot::Failed
            };
        }
    }
}

} // verus!
