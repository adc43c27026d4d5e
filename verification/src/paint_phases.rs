//! Where a frame's paint time goes, phase by phase.
use vstd::prelude::*;

#[allow(unused_imports)]
use crate::text::decimal;
use crate::text::{concat2, concat3, decimal_text};

verus! {

/// A part of painting a frame.
#[derive(Clone, Copy, Debug, PartialEq, Eq, Structural)]
pub enum Phase {
    /// Walking the damaged rows and splitting them into styled runs.
    Capture,
    /// Clearing and rewriting the damaged rows' records.
    WriteRows,
    /// Drawing underlines and strikeouts again.
    Decorations,
}

/// What a phase is called.
pub open spec fn phase_name(phase: Phase) -> Seq<char> {
    match phase {
        Phase::Capture => "capture"@,
        Phase::WriteRows => "write"@,
        Phase::Decorations => "decor"@,
    }
}

impl Phase {
    /// What the phase is called.
    pub fn name(self) -> (r: &'static str)
        ensures
            r@ == phase_name(self),
    {
        match self {
            Phase::Capture => "capture",
            Phase::WriteRows => "write",
            Phase::Decorations => "decor",
        }
    }
}

/// How long a phase took in all, in nanoseconds, and how often it ran.
#[derive(Clone, Copy, Debug, PartialEq, Eq, Structural)]
pub struct PhaseTotal {
    pub elapsed: u64,
    pub calls: u64,
}

/// What was recorded.
#[derive(Clone, Copy, Debug, PartialEq, Eq, Structural)]
pub struct Totals {
    pub capture: PhaseTotal,
    pub write_rows: PhaseTotal,
    pub decorations: PhaseTotal,
    pub glyph_misses: u64,
}

/// How a duration of so many nanoseconds is written.
pub uninterp spec fn duration_text(nanos: nat) -> Seq<char>;

/// `format!("{:?}")` on a [`std::time::Duration`] of `nanos` nanoseconds. The
/// text depends on the nanoseconds alone.
#[verifier::external_body]
fn write_duration(nanos: u64) -> (r: String)
    ensures
        r@ == duration_text(nanos as nat),
{
    format!("{:?}", std::time::Duration::from_nanos(nanos))
}

/// The parts of a summary: a phase that never ran is left out.
pub open spec fn phase_summary(phase: Phase, total: PhaseTotal, took: Seq<char>) -> Seq<char> {
    if total.calls == 0 {
        Seq::empty()
    } else {
        phase_name(phase) + " "@ + took + "/"@ + decimal(total.calls as nat) + " "@
    }
}

/// One phase of a summary, from how its time is written.
pub fn summarize_phase(phase: Phase, total: PhaseTotal, took: &str) -> (r: String)
    ensures
        r@ == phase_summary(phase, total, took@),
{
    if total.calls == 0 {
        return String::new();
    }
    let head = concat3(phase.name(), " ", took);
    let calls = concat3("/", decimal_text(total.calls).as_str(), " ");
    let text = concat2(head.as_str(), calls.as_str());
    assert(text@ =~= phase_summary(phase, total, took@));
    text
}

impl Totals {
    /// Nothing recorded.
    pub fn new() -> (r: Self)
        ensures
            forall|phase: Phase| #[trigger] r.of(phase) == (PhaseTotal { elapsed: 0, calls: 0 }),
            r.glyph_misses == 0,
    {
        let none = PhaseTotal { elapsed: 0, calls: 0 };
        Totals { capture: none, write_rows: none, decorations: none, glyph_misses: 0 }
    }

    /// What was recorded of a phase.
    pub open spec fn of(self, phase: Phase) -> PhaseTotal {
        match phase {
            Phase::Capture => self.capture,
            Phase::WriteRows => self.write_rows,
            Phase::Decorations => self.decorations,
        }
    }

    /// Forget what was recorded.
    pub fn reset(&mut self)
        ensures
            forall|phase: Phase| #[trigger]
                final(self).of(phase) == (PhaseTotal { elapsed: 0, calls: 0 }),
            final(self).glyph_misses == 0,
    {
        *self = Totals::new();
    }

    /// Record that a phase ran for `nanos` nanoseconds.
    pub fn record(&mut self, phase: Phase, nanos: u64)
        requires
            old(self).of(phase).elapsed + nanos <= u64::MAX,
            old(self).of(phase).calls < u64::MAX,
        ensures
            final(self).of(phase).elapsed == old(self).of(phase).elapsed + nanos,
            final(self).of(phase).calls == old(self).of(phase).calls + 1,
            forall|other: Phase|
                other != phase ==> #[trigger] final(self).of(other) == old(self).of(other),
            final(self).glyph_misses == old(self).glyph_misses,
    {
        match phase {
            Phase::Capture => {
                self.capture.elapsed += nanos;
                self.capture.calls += 1;
            },
            Phase::WriteRows => {
                self.write_rows.elapsed += nanos;
                self.write_rows.calls += 1;
            },
            Phase::Decorations => {
                self.decorations.elapsed += nanos;
                self.decorations.calls += 1;
            },
        }
    }

    /// The totals of one frame, for a run that recorded `frames` of them.
    pub fn per_frame(self, frames: u32) -> (r: Self)
        requires
            frames > 0,
        ensures
            forall|phase: Phase| #[trigger]
                r.of(phase) == (PhaseTotal {
                    elapsed: (self.of(phase).elapsed as nat / frames as nat) as u64,
                    calls: (self.of(phase).calls as nat / frames as nat) as u64,
                }),
            r.glyph_misses == self.glyph_misses as nat / frames as nat,
    {
        let n: u64 = frames as u64;
        Totals {
            capture: PhaseTotal {
                elapsed: self.capture.elapsed / n,
                calls: self.capture.calls / n,
            },
            write_rows: PhaseTotal {
                elapsed: self.write_rows.elapsed / n,
                calls: self.write_rows.calls / n,
            },
            decorations: PhaseTotal {
                elapsed: self.decorations.elapsed / n,
                calls: self.decorations.calls / n,
            },
            glyph_misses: self.glyph_misses / n,
        }
    }

    /// Whether both can be added up.
    pub open spec fn fits(self, more: Totals) -> bool {
        &&& forall|phase: Phase|
            #![trigger self.of(phase)]
            self.of(phase).elapsed + more.of(phase).elapsed <= u64::MAX && self.of(phase).calls
                + more.of(phase).calls <= u64::MAX
        &&& self.glyph_misses + more.glyph_misses <= u64::MAX
    }

    /// Add what another run recorded.
    pub fn add_assign(&mut self, rhs: Self)
        requires
            old(self).fits(rhs),
        ensures
            forall|phase: Phase| #[trigger]
                final(self).of(phase) == (PhaseTotal {
                    elapsed: (old(self).of(phase).elapsed + rhs.of(phase).elapsed) as u64,
                    calls: (old(self).of(phase).calls + rhs.of(phase).calls) as u64,
                }),
            final(self).glyph_misses == old(self).glyph_misses + rhs.glyph_misses,
    {
        assert(self.of(Phase::Capture) == self.capture);
        assert(self.of(Phase::WriteRows) == self.write_rows);
        assert(self.of(Phase::Decorations) == self.decorations);
        self.capture.elapsed += rhs.capture.elapsed;
        self.capture.calls += rhs.capture.calls;
        self.write_rows.elapsed += rhs.write_rows.elapsed;
        self.write_rows.calls += rhs.write_rows.calls;
        self.decorations.elapsed += rhs.decorations.elapsed;
        self.decorations.calls += rhs.decorations.calls;
        self.glyph_misses += rhs.glyph_misses;
    }

    /// The totals on one line, ready to print beside a frame's own timings:
    /// each phase that ran with its time and its calls, then the misses.
    pub fn summary(self) -> (r: String)
        ensures
            r@ == phase_summary(
                Phase::Capture,
                self.capture,
                duration_text(self.capture.elapsed as nat),
            ) + phase_summary(
                Phase::WriteRows,
                self.write_rows,
                duration_text(self.write_rows.elapsed as nat),
            ) + phase_summary(
                Phase::Decorations,
                self.decorations,
                duration_text(self.decorations.elapsed as nat),
            ) + "miss "@ + decimal(self.glyph_misses as nat),
    {
        let a = summarize_phase(
            Phase::Capture,
            self.capture,
            write_duration(self.capture.elapsed).as_str(),
        );
        let b = summarize_phase(
            Phase::WriteRows,
            self.write_rows,
            write_duration(self.write_rows.elapsed).as_str(),
        );
        let c = summarize_phase(
            Phase::Decorations,
            self.decorations,
            write_duration(self.decorations.elapsed).as_str(),
        );
        let phases = concat3(a.as_str(), b.as_str(), c.as_str());
        concat3(phases.as_str(), "miss ", decimal_text(self.glyph_misses).as_str())
    }
}

/// Record a glyph that had to be laid out because the table did not hold it.
pub fn record_glyph_miss(totals: &mut Totals)
    requires
        old(totals).glyph_misses < u64::MAX,
    ensures
        *final(totals) == (Totals {
            glyph_misses: (old(totals).glyph_misses + 1) as u64,
            ..*old(totals)
        }),
{
    totals.glyph_misses += 1;
}

} // verus!
