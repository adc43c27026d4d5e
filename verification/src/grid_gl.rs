//! What a grid drawn by the graphics card decides.
//!
//! The card keeps a copy of the cell records and of the glyph artwork. This
//! module says what of them has to be sent before a frame, in which order the
//! passes of a frame are drawn, and how the programs that draw them are built
//! and given back when the driver rejects one. Whoever holds the graphics
//! context performs the steps and reports what came of them.
//!
//! Three passes run over one buffer of records: the backgrounds, the glyphs,
//! then the lines under and through the text. The lines go last, so that a
//! descender crossing an underline comes out under it.
use vstd::prelude::*;

use crate::grid_instances::{blank_art, GlyphInstance, GlyphSlot, GlyphTable, GridInstances, CELL_BYTES};

verus! {

/// How many slots stand side by side in a row of the slot texture.
pub const SLOTS_PER_ROW: usize = 256;

/// What the comparison of two ways to draw is about.
#[derive(Clone, Copy, Debug, PartialEq, Eq, Structural)]
pub struct Ab {
    /// Coverage taken from the colour channels, against taking it from alpha.
    pub glyph_gamma: bool,
    /// Fragments without coverage thrown away, against blending them.
    pub glyph_discard: bool,
    /// The background drawn as one triangle, against clearing to it.
    pub clear_quad: bool,
}

/// What drawing a frame is asked to measure.
#[derive(Clone, Copy, Debug, PartialEq, Eq, Structural)]
pub struct Timing {
    /// Time the upload and each pass.
    pub enabled: bool,
    /// Alternate one of the passes between two ways to draw it.
    pub ab: Ab,
}

/// The rows from `start` up to `end`, if there are any.
pub open spec fn has_rows(rows: core::ops::Range<usize>) -> bool {
    rows.start < rows.end
}

/// The smallest range that holds both.
pub open spec fn merged_rows(
    a: core::ops::Range<usize>,
    b: core::ops::Range<usize>,
) -> core::ops::Range<usize> {
    core::ops::Range {
        start: if a.start < b.start {
            a.start
        } else {
            b.start
        },
        end: if a.end < b.end {
            b.end
        } else {
            a.end
        },
    }
}

/// The rows to send once `rows` are to be sent too.
pub open spec fn dirtied(
    was: core::ops::Range<usize>,
    rows: core::ops::Range<usize>,
) -> core::ops::Range<usize> {
    if has_rows(was) {
        merged_rows(was, rows)
    } else {
        rows
    }
}

/// What has to be sent of the records.
pub enum RecordUpload {
    /// Every record, into a buffer made for them.
    Whole,
    /// The bytes of the rows that were rewritten.
    Bytes(core::ops::Range<usize>),
    /// Nothing: the card's copy is current.
    Nothing,
}

/// What has to be sent before a frame is drawn.
pub struct Upload {
    /// How many texture rows the slot table takes, when it has to be sent.
    pub slot_rows: Option<usize>,
    pub records: RecordUpload,
    /// How many bytes the record buffer has room for afterwards.
    pub capacity: usize,
}

/// What the card's copy of the records is once `upload` was sent.
pub open spec fn received(
    held: Seq<GlyphInstance>,
    upload: RecordUpload,
    cells: Seq<GlyphInstance>,
) -> Seq<GlyphInstance> {
    match upload {
        RecordUpload::Whole => cells,
        RecordUpload::Bytes(span) => Seq::new(
            held.len(),
            |i: int|
                if span.start <= i * CELL_BYTES < span.end {
                    cells[i]
                } else {
                    held[i]
                },
        ),
        RecordUpload::Nothing => held,
    }
}

/// The records and the artwork of a grid, and what of them the card has.
pub struct GridState {
    pub instances: GridInstances,
    pub table: GlyphTable,
    /// The rows rewritten since the last upload.
    pub dirty_rows: core::ops::Range<usize>,
    pub uploaded_generation: u32,
    pub uploaded_dims: (usize, usize),
}

impl Default for GridState {
    fn default() -> (r: Self)
        ensures
            r.wf(),
            r.instances.cols == 0,
            r.instances.rows == 0,
            !has_rows(r.dirty_rows),
            r.uploaded_generation == 0,
            r.uploaded_dims == (0usize, 0usize),
    {
        GridState {
            instances: GridInstances::default(),
            table: GlyphTable::new(),
            dirty_rows: 0..0,
            uploaded_generation: 0,
            uploaded_dims: (0, 0),
        }
    }
}

/// How many texture rows `slots` take.
pub open spec fn texture_rows(slots: nat) -> nat {
    (slots + 255) / 256
}

impl GridState {
    pub open spec fn wf(self) -> bool {
        &&& self.instances.wf()
        &&& self.table.wf()
    }

    /// Whether `held`, which the card keeps, differs from the records in the
    /// rewritten rows at most. Nothing is known of it once the grid was given
    /// another size.
    pub open spec fn in_step(self, held: Seq<GlyphInstance>) -> bool {
        self.uploaded_dims == (self.instances.cols, self.instances.rows) ==> forall|
            row: int,
            col: int,
        |
            0 <= row < self.instances.rows && 0 <= col < self.instances.cols && !(
            self.dirty_rows.start <= row < self.dirty_rows.end) && row * self.instances.cols + col
                < held.len() ==> held[row * self.instances.cols + col]
                == #[trigger] self.instances.cell(row, col)
    }

    /// The rows that have to be sent.
    pub open spec fn rows_to_send(self) -> core::ops::Range<usize> {
        if self.uploaded_dims == (self.instances.cols, self.instances.rows) {
            self.dirty_rows
        } else {
            core::ops::Range { start: 0, end: self.instances.rows }
        }
    }

    /// What has to be sent of the records into a buffer with room for
    /// `capacity` bytes.
    pub open spec fn record_upload(self, capacity: usize) -> RecordUpload {
        let rows = self.rows_to_send();
        if capacity < self.instances.glyphs@.len() * CELL_BYTES {
            RecordUpload::Whole
        } else if has_rows(rows) {
            RecordUpload::Bytes(
                core::ops::Range {
                    start: (rows.start * (self.instances.cols * CELL_BYTES)) as usize,
                    end: (rows.end * (self.instances.cols * CELL_BYTES)) as usize,
                },
            )
        } else {
            RecordUpload::Nothing
        }
    }

    /// Have every row sent: a resize moved the records.
    pub fn mark_all_dirty(&mut self)
        ensures
            *final(self) == (GridState {
                dirty_rows: core::ops::Range { start: 0, end: old(self).instances.rows },
                ..*old(self)
            }),
    {
        self.dirty_rows = 0..self.instances.dimensions().1;
    }

    /// The records and the table, each to be written on its own.
    pub fn buffers(&mut self) -> (r: (&mut GridInstances, &mut GlyphTable))
        ensures
            *r.0 == old(self).instances,
            *r.1 == old(self).table,
            *final(self) == (GridState { instances: *final(r.0), table: *final(r.1), ..*old(self) }),
    {
        (&mut self.instances, &mut self.table)
    }

    /// Have `rows` sent. Two stretches are sent as one that holds both.
    pub fn mark_rows_dirty(&mut self, rows: core::ops::Range<usize>)
        ensures
            final(self).dirty_rows == dirtied(old(self).dirty_rows, rows),
            *final(self) == (GridState {
                dirty_rows: if has_rows(old(self).dirty_rows) {
                    merged_rows(old(self).dirty_rows, rows)
                } else {
                    rows
                },
                ..*old(self)
            }),
    {
        if self.dirty_rows.start >= self.dirty_rows.end {
            self.dirty_rows = rows;
        } else {
            let start: usize = if self.dirty_rows.start < rows.start {
                self.dirty_rows.start
            } else {
                rows.start
            };
            let end: usize = if self.dirty_rows.end < rows.end {
                rows.end
            } else {
                self.dirty_rows.end
            };
            self.dirty_rows = start..end;
        }
    }

    /// Say what has to be sent before a frame, into a record buffer with room
    /// for `capacity` bytes, and take it as sent.
    pub fn upload(&mut self, capacity: usize) -> (r: Upload)
        requires
            old(self).wf(),
            old(self).instances.glyphs@.len() * CELL_BYTES <= usize::MAX,
            old(self).instances.cols * CELL_BYTES <= usize::MAX,
            has_rows(old(self).rows_to_send()) ==> old(self).rows_to_send().end <= old(self).instances.rows,
        ensures
            r.slot_rows == if old(self).table@.generation != old(self).uploaded_generation {
                Some(texture_rows(old(self).table@.art.len()) as usize)
            } else {
                None
            },
            r.records == old(self).record_upload(capacity),
            r.capacity == if r.records is Whole {
                (old(self).instances.glyphs@.len() * CELL_BYTES) as usize
            } else {
                capacity
            },
            final(self).instances == old(self).instances,
            final(self).table == old(self).table,
            !has_rows(final(self).dirty_rows),
            final(self).uploaded_generation == old(self).table@.generation,
            final(self).uploaded_dims == (old(self).instances.cols, old(self).instances.rows),
            final(self).wf(),
    {
        proof {
            self.table.a_slot_belongs_to_one_character();
        }
        let generation = self.table.generation();
        let slot_rows = if generation != self.uploaded_generation {
            self.uploaded_generation = generation;
            let count: usize = self.table.slots().len();
            Some((count + 255) / 256)
        } else {
            None
        };
        let dims = self.instances.dimensions();
        if self.uploaded_dims.0 != dims.0 || self.uploaded_dims.1 != dims.1 {
            self.uploaded_dims = dims;
            self.mark_all_dirty();
        }
        let total: usize = self.instances.glyphs.len() * CELL_BYTES;
        let mut room: usize = capacity;
        let records = if capacity < total {
            room = total;
            RecordUpload::Whole
        } else if self.dirty_rows.start < self.dirty_rows.end {
            let first: usize = self.dirty_rows.start;
            let count: usize = self.dirty_rows.end - first;
            proof {
                bytes_of_rows_fit(
                    self.instances.cols as int,
                    self.instances.rows as int,
                    self.dirty_rows.end as int,
                );
            }
            RecordUpload::Bytes(self.instances.row_bytes(first, count))
        } else {
            RecordUpload::Nothing
        };
        self.dirty_rows = 0..0;
        Upload { slot_rows, records, capacity: room }
    }
}

proof fn bytes_of_rows_fit(cols: int, rows: int, end: int)
    requires
        0 <= cols,
        0 <= end <= rows,
    ensures
        end * (cols * 12) <= (rows * cols) * 12,
{
    assert(end * (cols * 12) <= (rows * cols) * 12) by (nonlinear_arith)
        requires
            0 <= cols,
            0 <= end <= rows,
    ;
}

proof fn a_row_starts_at_its_bytes(cols: int, row: int, col: int, first: int)
    requires
        0 <= col < cols,
        0 <= row,
        0 <= first,
    ensures
        first <= row ==> first * (cols * 12) <= (row * cols + col) * 12,
        row < first ==> (row * cols + col) * 12 < first * (cols * 12),
{
    if first <= row {
        assert(first * (cols * 12) <= (row * cols) * 12) by (nonlinear_arith)
            requires
                0 <= first <= row,
                0 < cols,
        ;
    } else {
        assert((row * cols) * 12 + cols * 12 <= first * (cols * 12)) by (nonlinear_arith)
            requires
                row + 1 <= first,
                0 <= row,
                0 < cols,
        ;
    }
}

/// Once an upload was sent, the card's copy holds every record as it stands.
pub proof fn an_upload_brings_the_card_up_to_date(
    state: GridState,
    held: Seq<GlyphInstance>,
    capacity: usize,
)
    requires
        state.instances.wf(),
        state.in_step(held),
        capacity == held.len() * CELL_BYTES,
        state.instances.glyphs@.len() * CELL_BYTES <= usize::MAX,
        has_rows(state.rows_to_send()) ==> state.rows_to_send().end <= state.instances.rows,
    ensures
        ({
            let cells = state.instances.glyphs@;
            let now = received(held, state.record_upload(capacity), cells);
            now.len() >= cells.len() && now.take(cells.len() as int) == cells
        }),
{
    let cells = state.instances.glyphs@;
    let cols = state.instances.cols as int;
    let rows = state.instances.rows as int;
    let now = received(held, state.record_upload(capacity), cells);
    if capacity >= cells.len() * CELL_BYTES {
        let send = state.rows_to_send();
        assert forall|i: int| 0 <= i < cells.len() implies now[i] == cells[i] by {
            let row = i / cols;
            let col = i % cols;
            assert(cols > 0) by (nonlinear_arith)
                requires
                    0 <= i < rows * cols,
                    0 <= cols,
            ;
            assert(i == row * cols + col && 0 <= col < cols && 0 <= row < rows)
                by (nonlinear_arith)
                requires
                    row == i / cols,
                    col == i % cols,
                    cols > 0,
                    0 <= i < rows * cols,
            ;
            assert(state.instances.cell(row, col) == cells[i]);
            if has_rows(send) {
                bytes_of_rows_fit(cols, rows, send.end as int);
                bytes_of_rows_fit(cols, rows, send.start as int);
                a_row_starts_at_its_bytes(cols, row, col, send.start as int);
                a_row_starts_at_its_bytes(cols, row, col, send.end as int);
            }
        }
        assert(now.take(cells.len() as int) =~= cells);
    } else {
        assert(now.take(cells.len() as int) =~= cells);
    }
}

/// Rewriting rows and marking them keeps the card's copy in step.
pub proof fn marking_what_was_rewritten_stays_in_step(
    before: GridState,
    after: GridState,
    rows: core::ops::Range<usize>,
    held: Seq<GlyphInstance>,
)
    requires
        before.in_step(held),
        after.uploaded_dims == before.uploaded_dims,
        after.instances.cols == before.instances.cols,
        after.instances.rows == before.instances.rows,
        forall|row: int, col: int|
            0 <= row < before.instances.rows && 0 <= col < before.instances.cols && !(rows.start
                <= row < rows.end) ==> #[trigger] after.instances.cell(row, col)
                == before.instances.cell(row, col),
        after.dirty_rows == if has_rows(before.dirty_rows) {
            merged_rows(before.dirty_rows, rows)
        } else {
            rows
        },
    ensures
        after.in_step(held),
{
    if after.uploaded_dims == (after.instances.cols, after.instances.rows) {
        assert forall|row: int, col: int|
            0 <= row < after.instances.rows && 0 <= col < after.instances.cols && !(
            after.dirty_rows.start <= row < after.dirty_rows.end) && row * after.instances.cols
                + col < held.len() implies held[row * after.instances.cols + col]
            == #[trigger] after.instances.cell(row, col) by {
            assert(before.instances.cell(row, col) == after.instances.cell(row, col));
        }
    }
}

/// Once every row is marked, the card's copy may hold anything.
pub proof fn a_resize_dirties_every_row(state: GridState, held: Seq<GlyphInstance>)
    requires
        state.dirty_rows == (core::ops::Range { start: 0usize, end: state.instances.rows }),
    ensures
        state.in_step(held),
{
}

/// Copy `slots` into `into`, filled up to whole texture rows, and say how many
/// rows that is.
pub fn pad_slots(slots: &Vec<GlyphSlot>, into: &mut Vec<GlyphSlot>) -> (r: usize)
    requires
        slots@.len() + 255 <= usize::MAX,
    ensures
        r == texture_rows(slots@.len()),
        final(into)@ == slots@ + Seq::new(
            (r * SLOTS_PER_ROW - slots@.len()) as nat,
            |i: int| blank_art(),
        ),
{
    let rows: usize = (slots.len() + 255) / SLOTS_PER_ROW;
    into.clear();
    let mut i: usize = 0;
    while i < slots.len()
        invariant
            i <= slots.len(),
            into@ == slots@.take(i as int),
        decreases slots.len() - i,
    {
        into.push(slots[i]);
        i += 1;
        assert(into@ =~= slots@.take(i as int));
    }
    assert(into@ =~= slots@);
    let total: usize = rows * SLOTS_PER_ROW;
    while i < total
        invariant
            slots.len() <= i <= total,
            into@ == slots@ + Seq::new((i - slots@.len()) as nat, |i: int| blank_art()),
        decreases total - i,
    {
        into.push(GlyphSlot::default());
        i += 1;
        assert(into@ =~= slots@ + Seq::new((i - slots@.len()) as nat, |i: int| blank_art()));
    }
    rows
}

/// Slot `i` stands in texture row `i / SLOTS_PER_ROW`, at `i % SLOTS_PER_ROW`,
/// and that row was sent whole.
pub proof fn a_slot_keeps_its_place(slots: Seq<GlyphSlot>, padded: Seq<GlyphSlot>, i: int)
    requires
        padded == slots + Seq::new(
            (texture_rows(slots.len()) * SLOTS_PER_ROW - slots.len()) as nat,
            |i: int| blank_art(),
        ),
        0 <= i < slots.len(),
    ensures
        padded[(i / 256) * 256 + i % 256] == slots[i],
        i / 256 < texture_rows(slots.len()),
        padded.len() == texture_rows(slots.len()) * 256,
{
}

} // verus!
