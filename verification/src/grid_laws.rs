//! What a frame of runs comes to in the cells of a grid.

use vstd::prelude::*;

#[allow(unused_imports)]
use crate::grid_instances::{
    bytes_before, carries_lines, entry_of, last_writer, page_of, put_at, same_size, settled, Face, GlyphInstance,
    GlyphSlot, Glyphs, GridInstances, RunView,
};

verus! {

/// The run covers the cell.
pub open spec fn covers(run: RunView<'_>, row: int, col: int) -> bool {
    run.row == row && run.start_col <= col && col - run.start_col < run.text@.len()
}

/// The run leaves the cell as it is: it does not cover it, or has only a blank
/// on the default background there.
pub open spec fn passes_over(run: RunView<'_>, row: int, col: int, default_bg: [u8; 4]) -> bool {
    covers(run, row, col) ==> run.text@[col - run.start_col] == ' ' && run.bg@ == default_bg@
}

proof fn the_last_that_puts_is_the_writer(runs: Seq<RunView<'_>>, row: int, col: int, default_bg: [u8; 4], k: int)
    requires
        0 <= k < runs.len(),
        !passes_over(runs[k], row, col, default_bg),
        forall|j: int| k < j < runs.len() ==> passes_over(#[trigger] runs[j], row, col, default_bg),
    ensures
        last_writer(runs, row, col, default_bg) == Some(k),
    decreases runs.len(),
{
    if k < runs.len() - 1 {
        assert(passes_over(runs[runs.len() - 1], row, col, default_bg));
        let front = runs.drop_last();
        assert forall|j: int| k < j < front.len() implies passes_over(#[trigger] front[j], row, col, default_bg) by {
            assert(front[j] == runs[j]);
        }
        the_last_that_puts_is_the_writer(front, row, col, default_bg, k);
    }
}

proof fn no_run_writes(runs: Seq<RunView<'_>>, row: int, col: int, default_bg: [u8; 4])
    requires
        forall|j: int| 0 <= j < runs.len() ==> passes_over(#[trigger] runs[j], row, col, default_bg),
    ensures
        last_writer(runs, row, col, default_bg) is None,
    decreases runs.len(),
{
    if runs.len() > 0 {
        assert(passes_over(runs[runs.len() - 1], row, col, default_bg));
        let front = runs.drop_last();
        assert forall|j: int| 0 <= j < front.len() implies passes_over(#[trigger] front[j], row, col, default_bg) by {
            assert(front[j] == runs[j]);
        }
        no_run_writes(front, row, col, default_bg);
    }
}

/// The cells of a frame hold what its runs put there.
pub open spec fn framed<F: Fn(char, Face) -> u16>(
    before: GridInstances,
    after: GridInstances,
    rows_touched: Seq<usize>,
    runs: Seq<RunView<'_>>,
    default_bg: [u8; 4],
    slot_for: F,
) -> bool {
    &&& after.cols == before.cols && after.rows == before.rows
    &&& forall|r: int, c: int|
        0 <= r < before.rows && 0 <= c < before.cols ==> settled(
            #[trigger] after.cell(r, c),
            before.base(rows_touched, default_bg, r, c),
            runs,
            r,
            c,
            default_bg,
            slot_for,
        )
}

/// A cell carries the colours and the decoration of the run that puts a
/// character there last: its foreground, its background and its flags. A blank
/// has no artwork, and any other character the artwork asked for it in the
/// run's face.
pub proof fn a_cell_is_drawn_as_its_run_says<F: Fn(char, Face) -> u16>(
    before: GridInstances,
    after: GridInstances,
    rows_touched: Seq<usize>,
    runs: Seq<RunView<'_>>,
    default_bg: [u8; 4],
    slot_for: F,
    row: int,
    col: int,
    k: int,
)
    requires
        framed(before, after, rows_touched, runs, default_bg, slot_for),
        0 <= row < before.rows,
        0 <= col < before.cols,
        0 <= k < runs.len(),
        !passes_over(runs[k], row, col, default_bg),
        forall|j: int| k < j < runs.len() ==> passes_over(#[trigger] runs[j], row, col, default_bg),
    ensures
        ({
            let cell = after.glyphs@[row * after.cols + col];
            let ch = runs[k].text@[col - runs[k].start_col];
            &&& cell.fg == runs[k].fg
            &&& cell.bg == runs[k].bg
            &&& cell.flags == runs[k].flags
            &&& ch == ' ' ==> cell.slot == 0
            &&& ch != ' ' ==> slot_for.ensures((ch, runs[k].face), cell.slot)
        }),
{
    the_last_that_puts_is_the_writer(runs, row, col, default_bg, k);
    assert(settled(
        after.cell(row, col),
        before.base(rows_touched, default_bg, row, col),
        runs,
        row,
        col,
        default_bg,
        slot_for,
    ));
}

/// Two frames whose runs differ in the foreground of one differ in the
/// foreground of exactly the cells that run writes last, where each has the
/// foreground it was given; the backgrounds and flags are the same everywhere.
pub proof fn a_foreground_is_changed_alone<F: Fn(char, Face) -> u16>(
    before: GridInstances,
    one: GridInstances,
    other: GridInstances,
    rows_touched: Seq<usize>,
    runs: Seq<RunView<'_>>,
    default_bg: [u8; 4],
    slot_for: F,
    k: int,
    fg: [u8; 4],
    row: int,
    col: int,
)
    requires
        0 <= k < runs.len(),
        0 <= row < before.rows,
        0 <= col < before.cols,
        framed(before, one, rows_touched, runs, default_bg, slot_for),
        framed(
            before,
            other,
            rows_touched,
            runs.update(k, (RunView { fg, ..runs[k] })),
            default_bg,
            slot_for,
        ),
    ensures
        ({
            let a = one.glyphs@[row * one.cols + col];
            let b = other.glyphs@[row * other.cols + col];
            let written = !passes_over(runs[k], row, col, default_bg) && forall|j: int|
                k < j < runs.len() ==> passes_over(#[trigger] runs[j], row, col, default_bg);
            &&& a.bg == b.bg
            &&& a.flags == b.flags
            &&& written ==> a.fg == runs[k].fg && b.fg == fg
            &&& !written ==> a.fg == b.fg
        }),
{
    let changed = runs.update(k, (RunView { fg, ..runs[k] }));
    the_same_run_writes(runs, changed, row, col, default_bg);
    assert(settled(
        one.cell(row, col),
        before.base(rows_touched, default_bg, row, col),
        runs,
        row,
        col,
        default_bg,
        slot_for,
    ));
    assert(settled(
        other.cell(row, col),
        before.base(rows_touched, default_bg, row, col),
        changed,
        row,
        col,
        default_bg,
        slot_for,
    ));
    let written = !passes_over(runs[k], row, col, default_bg) && forall|j: int|
        k < j < runs.len() ==> passes_over(#[trigger] runs[j], row, col, default_bg);
    if written {
        the_last_that_puts_is_the_writer(runs, row, col, default_bg, k);
    } else {
        the_writer_puts_last(runs, row, col, default_bg);
    }
}

proof fn the_same_run_writes(a: Seq<RunView<'_>>, b: Seq<RunView<'_>>, row: int, col: int, default_bg: [u8; 4])
    requires
        a.len() == b.len(),
        forall|i: int|
            0 <= i < a.len() ==> (#[trigger] a[i]).row == b[i].row && a[i].start_col == b[i].start_col && a[i].text
                == b[i].text && a[i].bg == b[i].bg,
    ensures
        last_writer(a, row, col, default_bg) == last_writer(b, row, col, default_bg),
    decreases a.len(),
{
    if a.len() > 0 {
        assert(a[a.len() - 1].row == b[b.len() - 1].row);
        let x = a.drop_last();
        let y = b.drop_last();
        assert forall|i: int| 0 <= i < x.len() implies (#[trigger] x[i]).row == y[i].row && x[i].start_col
            == y[i].start_col && x[i].text == y[i].text && x[i].bg == y[i].bg by {
            assert(x[i] == a[i] && y[i] == b[i]);
        }
        the_same_run_writes(x, y, row, col, default_bg);
    }
}

proof fn the_writer_puts_last(runs: Seq<RunView<'_>>, row: int, col: int, default_bg: [u8; 4])
    ensures
        match last_writer(runs, row, col, default_bg) {
            Some(k) => {
                &&& 0 <= k < runs.len()
                &&& !passes_over(runs[k], row, col, default_bg)
                &&& forall|j: int| k < j < runs.len() ==> passes_over(#[trigger] runs[j], row, col, default_bg)
            },
            None => forall|j: int| 0 <= j < runs.len() ==> passes_over(#[trigger] runs[j], row, col, default_bg),
        },
    decreases runs.len(),
{
    if runs.len() > 0 && put_at(runs.last(), row, col, default_bg) is None {
        let front = runs.drop_last();
        the_writer_puts_last(front, row, col, default_bg);
        assert(passes_over(runs[runs.len() - 1], row, col, default_bg));
        assert forall|j: int| 0 <= j < front.len() implies #[trigger] runs[j] == front[j] by {}
    }
}

/// A cell that no run puts anything at is blank on the default background in a
/// row that is rewritten, and what it was in any other.
pub proof fn a_cell_no_run_writes<F: Fn(char, Face) -> u16>(
    before: GridInstances,
    after: GridInstances,
    rows_touched: Seq<usize>,
    runs: Seq<RunView<'_>>,
    default_bg: [u8; 4],
    slot_for: F,
    row: int,
    col: int,
)
    requires
        framed(before, after, rows_touched, runs, default_bg, slot_for),
        0 <= row < before.rows,
        0 <= col < before.cols,
        forall|j: int| 0 <= j < runs.len() ==> passes_over(#[trigger] runs[j], row, col, default_bg),
    ensures
        ({
            let cell = after.glyphs@[row * after.cols + col];
            &&& rows_touched.contains(row as usize) ==> cell.slot == 0 && cell.flags == 0 && cell.fg@ == seq![
                0u8,
                0u8,
                0u8,
                0u8,
            ] && cell.bg == default_bg
            &&& !rows_touched.contains(row as usize) ==> cell == before.glyphs@[row * before.cols + col]
        }),
{
    no_run_writes(runs, row, col, default_bg);
    assert(settled(
        after.cell(row, col),
        before.base(rows_touched, default_bg, row, col),
        runs,
        row,
        col,
        default_bg,
        slot_for,
    ));
    let none: [u8; 4] = [0, 0, 0, 0];
    assert(none@ =~= seq![0u8, 0u8, 0u8, 0u8]);
}

/// A character that is drawn for the first time gets the next slot, and that
/// slot holds its artwork; the table counts as changed.
pub proof fn a_new_character_gets_the_next_slot(table: Glyphs, ch: char, face: Face, drawn: GlyphSlot)
    requires
        table.art.len() < 65535,
    ensures
        ({
            let after = table.learned(ch, face, Some(drawn));
            &&& after.known.contains_key((ch, face)) && after.known[(ch, face)] == table.art.len()
            &&& after.art.len() == table.art.len() + 1 && after.art[table.art.len() as int] == drawn
            &&& forall|i: int| 0 <= i < table.art.len() ==> after.art[i] == table.art[i]
            &&& after.generation != table.generation
            &&& after.size == table.size
        }),
{
}

/// A character with nothing to draw, or one there is no room for, is blank,
/// and the artwork stays as it is.
pub proof fn a_character_without_artwork_is_blank(table: Glyphs, ch: char, face: Face, drawn: Option<GlyphSlot>)
    requires
        drawn is None || table.art.len() >= 65535,
    ensures
        ({
            let after = table.learned(ch, face, drawn);
            &&& after.known.contains_key((ch, face)) && after.known[(ch, face)] == 0
            &&& after.art == table.art
            &&& after.generation == table.generation
            &&& after.size == table.size
        }),
{
}

/// Another size starts the table over: nothing is known, only the blank is
/// left of the artwork, and the table counts as changed. The same size keeps
/// it all.
pub proof fn a_size_keeps_the_table_or_starts_it_over(table: Glyphs, size: u32)
    requires
        table.art.len() > 0,
    ensures
        ({
            let after = table.sized(size);
            &&& same_size(table.size, size) ==> after == table
            &&& !same_size(table.size, size) ==> {
                &&& after.size == size
                &&& forall|ch: char, face: Face| !after.known.contains_key((ch, face))
                &&& after.art.len() == 1 && after.art[0] == table.art[0]
                &&& after.generation != table.generation
            }
        }),
{
}

/// Two sizes are one as two single-precision numbers are equal: the same bits,
/// or two zeros of either sign, and a bit pattern that is no number is not even
/// itself.
pub proof fn sizes_are_equal_as_numbers_are(a: u32, b: u32)
    ensures
        (a == 0 || a == 0x8000_0000) && (b == 0 || b == 0x8000_0000) ==> same_size(a, b),
        0x7f80_0000 < a < 0x8000_0000 || 0xff80_0000 < a ==> !same_size(a, b) && !same_size(b, a),
        a <= 0x7f80_0000 || 0x8000_0000 <= a <= 0xff80_0000 ==> same_size(a, a),
        same_size(a, b) && a != b ==> (a == 0 && b == 0x8000_0000) || (a == 0x8000_0000 && b == 0),
{
}

/// A page holds 256 characters of four faces, in the order normal, bold,
/// italic, bold italic, each face's in the order of their codes.
pub proof fn a_page_is_four_faces_of_its_characters(ch: char, face: Face)
    ensures
        page_of(ch) * 256 <= ch as int,
        (ch as int) < page_of(ch) * 256 + 256,
        entry_of(ch, Face::Normal) == ch as int - page_of(ch) * 256,
        entry_of(ch, Face::Bold) == entry_of(ch, Face::Normal) + 256,
        entry_of(ch, Face::Italic) == entry_of(ch, Face::Normal) + 512,
        entry_of(ch, Face::BoldItalic) == entry_of(ch, Face::Normal) + 768,
        0 <= entry_of(ch, face) < 1024,
{
}

/// The two decorations are marked by a bit each, and a cell takes twelve bytes.
pub proof fn the_marks_of_a_cell()
    ensures
        crate::grid_instances::UNDERLINE == 1,
        crate::grid_instances::STRIKEOUT == 2,
        crate::grid_instances::CELL_BYTES == 12,
{
}

/// A row takes twelve bytes for each of its cells, and the rows stand one after
/// another.
pub proof fn the_bytes_of_a_row(cols: nat, row: nat)
    ensures
        bytes_before(cols, 0) == 0,
        bytes_before(cols, row + 1) == bytes_before(cols, row) + cols * 12,
{
    assert((row + 1) * (cols * 12) == row * (cols * 12) + cols * 12) by (nonlinear_arith);
    assert(0 * (cols * 12) == 0) by (nonlinear_arith);
}

/// A screen carries lines where one of its cells does: an underline or a
/// strikeout is enough.
pub proof fn when_a_screen_carries_lines(cells: Seq<GlyphInstance>, i: int)
    requires
        0 <= i < cells.len(),
    ensures
        cells[i].flags != 0 ==> carries_lines(cells),
        (forall|k: int| 0 <= k < cells.len() ==> (#[trigger] cells[k]).flags == 0) ==> !carries_lines(cells),
{
}

} // verus!
