use std::sync::Arc;

use alacritree::grid_instances::{
    page_index, Face, GlyphInstance, GlyphSlot, GlyphTable, GridInstances, RunView, BLANK_SLOT,
    STRIKEOUT, UNDERLINE,
};
use egui::{Color32, Galley};

const WHITE: [u8; 4] = [255, 255, 255, 255];
const BLACK: [u8; 4] = [0, 0, 0, 255];
const RED: [u8; 4] = [255, 0, 0, 255];

fn galley(ctx: &egui::Context, ch: char) -> Arc<Galley> {
    let mut job = egui::text::LayoutJob::single_section(
        ch.to_string(),
        egui::TextFormat::simple(egui::FontId::monospace(14.0), Color32::PLACEHOLDER),
    );
    job.wrap.max_width = f32::INFINITY;
    ctx.fonts(|f| f.layout_job(job))
}

/// The one quad a one-character galley is laid out as.
fn drawn(ctx: &egui::Context, ch: char) -> Option<GlyphSlot> {
    let galley = galley(ctx, ch);
    let row = galley.rows.first()?;
    let v = &row.visuals.mesh.vertices;
    if v.len() != 4 {
        return None;
    }
    Some(GlyphSlot {
        uv_min: [v[0].uv.x.to_bits(), v[0].uv.y.to_bits()],
        uv_max: [v[3].uv.x.to_bits(), v[3].uv.y.to_bits()],
        offset: [v[0].pos.x.to_bits(), v[0].pos.y.to_bits()],
        size: [(v[3].pos.x - v[0].pos.x).to_bits(), (v[3].pos.y - v[0].pos.y).to_bits()],
    })
}

fn painted() -> egui::Context {
    let ctx = egui::Context::default();
    let _ = ctx.run(egui::RawInput::default(), |_| {});
    ctx
}

fn size(points: f32) -> u32 {
    points.to_bits()
}

/// The whole point of the record: a cell costs twelve bytes.
#[test]
fn a_cell_costs_twelve_bytes() {
    assert_eq!(std::mem::size_of::<GlyphInstance>(), 12);
}

#[test]
fn a_blank_cell_resolves_to_the_reserved_slot() {
    let table = GlyphTable::new();
    assert_eq!(table.slots()[BLANK_SLOT as usize].size, [0.0f32.to_bits(), 0.0f32.to_bits()]);
}

#[test]
fn the_same_character_interns_once() {
    let ctx = painted();
    let mut table = GlyphTable::new();

    let first = table.slot('a', Face::Normal, size(14.0), || drawn(&ctx, 'a'));
    let before = table.generation();
    let again = table.slot('a', Face::Normal, size(14.0), || drawn(&ctx, 'a'));

    assert_eq!(first, again);
    assert_eq!(table.generation(), before, "a hit must not grow the table");
}

/// The face lives in the high half of a page entry, so the last character
/// on a page in one face must not land on the first character in the next.
#[test]
fn a_page_entry_separates_every_face() {
    let faces = [Face::Normal, Face::Bold, Face::Italic, Face::BoldItalic];
    let edges = [0x4E00u32, 0x4EFF];

    let entries: Vec<usize> = faces
        .iter()
        .flat_map(|&f| edges.map(|c| page_index(char::from_u32(c).expect("valid"), f).1))
        .collect();

    let mut sorted = entries.clone();
    sorted.sort_unstable();
    sorted.dedup();
    assert_eq!(sorted.len(), entries.len(), "two faces share an entry: {entries:?}");
}

#[test]
fn the_same_character_in_two_faces_takes_two_slots() {
    let ctx = painted();
    let mut table = GlyphTable::new();

    let normal = table.slot('a', Face::Normal, size(14.0), || drawn(&ctx, 'a'));
    let bold = table.slot('a', Face::Bold, size(14.0), || drawn(&ctx, 'a'));

    assert_ne!(normal, bold);
}

/// A slot holds texel coordinates into whatever atlas was live when it was
/// read.  A font-size change relays out every glyph, so keeping the old
/// slots would paint from the wrong part of the atlas.
#[test]
fn a_font_size_change_drops_every_slot() {
    let ctx = painted();
    let mut table = GlyphTable::new();
    table.slot('a', Face::Normal, size(14.0), || drawn(&ctx, 'a'));

    table.slot('a', Face::Normal, size(20.0), || drawn(&ctx, 'a'));

    assert_eq!(table.slots().len(), 2, "one blank slot plus the re-laid glyph");
}

/// Rows sit at a fixed stride so a damaged row can be rewritten and
/// uploaded without touching its neighbours.
#[test]
fn a_row_keeps_its_place_when_a_neighbour_changes() {
    let mut grid = GridInstances::default();
    grid.resize(4, 3, BLACK);
    let runs = vec![RunView {
        text: "ab",
        start_col: 0,
        row: 2,
        face: Face::Normal,
        flags: 0,
        fg: WHITE,
        bg: BLACK,
    }];

    grid.write_rows(&vec![2], &runs, BLACK, |_, _| 7);

    assert_eq!(grid.glyphs[8].slot, 7);
    assert_eq!(grid.glyphs[9].slot, 7);
    assert_eq!(grid.glyphs[10].slot, BLANK_SLOT);
    assert_eq!(grid.row_bytes(2, 1), 96..144);
}

fn row0(text: &str) -> Vec<RunView<'_>> {
    vec![RunView {
        text,
        start_col: 0,
        row: 0,
        face: Face::Normal,
        flags: 0,
        fg: WHITE,
        bg: BLACK,
    }]
}

#[test]
fn rewriting_a_row_clears_what_the_last_frame_left() {
    let mut grid = GridInstances::default();
    grid.resize(4, 2, BLACK);
    grid.write_rows(&vec![0], &row0("abcd"), BLACK, |_, _| 7);

    grid.write_rows(&vec![0], &row0("ab"), BLACK, |_, _| 7);

    assert_eq!(grid.glyphs[2].slot, BLANK_SLOT, "the tail of the old run survived");
}

/// The background belongs to the cell's own record, so a coloured run
/// paints its own cells and leaves its neighbours on the default.
#[test]
fn a_coloured_run_fills_only_its_own_cells() {
    let mut grid = GridInstances::default();
    grid.resize(4, 1, BLACK);
    let runs = vec![RunView {
        text: "ab",
        start_col: 1,
        row: 0,
        face: Face::Normal,
        flags: 0,
        fg: WHITE,
        bg: RED,
    }];

    grid.write_rows(&vec![0], &runs, BLACK, |_, _| 1);

    assert_eq!(RED, Color32::RED.to_array());
    assert_eq!(grid.glyphs[1].bg, RED);
    assert_eq!(grid.glyphs[2].bg, RED);
    assert_eq!(grid.glyphs[3].bg, BLACK);
}

#[test]
fn a_character_without_artwork_takes_the_blank_slot() {
    let mut table = GlyphTable::new();
    assert_eq!(table.slot('\u{200b}', Face::Normal, size(14.0), || None), BLANK_SLOT);
    let generation = table.generation();
    let again = table.slot('\u{200b}', Face::Normal, size(14.0), || panic!("asked twice"));
    assert_eq!(again, BLANK_SLOT);
    assert_eq!(table.generation(), generation);
    assert_eq!(table.slots().len(), 1);
}

#[test]
fn characters_far_apart_keep_slots_of_their_own() {
    let art = |n: u32| Some(GlyphSlot { size: [n, 0], ..GlyphSlot::default() });
    let mut table = GlyphTable::new();
    let chars = ['a', 'b', 'あ', '\u{10FFFF}', '\u{0}', 'Ā'];
    let slots: Vec<u16> = chars
        .iter()
        .enumerate()
        .map(|(i, &c)| table.slot(c, Face::Italic, 1, || art(i as u32 + 1)))
        .collect();
    assert_eq!(slots, vec![1, 2, 3, 4, 5, 6]);
    for (i, &c) in chars.iter().enumerate() {
        assert_eq!(table.slot(c, Face::Italic, 1, || panic!("known")), slots[i]);
        assert_eq!(table.slots()[slots[i] as usize].size, [i as u32 + 1, 0]);
    }
}

#[test]
fn a_full_table_gives_the_blank_slot() {
    let mut table = GlyphTable::new();
    let mut last = 0;
    for code in 0..70000u32 {
        if let Some(c) = char::from_u32(code) {
            last = table.slot(c, Face::Normal, 1, || Some(GlyphSlot::default()));
        }
    }
    assert_eq!(last, BLANK_SLOT);
    assert_eq!(table.slots().len(), 65535);
}

#[test]
fn a_cleared_table_asks_again() {
    let mut table = GlyphTable::new();
    table.slot('a', Face::Normal, 1, || Some(GlyphSlot::default()));
    let before = table.generation();
    table.clear(1);
    assert_eq!(table.generation(), before + 1);
    assert_eq!(table.slots().len(), 1);
    let mut asked = false;
    table.slot('a', Face::Normal, 1, || {
        asked = true;
        None
    });
    assert!(asked);
}

#[test]
fn what_reaches_past_the_grid_is_left_out() {
    let mut grid = GridInstances::default();
    grid.resize(2, 1, BLACK);
    let mut runs = row0("abcd");
    runs.push(RunView { row: 1, ..runs[0] });
    grid.write_rows(&vec![0, 9], &runs, BLACK, |c, _| c as u16);
    assert_eq!(grid.glyphs.iter().map(|g| g.slot).collect::<Vec<_>>(), vec![97, 98]);
}

#[test]
fn the_last_run_at_a_cell_wins() {
    let mut grid = GridInstances::default();
    grid.resize(3, 1, BLACK);
    let under = RunView { text: "xyz", flags: UNDERLINE, ..row0("")[0] };
    let over = RunView { text: " b", start_col: 1, flags: STRIKEOUT, bg: RED, ..row0("")[0] };
    grid.write_rows(&vec![0], &vec![under, over], BLACK, |c, _| c as u16);
    assert_eq!(grid.glyphs[0].slot, 'x' as u16);
    assert_eq!((grid.glyphs[1].slot, grid.glyphs[1].flags), (BLANK_SLOT, STRIKEOUT));
    assert_eq!((grid.glyphs[2].slot, grid.glyphs[2].bg), ('b' as u16, RED));
    assert!(grid.any_decorated());
    grid.write_rows(&vec![0], &vec![], BLACK, |_, _| 0);
    assert!(!grid.any_decorated());
}

#[test]
fn a_blank_on_the_default_background_is_skipped() {
    let mut grid = GridInstances::default();
    grid.resize(2, 1, BLACK);
    grid.write_rows(&vec![0], &row0(" a"), BLACK, |_, _| 5);
    let blank = GlyphInstance { slot: BLANK_SLOT, flags: 0, fg: [0; 4], bg: BLACK };
    assert_eq!(grid.glyphs[0], blank);
    assert_eq!(grid.glyphs[1].slot, 5);
}

#[test]
fn a_grid_of_the_same_size_keeps_its_records() {
    let mut grid = GridInstances::default();
    grid.resize(2, 1, BLACK);
    grid.write_rows(&vec![0], &row0("ab"), BLACK, |_, _| 5);
    grid.resize(2, 1, RED);
    assert_eq!(grid.glyphs[0].slot, 5);
    grid.resize(1, 2, RED);
    assert_eq!(grid.dimensions(), (1, 2));
    assert_eq!(grid.glyphs.iter().map(|g| g.bg).collect::<Vec<_>>(), vec![RED, RED]);
}

/// A character that is known is not laid out again, on the blank slot either.
#[test]
fn a_known_character_is_not_laid_out_again() {
    let mut table = GlyphTable::new();
    let art = GlyphSlot { uv_min: [1, 2], uv_max: [3, 4], offset: [5, 6], size: [7, 8] };
    let drawn = table.slot('a', Face::Normal, size(14.0), || Some(art));
    let blank = table.slot('b', Face::Normal, size(14.0), || None);
    assert_eq!((drawn, blank), (1, BLANK_SLOT));
    let (slots, generation) = (table.slots().len(), table.generation());
    let idle = || -> Option<GlyphSlot> { panic!("laid out a second time") };
    assert_eq!(table.slot('a', Face::Normal, size(14.0), idle), drawn);
    assert_eq!(table.slot('b', Face::Normal, size(14.0), idle), blank);
    assert_eq!((table.slots().len(), table.generation()), (slots, generation));
}

/// The two zeroes are one size, and what is no number is never the same one.
#[test]
fn sizes_are_told_apart_as_numbers() {
    let mut table = GlyphTable::new();
    table.slot('a', Face::Normal, size(0.0), || None);
    let generation = table.generation();
    table.slot('a', Face::Normal, size(-0.0), || panic!("the same size"));
    assert_eq!(table.generation(), generation);
    table.slot('a', Face::Normal, size(f32::NAN), || None);
    assert_eq!(table.generation(), generation + 1);
    table.slot('a', Face::Normal, size(f32::NAN), || None);
    assert_eq!(table.generation(), generation + 2);
    table.slot('a', Face::Normal, size(f32::INFINITY), || None);
    table.slot('a', Face::Normal, size(f32::INFINITY), || panic!("the same size"));
}

/// A blank needs no artwork, so no slot is asked for one.
#[test]
fn no_slot_is_asked_for_a_blank() {
    let mut grid = GridInstances::default();
    grid.resize(3, 1, BLACK);
    let run =
        RunView { text: " x ", start_col: 0, row: 0, face: Face::Normal, flags: 0, fg: WHITE, bg: RED };
    grid.write_rows(&vec![0], &vec![run], BLACK, |ch, _| {
        assert_ne!(ch, ' ');
        7
    });
    let slots: Vec<u16> = grid.glyphs.iter().map(|cell| cell.slot).collect();
    assert_eq!(slots, [BLANK_SLOT, 7, BLANK_SLOT]);
}
