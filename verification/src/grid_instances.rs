//! Per-cell records for a grid drawn by the graphics card.
//!
//! One record per cell carries its glyph, its decorations and both its
//! colours. Records stand at a fixed stride of `cols`, with a blank record for
//! an empty cell, so row `r` always occupies `[r * cols, (r + 1) * cols)`:
//! a frame rebuilds and uploads only the rows the terminal reported damaged.
//!
//! The records name their artwork by slot. [`GlyphTable`] hands the slots out,
//! one for each character in each face, and keeps the artwork itself.
use vstd::prelude::*;

use crate::text::chars_of;

verus! {

/// The slot of a cell with nothing to draw.
pub const BLANK_SLOT: u16 = 0;

/// Draw a line under the cell.
pub const UNDERLINE: u16 = 1;

/// Draw a line through the cell.
pub const STRIKEOUT: u16 = 2;

/// How many bytes one record takes in the buffer the card reads.
pub const CELL_BYTES: usize = 12;

/// How many entries a page has: two hundred and fifty-six characters, each in
/// four faces.
pub const PAGE_ENTRIES: usize = 1024;

/// How many pages cover every character.
pub const PAGES: usize = 4352;

/// An entry no slot was given to yet.
pub const EMPTY: u16 = 65535;

/// The style a character is drawn in.
#[derive(Clone, Copy, Debug, PartialEq, Eq, Structural)]
pub enum Face {
    Normal,
    Bold,
    Italic,
    BoldItalic,
}

/// Where one character's artwork sits in the atlas and where it is drawn in
/// its cell. Every number is the bit pattern of a single-precision one.
#[derive(Clone, Copy, Debug, PartialEq, Eq)]
pub struct GlyphSlot {
    /// The atlas rectangle, in texels.
    pub uv_min: [u32; 2],
    pub uv_max: [u32; 2],
    /// The offset from the cell's top left corner, in points.
    pub offset: [u32; 2],
    /// The size it is drawn at, in points.
    pub size: [u32; 2],
}

impl Default for GlyphSlot {
    fn default() -> (r: Self)
        ensures
            r.uv_min@ == seq![0u32, 0u32],
            r.uv_max@ == seq![0u32, 0u32],
            r.offset@ == seq![0u32, 0u32],
            r.size@ == seq![0u32, 0u32],
            r == blank_art(),
    {
        GlyphSlot { uv_min: [0, 0], uv_max: [0, 0], offset: [0, 0], size: [0, 0] }
    }
}

/// The artwork of a blank cell: no size, so nothing of it is drawn.
pub open spec fn blank_art() -> GlyphSlot {
    GlyphSlot { uv_min: [0, 0], uv_max: [0, 0], offset: [0, 0], size: [0, 0] }
}

/// One cell. It carries no coordinates: its place in the buffer is its cell.
#[derive(Clone, Copy, Debug, PartialEq, Eq)]
pub struct GlyphInstance {
    pub slot: u16,
    pub flags: u16,
    /// Premultiplied, as red, green, blue and alpha.
    pub fg: [u8; 4],
    pub bg: [u8; 4],
}

/// The record of a cell with nothing in it.
pub open spec fn blank_cell(background: [u8; 4]) -> GlyphInstance {
    GlyphInstance { slot: BLANK_SLOT, flags: 0, fg: [0, 0, 0, 0], bg: background }
}

/// The place of a face within a page.
pub open spec fn face_place(face: Face) -> int {
    match face {
        Face::Normal => 0,
        Face::Bold => 1,
        Face::Italic => 2,
        Face::BoldItalic => 3,
    }
}

/// The page a character is on.
pub open spec fn page_of(ch: char) -> int {
    ch as int / 256
}

/// The place of a character in a face on its page.
pub open spec fn entry_of(ch: char, face: Face) -> int {
    face_place(face) * 256 + ch as int % 256
}

/// Which page a character is on, and where on it the character and `face` sit.
pub fn page_index(ch: char, face: Face) -> (r: (usize, usize))
    ensures
        r.0 == page_of(ch),
        r.1 == entry_of(ch, face),
        r.0 < PAGES,
        r.1 < PAGE_ENTRIES,
{
    let code: u32 = ch as u32;
    let place: usize = match face {
        Face::Normal => 0,
        Face::Bold => 1,
        Face::Italic => 2,
        Face::BoldItalic => 3,
    };
    ((code / 256) as usize, place * 256 + (code % 256) as usize)
}

/// No two characters, and no two faces of one, share an entry.
pub proof fn an_entry_is_one_character_in_one_face(a: char, x: Face, b: char, y: Face)
    requires
        page_of(a) == page_of(b),
        entry_of(a, x) == entry_of(b, y),
    ensures
        a == b,
        x == y,
{
    assert(x == y);
    assert(a as int == b as int);
}

/// How many pages of `offsets` have entries of their own.
pub open spec fn pages_used(offsets: Seq<u32>) -> nat
    decreases offsets.len(),
{
    if offsets.len() == 0 {
        0
    } else {
        pages_used(offsets.drop_last()) + if offsets.last() != 0 {
            1nat
        } else {
            0nat
        }
    }
}

proof fn no_more_pages_than_there_are(offsets: Seq<u32>)
    ensures
        pages_used(offsets) <= offsets.len(),
    decreases offsets.len(),
{
    if offsets.len() > 0 {
        no_more_pages_than_there_are(offsets.drop_last());
    }
}

proof fn a_free_page_leaves_room(offsets: Seq<u32>, page: int)
    requires
        0 <= page < offsets.len(),
        offsets[page] == 0,
    ensures
        pages_used(offsets) < offsets.len(),
    decreases offsets.len(),
{
    if page == offsets.len() - 1 {
        no_more_pages_than_there_are(offsets.drop_last());
    } else {
        a_free_page_leaves_room(offsets.drop_last(), page);
    }
}

proof fn taking_a_page_counts_one(offsets: Seq<u32>, page: int, offset: u32)
    requires
        0 <= page < offsets.len(),
        offsets[page] == 0,
        offset != 0,
    ensures
        pages_used(offsets.update(page, offset)) == pages_used(offsets) + 1,
    decreases offsets.len(),
{
    let after = offsets.update(page, offset);
    if page == offsets.len() - 1 {
        assert(after.drop_last() =~= offsets.drop_last());
    } else {
        assert(after.drop_last() =~= offsets.drop_last().update(page, offset));
        taking_a_page_counts_one(offsets.drop_last(), page, offset);
    }
}

proof fn no_page_is_used(offsets: Seq<u32>)
    requires
        forall|i: int| 0 <= i < offsets.len() ==> offsets[i] == 0,
    ensures
        pages_used(offsets) == 0,
    decreases offsets.len(),
{
    if offsets.len() > 0 {
        no_page_is_used(offsets.drop_last());
    }
}

/// A font size's bit pattern without its sign.
pub open spec fn magnitude(size: u32) -> u32 {
    size % 0x8000_0000
}

/// Whether a bit pattern is that of no number at all.
pub open spec fn no_number(size: u32) -> bool {
    magnitude(size) > 0x7f80_0000
}

/// Whether two font sizes, given by their bit patterns, are the same number.
/// The two zeroes are; what is no number equals nothing, not even itself.
pub open spec fn same_size(a: u32, b: u32) -> bool {
    &&& !no_number(a)
    &&& !no_number(b)
    &&& a == b || (magnitude(a) == 0 && magnitude(b) == 0)
}

fn is_same_size(a: u32, b: u32) -> (r: bool)
    ensures
        r == same_size(a, b),
{
    let left: u32 = a % 0x8000_0000;
    let right: u32 = b % 0x8000_0000;
    left <= 0x7f80_0000 && right <= 0x7f80_0000 && (a == b || (left == 0 && right == 0))
}

/// What a table of glyphs holds.
#[verifier::ext_equal]
pub struct Glyphs {
    /// The font size the slots were laid out at, as its bit pattern.
    pub size: u32,
    /// The slot of every character asked for since the table was last cleared.
    pub known: Map<(char, Face), u16>,
    /// The artwork of every slot, the blank one first.
    pub art: Seq<GlyphSlot>,
    /// A number that changes whenever `art` does.
    pub generation: u32,
}

impl Glyphs {
    /// A table with nothing but the blank slot.
    pub open spec fn cleared(self, size: u32) -> Glyphs {
        Glyphs {
            size,
            known: Map::empty(),
            art: seq![self.art[0]],
            generation: self.generation.wrapping_add(1),
        }
    }

    /// The table as it is asked at `size`: cleared first where the size moved.
    pub open spec fn sized(self, size: u32) -> Glyphs {
        if same_size(self.size, size) {
            self
        } else {
            self.cleared(size)
        }
    }

    /// Whether the character has to be laid out when it is asked for at
    /// `size`.
    pub open spec fn misses(self, ch: char, face: Face, size: u32) -> bool {
        !self.sized(size).known.contains_key((ch, face))
    }

    /// Whether there is room for another slot.
    pub open spec fn has_room(self) -> bool {
        self.art.len() < EMPTY
    }

    /// The table once `art` was laid out for a character it did not know.
    pub open spec fn learned(self, ch: char, face: Face, art: Option<GlyphSlot>) -> Glyphs {
        match art {
            Some(drawn) if self.has_room() => Glyphs {
                known: self.known.insert((ch, face), self.art.len() as u16),
                art: self.art.push(drawn),
                generation: self.generation.wrapping_add(1),
                ..self
            },
            _ => Glyphs { known: self.known.insert((ch, face), BLANK_SLOT), ..self },
        }
    }
}

/// The slot of each character in each face, and the artwork of each slot.
///
/// A character finds its slot through two array reads: the page it is on says
/// where the page's entries start, and the entry holds the slot. The pages
/// nobody asked for share the first page of entries, which stays empty.
pub struct GlyphTable {
    size: u32,
    page_offset: Vec<u32>,
    entries: Vec<u16>,
    slots: Vec<GlyphSlot>,
    generation: u32,
}

impl View for GlyphTable {
    type V = Glyphs;

    closed spec fn view(&self) -> Glyphs {
        Glyphs {
            size: self.size,
            known: Map::new(
                |key: (char, Face)| self.entry(key.0, key.1) != EMPTY,
                |key: (char, Face)| self.entry(key.0, key.1),
            ),
            art: self.slots@,
            generation: self.generation,
        }
    }
}

impl GlyphTable {
    spec fn entry(self, ch: char, face: Face) -> u16 {
        self.entries@[self.page_offset@[page_of(ch)] + entry_of(ch, face)]
    }

    /// Every page stands clear of the others, and every entry names a slot
    /// that is there and, unless blank, its own.
    pub closed spec fn wf(self) -> bool {
        &&& self.page_offset@.len() == PAGES
        &&& self.entries@.len() == 1024 * (1 + pages_used(self.page_offset@))
        &&& 1 <= self.slots@.len() <= 65535
        &&& self.slots@[0] == blank_art()
        &&& forall|i: int| 0 <= i < 1024 ==> #[trigger] self.entries@[i] == EMPTY
        &&& forall|p: int|
            #![trigger self.page_offset@[p]]
            0 <= p < PAGES ==> self.page_offset@[p] % 1024 == 0 && self.page_offset@[p] + 1024
                <= self.entries@.len()
        &&& forall|p: int, q: int|
            #![trigger self.page_offset@[p], self.page_offset@[q]]
            0 <= p < PAGES && 0 <= q < PAGES && p != q && self.page_offset@[p] != 0
                ==> self.page_offset@[p] != self.page_offset@[q]
        &&& forall|i: int|
            0 <= i < self.entries@.len() ==> #[trigger] self.entries@[i] == EMPTY
                || self.entries@[i] < self.slots@.len()
        &&& forall|i: int, j: int|
            #![trigger self.entries@[i], self.entries@[j]]
            0 <= i < self.entries@.len() && 0 <= j < self.entries@.len() && i != j
                && self.entries@[i] == self.entries@[j] ==> self.entries@[i] == EMPTY
                || self.entries@[i] == BLANK_SLOT
    }

    /// What holds of every table: the blank slot is there, every slot given
    /// out has artwork, and two characters share none but the blank one.
    pub proof fn a_slot_belongs_to_one_character(self)
        requires
            self.wf(),
        ensures
            1 <= self@.art.len() <= 65535,
            self@.art[0] == blank_art(),
            forall|key: (char, Face)| #[trigger]
                self@.known.contains_key(key) ==> self@.known[key] < self@.art.len(),
            forall|a: (char, Face), b: (char, Face)|
                #![trigger self@.known[a], self@.known[b]]
                self@.known.contains_key(a) && self@.known.contains_key(b) && a != b
                    && self@.known[a] == self@.known[b] ==> self@.known[a] == BLANK_SLOT,
    {
        assert forall|key: (char, Face)| #[trigger]
            self@.known.contains_key(key) implies self@.known[key] < self@.art.len() by {
            self.an_entry_is_in_range(key.0, key.1);
        }
        assert forall|a: (char, Face), b: (char, Face)|
            #![trigger self@.known[a], self@.known[b]]
            self@.known.contains_key(a) && self@.known.contains_key(b) && a != b
                && self@.known[a] == self@.known[b] implies self@.known[a] == BLANK_SLOT by {
            self.an_entry_is_in_range(a.0, a.1);
            self.an_entry_is_in_range(b.0, b.1);
            let i = self.page_offset@[page_of(a.0)] + entry_of(a.0, a.1);
            let j = self.page_offset@[page_of(b.0)] + entry_of(b.0, b.1);
            if self.page_offset@[page_of(a.0)] == 0 {
                assert(self.entries@[i] == EMPTY);
            }
            if i == j {
                assert(page_of(a.0) == page_of(b.0));
                an_entry_is_one_character_in_one_face(a.0, a.1, b.0, b.1);
            }
            assert(self.entries@[i] == self.entries@[j]);
        }
    }

    proof fn an_entry_is_in_range(self, ch: char, face: Face)
        requires
            self.wf(),
        ensures
            0 <= page_of(ch) < PAGES,
            0 <= entry_of(ch, face) < 1024,
            0 <= self.page_offset@[page_of(ch)] + entry_of(ch, face) < self.entries@.len(),
    {
    }

    proof fn no_page_means_nothing_known(self)
        requires
            self.wf(),
            forall|p: int| 0 <= p < PAGES ==> self.page_offset@[p] == 0,
        ensures
            self@.known == Map::<(char, Face), u16>::empty(),
    {
        assert forall|key: (char, Face)| #[trigger] self.entry(key.0, key.1) == EMPTY by {
            self.an_entry_is_in_range(key.0, key.1);
        }
        assert(self@.known =~= Map::<(char, Face), u16>::empty());
    }

    /// A table that knows no character.
    pub fn new() -> (r: Self)
        ensures
            r.wf(),
            r@.size == 0,
            r@.known == Map::<(char, Face), u16>::empty(),
            r@.art == seq![blank_art()],
            r@.generation == 0,
    {
        let page_offset: Vec<u32> = vec![0u32; PAGES];
        let entries: Vec<u16> = vec![EMPTY; PAGE_ENTRIES];
        let mut slots: Vec<GlyphSlot> = Vec::new();
        slots.push(GlyphSlot::default());
        proof {
            no_page_is_used(page_offset@);
        }
        let table = GlyphTable { size: 0, page_offset, entries, slots, generation: 0 };
        proof {
            table.no_page_means_nothing_known();
        }
        table
    }

    /// The artwork of every slot.
    pub fn slots(&self) -> (r: &Vec<GlyphSlot>)
        ensures
            r@ == self@.art,
    {
        &self.slots
    }

    /// A number that changes whenever the artwork does, so a renderer holding
    /// an uploaded copy knows to send it again.
    pub fn generation(&self) -> (r: u32)
        ensures
            r == self@.generation,
    {
        self.generation
    }

    /// Drop every slot: the atlas or the font size moved, and the artwork each
    /// slot points at moved with it.
    pub fn clear(&mut self, size: u32)
        requires
            old(self).wf(),
        ensures
            final(self).wf(),
            final(self)@ == old(self)@.cleared(size),
    {
        let ghost before = *self;
        self.size = size;
        self.page_offset = vec![0u32; PAGES];
        self.entries = vec![EMPTY; PAGE_ENTRIES];
        self.slots.truncate(1);
        self.generation = self.generation.wrapping_add(1);
        proof {
            no_page_is_used(self.page_offset@);
            assert(self.slots@ =~= seq![before.slots@[0]]);
            self.no_page_means_nothing_known();
        }
    }

    /// The slot of `ch` in `face` at `size`. Its artwork is laid out, by
    /// `layout`, only when the table does not know the character yet; one
    /// without artwork, or one there is no room for, takes the blank slot.
    pub fn slot<F: FnOnce() -> Option<GlyphSlot>>(
        &mut self,
        ch: char,
        face: Face,
        size: u32,
        layout: F,
    ) -> (r: u16)
        requires
            old(self).wf(),
            old(self)@.misses(ch, face, size) ==> layout.requires(()),
        ensures
            final(self).wf(),
            final(self)@.known.contains_key((ch, face)),
            r == final(self)@.known[(ch, face)],
            !old(self)@.misses(ch, face, size) ==> final(self)@ == old(self)@.sized(size),
            old(self)@.misses(ch, face, size) ==> exists|
                art: Option<GlyphSlot>,
            | #[trigger]
                layout.ensures((), art) && final(self)@ == old(self)@.sized(size).learned(
                    ch,
                    face,
                    art,
                ),
    {
        if !is_same_size(self.size, size) {
            self.clear(size);
        }
        let ghost asked = *self;
        assert(asked@ == old(self)@.sized(size));
        let (page, entry) = page_index(ch, face);
        proof {
            self.an_entry_is_in_range(ch, face);
        }
        let at: usize = self.page_offset[page] as usize + entry;
        if self.entries[at] != EMPTY {
            return self.entries[at];
        }
        assert(old(self)@.misses(ch, face, size));
        let art = layout();
        let slot = self.place_art(art);
        let ghost placed = *self;
        if self.page_offset[page] == 0 {
            self.open_page(page);
        }
        let ghost opened = *self;
        let at: usize = self.page_offset[page] as usize + entry;
        self.entries.set(at, slot);
        proof {
            assert(!asked@.known.contains_key((ch, face)));
            assert(!opened@.known.contains_key((ch, face)));
            self.setting_an_entry_learns_it(opened, ch, face, slot);
            assert(self@.known =~= asked@.known.insert((ch, face), slot));
            assert(self@ =~= asked@.learned(ch, face, art));
        }
        slot
    }

    /// Keep `art` where there is room for it, and say which slot it took.
    fn place_art(&mut self, art: Option<GlyphSlot>) -> (r: u16)
        requires
            old(self).wf(),
        ensures
            final(self).wf(),
            final(self)@.known == old(self)@.known,
            final(self).page_offset == old(self).page_offset,
            final(self).entries == old(self).entries,
            final(self)@.size == old(self)@.size,
            r < final(self).slots@.len(),
            r != BLANK_SLOT ==> forall|i: int|
                0 <= i < final(self).entries@.len() ==> #[trigger] final(self).entries@[i] != r,
            art is Some && old(self)@.has_room() ==> {
                &&& r == old(self)@.art.len()
                &&& final(self)@.art == old(self)@.art.push(art->0)
                &&& final(self)@.generation == old(self)@.generation.wrapping_add(1)
            },
            !(art is Some && old(self)@.has_room()) ==> {
                &&& r == BLANK_SLOT
                &&& final(self)@ == old(self)@
            },
    {
        let ghost before = *self;
        match art {
            Some(drawn) => {
                if self.slots.len() < 65535 {
                    let slot: u16 = self.slots.len() as u16;
                    self.slots.push(drawn);
                    self.generation = self.generation.wrapping_add(1);
                    assert(self@.known =~= before@.known);
                    assert forall|i: int| 0 <= i < self.entries@.len() implies
                        #[trigger] self.entries@[i] == EMPTY || self.entries@[i]
                        < self.slots@.len() by {
                        assert(before.entries@[i] == EMPTY || before.entries@[i]
                            < before.slots@.len());
                    }
                    assert forall|i: int| 0 <= i < self.entries@.len() implies
                        #[trigger] self.entries@[i] != slot by {
                        assert(before.entries@[i] == EMPTY || before.entries@[i]
                            < before.slots@.len());
                    }
                    slot
                } else {
                    BLANK_SLOT
                }
            },
            None => BLANK_SLOT,
        }
    }

    /// Give `page` entries of its own.
    fn open_page(&mut self, page: usize)
        requires
            old(self).wf(),
            page < PAGES,
            old(self).page_offset@[page as int] == 0,
        ensures
            final(self).wf(),
            final(self)@ == old(self)@,
            final(self).slots == old(self).slots,
            final(self).page_offset@[page as int] != 0,
            forall|i: int|
                0 <= i < old(self).entries@.len() ==> #[trigger] final(self).entries@[i] == old(self).entries@[i],
            forall|i: int|
                old(self).entries@.len() <= i < final(self).entries@.len()
                    ==> #[trigger] final(self).entries@[i] == EMPTY,
            old(self).entries@.len() <= final(self).entries@.len(),
    {
        let ghost before = *self;
        proof {
            a_free_page_leaves_room(self.page_offset@, page as int);
            taking_a_page_counts_one(
                self.page_offset@,
                page as int,
                self.entries@.len() as u32,
            );
        }
        let start: u32 = self.entries.len() as u32;
        self.page_offset.set(page, start);
        let mut i: usize = 0;
        while i < PAGE_ENTRIES
            invariant
                i <= PAGE_ENTRIES,
                self.entries@.len() == before.entries@.len() + i,
                self.slots == before.slots,
                self.size == before.size,
                self.generation == before.generation,
                self.page_offset@ == before.page_offset@.update(page as int, start),
                forall|k: int|
                    0 <= k < before.entries@.len() ==> #[trigger] self.entries@[k]
                        == before.entries@[k],
                forall|k: int|
                    before.entries@.len() <= k < self.entries@.len()
                        ==> #[trigger] self.entries@[k] == EMPTY,
            decreases PAGE_ENTRIES - i,
        {
            self.entries.push(EMPTY);
            i += 1;
        }
        proof {
            assert(before.page_offset@.len() == PAGES);
            assert forall|key: (char, Face)| self.entry(key.0, key.1) == #[trigger] before.entry(
                key.0,
                key.1,
            ) by {
                before.an_entry_is_in_range(key.0, key.1);
                assert(before.page_offset@[page_of(key.0)] == self.page_offset@[page_of(key.0)]
                    || page_of(key.0) == page);
            }
            assert(self@.known =~= before@.known);
            assert forall|i: int, j: int|
                #![trigger self.entries@[i], self.entries@[j]]
                0 <= i < self.entries@.len() && 0 <= j < self.entries@.len() && i != j
                    && self.entries@[i] == self.entries@[j] implies self.entries@[i] == EMPTY
                || self.entries@[i] == BLANK_SLOT by {
                if i < before.entries@.len() && j < before.entries@.len() {
                    assert(before.entries@[i] == before.entries@[j]);
                }
            }
            assert forall|p: int|
                #![trigger self.page_offset@[p]]
                0 <= p < PAGES implies self.page_offset@[p] % 1024 == 0 && self.page_offset@[p]
                + 1024 <= self.entries@.len() by {
                assert(before.page_offset@[p] % 1024 == 0);
            }
            assert forall|p: int, q: int|
                #![trigger self.page_offset@[p], self.page_offset@[q]]
                0 <= p < PAGES && 0 <= q < PAGES && p != q && self.page_offset@[p]
                    != 0 implies self.page_offset@[p] != self.page_offset@[q] by {
                assert(before.page_offset@[p] + 1024 <= before.entries@.len());
                assert(before.page_offset@[q] + 1024 <= before.entries@.len());
            }
        }
    }

    spec fn set_entry(self, before: Self, ch: char, face: Face, slot: u16) -> bool {
        &&& self.page_offset == before.page_offset
        &&& self.slots == before.slots
        &&& self.size == before.size
        &&& self.generation == before.generation
        &&& self.entries@ == before.entries@.update(
            before.page_offset@[page_of(ch)] + entry_of(ch, face),
            slot,
        )
    }

    proof fn setting_an_entry_sets_one(
        self,
        before: Self,
        ch: char,
        face: Face,
        slot: u16,
        other: char,
        style: Face,
    )
        requires
            before.wf(),
            before.page_offset@[page_of(ch)] != 0,
            self.set_entry(before, ch, face, slot),
        ensures
            self.entry(other, style) == if (other, style) == (ch, face) {
                slot
            } else {
                before.entry(other, style)
            },
    {
        before.an_entry_is_in_range(ch, face);
        before.an_entry_is_in_range(other, style);
        let mine = before.page_offset@[page_of(ch)];
        let theirs = before.page_offset@[page_of(other)];
        assert(mine % 1024 == 0);
        assert(theirs % 1024 == 0);
        if mine + entry_of(ch, face) == theirs + entry_of(other, style) {
            assert(mine == theirs);
            if page_of(other) != page_of(ch) {
                assert(before.page_offset@[page_of(ch)] != before.page_offset@[page_of(other)]);
            }
            an_entry_is_one_character_in_one_face(other, style, ch, face);
        }
    }

    #[verifier::rlimit(50)]
    proof fn setting_an_entry_learns_it(self, before: Self, ch: char, face: Face, slot: u16)
        requires
            before.wf(),
            before.page_offset@[page_of(ch)] != 0,
            before.entry(ch, face) == EMPTY,
            slot < before.slots@.len(),
            slot != BLANK_SLOT ==> forall|i: int|
                0 <= i < before.entries@.len() ==> #[trigger] before.entries@[i] != slot,
            self.set_entry(before, ch, face, slot),
        ensures
            self.wf(),
            self@ == (Glyphs { known: before@.known.insert((ch, face), slot), ..before@ }),
    {
        before.an_entry_is_in_range(ch, face);
        let at = before.page_offset@[page_of(ch)] + entry_of(ch, face);
        assert(at >= 1024) by {
            assert(before.page_offset@[page_of(ch)] % 1024 == 0);
        }
        assert forall|key: (char, Face)| #[trigger]
            self.entry(key.0, key.1) == if key == (ch, face) {
                slot
            } else {
                before.entry(key.0, key.1)
            } by {
            self.setting_an_entry_sets_one(before, ch, face, slot, key.0, key.1);
        }
        assert(self@.known =~= before@.known.insert((ch, face), slot));
        assert forall|i: int, j: int|
            #![trigger self.entries@[i], self.entries@[j]]
            0 <= i < self.entries@.len() && 0 <= j < self.entries@.len() && i != j
                && self.entries@[i] == self.entries@[j] implies self.entries@[i] == EMPTY
            || self.entries@[i] == BLANK_SLOT by {
            if i != at && j != at {
                assert(before.entries@[i] == before.entries@[j]);
            } else if i == at {
                assert(before.entries@[j] == self.entries@[j]);
            } else {
                assert(before.entries@[i] == self.entries@[i]);
            }
        }
        assert forall|i: int| 0 <= i < self.entries@.len() implies #[trigger] self.entries@[i]
            == EMPTY || self.entries@[i] < self.slots@.len() by {
            assert(before.entries@[i] == EMPTY || before.entries@[i] < before.slots@.len());
        }
        assert forall|i: int| 0 <= i < 1024 implies #[trigger] self.entries@[i] == EMPTY by {
            assert(before.entries@[i] == EMPTY);
        }
    }
}

/// A character is laid out once: whether it was known or was laid out for the
/// first request, the next one at the same size does not miss, and it leaves
/// the table, its artwork and its generation as they are. That goes for the
/// characters on the blank slot too.
pub proof fn a_character_is_laid_out_once(
    table: Glyphs,
    ch: char,
    face: Face,
    size: u32,
    art: Option<GlyphSlot>,
)
    requires
        !no_number(size),
    ensures
        ({
            let after = if table.misses(ch, face, size) {
                table.sized(size).learned(ch, face, art)
            } else {
                table.sized(size)
            };
            &&& after.known.contains_key((ch, face))
            &&& !after.misses(ch, face, size)
            &&& after.sized(size) == after
        }),
{
}

/// Nor does it once other characters were asked for in between, at that size:
/// each of them leaves it known, on the same slot, with the same artwork.
pub proof fn a_character_stays_laid_out(
    table: Glyphs,
    ch: char,
    face: Face,
    size: u32,
    other: (char, Face),
    art: Option<GlyphSlot>,
)
    requires
        !table.misses(ch, face, size),
    ensures
        ({
            let before = table.sized(size);
            let after = if table.misses(other.0, other.1, size) {
                before.learned(other.0, other.1, art)
            } else {
                before
            };
            &&& !after.misses(ch, face, size)
            &&& after.sized(size) == after
            &&& after.known[(ch, face)] == before.known[(ch, face)]
            &&& after.art.len() >= before.art.len()
            &&& after.art.take(before.art.len() as int) == before.art
        }),
{
    let before = table.sized(size);
    assert(before.art.push(art->0).take(before.art.len() as int) =~= before.art);
    assert(before.art.take(before.art.len() as int) =~= before.art);
    if no_number(size) {
        assert(table.sized(size).known =~= Map::<(char, Face), u16>::empty());
    }
}

/// A size that is no number never finds what it laid out before.
pub proof fn a_size_that_is_no_number_always_misses(
    table: Glyphs,
    ch: char,
    face: Face,
    size: u32,
)
    requires
        no_number(size),
    ensures
        table.misses(ch, face, size),
        table.sized(size) == table.cleared(size),
{
}

/// Learning one character leaves the slots of the others alone.
pub proof fn learning_keeps_the_others(
    table: Glyphs,
    ch: char,
    face: Face,
    art: Option<GlyphSlot>,
    other: (char, Face),
)
    requires
        other != (ch, face),
    ensures
        table.learned(ch, face, art).known.contains_key(other) == table.known.contains_key(other),
        table.known.contains_key(other) ==> table.learned(ch, face, art).known[other]
            == table.known[other],
        forall|i: int|
            0 <= i < table.art.len() ==> #[trigger] table.learned(ch, face, art).art[i]
                == table.art[i],
{
}

/// A change of font size leaves nothing but the blank slot.
pub proof fn a_new_size_drops_every_slot(table: Glyphs, size: u32)
    requires
        !same_size(table.size, size),
    ensures
        table.sized(size).art.len() == 1,
        table.sized(size).known == Map::<(char, Face), u16>::empty(),
{
}

/// A stretch of text in one row, all of it in one style.
#[derive(Clone, Copy)]
pub struct RunView<'a> {
    pub text: &'a str,
    pub start_col: usize,
    pub row: usize,
    pub face: Face,
    pub flags: u16,
    pub fg: [u8; 4],
    pub bg: [u8; 4],
}

/// The character `run` puts at a cell. A blank on the default background is
/// what clearing the row left there, so it puts nothing.
pub open spec fn put_at(run: RunView<'_>, row: int, col: int, default_bg: [u8; 4]) -> Option<char> {
    if run.row == row && run.start_col <= col < run.start_col + run.text@.len() {
        let ch = run.text@[col - run.start_col];
        if ch == ' ' && run.bg@ == default_bg@ {
            None
        } else {
            Some(ch)
        }
    } else {
        None
    }
}

/// The last of `runs` that puts something at a cell.
pub open spec fn last_writer(
    runs: Seq<RunView<'_>>,
    row: int,
    col: int,
    default_bg: [u8; 4],
) -> Option<int>
    decreases runs.len(),
{
    if runs.len() == 0 {
        None
    } else if put_at(runs.last(), row, col, default_bg) is Some {
        Some(runs.len() - 1)
    } else {
        last_writer(runs.drop_last(), row, col, default_bg)
    }
}

/// Whether `cell` is what `run` makes of the character `ch`.
pub open spec fn drawn_by<F: Fn(char, Face) -> u16>(
    cell: GlyphInstance,
    run: RunView<'_>,
    ch: char,
    slot_for: F,
) -> bool {
    &&& cell.flags == run.flags
    &&& cell.fg == run.fg
    &&& cell.bg == run.bg
    &&& if ch == ' ' {
        cell.slot == BLANK_SLOT
    } else {
        slot_for.ensures((ch, run.face), cell.slot)
    }
}

/// Whether `cell` is what `runs` make of a cell that held `base`: the work of
/// the last run that puts something there, and `base` where none does.
pub open spec fn settled<F: Fn(char, Face) -> u16>(
    cell: GlyphInstance,
    base: GlyphInstance,
    runs: Seq<RunView<'_>>,
    row: int,
    col: int,
    default_bg: [u8; 4],
    slot_for: F,
) -> bool {
    match last_writer(runs, row, col, default_bg) {
        None => cell == base,
        Some(k) => drawn_by(
            cell,
            runs[k],
            runs[k].text@[col - runs[k].start_col],
            slot_for,
        ),
    }
}

/// The record at a cell of a grid `cols` wide.
pub open spec fn cell_at(cells: Seq<GlyphInstance>, cols: nat, row: int, col: int) -> GlyphInstance {
    cells[row * cols + col]
}

proof fn a_cell_is_in_the_grid(cols: int, rows: int, row: int, col: int)
    requires
        0 <= row < rows,
        0 <= col < cols,
    ensures
        0 <= row * cols,
        row * cols + cols <= rows * cols,
        0 <= row * cols + col < rows * cols,
{
    assert(0 <= row * cols && row * cols + cols <= rows * cols) by (nonlinear_arith)
        requires
            0 <= row < rows,
            0 <= cols,
    ;
}

/// No two cells share a record.
pub proof fn cells_stand_apart(cols: int, row: int, col: int, other_row: int, other_col: int)
    requires
        0 <= row,
        0 <= other_row,
        0 <= col < cols,
        0 <= other_col < cols,
        row * cols + col == other_row * cols + other_col,
    ensures
        row == other_row,
        col == other_col,
{
    if row < other_row {
        assert(row * cols + cols <= other_row * cols) by (nonlinear_arith)
            requires
                row + 1 <= other_row,
                0 < cols,
        ;
    } else if other_row < row {
        assert(other_row * cols + cols <= row * cols) by (nonlinear_arith)
            requires
                other_row + 1 <= row,
                0 < cols,
        ;
    }
}

/// The bytes that stand before a row in the buffer.
pub open spec fn bytes_before(cols: nat, row: nat) -> nat {
    row * (cols * CELL_BYTES as nat)
}

/// Some cell carries a line.
pub open spec fn carries_lines(cells: Seq<GlyphInstance>) -> bool {
    exists|i: int| 0 <= i < cells.len() && #[trigger] cells[i].flags != 0
}

/// The records of a grid, kept across frames.
pub struct GridInstances {
    pub glyphs: Vec<GlyphInstance>,
    pub cols: usize,
    pub rows: usize,
}

impl Default for GridInstances {
    fn default() -> (r: Self)
        ensures
            r.wf(),
            r.cols == 0,
            r.rows == 0,
    {
        GridInstances { glyphs: Vec::new(), cols: 0, rows: 0 }
    }
}

/// Whether two colours are one.
fn same_colour(a: &[u8; 4], b: &[u8; 4]) -> (r: bool)
    ensures
        r == (a@ == b@),
{
    let same = a[0] == b[0] && a[1] == b[1] && a[2] == b[2] && a[3] == b[3];
    assert(same ==> a@ =~= b@);
    same
}

impl GridInstances {
    /// There is a record for every cell and for nothing else.
    pub open spec fn wf(self) -> bool {
        self.glyphs@.len() == self.rows * self.cols
    }

    /// The record of a cell.
    pub open spec fn cell(self, row: int, col: int) -> GlyphInstance {
        cell_at(self.glyphs@, self.cols as nat, row, col)
    }

    /// The record a cell has before any run is written: blank in a row that is
    /// rewritten, and what it held in any other.
    pub open spec fn base(
        self,
        rows_touched: Seq<usize>,
        default_bg: [u8; 4],
        row: int,
        col: int,
    ) -> GlyphInstance {
        if rows_touched.contains(row as usize) {
            blank_cell(default_bg)
        } else {
            self.cell(row, col)
        }
    }

    /// How many columns and how many rows there are.
    pub fn dimensions(&self) -> (r: (usize, usize))
        ensures
            r == (self.cols, self.rows),
    {
        (self.cols, self.rows)
    }

    /// The bytes that `count` rows from `first` on take in the buffer.
    pub fn row_bytes(&self, first: usize, count: usize) -> (r: core::ops::Range<usize>)
        requires
            (first + count) * (self.cols * CELL_BYTES) <= usize::MAX,
            first + count <= usize::MAX,
            self.cols * CELL_BYTES <= usize::MAX,
        ensures
            r.start == bytes_before(self.cols as nat, first as nat),
            r.end == bytes_before(self.cols as nat, (first + count) as nat),
            r.start == first * (self.cols * CELL_BYTES),
            r.end == (first + count) * (self.cols * CELL_BYTES),
    {
        let stride: usize = self.cols * CELL_BYTES;
        assert(first * stride <= (first + count) * stride) by (nonlinear_arith);
        first * stride..(first + count) * stride
    }

    /// Make the grid `cols` wide and `rows` high, every cell blank. A grid
    /// that already is keeps what it holds.
    pub fn resize(&mut self, cols: usize, rows: usize, default_bg: [u8; 4])
        requires
            old(self).wf(),
            rows * cols <= usize::MAX,
        ensures
            final(self).wf(),
            final(self).cols == cols,
            final(self).rows == rows,
            old(self).cols == cols && old(self).rows == rows ==> *final(self) == *old(self),
            old(self).cols != cols || old(self).rows != rows ==> final(self).glyphs@ == Seq::new(
                (rows * cols) as nat,
                |i: int| blank_cell(default_bg),
            ),
    {
        if self.cols == cols && self.rows == rows {
            return;
        }
        self.cols = cols;
        self.rows = rows;
        self.glyphs.clear();
        let blank = GlyphInstance { slot: BLANK_SLOT, flags: 0, fg: [0, 0, 0, 0], bg: default_bg };
        assert(blank.fg@ =~= blank_cell(default_bg).fg@);
        let count: usize = rows * cols;
        let mut i: usize = 0;
        while i < count
            invariant
                i <= count,
                self.glyphs@.len() == i,
                self.cols == cols,
                self.rows == rows,
                blank == blank_cell(default_bg),
                forall|k: int|
                    0 <= k < i ==> #[trigger] self.glyphs@[k] == blank_cell(default_bg),
            decreases count - i,
        {
            self.glyphs.push(blank);
            i += 1;
        }
        assert(self.glyphs@ =~= Seq::new((rows * cols) as nat, |i: int| blank_cell(default_bg)));
    }

    /// Put `cell` at a place in the grid.
    fn put(&mut self, row: usize, col: usize, cell: GlyphInstance)
        requires
            old(self).wf(),
            row < old(self).rows,
            col < old(self).cols,
        ensures
            final(self).wf(),
            final(self).cols == old(self).cols,
            final(self).rows == old(self).rows,
            forall|r: int, c: int|
                0 <= r < old(self).rows && 0 <= c < old(self).cols ==> #[trigger] final(self).cell(
                    r,
                    c,
                ) == if r == row && c == col {
                    cell
                } else {
                    old(self).cell(r, c)
                },
    {
        let ghost before = *self;
        proof {
            a_cell_is_in_the_grid(self.cols as int, self.rows as int, row as int, col as int);
            assert(self.glyphs@.len() == self.glyphs.len());
        }
        let at: usize = row * self.cols + col;
        self.glyphs.set(at, cell);
        proof {
            assert forall|r: int, c: int|
                0 <= r < before.rows && 0 <= c < before.cols implies #[trigger] self.cell(r, c)
                == if r == row && c == col {
                cell
            } else {
                before.cell(r, c)
            } by {
                a_cell_is_in_the_grid(before.cols as int, before.rows as int, r, c);
                if r * before.cols + c == at {
                    cells_stand_apart(before.cols as int, r, c, row as int, col as int);
                }
            }
        }
    }

    /// Clear a row back to blank cells on the default background.
    fn clear_row(&mut self, row: usize, default_bg: [u8; 4])
        requires
            old(self).wf(),
            row < old(self).rows,
        ensures
            final(self).wf(),
            final(self).cols == old(self).cols,
            final(self).rows == old(self).rows,
            forall|r: int, c: int|
                0 <= r < old(self).rows && 0 <= c < old(self).cols ==> #[trigger] final(self).cell(
                    r,
                    c,
                ) == if r == row {
                    blank_cell(default_bg)
                } else {
                    old(self).cell(r, c)
                },
    {
        let ghost before = *self;
        let blank = GlyphInstance { slot: BLANK_SLOT, flags: 0, fg: [0, 0, 0, 0], bg: default_bg };
        assert(blank.fg@ =~= blank_cell(default_bg).fg@);
        let mut col: usize = 0;
        while col < self.cols
            invariant
                self.wf(),
                row < self.rows,
                col <= self.cols,
                self.cols == before.cols,
                self.rows == before.rows,
                blank == blank_cell(default_bg),
                forall|r: int, c: int|
                    0 <= r < before.rows && 0 <= c < before.cols ==> #[trigger] self.cell(r, c)
                        == if r == row && c < col {
                        blank_cell(default_bg)
                    } else {
                        before.cell(r, c)
                    },
            decreases self.cols - col,
        {
            self.put(row, col, blank);
            col += 1;
        }
    }

    /// Write one run into its row, as far as the row reaches.
    fn write_run<F: Fn(char, Face) -> u16>(
        &mut self,
        run: &RunView<'_>,
        default_bg: [u8; 4],
        slot_for: &F,
    )
        requires
            old(self).wf(),
            forall|ch: char, face: Face| ch != ' ' ==> #[trigger] slot_for.requires((ch, face)),
        ensures
            final(self).wf(),
            final(self).cols == old(self).cols,
            final(self).rows == old(self).rows,
            forall|r: int, c: int|
                0 <= r < old(self).rows && 0 <= c < old(self).cols ==> match put_at(
                    *run,
                    r,
                    c,
                    default_bg,
                ) {
                    None => #[trigger] final(self).cell(r, c) == old(self).cell(r, c),
                    Some(ch) => drawn_by(final(self).cell(r, c), *run, ch, *slot_for),
                },
    {
        if run.row >= self.rows {
            return;
        }
        let ghost before = *self;
        let keeps_background = same_colour(&run.bg, &default_bg);
        let chars = chars_of(run.text);
        let mut i: usize = 0;
        let mut col: usize = run.start_col;
        while i < chars.len() && col < self.cols
            invariant
                self.wf(),
                run.row < self.rows,
                i <= chars.len(),
                chars@ == run.text@,
                col == run.start_col + i,
                keeps_background == (run.bg@ == default_bg@),
                self.cols == before.cols,
                self.rows == before.rows,
                forall|ch: char, face: Face|
                    ch != ' ' ==> #[trigger] slot_for.requires((ch, face)),
                forall|r: int, c: int|
                    0 <= r < before.rows && 0 <= c < before.cols ==> match put_at(
                        *run,
                        r,
                        c,
                        default_bg,
                    ) {
                        Some(ch) if c < col => drawn_by(
                            #[trigger] self.cell(r, c),
                            *run,
                            ch,
                            *slot_for,
                        ),
                        _ => self.cell(r, c) == before.cell(r, c),
                    },
            decreases chars.len() - i,
        {
            let ch = chars[i];
            let ghost held = *self;
            if ch == ' ' && keeps_background {
                col += 1;
                i += 1;
                continue;
            }
            let slot = if ch == ' ' {
                BLANK_SLOT
            } else {
                slot_for(ch, run.face)
            };
            let drawn = GlyphInstance { slot, flags: run.flags, fg: run.fg, bg: run.bg };
            self.put(run.row, col, drawn);
            proof {
                assert(put_at(*run, run.row as int, col as int, default_bg) == Some(ch));
                assert forall|r: int, c: int|
                    0 <= r < before.rows && 0 <= c < before.cols implies match put_at(
                    *run,
                    r,
                    c,
                    default_bg,
                ) {
                    Some(ch) if c < col + 1 => drawn_by(
                        #[trigger] self.cell(r, c),
                        *run,
                        ch,
                        *slot_for,
                    ),
                    _ => self.cell(r, c) == before.cell(r, c),
                } by {
                    assert(self.cell(r, c) == if r == run.row && c == col {
                        drawn
                    } else {
                        held.cell(r, c)
                    });
                }
            }
            col += 1;
            i += 1;
        }
    }

    /// Write every run into the row it covers, once the rows that are
    /// rewritten were cleared. A row past the last is passed over, and so is
    /// what reaches past the last column. No slot is asked for a blank.
    pub fn write_rows<F: Fn(char, Face) -> u16>(
        &mut self,
        rows_touched: &Vec<usize>,
        runs: &Vec<RunView<'_>>,
        default_bg: [u8; 4],
        slot_for: F,
    )
        requires
            old(self).wf(),
            forall|ch: char, face: Face| ch != ' ' ==> #[trigger] slot_for.requires((ch, face)),
        ensures
            final(self).wf(),
            final(self).cols == old(self).cols,
            final(self).rows == old(self).rows,
            forall|r: int, c: int|
                0 <= r < old(self).rows && 0 <= c < old(self).cols ==> settled(
                    #[trigger] final(self).cell(r, c),
                    old(self).base(rows_touched@, default_bg, r, c),
                    runs@,
                    r,
                    c,
                    default_bg,
                    slot_for,
                ),
    {
        let ghost before = *self;
        let mut i: usize = 0;
        while i < rows_touched.len()
            invariant
                self.wf(),
                i <= rows_touched.len(),
                self.cols == before.cols,
                self.rows == before.rows,
                forall|r: int, c: int|
                    0 <= r < before.rows && 0 <= c < before.cols ==> #[trigger] self.cell(r, c)
                        == before.base(rows_touched@.take(i as int), default_bg, r, c),
            decreases rows_touched.len() - i,
        {
            let row = rows_touched[i];
            let ghost held = *self;
            if row < self.rows {
                self.clear_row(row, default_bg);
            }
            proof {
                let seen = rows_touched@.take(i as int);
                let now = rows_touched@.take(i + 1);
                assert(now =~= seen.push(row));
                assert forall|r: int, c: int|
                    0 <= r < before.rows && 0 <= c < before.cols implies #[trigger] self.cell(r, c)
                    == before.base(now, default_bg, r, c) by {
                    assert(held.cell(r, c) == before.base(seen, default_bg, r, c));
                    assert(now[i as int] == row);
                    assert(now.contains(r as usize) == (seen.contains(r as usize) || row == r)) by {
                        if seen.contains(r as usize) {
                            let k = choose|k: int| 0 <= k < seen.len() && seen[k] == r as usize;
                            assert(now[k] == r as usize);
                        }
                        if now.contains(r as usize) && row != r {
                            let k = choose|k: int| 0 <= k < now.len() && now[k] == r as usize;
                            assert(seen[k] == r as usize);
                        }
                    }
                }
            }
            i += 1;
        }
        assert(rows_touched@.take(i as int) =~= rows_touched@);
        let mut j: usize = 0;
        while j < runs.len()
            invariant
                self.wf(),
                j <= runs.len(),
                self.cols == before.cols,
                self.rows == before.rows,
                forall|ch: char, face: Face|
                    ch != ' ' ==> #[trigger] slot_for.requires((ch, face)),
                forall|r: int, c: int|
                    0 <= r < before.rows && 0 <= c < before.cols ==> settled(
                        #[trigger] self.cell(r, c),
                        before.base(rows_touched@, default_bg, r, c),
                        runs@.take(j as int),
                        r,
                        c,
                        default_bg,
                        slot_for,
                    ),
            decreases runs.len() - j,
        {
            let ghost held = *self;
            self.write_run(&runs[j], default_bg, &slot_for);
            proof {
                let seen = runs@.take(j as int);
                let now = runs@.take(j + 1);
                assert(now.drop_last() =~= seen);
                assert(now.last() == runs@[j as int]);
                assert forall|r: int, c: int|
                    0 <= r < before.rows && 0 <= c < before.cols implies settled(
                    #[trigger] self.cell(r, c),
                    before.base(rows_touched@, default_bg, r, c),
                    now,
                    r,
                    c,
                    default_bg,
                    slot_for,
                ) by {
                    assert(settled(
                        held.cell(r, c),
                        before.base(rows_touched@, default_bg, r, c),
                        seen,
                        r,
                        c,
                        default_bg,
                        slot_for,
                    ));
                    a_writer_is_one_of_the_runs(seen, r, c, default_bg);
                }
            }
            j += 1;
        }
        assert(runs@.take(j as int) =~= runs@);
    }

    /// Whether any cell carries a line.
    pub fn any_decorated(&self) -> (r: bool)
        ensures
            r == carries_lines(self.glyphs@),
            r == exists|i: int| 0 <= i < self.glyphs@.len() && #[trigger] self.glyphs@[i].flags != 0,
    {
        let mut i: usize = 0;
        while i < self.glyphs.len()
            invariant
                i <= self.glyphs.len(),
                forall|k: int| 0 <= k < i ==> #[trigger] self.glyphs@[k].flags == 0,
            decreases self.glyphs.len() - i,
        {
            if self.glyphs[i].flags != 0 {
                return true;
            }
            i += 1;
        }
        false
    }
}

proof fn a_writer_is_one_of_the_runs(
    runs: Seq<RunView<'_>>,
    row: int,
    col: int,
    default_bg: [u8; 4],
)
    ensures
        last_writer(runs, row, col, default_bg) is Some ==> {
            let k = last_writer(runs, row, col, default_bg)->0;
            0 <= k < runs.len() && put_at(runs[k], row, col, default_bg) is Some
        },
    decreases runs.len(),
{
    if runs.len() > 0 && put_at(runs.last(), row, col, default_bg) is None {
        a_writer_is_one_of_the_runs(runs.drop_last(), row, col, default_bg);
    }
}

/// A row that is not rewritten and that no run covers keeps its records.
pub proof fn a_row_keeps_its_place<F: Fn(char, Face) -> u16>(
    before: GridInstances,
    after: GridInstances,
    rows_touched: Seq<usize>,
    runs: Seq<RunView<'_>>,
    default_bg: [u8; 4],
    slot_for: F,
    row: int,
    col: int,
)
    requires
        0 <= row < before.rows,
        0 <= col < before.cols,
        settled(
            after.cell(row, col),
            before.base(rows_touched, default_bg, row, col),
            runs,
            row,
            col,
            default_bg,
            slot_for,
        ),
        !rows_touched.contains(row as usize),
        forall|k: int| 0 <= k < runs.len() ==> (#[trigger] runs[k]).row != row,
    ensures
        after.cell(row, col) == before.cell(row, col),
{
    a_writer_is_one_of_the_runs(runs, row, col, default_bg);
}

/// Nothing of the last frame is left in a row that is rewritten: a cell no run
/// puts anything at is blank, whatever it held.
pub proof fn a_rewritten_row_forgets_the_last_frame<F: Fn(char, Face) -> u16>(
    before: GridInstances,
    after: GridInstances,
    rows_touched: Seq<usize>,
    runs: Seq<RunView<'_>>,
    default_bg: [u8; 4],
    slot_for: F,
    row: int,
    col: int,
)
    requires
        0 <= row < before.rows,
        0 <= col < before.cols,
        settled(
            after.cell(row, col),
            before.base(rows_touched, default_bg, row, col),
            runs,
            row,
            col,
            default_bg,
            slot_for,
        ),
        rows_touched.contains(row as usize),
        forall|k: int|
            0 <= k < runs.len() ==> put_at(#[trigger] runs[k], row, col, default_bg) is None,
    ensures
        after.cell(row, col) == blank_cell(default_bg),
{
    a_writer_is_one_of_the_runs(runs, row, col, default_bg);
}

} // verus!
