//! Mouse-report byte encodings.  Applications that enable mouse tracking
//! receive clicks, drags and wheel ticks as button reports instead of the
//! terminal handling them locally.

use vstd::prelude::*;

use crate::input::push_number;
#[allow(unused_imports)]
use crate::input::{ascii, opt_bytes};
use crate::keys::{Modifiers, TermMode};
#[allow(unused_imports)]
use crate::text::decimal;

verus! {

pub const BUTTON_LEFT: u8 = 0;

pub const BUTTON_MIDDLE: u8 = 1;

pub const BUTTON_RIGHT: u8 = 2;

/// Motion reports add this to the held button's code.
pub const MOTION_OFFSET: u8 = 32;

/// Pointer movement with no button down.
pub const MOTION_NONE: u8 = 35;

pub const WHEEL_UP: u8 = 64;

pub const WHEEL_DOWN: u8 = 65;

pub const WHEEL_LEFT: u8 = 66;

pub const WHEEL_RIGHT: u8 = 67;

/// A cell of the grid.  Lines above the screen are negative.
#[derive(Debug, Clone, Copy, PartialEq, Eq, Structural)]
pub struct Point {
    pub line: i32,
    pub column: usize,
}

/// xterm modifier bits for mouse reports: Shift 4, Alt 8, Ctrl 16.
pub open spec fn held(mods: Modifiers) -> int {
    (if mods.shift {
        4int
    } else {
        0
    }) + (if mods.alt {
        8int
    } else {
        0
    }) + (if mods.ctrl {
        16int
    } else {
        0
    })
}

fn modifier_offset(mods: Modifiers) -> (r: u8)
    ensures
        r == held(mods),
{
    let shift: u8 = if mods.shift {
        4
    } else {
        0
    };
    let alt: u8 = if mods.alt {
        8
    } else {
        0
    };
    let ctrl: u8 = if mods.ctrl {
        16
    } else {
        0
    };
    shift + alt + ctrl
}

/// The first coordinate the legacy encoding cannot express.
pub open spec fn reach(mode: TermMode) -> int {
    if mode.utf8_mouse {
        2015
    } else {
        223
    }
}

/// One coordinate of a legacy report: a byte, or two where the mode allows it
/// and one byte is not enough.
pub open spec fn coordinate(at: int, mode: TermMode) -> Seq<u8> {
    if mode.utf8_mouse && at >= 95 {
        seq![(0xC0 + (33 + at) / 64) as u8, (0x80 + (33 + at) % 64) as u8]
    } else {
        seq![(33 + at) as u8]
    }
}

/// The code of a legacy report, which cannot name the button on release.
pub open spec fn legacy_code(button: int, pressed: bool, mods: Modifiers) -> int {
    if pressed {
        button + held(mods)
    } else {
        3 + held(mods)
    }
}

/// The report of a mouse event.  There is none over the scrollback, nor past
/// the coordinates the encoding can express.
pub open spec fn report_of(mode: TermMode, point: Point, button: int, pressed: bool, mods: Modifiers) -> Option<
    Seq<u8>,
> {
    if point.line < 0 {
        None
    } else if mode.sgr_mouse {
        Some(
            seq![0x1bu8, 91u8, 60u8] + ascii(decimal((button + held(mods)) as nat)) + seq![59u8] + ascii(
                decimal((point.column + 1) as nat),
            ) + seq![59u8] + ascii(decimal((point.line + 1) as nat)) + seq![
                if pressed {
                    77u8
                } else {
                    109u8
                },
            ],
        )
    } else if point.line >= reach(mode) || point.column >= reach(mode) {
        None
    } else {
        Some(
            seq![0x1bu8, 91u8, 77u8, (32 + legacy_code(button, pressed, mods)) as u8] + coordinate(
                point.column as int,
                mode,
            ) + coordinate(point.line as int, mode),
        )
    }
}

/// Whether the numbers of a report fit: a button's code with its modifiers is
/// a byte, and so is the byte that carries it in the legacy encoding, and the
/// coordinates that SGR counts from one do not run over.
pub open spec fn encodable(mode: TermMode, point: Point, button: u8, pressed: bool, mods: Modifiers) -> bool {
    &&& point.line >= 0 && mode.sgr_mouse ==> point.column < usize::MAX && point.line < i32::MAX
    &&& point.line >= 0 && (mode.sgr_mouse || pressed) ==> button + held(mods) <= 255
    &&& 0 <= point.line < reach(mode) && point.column < reach(mode) && !mode.sgr_mouse && pressed
        ==> button + held(mods) + 32 <= 255
}

/// Encode a mouse button event at `point`.  `button` is the base code (0, 1
/// and 2 for left, middle and right, 32 more for motion, 64 to 67 for the
/// wheel).  SGR keeps the button and marks release with a trailing `m`; the
/// legacy encoding reports button 3 on release.
pub fn mouse_report(mode: TermMode, point: Point, button: u8, pressed: bool, mods: Modifiers) -> (r: Option<Vec<u8>>)
    requires
        encodable(mode, point, button, pressed, mods),
    ensures
        opt_bytes(r) == report_of(mode, point, button as int, pressed, mods),
{
    if point.line < 0 {
        return None;
    }
    let held = modifier_offset(mods);
    if mode.sgr_mouse {
        let mut out: Vec<u8> = vec![0x1b, 91, 60];
        push_number(&mut out, (button + held) as u64);
        out.push(59);
        push_number(&mut out, point.column as u64 + 1);
        out.push(59);
        push_number(&mut out, point.line as u64 + 1);
        out.push(
            if pressed {
                77
            } else {
                109
            },
        );
        assert(out@ =~= report_of(mode, point, button as int, pressed, mods)->0);
        return Some(out);
    }
    let code: u8 = if pressed {
        button + held
    } else {
        3 + held
    };
    normal_mouse_report(mode, point, code)
}

fn push_coordinate(out: &mut Vec<u8>, at: u64, utf8: bool)
    requires
        at < 2015,
        !utf8 ==> at < 223,
    ensures
        final(out)@ == old(out)@ + (if utf8 && at >= 95 {
            seq![(0xC0 + (33 + at) / 64) as u8, (0x80 + (33 + at) % 64) as u8]
        } else {
            seq![(33 + at) as u8]
        }),
{
    let ghost before = out@;
    let pos: u64 = 33 + at;
    if utf8 && at >= 95 {
        out.push((0xC0 + pos / 64) as u8);
        out.push((0x80 + pos % 64) as u8);
        assert(out@ =~= before + seq![(0xC0 + pos / 64) as u8, (0x80 + pos % 64) as u8]);
    } else {
        out.push(pos as u8);
        assert(out@ =~= before + seq![pos as u8]);
    }
}

fn normal_mouse_report(mode: TermMode, point: Point, code: u8) -> (r: Option<Vec<u8>>)
    requires
        point.line >= 0,
        point.line < reach(mode) && point.column < reach(mode) ==> code <= 223,
    ensures
        opt_bytes(r) == (if point.line >= reach(mode) || point.column >= reach(mode) {
            None
        } else {
            Some(
                seq![0x1bu8, 91u8, 77u8, (32 + code) as u8] + coordinate(point.column as int, mode) + coordinate(
                    point.line as int,
                    mode,
                ),
            )
        }),
{
    let utf8 = mode.utf8_mouse;
    let limit: u64 = if utf8 {
        2015
    } else {
        223
    };
    let line: u64 = point.line as u64;
    let column: u64 = point.column as u64;
    if line >= limit || column >= limit {
        return None;
    }
    let mut out: Vec<u8> = vec![0x1b, 91, 77, 32 + code];
    push_coordinate(&mut out, column, utf8);
    push_coordinate(&mut out, line, utf8);
    assert(out@ =~= seq![0x1bu8, 91u8, 77u8, (32 + code) as u8] + coordinate(point.column as int, mode) + coordinate(
        point.line as int,
        mode,
    ));
    Some(out)
}

/// Encode one wheel tick.  Wheel ticks are momentary, so they always report as
/// a press.
pub fn wheel_report(mode: TermMode, point: Point, button: u8, mods: Modifiers) -> (r: Option<Vec<u8>>)
    requires
        encodable(mode, point, button, true, mods),
    ensures
        opt_bytes(r) == report_of(mode, point, button as int, true, mods),
{
    mouse_report(mode, point, button, true, mods)
}

/// Every button, motion and wheel code can be encoded with any modifiers held.
pub proof fn known_buttons_are_encodable(mode: TermMode, point: Point, button: u8, pressed: bool, mods: Modifiers)
    requires
        button <= WHEEL_RIGHT,
        mode.sgr_mouse ==> point.column < usize::MAX && point.line < i32::MAX,
    ensures
        encodable(mode, point, button, pressed, mods),
{
}

/// An SGR press and release differ in their last byte alone.
pub proof fn a_release_differs_by_its_suffix(mode: TermMode, point: Point, button: int, mods: Modifiers)
    requires
        mode.sgr_mouse,
        point.line >= 0,
    ensures
        ({
            let press = report_of(mode, point, button, true, mods)->0;
            let release = report_of(mode, point, button, false, mods)->0;
            press.drop_last() == release.drop_last() && press.last() == 77 && release.last() == 109
        }),
{
    let press = report_of(mode, point, button, true, mods)->0;
    let release = report_of(mode, point, button, false, mods)->0;
    assert(press.drop_last() =~= release.drop_last());
}

/// The legacy encoding cannot name the button on release: it reads as button
/// three, whichever it was.
pub proof fn a_legacy_release_names_no_button(
    mode: TermMode,
    point: Point,
    first: int,
    second: int,
    mods: Modifiers,
)
    requires
        !mode.sgr_mouse,
    ensures
        report_of(mode, point, first, false, mods) == report_of(mode, point, second, false, mods),
        report_of(mode, point, first, false, mods) == report_of(mode, point, 3, true, mods),
{
}

/// Past the coordinates it can express, the legacy encoding reports nothing.
pub proof fn a_legacy_report_stops_at_its_reach(
    mode: TermMode,
    point: Point,
    button: int,
    pressed: bool,
    mods: Modifiers,
)
    requires
        !mode.sgr_mouse,
        point.column >= reach(mode) || point.line >= reach(mode),
    ensures
        report_of(mode, point, button, pressed, mods) is None,
{
}

/// No byte of a legacy coordinate is a control character.
pub proof fn a_coordinate_is_no_control_character(at: int, mode: TermMode)
    requires
        0 <= at < reach(mode),
    ensures
        forall|i: int| 0 <= i < coordinate(at, mode).len() ==> #[trigger] coordinate(at, mode)[i] >= 32,
{
}

} // verus!
