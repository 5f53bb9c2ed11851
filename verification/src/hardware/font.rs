//! Measurements of the five-by-seven bitmap font the display strip is
//! rendered with. The pixel drawing itself happens outside the library;
//! the width arithmetic lives here so text layout can be reasoned
//! about. Widths saturate at the integer limit instead of overflowing.

use vstd::prelude::*;
use vstd::string::StrSliceExecFns;

use crate::text;

verus! {

pub const GLYPH_WIDTH: u32 = 5;

pub const GLYPH_HEIGHT: u32 = 7;

/// The characters the bitmap font has a glyph for: digits, the upper
/// case letters it defines, and a few symbols.
pub open spec fn spec_glyph_supported(c: char) -> bool {
    ('0' <= c && c <= '9') || c == 'A' || c == 'B' || c == 'C' || c == 'D' || c == 'E' || c == 'F'
        || c == 'G' || c == 'H' || c == 'I' || c == 'L' || c == 'M' || c == 'N' || c == 'O' || c
        == 'P' || c == 'R' || c == 'S' || c == 'T' || c == 'U' || c == 'V' || c == ':' || c == '%'
        || c == '-'
}

pub fn glyph_supported(c: char) -> (r: bool)
    ensures
        r == spec_glyph_supported(c),
{
    ('0' <= c && c <= '9') || c == 'A' || c == 'B' || c == 'C' || c == 'D' || c == 'E' || c == 'F'
        || c == 'G' || c == 'H' || c == 'I' || c == 'L' || c == 'M' || c == 'N' || c == 'O' || c
        == 'P' || c == 'R' || c == 'S' || c == 'T' || c == 'U' || c == 'V' || c == ':' || c == '%'
        || c == '-'
}

/// Addition saturated at the top of the unsigned range.
pub open spec fn sat_add(a: nat, b: nat) -> nat {
    if a + b > 0xffff_ffff {
        0xffff_ffff
    } else {
        (a + b) as nat
    }
}

/// Multiplication saturated at the top of the unsigned range.
pub open spec fn sat_mul(a: nat, b: nat) -> nat {
    if a * b > 0xffff_ffff {
        0xffff_ffff
    } else {
        (a * b) as nat
    }
}

/// The width scan: a space advances three scaled columns; a supported
/// glyph advances five scaled columns, plus one column of spacing after
/// a previously drawn glyph; anything else takes no room.
pub open spec fn spec_scan(
    s: Seq<char>,
    scale: nat,
    i: int,
    width: nat,
    drawn: bool,
) -> (nat, bool)
    decreases s.len() - i,
{
    if i < 0 || i >= s.len() {
        (width, drawn)
    } else {
        let c = s[i];
        if c == ' ' {
            spec_scan(s, scale, i + 1, sat_add(width, sat_mul(scale, 3)), drawn)
        } else if spec_glyph_supported(c) {
            let spaced = if drawn {
                sat_add(width, scale)
            } else {
                width
            };
            spec_scan(s, scale, i + 1, sat_add(spaced, sat_mul(GLYPH_WIDTH as nat, scale)), true)
        } else {
            spec_scan(s, scale, i + 1, width, drawn)
        }
    }
}

/// The width and height of a text at a scale: the scanned width, and
/// seven scaled rows once anything was drawn. Scale zero takes no room.
pub open spec fn spec_measure_text(s: Seq<char>, scale: nat) -> (nat, nat) {
    if scale == 0 {
        (0, 0)
    } else {
        let (width, drawn) = spec_scan(s, scale, 0, 0, false);
        (width, if drawn {
            sat_mul(GLYPH_HEIGHT as nat, scale)
        } else {
            0
        })
    }
}

/// Measures a text in pixels at a scale.
pub fn measure_text(text: &str, scale: u32) -> (r: (u32, u32))
    ensures
        (r.0 as nat, r.1 as nat) == spec_measure_text(text@, scale as nat),
{
    if scale == 0 {
        return (0, 0);
    }
    let chars = text::chars_of(text);
    let mut width: u32 = 0;
    let mut drawn = false;
    let mut i: usize = 0;
    while i < chars.len()
        invariant
            scale >= 1,
            i <= chars@.len(),
            chars@ == text@,
            spec_scan(text@, scale as nat, 0, 0, false) == spec_scan(
                text@,
                scale as nat,
                i as int,
                width as nat,
                drawn,
            ),
        decreases chars@.len() - i,
    {
        let c = chars[i];
        if c == ' ' {
            width = sat_add_exec(width, sat_mul_exec(scale, 3));
        } else if glyph_supported(c) {
            if drawn {
                width = sat_add_exec(width, scale);
            }
            width = sat_add_exec(width, sat_mul_exec(GLYPH_WIDTH, scale));
            drawn = true;
        }
        i = i + 1;
    }
    let height: u32 = if drawn {
        sat_mul_exec(GLYPH_HEIGHT, scale)
    } else {
        0
    };
    (width, height)
}

fn sat_add_exec(a: u32, b: u32) -> (r: u32)
    ensures
        r as nat == sat_add(a as nat, b as nat),
{
    let wide: u64 = a as u64 + b as u64;
    if wide > 0xffff_ffffu64 {
        0xffff_ffff
    } else {
        wide as u32
    }
}

fn sat_mul_exec(a: u32, b: u32) -> (r: u32)
    ensures
        r as nat == sat_mul(a as nat, b as nat),
{
    proof {
        assert((a as u64) * (b as u64) <= 0xffff_ffffu64 * 0xffff_ffffu64) by (nonlinear_arith)
            requires
                a as u64 <= 0xffff_ffffu64,
                b as u64 <= 0xffff_ffffu64,
        ;
    }
    let wide: u64 = (a as u64) * (b as u64);
    if wide > 0xffff_ffffu64 {
        0xffff_ffff
    } else {
        wide as u32
    }
}

} // verus!
