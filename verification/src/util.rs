//! Small shared formatting helpers.

use vstd::prelude::*;

use crate::text;

verus! {

/// `MM:SS` view of a duration: minutes (at least two digits, zero padded)
/// and seconds, joined by a colon.
pub open spec fn spec_duration(total_secs: nat) -> Seq<char> {
    text::spec_decimal_pad2(total_secs / 60) + seq![':'] + text::spec_decimal_pad2(
        total_secs % 60,
    )
}

/// Renders a duration in seconds as `MM:SS`.
pub fn format_duration(total_secs: u64) -> (r: String)
    ensures
        r@ == spec_duration(total_secs as nat),
{
    let minutes = total_secs / 60;
    let seconds = total_secs % 60;
    let mut chars = text::decimal_chars_pad2(minutes);
    chars.push(':');
    let mut tail = text::decimal_chars_pad2(seconds);
    let mut i: usize = 0;
    while i < tail.len()
        invariant
            i <= tail@.len(),
            chars@ == text::spec_decimal_pad2(minutes as nat) + seq![':'] + tail@.take(i as int),
        decreases tail.len() - i,
    {
        chars.push(tail[i]);
        i = i + 1;
        proof {
            assert(chars@ =~= text::spec_decimal_pad2(minutes as nat) + seq![':'] + tail@.take(
                i as int,
            ));
        }
    }
    proof {
        assert(tail@.take(tail@.len() as int) =~= tail@);
        assert(chars@ =~= spec_duration(total_secs as nat));
    }
    text::string_of(&chars)
}

/// A value right-aligned to at least three characters and suffixed with
/// a percent sign, as the volume and brightness displays show it.
pub open spec fn spec_percent3(n: nat) -> Seq<char> {
    let digits = text::spec_decimal(n);
    let pad: Seq<char> = if digits.len() >= 3 {
        Seq::empty()
    } else if digits.len() == 2 {
        seq![' ']
    } else {
        seq![' ', ' ']
    };
    pad + digits + seq!['%']
}

/// Renders `n` as `"{:>3}%"`.
pub fn format_percent3(n: u64) -> (r: String)
    ensures
        r@ == spec_percent3(n as nat),
{
    let digits = text::decimal_chars(n);
    let mut chars: Vec<char> = Vec::new();
    if digits.len() == 1 {
        chars.push(' ');
        chars.push(' ');
    } else if digits.len() == 2 {
        chars.push(' ');
    }
    let mut i: usize = 0;
    let ghost pad = chars@;
    while i < digits.len()
        invariant
            i <= digits@.len(),
            pad.len() <= 2,
            chars@ == pad + digits@.take(i as int),
        decreases digits.len() - i,
    {
        chars.push(digits[i]);
        i = i + 1;
        proof {
            assert(chars@ =~= pad + digits@.take(i as int));
        }
    }
    chars.push('%');
    proof {
        assert(digits@.take(digits@.len() as int) =~= digits@);
        assert(chars@ =~= spec_percent3(n as nat));
    }
    text::string_of(&chars)
}

} // verus!
