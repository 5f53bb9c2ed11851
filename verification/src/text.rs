//! Character-level text helpers shared by the parsers and formatters.
//!
//! The external tools' output is ASCII-oriented line text; everything here
//! works on `Vec<char>` with contracts over `Seq<char>`, so the parsers can
//! state exactly which characters they accept and produce.

use vstd::prelude::*;
use vstd::string::StrSliceExecFns;

verus! {

/// ASCII whitespace, the characters the surrounding tools emit as padding.
pub open spec fn is_space_char(c: char) -> bool {
    c == ' ' || c == '\t' || c == '\n' || c == '\r' || c == '\u{b}' || c == '\u{c}'
}

pub fn is_space(c: char) -> (r: bool)
    ensures
        r == is_space_char(c),
{
    c == ' ' || c == '\t' || c == '\n' || c == '\r' || c == '\u{b}' || c == '\u{c}'
}

pub open spec fn is_digit_char(c: char) -> bool {
    '0' <= c && c <= '9'
}

pub open spec fn digit_of(c: char) -> nat {
    (c as nat - '0' as nat) as nat
}

/// Lower-case image of one character, ASCII letters only.
pub open spec fn lower_char(c: char) -> char {
    if 'A' <= c && c <= 'Z' {
        (((c as u8) + 32) as u8) as char
    } else {
        c
    }
}

pub open spec fn spec_lower(s: Seq<char>) -> Seq<char> {
    Seq::new(s.len(), |i: int| lower_char(s[i]))
}

pub fn to_lower(c: char) -> (r: char)
    ensures
        r == lower_char(c),
{
    if 'A' <= c && c <= 'Z' {
        ((c as u8) + 32) as char
    } else {
        c
    }
}

pub fn lower_chars(s: &Vec<char>) -> (r: Vec<char>)
    ensures
        r@ == spec_lower(s@),
{
    let mut out: Vec<char> = Vec::new();
    let mut i: usize = 0;
    while i < s.len()
        invariant
            i <= s.len(),
            out@ == spec_lower(s@).take(i as int),
        decreases s.len() - i,
    {
        out.push(to_lower(s[i]));
        i = i + 1;
        proof {
            assert(out@ =~= spec_lower(s@).take(i as int));
        }
    }
    proof {
        assert(spec_lower(s@).take(s@.len() as int) =~= spec_lower(s@));
    }
    out
}

/// The characters of a string slice, in order.
pub fn chars_of(s: &str) -> (r: Vec<char>)
    ensures
        r@ == s@,
{
    let n = s.unicode_len();
    let mut out: Vec<char> = Vec::new();
    let mut i: usize = 0;
    while i < n
        invariant
            n == s@.len(),
            i <= n,
            out@ == s@.take(i as int),
        decreases n - i,
    {
        out.push(s.get_char(i));
        i = i + 1;
        proof {
            assert(out@ =~= s@.take(i as int));
        }
    }
    proof {
        assert(s@.take(n as int) =~= s@);
    }
    out
}

/// Relies on `String::push`: appends exactly the one character.
#[verifier::external_body]
fn push_char(s: &mut String, c: char)
    ensures
        final(s)@ == old(s)@ + seq![c],
{
    s.push(c);
}

/// A `String` holding exactly the given characters.
pub fn string_of(chars: &Vec<char>) -> (r: String)
    ensures
        r@ == chars@,
{
    let mut out = String::new();
    let mut i: usize = 0;
    while i < chars.len()
        invariant
            i <= chars.len(),
            out@ == chars@.take(i as int),
        decreases chars.len() - i,
    {
        push_char(&mut out, chars[i]);
        i = i + 1;
        proof {
            assert(out@ =~= chars@.take(i as int));
        }
    }
    proof {
        assert(chars@.take(chars@.len() as int) =~= chars@);
    }
    out
}

pub fn eq_chars(a: &Vec<char>, b: &Vec<char>) -> (r: bool)
    ensures
        r == (a@ == b@),
{
    if a.len() != b.len() {
        proof {
            assert(a@.len() != b@.len());
        }
        return false;
    }
    let mut i: usize = 0;
    while i < a.len()
        invariant
            a@.len() == b@.len(),
            i <= a.len(),
            forall|j: int| 0 <= j < i ==> a@[j] == b@[j],
        decreases a.len() - i,
    {
        if a[i] != b[i] {
            return false;
        }
        i = i + 1;
    }
    proof {
        assert(a@ =~= b@);
    }
    true
}

/// The characters from `a` (inclusive) to `b` (exclusive).
pub fn slice_range(s: &Vec<char>, a: usize, b: usize) -> (r: Vec<char>)
    requires
        a <= b <= s@.len(),
    ensures
        r@ == s@.subrange(a as int, b as int),
{
    let mut out: Vec<char> = Vec::new();
    let mut i: usize = a;
    while i < b
        invariant
            a <= i <= b <= s@.len(),
            out@ == s@.subrange(a as int, i as int),
        decreases b - i,
    {
        out.push(s[i]);
        i = i + 1;
        proof {
            assert(out@ =~= s@.subrange(a as int, i as int));
        }
    }
    out
}

/// `s` with leading whitespace removed.
pub open spec fn drop_leading(s: Seq<char>) -> Seq<char>
    decreases s.len(),
{
    if s.len() > 0 && is_space_char(s[0]) {
        drop_leading(s.skip(1))
    } else {
        s
    }
}

/// `s` with trailing whitespace removed.
pub open spec fn drop_trailing(s: Seq<char>) -> Seq<char>
    decreases s.len(),
{
    if s.len() > 0 && is_space_char(s.last()) {
        drop_trailing(s.drop_last())
    } else {
        s
    }
}

/// `s` with whitespace removed from both ends.
pub open spec fn spec_trim(s: Seq<char>) -> Seq<char> {
    drop_trailing(drop_leading(s))
}

pub fn trim_chars(s: &Vec<char>) -> (r: Vec<char>)
    ensures
        r@ == spec_trim(s@),
{
    let mut a: usize = 0;
    proof {
        assert(s@.skip(0) =~= s@);
    }
    while a < s.len() && is_space(s[a])
        invariant
            a <= s@.len(),
            drop_leading(s@) == drop_leading(s@.skip(a as int)),
        decreases s.len() - a,
    {
        proof {
            assert(s@.skip(a as int).skip(1) =~= s@.skip(a as int + 1));
        }
        a = a + 1;
    }
    proof {
        assert(drop_leading(s@.skip(a as int)) == s@.skip(a as int));
    }
    let mut b: usize = s.len();
    proof {
        assert(s@.skip(a as int) =~= s@.subrange(a as int, s@.len() as int));
    }
    while b > a && is_space(s[b - 1])
        invariant
            a <= b <= s@.len(),
            drop_leading(s@) == s@.skip(a as int),
            drop_trailing(s@.skip(a as int)) == drop_trailing(s@.subrange(a as int, b as int)),
        decreases b,
    {
        proof {
            assert(s@.subrange(a as int, b as int).last() == s@[b - 1]);
            assert(s@.subrange(a as int, b as int).drop_last() =~= s@.subrange(
                a as int,
                b as int - 1,
            ));
        }
        b = b - 1;
    }
    proof {
        if b == a {
            assert(s@.subrange(a as int, b as int).len() == 0);
        } else {
            assert(s@.subrange(a as int, b as int).last() == s@[b - 1]);
        }
        assert(drop_trailing(s@.subrange(a as int, b as int)) == s@.subrange(a as int, b as int));
    }
    slice_range(s, a, b)
}

/// `p` stands at the start of `s`.
pub open spec fn is_prefix(p: Seq<char>, s: Seq<char>) -> bool {
    p.len() <= s.len() && s.subrange(0, p.len() as int) == p
}

pub fn has_prefix(s: &Vec<char>, p: &Vec<char>) -> (r: bool)
    ensures
        r == is_prefix(p@, s@),
{
    if p.len() > s.len() {
        return false;
    }
    let mut i: usize = 0;
    while i < p.len()
        invariant
            p@.len() <= s@.len(),
            i <= p.len(),
            forall|j: int| 0 <= j < i ==> s@[j] == p@[j],
        decreases p.len() - i,
    {
        if s[i] != p[i] {
            proof {
                assert(s@.subrange(0, p@.len() as int)[i as int] != p@[i as int]);
            }
            return false;
        }
        i = i + 1;
    }
    proof {
        assert(s@.subrange(0, p@.len() as int) =~= p@);
    }
    true
}

/// Index of the first occurrence of `c`, or the length of `s` if absent.
pub open spec fn spec_find(s: Seq<char>, c: char) -> int
    decreases s.len(),
{
    if s.len() == 0 {
        0
    } else if s[0] == c {
        0
    } else {
        1 + spec_find(s.skip(1), c)
    }
}

pub proof fn lemma_find(s: Seq<char>, c: char)
    ensures
        0 <= spec_find(s, c) <= s.len(),
        spec_find(s, c) < s.len() ==> s[spec_find(s, c)] == c,
        forall|j: int| 0 <= j < spec_find(s, c) ==> s[j] != c,
    decreases s.len(),
{
    if s.len() == 0 {
    } else if s[0] == c {
    } else {
        lemma_find(s.skip(1), c);
        assert forall|j: int| 0 <= j < spec_find(s, c) implies s[j] != c by {
            if j > 0 {
                assert(s.skip(1)[j - 1] != c);
            }
        }
    }
}

pub proof fn lemma_find_shift(s: Seq<char>, c: char, k: int)
    requires
        0 <= k <= s.len(),
        forall|j: int| 0 <= j < k ==> s[j] != c,
    ensures
        spec_find(s, c) == k + spec_find(s.skip(k), c),
    decreases k,
{
    if k > 0 {
        assert(s[0] != c);
        assert forall|j: int| 0 <= j < k - 1 implies s.skip(1)[j] != c by {
            assert(s.skip(1)[j] == s[j + 1]);
        }
        lemma_find_shift(s.skip(1), c, k - 1);
        assert(s.skip(1).skip(k - 1) =~= s.skip(k));
    } else {
        assert(s.skip(0) =~= s);
    }
}

/// First index of `c` at or after `from`.
pub fn find_char_from(s: &Vec<char>, c: char, from: usize) -> (r: Option<usize>)
    requires
        from <= s@.len(),
    ensures
        match r {
            Some(i) => from <= i < s@.len() && i - from == spec_find(s@.skip(from as int), c),
            None => spec_find(s@.skip(from as int), c) == s@.len() - from,
        },
{
    let ghost tail = s@.skip(from as int);
    let mut i: usize = from;
    while i < s.len()
        invariant
            from <= i <= s@.len(),
            tail == s@.skip(from as int),
            forall|j: int| from <= j < i ==> s@[j] != c,
        decreases s.len() - i,
    {
        if s[i] == c {
            proof {
                assert(forall|j: int| 0 <= j < i - from ==> tail[j] != c);
                lemma_find_shift(tail, c, i - from);
                assert(tail.skip(i - from)[0] == c);
            }
            return Some(i);
        }
        i = i + 1;
    }
    proof {
        assert(forall|j: int| 0 <= j < tail.len() ==> tail[j] != c);
        lemma_find_shift(tail, c, tail.len() as int);
        assert(tail.skip(tail.len() as int).len() == 0);
        assert(spec_find(tail.skip(tail.len() as int), c) == 0);
        assert(spec_find(tail, c) == tail.len());
    }
    None
}

/// The pieces of `s` between occurrences of `sep`, in order; always at
/// least one piece, and the separator stands in none of them.
pub open spec fn spec_split(s: Seq<char>, sep: char) -> Seq<Seq<char>>
    decreases s.len(),
{
    let i = spec_find(s, sep);
    if 0 <= i && i < s.len() {
        seq![s.take(i)] + spec_split(s.skip(i + 1), sep)
    } else {
        seq![s]
    }
}

pub fn split_char(s: &Vec<char>, sep: char) -> (r: Vec<Vec<char>>)
    ensures
        r.deep_view() == spec_split(s@, sep),
        r@.len() >= 1,
{
    let mut out: Vec<Vec<char>> = Vec::new();
    let mut start: usize = 0;
    proof {
        assert(s@.len() == vstd::std_specs::vec::spec_vec_len(s));
        assert(s@.skip(0) =~= s@);
        assert(out.deep_view() + spec_split(s@, sep) =~~= spec_split(s@, sep));
    }
    loop
        invariant
            start <= s@.len() <= usize::MAX,
            spec_split(s@, sep) == out.deep_view() + spec_split(s@.skip(start as int), sep),
        decreases s@.len() - start,
    {
        let ghost tail = s@.skip(start as int);
        let ghost pre = out.deep_view();
        match find_char_from(s, sep, start) {
            Some(i) => {
                let ghost f = i - start;
                let piece = slice_range(s, start, i);
                proof {
                    lemma_find(tail, sep);
                    assert(piece@ =~= tail.take(f));
                    assert(s@.skip(i as int + 1) =~= tail.skip(f + 1));
                    assert(spec_split(tail, sep) == seq![tail.take(f)] + spec_split(
                        tail.skip(f + 1),
                        sep,
                    ));
                }
                out.push(piece);
                start = i + 1;
                proof {
                    assert(out.deep_view() =~~= pre.push(piece@));
                    assert(pre + spec_split(tail, sep) =~~= pre.push(piece@) + spec_split(
                        s@.skip(start as int),
                        sep,
                    ));
                    assert(spec_split(s@, sep) =~~= out.deep_view() + spec_split(
                        s@.skip(start as int),
                        sep,
                    ));
                }
            },
            None => {
                let piece = slice_range(s, start, s.len());
                proof {
                    assert(piece@ =~= tail);
                    assert(spec_split(tail, sep) == seq![tail]);
                }
                out.push(piece);
                proof {
                    assert(out.deep_view() =~~= pre.push(piece@));
                    assert(pre + spec_split(tail, sep) =~~= pre.push(tail));
                    assert(spec_split(s@, sep) =~~= out.deep_view());
                }
                return out;
            },
        }
    }
}

/// `needle` occurs contiguously somewhere in `hay`.
pub open spec fn spec_contains(hay: Seq<char>, needle: Seq<char>) -> bool {
    exists|i: int|
        0 <= i <= hay.len() - needle.len() && #[trigger] hay.subrange(i, i + needle.len())
            == needle
}

pub fn contains_chars(hay: &Vec<char>, needle: &Vec<char>) -> (r: bool)
    ensures
        r == spec_contains(hay@, needle@),
{
    if needle.len() > hay.len() {
        return false;
    }
    if needle.len() == 0 {
        proof {
            assert(hay@.subrange(0, 0 + needle@.len() as int) =~= needle@);
            assert(spec_contains(hay@, needle@));
        }
        return true;
    }
    let mut i: usize = 0;
    while i <= hay.len() - needle.len()
        invariant
            1 <= needle@.len() <= hay@.len() <= usize::MAX,
            i <= hay@.len() - needle@.len() + 1,
            forall|j: int|
                0 <= j < i ==> #[trigger] hay@.subrange(j, j + needle@.len()) != needle@,
        decreases hay.len() - i,
    {
        let mut k: usize = 0;
        let mut matched = true;
        while k < needle.len()
            invariant
                1 <= needle@.len() <= hay@.len() <= usize::MAX,
                i + needle@.len() <= hay@.len(),
                k <= needle@.len(),
                matched ==> forall|m: int| 0 <= m < k ==> hay@[i + m] == needle@[m],
                !matched ==> hay@.subrange(i as int, i + needle@.len()) != needle@,
            decreases needle.len() - k,
        {
            if hay[i + k] != needle[k] {
                proof {
                    assert(hay@.subrange(i as int, i + needle@.len())[k as int] != needle@[
                    k as int]);
                }
                matched = false;
                k = needle.len();
            } else {
                k = k + 1;
            }
        }
        if matched {
            proof {
                assert(hay@.subrange(i as int, i + needle@.len()) =~= needle@);
            }
            return true;
        }
        i = i + 1;
    }
    proof {
        assert forall|j: int| 0 <= j <= hay@.len() - needle@.len() implies #[trigger] hay@
            .subrange(j, j + needle@.len()) != needle@ by {
            assert(j < i);
        }
    }
    false
}

pub open spec fn all_digits(s: Seq<char>) -> bool {
    forall|i: int| 0 <= i < s.len() ==> is_digit_char(#[trigger] s[i])
}

/// Value of a digit string read in base ten.
pub open spec fn digits_val(s: Seq<char>) -> nat
    decreases s.len(),
{
    if s.len() == 0 {
        0
    } else {
        digits_val(s.drop_last()) * 10 + digit_of(s.last())
    }
}

proof fn lemma_digits_val_grows(s: Seq<char>)
    requires
        s.len() > 0,
    ensures
        digits_val(s) >= digits_val(s.drop_last()),
{
}

/// The decimal digit character for `d`.
pub open spec fn digit_char(d: nat) -> char {
    ((d + ('0' as nat)) as u8) as char
}

pub fn char_of_digit(d: u8) -> (r: char)
    requires
        d < 10,
    ensures
        r == digit_char(d as nat),
        is_digit_char(r),
        digit_of(r) == d as nat,
{
    let c = (d + 48) as char;
    c
}

/// Parses an unsigned decimal number; `None` on an empty string, a
/// non-digit, or a value over `u32::MAX`.
pub fn parse_u32_chars(s: &Vec<char>) -> (r: Option<u32>)
    ensures
        match r {
            Some(n) => s@.len() > 0 && all_digits(s@) && digits_val(s@) <= u32::MAX && n
                == digits_val(s@),
            None => s@.len() == 0 || !all_digits(s@) || digits_val(s@) > u32::MAX,
        },
{
    if s.len() == 0 {
        return None;
    }
    let mut acc: u64 = 0;
    let mut i: usize = 0;
    while i < s.len()
        invariant
            i <= s@.len(),
            all_digits(s@.take(i as int)),
            acc == digits_val(s@.take(i as int)),
            acc <= u32::MAX,
        decreases s.len() - i,
    {
        let c = s[i];
        if !('0' <= c && c <= '9') {
            return None;
        }
        let d: u64 = (c as u32 - 48) as u64;
        proof {
            assert(s@.take(i as int + 1).drop_last() =~= s@.take(i as int));
            assert(s@.take(i as int + 1).last() == c);
            assert(digit_of(c) == d);
        }
        acc = acc * 10 + d;
        i = i + 1;
        if acc > 0xffff_ffff {
            proof {
                lemma_digits_val_monotone(s@, i as int);
            }
            return None;
        }
    }
    proof {
        assert(s@.take(s@.len() as int) =~= s@);
    }
    Some(acc as u32)
}

/// With only digits ahead, the value of a prefix never exceeds the whole.
proof fn lemma_digits_val_monotone(s: Seq<char>, k: int)
    requires
        0 <= k <= s.len(),
    ensures
        all_digits(s) ==> digits_val(s) >= digits_val(s.take(k)),
    decreases s.len() - k,
{
    if k < s.len() {
        lemma_digits_val_monotone(s, k + 1);
        if all_digits(s) {
            assert(s.take(k + 1).drop_last() =~= s.take(k));
            assert(digits_val(s.take(k + 1)) >= digits_val(s.take(k)));
        }
    } else {
        assert(s.take(k) =~= s);
    }
}

/// Decimal digit characters of `n`, most significant first, no leading
/// zeroes (a single `'0'` for zero).
pub open spec fn spec_decimal(n: nat) -> Seq<char>
    decreases n,
{
    if n < 10 {
        seq![digit_char(n)]
    } else {
        spec_decimal(n / 10) + seq![digit_char(n % 10)]
    }
}

pub fn decimal_chars(n: u64) -> (r: Vec<char>)
    ensures
        r@ == spec_decimal(n as nat),
        r@.len() >= 1,
    decreases n,
{
    if n < 10 {
        let mut out: Vec<char> = Vec::new();
        out.push(char_of_digit(n as u8));
        proof {
            assert(out@ =~= seq![digit_char(n as nat)]);
        }
        out
    } else {
        let mut out = decimal_chars(n / 10);
        out.push(char_of_digit((n % 10) as u8));
        proof {
            assert(out@ =~= spec_decimal((n / 10) as nat) + seq![digit_char((n % 10) as nat)]);
        }
        out
    }
}

/// `n` rendered in decimal, left-padded with `'0'` to at least two
/// characters.
pub open spec fn spec_decimal_pad2(n: nat) -> Seq<char> {
    if n < 10 {
        seq!['0'] + spec_decimal(n)
    } else {
        spec_decimal(n)
    }
}

pub fn decimal_chars_pad2(n: u64) -> (r: Vec<char>)
    ensures
        r@ == spec_decimal_pad2(n as nat),
{
    if n < 10 {
        let mut out: Vec<char> = Vec::new();
        out.push('0');
        out.push(char_of_digit(n as u8));
        proof {
            assert(out@ =~= seq!['0'] + spec_decimal(n as nat));
        }
        out
    } else {
        decimal_chars(n)
    }
}

} // verus!
