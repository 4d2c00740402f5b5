//! Colour notations: the hexadecimal input and output forms and the
//! CSS-like display strings.
//!
//! The floating-point conversions between colour spaces stay with the caller;
//! what reaches this module are the integer components and, for a colour that
//! is not opaque, its alpha as a byte (`0..=255`, hex output) or as a
//! percentage (CSS suffix).

use vstd::prelude::*;
use vstd::string::*;
use crate::text::{decimal, digit, digit_char, push_char, push_decimal, push_signed, signed_decimal};

verus! {

/// An RGB colour, one byte per channel.
pub type Rgb = (u8, u8, u8);

// ---------------------------------------------------------------------------
// Characters
// ---------------------------------------------------------------------------

/// Unicode `White_Space`, the set that `char::is_whitespace` and `str::trim` use.
pub open spec fn is_white_space(c: char) -> bool {
    ||| c == ' '
    ||| ('\t' <= c && c <= '\r')
    ||| c == '\u{85}'
    ||| c == '\u{a0}'
    ||| c == '\u{1680}'
    ||| ('\u{2000}' <= c && c <= '\u{200a}')
    ||| c == '\u{2028}'
    ||| c == '\u{2029}'
    ||| c == '\u{202f}'
    ||| c == '\u{205f}'
    ||| c == '\u{3000}'
}

/// An ASCII hexadecimal digit, either case.
pub open spec fn is_hex_digit(c: char) -> bool {
    ||| ('0' <= c && c <= '9')
    ||| ('a' <= c && c <= 'f')
    ||| ('A' <= c && c <= 'F')
}

/// The value of a hexadecimal digit.
pub open spec fn hex_value(c: char) -> int {
    if '0' <= c && c <= '9' {
        c as int - '0' as int
    } else if 'a' <= c && c <= 'f' {
        c as int - 'a' as int + 10
    } else {
        c as int - 'A' as int + 10
    }
}

fn is_white_space_exec(c: char) -> (b: bool)
    ensures
        b == is_white_space(c),
{
    c == ' ' || ('\t' <= c && c <= '\r') || c == '\u{85}' || c == '\u{a0}' || c == '\u{1680}'
        || ('\u{2000}' <= c && c <= '\u{200a}') || c == '\u{2028}' || c == '\u{2029}'
        || c == '\u{202f}' || c == '\u{205f}' || c == '\u{3000}'
}

fn is_hex_digit_exec(c: char) -> (b: bool)
    ensures
        b == is_hex_digit(c),
{
    ('0' <= c && c <= '9') || ('a' <= c && c <= 'f') || ('A' <= c && c <= 'F')
}

fn hex_value_exec(c: char) -> (v: u8)
    requires
        is_hex_digit(c),
    ensures
        v == hex_value(c),
        v < 16,
{
    let u = c as u32;
    if '0' <= c && c <= '9' {
        (u - 48) as u8
    } else if 'a' <= c && c <= 'f' {
        (u - 87) as u8
    } else {
        (u - 55) as u8
    }
}

/// The characters of `s`, in order.
pub fn chars_of(s: &str) -> (v: Vec<char>)
    ensures
        v@ == s@,
{
    let n = s.unicode_len();
    let mut v: Vec<char> = Vec::new();
    let mut i: usize = 0;
    while i < n
        invariant
            n == s@.len(),
            i <= n,
            v@ == s@.subrange(0, i as int),
        decreases n - i,
    {
        v.push(s.get_char(i));
        i = i + 1;
    }
    v
}


// ---------------------------------------------------------------------------
// Hexadecimal input
// ---------------------------------------------------------------------------

/// `s` without its leading white space.
pub open spec fn trim_start(s: Seq<char>) -> Seq<char>
    decreases s.len(),
{
    if s.len() > 0 && is_white_space(s[0]) {
        trim_start(s.drop_first())
    } else {
        s
    }
}

/// `s` without its trailing white space.
pub open spec fn trim_end(s: Seq<char>) -> Seq<char>
    decreases s.len(),
{
    if s.len() > 0 && is_white_space(s.last()) {
        trim_end(s.drop_last())
    } else {
        s
    }
}

/// `s` without its leading `#` characters, however many there are.
pub open spec fn strip_hashes(s: Seq<char>) -> Seq<char>
    decreases s.len(),
{
    if s.len() > 0 && s[0] == '#' {
        strip_hashes(s.drop_first())
    } else {
        s
    }
}

/// The digits of a hexadecimal input: white space trimmed at both ends, then
/// every leading `#` removed.
pub open spec fn hex_digits_of(s: Seq<char>) -> Seq<char> {
    strip_hashes(trim_end(trim_start(s)))
}

/// Two hexadecimal digits, the notation of one byte.
pub open spec fn pair_valid(a: char, b: char) -> bool {
    is_hex_digit(a) && is_hex_digit(b)
}

/// The byte that two hexadecimal digits denote.
pub open spec fn pair_value(a: char, b: char) -> int {
    hex_value(a) * 16 + hex_value(b)
}

/// The byte of a one-digit short-notation channel: the digit doubled.
pub open spec fn short_value(c: char) -> int {
    hex_value(c) * 17
}

/// What a hexadecimal colour input denotes: its colour, and its alpha as a
/// byte (`255` when the input gives no alpha).
///
/// After trimming and removing the `#` characters (see `hex_digits_of`), the
/// input is accepted in four forms of hexadecimal digits: three or four, each
/// doubled (`#abc` is `#aabbcc`, `#abcd` is `#aabbccdd`), and six or eight,
/// read as pairs, the fourth pair being the alpha. Anything else reads as
/// `None`.
pub open spec fn spec_hex_to_rgb(s: Seq<char>) -> Option<(Rgb, u8)> {
    let c = hex_digits_of(s);
    if c.len() == 3 && is_hex_digit(c[0]) && is_hex_digit(c[1]) && is_hex_digit(c[2]) {
        Some(((short_value(c[0]) as u8, short_value(c[1]) as u8, short_value(c[2]) as u8), 255u8))
    } else if c.len() == 4 && is_hex_digit(c[0]) && is_hex_digit(c[1]) && is_hex_digit(c[2])
        && is_hex_digit(c[3]) {
        Some(
            (
                (short_value(c[0]) as u8, short_value(c[1]) as u8, short_value(c[2]) as u8),
                short_value(c[3]) as u8,
            ),
        )
    } else if c.len() == 6 && pair_valid(c[0], c[1]) && pair_valid(c[2], c[3]) && pair_valid(
        c[4],
        c[5],
    ) {
        Some(
            (
                (
                    pair_value(c[0], c[1]) as u8,
                    pair_value(c[2], c[3]) as u8,
                    pair_value(c[4], c[5]) as u8,
                ),
                255u8,
            ),
        )
    } else if c.len() == 8 && pair_valid(c[0], c[1]) && pair_valid(c[2], c[3]) && pair_valid(
        c[4],
        c[5],
    ) && pair_valid(c[6], c[7]) {
        Some(
            (
                (
                    pair_value(c[0], c[1]) as u8,
                    pair_value(c[2], c[3]) as u8,
                    pair_value(c[4], c[5]) as u8,
                ),
                pair_value(c[6], c[7]) as u8,
            ),
        )
    } else {
        None
    }
}

/// The range `start..end` of `v` that holds its hexadecimal digits.
fn hex_digit_range(v: &Vec<char>) -> (r: (usize, usize))
    ensures
        r.0 <= r.1 <= v.len(),
        v@.subrange(r.0 as int, r.1 as int) == hex_digits_of(v@),
{
    let n = v.len();
    let mut i: usize = 0;
    assert(v@.subrange(0, n as int) =~= v@);
    while i < n && is_white_space_exec(v[i])
        invariant
            i <= n == v.len(),
            trim_start(v@) == trim_start(v@.subrange(i as int, n as int)),
        decreases n - i,
    {
        assert(v@.subrange(i as int, n as int).drop_first() =~= v@.subrange(i + 1, n as int));
        i = i + 1;
    }
    assert(trim_start(v@) == v@.subrange(i as int, n as int));
    let mut j: usize = n;
    while j > i && is_white_space_exec(v[j - 1])
        invariant
            i <= j <= n == v.len(),
            trim_end(v@.subrange(i as int, n as int)) == trim_end(v@.subrange(i as int, j as int)),
        decreases j - i,
    {
        assert(v@.subrange(i as int, j as int).drop_last() =~= v@.subrange(i as int, j - 1));
        j = j - 1;
    }
    assert(trim_end(trim_start(v@)) == v@.subrange(i as int, j as int));
    while i < j && v[i] == '#'
        invariant
            i <= j <= n == v.len(),
            hex_digits_of(v@) == strip_hashes(v@.subrange(i as int, j as int)),
        decreases j - i,
    {
        assert(v@.subrange(i as int, j as int).drop_first() =~= v@.subrange(i + 1, j as int));
        i = i + 1;
    }
    (i, j)
}

/// The byte that two hexadecimal digits denote, `None` unless both are
/// hexadecimal digits.
fn pair_byte(a: char, b: char) -> (r: Option<u8>)
    ensures
        r == (if pair_valid(a, b) { Some(pair_value(a, b) as u8) } else { None::<u8> }),
{
    if is_hex_digit_exec(a) && is_hex_digit_exec(b) {
        Some(hex_value_exec(a) * 16 + hex_value_exec(b))
    } else {
        None
    }
}

/// The byte of a one-digit short-notation channel.
fn short_byte(c: char) -> (r: Option<u8>)
    ensures
        r == (if is_hex_digit(c) { Some(short_value(c) as u8) } else { None::<u8> }),
{
    if is_hex_digit_exec(c) {
        Some(hex_value_exec(c) * 17)
    } else {
        None
    }
}

/// Reads a hexadecimal colour input: `#abc`, `#abcd`, `#aabbcc` or
/// `#aabbccdd`, the `#` optional, white space around it ignored. Returns the
/// colour and the alpha byte (`255` where the input gives no alpha), or `None`
/// for any other input, whatever characters it holds.
pub fn hex_to_rgb(hex: &str) -> (res: Option<(Rgb, u8)>)
    ensures
        res == spec_hex_to_rgb(hex@),
{
    let v = chars_of(hex);
    let (i, j) = hex_digit_range(&v);
    let ghost c = hex_digits_of(hex@);
    let len = j - i;
    if len == 3 || len == 4 {
        let r = match short_byte(v[i]) {
            Some(x) => x,
            None => return None,
        };
        let g = match short_byte(v[i + 1]) {
            Some(x) => x,
            None => return None,
        };
        let b = match short_byte(v[i + 2]) {
            Some(x) => x,
            None => return None,
        };
        if len == 3 {
            return Some(((r, g, b), 255));
        }
        let a = match short_byte(v[i + 3]) {
            Some(x) => x,
            None => return None,
        };
        Some(((r, g, b), a))
    } else if len == 6 || len == 8 {
        let r = match pair_byte(v[i], v[i + 1]) {
            Some(x) => x,
            None => return None,
        };
        let g = match pair_byte(v[i + 2], v[i + 3]) {
            Some(x) => x,
            None => return None,
        };
        let b = match pair_byte(v[i + 4], v[i + 5]) {
            Some(x) => x,
            None => return None,
        };
        if len == 6 {
            return Some(((r, g, b), 255));
        }
        let a = match pair_byte(v[i + 6], v[i + 7]) {
            Some(x) => x,
            None => return None,
        };
        Some(((r, g, b), a))
    } else {
        None
    }
}


// ---------------------------------------------------------------------------
// Hexadecimal output
// ---------------------------------------------------------------------------

/// The upper-case hexadecimal digit for `d` (`0 <= d < 16`).
pub open spec fn hex_upper(d: int) -> char {
    if d < 10 {
        digit_char(d)
    } else if d == 10 {
        'A'
    } else if d == 11 {
        'B'
    } else if d == 12 {
        'C'
    } else if d == 13 {
        'D'
    } else if d == 14 {
        'E'
    } else {
        'F'
    }
}

/// A byte as two upper-case hexadecimal digits (`{:02X}`).
pub open spec fn byte_hex(b: u8) -> Seq<char> {
    seq![hex_upper(b as int / 16), hex_upper(b as int % 16)]
}

/// `#RRGGBB` for an opaque colour, `#RRGGBBAA` with an alpha byte.
pub open spec fn spec_hex_string(rgb: Rgb, alpha: Option<u8>) -> Seq<char> {
    let base = seq!['#'] + byte_hex(rgb.0) + byte_hex(rgb.1) + byte_hex(rgb.2);
    match alpha {
        Some(a) => base + byte_hex(a),
        None => base,
    }
}

fn hex_digit_upper(d: u8) -> (c: char)
    requires
        d < 16,
    ensures
        c == hex_upper(d as int),
{
    if d < 10 {
        digit(d as u64)
    } else if d == 10 {
        'A'
    } else if d == 11 {
        'B'
    } else if d == 12 {
        'C'
    } else if d == 13 {
        'D'
    } else if d == 14 {
        'E'
    } else {
        'F'
    }
}

fn push_byte_hex(s: &mut String, b: u8)
    ensures
        final(s)@ == old(s)@ + byte_hex(b),
{
    push_char(s, hex_digit_upper(b / 16));
    push_char(s, hex_digit_upper(b % 16));
    assert(final(s)@ =~= old(s)@ + byte_hex(b));
}

/// Writes a colour in hexadecimal: `#RRGGBB`, or `#RRGGBBAA` when an alpha
/// byte is given (the caller gives none for an opaque colour).
pub fn rgb_to_hex_string(rgb: Rgb, alpha: Option<u8>) -> (s: String)
    ensures
        s@ == spec_hex_string(rgb, alpha),
{
    let mut s = String::new();
    push_char(&mut s, '#');
    push_byte_hex(&mut s, rgb.0);
    push_byte_hex(&mut s, rgb.1);
    push_byte_hex(&mut s, rgb.2);
    match alpha {
        Some(a) => push_byte_hex(&mut s, a),
        None => {},
    }
    assert(s@ =~= spec_hex_string(rgb, alpha));
    s
}


// ---------------------------------------------------------------------------
// CSS-like display strings
// ---------------------------------------------------------------------------

/// The alpha suffix of the modern CSS notation: nothing for an opaque colour,
/// ` / NN%` with the alpha as a percentage otherwise.
pub open spec fn spec_alpha_suffix(alpha_percent: Option<u8>) -> Seq<char> {
    match alpha_percent {
        Some(p) => " / "@ + decimal(p as nat) + "%"@,
        None => Seq::empty(),
    }
}

/// `rgb(r, g, b)` for an opaque colour, `rgb(r g b / NN%)` otherwise.
pub open spec fn spec_css_string(rgb: Rgb, alpha_percent: Option<u8>) -> Seq<char> {
    match alpha_percent {
        None => "rgb("@ + decimal(rgb.0 as nat) + ", "@ + decimal(rgb.1 as nat) + ", "@ + decimal(
            rgb.2 as nat,
        ) + ")"@,
        Some(_) => "rgb("@ + decimal(rgb.0 as nat) + " "@ + decimal(rgb.1 as nat) + " "@ + decimal(
            rgb.2 as nat,
        ) + spec_alpha_suffix(alpha_percent) + ")"@,
    }
}

/// `hsl(h, s%, l%)`, the alpha suffix before the closing parenthesis.
pub open spec fn spec_hsl_string(h: u16, s: u8, l: u8, alpha_percent: Option<u8>) -> Seq<char> {
    "hsl("@ + decimal(h as nat) + ", "@ + decimal(s as nat) + "%, "@ + decimal(l as nat) + "%"@
        + spec_alpha_suffix(alpha_percent) + ")"@
}

/// `hsv(h, s%, v%)`, the alpha suffix before the closing parenthesis.
pub open spec fn spec_hsv_string(h: u16, s: u8, v: u8, alpha_percent: Option<u8>) -> Seq<char> {
    "hsv("@ + decimal(h as nat) + ", "@ + decimal(s as nat) + "%, "@ + decimal(v as nat) + "%"@
        + spec_alpha_suffix(alpha_percent) + ")"@
}

/// `lab(l, a, b)` (a and b may be negative), the alpha suffix before the
/// closing parenthesis.
pub open spec fn spec_lab_string(l: i16, a: i16, b: i16, alpha_percent: Option<u8>) -> Seq<char> {
    "lab("@ + signed_decimal(l as int) + ", "@ + signed_decimal(a as int) + ", "@ + signed_decimal(
        b as int,
    ) + spec_alpha_suffix(alpha_percent) + ")"@
}

fn push_alpha_suffix(s: &mut String, alpha_percent: Option<u8>)
    ensures
        final(s)@ == old(s)@ + spec_alpha_suffix(alpha_percent),
{
    match alpha_percent {
        Some(p) => {
            s.append(" / ");
            push_decimal(s, p as u64);
            s.append("%");
        },
        None => {},
    }
    assert(final(s)@ =~= old(s)@ + spec_alpha_suffix(alpha_percent));
}

/// The alpha suffix in modern CSS notation: empty for an opaque colour
/// (`None`), ` / NN%` for an alpha of `NN` percent.
pub fn alpha_suffix(alpha_percent: Option<u8>) -> (s: String)
    ensures
        s@ == spec_alpha_suffix(alpha_percent),
{
    let mut s = String::new();
    push_alpha_suffix(&mut s, alpha_percent);
    assert(s@ =~= spec_alpha_suffix(alpha_percent));
    s
}

/// The CSS display string of an RGB colour: `rgb(r, g, b)` when opaque,
/// `rgb(r g b / NN%)` for an alpha of `NN` percent.
pub fn rgb_to_css_string(rgb: Rgb, alpha_percent: Option<u8>) -> (s: String)
    ensures
        s@ == spec_css_string(rgb, alpha_percent),
{
    let mut s = String::new();
    s.append("rgb(");
    push_decimal(&mut s, rgb.0 as u64);
    match alpha_percent {
        None => {
            s.append(", ");
            push_decimal(&mut s, rgb.1 as u64);
            s.append(", ");
            push_decimal(&mut s, rgb.2 as u64);
        },
        Some(_) => {
            s.append(" ");
            push_decimal(&mut s, rgb.1 as u64);
            s.append(" ");
            push_decimal(&mut s, rgb.2 as u64);
            push_alpha_suffix(&mut s, alpha_percent);
        },
    }
    s.append(")");
    assert(s@ =~= spec_css_string(rgb, alpha_percent));
    s
}

/// `hsl(h, s%, l%)` with the alpha suffix.
pub fn format_hsl(h: u16, s: u8, l: u8, alpha_percent: Option<u8>) -> (out: String)
    ensures
        out@ == spec_hsl_string(h, s, l, alpha_percent),
{
    let mut out = String::new();
    out.append("hsl(");
    push_decimal(&mut out, h as u64);
    out.append(", ");
    push_decimal(&mut out, s as u64);
    out.append("%, ");
    push_decimal(&mut out, l as u64);
    out.append("%");
    push_alpha_suffix(&mut out, alpha_percent);
    out.append(")");
    assert(out@ =~= spec_hsl_string(h, s, l, alpha_percent));
    out
}

/// `hsv(h, s%, v%)` with the alpha suffix.
pub fn format_hsv(h: u16, s: u8, v: u8, alpha_percent: Option<u8>) -> (out: String)
    ensures
        out@ == spec_hsv_string(h, s, v, alpha_percent),
{
    let mut out = String::new();
    out.append("hsv(");
    push_decimal(&mut out, h as u64);
    out.append(", ");
    push_decimal(&mut out, s as u64);
    out.append("%, ");
    push_decimal(&mut out, v as u64);
    out.append("%");
    push_alpha_suffix(&mut out, alpha_percent);
    out.append(")");
    assert(out@ =~= spec_hsv_string(h, s, v, alpha_percent));
    out
}

/// `lab(l, a, b)` with the alpha suffix.
pub fn format_lab(l: i16, a: i16, b: i16, alpha_percent: Option<u8>) -> (out: String)
    ensures
        out@ == spec_lab_string(l, a, b, alpha_percent),
{
    let mut out = String::new();
    out.append("lab(");
    push_signed(&mut out, l);
    out.append(", ");
    push_signed(&mut out, a);
    out.append(", ");
    push_signed(&mut out, b);
    push_alpha_suffix(&mut out, alpha_percent);
    out.append(")");
    assert(out@ =~= spec_lab_string(l, a, b, alpha_percent));
    out
}

// ---------------------------------------------------------------------------
// Laws
// ---------------------------------------------------------------------------

proof fn lemma_hex_upper_digit(d: int)
    requires
        0 <= d < 16,
    ensures
        is_hex_digit(hex_upper(d)),
        hex_value(hex_upper(d)) == d,
        hex_upper(d) != '#',
        !is_white_space(hex_upper(d)),
{
}

proof fn lemma_byte_hex_pair(b: u8)
    ensures
        pair_valid(byte_hex(b)[0], byte_hex(b)[1]),
        pair_value(byte_hex(b)[0], byte_hex(b)[1]) == b,
{
    lemma_hex_upper_digit(b as int / 16);
    lemma_hex_upper_digit(b as int % 16);
}

/// Reading back what `rgb_to_hex_string` wrote gives the colour and the
/// alpha byte that were written (`255` for an opaque colour).
pub proof fn law_hex_round_trip(rgb: Rgb, alpha: Option<u8>)
    ensures
        spec_hex_to_rgb(spec_hex_string(rgb, alpha)) == Some(
            (
                rgb,
                match alpha {
                    Some(a) => a,
                    None => 255u8,
                },
            ),
        ),
{
    let s = spec_hex_string(rgb, alpha);
    let digits = s.drop_first();
    lemma_byte_hex_pair(rgb.0);
    lemma_byte_hex_pair(rgb.1);
    lemma_byte_hex_pair(rgb.2);
    lemma_hex_upper_digit(rgb.0 as int / 16);
    lemma_hex_upper_digit(rgb.2 as int % 16);
    assert(trim_start(s) == s);
    match alpha {
        Some(a) => {
            lemma_byte_hex_pair(a);
            lemma_hex_upper_digit(a as int % 16);
        },
        None => {},
    }
    assert(s.last() == digits.last());
    assert(trim_end(s) == s);
    assert(strip_hashes(digits) == digits);
    assert(hex_digits_of(s) == digits);
    match alpha {
        Some(a) => {
            assert(digits =~= byte_hex(rgb.0) + byte_hex(rgb.1) + byte_hex(rgb.2) + byte_hex(a));
        },
        None => {
            assert(digits =~= byte_hex(rgb.0) + byte_hex(rgb.1) + byte_hex(rgb.2));
        },
    }
}


proof fn lemma_hex_digit_plain(c: char)
    requires
        is_hex_digit(c),
    ensures
        !is_white_space(c),
        c != '#',
{
}

proof fn lemma_digits_read_as_given(s: Seq<char>)
    requires
        s.len() > 0,
        forall|i: int| 0 <= i < s.len() ==> is_hex_digit(#[trigger] s[i]),
    ensures
        hex_digits_of(s) == s,
{
    lemma_hex_digit_plain(s[0]);
    lemma_hex_digit_plain(s.last());
}

/// The hexadecimal digits are `0`-`9`, `a`-`f` and `A`-`F`, nothing else, and
/// each has its standard value; upper and lower case have the same value.
pub proof fn law_hex_digit_values(c: char)
    ensures
        is_hex_digit(c) <==> (c == '0' || c == '1' || c == '2' || c == '3' || c == '4' || c == '5' || c == '6' || c == '7' || c == '8' || c == '9' || c == 'a' || c == 'b' || c == 'c' || c == 'd' || c == 'e' || c == 'f' || c == 'A' || c == 'B' || c == 'C' || c == 'D' || c == 'E' || c == 'F'),
        hex_value('0') == 0,
        hex_value('1') == 1,
        hex_value('2') == 2,
        hex_value('3') == 3,
        hex_value('4') == 4,
        hex_value('5') == 5,
        hex_value('6') == 6,
        hex_value('7') == 7,
        hex_value('8') == 8,
        hex_value('9') == 9,
        hex_value('a') == 10,
        hex_value('b') == 11,
        hex_value('c') == 12,
        hex_value('d') == 13,
        hex_value('e') == 14,
        hex_value('f') == 15,
        hex_value('A') == 10,
        hex_value('B') == 11,
        hex_value('C') == 12,
        hex_value('D') == 13,
        hex_value('E') == 14,
        hex_value('F') == 15,
        is_hex_digit(c) && 'a' <= c && c <= 'f' ==> hex_value(c) == hex_value(
            ((c as u32) - 32) as char,
        ),
{
}

/// Hexadecimal output uses the digits `0`-`9` and upper-case `A`-`F`.
pub proof fn law_hex_output_digits()
    ensures
        hex_upper(0) == '0',
        hex_upper(1) == '1',
        hex_upper(2) == '2',
        hex_upper(3) == '3',
        hex_upper(4) == '4',
        hex_upper(5) == '5',
        hex_upper(6) == '6',
        hex_upper(7) == '7',
        hex_upper(8) == '8',
        hex_upper(9) == '9',
        hex_upper(10) == 'A',
        hex_upper(11) == 'B',
        hex_upper(12) == 'C',
        hex_upper(13) == 'D',
        hex_upper(14) == 'E',
        hex_upper(15) == 'F',
{
}

/// The hexadecimal form is `#` followed by the red, green and blue bytes, in
/// that order, and the alpha byte last when there is one.
pub proof fn law_hex_string_layout(rgb: Rgb, alpha: Option<u8>)
    ensures
        spec_hex_string(rgb, alpha)[0] == '#',
        spec_hex_string(rgb, alpha).subrange(1, 3) == byte_hex(rgb.0),
        spec_hex_string(rgb, alpha).subrange(3, 5) == byte_hex(rgb.1),
        spec_hex_string(rgb, alpha).subrange(5, 7) == byte_hex(rgb.2),
        alpha is None ==> spec_hex_string(rgb, alpha).len() == 7,
        forall|a: u8| alpha == Some(a) ==> spec_hex_string(rgb, alpha).len() == 9
            && spec_hex_string(rgb, alpha).subrange(7, 9) == byte_hex(a),
        forall|b: u8| byte_hex(b)[0] == hex_upper(b as int / 16) && byte_hex(b)[1] == hex_upper(
            b as int % 16,
        ),
{
    let t = spec_hex_string(rgb, alpha);
    assert(t.subrange(1, 3) =~= byte_hex(rgb.0));
    assert(t.subrange(3, 5) =~= byte_hex(rgb.1));
    assert(t.subrange(5, 7) =~= byte_hex(rgb.2));
    match alpha {
        Some(a) => {
            assert(t.subrange(7, 9) =~= byte_hex(a));
        },
        None => {},
    }
}

/// The six- and eight-digit forms read the red, green, blue (and alpha)
/// bytes from consecutive pairs of digits, the high digit first.
pub proof fn law_pairs_read_in_order(d: Seq<char>)
    requires
        d.len() == 6 || d.len() == 8,
        forall|i: int| 0 <= i < d.len() ==> is_hex_digit(#[trigger] d[i]),
    ensures
        spec_hex_to_rgb(d) == Some(
            (
                (
                    (hex_value(d[0]) * 16 + hex_value(d[1])) as u8,
                    (hex_value(d[2]) * 16 + hex_value(d[3])) as u8,
                    (hex_value(d[4]) * 16 + hex_value(d[5])) as u8,
                ),
                if d.len() == 8 {
                    (hex_value(d[6]) * 16 + hex_value(d[7])) as u8
                } else {
                    255u8
                },
            ),
        ),
{
    lemma_digits_read_as_given(d);
}

/// The alpha suffix only appends: the string of a colour that is not opaque
/// is that of the opaque colour, its closing parenthesis after the suffix.
/// The opaque forms give the components in order.
pub proof fn law_alpha_suffix_appends(h: u16, s: u8, l: u8, p: u8, rgb: Rgb, la: i16, a: i16, b: i16)
    ensures
        spec_hsl_string(h, s, l, None) == "hsl("@ + decimal(h as nat) + ", "@ + decimal(s as nat)
            + "%, "@ + decimal(l as nat) + "%"@ + ")"@,
        spec_hsl_string(h, s, l, Some(p)) == spec_hsl_string(h, s, l, None).drop_last()
            + spec_alpha_suffix(Some(p)) + ")"@,
        spec_hsv_string(h, s, l, None) == "hsv("@ + decimal(h as nat) + ", "@ + decimal(s as nat)
            + "%, "@ + decimal(l as nat) + "%"@ + ")"@,
        spec_hsv_string(h, s, l, Some(p)) == spec_hsv_string(h, s, l, None).drop_last()
            + spec_alpha_suffix(Some(p)) + ")"@,
        spec_lab_string(la, a, b, None) == "lab("@ + signed_decimal(la as int) + ", "@
            + signed_decimal(a as int) + ", "@ + signed_decimal(b as int) + ")"@,
        spec_lab_string(la, a, b, Some(p)) == spec_lab_string(la, a, b, None).drop_last()
            + spec_alpha_suffix(Some(p)) + ")"@,
        spec_css_string(rgb, None) == "rgb("@ + decimal(rgb.0 as nat) + ", "@ + decimal(
            rgb.1 as nat,
        ) + ", "@ + decimal(rgb.2 as nat) + ")"@,
        spec_css_string(rgb, Some(p)) == "rgb("@ + decimal(rgb.0 as nat) + " "@ + decimal(
            rgb.1 as nat,
        ) + " "@ + decimal(rgb.2 as nat) + " / "@ + decimal(p as nat) + "%"@ + ")"@,
        spec_alpha_suffix(None) == Seq::<char>::empty(),
        spec_alpha_suffix(Some(p)) == " / "@ + decimal(p as nat) + "%"@,
{
    reveal_strlit(")");
    let hsl = "hsl("@ + decimal(h as nat) + ", "@ + decimal(s as nat) + "%, "@ + decimal(l as nat)
        + "%"@;
    assert((hsl + ")"@).drop_last() =~= hsl);
    assert(spec_hsl_string(h, s, l, Some(p)) =~= hsl + spec_alpha_suffix(Some(p)) + ")"@);
    let hsv = "hsv("@ + decimal(h as nat) + ", "@ + decimal(s as nat) + "%, "@ + decimal(l as nat)
        + "%"@;
    assert((hsv + ")"@).drop_last() =~= hsv);
    assert(spec_hsv_string(h, s, l, Some(p)) =~= hsv + spec_alpha_suffix(Some(p)) + ")"@);
    let lab = "lab("@ + signed_decimal(la as int) + ", "@ + signed_decimal(a as int) + ", "@
        + signed_decimal(b as int);
    assert(spec_lab_string(la, a, b, None) =~= lab + ")"@);
    assert((lab + ")"@).drop_last() =~= lab);
    assert(spec_lab_string(la, a, b, Some(p)) =~= lab + spec_alpha_suffix(Some(p)) + ")"@);
    assert(spec_css_string(rgb, Some(p)) =~= "rgb("@ + decimal(rgb.0 as nat) + " "@ + decimal(
        rgb.1 as nat,
    ) + " "@ + decimal(rgb.2 as nat) + " / "@ + decimal(p as nat) + "%"@ + ")"@);
}

/// An accepted input is, once trimmed and without its `#`, three, four, six
/// or eight hexadecimal digits; every other input reads as `None`.
pub proof fn law_accepted_inputs_are_hex_digits(s: Seq<char>)
    ensures
        spec_hex_to_rgb(s) is Some <==> {
            let c = hex_digits_of(s);
            &&& (c.len() == 3 || c.len() == 4 || c.len() == 6 || c.len() == 8)
            &&& forall|i: int| 0 <= i < c.len() ==> is_hex_digit(#[trigger] c[i])
        },
{
    let c = hex_digits_of(s);
    if c.len() == 3 || c.len() == 4 || c.len() == 6 || c.len() == 8 {
        if forall|i: int| 0 <= i < c.len() ==> is_hex_digit(#[trigger] c[i]) {
        } else {
            let k = choose|i: int| 0 <= i < c.len() && !is_hex_digit(#[trigger] c[i]);
            assert(!is_hex_digit(c[k]));
        }
    }
}

/// The three- and four-digit notations double each digit: `#abc` reads as
/// `#aabbcc` and `#abcd` as `#aabbccdd`.
pub proof fn law_short_notation_doubles_digits(r: char, g: char, b: char, a: char)
    requires
        is_hex_digit(r),
        is_hex_digit(g),
        is_hex_digit(b),
        is_hex_digit(a),
    ensures
        spec_hex_to_rgb(seq![r, g, b]) == spec_hex_to_rgb(seq![r, r, g, g, b, b]),
        spec_hex_to_rgb(seq![r, g, b, a]) == spec_hex_to_rgb(seq![r, r, g, g, b, b, a, a]),
        spec_hex_to_rgb(seq![r, g, b]) is Some,
        spec_hex_to_rgb(seq![r, g, b, a]) is Some,
{
    lemma_hex_digit_plain(r);
    lemma_digits_read_as_given(seq![r, g, b]);
    lemma_digits_read_as_given(seq![r, r, g, g, b, b]);
    lemma_digits_read_as_given(seq![r, g, b, a]);
    lemma_digits_read_as_given(seq![r, r, g, g, b, b, a, a]);
}

proof fn lemma_trim_end_after(p: char, s: Seq<char>)
    requires
        !is_white_space(p),
    ensures
        trim_end(seq![p] + s) == seq![p] + trim_end(s),
    decreases s.len(),
{
    if s.len() == 0 {
        assert(seq![p] + s =~= seq![p]);
        assert(trim_end(seq![p]) == seq![p]);
    } else {
        assert((seq![p] + s).last() == s.last());
        if is_white_space(s.last()) {
            assert((seq![p] + s).drop_last() =~= seq![p] + s.drop_last());
            lemma_trim_end_after(p, s.drop_last());
        }
    }
}

/// The `#` is optional: an input with one `#` in front reads as the same input
/// without it (when that input does not start with white space, which the
/// `#` would keep from being trimmed).
pub proof fn law_hash_is_optional(s: Seq<char>)
    requires
        s.len() == 0 || !is_white_space(s[0]),
    ensures
        spec_hex_to_rgb(seq!['#'] + s) == spec_hex_to_rgb(s),
{
    let t = seq!['#'] + s;
    assert(t[0] == '#');
    assert(trim_start(t) == t);
    assert(trim_start(s) == s);
    lemma_trim_end_after('#', s);
    let e = trim_end(s);
    assert((seq!['#'] + e).drop_first() =~= e);
    assert(strip_hashes(seq!['#'] + e) == strip_hashes(e));
    assert(hex_digits_of(t) == hex_digits_of(s));
}

} // verus!
