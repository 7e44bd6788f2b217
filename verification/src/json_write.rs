//! Rendering values into JSON text: decimal numerals, fixed-point attribute
//! values in thousandths, and string escaping.
//!
//! The output is compact (no whitespace), object fields appear in
//! declaration order, and an attribute value always carries at least one
//! fractional digit (`1000` thousandths renders as `1.0`), so a body is one
//! exact, predictable byte string.

use vstd::prelude::*;

verus! {

/// The character of a decimal digit.
pub open spec fn dec_digit_char(d: nat) -> char {
    ((48 + d) as u8) as char
}

/// The decimal numeral of `n`, most significant digit first.
pub open spec fn spec_dec(n: nat) -> Seq<char>
    decreases n,
{
    if n < 10 {
        seq![dec_digit_char(n)]
    } else {
        spec_dec(n / 10).push(dec_digit_char(n % 10))
    }
}

/// Relies on `String::push`: it appends exactly the one character.
#[verifier::external_body]
pub(crate) fn push_char(s: &mut String, c: char)
    ensures
        final(s)@ == old(s)@.push(c),
{
    s.push(c);
}

/// Render `n` as a decimal numeral.
pub fn dec_u64(n: u64) -> (r: String)
    ensures
        r@ == spec_dec(n as nat),
    decreases n,
{
    if n < 10 {
        let mut s = String::new();
        push_char(&mut s, (48 + n as u8) as char);
        proof {
            assert(s@ =~= spec_dec(n as nat));
        }
        s
    } else {
        let mut s = dec_u64(n / 10);
        push_char(&mut s, (48 + (n % 10) as u8) as char);
        s
    }
}

/// The lower-case hexadecimal digit character of `d`.
pub open spec fn hex_digit_char(d: nat) -> char {
    if d < 10 {
        dec_digit_char(d)
    } else {
        ((87 + d) as u8) as char
    }
}

fn hex_char(d: u32) -> (r: char)
    requires
        d < 16,
    ensures
        r == hex_digit_char(d as nat),
{
    if d < 10 {
        (48 + d as u8) as char
    } else {
        (87 + d as u8) as char
    }
}

/// A fixed-point value in thousandths, rendered as a decimal fraction with
/// the trailing zeros of the fractional part trimmed, but always at least
/// one fractional digit: `1000` is `1.0`, `200` is `0.2`, `333` is `0.333`.
pub open spec fn frac_digits(fr: nat) -> Seq<char> {
    let d1 = dec_digit_char(fr / 100);
    let d2 = dec_digit_char((fr / 10) % 10);
    let d3 = dec_digit_char(fr % 10);
    if fr % 10 != 0 {
        seq![d1, d2, d3]
    } else if (fr / 10) % 10 != 0 {
        seq![d1, d2]
    } else {
        seq![d1]
    }
}

/// The decimal rendering of `m` thousandths.
pub open spec fn milli_chars(m: int) -> Seq<char> {
    let sign: Seq<char> = if m < 0 {
        seq!['-']
    } else {
        Seq::<char>::empty()
    };
    sign + spec_dec(vstd::math::abs(m) / 1000) + seq!['.'] + frac_digits(vstd::math::abs(m) % 1000)
}

/// Render an attribute value held in thousandths.
pub fn milli_string(m: i64) -> (r: String)
    ensures
        r@ == milli_chars(m as int),
{
    let a: u64 = if m < 0 {
        (-(m as i128)) as u64
    } else {
        m as u64
    };
    let mut s = String::new();
    if m < 0 {
        push_char(&mut s, '-');
    }
    let whole = dec_u64(a / 1000);
    s.append(whole.as_str());
    push_char(&mut s, '.');
    let fr: u64 = a % 1000;
    let d1 = (48 + (fr / 100) as u8) as char;
    let d2 = (48 + ((fr / 10) % 10) as u8) as char;
    let d3 = (48 + (fr % 10) as u8) as char;
    if fr % 10 != 0 {
        push_char(&mut s, d1);
        push_char(&mut s, d2);
        push_char(&mut s, d3);
    } else if (fr / 10) % 10 != 0 {
        push_char(&mut s, d1);
        push_char(&mut s, d2);
    } else {
        push_char(&mut s, d1);
    }
    proof {
        assert(a as int == vstd::math::abs(m as int));
        assert(s@ =~= milli_chars(m as int));
    }
    s
}

/// How one character is written inside a JSON string: the named escapes,
/// `\u00xx` for the other ASCII control characters, and every other
/// character as itself.
pub open spec fn escape_char(c: char) -> Seq<char> {
    if c == '\u{8}' {
        seq!['\\', 'b']
    } else if c == '\u{c}' {
        seq!['\\', 'f']
    } else if c == '\n' {
        seq!['\\', 'n']
    } else if c == '\r' {
        seq!['\\', 'r']
    } else if c == '\t' {
        seq!['\\', 't']
    } else if (c as u32) < 32 || (c as u32) == 127 {
        seq!['\\', 'u', '0', '0', hex_digit_char((c as nat) / 16), hex_digit_char((c as nat) % 16)]
    } else if c == '\\' {
        seq!['\\', '\\']
    } else if c == '"' {
        seq!['\\', '"']
    } else {
        seq![c]
    }
}

/// The escaped body of a JSON string.
pub open spec fn json_escaped(s: Seq<char>) -> Seq<char>
    decreases s.len(),
{
    if s.len() == 0 {
        Seq::<char>::empty()
    } else {
        json_escaped(s.drop_last()) + escape_char(s.last())
    }
}

/// A complete JSON string: quotes around the escaped content.
pub open spec fn json_of_string(s: Seq<char>) -> Seq<char> {
    seq!['"'] + json_escaped(s) + seq!['"']
}

/// Append the escaped form of `c` to `out`.
fn push_escaped(out: &mut String, c: char)
    ensures
        final(out)@ == old(out)@ + escape_char(c),
{
    if c == '\u{8}' {
        push_char(out, '\\');
        push_char(out, 'b');
    } else if c == '\u{c}' {
        push_char(out, '\\');
        push_char(out, 'f');
    } else if c == '\n' {
        push_char(out, '\\');
        push_char(out, 'n');
    } else if c == '\r' {
        push_char(out, '\\');
        push_char(out, 'r');
    } else if c == '\t' {
        push_char(out, '\\');
        push_char(out, 't');
    } else if (c as u32) < 32 || (c as u32) == 127 {
        push_char(out, '\\');
        push_char(out, 'u');
        push_char(out, '0');
        push_char(out, '0');
        push_char(out, hex_char((c as u32) / 16));
        push_char(out, hex_char((c as u32) % 16));
    } else if c == '\\' {
        push_char(out, '\\');
        push_char(out, '\\');
    } else if c == '"' {
        push_char(out, '\\');
        push_char(out, '"');
    } else {
        push_char(out, c);
    }
    proof {
        assert(final(out)@ =~= old(out)@ + escape_char(c));
    }
}

/// Append the separator between two JSON list items to `out`.
pub fn append_comma(out: &mut String)
    ensures
        final(out)@ == old(out)@.push(','),
{
    push_char(out, ',');
}

/// Append a complete JSON string for `s` (quotes and escaping) to `out`.
pub fn append_json_string(out: &mut String, s: &str)
    ensures
        final(out)@ == old(out)@ + json_of_string(s@),
{
    let n = s.unicode_len();
    push_char(out, '"');
    let mut i: usize = 0;
    while i < n
        invariant
            n == s@.len(),
            0 <= i <= n,
            out@ == old(out)@ + seq!['"'] + json_escaped(s@.subrange(0, i as int)),
        decreases n - i,
    {
        let c = s.get_char(i);
        proof {
            let prefix = s@.subrange(0, i as int + 1);
            assert(prefix.drop_last() =~= s@.subrange(0, i as int));
            assert(prefix.last() == c);
        }
        push_escaped(out, c);
        i = i + 1;
    }
    push_char(out, '"');
    proof {
        assert(s@.subrange(0, n as int) =~= s@);
        assert(final(out)@ =~= old(out)@ + json_of_string(s@));
    }
}

} // verus!
