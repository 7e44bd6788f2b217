//! Reading the activity payload: a JSON array of flat objects whose four
//! known fields (`week`, `statuses`, `logins`, `registrations`) carry
//! string values.
//!
//! The reader follows the shape the external source documents. It accepts
//! surrounding whitespace, any field order, duplicate fields (the last one
//! wins) and a trailing comma inside an object or the array; it rejects a
//! record that lacks one of the four fields, a field that is not a string,
//! or a field that is not known. Text after the closing bracket of the
//! array is ignored. String values carry the standard escapes, including
//! surrogate pairs.

use crate::activity::Week;
use crate::errors::RustyMastodonError;
use vstd::prelude::*;

verus! {

/// The four field values of one parsed record.
pub struct WeekFieldsV {
    pub week: Seq<char>,
    pub statuses: Seq<char>,
    pub logins: Seq<char>,
    pub registrations: Seq<char>,
}

/// The fields gathered so far while one record is read.
pub struct WeekAcc {
    pub week: Option<Seq<char>>,
    pub statuses: Option<Seq<char>>,
    pub logins: Option<Seq<char>>,
    pub registrations: Option<Seq<char>>,
}

/// JSON whitespace.
pub open spec fn is_ws_char(c: char) -> bool {
    c == ' ' || c == '\t' || c == '\n' || c == '\r'
}

/// The first position at or after `i` that does not hold whitespace.
pub open spec fn ws_end(s: Seq<char>, i: int) -> int
    decreases s.len() - i,
{
    if 0 <= i < s.len() && is_ws_char(s[i]) {
        ws_end(s, i + 1)
    } else {
        i
    }
}

/// The value of a hexadecimal digit, or 16 for any other character.
pub open spec fn hex_val(c: char) -> nat {
    if '0' <= c && c <= '9' {
        (c as int - '0' as int) as nat
    } else if 'a' <= c && c <= 'f' {
        (c as int - 'a' as int + 10) as nat
    } else if 'A' <= c && c <= 'F' {
        (c as int - 'A' as int + 10) as nat
    } else {
        16
    }
}

/// The value of the four hexadecimal digits at `i`, if they are there.
pub open spec fn hex4_val(s: Seq<char>, i: int) -> Option<nat> {
    if 0 <= i && i + 4 <= s.len() && hex_val(s[i]) < 16 && hex_val(s[i + 1]) < 16 && hex_val(
        s[i + 2],
    ) < 16 && hex_val(s[i + 3]) < 16 {
        Option::Some(4096 * hex_val(s[i]) + 256 * hex_val(s[i + 1]) + 16 * hex_val(s[i + 2])
            + hex_val(s[i + 3]))
    } else {
        Option::None
    }
}

/// The character an escape sequence denotes and the position after it.
/// `i` stands on the character after the backslash.
pub open spec fn parse_escape(s: Seq<char>, i: int) -> Option<(char, int)> {
    if 0 <= i < s.len() {
        let c = s[i];
        if c == '"' {
            Option::Some(('"', i + 1))
        } else if c == '\\' {
            Option::Some(('\\', i + 1))
        } else if c == '/' {
            Option::Some(('/', i + 1))
        } else if c == 'b' {
            Option::Some(('\u{8}', i + 1))
        } else if c == 'f' {
            Option::Some(('\u{c}', i + 1))
        } else if c == 'n' {
            Option::Some(('\n', i + 1))
        } else if c == 'r' {
            Option::Some(('\r', i + 1))
        } else if c == 't' {
            Option::Some(('\t', i + 1))
        } else if c == 'u' {
            match hex4_val(s, i + 1) {
                Option::Some(a) => if a < 0xD800 || 0xE000 <= a {
                    Option::Some(((a as u32) as char, i + 5))
                } else if a < 0xDC00 {
                    // a leading surrogate: a second escape with the trailing
                    // surrogate must follow at once
                    if i + 7 <= s.len() && s[i + 5] == '\\' && s[i + 6] == 'u' {
                        match hex4_val(s, i + 7) {
                            Option::Some(b) => if 0xDC00 <= b < 0xE000 {
                                Option::Some(
                                    (((0x10000 + (a - 0xD800) * 1024 + (b - 0xDC00)) as u32) as char, i + 11),
                                )
                            } else {
                                Option::None
                            },
                            Option::None => Option::None,
                        }
                    } else {
                        Option::None
                    }
                } else {
                    Option::None
                },
                Option::None => Option::None,
            }
        } else {
            Option::None
        }
    } else {
        Option::None
    }
}

/// The content of a JSON string from `i` (just inside the opening quote) to
/// its closing quote, and the position after the closing quote.
pub open spec fn parse_string_body(s: Seq<char>, i: int) -> Option<(Seq<char>, int)>
    decreases s.len() - i,
{
    if 0 <= i < s.len() {
        let c = s[i];
        if c == '"' {
            Option::Some((Seq::<char>::empty(), i + 1))
        } else if c == '\\' {
            match parse_escape(s, i + 1) {
                Option::Some((e, j)) => if i < j && j <= s.len() {
                    match parse_string_body(s, j) {
                        Option::Some((rest, end)) => Option::Some((seq![e] + rest, end)),
                        Option::None => Option::None,
                    }
                } else {
                    Option::None
                },
                Option::None => Option::None,
            }
        } else {
            match parse_string_body(s, i + 1) {
                Option::Some((rest, end)) => Option::Some((seq![c] + rest, end)),
                Option::None => Option::None,
            }
        }
    } else {
        Option::None
    }
}

/// A complete JSON string starting at `i`: its content and the position
/// after its closing quote.
pub open spec fn parse_jstring(s: Seq<char>, i: int) -> Option<(Seq<char>, int)> {
    if 0 <= i < s.len() && s[i] == '"' {
        parse_string_body(s, i + 1)
    } else {
        Option::None
    }
}

/// The first position at or after `i` that does not hold a decimal digit.
pub open spec fn digits_end(s: Seq<char>, i: int) -> int
    decreases s.len() - i,
{
    if 0 <= i < s.len() && '0' <= s[i] && s[i] <= '9' {
        digits_end(s, i + 1)
    } else {
        i
    }
}

/// The characters of `lit` stand at `i`.
pub open spec fn has_lit(s: Seq<char>, i: int, lit: Seq<char>) -> bool {
    0 <= i && i + lit.len() <= s.len() && s.subrange(i, i + lit.len() as int) == lit
}

/// The position after the JSON number at `i`, if one stands there.
pub open spec fn skip_number(s: Seq<char>, i: int) -> Option<int> {
    if 0 <= i {
        let i1 = if i < s.len() && s[i] == '-' {
            i + 1
        } else {
            i
        };
        let i2 = digits_end(s, i1);
        if i2 > i1 {
            let i3 = if i2 < s.len() && s[i2] == '.' {
                let f = digits_end(s, i2 + 1);
                if f > i2 + 1 {
                    f
                } else {
                    -1
                }
            } else {
                i2
            };
            if i3 >= 0 {
                let i4 = if i3 < s.len() && (s[i3] == 'e' || s[i3] == 'E') {
                    let d = if i3 + 1 < s.len() && (s[i3 + 1] == '+' || s[i3 + 1] == '-') {
                        i3 + 2
                    } else {
                        i3 + 1
                    };
                    let e = digits_end(s, d);
                    if e > d {
                        e
                    } else {
                        -1
                    }
                } else {
                    i3
                };
                if i4 >= 0 {
                    Option::Some(i4)
                } else {
                    Option::None
                }
            } else {
                Option::None
            }
        } else {
            Option::None
        }
    } else {
        Option::None
    }
}

/// The position after the JSON value at `i`, whatever its kind; the value
/// itself is not kept. What an unknown field holds is checked for shape and
/// passed over.
pub open spec fn skip_value(s: Seq<char>, i: int) -> Option<int>
    decreases s.len() - i, 0int,
{
    if 0 <= i < s.len() {
        let c = s[i];
        if c == '"' {
            match parse_jstring(s, i) {
                Option::Some((v, j)) => Option::Some(j),
                Option::None => Option::None,
            }
        } else if c == '{' {
            let j = ws_end(s, i + 1);
            if i < j && j <= s.len() {
                skip_members(s, j)
            } else {
                Option::None
            }
        } else if c == '[' {
            let j = ws_end(s, i + 1);
            if i < j && j <= s.len() {
                skip_elements(s, j)
            } else {
                Option::None
            }
        } else if c == 't' {
            if has_lit(s, i, "true"@) {
                Option::Some(i + 4)
            } else {
                Option::None
            }
        } else if c == 'f' {
            if has_lit(s, i, "false"@) {
                Option::Some(i + 5)
            } else {
                Option::None
            }
        } else if c == 'n' {
            if has_lit(s, i, "null"@) {
                Option::Some(i + 4)
            } else {
                Option::None
            }
        } else {
            skip_number(s, i)
        }
    } else {
        Option::None
    }
}

/// Pass over the members of an object from `i` (just inside the opening
/// brace, after whitespace) to its closing brace.
pub open spec fn skip_members(s: Seq<char>, i: int) -> Option<int>
    decreases s.len() - i, 1int,
{
    if 0 <= i < s.len() {
        if s[i] == '}' {
            Option::Some(i + 1)
        } else {
            match parse_jstring(s, i) {
                Option::Some((key, j1)) => {
                    let j2 = ws_end(s, j1);
                    if 0 <= j2 < s.len() && s[j2] == ':' {
                        let j3 = ws_end(s, j2 + 1);
                        if i < j3 && j3 <= s.len() {
                            match skip_value(s, j3) {
                                Option::Some(j4) => {
                                    let j5 = ws_end(s, j4);
                                    if 0 <= j5 < s.len() && s[j5] == ',' {
                                        let j6 = ws_end(s, j5 + 1);
                                        if i < j6 && j6 <= s.len() {
                                            skip_members(s, j6)
                                        } else {
                                            Option::None
                                        }
                                    } else if 0 <= j5 < s.len() && s[j5] == '}' {
                                        Option::Some(j5 + 1)
                                    } else {
                                        Option::None
                                    }
                                },
                                Option::None => Option::None,
                            }
                        } else {
                            Option::None
                        }
                    } else {
                        Option::None
                    }
                },
                Option::None => Option::None,
            }
        }
    } else {
        Option::None
    }
}

/// Pass over the elements of an array from `i` (just inside the opening
/// bracket, after whitespace) to its closing bracket.
pub open spec fn skip_elements(s: Seq<char>, i: int) -> Option<int>
    decreases s.len() - i, 1int,
{
    if 0 <= i < s.len() {
        if s[i] == ']' {
            Option::Some(i + 1)
        } else {
            match skip_value(s, i) {
                Option::Some(j) => {
                    let j1 = ws_end(s, j);
                    if 0 <= j1 < s.len() && s[j1] == ',' {
                        let j2 = ws_end(s, j1 + 1);
                        if i < j2 && j2 <= s.len() {
                            skip_elements(s, j2)
                        } else {
                            Option::None
                        }
                    } else if 0 <= j1 < s.len() && s[j1] == ']' {
                        Option::Some(j1 + 1)
                    } else {
                        Option::None
                    }
                },
                Option::None => Option::None,
            }
        }
    } else {
        Option::None
    }
}

/// A key that names one of the four fields of a record.
pub open spec fn is_known_key(key: Seq<char>) -> bool {
    key == "week"@ || key == "statuses"@ || key == "logins"@ || key == "registrations"@
}

/// Record a field value under a known key. A repeated key overwrites the
/// earlier value.
pub open spec fn set_known(acc: WeekAcc, key: Seq<char>, val: Seq<char>) -> WeekAcc {
    if key == "week"@ {
        WeekAcc { week: Option::Some(val), ..acc }
    } else if key == "statuses"@ {
        WeekAcc { statuses: Option::Some(val), ..acc }
    } else if key == "logins"@ {
        WeekAcc { logins: Option::Some(val), ..acc }
    } else {
        WeekAcc { registrations: Option::Some(val), ..acc }
    }
}

/// The fields of one record from `i` (just inside the opening brace, after
/// whitespace) to its closing brace.
pub open spec fn parse_fields(s: Seq<char>, i: int, acc: WeekAcc) -> Option<(WeekAcc, int)>
    decreases s.len() - i,
{
    if 0 <= i < s.len() {
        if s[i] == '}' {
            Option::Some((acc, i + 1))
        } else {
            match parse_jstring(s, i) {
                Option::Some((key, j1)) => {
                    let j2 = ws_end(s, j1);
                    if 0 <= j2 < s.len() && s[j2] == ':' {
                        let j3 = ws_end(s, j2 + 1);
                        let step: Option<(WeekAcc, int)> = if is_known_key(key) {
                            match parse_jstring(s, j3) {
                                Option::Some((val, j4)) => Option::Some(
                                    (set_known(acc, key, val), j4),
                                ),
                                Option::None => Option::None,
                            }
                        } else {
                            match skip_value(s, j3) {
                                Option::Some(j4) => Option::Some((acc, j4)),
                                Option::None => Option::None,
                            }
                        };
                        match step {
                            Option::Some((acc2, j4)) => {
                                let j5 = ws_end(s, j4);
                                if 0 <= j5 < s.len() && s[j5] == ',' {
                                    let j6 = ws_end(s, j5 + 1);
                                    if i < j6 && j6 <= s.len() {
                                        parse_fields(s, j6, acc2)
                                    } else {
                                        Option::None
                                    }
                                } else if 0 <= j5 < s.len() && s[j5] == '}' {
                                    Option::Some((acc2, j5 + 1))
                                } else {
                                    Option::None
                                }
                            },
                            Option::None => Option::None,
                        }
                    } else {
                        Option::None
                    }
                },
                Option::None => Option::None,
            }
        }
    } else {
        Option::None
    }
}

/// One record from its opening brace at `i`: its four fields, each of which
/// must have been seen, and the position after its closing brace.
pub open spec fn parse_week(s: Seq<char>, i: int) -> Option<(WeekFieldsV, int)> {
    if 0 <= i < s.len() && s[i] == '{' {
        let j = ws_end(s, i + 1);
        if i < j && j <= s.len() {
            let acc0 = WeekAcc {
                week: Option::None,
                statuses: Option::None,
                logins: Option::None,
                registrations: Option::None,
            };
            match parse_fields(s, j, acc0) {
                Option::Some((acc, end)) => match (acc.week, acc.statuses, acc.logins, acc.registrations) {
                    (
                        Option::Some(w),
                        Option::Some(st),
                        Option::Some(lg),
                        Option::Some(rg),
                    ) => Option::Some(
                        (WeekFieldsV { week: w, statuses: st, logins: lg, registrations: rg }, end),
                    ),
                    _ => Option::None,
                },
                Option::None => Option::None,
            }
        } else {
            Option::None
        }
    } else {
        Option::None
    }
}

/// The elements of the array from `i` (just inside the opening bracket,
/// after whitespace) to its closing bracket.
pub open spec fn parse_elems(s: Seq<char>, i: int, acc: Seq<WeekFieldsV>) -> Option<
    (Seq<WeekFieldsV>, int),
>
    decreases s.len() - i,
{
    if 0 <= i < s.len() {
        if s[i] == ']' {
            Option::Some((acc, i + 1))
        } else {
            match parse_week(s, i) {
                Option::Some((w, j)) => {
                    let j1 = ws_end(s, j);
                    if 0 <= j1 < s.len() && s[j1] == ',' {
                        let j2 = ws_end(s, j1 + 1);
                        if i < j2 && j2 <= s.len() {
                            parse_elems(s, j2, acc.push(w))
                        } else {
                            Option::None
                        }
                    } else if 0 <= j1 < s.len() && s[j1] == ']' {
                        Option::Some((acc.push(w), j1 + 1))
                    } else {
                        Option::None
                    }
                },
                Option::None => Option::None,
            }
        }
    } else {
        Option::None
    }
}

/// The whole payload: the array of records, read from the front of the
/// body. Text after the closing bracket is ignored.
pub open spec fn parse_activity(s: Seq<char>) -> Option<Seq<WeekFieldsV>> {
    let i = ws_end(s, 0);
    if 0 <= i < s.len() && s[i] == '[' {
        let j = ws_end(s, i + 1);
        if j <= s.len() {
            match parse_elems(s, j, Seq::<WeekFieldsV>::empty()) {
                Option::Some((weeks, end)) => Option::Some(weeks),
                Option::None => Option::None,
            }
        } else {
            Option::None
        }
    } else {
        Option::None
    }
}

/// The field values of a record.
pub open spec fn week_fields_of(w: Week) -> WeekFieldsV {
    WeekFieldsV {
        week: w.week@,
        statuses: w.statuses@,
        logins: w.logins@,
        registrations: w.registrations@,
    }
}

/// The field values of a sequence of records.
pub open spec fn weeks_v(ws: Seq<Week>) -> Seq<WeekFieldsV> {
    ws.map_values(|w: Week| week_fields_of(w))
}

broadcast use vstd::utf8::char_u32_cast;

/// Relies on `char::from_u32`: a scalar value for every code point below
/// the surrogate range or between it and `0x10FFFF`, and nothing otherwise.
#[verifier::external_body]
fn char_from_u32(v: u32) -> (r: Option<char>)
    ensures
        (r is Some) <==> (v < 0xD800 || (0xE000 <= v && v <= 0x10FFFF)),
        r is Some ==> r->0 as u32 == v,
{
    char::from_u32(v)
}

fn skip_ws(s: &str, i: usize) -> (j: usize)
    requires
        i as int <= s@.len(),
    ensures
        j as int == ws_end(s@, i as int),
        i <= j && j as int <= s@.len(),
    decreases s@.len() - i as int,
{
    let n = s.unicode_len();
    if i < n {
        let c = s.get_char(i);
        if c == ' ' || c == '\t' || c == '\n' || c == '\r' {
            return skip_ws(s, i + 1);
        }
    }
    i
}

fn hex_char_val(c: char) -> (v: u32)
    ensures
        v as nat == hex_val(c),
{
    if c >= '0' && c <= '9' {
        c as u32 - 48
    } else if c >= 'a' && c <= 'f' {
        c as u32 - 97 + 10
    } else if c >= 'A' && c <= 'F' {
        c as u32 - 65 + 10
    } else {
        16
    }
}

fn read_hex4(s: &str, i: usize) -> (r: Option<u32>)
    ensures
        (r is Some) <==> (hex4_val(s@, i as int) is Some),
        r is Some ==> r->0 as nat == hex4_val(s@, i as int)->0,
{
    let n = s.unicode_len();
    if n < 4 || i > n - 4 {
        return Option::None;
    }
    let h0 = hex_char_val(s.get_char(i));
    let h1 = hex_char_val(s.get_char(i + 1));
    let h2 = hex_char_val(s.get_char(i + 2));
    let h3 = hex_char_val(s.get_char(i + 3));
    if h0 < 16 && h1 < 16 && h2 < 16 && h3 < 16 {
        Option::Some(4096 * h0 + 256 * h1 + 16 * h2 + h3)
    } else {
        Option::None
    }
}

fn read_escape(s: &str, i: usize) -> (r: Option<(char, usize)>)
    ensures
        (r is Some) <==> (parse_escape(s@, i as int) is Some),
        r is Some ==> ({
            let (se, sj) = parse_escape(s@, i as int)->0;
            &&& (r->0).0 == se
            &&& (r->0).1 as int == sj
            &&& i < (r->0).1 && (r->0).1 as int <= s@.len()
        }),
{
    let n = s.unicode_len();
    if i >= n {
        return Option::None;
    }
    let c = s.get_char(i);
    if c == '"' {
        Option::Some(('"', i + 1))
    } else if c == '\\' {
        Option::Some(('\\', i + 1))
    } else if c == '/' {
        Option::Some(('/', i + 1))
    } else if c == 'b' {
        Option::Some(('\u{8}', i + 1))
    } else if c == 'f' {
        Option::Some(('\u{c}', i + 1))
    } else if c == 'n' {
        Option::Some(('\n', i + 1))
    } else if c == 'r' {
        Option::Some(('\r', i + 1))
    } else if c == 't' {
        Option::Some(('\t', i + 1))
    } else if c == 'u' {
        match read_hex4(s, i + 1) {
            Option::Some(a) => {
                if a < 0xD800 || 0xE000 <= a {
                    match char_from_u32(a) {
                        Option::Some(ch) => {
                            proof {
                                vstd::utf8::char_u32_cast(ch, a);
                            }
                            Option::Some((ch, i + 5))
                        },
                        Option::None => {
                            proof {
                                assert(false);
                            }
                            Option::None
                        },
                    }
                } else if a < 0xDC00 {
                    if n - i >= 7 && s.get_char(i + 5) == '\\' && s.get_char(i + 6) == 'u' {
                        match read_hex4(s, i + 7) {
                            Option::Some(b) => {
                                if 0xDC00 <= b && b < 0xE000 {
                                    let scalar: u32 = 0x10000 + (a - 0xD800) * 1024 + (b - 0xDC00);
                                    match char_from_u32(scalar) {
                                        Option::Some(ch) => {
                                            proof {
                                                vstd::utf8::char_u32_cast(ch, scalar);
                                            }
                                            Option::Some((ch, i + 11))
                                        },
                                        Option::None => {
                                            proof {
                                                assert(false);
                                            }
                                            Option::None
                                        },
                                    }
                                } else {
                                    Option::None
                                }
                            },
                            Option::None => Option::None,
                        }
                    } else {
                        Option::None
                    }
                } else {
                    Option::None
                }
            },
            Option::None => Option::None,
        }
    } else {
        Option::None
    }
}

fn read_string_body(s: &str, i: usize) -> (r: Option<(String, usize)>)
    ensures
        (r is Some) <==> (parse_string_body(s@, i as int) is Some),
        r is Some ==> ({
            let (sc, sj) = parse_string_body(s@, i as int)->0;
            &&& (r->0).0@ == sc
            &&& (r->0).1 as int == sj
            &&& i < (r->0).1 && (r->0).1 as int <= s@.len()
        }),
    decreases s@.len() - i as int,
{
    let n = s.unicode_len();
    if i >= n {
        return Option::None;
    }
    let c = s.get_char(i);
    if c == '"' {
        Option::Some((String::new(), i + 1))
    } else if c == '\\' {
        match read_escape(s, i + 1) {
            Option::Some((e, j)) => {
                match read_string_body(s, j) {
                    Option::Some((rest, end)) => {
                        let mut out = String::new();
                        crate::json_write::push_char(&mut out, e);
                        out.append(rest.as_str());
                        proof {
                            assert(out@ =~= seq![e] + rest@);
                        }
                        Option::Some((out, end))
                    },
                    Option::None => Option::None,
                }
            },
            Option::None => Option::None,
        }
    } else {
        match read_string_body(s, i + 1) {
            Option::Some((rest, end)) => {
                let mut out = String::new();
                crate::json_write::push_char(&mut out, c);
                out.append(rest.as_str());
                proof {
                    assert(out@ =~= seq![c] + rest@);
                }
                Option::Some((out, end))
            },
            Option::None => Option::None,
        }
    }
}

fn read_jstring(s: &str, i: usize) -> (r: Option<(String, usize)>)
    ensures
        (r is Some) <==> (parse_jstring(s@, i as int) is Some),
        r is Some ==> ({
            let (sc, sj) = parse_jstring(s@, i as int)->0;
            &&& (r->0).0@ == sc
            &&& (r->0).1 as int == sj
            &&& i < (r->0).1 && (r->0).1 as int <= s@.len()
        }),
{
    let n = s.unicode_len();
    if i < n && s.get_char(i) == '"' {
        read_string_body(s, i + 1)
    } else {
        Option::None
    }
}

fn skip_digits(s: &str, i: usize) -> (j: usize)
    requires
        i as int <= s@.len(),
    ensures
        j as int == digits_end(s@, i as int),
        i <= j && j as int <= s@.len(),
    decreases s@.len() - i as int,
{
    let n = s.unicode_len();
    if i < n {
        let c = s.get_char(i);
        if c >= '0' && c <= '9' {
            return skip_digits(s, i + 1);
        }
    }
    i
}

fn exec_skip_number(s: &str, i: usize) -> (r: Option<usize>)
    ensures
        (r is Some) <==> (skip_number(s@, i as int) is Some),
        r is Some ==> r->0 as int == skip_number(s@, i as int)->0,
        r is Some ==> i < r->0 && r->0 as int <= s@.len(),
{
    let n = s.unicode_len();
    if i >= n {
        return Option::None;
    }
    let i1: usize = if s.get_char(i) == '-' {
        i + 1
    } else {
        i
    };
    let i2 = skip_digits(s, i1);
    if i2 == i1 {
        return Option::None;
    }
    let i3: usize = if i2 < n && s.get_char(i2) == '.' {
        let f = skip_digits(s, i2 + 1);
        if f == i2 + 1 {
            return Option::None;
        }
        f
    } else {
        i2
    };
    let i4: usize = if i3 < n && (s.get_char(i3) == 'e' || s.get_char(i3) == 'E') {
        let d: usize = if i3 + 1 < n && (s.get_char(i3 + 1) == '+' || s.get_char(i3 + 1) == '-') {
            i3 + 2
        } else {
            i3 + 1
        };
        let e = skip_digits(s, d);
        if e == d {
            return Option::None;
        }
        e
    } else {
        i3
    };
    Option::Some(i4)
}

/// Check that the characters of `lit` stand at `i`; `lit` must be one of
/// the three value keywords.
fn exec_has_lit(s: &str, i: usize, lit: &str) -> (r: bool)
    requires
        i as int <= s@.len(),
    ensures
        r == has_lit(s@, i as int, lit@),
    decreases s@.len() - i as int, lit@.len(),
{
    let n = s.unicode_len();
    let m = lit.unicode_len();
    if m == 0 {
        proof {
            assert(s@.subrange(i as int, i as int) =~= lit@);
        }
        return true;
    }
    if n - i < m {
        return false;
    }
    if s.get_char(i) != lit.get_char(0) {
        proof {
            if has_lit(s@, i as int, lit@) {
                assert(s@.subrange(i as int, i as int + lit@.len() as int)[0] == s@[i as int]);
            }
        }
        return false;
    }
    let rest = lit.substring_char(1, m);
    let r = exec_has_lit(s, i + 1, rest);
    proof {
        let whole = s@.subrange(i as int, i as int + lit@.len() as int);
        let tail = s@.subrange(i as int + 1, i as int + 1 + rest@.len() as int);
        if r {
            assert(tail == rest@);
            assert forall|k: int| 0 <= k < whole.len() implies whole[k] == lit@[k] by {
                if k == 0 {
                    assert(whole[0] == s@[i as int]);
                } else {
                    assert(whole[k] == s@[i as int + k]);
                    assert(tail[k - 1] == s@[i as int + k]);
                    assert(rest@[k - 1] == lit@.subrange(1, lit@.len() as int)[k - 1]);
                }
            }
            assert(whole =~= lit@);
        } else {
            if has_lit(s@, i as int, lit@) {
                assert(whole == lit@);
                assert(tail =~= whole.subrange(1, whole.len() as int));
                assert(tail =~= rest@);
            }
        }
    }
    r
}

fn exec_skip_value(s: &str, i: usize) -> (r: Option<usize>)
    ensures
        (r is Some) <==> (skip_value(s@, i as int) is Some),
        r is Some ==> r->0 as int == skip_value(s@, i as int)->0,
        r is Some ==> i < r->0 && r->0 as int <= s@.len(),
    decreases s@.len() - i as int, 0int,
{
    let n = s.unicode_len();
    if i >= n {
        return Option::None;
    }
    let c = s.get_char(i);
    if c == '"' {
        match read_jstring(s, i) {
            Option::Some((v, j)) => Option::Some(j),
            Option::None => Option::None,
        }
    } else if c == '{' {
        let j = skip_ws(s, i + 1);
        exec_skip_members(s, j)
    } else if c == '[' {
        let j = skip_ws(s, i + 1);
        exec_skip_elements(s, j)
    } else if c == 't' {
        if exec_has_lit(s, i, "true") {
            proof {
                reveal_strlit("true");
            }
            Option::Some(i + 4)
        } else {
            Option::None
        }
    } else if c == 'f' {
        if exec_has_lit(s, i, "false") {
            proof {
                reveal_strlit("false");
            }
            Option::Some(i + 5)
        } else {
            Option::None
        }
    } else if c == 'n' {
        if exec_has_lit(s, i, "null") {
            proof {
                reveal_strlit("null");
            }
            Option::Some(i + 4)
        } else {
            Option::None
        }
    } else {
        exec_skip_number(s, i)
    }
}

fn exec_skip_members(s: &str, i: usize) -> (r: Option<usize>)
    ensures
        (r is Some) <==> (skip_members(s@, i as int) is Some),
        r is Some ==> r->0 as int == skip_members(s@, i as int)->0,
        r is Some ==> i < r->0 && r->0 as int <= s@.len(),
    decreases s@.len() - i as int, 1int,
{
    let n = s.unicode_len();
    if i >= n {
        return Option::None;
    }
    if s.get_char(i) == '}' {
        return Option::Some(i + 1);
    }
    match read_jstring(s, i) {
        Option::Some((key, j1)) => {
            let j2 = skip_ws(s, j1);
            if j2 < n && s.get_char(j2) == ':' {
                let j3 = skip_ws(s, j2 + 1);
                match exec_skip_value(s, j3) {
                    Option::Some(j4) => {
                        let j5 = skip_ws(s, j4);
                        if j5 < n && s.get_char(j5) == ',' {
                            let j6 = skip_ws(s, j5 + 1);
                            exec_skip_members(s, j6)
                        } else if j5 < n && s.get_char(j5) == '}' {
                            Option::Some(j5 + 1)
                        } else {
                            Option::None
                        }
                    },
                    Option::None => Option::None,
                }
            } else {
                Option::None
            }
        },
        Option::None => Option::None,
    }
}

fn exec_skip_elements(s: &str, i: usize) -> (r: Option<usize>)
    ensures
        (r is Some) <==> (skip_elements(s@, i as int) is Some),
        r is Some ==> r->0 as int == skip_elements(s@, i as int)->0,
        r is Some ==> i < r->0 && r->0 as int <= s@.len(),
    decreases s@.len() - i as int, 1int,
{
    let n = s.unicode_len();
    if i >= n {
        return Option::None;
    }
    if s.get_char(i) == ']' {
        return Option::Some(i + 1);
    }
    match exec_skip_value(s, i) {
        Option::Some(j) => {
            let j1 = skip_ws(s, j);
            if j1 < n && s.get_char(j1) == ',' {
                let j2 = skip_ws(s, j1 + 1);
                exec_skip_elements(s, j2)
            } else if j1 < n && s.get_char(j1) == ']' {
                Option::Some(j1 + 1)
            } else {
                Option::None
            }
        },
        Option::None => Option::None,
    }
}

/// The fields gathered so far, as executable values.
struct WeekAccX {
    week: Option<String>,
    statuses: Option<String>,
    logins: Option<String>,
    registrations: Option<String>,
}

spec fn opt_view(o: Option<String>) -> Option<Seq<char>> {
    match o {
        Option::Some(s) => Option::Some(s@),
        Option::None => Option::None,
    }
}

spec fn accx_v(a: WeekAccX) -> WeekAcc {
    WeekAcc {
        week: opt_view(a.week),
        statuses: opt_view(a.statuses),
        logins: opt_view(a.logins),
        registrations: opt_view(a.registrations),
    }
}

fn read_fields(s: &str, i: usize, acc: WeekAccX) -> (r: Option<(WeekAccX, usize)>)
    ensures
        (r is Some) <==> (parse_fields(s@, i as int, accx_v(acc)) is Some),
        r is Some ==> ({
            let (sa, sj) = parse_fields(s@, i as int, accx_v(acc))->0;
            &&& accx_v((r->0).0) == sa
            &&& (r->0).1 as int == sj
            &&& i < (r->0).1 && (r->0).1 as int <= s@.len()
        }),
    decreases s@.len() - i as int,
{
    let n = s.unicode_len();
    if i >= n {
        return Option::None;
    }
    if s.get_char(i) == '}' {
        return Option::Some((acc, i + 1));
    }
    match read_jstring(s, i) {
        Option::Some((key, j1)) => {
            let j2 = skip_ws(s, j1);
            if j2 < n && s.get_char(j2) == ':' {
                let j3 = skip_ws(s, j2 + 1);
                let kw_week = String::from_str("week");
                let kw_statuses = String::from_str("statuses");
                let kw_logins = String::from_str("logins");
                let kw_registrations = String::from_str("registrations");
                let known = key == kw_week || key == kw_statuses || key == kw_logins || key
                    == kw_registrations;
                let stepx: Option<(WeekAccX, usize)> = if known {
                    match read_jstring(s, j3) {
                        Option::Some((val, j4)) => {
                            let acc2 = if key == kw_week {
                                WeekAccX { week: Option::Some(val), ..acc }
                            } else if key == kw_statuses {
                                WeekAccX { statuses: Option::Some(val), ..acc }
                            } else if key == kw_logins {
                                WeekAccX { logins: Option::Some(val), ..acc }
                            } else {
                                WeekAccX { registrations: Option::Some(val), ..acc }
                            };
                            Option::Some((acc2, j4))
                        },
                        Option::None => Option::None,
                    }
                } else {
                    match exec_skip_value(s, j3) {
                        Option::Some(j4) => Option::Some((acc, j4)),
                        Option::None => Option::None,
                    }
                };
                match stepx {
                    Option::Some((acc2, j4)) => {
                        let j5 = skip_ws(s, j4);
                        if j5 < n && s.get_char(j5) == ',' {
                            let j6 = skip_ws(s, j5 + 1);
                            read_fields(s, j6, acc2)
                        } else if j5 < n && s.get_char(j5) == '}' {
                            Option::Some((acc2, j5 + 1))
                        } else {
                            Option::None
                        }
                    },
                    Option::None => Option::None,
                }
            } else {
                Option::None
            }
        },
        Option::None => Option::None,
    }
}

fn read_week(s: &str, i: usize) -> (r: Option<(Week, usize)>)
    ensures
        (r is Some) <==> (parse_week(s@, i as int) is Some),
        r is Some ==> ({
            let (sw, sj) = parse_week(s@, i as int)->0;
            &&& week_fields_of((r->0).0) == sw
            &&& (r->0).1 as int == sj
            &&& i < (r->0).1 && (r->0).1 as int <= s@.len()
        }),
{
    let n = s.unicode_len();
    if i < n && s.get_char(i) == '{' {
        let j = skip_ws(s, i + 1);
        let acc0 = WeekAccX {
            week: Option::None,
            statuses: Option::None,
            logins: Option::None,
            registrations: Option::None,
        };
        match read_fields(s, j, acc0) {
            Option::Some((acc, end)) => {
                match (acc.week, acc.statuses, acc.logins, acc.registrations) {
                    (Option::Some(w), Option::Some(st), Option::Some(lg), Option::Some(rg)) => {
                        let week = Week { week: w, statuses: st, logins: lg, registrations: rg };
                        Option::Some((week, end))
                    },
                    _ => Option::None,
                }
            },
            Option::None => Option::None,
        }
    } else {
        Option::None
    }
}

fn read_elems(s: &str, i: usize, acc: Vec<Week>) -> (r: Option<(Vec<Week>, usize)>)
    ensures
        (r is Some) <==> (parse_elems(s@, i as int, weeks_v(acc@)) is Some),
        r is Some ==> ({
            let (sws, sj) = parse_elems(s@, i as int, weeks_v(acc@))->0;
            &&& weeks_v((r->0).0@) == sws
            &&& (r->0).1 as int == sj
        }),
    decreases s@.len() - i as int,
{
    let n = s.unicode_len();
    if i >= n {
        return Option::None;
    }
    if s.get_char(i) == ']' {
        return Option::Some((acc, i + 1));
    }
    match read_week(s, i) {
        Option::Some((w, j)) => {
            let j1 = skip_ws(s, j);
            if j1 < n && s.get_char(j1) == ',' {
                let j2 = skip_ws(s, j1 + 1);
                let mut acc2 = acc;
                let ghost old_acc = acc2@;
                acc2.push(w);
                proof {
                    assert(weeks_v(acc2@) =~= weeks_v(old_acc).push(week_fields_of(w)));
                }
                read_elems(s, j2, acc2)
            } else if j1 < n && s.get_char(j1) == ']' {
                let mut acc2 = acc;
                let ghost old_acc = acc2@;
                acc2.push(w);
                proof {
                    assert(weeks_v(acc2@) =~= weeks_v(old_acc).push(week_fields_of(w)));
                }
                Option::Some((acc2, j1 + 1))
            } else {
                Option::None
            }
        },
        Option::None => Option::None,
    }
}

/// Decode the activity payload, or fail as a `Parsing` error.
pub fn decode_activity(body: &str) -> (r: Result<Vec<Week>, RustyMastodonError>)
    ensures
        (r is Ok) <==> (parse_activity(body@) is Some),
        r is Ok ==> weeks_v(r->Ok_0@) == parse_activity(body@)->0,
        r is Err ==> r->Err_0 == RustyMastodonError::Parsing,
{
    let n = body.unicode_len();
    let i = skip_ws(body, 0);
    if i < n && body.get_char(i) == '[' {
        let j = skip_ws(body, i + 1);
        proof {
            assert(weeks_v(Seq::<Week>::empty()) =~= Seq::<WeekFieldsV>::empty());
        }
        match read_elems(body, j, Vec::new()) {
            Option::Some((weeks, end)) => Result::Ok(weeks),
            Option::None => Result::Err(RustyMastodonError::Parsing),
        }
    } else {
        Result::Err(RustyMastodonError::Parsing)
    }
}

} // verus!
