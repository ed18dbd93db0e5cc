//! A small JSON layer of the library's own.
//!
//! The JWT header and claims shapes are ordering- and omission-sensitive,
//! so their JSON text is part of this library's contract.  The spec
//! functions here define that text exactly: how a string is escaped and
//! quoted and how an unsigned integer is written in decimal.  The
//! executable writers are verified to produce exactly the specified text.

use vstd::prelude::*;

verus! {

/// The decimal digit with value `n`.
pub open spec fn digit_char(n: int) -> char
    recommends
        0 <= n < 10,
{
    seq!['0', '1', '2', '3', '4', '5', '6', '7', '8', '9'][n]
}

/// The lower-case hexadecimal digit with value `n`.
pub open spec fn hex_char(n: int) -> char
    recommends
        0 <= n < 16,
{
    seq!['0', '1', '2', '3', '4', '5', '6', '7', '8', '9', 'a', 'b', 'c', 'd', 'e', 'f'][n]
}

/// How one character appears inside a JSON string literal: the quote and
/// the backslash are escaped, control characters use the conventional
/// short escapes where one exists and a `\u00XX` escape otherwise, and
/// every other character stands for itself.
pub open spec fn json_escape_char(c: char) -> Seq<char> {
    if c == '"' {
        seq!['\\', '"']
    } else if c == '\\' {
        seq!['\\', '\\']
    } else if c == '\u{8}' {
        seq!['\\', 'b']
    } else if c == '\t' {
        seq!['\\', 't']
    } else if c == '\n' {
        seq!['\\', 'n']
    } else if c == '\u{c}' {
        seq!['\\', 'f']
    } else if c == '\r' {
        seq!['\\', 'r']
    } else if (c as u32) < 0x20 {
        seq!['\\', 'u', '0', '0', hex_char(c as u32 as int / 16), hex_char(c as u32 as int % 16)]
    } else {
        seq![c]
    }
}

/// The escaped form of a whole string, character by character.
pub open spec fn json_escape(s: Seq<char>) -> Seq<char>
    decreases s.len(),
{
    if s.len() == 0 {
        Seq::empty()
    } else {
        json_escape_char(s[0]) + json_escape(s.skip(1))
    }
}

/// A JSON string literal: the escaped contents between double quotes.
pub open spec fn json_string(s: Seq<char>) -> Seq<char> {
    seq!['"'] + json_escape(s) + seq!['"']
}

/// The decimal digits of `n`, most significant first, with no sign and no
/// leading zeros (a lone zero for `n == 0`).
pub open spec fn decimal_digits(n: int) -> Seq<char>
    recommends
        n >= 0,
    decreases n,
{
    if n < 10 {
        seq![digit_char(n)]
    } else {
        decimal_digits(n / 10).push(digit_char(n % 10))
    }
}

/// Escaping distributes over concatenation.
pub proof fn lemma_json_escape_concat(a: Seq<char>, b: Seq<char>)
    ensures
        json_escape(a + b) == json_escape(a) + json_escape(b),
    decreases a.len(),
{
    if a.len() == 0 {
        assert(a + b =~= b);
        assert(json_escape(a) + json_escape(b) =~= json_escape(b));
    } else {
        lemma_json_escape_concat(a.skip(1), b);
        assert((a + b).skip(1) =~= a.skip(1) + b);
        assert(json_escape_char((a + b)[0]) + (json_escape(a.skip(1)) + json_escape(b))
            =~= (json_escape_char(a[0]) + json_escape(a.skip(1))) + json_escape(b));
    }
}

/// Escaping a string extended by one character appends that character's
/// escaped form.
pub proof fn lemma_json_escape_push(a: Seq<char>, c: char)
    ensures
        json_escape(a.push(c)) == json_escape(a) + json_escape_char(c),
{
    lemma_json_escape_concat(a, seq![c]);
    assert(a.push(c) =~= a + seq![c]);
    assert(json_escape(seq![c]) =~= json_escape_char(c) + json_escape(seq![c].skip(1)));
    assert(seq![c].skip(1) =~= Seq::<char>::empty());
    assert(json_escape(seq![c]) =~= json_escape_char(c));
}

/// Relies on `String::push`: appends the given character to the string.
#[verifier::external_body]
pub(crate) fn push_char(out: &mut String, c: char)
    ensures
        final(out)@ == old(out)@.push(c),
{
    out.push(c);
}

/// The decimal digit with value `d`, executably.
pub(crate) fn digit_char_exec(d: u8) -> (r: char)
    requires
        d < 10,
    ensures
        r == digit_char(d as int),
{
    match d {
        0 => '0',
        1 => '1',
        2 => '2',
        3 => '3',
        4 => '4',
        5 => '5',
        6 => '6',
        7 => '7',
        8 => '8',
        _ => '9',
    }
}

/// The lower-case hexadecimal digit with value `d`, executably.
pub(crate) fn hex_char_exec(d: u8) -> (r: char)
    requires
        d < 16,
    ensures
        r == hex_char(d as int),
{
    match d {
        0 => '0',
        1 => '1',
        2 => '2',
        3 => '3',
        4 => '4',
        5 => '5',
        6 => '6',
        7 => '7',
        8 => '8',
        9 => '9',
        10 => 'a',
        11 => 'b',
        12 => 'c',
        13 => 'd',
        14 => 'e',
        _ => 'f',
    }
}

/// Appends the escaped form of `s` to `out`.
pub(crate) fn write_json_escaped(out: &mut String, s: &str)
    ensures
        final(out)@ == old(out)@ + json_escape(s@),
{
    let n = s.unicode_len();
    let mut i: usize = 0;
    while i < n
        invariant
            i <= n,
            n == s@.len(),
            out@ == old(out)@ + json_escape(s@.take(i as int)),
        decreases n - i,
    {
        let c = s.get_char(i);
        let ghost prev = out@;
        if c == '"' {
            push_char(out, '\\');
            push_char(out, '"');
        } else if c == '\\' {
            push_char(out, '\\');
            push_char(out, '\\');
        } else if c == '\u{8}' {
            push_char(out, '\\');
            push_char(out, 'b');
        } else if c == '\t' {
            push_char(out, '\\');
            push_char(out, 't');
        } else if c == '\n' {
            push_char(out, '\\');
            push_char(out, 'n');
        } else if c == '\u{c}' {
            push_char(out, '\\');
            push_char(out, 'f');
        } else if c == '\r' {
            push_char(out, '\\');
            push_char(out, 'r');
        } else if (c as u32) < 0x20 {
            push_char(out, '\\');
            push_char(out, 'u');
            push_char(out, '0');
            push_char(out, '0');
            push_char(out, hex_char_exec(((c as u32) / 16) as u8));
            push_char(out, hex_char_exec(((c as u32) % 16) as u8));
        } else {
            push_char(out, c);
        }
        assert(out@ =~= prev + json_escape_char(c));
        proof {
            lemma_json_escape_push(s@.take(i as int), c);
            assert(s@.take(i as int + 1) =~= s@.take(i as int).push(c));
            assert(out@ =~= old(out)@ + json_escape(s@.take(i as int + 1)));
        }
        i = i + 1;
    }
    assert(s@.take(n as int) =~= s@);
}

/// Appends the JSON string literal for `s` to `out`.
pub(crate) fn write_json_string(out: &mut String, s: &str)
    ensures
        final(out)@ == old(out)@ + json_string(s@),
{
    push_char(out, '"');
    write_json_escaped(out, s);
    push_char(out, '"');
    assert(out@ =~= old(out)@ + json_string(s@));
}

/// Appends the decimal digits of `n` to `out`.
pub(crate) fn write_u64_decimal(out: &mut String, n: u64)
    ensures
        final(out)@ == old(out)@ + decimal_digits(n as int),
    decreases n,
{
    if n < 10 {
        push_char(out, digit_char_exec(n as u8));
        assert(out@ =~= old(out)@ + decimal_digits(n as int));
    } else {
        write_u64_decimal(out, n / 10);
        push_char(out, digit_char_exec((n % 10) as u8));
        assert(out@ =~= old(out)@ + decimal_digits(n as int));
    }
}

/// The view of an optional owned string.
pub open spec fn opt_str_view(o: Option<String>) -> Option<Seq<char>> {
    match o {
        Some(s) => Some(s@),
        None => None,
    }
}

/// A further object member holding a string value, preceded by a comma, or
/// nothing when the value is absent.  Absent optional members are omitted
/// entirely, never written as `null`.
pub open spec fn opt_str_member(key: Seq<char>, v: Option<Seq<char>>) -> Seq<char> {
    match v {
        Some(s) => seq![','] + json_string(key) + seq![':'] + json_string(s),
        None => Seq::empty(),
    }
}

/// A further object member holding an unsigned number, preceded by a
/// comma, or nothing when the value is absent.
pub open spec fn opt_u64_member(key: Seq<char>, v: Option<u64>) -> Seq<char> {
    match v {
        Some(n) => seq![','] + json_string(key) + seq![':'] + decimal_digits(n as int),
        None => Seq::empty(),
    }
}

/// Appends `,"key":"value"` to `out`, or nothing when the value is absent.
pub(crate) fn write_opt_str_member(out: &mut String, key: &str, v: &Option<String>)
    ensures
        final(out)@ == old(out)@ + opt_str_member(key@, opt_str_view(*v)),
{
    match v {
        Some(s) => {
            push_char(out, ',');
            write_json_string(out, key);
            push_char(out, ':');
            write_json_string(out, s.as_str());
            assert(out@ =~= old(out)@ + opt_str_member(key@, opt_str_view(*v)));
        },
        None => {
            assert(out@ =~= old(out)@ + opt_str_member(key@, opt_str_view(*v)));
        },
    }
}

/// Appends `,"key":value` for a number to `out`, or nothing when the value
/// is absent.
pub(crate) fn write_opt_u64_member(out: &mut String, key: &str, v: &Option<u64>)
    ensures
        final(out)@ == old(out)@ + opt_u64_member(key@, *v),
{
    match v {
        Some(n) => {
            push_char(out, ',');
            write_json_string(out, key);
            push_char(out, ':');
            write_u64_decimal(out, *n);
            assert(out@ =~= old(out)@ + opt_u64_member(key@, *v));
        },
        None => {
            assert(out@ =~= old(out)@ + opt_u64_member(key@, *v));
        },
    }
}

/// Clones an optional owned string, keeping its view.
pub(crate) fn clone_opt_string(o: &Option<String>) -> (r: Option<String>)
    ensures
        opt_str_view(r) == opt_str_view(*o),
{
    match o {
        Some(s) => Some(s.clone()),
        None => None,
    }
}

/// JSON whitespace.
pub open spec fn is_ws(c: char) -> bool {
    c == ' ' || c == '\t' || c == '\n' || c == '\r'
}

/// The first index at or after `i` holding a character that is not JSON
/// whitespace, or the length of the text.
pub open spec fn skip_ws(s: Seq<char>, i: int) -> int
    decreases s.len() - i,
{
    if 0 <= i < s.len() && is_ws(s[i]) {
        skip_ws(s, i + 1)
    } else {
        i
    }
}

/// The value of a hexadecimal digit, upper or lower case.
pub open spec fn hex_val(c: char) -> Option<int> {
    let u = c as u32;
    if 48 <= u <= 57 {
        Some(u - 48)
    } else if 97 <= u <= 102 {
        Some(u - 87)
    } else if 65 <= u <= 70 {
        Some(u - 55)
    } else {
        None
    }
}

/// The decoded contents of a JSON string, read from just after the
/// opening quote at `i - 1` up to the closing quote, together with the
/// index just past the closing quote.
///
/// The short escapes and `\uXXXX` escapes for characters of the basic
/// plane are decoded; surrogate escape pairs for characters outside that
/// plane are not accepted.  An unescaped control character ends the parse
/// with nothing.
pub open spec fn parse_string_body(s: Seq<char>, i: int) -> Option<(Seq<char>, int)>
    decreases s.len() - i,
{
    if i < 0 || i >= s.len() {
        None
    } else {
        let c = s[i];
        if c == '"' {
            Some((Seq::empty(), i + 1))
        } else if c == '\\' {
            if i + 1 >= s.len() {
                None
            } else {
                let e = s[i + 1];
                if e == 'u' {
                    if i + 6 > s.len() {
                        None
                    } else {
                        match (hex_val(s[i + 2]), hex_val(s[i + 3]), hex_val(s[i + 4]), hex_val(
                            s[i + 5],
                        )) {
                            (Some(h0), Some(h1), Some(h2), Some(h3)) => {
                                let code = h0 * 4096 + h1 * 256 + h2 * 16 + h3;
                                if 0xD800 <= code < 0xE000 {
                                    None
                                } else {
                                    match parse_string_body(s, i + 6) {
                                        Some(p) => Some((seq![(code as u32) as char] + p.0, p.1)),
                                        None => None,
                                    }
                                }
                            },
                            _ => None,
                        }
                    }
                } else {
                    let d: Option<char> = if e == '"' {
                        Some('"')
                    } else if e == '\\' {
                        Some('\\')
                    } else if e == '/' {
                        Some('/')
                    } else if e == 'b' {
                        Some('\u{8}')
                    } else if e == 'f' {
                        Some('\u{c}')
                    } else if e == 'n' {
                        Some('\n')
                    } else if e == 'r' {
                        Some('\r')
                    } else if e == 't' {
                        Some('\t')
                    } else {
                        None
                    };
                    match d {
                        Some(dc) => match parse_string_body(s, i + 2) {
                            Some(p) => Some((seq![dc] + p.0, p.1)),
                            None => None,
                        },
                        None => None,
                    }
                }
            }
        } else if (c as u32) < 0x20 {
            None
        } else {
            match parse_string_body(s, i + 1) {
                Some(p) => Some((seq![c] + p.0, p.1)),
                None => None,
            }
        }
    }
}

/// A character that may occur in a JSON number.
pub open spec fn is_num_char(c: char) -> bool {
    (48 <= c as u32 <= 57) || c == '+' || c == '-' || c == '.' || c == 'e' || c == 'E'
}

/// The first index at or after `i` holding a character that may not occur
/// in a number, or the length of the text.
pub open spec fn skip_num(s: Seq<char>, i: int) -> int
    decreases s.len() - i,
{
    if 0 <= i < s.len() && is_num_char(s[i]) {
        skip_num(s, i + 1)
    } else {
        i
    }
}

/// The index just past one JSON value starting exactly at `i`, or nothing
/// when no value starts there.  Strings are checked for well-formedness;
/// a number is scanned as a run of number characters without checking its
/// shape further; arrays and objects are descended into.  The fuel bounds
/// the descent and is in surplus whenever it is at least twice the
/// remaining text plus two.
pub open spec fn skip_value(s: Seq<char>, i: int, fuel: nat) -> Option<int>
    decreases fuel,
{
    if fuel == 0 || i < 0 || i >= s.len() {
        None
    } else {
        let c = s[i];
        if c == '"' {
            match parse_string_body(s, i + 1) {
                Some(p) => Some(p.1),
                None => None,
            }
        } else if c == 't' {
            if i + 4 <= s.len() && s[i + 1] == 'r' && s[i + 2] == 'u' && s[i + 3] == 'e' {
                Some(i + 4)
            } else {
                None
            }
        } else if c == 'f' {
            if i + 5 <= s.len() && s[i + 1] == 'a' && s[i + 2] == 'l' && s[i + 3] == 's' && s[i + 4]
                == 'e' {
                Some(i + 5)
            } else {
                None
            }
        } else if c == 'n' {
            if i + 4 <= s.len() && s[i + 1] == 'u' && s[i + 2] == 'l' && s[i + 3] == 'l' {
                Some(i + 4)
            } else {
                None
            }
        } else if is_num_char(c) {
            Some(skip_num(s, i + 1))
        } else if c == '[' {
            skip_array_rest(s, i + 1, true, (fuel - 1) as nat)
        } else if c == '{' {
            skip_object_rest(s, i + 1, true, (fuel - 1) as nat)
        } else {
            None
        }
    }
}

/// The index just past the remainder of an array whose opening bracket
/// and earlier elements stand before `i`: further elements separated by
/// commas, then the closing bracket.
pub open spec fn skip_array_rest(s: Seq<char>, i: int, first: bool, fuel: nat) -> Option<int>
    decreases fuel,
{
    if fuel == 0 {
        None
    } else {
        let j = skip_ws(s, i);
        if j >= s.len() {
            None
        } else if s[j] == ']' {
            Some(j + 1)
        } else {
            let v = if first {
                j
            } else if s[j] == ',' {
                skip_ws(s, j + 1)
            } else {
                -1
            };
            if v < 0 {
                None
            } else {
                match skip_value(s, v, (fuel - 1) as nat) {
                    Some(k) => skip_array_rest(s, k, false, (fuel - 1) as nat),
                    None => None,
                }
            }
        }
    }
}

/// The index just past the remainder of an object whose opening brace and
/// earlier members stand before `i`: further members separated by commas,
/// then the closing brace.
pub open spec fn skip_object_rest(s: Seq<char>, i: int, first: bool, fuel: nat) -> Option<int>
    decreases fuel,
{
    if fuel == 0 {
        None
    } else {
        let j = skip_ws(s, i);
        if j >= s.len() {
            None
        } else if s[j] == '}' {
            Some(j + 1)
        } else {
            let k = if first {
                j
            } else if s[j] == ',' {
                skip_ws(s, j + 1)
            } else {
                -1
            };
            if k < 0 || k >= s.len() || s[k] != '"' {
                None
            } else {
                match parse_string_body(s, k + 1) {
                    Some(p) => {
                        let c = skip_ws(s, p.1);
                        if c >= s.len() || s[c] != ':' {
                            None
                        } else {
                            match skip_value(s, skip_ws(s, c + 1), (fuel - 1) as nat) {
                                Some(k2) => skip_object_rest(s, k2, false, (fuel - 1) as nat),
                                None => None,
                            }
                        }
                    },
                    None => None,
                }
            }
        }
    }
}

/// The value under the first occurrence of `key` in an association list,
/// if any.
pub open spec fn assoc_get(a: Seq<(Seq<char>, Seq<char>)>, key: Seq<char>) -> Option<Seq<char>>
    decreases a.len(),
{
    if a.len() == 0 {
        None
    } else if a[0].0 == key {
        Some(a[0].1)
    } else {
        assoc_get(a.skip(1), key)
    }
}

/// The views of a list of owned string pairs.
pub open spec fn pairs_view(v: Seq<(String, String)>) -> Seq<(Seq<char>, Seq<char>)> {
    v.map_values(|p: (String, String)| (p.0@, p.1@))
}

/// Relies on `char::from_u32`: it returns `Some` exactly for values that
/// are not surrogates and not above `char::MAX`, carrying the character
/// with that scalar value.
#[verifier::external_body]
fn char_from_u32(u: u32) -> (r: Option<char>)
    ensures
        (r matches Some(c) ==> c as u32 == u),
        r is Some <==> (u < 0xD800 || (0xE000 <= u && u <= 0x10FFFF)),
{
    char::from_u32(u)
}

/// Advances past JSON whitespace.
pub(crate) fn skip_ws_exec(s: &str, i: usize) -> (r: usize)
    requires
        i <= s@.len(),
    ensures
        r == skip_ws(s@, i as int),
        i <= r <= s@.len(),
    decreases s@.len() - i,
{
    if i < s.unicode_len() {
        let c = s.get_char(i);
        if c == ' ' || c == '\t' || c == '\n' || c == '\r' {
            return skip_ws_exec(s, i + 1);
        }
    }
    i
}

/// The value of a hexadecimal digit, executably.
fn hex_val_exec(c: char) -> (r: Option<u32>)
    ensures
        match r {
            Some(v) => hex_val(c) == Some(v as int) && v < 16,
            None => hex_val(c) is None,
        },
{
    let u = c as u32;
    if 48 <= u && u <= 57 {
        Some(u - 48)
    } else if 97 <= u && u <= 102 {
        Some(u - 87)
    } else if 65 <= u && u <= 70 {
        Some(u - 55)
    } else {
        None
    }
}

/// Decodes the contents of a JSON string, appending the characters to
/// `out`, and returns the index just past the closing quote.
pub(crate) fn parse_string_body_exec(s: &str, i: usize, out: &mut String) -> (r: Option<usize>)
    requires
        i <= s@.len(),
    ensures
        match r {
            Some(j) => parse_string_body(s@, i as int) matches Some(p) && final(out)@ == old(out)@
                + p.0 && j == p.1 && i < j <= s@.len(),
            None => parse_string_body(s@, i as int) is None,
        },
    decreases s@.len() - i,
{
    let n = s.unicode_len();
    if i >= n {
        return None;
    }
    let c = s.get_char(i);
    if c == '"' {
        assert(old(out)@ + Seq::<char>::empty() =~= old(out)@);
        Some(i + 1)
    } else if c == '\\' {
        if n - i < 2 {
            return None;
        }
        let e = s.get_char(i + 1);
        if e == 'u' {
            if n - i < 6 {
                return None;
            }
            let h0 = hex_val_exec(s.get_char(i + 2));
            let h1 = hex_val_exec(s.get_char(i + 3));
            let h2 = hex_val_exec(s.get_char(i + 4));
            let h3 = hex_val_exec(s.get_char(i + 5));
            match (h0, h1, h2, h3) {
                (Some(v0), Some(v1), Some(v2), Some(v3)) => {
                    let code: u32 = v0 * 4096 + v1 * 256 + v2 * 16 + v3;
                    if 0xD800 <= code && code < 0xE000 {
                        return None;
                    }
                    match char_from_u32(code) {
                        Some(dc) => {
                            proof {
                                vstd::utf8::char_u32_cast(dc, code);
                            }
                            let ghost mid = out@;
                            push_char(out, dc);
                            let rec = parse_string_body_exec(s, i + 6, out);
                            match rec {
                                Some(j) => {
                                    proof {
                                        let p = parse_string_body(s@, i as int + 6).unwrap();
                                        assert(out@ =~= old(out)@ + (seq![dc] + p.0));
                                    }
                                    Some(j)
                                },
                                None => None,
                            }
                        },
                        None => {
                            proof {
                                assert(false);
                            }
                            None
                        },
                    }
                },
                _ => None,
            }
        } else {
            let d: Option<char> = if e == '"' {
                Some('"')
            } else if e == '\\' {
                Some('\\')
            } else if e == '/' {
                Some('/')
            } else if e == 'b' {
                Some('\u{8}')
            } else if e == 'f' {
                Some('\u{c}')
            } else if e == 'n' {
                Some('\n')
            } else if e == 'r' {
                Some('\r')
            } else if e == 't' {
                Some('\t')
            } else {
                None
            };
            match d {
                Some(dc) => {
                    push_char(out, dc);
                    let rec = parse_string_body_exec(s, i + 2, out);
                    match rec {
                        Some(j) => {
                            proof {
                                let p = parse_string_body(s@, i as int + 2).unwrap();
                                assert(out@ =~= old(out)@ + (seq![dc] + p.0));
                            }
                            Some(j)
                        },
                        None => None,
                    }
                },
                None => None,
            }
        }
    } else if (c as u32) < 0x20 {
        None
    } else {
        push_char(out, c);
        let rec = parse_string_body_exec(s, i + 1, out);
        match rec {
            Some(j) => {
                proof {
                    let p = parse_string_body(s@, i as int + 1).unwrap();
                    assert(out@ =~= old(out)@ + (seq![c] + p.0));
                }
                Some(j)
            },
            None => None,
        }
    }
}

/// Advances past number characters.
fn skip_num_exec(s: &str, i: usize) -> (r: usize)
    requires
        i <= s@.len(),
    ensures
        r == skip_num(s@, i as int),
        i <= r <= s@.len(),
    decreases s@.len() - i,
{
    if i < s.unicode_len() {
        let c = s.get_char(i);
        let u = c as u32;
        if (48 <= u && u <= 57) || c == '+' || c == '-' || c == '.' || c == 'e' || c == 'E' {
            return skip_num_exec(s, i + 1);
        }
    }
    i
}

/// Advances past one JSON value starting exactly at `i`.
pub(crate) fn skip_value_exec(s: &str, i: usize, Ghost(fuel): Ghost<nat>) -> (r: Option<usize>)
    requires
        i <= s@.len(),
        fuel >= 2 * (s@.len() - i) + 2,
    ensures
        match r {
            Some(j) => skip_value(s@, i as int, fuel) == Some(j as int) && i < j <= s@.len(),
            None => skip_value(s@, i as int, fuel) is None,
        },
    decreases fuel,
{
    let n = s.unicode_len();
    if i >= n {
        return None;
    }
    let c = s.get_char(i);
    if c == '"' {
        let mut scratch = String::new();
        match parse_string_body_exec(s, i + 1, &mut scratch) {
            Some(j) => Some(j),
            None => None,
        }
    } else if c == 't' {
        if n - i >= 4 && s.get_char(i + 1) == 'r' && s.get_char(i + 2) == 'u' && s.get_char(i + 3)
            == 'e' {
            Some(i + 4)
        } else {
            None
        }
    } else if c == 'f' {
        if n - i >= 5 && s.get_char(i + 1) == 'a' && s.get_char(i + 2) == 'l' && s.get_char(i + 3)
            == 's' && s.get_char(i + 4) == 'e' {
            Some(i + 5)
        } else {
            None
        }
    } else if c == 'n' {
        if n - i >= 4 && s.get_char(i + 1) == 'u' && s.get_char(i + 2) == 'l' && s.get_char(i + 3)
            == 'l' {
            Some(i + 4)
        } else {
            None
        }
    } else {
        let u = c as u32;
        if (48 <= u && u <= 57) || c == '+' || c == '-' || c == '.' || c == 'e' || c == 'E' {
            Some(skip_num_exec(s, i + 1))
        } else if c == '[' {
            skip_array_rest_exec(s, i + 1, true, Ghost((fuel - 1) as nat))
        } else if c == '{' {
            skip_object_rest_exec(s, i + 1, true, Ghost((fuel - 1) as nat))
        } else {
            None
        }
    }
}

/// Advances past the remainder of an array.
pub(crate) fn skip_array_rest_exec(s: &str, i: usize, first: bool, Ghost(fuel): Ghost<nat>) -> (r:
    Option<usize>)
    requires
        i <= s@.len(),
        fuel >= 2 * (s@.len() - i) + 3,
    ensures
        match r {
            Some(j) => skip_array_rest(s@, i as int, first, fuel) == Some(j as int) && i < j
                <= s@.len(),
            None => skip_array_rest(s@, i as int, first, fuel) is None,
        },
    decreases fuel,
{
    let n = s.unicode_len();
    let j = skip_ws_exec(s, i);
    if j >= n {
        return None;
    }
    if s.get_char(j) == ']' {
        return Some(j + 1);
    }
    let v = if first {
        j
    } else if s.get_char(j) == ',' {
        skip_ws_exec(s, j + 1)
    } else {
        return None;
    };
    match skip_value_exec(s, v, Ghost((fuel - 1) as nat)) {
        Some(k) => skip_array_rest_exec(s, k, false, Ghost((fuel - 1) as nat)),
        None => None,
    }
}

/// Advances past the remainder of an object.
pub(crate) fn skip_object_rest_exec(s: &str, i: usize, first: bool, Ghost(fuel): Ghost<nat>) -> (r:
    Option<usize>)
    requires
        i <= s@.len(),
        fuel >= 2 * (s@.len() - i) + 3,
    ensures
        match r {
            Some(j) => skip_object_rest(s@, i as int, first, fuel) == Some(j as int) && i < j
                <= s@.len(),
            None => skip_object_rest(s@, i as int, first, fuel) is None,
        },
    decreases fuel,
{
    let n = s.unicode_len();
    let j = skip_ws_exec(s, i);
    if j >= n {
        return None;
    }
    if s.get_char(j) == '}' {
        return Some(j + 1);
    }
    let k = if first {
        j
    } else if s.get_char(j) == ',' {
        skip_ws_exec(s, j + 1)
    } else {
        return None;
    };
    if k >= n || s.get_char(k) != '"' {
        return None;
    }
    let mut scratch = String::new();
    match parse_string_body_exec(s, k + 1, &mut scratch) {
        Some(e1) => {
            let c = skip_ws_exec(s, e1);
            if c >= n || s.get_char(c) != ':' {
                return None;
            }
            let v = skip_ws_exec(s, c + 1);
            match skip_value_exec(s, v, Ghost((fuel - 1) as nat)) {
                Some(k2) => skip_object_rest_exec(s, k2, false, Ghost((fuel - 1) as nat)),
                None => None,
            }
        },
        None => None,
    }
}

/// Looks up the value under the first occurrence of `key`.
pub(crate) fn assoc_find(v: &Vec<(String, String)>, key: &str) -> (r: Option<String>)
    ensures
        opt_str_view(r) == assoc_get(pairs_view(v@), key@),
{
    let mut i: usize = 0;
    assert(pairs_view(v@).skip(0) =~= pairs_view(v@));
    while i < v.len()
        invariant
            i <= v@.len(),
            assoc_get(pairs_view(v@), key@) == assoc_get(pairs_view(v@).skip(i as int), key@),
        decreases v@.len() - i,
    {
        let ghost rest = pairs_view(v@).skip(i as int);
        assert(rest[0] == (v@[i as int].0@, v@[i as int].1@));
        if str_eq(v[i].0.as_str(), key) {
            return Some(v[i].1.clone());
        }
        assert(rest.skip(1) =~= pairs_view(v@).skip(i as int + 1));
        i = i + 1;
    }
    assert(pairs_view(v@).skip(i as int) =~= Seq::<(Seq<char>, Seq<char>)>::empty());
    None
}

/// Compares two string slices character by character.
pub(crate) fn str_eq(a: &str, b: &str) -> (r: bool)
    ensures
        r == (a@ == b@),
{
    let na = a.unicode_len();
    let nb = b.unicode_len();
    if na != nb {
        return false;
    }
    let mut i: usize = 0;
    while i < na
        invariant
            i <= na,
            na == a@.len(),
            na == b@.len(),
            forall|j: int| 0 <= j < i ==> a@[j] == b@[j],
        decreases na - i,
    {
        if a.get_char(i) != b.get_char(i) {
            return false;
        }
        i = i + 1;
    }
    proof {
        assert(a@ =~= b@);
    }
    true
}

} // verus!
