//! Parsing of request messages.
//!
//! A request arrives as one JSON object, for example
//! `{"id":"a","prompt":"cat","fast_mode":false,"small_image":true}`.
//! `prompt` is required; the other three fields may be absent. Unknown
//! members are tolerated and skipped whatever their value; a duplicate of a
//! known member, a known member of the wrong type, or any syntax error makes
//! the whole message malformed.
//!
//! The grammar and its meaning are stated by the `spec_*` functions below;
//! each executable function returns exactly what its spec function denotes.

use vstd::prelude::*;
use vstd::utf8::is_scalar;

use crate::msg::{RequestFields, SpecRequestFields};

verus! {

/// Relies on `char::from_u32`: `Some` exactly on Unicode scalar values, and
/// the returned character carries the given code.
#[verifier::external_body]
fn char_from_u32(u: u32) -> (r: Option<char>)
    ensures
        r is Some <==> is_scalar(u),
        r is Some ==> r.unwrap() as u32 == u,
{
    char::from_u32(u)
}

/// JSON insignificant whitespace.
pub open spec fn is_json_ws(c: char) -> bool {
    c == ' ' || c == '\t' || c == '\n' || c == '\r'
}

fn is_ws_char(c: char) -> (r: bool)
    ensures
        r == is_json_ws(c),
{
    c == ' ' || c == '\t' || c == '\n' || c == '\r'
}

/// The first index at or after `i` that holds no whitespace.
pub open spec fn spec_ws(s: Seq<char>, i: int) -> int
    decreases s.len() - i
        when 0 <= i <= s.len()
{
    if i < s.len() && is_json_ws(s[i]) {
        spec_ws(s, i + 1)
    } else {
        i
    }
}

fn skip_ws(s: &Vec<char>, i: usize) -> (r: usize)
    requires
        i <= s@.len(),
    ensures
        i <= r <= s@.len(),
        r as int == spec_ws(s@, i as int),
{
    let mut j: usize = i;
    while j < s.len() && is_ws_char(s[j])
        invariant
            i <= j <= s@.len(),
            spec_ws(s@, i as int) == spec_ws(s@, j as int),
        decreases s@.len() - j,
    {
        j = j + 1;
    }
    j
}

/// A decimal digit.
pub open spec fn is_digit(c: char) -> bool {
    0x30 <= c as u32 <= 0x39
}

fn is_digit_char(c: char) -> (r: bool)
    ensures
        r == is_digit(c),
{
    let u: u32 = c as u32;
    0x30 <= u && u <= 0x39
}

/// The value of a hexadecimal digit, if the character is one (either case).
pub open spec fn spec_hex_val(c: char) -> Option<u32> {
    let u = c as u32;
    if 0x30 <= u <= 0x39 {
        Some((u - 0x30) as u32)
    } else if 0x61 <= u <= 0x66 {
        Some((u - 0x61 + 10) as u32)
    } else if 0x41 <= u <= 0x46 {
        Some((u - 0x41 + 10) as u32)
    } else {
        None
    }
}

fn hex_val(c: char) -> (r: Option<u32>)
    ensures
        r == spec_hex_val(c),
{
    let u: u32 = c as u32;
    if 0x30 <= u && u <= 0x39 {
        Some(u - 0x30)
    } else if 0x61 <= u && u <= 0x66 {
        Some(u - 0x61 + 10)
    } else if 0x41 <= u && u <= 0x46 {
        Some(u - 0x41 + 10)
    } else {
        None
    }
}

/// The value of the four hexadecimal digits at `i`, if they are there.
pub open spec fn spec_hex4(s: Seq<char>, i: int) -> Option<u32> {
    if 0 <= i && i + 4 <= s.len() {
        match (spec_hex_val(s[i]), spec_hex_val(s[i + 1]), spec_hex_val(s[i + 2]), spec_hex_val(
            s[i + 3],
        )) {
            (Some(a), Some(b), Some(c), Some(d)) => Some(
                (a * 0x1000 + b * 0x100 + c * 0x10 + d) as u32,
            ),
            _ => None,
        }
    } else {
        None
    }
}

fn hex4(s: &Vec<char>, i: usize) -> (r: Option<u32>)
    requires
        i <= s@.len(),
    ensures
        r == spec_hex4(s@, i as int),
{
    if s.len() - i >= 4 {
        let a = hex_val(s[i]);
        let b = hex_val(s[i + 1]);
        let c = hex_val(s[i + 2]);
        let d = hex_val(s[i + 3]);
        match (a, b, c, d) {
            (Some(a), Some(b), Some(c), Some(d)) => Some(a * 0x1000 + b * 0x100 + c * 0x10 + d),
            _ => None,
        }
    } else {
        None
    }
}

/// The meaning of the escape that starts right after a backslash at `i - 1`:
/// the characters it denotes and the index just past it. A `\u` escape may
/// not be a lone surrogate; a leading surrogate must be followed immediately
/// by a `\u` trailing surrogate, and the pair denotes one character.
pub open spec fn spec_escape_seq(s: Seq<char>, i: int) -> Option<(Seq<char>, int)> {
    if !(0 <= i && i < s.len()) {
        None
    } else {
        let u = s[i] as u32;
        if u == 0x22 {
            Some((seq!['"'], i + 1))
        } else if u == 0x5C {
            Some((seq!['\\'], i + 1))
        } else if u == 0x2F {
            Some((seq!['/'], i + 1))
        } else if u == 0x62 {
            Some((seq!['\u{8}'], i + 1))
        } else if u == 0x66 {
            Some((seq!['\u{c}'], i + 1))
        } else if u == 0x6E {
            Some((seq!['\n'], i + 1))
        } else if u == 0x72 {
            Some((seq!['\r'], i + 1))
        } else if u == 0x74 {
            Some((seq!['\t'], i + 1))
        } else if u == 0x75 {
            match spec_hex4(s, i + 1) {
                None => None,
                Some(n1) => if 0xDC00 <= n1 <= 0xDFFF {
                    None
                } else if 0xD800 <= n1 <= 0xDBFF {
                    if i + 6 < s.len() && s[i + 5] as u32 == 0x5C && s[i + 6] as u32 == 0x75 {
                        match spec_hex4(s, i + 7) {
                            None => None,
                            Some(n2) => if 0xDC00 <= n2 <= 0xDFFF {
                                Some(
                                    (
                                        seq![
                                            ((0x10000 + (n1 - 0xD800) * 0x400 + (n2
                                                - 0xDC00)) as u32) as char
                                        ],
                                        i + 11,
                                    ),
                                )
                            } else {
                                None
                            },
                        }
                    } else {
                        None
                    }
                } else {
                    Some((seq![n1 as char], i + 5))
                },
            }
        } else {
            None
        }
    }
}

/// Relates an executable parse result for a run of characters to its spec.
pub open spec fn opt_chunk(r: Option<(Vec<char>, usize)>) -> Option<(Seq<char>, int)> {
    match r {
        Some((v, j)) => Some((v@, j as int)),
        None => None,
    }
}

/// Relates an executable index result to its spec.
pub open spec fn opt_idx(r: Option<usize>) -> Option<int> {
    match r {
        Some(j) => Some(j as int),
        None => None,
    }
}

fn single_chunk(c: char, j: usize) -> (r: Option<(Vec<char>, usize)>)
    ensures
        opt_chunk(r) == Some((seq![c], j as int)),
{
    let mut v: Vec<char> = Vec::new();
    v.push(c);
    proof {
        assert(v@ =~= seq![c]);
    }
    Some((v, j))
}

#[verifier::rlimit(50)]
fn parse_escape_seq(s: &Vec<char>, i: usize) -> (r: Option<(Vec<char>, usize)>)
    requires
        i <= s@.len(),
    ensures
        opt_chunk(r) == spec_escape_seq(s@, i as int),
{
    if i >= s.len() {
        return None;
    }
    let u: u32 = s[i] as u32;
    if u == 0x22 {
        single_chunk('"', i + 1)
    } else if u == 0x5C {
        single_chunk('\\', i + 1)
    } else if u == 0x2F {
        single_chunk('/', i + 1)
    } else if u == 0x62 {
        single_chunk('\u{8}', i + 1)
    } else if u == 0x66 {
        single_chunk('\u{c}', i + 1)
    } else if u == 0x6E {
        single_chunk('\n', i + 1)
    } else if u == 0x72 {
        single_chunk('\r', i + 1)
    } else if u == 0x74 {
        single_chunk('\t', i + 1)
    } else if u == 0x75 {
        match hex4(s, i + 1) {
            None => None,
            Some(n1) => {
                if 0xDC00 <= n1 && n1 <= 0xDFFF {
                    None
                } else if 0xD800 <= n1 && n1 <= 0xDBFF {
                    if s.len() - i > 6 && s[i + 5] as u32 == 0x5C && s[i + 6] as u32 == 0x75 {
                        match hex4(s, i + 7) {
                            None => None,
                            Some(n2) => {
                                if 0xDC00 <= n2 && n2 <= 0xDFFF {
                                    let code: u32 = 0x10000 + (n1 - 0xD800) * 0x400 + (n2 - 0xDC00);
                                    proof {
                                        assert(is_scalar(code));
                                    }
                                    let c = char_from_u32(code).unwrap();
                                    proof {
                                        vstd::utf8::char_u32_cast(c, code);
                                        assert(c == code as char);
                                    }
                                    single_chunk(c, i + 11)
                                } else {
                                    None
                                }
                            },
                        }
                    } else {
                        None
                    }
                } else {
                    proof {
                        assert(is_scalar(n1));
                    }
                    let c = char_from_u32(n1).unwrap();
                    proof {
                        vstd::utf8::char_u32_cast(c, n1);
                        assert(c == n1 as char);
                    }
                    single_chunk(c, i + 5)
                }
            },
        }
    } else {
        None
    }
}

/// The content of a string literal whose opening quote stands at `i - 1`,
/// with `acc` already read: the unescaped characters and the index just past
/// the closing quote. Unescaped control characters are refused.
pub open spec fn spec_string_body(s: Seq<char>, i: int, acc: Seq<char>) -> Option<
    (Seq<char>, int),
>
    decreases s.len() - i
        when 0 <= i <= s.len()
{
    if i >= s.len() {
        None
    } else {
        let u = s[i] as u32;
        if u == 0x22 {
            Some((acc, i + 1))
        } else if u == 0x5C {
            match spec_escape_seq(s, i + 1) {
                None => None,
                Some((cs, j)) => if i < j && j <= s.len() {
                    spec_string_body(s, j, acc + cs)
                } else {
                    None
                },
            }
        } else if u < 0x20 {
            None
        } else {
            spec_string_body(s, i + 1, acc.push(s[i]))
        }
    }
}

fn parse_string_body(s: &Vec<char>, i: usize) -> (r: Option<(Vec<char>, usize)>)
    requires
        i <= s@.len(),
    ensures
        opt_chunk(r) == spec_string_body(s@, i as int, Seq::empty()),
        r is Some ==> i < r.unwrap().1 <= s@.len(),
{
    let mut acc: Vec<char> = Vec::new();
    let mut j: usize = i;
    loop
        invariant
            i <= j <= s@.len(),
            spec_string_body(s@, i as int, Seq::empty()) == spec_string_body(s@, j as int, acc@),
        decreases s@.len() - j,
    {
        if j >= s.len() {
            return None;
        }
        let c = s[j];
        let u: u32 = c as u32;
        if u == 0x22 {
            return Some((acc, j + 1));
        } else if u == 0x5C {
            match parse_escape_seq(s, j + 1) {
                None => {
                    return None;
                },
                Some((mut cs, k)) => {
                    if j < k && k <= s.len() {
                        acc.append(&mut cs);
                        j = k;
                    } else {
                        return None;
                    }
                },
            }
        } else if u < 0x20 {
            return None;
        } else {
            acc.push(c);
            j = j + 1;
        }
    }
}

/// The first index at or after `i` that holds no decimal digit.
pub open spec fn spec_digits_end(s: Seq<char>, i: int) -> int
    decreases s.len() - i
        when 0 <= i <= s.len()
{
    if i < s.len() && is_digit(s[i]) {
        spec_digits_end(s, i + 1)
    } else {
        i
    }
}

/// The end of a digit run never lies before its start.
proof fn lemma_digits_end_ge(s: Seq<char>, i: int)
    requires
        0 <= i <= s.len(),
    ensures
        i <= spec_digits_end(s, i) <= s.len(),
    decreases s.len() - i,
{
    if i < s.len() && is_digit(s[i]) {
        lemma_digits_end_ge(s, i + 1);
    }
}

fn digits_end(s: &Vec<char>, i: usize) -> (r: usize)
    requires
        i <= s@.len(),
    ensures
        i <= r <= s@.len(),
        r as int == spec_digits_end(s@, i as int),
{
    let mut j: usize = i;
    while j < s.len() && is_digit_char(s[j])
        invariant
            i <= j <= s@.len(),
            spec_digits_end(s@, i as int) == spec_digits_end(s@, j as int),
        decreases s@.len() - j,
    {
        j = j + 1;
    }
    j
}

/// The index just past the JSON number that starts at `i`, if one does:
/// an optional minus, an integer part without leading zeros, an optional
/// fraction, an optional exponent.
pub open spec fn spec_number_end(s: Seq<char>, i: int) -> Option<int> {
    if !(0 <= i <= s.len()) {
        None
    } else {
        let j = if i < s.len() && s[i] as u32 == 0x2D {
            i + 1
        } else {
            i
        };
        if !(j < s.len() && is_digit(s[j])) {
            None
        } else if s[j] as u32 == 0x30 && j + 1 < s.len() && is_digit(s[j + 1]) {
            None
        } else {
            let k = spec_digits_end(s, j);
            if k < s.len() && s[k] as u32 == 0x2E {
                if k + 1 < s.len() && is_digit(s[k + 1]) {
                    spec_number_tail(s, spec_digits_end(s, k + 1))
                } else {
                    None
                }
            } else {
                spec_number_tail(s, k)
            }
        }
    }
}

/// The index just past an optional exponent that starts at `m`.
pub open spec fn spec_number_tail(s: Seq<char>, m: int) -> Option<int> {
    if !(0 <= m <= s.len()) {
        None
    } else if m < s.len() && (s[m] as u32 == 0x65 || s[m] as u32 == 0x45) {
        let p = if m + 1 < s.len() && (s[m + 1] as u32 == 0x2B || s[m + 1] as u32 == 0x2D) {
            m + 2
        } else {
            m + 1
        };
        if p < s.len() && is_digit(s[p]) {
            Some(spec_digits_end(s, p))
        } else {
            None
        }
    } else {
        Some(m)
    }
}

fn number_tail(s: &Vec<char>, m: usize) -> (r: Option<usize>)
    requires
        m <= s@.len(),
    ensures
        opt_idx(r) == spec_number_tail(s@, m as int),
        r is Some ==> m <= r.unwrap() <= s@.len(),
{
    if m < s.len() && (s[m] as u32 == 0x65 || s[m] as u32 == 0x45) {
        let p: usize = if m + 1 < s.len() && (s[m + 1] as u32 == 0x2B || s[m + 1] as u32 == 0x2D) {
            m + 2
        } else {
            m + 1
        };
        if p < s.len() && is_digit_char(s[p]) {
            Some(digits_end(s, p))
        } else {
            None
        }
    } else {
        Some(m)
    }
}

fn number_end(s: &Vec<char>, i: usize) -> (r: Option<usize>)
    requires
        i <= s@.len(),
    ensures
        opt_idx(r) == spec_number_end(s@, i as int),
        r is Some ==> i < r.unwrap() <= s@.len(),
{
    let j: usize = if i < s.len() && s[i] as u32 == 0x2D {
        i + 1
    } else {
        i
    };
    if !(j < s.len() && is_digit_char(s[j])) {
        None
    } else if s[j] as u32 == 0x30 && j + 1 < s.len() && is_digit_char(s[j + 1]) {
        None
    } else {
        let k = digits_end(s, j);
        proof {
            lemma_digits_end_ge(s@, j as int + 1);
            assert(spec_digits_end(s@, j as int) == spec_digits_end(s@, j as int + 1));
        }
        if k < s.len() && s[k] as u32 == 0x2E {
            if k + 1 < s.len() && is_digit_char(s[k + 1]) {
                number_tail(s, digits_end(s, k + 1))
            } else {
                None
            }
        } else {
            number_tail(s, k)
        }
    }
}

/// The index just past the JSON value that starts at `i` (no leading
/// whitespace), whatever its type.
pub open spec fn spec_skip_value(s: Seq<char>, i: int) -> Option<int>
    decreases s.len() - i, 1int
        when 0 <= i <= s.len()
{
    if i >= s.len() {
        None
    } else {
        let u = s[i] as u32;
        if u == 0x22 {
            match spec_string_body(s, i + 1, Seq::empty()) {
                Some((_v, j)) => Some(j),
                None => None,
            }
        } else if u == 0x7B {
            let j = spec_ws(s, i + 1);
            if i < j && j <= s.len() {
                spec_skip_object_items(s, j, true)
            } else {
                None
            }
        } else if u == 0x5B {
            let j = spec_ws(s, i + 1);
            if i < j && j <= s.len() {
                spec_skip_array_items(s, j, true)
            } else {
                None
            }
        } else if u == 0x74 {
            if i + 4 <= s.len() && s[i + 1] == 'r' && s[i + 2] == 'u' && s[i + 3] == 'e' {
                Some(i + 4)
            } else {
                None
            }
        } else if u == 0x66 {
            if i + 5 <= s.len() && s[i + 1] == 'a' && s[i + 2] == 'l' && s[i + 3] == 's' && s[i + 4]
                == 'e' {
                Some(i + 5)
            } else {
                None
            }
        } else if u == 0x6E {
            if i + 4 <= s.len() && s[i + 1] == 'u' && s[i + 2] == 'l' && s[i + 3] == 'l' {
                Some(i + 4)
            } else {
                None
            }
        } else if u == 0x2D || is_digit(s[i]) {
            spec_number_end(s, i)
        } else {
            None
        }
    }
}

/// The index just past the rest of an array whose items start at `i` (no
/// leading whitespace); `first` says whether no item has been read yet, so
/// that only `[]` may close immediately.
pub open spec fn spec_skip_array_items(s: Seq<char>, i: int, first: bool) -> Option<int>
    decreases s.len() - i, 2int
        when 0 <= i <= s.len()
{
    if i >= s.len() {
        None
    } else if first && s[i] as u32 == 0x5D {
        Some(i + 1)
    } else {
        match spec_skip_value(s, i) {
            None => None,
            Some(j) => if i < j && j <= s.len() {
                let k = spec_ws(s, j);
                if j <= k && k < s.len() {
                    if s[k] as u32 == 0x2C {
                        let m = spec_ws(s, k + 1);
                        if k < m && m <= s.len() {
                            spec_skip_array_items(s, m, false)
                        } else {
                            None
                        }
                    } else if s[k] as u32 == 0x5D {
                        Some(k + 1)
                    } else {
                        None
                    }
                } else {
                    None
                }
            } else {
                None
            },
        }
    }
}

/// The index just past the rest of an object whose members start at `i` (no
/// leading whitespace); `first` says whether no member has been read yet, so
/// that only `{}` may close immediately.
pub open spec fn spec_skip_object_items(s: Seq<char>, i: int, first: bool) -> Option<int>
    decreases s.len() - i, 2int
        when 0 <= i <= s.len()
{
    if i >= s.len() {
        None
    } else if first && s[i] as u32 == 0x7D {
        Some(i + 1)
    } else if s[i] as u32 == 0x22 {
        match spec_string_body(s, i + 1, Seq::empty()) {
            None => None,
            Some((_key, j)) => if i < j && j <= s.len() {
                let k = spec_ws(s, j);
                if j <= k && k < s.len() && s[k] as u32 == 0x3A {
                    let m = spec_ws(s, k + 1);
                    if k < m && m <= s.len() {
                        match spec_skip_value(s, m) {
                            None => None,
                            Some(p) => if m < p && p <= s.len() {
                                let q = spec_ws(s, p);
                                if p <= q && q < s.len() {
                                    if s[q] as u32 == 0x2C {
                                        let r = spec_ws(s, q + 1);
                                        if q < r && r <= s.len() {
                                            spec_skip_object_items(s, r, false)
                                        } else {
                                            None
                                        }
                                    } else if s[q] as u32 == 0x7D {
                                        Some(q + 1)
                                    } else {
                                        None
                                    }
                                } else {
                                    None
                                }
                            } else {
                                None
                            },
                        }
                    } else {
                        None
                    }
                } else {
                    None
                }
            } else {
                None
            },
        }
    } else {
        None
    }
}

fn skip_value(s: &Vec<char>, i: usize) -> (r: Option<usize>)
    requires
        i <= s@.len(),
    ensures
        opt_idx(r) == spec_skip_value(s@, i as int),
        r is Some ==> i < r.unwrap() <= s@.len(),
    decreases s@.len() - i, 1int,
{
    if i >= s.len() {
        return None;
    }
    let u: u32 = s[i] as u32;
    if u == 0x22 {
        match parse_string_body(s, i + 1) {
            Some((_v, j)) => Some(j),
            None => None,
        }
    } else if u == 0x7B {
        let j = skip_ws(s, i + 1);
        if i < j && j <= s.len() {
            skip_object_items(s, j, true)
        } else {
            None
        }
    } else if u == 0x5B {
        let j = skip_ws(s, i + 1);
        if i < j && j <= s.len() {
            skip_array_items(s, j, true)
        } else {
            None
        }
    } else if u == 0x74 {
        if s.len() - i >= 4 && s[i + 1] == 'r' && s[i + 2] == 'u' && s[i + 3] == 'e' {
            Some(i + 4)
        } else {
            None
        }
    } else if u == 0x66 {
        if s.len() - i >= 5 && s[i + 1] == 'a' && s[i + 2] == 'l' && s[i + 3] == 's' && s[i + 4]
            == 'e' {
            Some(i + 5)
        } else {
            None
        }
    } else if u == 0x6E {
        if s.len() - i >= 4 && s[i + 1] == 'u' && s[i + 2] == 'l' && s[i + 3] == 'l' {
            Some(i + 4)
        } else {
            None
        }
    } else if u == 0x2D || is_digit_char(s[i]) {
        number_end(s, i)
    } else {
        None
    }
}

fn skip_array_items(s: &Vec<char>, i: usize, first: bool) -> (r: Option<usize>)
    requires
        i <= s@.len(),
    ensures
        opt_idx(r) == spec_skip_array_items(s@, i as int, first),
        r is Some ==> i < r.unwrap() <= s@.len(),
    decreases s@.len() - i, 2int,
{
    if i >= s.len() {
        return None;
    }
    if first && s[i] as u32 == 0x5D {
        return Some(i + 1);
    }
    match skip_value(s, i) {
        None => None,
        Some(j) => {
            if i < j && j <= s.len() {
                let k = skip_ws(s, j);
                if j <= k && k < s.len() {
                    if s[k] as u32 == 0x2C {
                        let m = skip_ws(s, k + 1);
                        if k < m && m <= s.len() {
                            skip_array_items(s, m, false)
                        } else {
                            None
                        }
                    } else if s[k] as u32 == 0x5D {
                        Some(k + 1)
                    } else {
                        None
                    }
                } else {
                    None
                }
            } else {
                None
            }
        },
    }
}

fn skip_object_items(s: &Vec<char>, i: usize, first: bool) -> (r: Option<usize>)
    requires
        i <= s@.len(),
    ensures
        opt_idx(r) == spec_skip_object_items(s@, i as int, first),
        r is Some ==> i < r.unwrap() <= s@.len(),
    decreases s@.len() - i, 2int,
{
    if i >= s.len() {
        return None;
    }
    if first && s[i] as u32 == 0x7D {
        return Some(i + 1);
    }
    if s[i] as u32 != 0x22 {
        return None;
    }
    match parse_string_body(s, i + 1) {
        None => None,
        Some((_key, j)) => {
            if i < j && j <= s.len() {
                let k = skip_ws(s, j);
                if j <= k && k < s.len() && s[k] as u32 == 0x3A {
                    let m = skip_ws(s, k + 1);
                    if k < m && m <= s.len() {
                        match skip_value(s, m) {
                            None => None,
                            Some(p) => {
                                if m < p && p <= s.len() {
                                    let q = skip_ws(s, p);
                                    if p <= q && q < s.len() {
                                        if s[q] as u32 == 0x2C {
                                            let r = skip_ws(s, q + 1);
                                            if q < r && r <= s.len() {
                                                skip_object_items(s, r, false)
                                            } else {
                                                None
                                            }
                                        } else if s[q] as u32 == 0x7D {
                                            Some(q + 1)
                                        } else {
                                            None
                                        }
                                    } else {
                                        None
                                    }
                                } else {
                                    None
                                }
                            },
                        }
                    } else {
                        None
                    }
                } else {
                    None
                }
            } else {
                None
            }
        },
    }
}

/// No field seen yet.
pub open spec fn spec_empty_fields() -> SpecRequestFields {
    SpecRequestFields { id: None, prompt: None, fast_mode: None, small_image: None }
}

/// Relates an executable member-parse result to its spec.
pub open spec fn opt_fields(r: Option<(RequestFields, usize)>) -> Option<
    (SpecRequestFields, int),
> {
    match r {
        Some((f, j)) => Some((f@, j as int)),
        None => None,
    }
}

/// The members of the request object from `i` on (no leading whitespace),
/// given the fields read so far: the fields once the object closes, and the
/// index just past the closing brace. `first` says whether no member has
/// been read yet, so that only `{}` may close immediately. A known member
/// read twice, or with a value of the wrong type, refuses the message;
/// unknown members are skipped whatever their value.
pub open spec fn spec_members(s: Seq<char>, i: int, first: bool, acc: SpecRequestFields) -> Option<
    (SpecRequestFields, int),
>
    decreases s.len() - i, 1int
        when 0 <= i <= s.len()
{
    if i >= s.len() {
        None
    } else if first && s[i] as u32 == 0x7D {
        Some((acc, i + 1))
    } else if s[i] as u32 == 0x22 {
        match spec_string_body(s, i + 1, Seq::empty()) {
            None => None,
            Some((key, j)) => if i < j && j <= s.len() {
                let k = spec_ws(s, j);
                if j <= k && k < s.len() && s[k] as u32 == 0x3A {
                    let m = spec_ws(s, k + 1);
                    if k < m && m <= s.len() {
                        if key == "id"@ {
                            if acc.id is Some {
                                None
                            } else {
                                spec_string_member(
                                    s,
                                    m,
                                    SpecRequestFields {
                                        id: acc.id,
                                        prompt: acc.prompt,
                                        fast_mode: acc.fast_mode,
                                        small_image: acc.small_image,
                                    },
                                    true,
                                )
                            }
                        } else if key == "prompt"@ {
                            if acc.prompt is Some {
                                None
                            } else {
                                spec_string_member(s, m, acc, false)
                            }
                        } else if key == "fast_mode"@ {
                            if acc.fast_mode is Some {
                                None
                            } else {
                                spec_bool_member(s, m, acc, true)
                            }
                        } else if key == "small_image"@ {
                            if acc.small_image is Some {
                                None
                            } else {
                                spec_bool_member(s, m, acc, false)
                            }
                        } else {
                            match spec_skip_value(s, m) {
                                None => None,
                                Some(p) => if m < p && p <= s.len() {
                                    spec_members_sep(s, p, acc)
                                } else {
                                    None
                                },
                            }
                        }
                    } else {
                        None
                    }
                } else {
                    None
                }
            } else {
                None
            },
        }
    } else {
        None
    }
}

/// A known string-valued member at `m`: reads the string into `id` when
/// `into_id` is set, into `prompt` otherwise, then continues past it.
pub open spec fn spec_string_member(
    s: Seq<char>,
    m: int,
    acc: SpecRequestFields,
    into_id: bool,
) -> Option<(SpecRequestFields, int)>
    decreases s.len() - m, 0int
        when 0 <= m <= s.len()
{
    if m < s.len() && s[m] as u32 == 0x22 {
        match spec_string_body(s, m + 1, Seq::empty()) {
            None => None,
            Some((v, p)) => if m < p && p <= s.len() {
                spec_members_sep(
                    s,
                    p,
                    if into_id {
                        SpecRequestFields {
                            id: Some(v),
                            prompt: acc.prompt,
                            fast_mode: acc.fast_mode,
                            small_image: acc.small_image,
                        }
                    } else {
                        SpecRequestFields {
                            id: acc.id,
                            prompt: Some(v),
                            fast_mode: acc.fast_mode,
                            small_image: acc.small_image,
                        }
                    },
                )
            } else {
                None
            },
        }
    } else {
        None
    }
}

/// A known boolean-valued member at `m`: reads `true` or `false` into
/// `fast_mode` when `into_fast` is set, into `small_image` otherwise, then
/// continues past it.
pub open spec fn spec_bool_member(
    s: Seq<char>,
    m: int,
    acc: SpecRequestFields,
    into_fast: bool,
) -> Option<(SpecRequestFields, int)>
    decreases s.len() - m, 0int
        when 0 <= m <= s.len()
{
    if m + 4 <= s.len() && s[m] as u32 == 0x74 && s[m + 1] == 'r' && s[m + 2] == 'u' && s[m + 3]
        == 'e' {
        spec_members_sep(s, m + 4, spec_set_flag(acc, into_fast, true))
    } else if m + 5 <= s.len() && s[m] as u32 == 0x66 && s[m + 1] == 'a' && s[m + 2] == 'l' && s[m
        + 3] == 's' && s[m + 4] == 'e' {
        spec_members_sep(s, m + 5, spec_set_flag(acc, into_fast, false))
    } else {
        None
    }
}

/// The fields with one of the two flags set.
pub open spec fn spec_set_flag(acc: SpecRequestFields, into_fast: bool, value: bool) -> SpecRequestFields {
    if into_fast {
        SpecRequestFields {
            id: acc.id,
            prompt: acc.prompt,
            fast_mode: Some(value),
            small_image: acc.small_image,
        }
    } else {
        SpecRequestFields {
            id: acc.id,
            prompt: acc.prompt,
            fast_mode: acc.fast_mode,
            small_image: Some(value),
        }
    }
}

/// After one member: a comma continues the member list, a closing brace ends
/// the object.
pub open spec fn spec_members_sep(s: Seq<char>, p: int, acc: SpecRequestFields) -> Option<
    (SpecRequestFields, int),
>
    decreases s.len() - p, 2int
        when 0 <= p <= s.len()
{
    let q = spec_ws(s, p);
    if p <= q && q < s.len() {
        if s[q] as u32 == 0x2C {
            let r = spec_ws(s, q + 1);
            if q < r && r <= s.len() {
                spec_members(s, r, false, acc)
            } else {
                None
            }
        } else if s[q] as u32 == 0x7D {
            Some((acc, q + 1))
        } else {
            None
        }
    } else {
        None
    }
}

fn parse_members(s: &Vec<char>, i: usize, first: bool, acc: RequestFields) -> (r: Option<
    (RequestFields, usize),
>)
    requires
        i <= s@.len(),
    ensures
        opt_fields(r) == spec_members(s@, i as int, first, acc@),
        r is Some ==> i < r.unwrap().1 <= s@.len(),
    decreases s@.len() - i, 1int,
{
    if i >= s.len() {
        return None;
    }
    if first && s[i] as u32 == 0x7D {
        return Some((acc, i + 1));
    }
    if s[i] as u32 != 0x22 {
        return None;
    }
    match parse_string_body(s, i + 1) {
        None => None,
        Some((key, j)) => {
            if i < j && j <= s.len() {
                let k = skip_ws(s, j);
                if j <= k && k < s.len() && s[k] as u32 == 0x3A {
                    let m = skip_ws(s, k + 1);
                    if k < m && m <= s.len() {
                        if crate::text::chars_eq_str(&key, "id") {
                            if acc.id.is_some() {
                                None
                            } else {
                                parse_string_member(s, m, acc, true)
                            }
                        } else if crate::text::chars_eq_str(&key, "prompt") {
                            if acc.prompt.is_some() {
                                None
                            } else {
                                parse_string_member(s, m, acc, false)
                            }
                        } else if crate::text::chars_eq_str(&key, "fast_mode") {
                            if acc.fast_mode.is_some() {
                                None
                            } else {
                                parse_bool_member(s, m, acc, true)
                            }
                        } else if crate::text::chars_eq_str(&key, "small_image") {
                            if acc.small_image.is_some() {
                                None
                            } else {
                                parse_bool_member(s, m, acc, false)
                            }
                        } else {
                            match skip_value(s, m) {
                                None => None,
                                Some(p) => {
                                    if m < p && p <= s.len() {
                                        parse_members_sep(s, p, acc)
                                    } else {
                                        None
                                    }
                                },
                            }
                        }
                    } else {
                        None
                    }
                } else {
                    None
                }
            } else {
                None
            }
        },
    }
}

fn parse_string_member(s: &Vec<char>, m: usize, acc: RequestFields, into_id: bool) -> (r: Option<
    (RequestFields, usize),
>)
    requires
        m <= s@.len(),
    ensures
        opt_fields(r) == spec_string_member(s@, m as int, acc@, into_id),
        r is Some ==> m < r.unwrap().1 <= s@.len(),
    decreases s@.len() - m, 0int,
{
    if m < s.len() && s[m] as u32 == 0x22 {
        match parse_string_body(s, m + 1) {
            None => None,
            Some((v, p)) => {
                if m < p && p <= s.len() {
                    let text = crate::text::string_of(&v);
                    let acc2 = if into_id {
                        RequestFields {
                            id: Some(text),
                            prompt: acc.prompt,
                            fast_mode: acc.fast_mode,
                            small_image: acc.small_image,
                        }
                    } else {
                        RequestFields {
                            id: acc.id,
                            prompt: Some(text),
                            fast_mode: acc.fast_mode,
                            small_image: acc.small_image,
                        }
                    };
                    parse_members_sep(s, p, acc2)
                } else {
                    None
                }
            },
        }
    } else {
        None
    }
}

fn parse_bool_member(s: &Vec<char>, m: usize, acc: RequestFields, into_fast: bool) -> (r: Option<
    (RequestFields, usize),
>)
    requires
        m <= s@.len(),
    ensures
        opt_fields(r) == spec_bool_member(s@, m as int, acc@, into_fast),
        r is Some ==> m < r.unwrap().1 <= s@.len(),
    decreases s@.len() - m, 0int,
{
    if s.len() - m >= 4 && s[m] as u32 == 0x74 && s[m + 1] == 'r' && s[m + 2] == 'u' && s[m + 3]
        == 'e' {
        parse_members_sep(s, m + 4, set_flag(acc, into_fast, true))
    } else if s.len() - m >= 5 && s[m] as u32 == 0x66 && s[m + 1] == 'a' && s[m + 2] == 'l' && s[m
        + 3] == 's' && s[m + 4] == 'e' {
        parse_members_sep(s, m + 5, set_flag(acc, into_fast, false))
    } else {
        None
    }
}

fn set_flag(acc: RequestFields, into_fast: bool, value: bool) -> (r: RequestFields)
    ensures
        r@ == spec_set_flag(acc@, into_fast, value),
{
    if into_fast {
        RequestFields {
            id: acc.id,
            prompt: acc.prompt,
            fast_mode: Some(value),
            small_image: acc.small_image,
        }
    } else {
        RequestFields {
            id: acc.id,
            prompt: acc.prompt,
            fast_mode: acc.fast_mode,
            small_image: Some(value),
        }
    }
}

fn parse_members_sep(s: &Vec<char>, p: usize, acc: RequestFields) -> (r: Option<
    (RequestFields, usize),
>)
    requires
        p <= s@.len(),
    ensures
        opt_fields(r) == spec_members_sep(s@, p as int, acc@),
        r is Some ==> p < r.unwrap().1 <= s@.len(),
    decreases s@.len() - p, 2int,
{
    let q = skip_ws(s, p);
    if q < s.len() {
        if s[q] as u32 == 0x2C {
            let r = skip_ws(s, q + 1);
            if q < r && r <= s.len() {
                parse_members(s, r, false, acc)
            } else {
                None
            }
        } else if s[q] as u32 == 0x7D {
            Some((acc, q + 1))
        } else {
            None
        }
    } else {
        None
    }
}

/// Relates an executable request-parse result to its spec.
pub open spec fn opt_parsed(r: Option<RequestFields>) -> Option<SpecRequestFields> {
    match r {
        Some(f) => Some(f@),
        None => None,
    }
}

/// The meaning of a whole request message: one JSON object, nothing but
/// whitespace around it, with the members read as [`spec_members`] says.
pub open spec fn spec_parse_request(s: Seq<char>) -> Option<SpecRequestFields> {
    if s.len() == 0 {
        None
    } else {
        let i = spec_ws(s, 0);
        if 0 <= i && i < s.len() && s[i] as u32 == 0x7B {
            let j = spec_ws(s, i + 1);
            if i < j && j <= s.len() {
                match spec_members(s, j, true, spec_empty_fields()) {
                    None => None,
                    Some((f, k)) => if 0 <= k && k <= s.len() && spec_ws(s, k) == s.len() {
                        Some(f)
                    } else {
                        None
                    },
                }
            } else {
                None
            }
        } else {
            None
        }
    }
}

/// Parses the characters of one request message.
pub fn parse_request(s: &Vec<char>) -> (r: Option<RequestFields>)
    ensures
        opt_parsed(r) == spec_parse_request(s@),
{
    if s.len() == 0 {
        return None;
    }
    let i = skip_ws(s, 0);
    if i < s.len() && s[i] as u32 == 0x7B {
        let j = skip_ws(s, i + 1);
        if i < j && j <= s.len() {
            let empty = RequestFields { id: None, prompt: None, fast_mode: None, small_image: None };
            proof {
                assert(empty@ == spec_empty_fields());
            }
            match parse_members(s, j, true, empty) {
                None => None,
                Some((f, k)) => {
                    if k <= s.len() && skip_ws(s, k) == s.len() {
                        Some(f)
                    } else {
                        None
                    }
                },
            }
        } else {
            None
        }
    } else {
        None
    }
}

} // verus!
