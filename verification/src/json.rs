//! A small JSON reader, written here and verified rather than taken from a
//! serialization crate, because inbound webhook bodies must be checked against
//! an exact grammar: the spec functions in this module are that grammar, and
//! the executable scanner is proved to return exactly what they describe.
//!
//! Numbers are kept as their decimal literal text: the webhook pipeline never
//! computes with them, and keeping the text avoids committing to any numeric
//! width. Escape sequences in strings are decoded, including `\uXXXX` forms
//! and surrogate pairs.

use vstd::prelude::*;

verus! {

broadcast use vstd::std_specs::vec::group_vec_axioms, vstd::utf8::char_u32_cast;

/// A parsed JSON value. Number payloads hold the literal text as received;
/// object members are kept in the order they appeared.
#[derive(Debug)]
pub enum Json {
    Null,
    Bool(bool),
    Num(String),
    Str(String),
    Arr(Vec<Json>),
    Obj(Vec<(String, Json)>),
}

/// The mathematical shape of a JSON value: what [`Json`] looks like in
/// contracts, with character sequences in place of heap strings.
pub enum JsonV {
    Null,
    Bool(bool),
    Num(Seq<char>),
    Str(Seq<char>),
    Arr(Seq<JsonV>),
    Obj(Seq<(Seq<char>, JsonV)>),
}

/// The abstraction of an executable JSON value.
pub open spec fn jview(j: Json) -> JsonV
    decreases j,
{
    match j {
        Json::Null => JsonV::Null,
        Json::Bool(b) => JsonV::Bool(b),
        Json::Num(t) => JsonV::Num(t@),
        Json::Str(t) => JsonV::Str(t@),
        Json::Arr(v) => JsonV::Arr(
            Seq::new(
                v@.len(),
                |k: int|
                    if 0 <= k < v@.len() {
                        jview(v@[k])
                    } else {
                        JsonV::Null
                    },
            ),
        ),
        Json::Obj(v) => JsonV::Obj(
            Seq::new(
                v@.len(),
                |k: int|
                    if 0 <= k < v@.len() {
                        (v@[k].0@, jview(v@[k].1))
                    } else {
                        (Seq::empty(), JsonV::Null)
                    },
            ),
        ),
    }
}

/// The abstraction of a sequence of executable JSON values.
pub open spec fn jview_seq(v: Seq<Json>) -> Seq<JsonV> {
    Seq::new(v.len(), |k: int| jview(v[k]))
}

/// The abstraction of a sequence of executable JSON object members.
pub open spec fn jview_members(v: Seq<(String, Json)>) -> Seq<(Seq<char>, JsonV)> {
    Seq::new(v.len(), |k: int| (v[k].0@, jview(v[k].1)))
}

pub broadcast proof fn lemma_jview_arr(v: Vec<Json>)
    ensures
        #[trigger] jview(Json::Arr(v)) == JsonV::Arr(jview_seq(v@)),
{
    assert(jview(Json::Arr(v))->Arr_0 =~= jview_seq(v@));
}

pub broadcast proof fn lemma_jview_obj(v: Vec<(String, Json)>)
    ensures
        #[trigger] jview(Json::Obj(v)) == JsonV::Obj(jview_members(v@)),
{
    assert(jview(Json::Obj(v))->Obj_0 =~= jview_members(v@));
}

/// The value bound to `key` among object members `ms`: the first binding
/// wins when a key repeats.
pub open spec fn jv_get(ms: Seq<(Seq<char>, JsonV)>, key: Seq<char>) -> Option<JsonV>
    decreases ms.len(),
{
    if ms.len() == 0 {
        None
    } else if ms[0].0 == key {
        Some(ms[0].1)
    } else {
        jv_get(ms.drop_first(), key)
    }
}

/// JSON's insignificant whitespace.
pub open spec fn is_ws(c: char) -> bool {
    c == ' ' || c == '\t' || c == '\n' || c == '\r'
}

pub open spec fn is_digit(c: char) -> bool {
    '0' <= c && c <= '9'
}

/// The position of the first non-whitespace character at or after `i`.
pub open spec fn ws_end(s: Seq<char>, i: int) -> int
    decreases s.len() - i
        when 0 <= i <= s.len()
{
    if i < s.len() && is_ws(s[i]) {
        ws_end(s, i + 1)
    } else {
        i
    }
}

/// The position of the first non-digit character at or after `i`.
pub open spec fn digit_run_end(s: Seq<char>, i: int) -> int
    decreases s.len() - i
        when 0 <= i <= s.len()
{
    if i < s.len() && is_digit(s[i]) {
        digit_run_end(s, i + 1)
    } else {
        i
    }
}

/// The value of a hexadecimal digit, or -1 for any other character.
pub open spec fn hex_val(c: char) -> int {
    if '0' <= c && c <= '9' {
        c as u32 - '0' as u32
    } else if 'a' <= c && c <= 'f' {
        c as u32 - 'a' as u32 + 10
    } else if 'A' <= c && c <= 'F' {
        c as u32 - 'A' as u32 + 10
    } else {
        -1
    }
}

/// The value of the four hexadecimal digits at `i`, or -1 if any is missing.
pub open spec fn hex4_val(s: Seq<char>, i: int) -> int {
    if 0 <= i && i + 4 <= s.len() && hex_val(s[i]) >= 0 && hex_val(s[i + 1]) >= 0 && hex_val(
        s[i + 2],
    ) >= 0 && hex_val(s[i + 3]) >= 0 {
        hex_val(s[i]) * 4096 + hex_val(s[i + 1]) * 256 + hex_val(s[i + 2]) * 16 + hex_val(s[i + 3])
    } else {
        -1
    }
}

/// What a single-character escape stands for.
pub open spec fn esc_char(c: char) -> Option<char> {
    if c == '"' {
        Some('"')
    } else if c == '\\' {
        Some('\\')
    } else if c == '/' {
        Some('/')
    } else if c == 'b' {
        Some('\u{8}')
    } else if c == 'f' {
        Some('\u{c}')
    } else if c == 'n' {
        Some('\n')
    } else if c == 'r' {
        Some('\r')
    } else if c == 't' {
        Some('\t')
    } else {
        None
    }
}

/// The rest of a string literal, starting just after the opening quote (or
/// after any prefix already decoded into `acc`): the decoded characters and
/// the position just past the closing quote. Unescaped control characters
/// are rejected; `\uXXXX` escapes must be scalar values or surrogate pairs.
pub open spec fn jstr(s: Seq<char>, i: int, acc: Seq<char>) -> Option<(Seq<char>, int)>
    decreases s.len() - i
        when 0 <= i <= s.len()
{
    if i < s.len() {
        let c = s[i];
        if c == '"' {
            Some((acc, i + 1))
        } else if c == '\\' {
            if i + 2 <= s.len() {
                let e = s[i + 1];
                if e == 'u' {
                    if i + 6 <= s.len() {
                        let v = hex4_val(s, i + 2);
                        if 0 <= v < 0xD800 || 0xE000 <= v {
                            jstr(s, i + 6, acc.push((v as u32) as char))
                        } else if 0xD800 <= v < 0xDC00 && i + 12 <= s.len() && s[i + 6] == '\\'
                            && s[i + 7] == 'u' {
                            let w = hex4_val(s, i + 8);
                            if 0xDC00 <= w < 0xE000 {
                                let cp = 0x10000 + (v - 0xD800) * 0x400 + (w - 0xDC00);
                                jstr(s, i + 12, acc.push((cp as u32) as char))
                            } else {
                                None
                            }
                        } else {
                            None
                        }
                    } else {
                        None
                    }
                } else {
                    match esc_char(e) {
                        Some(d) => jstr(s, i + 2, acc.push(d)),
                        None => None,
                    }
                }
            } else {
                None
            }
        } else if (c as u32) < 0x20 {
            None
        } else {
            jstr(s, i + 1, acc.push(c))
        }
    } else {
        None
    }
}

/// The end of an optional fraction part beginning at `i`.
pub open spec fn frac_end(s: Seq<char>, i: int) -> Option<int> {
    if 0 <= i && i < s.len() && s[i] == '.' {
        let d = digit_run_end(s, i + 1);
        if i + 1 < d && d <= s.len() {
            Some(d)
        } else {
            None
        }
    } else {
        Some(i)
    }
}

/// The end of an optional exponent part beginning at `i`.
pub open spec fn exp_end(s: Seq<char>, i: int) -> Option<int> {
    if 0 <= i && i < s.len() && (s[i] == 'e' || s[i] == 'E') {
        let p = if i + 1 < s.len() && (s[i + 1] == '+' || s[i + 1] == '-') {
            i + 2
        } else {
            i + 1
        };
        let d = digit_run_end(s, p);
        if p < d && d <= s.len() {
            Some(d)
        } else {
            None
        }
    } else {
        Some(i)
    }
}

/// The end of a number literal beginning at `i`: an optional minus sign, an
/// integer part without leading zeroes, then optional fraction and exponent.
pub open spec fn jnum_end(s: Seq<char>, i: int) -> Option<int> {
    if 0 <= i < s.len() {
        let p = if s[i] == '-' {
            i + 1
        } else {
            i
        };
        if p < s.len() && is_digit(s[p]) {
            let q = if s[p] == '0' {
                p + 1
            } else {
                digit_run_end(s, p)
            };
            if p < q && q <= s.len() {
                match frac_end(s, q) {
                    Some(r) => if q <= r && r <= s.len() {
                        exp_end(s, r)
                    } else {
                        None
                    },
                    None => None,
                }
            } else {
                None
            }
        } else {
            None
        }
    } else {
        None
    }
}

/// A JSON value beginning at `i` (no leading whitespace): the parsed value
/// and the position just past it.
pub open spec fn jval(s: Seq<char>, i: int) -> Option<(JsonV, int)>
    decreases s.len() - i, 0int
        when 0 <= i <= s.len()
{
    if i < s.len() {
        let c = s[i];
        if c == '"' {
            match jstr(s, i + 1, Seq::empty()) {
                Some(r) => Some((JsonV::Str(r.0), r.1)),
                None => None,
            }
        } else if c == '-' || is_digit(c) {
            match jnum_end(s, i) {
                Some(t) => if i < t && t <= s.len() {
                    Some((JsonV::Num(s.subrange(i, t)), t))
                } else {
                    None
                },
                None => None,
            }
        } else if c == '[' {
            let j = ws_end(s, i + 1);
            if i + 1 <= j && j <= s.len() {
                if j < s.len() && s[j] == ']' {
                    Some((JsonV::Arr(Seq::empty()), j + 1))
                } else {
                    jarr(s, j, Seq::empty())
                }
            } else {
                None
            }
        } else if c == '{' {
            let j = ws_end(s, i + 1);
            if i + 1 <= j && j <= s.len() {
                if j < s.len() && s[j] == '}' {
                    Some((JsonV::Obj(Seq::empty()), j + 1))
                } else {
                    jobj(s, j, Seq::empty())
                }
            } else {
                None
            }
        } else if c == 'n' {
            if i + 4 <= s.len() && s[i + 1] == 'u' && s[i + 2] == 'l' && s[i + 3] == 'l' {
                Some((JsonV::Null, i + 4))
            } else {
                None
            }
        } else if c == 't' {
            if i + 4 <= s.len() && s[i + 1] == 'r' && s[i + 2] == 'u' && s[i + 3] == 'e' {
                Some((JsonV::Bool(true), i + 4))
            } else {
                None
            }
        } else if c == 'f' {
            if i + 5 <= s.len() && s[i + 1] == 'a' && s[i + 2] == 'l' && s[i + 3] == 's' && s[i + 4]
                == 'e' {
                Some((JsonV::Bool(false), i + 5))
            } else {
                None
            }
        } else {
            None
        }
    } else {
        None
    }
}

/// The elements of an array from the start of one element (whitespace already
/// skipped, `acc` holding the elements before it) to the closing bracket.
pub open spec fn jarr(s: Seq<char>, i: int, acc: Seq<JsonV>) -> Option<(JsonV, int)>
    decreases s.len() - i, 1int
        when 0 <= i <= s.len()
{
    match jval(s, i) {
        Some(r) => {
            let (v, k) = r;
            if i < k && k <= s.len() {
                let m = ws_end(s, k);
                if k <= m && m <= s.len() {
                    if m < s.len() && s[m] == ',' {
                        let p = ws_end(s, m + 1);
                        if m + 1 <= p && p <= s.len() {
                            jarr(s, p, acc.push(v))
                        } else {
                            None
                        }
                    } else if m < s.len() && s[m] == ']' {
                        Some((JsonV::Arr(acc.push(v)), m + 1))
                    } else {
                        None
                    }
                } else {
                    None
                }
            } else {
                None
            }
        },
        None => None,
    }
}

/// The members of an object from the start of one member's key (whitespace
/// already skipped, `acc` holding the members before it) to the closing brace.
pub open spec fn jobj(s: Seq<char>, i: int, acc: Seq<(Seq<char>, JsonV)>) -> Option<(JsonV, int)>
    decreases s.len() - i, 1int
        when 0 <= i <= s.len()
{
    if i < s.len() && s[i] == '"' {
        match jstr(s, i + 1, Seq::empty()) {
            Some(r) => {
                let (key, k) = r;
                if i + 1 < k && k <= s.len() {
                    let m = ws_end(s, k);
                    if k <= m && m <= s.len() && m < s.len() && s[m] == ':' {
                        let p = ws_end(s, m + 1);
                        if m + 1 <= p && p <= s.len() {
                            match jval(s, p) {
                                Some(r2) => {
                                    let (v, q) = r2;
                                    if p < q && q <= s.len() {
                                        let w = ws_end(s, q);
                                        if q <= w && w <= s.len() {
                                            if w < s.len() && s[w] == ',' {
                                                let x = ws_end(s, w + 1);
                                                if w + 1 <= x && x <= s.len() {
                                                    jobj(s, x, acc.push((key, v)))
                                                } else {
                                                    None
                                                }
                                            } else if w < s.len() && s[w] == '}' {
                                                Some((JsonV::Obj(acc.push((key, v))), w + 1))
                                            } else {
                                                None
                                            }
                                        } else {
                                            None
                                        }
                                    } else {
                                        None
                                    }
                                },
                                None => None,
                            }
                        } else {
                            None
                        }
                    } else {
                        None
                    }
                } else {
                    None
                }
            },
            None => None,
        }
    } else {
        None
    }
}

/// A whole JSON document: one value, possibly surrounded by whitespace,
/// consuming the entire text.
pub open spec fn jdoc(s: Seq<char>) -> Option<JsonV> {
    let i = ws_end(s, 0);
    if 0 <= i && i <= s.len() {
        match jval(s, i) {
            Some(r) => {
                let (v, j) = r;
                if i < j && j <= s.len() && ws_end(s, j) == s.len() {
                    Some(v)
                } else {
                    None
                }
            },
            None => None,
        }
    } else {
        None
    }
}

/// Relies on `String::push`: appends one character to the string.
#[verifier::external_body]
pub(crate) fn push_char(s: &mut String, c: char)
    ensures
        final(s)@ == old(s)@.push(c),
{
    s.push(c);
}

/// Relies on `char::from_u32`: returns the character with scalar value `v`
/// exactly when `v` is a Unicode scalar value (not a surrogate, at most
/// 0x10FFFF), and `None` otherwise.
#[verifier::external_body]
fn char_from_u32(v: u32) -> (r: Option<char>)
    ensures
        r matches Some(c) ==> c as u32 == v,
        r is Some <==> (v < 0xD800 || (0xE000 <= v && v <= 0x10FFFF)),
{
    char::from_u32(v)
}

/// Whether two string slices hold the same characters.
pub fn str_eq(a: &str, b: &str) -> (r: bool)
    ensures
        r == (a@ == b@),
{
    let na = a.unicode_len();
    let nb = b.unicode_len();
    if na != nb {
        return false;
    }
    let mut i: usize = 0;
    while i < na
        invariant
            0 <= i <= na,
            na == a@.len(),
            na == b@.len(),
            forall|k: int| 0 <= k < i ==> a@[k] == b@[k],
        decreases na - i,
    {
        if a.get_char(i) != b.get_char(i) {
            return false;
        }
        i = i + 1;
    }
    proof {
        assert(a@ =~= b@);
    }
    true
}

fn is_ws_x(c: char) -> (r: bool)
    ensures
        r == is_ws(c),
{
    c == ' ' || c == '\t' || c == '\n' || c == '\r'
}

fn is_digit_x(c: char) -> (r: bool)
    ensures
        r == is_digit(c),
{
    ('0' as u32) <= (c as u32) && (c as u32) <= ('9' as u32)
}

fn skip_ws(s: &str, n: usize, i: usize) -> (j: usize)
    requires
        n == s@.len(),
        i <= n,
    ensures
        j as int == ws_end(s@, i as int),
        i <= j <= n,
{
    let mut j = i;
    while j < n && is_ws_x(s.get_char(j))
        invariant
            i <= j <= n,
            n == s@.len(),
            ws_end(s@, i as int) == ws_end(s@, j as int),
        decreases n - j,
    {
        j = j + 1;
    }
    j
}

fn skip_digits(s: &str, n: usize, i: usize) -> (j: usize)
    requires
        n == s@.len(),
        i <= n,
    ensures
        j as int == digit_run_end(s@, i as int),
        i <= j <= n,
        (i < n && is_digit(s@[i as int])) ==> j >= i + 1,
    decreases n - i,
{
    let mut j = i;
    while j < n && is_digit_x(s.get_char(j))
        invariant
            i <= j <= n,
            n == s@.len(),
            digit_run_end(s@, i as int) == digit_run_end(s@, j as int),
            j > i || i == j,
            (i < n && is_digit(s@[i as int]) && j == i) ==> j < n && is_digit(s@[j as int]),
        decreases n - j,
    {
        j = j + 1;
    }
    j
}

fn hex_digit(c: char) -> (r: Option<u32>)
    ensures
        r matches Some(v) ==> v == hex_val(c) && v <= 15,
        r is None ==> hex_val(c) == -1,
{
    let u = c as u32;
    if ('0' as u32) <= u && u <= ('9' as u32) {
        Some(u - ('0' as u32))
    } else if ('a' as u32) <= u && u <= ('f' as u32) {
        Some(u - ('a' as u32) + 10)
    } else if ('A' as u32) <= u && u <= ('F' as u32) {
        Some(u - ('A' as u32) + 10)
    } else {
        None
    }
}

fn hex4(s: &str, n: usize, i: usize) -> (r: Option<u32>)
    requires
        n == s@.len(),
        i + 4 <= n,
    ensures
        r matches Some(v) ==> v == hex4_val(s@, i as int) && v <= 0xFFFF,
        r is None ==> hex4_val(s@, i as int) == -1,
{
    let a = hex_digit(s.get_char(i));
    let b = hex_digit(s.get_char(i + 1));
    let c = hex_digit(s.get_char(i + 2));
    let d = hex_digit(s.get_char(i + 3));
    match (a, b, c, d) {
        (Some(a), Some(b), Some(c), Some(d)) => Some(a * 4096 + b * 256 + c * 16 + d),
        _ => None,
    }
}

fn esc_char_x(c: char) -> (r: Option<char>)
    ensures
        r == esc_char(c),
{
    if c == '"' {
        Some('"')
    } else if c == '\\' {
        Some('\\')
    } else if c == '/' {
        Some('/')
    } else if c == 'b' {
        Some('\u{8}')
    } else if c == 'f' {
        Some('\u{c}')
    } else if c == 'n' {
        Some('\n')
    } else if c == 'r' {
        Some('\r')
    } else if c == 't' {
        Some('\t')
    } else {
        None
    }
}

fn scan_string(s: &str, n: usize, i: usize, acc: String) -> (r: Option<(String, usize)>)
    requires
        n == s@.len(),
        i <= n,
    ensures
        r matches Some(p) ==> jstr(s@, i as int, acc@) == Some((p.0@, p.1 as int)) && i < p.1 <= n,
        r is None ==> jstr(s@, i as int, acc@) is None,
    decreases n - i, 1int,
{
    if i < n {
        let c = s.get_char(i);
        if c == '"' {
            Some((acc, i + 1))
        } else if c == '\\' {
            scan_escape(s, n, i, acc)
        } else if (c as u32) < 0x20 {
            None
        } else {
            let mut acc2 = acc;
            push_char(&mut acc2, c);
            scan_string(s, n, i + 1, acc2)
        }
    } else {
        None
    }
}

#[verifier::rlimit(100)]
fn scan_escape(s: &str, n: usize, i: usize, acc: String) -> (r: Option<(String, usize)>)
    requires
        n == s@.len(),
        i < n,
        s@[i as int] == '\\',
    ensures
        r matches Some(p) ==> jstr(s@, i as int, acc@) == Some((p.0@, p.1 as int)) && i < p.1 <= n,
        r is None ==> jstr(s@, i as int, acc@) is None,
    decreases n - i, 0int,
{
    if n - i >= 2 {
        let e = s.get_char(i + 1);
        if e == 'u' {
            if n - i >= 6 {
                match hex4(s, n, i + 2) {
                    Some(v) => {
                        if v < 0xD800 || 0xE000 <= v {
                            let c2 = char_from_u32(v).unwrap();
                            proof {
                                vstd::utf8::char_u32_cast(c2, v);
                            }
                            let mut acc2 = acc;
                            push_char(&mut acc2, c2);
                            scan_string(s, n, i + 6, acc2)
                        } else if v < 0xDC00 && n - i >= 12 && s.get_char(i + 6) == '\\'
                            && s.get_char(i + 7) == 'u' {
                            match hex4(s, n, i + 8) {
                                Some(w) => {
                                    if 0xDC00 <= w && w < 0xE000 {
                                        let cp = 0x10000 + (v - 0xD800) * 0x400 + (w - 0xDC00);
                                        let c2 = char_from_u32(cp).unwrap();
                                        proof {
                                            vstd::utf8::char_u32_cast(c2, cp);
                                        }
                                        let mut acc2 = acc;
                                        push_char(&mut acc2, c2);
                                        scan_string(s, n, i + 12, acc2)
                                    } else {
                                        None
                                    }
                                },
                                None => None,
                            }
                        } else {
                            None
                        }
                    },
                    None => None,
                }
            } else {
                None
            }
        } else {
            match esc_char_x(e) {
                Some(d) => {
                    let mut acc2 = acc;
                    push_char(&mut acc2, d);
                    scan_string(s, n, i + 2, acc2)
                },
                None => None,
            }
        }
    } else {
        None
    }
}

fn scan_frac_end(s: &str, n: usize, i: usize) -> (r: Option<usize>)
    requires
        n == s@.len(),
        i <= n,
    ensures
        r matches Some(t) ==> frac_end(s@, i as int) == Some(t as int) && i <= t <= n,
        r is None ==> frac_end(s@, i as int) is None,
{
    if i < n && s.get_char(i) == '.' {
        let d = skip_digits(s, n, i + 1);
        if d > i + 1 {
            Some(d)
        } else {
            None
        }
    } else {
        Some(i)
    }
}

fn scan_exp_end(s: &str, n: usize, i: usize) -> (r: Option<usize>)
    requires
        n == s@.len(),
        i <= n,
    ensures
        r matches Some(t) ==> exp_end(s@, i as int) == Some(t as int) && i <= t <= n,
        r is None ==> exp_end(s@, i as int) is None,
{
    if i < n && (s.get_char(i) == 'e' || s.get_char(i) == 'E') {
        let p = if i + 1 < n && (s.get_char(i + 1) == '+' || s.get_char(i + 1) == '-') {
            i + 2
        } else {
            i + 1
        };
        let d = skip_digits(s, n, p);
        if d > p {
            Some(d)
        } else {
            None
        }
    } else {
        Some(i)
    }
}

fn scan_number_end(s: &str, n: usize, i: usize) -> (r: Option<usize>)
    requires
        n == s@.len(),
        i <= n,
    ensures
        r matches Some(t) ==> jnum_end(s@, i as int) == Some(t as int) && i < t <= n,
        r is None ==> jnum_end(s@, i as int) is None,
{
    if i >= n {
        return None;
    }
    let p = if s.get_char(i) == '-' {
        i + 1
    } else {
        i
    };
    if p < n && is_digit_x(s.get_char(p)) {
        let q = if s.get_char(p) == '0' {
            p + 1
        } else {
            skip_digits(s, n, p)
        };
        match scan_frac_end(s, n, q) {
            Some(r) => scan_exp_end(s, n, r),
            None => None,
        }
    } else {
        None
    }
}

fn parse_value(s: &str, n: usize, i: usize) -> (r: Option<(Json, usize)>)
    requires
        n == s@.len(),
        i <= n,
    ensures
        r matches Some(p) ==> jval(s@, i as int) == Some((jview(p.0), p.1 as int)) && i < p.1 <= n,
        r is None ==> jval(s@, i as int) is None,
    decreases s@.len() - i, 0int,
{
    broadcast use lemma_jview_arr, lemma_jview_obj;

    if i >= n {
        return None;
    }
    let c = s.get_char(i);
    if c == '"' {
        match scan_string(s, n, i + 1, String::new()) {
            Some((t, j)) => Some((Json::Str(t), j)),
            None => None,
        }
    } else if c == '-' || is_digit_x(c) {
        match scan_number_end(s, n, i) {
            Some(t) => {
                let txt = s.substring_char(i, t).to_owned();
                Some((Json::Num(txt), t))
            },
            None => None,
        }
    } else if c == '[' {
        let j = skip_ws(s, n, i + 1);
        if j < n && s.get_char(j) == ']' {
            proof {
                assert(jview_seq(Seq::<Json>::empty()) =~= Seq::<JsonV>::empty());
            }
            Some((Json::Arr(Vec::new()), j + 1))
        } else {
            proof {
                assert(jview_seq(Seq::<Json>::empty()) =~= Seq::<JsonV>::empty());
            }
            parse_arr(s, n, j, Vec::new())
        }
    } else if c == '{' {
        let j = skip_ws(s, n, i + 1);
        if j < n && s.get_char(j) == '}' {
            proof {
                assert(jview_members(Seq::<(String, Json)>::empty()) =~= Seq::<
                    (Seq<char>, JsonV),
                >::empty());
            }
            Some((Json::Obj(Vec::new()), j + 1))
        } else {
            proof {
                assert(jview_members(Seq::<(String, Json)>::empty()) =~= Seq::<
                    (Seq<char>, JsonV),
                >::empty());
            }
            parse_obj(s, n, j, Vec::new())
        }
    } else if c == 'n' {
        if n - i >= 4 && s.get_char(i + 1) == 'u' && s.get_char(i + 2) == 'l' && s.get_char(i + 3)
            == 'l' {
            Some((Json::Null, i + 4))
        } else {
            None
        }
    } else if c == 't' {
        if n - i >= 4 && s.get_char(i + 1) == 'r' && s.get_char(i + 2) == 'u' && s.get_char(i + 3)
            == 'e' {
            Some((Json::Bool(true), i + 4))
        } else {
            None
        }
    } else if c == 'f' {
        if n - i >= 5 && s.get_char(i + 1) == 'a' && s.get_char(i + 2) == 'l' && s.get_char(i + 3)
            == 's' && s.get_char(i + 4) == 'e' {
            Some((Json::Bool(false), i + 5))
        } else {
            None
        }
    } else {
        None
    }
}

fn parse_arr(s: &str, n: usize, i: usize, acc: Vec<Json>) -> (r: Option<(Json, usize)>)
    requires
        n == s@.len(),
        i <= n,
    ensures
        r matches Some(p) ==> jarr(s@, i as int, jview_seq(acc@)) == Some(
            (jview(p.0), p.1 as int),
        ) && i < p.1 <= n,
        r is None ==> jarr(s@, i as int, jview_seq(acc@)) is None,
    decreases s@.len() - i, 1int,
{
    broadcast use lemma_jview_arr;

    match parse_value(s, n, i) {
        Some((v, k)) => {
            let m = skip_ws(s, n, k);
            if m < n && s.get_char(m) == ',' {
                let p = skip_ws(s, n, m + 1);
                let mut acc2 = acc;
                acc2.push(v);
                proof {
                    assert(jview_seq(acc2@) =~= jview_seq(acc@).push(jview(v)));
                }
                parse_arr(s, n, p, acc2)
            } else if m < n && s.get_char(m) == ']' {
                let ghost accv = acc@;
                let ghost vv = jview(v);
                let mut acc2 = acc;
                acc2.push(v);
                proof {
                    assert(jview_seq(acc2@) =~= jview_seq(accv).push(vv));
                }
                Some((Json::Arr(acc2), m + 1))
            } else {
                None
            }
        },
        None => None,
    }
}

fn parse_obj(s: &str, n: usize, i: usize, acc: Vec<(String, Json)>) -> (r: Option<(Json, usize)>)
    requires
        n == s@.len(),
        i <= n,
    ensures
        r matches Some(p) ==> jobj(s@, i as int, jview_members(acc@)) == Some(
            (jview(p.0), p.1 as int),
        ) && i < p.1 <= n,
        r is None ==> jobj(s@, i as int, jview_members(acc@)) is None,
    decreases s@.len() - i, 1int,
{
    broadcast use lemma_jview_obj;

    if i < n && s.get_char(i) == '"' {
        match scan_string(s, n, i + 1, String::new()) {
            Some((key, k)) => {
                let m = skip_ws(s, n, k);
                if m < n && s.get_char(m) == ':' {
                    let p = skip_ws(s, n, m + 1);
                    match parse_value(s, n, p) {
                        Some((v, q)) => {
                            let w = skip_ws(s, n, q);
                            if w < n && s.get_char(w) == ',' {
                                let x = skip_ws(s, n, w + 1);
                                let ghost accv = acc@;
                                let ghost kv = key@;
                                let ghost vv = jview(v);
                                let mut acc2 = acc;
                                acc2.push((key, v));
                                proof {
                                    assert(jview_members(acc2@) =~= jview_members(accv).push(
                                        (kv, vv),
                                    ));
                                }
                                parse_obj(s, n, x, acc2)
                            } else if w < n && s.get_char(w) == '}' {
                                let ghost accv = acc@;
                                let ghost kv = key@;
                                let ghost vv = jview(v);
                                let mut acc2 = acc;
                                acc2.push((key, v));
                                proof {
                                    assert(jview_members(acc2@) =~= jview_members(accv).push(
                                        (kv, vv),
                                    ));
                                }
                                Some((Json::Obj(acc2), w + 1))
                            } else {
                                None
                            }
                        },
                        None => None,
                    }
                } else {
                    None
                }
            },
            None => None,
        }
    } else {
        None
    }
}

/// Parses a complete JSON document; returns exactly the value that the
/// grammar [`jdoc`] assigns to the text, and `None` exactly when the text is
/// not well-formed JSON.
pub fn parse_json(s: &str) -> (r: Option<Json>)
    ensures
        r matches Some(j) ==> jdoc(s@) == Some(jview(j)),
        r is None ==> jdoc(s@) is None,
{
    let n = s.unicode_len();
    let i = skip_ws(s, n, 0);
    match parse_value(s, n, i) {
        Some((v, j)) => {
            let k = skip_ws(s, n, j);
            if k == n {
                Some(v)
            } else {
                None
            }
        },
        None => None,
    }
}

} // verus!
