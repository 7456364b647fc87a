use vstd::prelude::*;

verus! {

/// Mathematical model of a JSON document. Numbers are restricted to
/// integers that fit in `i64`, which is all the wire format of this
/// API ever carries; a document with any other number is rejected.
pub enum JsonSpec {
    Null,
    Bool(bool),
    Int(int),
    Str(Seq<char>),
    Arr(Seq<JsonSpec>),
    Obj(Seq<(Seq<char>, JsonSpec)>),
}

/// An in-memory JSON document. Object members keep the order in which
/// they appeared in the text; lookups take the first match.
#[derive(Debug)]
pub enum JsonValue {
    Null,
    Bool(bool),
    Int(i64),
    Str(String),
    Arr(Vec<JsonValue>),
    Obj(Vec<(String, JsonValue)>),
}

/// The model of an in-memory document.
pub open spec fn model_of(v: JsonValue) -> JsonSpec
    decreases v,
{
    match v {
        JsonValue::Null => JsonSpec::Null,
        JsonValue::Bool(b) => JsonSpec::Bool(b),
        JsonValue::Int(n) => JsonSpec::Int(n as int),
        JsonValue::Str(s) => JsonSpec::Str(s@),
        JsonValue::Arr(items) => JsonSpec::Arr(models_of_items(items@)),
        JsonValue::Obj(members) => JsonSpec::Obj(models_of_members(members@)),
    }
}

/// The models of the elements of an array, in order.
pub open spec fn models_of_items(items: Seq<JsonValue>) -> Seq<JsonSpec>
    decreases items,
{
    if items.len() == 0 {
        Seq::empty()
    } else {
        seq![model_of(items[0])] + models_of_items(items.drop_first())
    }
}

/// The models of the members of an object, in order, with their keys.
pub open spec fn models_of_members(members: Seq<(String, JsonValue)>) -> Seq<(Seq<char>, JsonSpec)>
    decreases members,
{
    if members.len() == 0 {
        Seq::empty()
    } else {
        seq![(members[0].0@, model_of(members[0].1))] + models_of_members(members.drop_first())
    }
}

/// The first value bound to `key` in an object's member list, if any.
pub open spec fn obj_get(members: Seq<(Seq<char>, JsonSpec)>, key: Seq<char>) -> Option<JsonSpec>
    decreases members,
{
    if members.len() == 0 {
        None
    } else if members[0].0 == key {
        Some(members[0].1)
    } else {
        obj_get(members.drop_first(), key)
    }
}

// ---------------------------------------------------------------------------
// The grammar, read: a recursive-descent definition of which character
// sequences denote a document and what they denote.
// ---------------------------------------------------------------------------

/// JSON insignificant whitespace.
pub open spec fn is_ws(c: char) -> bool {
    c == ' ' || c == '\t' || c == '\n' || c == '\r'
}

pub open spec fn is_digit(c: char) -> bool {
    '0' <= c && c <= '9'
}

/// The value of a hexadecimal digit character, upper or lower case.
pub open spec fn hex_val(c: char) -> Option<nat> {
    if is_digit(c) {
        Some((c as u32 - '0' as u32) as nat)
    } else if 'a' <= c && c <= 'f' {
        Some((c as u32 - 'a' as u32 + 10) as nat)
    } else if 'A' <= c && c <= 'F' {
        Some((c as u32 - 'A' as u32 + 10) as nat)
    } else {
        None
    }
}

/// The first position at or after `i` that does not hold whitespace.
pub open spec fn skip_ws(s: Seq<char>, i: nat) -> nat
    decreases s.len() - i,
{
    if i < s.len() && is_ws(s[i as int]) {
        skip_ws(s, i + 1)
    } else {
        i
    }
}

/// `j` held between `lo` and `hi`. The parsing functions advance past
/// every position they consume and never run off the end (the bounds
/// lemmas below prove it), so where this appears it only renames `j`;
/// it makes the definitions visibly well-founded.
#[verifier::inline]
pub open spec fn bump(j: nat, lo: nat) -> nat {
    if j < lo {
        lo
    } else {
        j
    }
}

#[verifier::inline]
pub open spec fn clamp(j: nat, lo: nat, hi: nat) -> nat {
    if j < lo {
        lo
    } else if j > hi {
        hi
    } else {
        j
    }
}

/// One escape sequence starting at the backslash at `i`: the character
/// it denotes and the position after it. Unicode escapes denote a
/// single scalar value; surrogate halves are rejected.
pub open spec fn sp_escape(s: Seq<char>, i: nat) -> Option<(char, nat)> {
    if i + 2 <= s.len() {
        let c = s[i + 1int];
        if c == '"' {
            Some(('"', i + 2))
        } else if c == '\\' {
            Some(('\\', i + 2))
        } else if c == '/' {
            Some(('/', i + 2))
        } else if c == 'b' {
            Some(('\u{8}', i + 2))
        } else if c == 'f' {
            Some(('\u{c}', i + 2))
        } else if c == 'n' {
            Some(('\n', i + 2))
        } else if c == 'r' {
            Some(('\r', i + 2))
        } else if c == 't' {
            Some(('\t', i + 2))
        } else if c == 'u' && i + 6 <= s.len() {
            match (hex_val(s[i + 2int]), hex_val(s[i + 3int]), hex_val(s[i + 4int]), hex_val(s[i + 5int])) {
                (Some(a), Some(b), Some(d), Some(e)) => {
                    let n = a * 0x1000 + b * 0x100 + d * 0x10 + e;
                    if 0xD800 <= n && n < 0xE000 {
                        None
                    } else {
                        Some(((n as u32) as char, i + 6))
                    }
                },
                _ => None,
            }
        } else {
            None
        }
    } else {
        None
    }
}

/// A string body starting just after the opening quote at `i - 1`: the
/// characters it denotes and the position after the closing quote.
/// Unescaped control characters are not allowed.
pub open spec fn sp_string_body(s: Seq<char>, i: nat) -> Option<(Seq<char>, nat)>
    decreases s.len() - i,
{
    if i >= s.len() {
        None
    } else if s[i as int] == '"' {
        Some((Seq::empty(), i + 1))
    } else if s[i as int] == '\\' {
        match sp_escape(s, i) {
            None => None,
            Some((c, j)) => match sp_string_body(s, bump(j, i + 1)) {
                None => None,
                Some((t, k)) => Some((seq![c] + t, k)),
            },
        }
    } else if (s[i as int] as u32) < 0x20 {
        None
    } else {
        match sp_string_body(s, i + 1) {
            None => None,
            Some((t, k)) => Some((seq![s[i as int]] + t, k)),
        }
    }
}

/// The position after the run of digits starting at `i`.
pub open spec fn digits_end(s: Seq<char>, i: nat) -> nat
    decreases s.len() - i,
{
    if i < s.len() && is_digit(s[i as int]) {
        digits_end(s, i + 1)
    } else {
        i
    }
}

/// The value of the digit run `s[i .. j)`.
pub open spec fn digits_value(s: Seq<char>, i: nat, j: nat) -> int
    decreases j - i,
{
    if i >= j {
        0
    } else {
        digits_value(s, i, (j - 1) as nat) * 10 + (s[j - 1int] as u32 - '0' as u32)
    }
}

/// An unsigned integer literal starting at `i`: its value and the
/// position after it. JSON forbids a redundant leading zero.
pub open spec fn sp_uint(s: Seq<char>, i: nat) -> Option<(int, nat)> {
    if i < s.len() && is_digit(s[i as int]) {
        if s[i as int] == '0' {
            Some((0, i + 1))
        } else {
            let j = digits_end(s, i);
            Some((digits_value(s, i, j), j))
        }
    } else {
        None
    }
}

/// A number starting at `i`. Only integers that fit in an `i64` are
/// accepted; fractions, exponents and wider values are not.
pub open spec fn sp_number(s: Seq<char>, i: nat) -> Option<(JsonSpec, nat)> {
    if i < s.len() && s[i as int] == '-' {
        match sp_uint(s, i + 1) {
            None => None,
            Some((n, j)) => if n <= 0x8000_0000_0000_0000int {
                Some((JsonSpec::Int(-n), j))
            } else {
                None
            },
        }
    } else {
        match sp_uint(s, i) {
            None => None,
            Some((n, j)) => if n <= 0x7fff_ffff_ffff_ffffint {
                Some((JsonSpec::Int(n), j))
            } else {
                None
            },
        }
    }
}

/// A value starting at the non-whitespace position `i`: what it denotes
/// and the position after it.
pub open spec fn sp_value(s: Seq<char>, i: nat) -> Option<(JsonSpec, nat)>
    decreases s.len() - i, 1nat,
{
    if i >= s.len() {
        None
    } else if s[i as int] == '"' {
        match sp_string_body(s, i + 1) {
            None => None,
            Some((t, j)) => Some((JsonSpec::Str(t), j)),
        }
    } else if s[i as int] == 't' {
        if i + 4 <= s.len() && s[i + 1int] == 'r' && s[i + 2int] == 'u' && s[i + 3int] == 'e' {
            Some((JsonSpec::Bool(true), i + 4))
        } else {
            None
        }
    } else if s[i as int] == 'f' {
        if i + 5 <= s.len() && s[i + 1int] == 'a' && s[i + 2int] == 'l' && s[i + 3int] == 's' && s[i + 4int]
            == 'e' {
            Some((JsonSpec::Bool(false), i + 5))
        } else {
            None
        }
    } else if s[i as int] == 'n' {
        if i + 4 <= s.len() && s[i + 1int] == 'u' && s[i + 2int] == 'l' && s[i + 3int] == 'l' {
            Some((JsonSpec::Null, i + 4))
        } else {
            None
        }
    } else if s[i as int] == '[' {
        let j = clamp(skip_ws(s, i + 1), i + 1, s.len());
        if j < s.len() && s[j as int] == ']' {
            Some((JsonSpec::Arr(Seq::empty()), j + 1))
        } else {
            match sp_elements(s, j) {
                None => None,
                Some((items, k)) => Some((JsonSpec::Arr(items), k)),
            }
        }
    } else if s[i as int] == '{' {
        let j = clamp(skip_ws(s, i + 1), i + 1, s.len());
        if j < s.len() && s[j as int] == '}' {
            Some((JsonSpec::Obj(Seq::empty()), j + 1))
        } else {
            match sp_members(s, j) {
                None => None,
                Some((members, k)) => Some((JsonSpec::Obj(members), k)),
            }
        }
    } else {
        sp_number(s, i)
    }
}

/// A non-empty comma-separated list of values starting at `i`, up to
/// and including the closing bracket.
pub open spec fn sp_elements(s: Seq<char>, i: nat) -> Option<(Seq<JsonSpec>, nat)>
    decreases s.len() - i, 2nat,
{
    match sp_value(s, i) {
        None => None,
        Some((v, j0)) => {
            let j = skip_ws(s, bump(j0, i + 1));
            if j < s.len() && s[j as int] == ']' {
                Some((seq![v], j + 1))
            } else if j < s.len() && s[j as int] == ',' {
                match sp_elements(s, clamp(skip_ws(s, j + 1), i + 1, s.len())) {
                    None => None,
                    Some((items, k)) => Some((seq![v] + items, k)),
                }
            } else {
                None
            }
        },
    }
}

/// A non-empty comma-separated list of `"key": value` members starting
/// at `i`, up to and including the closing brace.
pub open spec fn sp_members(s: Seq<char>, i: nat) -> Option<(Seq<(Seq<char>, JsonSpec)>, nat)>
    decreases s.len() - i, 2nat,
{
    if i < s.len() && s[i as int] == '"' {
        match sp_string_body(s, i + 1) {
            None => None,
            Some((key, j0)) => {
                let j = skip_ws(s, bump(j0, i + 1));
                if j < s.len() && s[j as int] == ':' {
                    match sp_value(s, clamp(skip_ws(s, j + 1), i + 1, s.len())) {
                        None => None,
                        Some((v, k0)) => {
                            let k = skip_ws(s, bump(k0, i + 1));
                            if k < s.len() && s[k as int] == '}' {
                                Some((seq![(key, v)], k + 1))
                            } else if k < s.len() && s[k as int] == ',' {
                                match sp_members(s, clamp(skip_ws(s, k + 1), i + 1, s.len())) {
                                    None => None,
                                    Some((members, m)) => Some((seq![(key, v)] + members, m)),
                                }
                            } else {
                                None
                            }
                        },
                    }
                } else {
                    None
                }
            },
        }
    } else {
        None
    }
}

/// What a whole text denotes: one value, surrounded only by whitespace.
pub open spec fn sp_json(s: Seq<char>) -> Option<JsonSpec> {
    match sp_value(s, skip_ws(s, 0)) {
        None => None,
        Some((v, j)) => if skip_ws(s, j) == s.len() {
            Some(v)
        } else {
            None
        },
    }
}


// ---------------------------------------------------------------------------
// Every parsing function moves forward and stays inside the text.
// ---------------------------------------------------------------------------

pub proof fn lemma_skip_ws(s: Seq<char>, i: nat)
    ensures
        i <= skip_ws(s, i),
        i <= s.len() ==> skip_ws(s, i) <= s.len(),
        skip_ws(s, i) < s.len() ==> !is_ws(s[skip_ws(s, i) as int]),
    decreases s.len() - i,
{
    if i < s.len() && is_ws(s[i as int]) {
        lemma_skip_ws(s, i + 1);
    }
}

pub proof fn lemma_string_body_bounds(s: Seq<char>, i: nat)
    ensures
        sp_string_body(s, i) matches Some((t, k)) ==> i < k <= s.len(),
    decreases s.len() - i,
{
    if i < s.len() && s[i as int] != '"' {
        if s[i as int] == '\\' {
            if let Some((c, j)) = sp_escape(s, i) {
                lemma_string_body_bounds(s, bump(j, i + 1));
            }
        } else {
            lemma_string_body_bounds(s, i + 1);
        }
    }
}

pub proof fn lemma_digits_end(s: Seq<char>, i: nat)
    ensures
        i <= digits_end(s, i),
        i <= s.len() ==> digits_end(s, i) <= s.len(),
        forall|k: int| i <= k < digits_end(s, i) ==> is_digit(s[k]),
        digits_end(s, i) < s.len() ==> !is_digit(s[digits_end(s, i) as int]),
    decreases s.len() - i,
{
    if i < s.len() && is_digit(s[i as int]) {
        lemma_digits_end(s, i + 1);
    }
}

pub proof fn lemma_number_bounds(s: Seq<char>, i: nat)
    ensures
        sp_number(s, i) matches Some((v, j)) ==> i < j <= s.len(),
{
    lemma_digits_end(s, i);
    if i < s.len() {
        lemma_digits_end(s, i + 1);
    }
}

pub proof fn lemma_value_bounds(s: Seq<char>, i: nat)
    ensures
        sp_value(s, i) matches Some((v, j)) ==> i < j <= s.len(),
    decreases s.len() - i, 1nat,
{
    if i < s.len() {
        let c = s[i as int];
        if c == '"' {
            lemma_string_body_bounds(s, i + 1);
        } else if c == '[' || c == '{' {
            lemma_skip_ws(s, i + 1);
            let j = clamp(skip_ws(s, i + 1), i + 1, s.len());
            if c == '[' {
                if !(j < s.len() && s[j as int] == ']') {
                    lemma_elements_bounds(s, j);
                }
            } else {
                if !(j < s.len() && s[j as int] == '}') {
                    lemma_members_bounds(s, j);
                }
            }
        } else {
            lemma_number_bounds(s, i);
        }
    }
}

pub proof fn lemma_elements_bounds(s: Seq<char>, i: nat)
    ensures
        sp_elements(s, i) matches Some((items, k)) ==> i < k <= s.len(),
    decreases s.len() - i, 2nat,
{
    lemma_value_bounds(s, i);
    if let Some((v, j0)) = sp_value(s, i) {
        let j = skip_ws(s, bump(j0, i + 1));
        lemma_skip_ws(s, bump(j0, i + 1));
        if j < s.len() && s[j as int] == ',' {
            lemma_skip_ws(s, j + 1);
            lemma_elements_bounds(s, clamp(skip_ws(s, j + 1), i + 1, s.len()));
        }
    }
}

pub proof fn lemma_members_bounds(s: Seq<char>, i: nat)
    ensures
        sp_members(s, i) matches Some((members, m)) ==> i < m <= s.len(),
    decreases s.len() - i, 2nat,
{
    if i < s.len() && s[i as int] == '"' {
        lemma_string_body_bounds(s, i + 1);
        if let Some((key, j0)) = sp_string_body(s, i + 1) {
            let j = skip_ws(s, bump(j0, i + 1));
            lemma_skip_ws(s, bump(j0, i + 1));
            if j < s.len() && s[j as int] == ':' {
                lemma_skip_ws(s, j + 1);
                let vi = clamp(skip_ws(s, j + 1), i + 1, s.len());
                lemma_value_bounds(s, vi);
                if let Some((v, k0)) = sp_value(s, vi) {
                    let k = skip_ws(s, bump(k0, i + 1));
                    lemma_skip_ws(s, bump(k0, i + 1));
                    if k < s.len() && s[k as int] == ',' {
                        lemma_skip_ws(s, k + 1);
                        lemma_members_bounds(s, clamp(skip_ws(s, k + 1), i + 1, s.len()));
                    }
                }
            }
        }
    }
}


// ---------------------------------------------------------------------------
// Executable parsing. Each function is proved to return exactly what the
// grammar above says the text denotes.
// ---------------------------------------------------------------------------

/// Relies on `char::from_u32`: it returns the character with that code
/// point, and `None` exactly for surrogate halves and values past the
/// last code point.
#[verifier::external_body]
fn char_from_u32(n: u32) -> (r: Option<char>)
    ensures
        r == if n < 0xD800 || (0xE000 <= n && n <= 0x10FFFF) {
            Some(n as char)
        } else {
            None::<char>
        },
{
    char::from_u32(n)
}

/// Relies on `String`'s `FromIterator` over `char`: collecting
/// characters yields the string made of exactly those characters.
#[verifier::external_body]
pub(crate) fn chars_to_string(v: &Vec<char>) -> (r: String)
    ensures
        r@ == v@,
{
    v.iter().collect()
}

/// The characters of a string slice, in order.
pub fn str_to_chars(s: &str) -> (v: Vec<char>)
    ensures
        v@ == s@,
{
    let n = s.unicode_len();
    let mut v: Vec<char> = Vec::new();
    let mut i: usize = 0;
    while i < n
        invariant
            n == s@.len(),
            i <= n,
            v@ == s@.take(i as int),
        decreases n - i,
    {
        let c = s.get_char(i);
        v.push(c);
        i = i + 1;
        proof {
            assert(v@ =~= s@.take(i as int));
        }
    }
    proof {
        assert(s@.take(n as int) =~= s@);
    }
    v
}

pub(crate) fn is_ws_char(c: char) -> (r: bool)
    ensures
        r == is_ws(c),
{
    c == ' ' || c == '\t' || c == '\n' || c == '\r'
}

pub(crate) fn is_digit_char(c: char) -> (r: bool)
    ensures
        r == is_digit(c),
{
    let n = c as u32;
    '0' as u32 <= n && n <= '9' as u32
}

pub(crate) fn hex_val_char(c: char) -> (r: Option<u32>)
    ensures
        match r {
            Some(n) => hex_val(c) == Some(n as nat) && n < 16,
            None => hex_val(c) is None,
        },
{
    let n = c as u32;
    if '0' as u32 <= n && n <= '9' as u32 {
        Some(n - '0' as u32)
    } else if 'a' as u32 <= n && n <= 'f' as u32 {
        Some(n - 'a' as u32 + 10)
    } else if 'A' as u32 <= n && n <= 'F' as u32 {
        Some(n - 'A' as u32 + 10)
    } else {
        None
    }
}

pub(crate) fn skip_ws_exec(s: &Vec<char>, i: usize) -> (j: usize)
    requires
        i <= s@.len(),
    ensures
        j as nat == skip_ws(s@, i as nat),
        i <= j <= s@.len(),
{
    let mut j = i;
    while j < s.len() && is_ws_char(s[j])
        invariant
            i <= j <= s@.len(),
            skip_ws(s@, i as nat) == skip_ws(s@, j as nat),
        decreases s@.len() - j,
    {
        j = j + 1;
    }
    j
}


/// `r` with `t` prepended to the characters of its parsed string.
pub open spec fn prepend_str(t: Seq<char>, r: Option<(Seq<char>, nat)>) -> Option<(Seq<char>, nat)> {
    match r {
        None => None,
        Some((u, k)) => Some((t + u, k)),
    }
}

pub(crate) fn parse_escape(s: &Vec<char>, i: usize) -> (r: Option<(char, usize)>)
    requires
        i <= s@.len(),
    ensures
        match r {
            Some((c, j)) => sp_escape(s@, i as nat) == Some((c, j as nat)) && i + 2 <= j
                <= s@.len(),
            None => sp_escape(s@, i as nat) is None,
        },
{
    if s.len() - i >= 2 {
        let c = s[i + 1];
        if c == '"' {
            Some(('"', i + 2))
        } else if c == '\\' {
            Some(('\\', i + 2))
        } else if c == '/' {
            Some(('/', i + 2))
        } else if c == 'b' {
            Some(('\u{8}', i + 2))
        } else if c == 'f' {
            Some(('\u{c}', i + 2))
        } else if c == 'n' {
            Some(('\n', i + 2))
        } else if c == 'r' {
            Some(('\r', i + 2))
        } else if c == 't' {
            Some(('\t', i + 2))
        } else if c == 'u' && s.len() - i >= 6 {
            match (hex_val_char(s[i + 2]), hex_val_char(s[i + 3]), hex_val_char(s[i + 4]),
                hex_val_char(s[i + 5])) {
                (Some(a), Some(b), Some(d), Some(e)) => {
                    let n = a * 0x1000 + b * 0x100 + d * 0x10 + e;
                    if 0xD800 <= n && n < 0xE000 {
                        None
                    } else {
                        Some((char_from_u32(n).unwrap(), i + 6))
                    }
                },
                _ => None,
            }
        } else {
            None
        }
    } else {
        None
    }
}

pub(crate) fn parse_string_body(s: &Vec<char>, i: usize) -> (r: Option<(Vec<char>, usize)>)
    requires
        i <= s@.len(),
    ensures
        match r {
            Some((t, k)) => sp_string_body(s@, i as nat) == Some((t@, k as nat)) && i < k
                <= s@.len(),
            None => sp_string_body(s@, i as nat) is None,
        },
{
    let mut t: Vec<char> = Vec::new();
    let mut p = i;
    loop
        invariant
            i <= p <= s@.len(),
            sp_string_body(s@, i as nat) == prepend_str(t@, sp_string_body(s@, p as nat)),
        decreases s@.len() - p,
    {
        if p >= s.len() {
            return None;
        }
        let c = s[p];
        if c == '"' {
            proof {
                assert(t@ + Seq::<char>::empty() =~= t@);
            }
            return Some((t, p + 1));
        } else if c == '\\' {
            match parse_escape(s, p) {
                None => {
                    return None;
                },
                Some((ec, q)) => {
                    proof {
                        if let Some((u, k)) = sp_string_body(s@, q as nat) {
                            assert(t@ + (seq![ec] + u) =~= t@.push(ec) + u);
                        }
                    }
                    t.push(ec);
                    p = q;
                },
            }
        } else if (c as u32) < 0x20 {
            return None;
        } else {
            proof {
                if let Some((u, k)) = sp_string_body(s@, p as nat + 1) {
                    assert(t@ + (seq![c] + u) =~= t@.push(c) + u);
                }
            }
            t.push(c);
            p = p + 1;
        }
    }
}


/// Ten to the `k`.
pub open spec fn pow10(k: nat) -> int
    decreases k,
{
    if k == 0 {
        1
    } else {
        10 * pow10((k - 1) as nat)
    }
}

proof fn lemma_pow10_pos(k: nat)
    ensures
        pow10(k) >= 1,
    decreases k,
{
    if k > 0 {
        lemma_pow10_pos((k - 1) as nat);
    }
}

proof fn lemma_pow10_mono(a: nat, b: nat)
    requires
        a <= b,
    ensures
        1 <= pow10(a) <= pow10(b),
    decreases b,
{
    lemma_pow10_pos(a);
    if a < b {
        lemma_pow10_mono(a, (b - 1) as nat);
    }
}

proof fn lemma_digits_value_lower(s: Seq<char>, i: nat, j: nat)
    requires
        i < j,
        forall|k: int| i <= k < j ==> is_digit(s[k]),
        s[i as int] != '0',
    ensures
        digits_value(s, i, j) >= pow10((j - i - 1) as nat),
    decreases j - i,
{
    let d = s[j - 1int] as u32 - '0' as u32;
    assert(is_digit(s[j - 1int]));
    assert(digits_value(s, i, j) == digits_value(s, i, (j - 1) as nat) * 10 + d);
    if j == i + 1 {
        assert(is_digit(s[i as int]));
        assert(s[i as int] as u32 > '0' as u32);
        assert(digits_value(s, i, i) == 0);
    } else {
        lemma_digits_value_lower(s, i, (j - 1) as nat);
        assert(pow10((j - i - 1) as nat) == 10 * pow10((j - i - 2) as nat));
        assert(digits_value(s, i, (j - 1) as nat) * 10 >= pow10((j - i - 2) as nat) * 10)
            by (nonlinear_arith)
            requires
                digits_value(s, i, (j - 1) as nat) >= pow10((j - i - 2) as nat),
        ;
    }
}

pub(crate) fn parse_uint(s: &Vec<char>, i: usize) -> (r: Option<(u64, usize)>)
    requires
        i <= s@.len(),
    ensures
        match r {
            Some((n, j)) => sp_uint(s@, i as nat) == Some((n as int, j as nat)) && i < j
                <= s@.len(),
            None => sp_uint(s@, i as nat) matches Some((v, j)) ==> v
                > 0x8000_0000_0000_0000int,
        },
{
    if i < s.len() && is_digit_char(s[i]) {
        if s[i] == '0' {
            return Some((0, i + 1));
        }
        let mut j = i;
        while j < s.len() && is_digit_char(s[j])
            invariant
                i <= j <= s@.len(),
                digits_end(s@, i as nat) == digits_end(s@, j as nat),
                forall|k: int| i <= k < j ==> is_digit(s@[k]),
            decreases s@.len() - j,
        {
            j = j + 1;
        }
        if j - i > 19 {
            proof {
                lemma_digits_value_lower(s@, i as nat, j as nat);
                lemma_pow10_mono(19, (j - i - 1) as nat);
                reveal_with_fuel(pow10, 21);
                assert(pow10(19) == 10_000_000_000_000_000_000int);
            }
            return None;
        }
        let mut acc: u64 = 0;
        let mut p = i;
        proof {
            lemma_pow10_pos(0);
        }
        while p < j
            invariant
                i <= p <= j <= s@.len(),
                j - i <= 19,
                forall|k: int| i <= k < j ==> is_digit(s@[k]),
                acc as int == digits_value(s@, i as nat, p as nat),
                (acc as int) < pow10((p - i) as nat),
            decreases j - p,
        {
            let d = s[p] as u32 - '0' as u32;
            proof {
                assert(is_digit(s@[p as int]));
                lemma_pow10_mono((p - i + 1) as nat, 19);
                reveal_with_fuel(pow10, 21);
                assert(pow10(19) == 10_000_000_000_000_000_000int);
            }
            acc = acc * 10 + (d as u64);
            p = p + 1;
        }
        Some((acc, j))
    } else {
        None
    }
}

pub(crate) fn parse_number(s: &Vec<char>, i: usize) -> (r: Option<(i64, usize)>)
    requires
        i <= s@.len(),
    ensures
        match r {
            Some((n, j)) => sp_number(s@, i as nat) == Some((JsonSpec::Int(n as int), j as nat))
                && i < j <= s@.len(),
            None => sp_number(s@, i as nat) is None,
        },
{
    if i < s.len() && s[i] == '-' {
        match parse_uint(s, i + 1) {
            None => None,
            Some((n, j)) => {
                if n <= 0x8000_0000_0000_0000u64 {
                    let v: i64 = if n == 0x8000_0000_0000_0000u64 {
                        i64::MIN
                    } else {
                        -(n as i64)
                    };
                    Some((v, j))
                } else {
                    None
                }
            },
        }
    } else {
        match parse_uint(s, i) {
            None => None,
            Some((n, j)) => {
                if n <= 0x7fff_ffff_ffff_ffffu64 {
                    Some((n as i64, j))
                } else {
                    None
                }
            },
        }
    }
}


fn parse_value(s: &Vec<char>, i: usize) -> (r: Option<(JsonValue, usize)>)
    requires
        i <= s@.len(),
    ensures
        match r {
            Some((v, j)) => sp_value(s@, i as nat) == Some((model_of(v), j as nat)) && i < j
                <= s@.len(),
            None => sp_value(s@, i as nat) is None,
        },
    decreases s@.len() - i, 1int,
{
    if i >= s.len() {
        return None;
    }
    let c = s[i];
    if c == '"' {
        match parse_string_body(s, i + 1) {
            None => None,
            Some((t, j)) => Some((JsonValue::Str(chars_to_string(&t)), j)),
        }
    } else if c == 't' {
        if s.len() - i >= 4 && s[i + 1] == 'r' && s[i + 2] == 'u' && s[i + 3] == 'e' {
            Some((JsonValue::Bool(true), i + 4))
        } else {
            None
        }
    } else if c == 'f' {
        if s.len() - i >= 5 && s[i + 1] == 'a' && s[i + 2] == 'l' && s[i + 3] == 's' && s[i + 4]
            == 'e' {
            Some((JsonValue::Bool(false), i + 5))
        } else {
            None
        }
    } else if c == 'n' {
        if s.len() - i >= 4 && s[i + 1] == 'u' && s[i + 2] == 'l' && s[i + 3] == 'l' {
            Some((JsonValue::Null, i + 4))
        } else {
            None
        }
    } else if c == '[' {
        let j = skip_ws_exec(s, i + 1);
        if j < s.len() && s[j] == ']' {
            let items: Vec<JsonValue> = Vec::new();
            proof {
                assert(models_of_items(items@) =~= Seq::<JsonSpec>::empty());
            }
            Some((JsonValue::Arr(items), j + 1))
        } else {
            match parse_elements(s, j) {
                None => None,
                Some((items, k)) => Some((JsonValue::Arr(items), k)),
            }
        }
    } else if c == '{' {
        let j = skip_ws_exec(s, i + 1);
        if j < s.len() && s[j] == '}' {
            let members: Vec<(String, JsonValue)> = Vec::new();
            proof {
                assert(models_of_members(members@) =~= Seq::<(Seq<char>, JsonSpec)>::empty());
            }
            Some((JsonValue::Obj(members), j + 1))
        } else {
            match parse_members(s, j) {
                None => None,
                Some((members, k)) => Some((JsonValue::Obj(members), k)),
            }
        }
    } else {
        match parse_number(s, i) {
            None => None,
            Some((n, j)) => Some((JsonValue::Int(n), j)),
        }
    }
}

fn parse_elements(s: &Vec<char>, i: usize) -> (r: Option<(Vec<JsonValue>, usize)>)
    requires
        i <= s@.len(),
    ensures
        match r {
            Some((items, k)) => sp_elements(s@, i as nat) == Some(
                (models_of_items(items@), k as nat),
            ) && i < k <= s@.len(),
            None => sp_elements(s@, i as nat) is None,
        },
    decreases s@.len() - i, 2int,
{
    match parse_value(s, i) {
        None => None,
        Some((v, j0)) => {
            let j = skip_ws_exec(s, j0);
            if j < s.len() && s[j] == ']' {
                let mut items: Vec<JsonValue> = Vec::new();
                items.push(v);
                proof {
                    assert(items@ =~= seq![v]);
                    assert(seq![v].drop_first() =~= Seq::<JsonValue>::empty());
                    assert(models_of_items(seq![v].drop_first()) =~= Seq::<JsonSpec>::empty());
                    assert(models_of_items(seq![v]) =~= seq![model_of(v)]);
                }
                Some((items, j + 1))
            } else if j < s.len() && s[j] == ',' {
                let k0 = skip_ws_exec(s, j + 1);
                match parse_elements(s, k0) {
                    None => None,
                    Some((items0, k)) => {
                        let ghost rest = items0@;
                        let mut items = items0;
                        items.insert(0, v);
                        proof {
                            assert(items@ =~= seq![v] + rest);
                            assert((seq![v] + rest).drop_first() =~= rest);
                            assert(models_of_items(seq![v] + rest) =~= seq![model_of(v)]
                                + models_of_items(rest));
                        }
                        Some((items, k))
                    },
                }
            } else {
                None
            }
        },
    }
}

fn parse_members(s: &Vec<char>, i: usize) -> (r: Option<(Vec<(String, JsonValue)>, usize)>)
    requires
        i <= s@.len(),
    ensures
        match r {
            Some((members, m)) => sp_members(s@, i as nat) == Some(
                (models_of_members(members@), m as nat),
            ) && i < m <= s@.len(),
            None => sp_members(s@, i as nat) is None,
        },
    decreases s@.len() - i, 2int,
{
    if i < s.len() && s[i] == '"' {
        match parse_string_body(s, i + 1) {
            None => None,
            Some((kt, j0)) => {
                let key = chars_to_string(&kt);
                let j = skip_ws_exec(s, j0);
                if j < s.len() && s[j] == ':' {
                    let vi = skip_ws_exec(s, j + 1);
                    match parse_value(s, vi) {
                        None => None,
                        Some((v, k0)) => {
                            let k = skip_ws_exec(s, k0);
                            if k < s.len() && s[k] == '}' {
                                let mut members: Vec<(String, JsonValue)> = Vec::new();
                                members.push((key, v));
                                proof {
                                    assert(members@ =~= seq![(key, v)]);
                                    assert(seq![(key, v)].drop_first() =~= Seq::<(
                                        String,
                                        JsonValue,
                                    )>::empty());
                                    assert(models_of_members(seq![(key, v)].drop_first()) =~= Seq::<
                                        (Seq<char>, JsonSpec),
                                    >::empty());
                                    assert(models_of_members(seq![(key, v)]) =~= seq![
                                        (key@, model_of(v)),
                                    ]);
                                }
                                Some((members, k + 1))
                            } else if k < s.len() && s[k] == ',' {
                                let m0 = skip_ws_exec(s, k + 1);
                                match parse_members(s, m0) {
                                    None => None,
                                    Some((members0, m)) => {
                                        let ghost rest = members0@;
                                        let mut members = members0;
                                        members.insert(0, (key, v));
                                        proof {
                                            assert(members@ =~= seq![(key, v)] + rest);
                                            assert((seq![(key, v)] + rest).drop_first() =~= rest);
                                            assert(models_of_members(seq![(key, v)] + rest) =~=
                                                seq![(key@, model_of(v))] + models_of_members(
                                                rest,
                                            ));
                                        }
                                        Some((members, m))
                                    },
                                }
                            } else {
                                None
                            }
                        },
                    }
                } else {
                    None
                }
            },
        }
    } else {
        None
    }
}

/// Parse a whole text as one JSON document.
pub fn parse_json(text: &str) -> (r: Option<JsonValue>)
    ensures
        match r {
            Some(v) => sp_json(text@) == Some(model_of(v)),
            None => sp_json(text@) is None,
        },
{
    let s = str_to_chars(text);
    let i = skip_ws_exec(&s, 0);
    match parse_value(&s, i) {
        None => None,
        Some((v, j)) => {
            let k = skip_ws_exec(&s, j);
            if k == s.len() {
                Some(v)
            } else {
                None
            }
        },
    }
}


// ---------------------------------------------------------------------------
// Writing: producing the text of a JSON string literal.
// ---------------------------------------------------------------------------

/// A hexadecimal digit character for a value below sixteen, lower case.
pub open spec fn spec_hex_digit(n: nat) -> char {
    if n == 0 { '0' } else if n == 1 { '1' } else if n == 2 { '2' } else if n == 3 { '3' }
    else if n == 4 { '4' } else if n == 5 { '5' } else if n == 6 { '6' } else if n == 7 { '7' }
    else if n == 8 { '8' } else if n == 9 { '9' } else if n == 10 { 'a' } else if n == 11 { 'b' }
    else if n == 12 { 'c' } else if n == 13 { 'd' } else if n == 14 { 'e' } else { 'f' }
}

pub(crate) fn hex_digit(n: u32) -> (c: char)
    requires
        n < 16,
    ensures
        c == spec_hex_digit(n as nat),
{
    match n {
        0 => '0',
        1 => '1',
        2 => '2',
        3 => '3',
        4 => '4',
        5 => '5',
        6 => '6',
        7 => '7',
        8 => '8',
        9 => '9',
        10 => 'a',
        11 => 'b',
        12 => 'c',
        13 => 'd',
        14 => 'e',
        _ => 'f',
    }
}

/// How one character is written inside a JSON string literal: itself,
/// a short escape, or a unicode escape for the other control characters.
pub open spec fn esc_char(c: char) -> Seq<char> {
    if c == '"' {
        seq!['\\', '"']
    } else if c == '\\' {
        seq!['\\', '\\']
    } else if c == '\u{8}' {
        seq!['\\', 'b']
    } else if c == '\u{c}' {
        seq!['\\', 'f']
    } else if c == '\n' {
        seq!['\\', 'n']
    } else if c == '\r' {
        seq!['\\', 'r']
    } else if c == '\t' {
        seq!['\\', 't']
    } else if (c as u32) < 0x20 {
        seq!['\\', 'u', '0', '0', spec_hex_digit((c as u32 / 16) as nat), spec_hex_digit(
            (c as u32 % 16) as nat,
        )]
    } else {
        seq![c]
    }
}

/// How a whole string is written between its quotes.
pub open spec fn esc_string(t: Seq<char>) -> Seq<char>
    decreases t,
{
    if t.len() == 0 {
        Seq::empty()
    } else {
        esc_char(t[0]) + esc_string(t.drop_first())
    }
}

/// A complete JSON string literal.
pub open spec fn quoted(t: Seq<char>) -> Seq<char> {
    seq!['"'] + esc_string(t) + seq!['"']
}

pub proof fn lemma_esc_string_snoc(t: Seq<char>, c: char)
    ensures
        esc_string(t.push(c)) == esc_string(t) + esc_char(c),
    decreases t,
{
    if t.len() == 0 {
        assert(t.push(c)[0] == c);
        assert(t.push(c).drop_first() =~= Seq::<char>::empty());
        assert(esc_string(t.push(c).drop_first()) =~= Seq::<char>::empty());
        assert(esc_string(t.push(c)) =~= esc_string(t) + esc_char(c));
    } else {
        lemma_esc_string_snoc(t.drop_first(), c);
        assert(t.push(c).drop_first() =~= t.drop_first().push(c));
        assert(esc_string(t.push(c)) =~= esc_string(t) + esc_char(c));
    }
}

/// Append one escaped character.
pub(crate) fn push_esc_char(out: &mut Vec<char>, c: char)
    ensures
        final(out)@ == old(out)@ + esc_char(c),
{
    let ghost start = out@;
    if c == '"' {
        out.push('\\');
        out.push('"');
    } else if c == '\\' {
        out.push('\\');
        out.push('\\');
    } else if c == '\u{8}' {
        out.push('\\');
        out.push('b');
    } else if c == '\u{c}' {
        out.push('\\');
        out.push('f');
    } else if c == '\n' {
        out.push('\\');
        out.push('n');
    } else if c == '\r' {
        out.push('\\');
        out.push('r');
    } else if c == '\t' {
        out.push('\\');
        out.push('t');
    } else if (c as u32) < 0x20 {
        let n = c as u32;
        out.push('\\');
        out.push('u');
        out.push('0');
        out.push('0');
        out.push(hex_digit(n / 16));
        out.push(hex_digit(n % 16));
    } else {
        out.push(c);
    }
    proof {
        assert(out@ =~= start + esc_char(c));
    }
}

/// Append a whole JSON string literal, quotes included.
pub(crate) fn push_quoted(out: &mut Vec<char>, t: &str)
    ensures
        final(out)@ == old(out)@ + quoted(t@),
{
    let ghost start = out@;
    out.push('"');
    let n = t.unicode_len();
    let mut i: usize = 0;
    proof {
        assert(t@.take(0) =~= Seq::<char>::empty());
    }
    while i < n
        invariant
            n == t@.len(),
            i <= n,
            out@ == start + seq!['"'] + esc_string(t@.take(i as int)),
        decreases n - i,
    {
        let c = t.get_char(i);
        proof {
            assert(t@.take(i as int + 1) =~= t@.take(i as int).push(t@[i as int]));
            lemma_esc_string_snoc(t@.take(i as int), t@[i as int]);
        }
        push_esc_char(out, c);
        i = i + 1;
    }
    out.push('"');
    proof {
        assert(t@.take(n as int) =~= t@);
        assert(out@ =~= start + quoted(t@));
    }
}

/// Append the characters of a string slice as they are.
pub(crate) fn push_str_chars(out: &mut Vec<char>, lit: &str)
    ensures
        final(out)@ == old(out)@ + lit@,
{
    let ghost start = out@;
    let n = lit.unicode_len();
    let mut i: usize = 0;
    while i < n
        invariant
            n == lit@.len(),
            i <= n,
            out@ == start + lit@.take(i as int),
        decreases n - i,
    {
        out.push(lit.get_char(i));
        proof {
            assert(start + lit@.take(i as int) + seq![lit@[i as int]] =~= start + lit@.take(
                i as int + 1,
            ));
        }
        i = i + 1;
    }
    proof {
        assert(lit@.take(n as int) =~= lit@);
        assert(start + lit@.take(n as int) =~= start + lit@);
    }
}


/// Reading a written string literal gives back the original characters:
/// wherever `esc_string(t)` followed by a closing quote stands in a text,
/// the string grammar accepts exactly it and denotes `t`.
#[verifier::rlimit(100)]
pub proof fn lemma_parse_escaped(pre: Seq<char>, t: Seq<char>, suf: Seq<char>)
    ensures
        sp_string_body(pre + esc_string(t) + seq!['"'] + suf, pre.len()) == Some(
            (t, (pre.len() + esc_string(t).len() + 1) as nat),
        ),
    decreases t.len(),
{
    let s = pre + esc_string(t) + seq!['"'] + suf;
    if t.len() == 0 {
        assert(t =~= Seq::<char>::empty());
        assert(s[pre.len() as int] == '"');
    } else {
        let c = t[0];
        let e = esc_char(c);
        let t2 = t.drop_first();
        let pre2 = pre + e;
        assert(esc_string(t) == e + esc_string(t2));
        assert(s =~= pre2 + esc_string(t2) + seq!['"'] + suf);
        lemma_parse_escaped(pre2, t2, suf);
        let i = pre.len();
        assert(seq![c] + t2 =~= t);
        if c == '"' || c == '\\' || c == '\u{8}' || c == '\u{c}' || c == '\n' || c == '\r' || c
            == '\t' {
            assert(s[i as int] == '\\');
            assert(s[i + 1int] == e[1]);
            assert(sp_escape(s, i) == Some((c, i + 2)));
        } else if (c as u32) < 0x20 {
            let hi = (c as u32 / 16) as nat;
            let lo = (c as u32 % 16) as nat;
            assert(s[i as int] == '\\');
            assert(s[i + 1int] == 'u');
            assert(s[i + 2int] == '0');
            assert(s[i + 3int] == '0');
            assert(s[i + 4int] == spec_hex_digit(hi));
            assert(s[i + 5int] == spec_hex_digit(lo));
            assert(hex_val('0') == Some(0nat));
            assert(hi < 16 && lo < 16);
            assert(hex_val(spec_hex_digit(hi)) == Some(hi));
            assert(hex_val(spec_hex_digit(lo)) == Some(lo));
            let n = 0 * 0x1000 + 0 * 0x100 + hi * 0x10 + lo;
            assert(n == c as u32);
            vstd::utf8::char_u32_cast(c, n as u32);
            assert((n as u32) as char == c);
            assert(sp_escape(s, i) == Some((c, i + 6)));
        } else {
            assert(s[i as int] == c);
            assert(s[i as int] != '"' && s[i as int] != '\\' && !((s[i as int] as u32) < 0x20));
        }
        assert(sp_string_body(s, pre.len()) == Some(
            (t, (pre.len() + esc_string(t).len() + 1) as nat),
        ));
    }
}


// ---------------------------------------------------------------------------
// Reading fields out of a decoded object.
// ---------------------------------------------------------------------------

/// The string held by `key`, if the field is there and is a string.
pub open spec fn field_str(m: Seq<(Seq<char>, JsonSpec)>, key: Seq<char>) -> Option<Seq<char>> {
    match obj_get(m, key) {
        Some(JsonSpec::Str(s)) => Some(s),
        _ => None,
    }
}

/// The integer held by `key`, if the field is there and is a number.
pub open spec fn field_int(m: Seq<(Seq<char>, JsonSpec)>, key: Seq<char>) -> Option<int> {
    match obj_get(m, key) {
        Some(JsonSpec::Int(n)) => Some(n),
        _ => None,
    }
}

/// The boolean held by `key`, if the field is there and is a boolean.
pub open spec fn field_bool(m: Seq<(Seq<char>, JsonSpec)>, key: Seq<char>) -> Option<bool> {
    match obj_get(m, key) {
        Some(JsonSpec::Bool(b)) => Some(b),
        _ => None,
    }
}

/// The elements held by `key`, if the field is there and is an array.
pub open spec fn field_arr(m: Seq<(Seq<char>, JsonSpec)>, key: Seq<char>) -> Option<
    Seq<JsonSpec>,
> {
    match obj_get(m, key) {
        Some(JsonSpec::Arr(items)) => Some(items),
        _ => None,
    }
}

/// The members held by `key`, if the field is there and is an object.
pub open spec fn field_obj(m: Seq<(Seq<char>, JsonSpec)>, key: Seq<char>) -> Option<
    Seq<(Seq<char>, JsonSpec)>,
> {
    match obj_get(m, key) {
        Some(JsonSpec::Obj(members)) => Some(members),
        _ => None,
    }
}

/// The value held by `key`, where an absent field and an explicit
/// `null` both count as nothing, as the upstream schema treats them.
pub open spec fn field_opt(m: Seq<(Seq<char>, JsonSpec)>, key: Seq<char>) -> Option<JsonSpec> {
    match obj_get(m, key) {
        None => None,
        Some(JsonSpec::Null) => None,
        Some(j) => Some(j),
    }
}

proof fn lemma_models_of_members_skip(m: Seq<(String, JsonValue)>, i: int)
    requires
        0 <= i <= m.len(),
    ensures
        models_of_members(m.skip(i)).len() == m.len() - i,
        forall|k: int|
            0 <= k < m.len() - i ==> models_of_members(m.skip(i))[k] == (
                m[i + k].0@,
                model_of(m[i + k].1),
            ),
    decreases m.len() - i,
{
    if i < m.len() {
        lemma_models_of_members_skip(m, i + 1);
        assert(m.skip(i).drop_first() =~= m.skip(i + 1));
        assert(models_of_members(m.skip(i)) == seq![(m[i].0@, model_of(m[i].1))]
            + models_of_members(m.skip(i + 1)));
    } else {
        assert(m.skip(i) =~= Seq::<(String, JsonValue)>::empty());
    }
}

fn get_field_from<'a>(members: &'a Vec<(String, JsonValue)>, i: usize, key: &String) -> (r: Option<
    &'a JsonValue,
>)
    requires
        i <= members@.len(),
    ensures
        match r {
            Some(v) => obj_get(models_of_members(members@.skip(i as int)), key@) == Some(
                model_of(*v),
            ),
            None => obj_get(models_of_members(members@.skip(i as int)), key@) is None,
        },
    decreases members@.len() - i,
{
    if i == members.len() {
        proof {
            assert(members@.skip(i as int) =~= Seq::<(String, JsonValue)>::empty());
            assert(models_of_members(members@.skip(i as int)) =~= Seq::<(
                Seq<char>,
                JsonSpec,
            )>::empty());
        }
        None
    } else {
        proof {
            assert(members@.skip(i as int).drop_first() =~= members@.skip(i as int + 1));
            assert(members@.skip(i as int)[0] == members@[i as int]);
        }
        if members[i].0 == *key {
            proof {
                let m = models_of_members(members@.skip(i as int));
                assert(m == seq![
                    (members@.skip(i as int)[0].0@, model_of(members@.skip(i as int)[0].1)),
                ] + models_of_members(members@.skip(i as int).drop_first()));
                assert(m[0] == (members@[i as int].0@, model_of(members@[i as int].1)));
                assert(obj_get(m, key@) == Some(m[0].1));
            }
            Some(&members[i].1)
        } else {
            proof {
                let m = models_of_members(members@.skip(i as int));
                assert(m == seq![
                    (members@.skip(i as int)[0].0@, model_of(members@.skip(i as int)[0].1)),
                ] + models_of_members(members@.skip(i as int).drop_first()));
                assert(m[0] == (members@[i as int].0@, model_of(members@[i as int].1)));
                assert(m.drop_first() =~= models_of_members(members@.skip(i as int + 1)));
                assert(obj_get(m, key@) == obj_get(
                    models_of_members(members@.skip(i as int + 1)),
                    key@,
                ));
            }
            get_field_from(members, i + 1, key)
        }
    }
}

/// The first value bound to `key` among an object's members.
pub fn get_field<'a>(members: &'a Vec<(String, JsonValue)>, key: &str) -> (r: Option<
    &'a JsonValue,
>)
    ensures
        match r {
            Some(v) => obj_get(models_of_members(members@), key@) == Some(model_of(*v)),
            None => obj_get(models_of_members(members@), key@) is None,
        },
{
    let k = String::from_str(key);
    proof {
        assert(members@.skip(0) =~= members@);
    }
    get_field_from(members, 0, &k)
}

/// The string field named `key`, copied out.
pub fn get_str(members: &Vec<(String, JsonValue)>, key: &str) -> (r: Option<String>)
    ensures
        match r {
            Some(t) => field_str(models_of_members(members@), key@) == Some(t@),
            None => field_str(models_of_members(members@), key@) is None,
        },
{
    match get_field(members, key) {
        Some(JsonValue::Str(s)) => Some(s.clone()),
        _ => None,
    }
}

/// The integer field named `key`.
pub fn get_i64(members: &Vec<(String, JsonValue)>, key: &str) -> (r: Option<i64>)
    ensures
        match r {
            Some(n) => field_int(models_of_members(members@), key@) == Some(n as int),
            None => field_int(models_of_members(members@), key@) is None,
        },
{
    match get_field(members, key) {
        Some(JsonValue::Int(n)) => Some(*n),
        _ => None,
    }
}

/// The boolean field named `key`.
pub fn get_bool(members: &Vec<(String, JsonValue)>, key: &str) -> (r: Option<bool>)
    ensures
        match r {
            Some(b) => field_bool(models_of_members(members@), key@) == Some(b),
            None => field_bool(models_of_members(members@), key@) is None,
        },
{
    match get_field(members, key) {
        Some(JsonValue::Bool(b)) => Some(*b),
        _ => None,
    }
}

/// The array field named `key`.
pub fn get_arr<'a>(members: &'a Vec<(String, JsonValue)>, key: &str) -> (r: Option<
    &'a Vec<JsonValue>,
>)
    ensures
        match r {
            Some(items) => field_arr(models_of_members(members@), key@) == Some(
                models_of_items(items@),
            ),
            None => field_arr(models_of_members(members@), key@) is None,
        },
{
    match get_field(members, key) {
        Some(JsonValue::Arr(items)) => Some(items),
        _ => None,
    }
}

/// The object field named `key`.
pub fn get_obj<'a>(members: &'a Vec<(String, JsonValue)>, key: &str) -> (r: Option<
    &'a Vec<(String, JsonValue)>,
>)
    ensures
        match r {
            Some(inner) => field_obj(models_of_members(members@), key@) == Some(
                models_of_members(inner@),
            ),
            None => field_obj(models_of_members(members@), key@) is None,
        },
{
    match get_field(members, key) {
        Some(JsonValue::Obj(inner)) => Some(inner),
        _ => None,
    }
}

/// The field named `key`, with an absent field and a `null` alike
/// giving nothing.
pub fn get_opt<'a>(members: &'a Vec<(String, JsonValue)>, key: &str) -> (r: Option<
    &'a JsonValue,
>)
    ensures
        match r {
            Some(v) => field_opt(models_of_members(members@), key@) == Some(model_of(*v))
                && !(v is Null),
            None => field_opt(models_of_members(members@), key@) is None,
        },
{
    match get_field(members, key) {
        Some(JsonValue::Null) => None,
        Some(v) => Some(v),
        None => None,
    }
}


pub proof fn lemma_models_of_members_all(m: Seq<(String, JsonValue)>)
    ensures
        models_of_members(m).len() == m.len(),
        forall|k: int|
            0 <= k < m.len() ==> models_of_members(m)[k] == (m[k].0@, model_of(m[k].1)),
    decreases m.len(),
{
    if m.len() > 0 {
        lemma_models_of_members_all(m.drop_first());
    }
}


impl Clone for JsonValue {
    /// A deep copy with the same model.
    fn clone(&self) -> (r: Self)
        ensures
            model_of(r) == model_of(*self),
    {
        clone_json(self)
    }
}

/// A deep copy of a document.
#[verifier::loop_isolation(false)]
pub fn clone_json(v: &JsonValue) -> (r: JsonValue)
    ensures
        model_of(r) == model_of(*v),
    decreases *v,
{
    match v {
        JsonValue::Null => JsonValue::Null,
        JsonValue::Bool(b) => JsonValue::Bool(*b),
        JsonValue::Int(n) => JsonValue::Int(*n),
        JsonValue::Str(s) => JsonValue::Str(s.clone()),
        JsonValue::Arr(items) => {
            let mut out: Vec<JsonValue> = Vec::new();
            let mut k: usize = 0;
            proof {
                lemma_models_of_items_all(items@);
            }
            while k < items.len()
                invariant
                    k <= items@.len(),
                    out@.len() == k,
                    forall|q: int|
                        0 <= q < k ==> models_of_items(items@)[q] == model_of(#[trigger] out@[q]),
                    models_of_items(items@).len() == items@.len(),
                    forall|q: int|
                        0 <= q < items@.len() ==> models_of_items(items@)[q] == model_of(
                            items@[q],
                        ),
                decreases items@.len() - k,
            {
                proof {
                    let vv = *v;
                    assert(vv is Arr);
                    assert(vv->Arr_0 == *items);
                    assert(decreases_to!(vv => vv->Arr_0));
                    assert(decreases_to!(*items => items@));
                    assert(decreases_to!(items@ => items@[k as int]));
                    assert(decreases_to!(*v => items@[k as int]));
                }
                let c = clone_json(&items[k]);
                out.push(c);
                k = k + 1;
            }
            proof {
                lemma_models_of_items_all(out@);
                assert(models_of_items(out@) =~= models_of_items(items@));
            }
            JsonValue::Arr(out)
        },
        JsonValue::Obj(members) => {
            let mut out: Vec<(String, JsonValue)> = Vec::new();
            let mut k: usize = 0;
            proof {
                lemma_models_of_members_all(members@);
            }
            while k < members.len()
                invariant
                    k <= members@.len(),
                    out@.len() == k,
                    forall|q: int|
                        0 <= q < k ==> models_of_members(members@)[q] == (
                            (#[trigger] out@[q]).0@,
                            model_of(out@[q].1),
                        ),
                    models_of_members(members@).len() == members@.len(),
                    forall|q: int|
                        0 <= q < members@.len() ==> models_of_members(members@)[q] == (
                            members@[q].0@,
                            model_of(members@[q].1),
                        ),
                decreases members@.len() - k,
            {
                proof {
                    let vv = *v;
                    assert(vv is Obj);
                    assert(vv->Obj_0 == *members);
                    assert(decreases_to!(vv => vv->Obj_0));
                    assert(decreases_to!(*members => members@));
                    assert(decreases_to!(members@ => members@[k as int]));
                    assert(decreases_to!(members@[k as int] => members@[k as int].1));
                    assert(decreases_to!(*v => members@[k as int].1));
                }
                let c = clone_json(&members[k].1);
                let key = members[k].0.clone();
                out.push((key, c));
                k = k + 1;
            }
            proof {
                lemma_models_of_members_all(out@);
                assert(models_of_members(out@) =~= models_of_members(members@));
            }
            JsonValue::Obj(out)
        },
    }
}

pub proof fn lemma_models_of_items_all(items: Seq<JsonValue>)
    ensures
        models_of_items(items).len() == items.len(),
        forall|k: int|
            0 <= k < items.len() ==> models_of_items(items)[k] == model_of(items[k]),
    decreases items.len(),
{
    if items.len() > 0 {
        lemma_models_of_items_all(items.drop_first());
    }
}

} // verus!

