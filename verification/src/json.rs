//! A verified decoder for the availability response.
//!
//! The upstream answers one JSON object. The schema asks for six members,
//! each exactly once, in any order, with any whitespace between tokens:
//! the availability flag (a boolean), the day and radius counts (unsigned
//! integers) and three location strings. A schema string is plain
//! printable ASCII without escapes — the state code, state name and zip
//! code this API answers are such text, and anything else is reported as
//! a decode failure, never a crash. Members the schema does not name are
//! skipped unread, whatever their shape: nested objects and arrays,
//! strings with escapes or non-ASCII bytes, any number text, booleans and
//! null. The grammar and the schema are defined by spec functions, and
//! the decoder returns exactly what they say.
//!
//! Byte values are written in hexadecimal: `0x22` is `"`, `0x2C` is `,`,
//! `0x3A` is `:`, `0x5C` is `\`, `0x7B` is `{`, `0x7D` is `}`.

use crate::text::push_char;
use vstd::prelude::*;

verus! {

/// JSON whitespace: space, tab, line feed, carriage return.
pub open spec fn is_ws(b: u8) -> bool {
    b == 0x20 || b == 0x09 || b == 0x0A || b == 0x0D
}

/// An ASCII decimal digit.
pub open spec fn is_digit(b: u8) -> bool {
    0x30 <= b <= 0x39
}

/// A byte that may stand unescaped inside a string: printable ASCII other
/// than the quote and the backslash.
pub open spec fn is_plain_str_byte(b: u8) -> bool {
    0x20 <= b <= 0x7E && b != 0x22 && b != 0x5C
}

/// The first index at or after `i` that does not hold whitespace.
pub open spec fn spec_skip_ws(s: Seq<u8>, i: int) -> int
    decreases s.len() - i,
        when 0 <= i <= s.len()
{
    if i < s.len() && is_ws(s[i]) {
        spec_skip_ws(s, i + 1)
    } else {
        i
    }
}

/// Scans the inside of a string from `i`: the index just past the closing
/// quote, if every byte up to it may stand in a string.
pub open spec fn spec_str_end(s: Seq<u8>, i: int) -> Option<int>
    decreases s.len() - i,
        when 0 <= i <= s.len()
{
    if i >= s.len() {
        None
    } else if s[i] == 0x22 {
        Some(i + 1)
    } else if is_plain_str_byte(s[i]) {
        spec_str_end(s, i + 1)
    } else {
        None
    }
}

/// The first index at or after `i` that does not hold a digit.
pub open spec fn spec_digits_end(s: Seq<u8>, i: int) -> int
    decreases s.len() - i,
        when 0 <= i <= s.len()
{
    if i < s.len() && is_digit(s[i]) {
        spec_digits_end(s, i + 1)
    } else {
        i
    }
}

/// The value of the digits in `[lo, hi)` on top of `acc`, unless it would
/// not fit in a `u64`.
pub open spec fn spec_num_val(s: Seq<u8>, lo: int, hi: int, acc: u64) -> Option<u64>
    decreases hi - lo,
{
    if lo >= hi {
        Some(acc)
    } else {
        let d = s[lo] as int - 0x30;
        if acc as int > (18446744073709551615 - d) / 10 {
            None
        } else {
            spec_num_val(s, lo + 1, hi, (acc as int * 10 + d) as u64)
        }
    }
}

/// One scalar member value. String values are kept as the span of their
/// bytes between the quotes.
pub enum SpecVal {
    Bool(bool),
    Num(u64),
    Str(int, int),
    Null,
}

/// The scalar value starting at `i`, with the index just past it.
pub open spec fn spec_parse_value(s: Seq<u8>, i: int) -> Option<(int, SpecVal)> {
    if i < 0 || i >= s.len() {
        None
    } else if s[i] == 0x22 {
        match spec_str_end(s, i + 1) {
            None => None,
            Some(e) => Some((e, SpecVal::Str(i + 1, e - 1))),
        }
    } else if s[i] == 0x74 {  // 't'
        if i + 4 <= s.len() && s[i + 1] == 0x72 && s[i + 2] == 0x75 && s[i + 3] == 0x65 {
            Some((i + 4, SpecVal::Bool(true)))
        } else {
            None
        }
    } else if s[i] == 0x66 {  // 'f'
        if i + 5 <= s.len() && s[i + 1] == 0x61 && s[i + 2] == 0x6C && s[i + 3] == 0x73 && s[i + 4]
            == 0x65 {
            Some((i + 5, SpecVal::Bool(false)))
        } else {
            None
        }
    } else if s[i] == 0x6E {  // 'n'
        if i + 4 <= s.len() && s[i + 1] == 0x75 && s[i + 2] == 0x6C && s[i + 3] == 0x6C {
            Some((i + 4, SpecVal::Null))
        } else {
            None
        }
    } else if is_digit(s[i]) {
        let e = spec_digits_end(s, i);
        match spec_num_val(s, i, e, 0) {
            None => None,
            Some(v) => Some((e, SpecVal::Num(v))),
        }
    } else {
        None
    }
}

/// A byte of loose number text: digits, signs, the dot and the exponent
/// letters. Used only to skip numbers in ignored members.
pub open spec fn is_numberish(b: u8) -> bool {
    is_digit(b) || b == 0x2B || b == 0x2D || b == 0x2E || b == 0x65 || b == 0x45
}

/// The first index at or after `i` past loose number text.
pub open spec fn spec_numberish_end(s: Seq<u8>, i: int) -> int
    decreases s.len() - i,
        when 0 <= i <= s.len()
{
    if i < s.len() && is_numberish(s[i]) {
        spec_numberish_end(s, i + 1)
    } else {
        i
    }
}

/// Scans the inside of a string of any content from `i`: an escape covers
/// the next byte whatever it is, any other byte but a raw control byte
/// stands for itself. The index just past the closing quote.
pub open spec fn spec_skip_string(s: Seq<u8>, i: int) -> Option<int>
    decreases s.len() - i,
        when 0 <= i <= s.len()
{
    if i >= s.len() {
        None
    } else if s[i] == 0x22 {
        Some(i + 1)
    } else if s[i] == 0x5C {
        if i + 1 >= s.len() {
            None
        } else {
            spec_skip_string(s, i + 2)
        }
    } else if s[i] >= 0x20 {
        spec_skip_string(s, i + 1)
    } else {
        None
    }
}

/// The index just past one ignored JSON value of any shape at `i`: an
/// object, an array, a string, loose number text or a keyword.
pub open spec fn spec_skip_value(s: Seq<u8>, i: int) -> Option<int>
    decreases s.len() - i, 0int,
        when 0 <= i <= s.len()
{
    if i >= s.len() {
        None
    } else if s[i] == 0x22 {
        spec_skip_string(s, i + 1)
    } else if s[i] == 0x7B {
        let j = spec_skip_ws(s, i + 1);
        if i < j <= s.len() {
            if j < s.len() && s[j] == 0x7D {
                Some(j + 1)
            } else {
                spec_skip_object_rest(s, j)
            }
        } else {
            None
        }
    } else if s[i] == 0x5B {
        let j = spec_skip_ws(s, i + 1);
        if i < j <= s.len() {
            if j < s.len() && s[j] == 0x5D {
                Some(j + 1)
            } else {
                spec_skip_array_rest(s, j)
            }
        } else {
            None
        }
    } else if s[i] == 0x74 {
        if s.len() - i >= 4 && s[i + 1] == 0x72 && s[i + 2] == 0x75 && s[i + 3] == 0x65 {
            Some(i + 4)
        } else {
            None
        }
    } else if s[i] == 0x66 {
        if s.len() - i >= 5 && s[i + 1] == 0x61 && s[i + 2] == 0x6C && s[i + 3] == 0x73 && s[i + 4]
            == 0x65 {
            Some(i + 5)
        } else {
            None
        }
    } else if s[i] == 0x6E {
        if s.len() - i >= 4 && s[i + 1] == 0x75 && s[i + 2] == 0x6C && s[i + 3] == 0x6C {
            Some(i + 4)
        } else {
            None
        }
    } else if s[i] == 0x2D || is_digit(s[i]) {
        Some(spec_numberish_end(s, i + 1))
    } else {
        None
    }
}

/// Skips `key: value` members of an ignored object, from a key at `i`
/// through the closing brace.
pub open spec fn spec_skip_object_rest(s: Seq<u8>, i: int) -> Option<int>
    decreases s.len() - i, 1int,
        when 0 <= i <= s.len()
{
    if i >= s.len() || s[i] != 0x22 {
        None
    } else {
        match spec_skip_string(s, i + 1) {
            None => None,
            Some(ke) => {
                let c = spec_skip_ws(s, ke);
                if c >= s.len() || s[c] != 0x3A {
                    None
                } else {
                    let vs = spec_skip_ws(s, c + 1);
                    if !(i < vs <= s.len()) {
                        None
                    } else {
                        match spec_skip_value(s, vs) {
                            None => None,
                            Some(j) => {
                                let k = spec_skip_ws(s, j);
                                if k < s.len() && s[k] == 0x2C {
                                    let n = spec_skip_ws(s, k + 1);
                                    if i < n <= s.len() {
                                        spec_skip_object_rest(s, n)
                                    } else {
                                        None
                                    }
                                } else if k < s.len() && s[k] == 0x7D {
                                    Some(k + 1)
                                } else {
                                    None
                                }
                            },
                        }
                    }
                }
            },
        }
    }
}

/// Skips the items of an ignored array, from an item at `i` through the
/// closing bracket.
pub open spec fn spec_skip_array_rest(s: Seq<u8>, i: int) -> Option<int>
    decreases s.len() - i, 1int,
        when 0 <= i <= s.len()
{
    match spec_skip_value(s, i) {
        None => None,
        Some(j) => {
            let k = spec_skip_ws(s, j);
            if k < s.len() && s[k] == 0x2C {
                let n = spec_skip_ws(s, k + 1);
                if i < n <= s.len() {
                    spec_skip_array_rest(s, n)
                } else {
                    None
                }
            } else if k < s.len() && s[k] == 0x5D {
                Some(k + 1)
            } else {
                None
            }
        },
    }
}

/// Whether the bytes `[lo, hi)` spell the ASCII text `t`.
pub open spec fn key_is(s: Seq<u8>, lo: int, hi: int, t: Seq<char>) -> bool {
    s.subrange(lo, hi) == t.map_values(|c: char| c as u8)
}

/// What has been collected of the six schema members so far; string
/// members as byte spans.
pub struct SpecFields {
    pub avail: Option<bool>,
    pub days: Option<u64>,
    pub radius: Option<u64>,
    pub state_code: Option<(int, int)>,
    pub state_name: Option<(int, int)>,
    pub zip: Option<(int, int)>,
}

/// Nothing collected yet.
pub open spec fn spec_fields_empty() -> SpecFields {
    SpecFields {
        avail: None,
        days: None,
        radius: None,
        state_code: None,
        state_name: None,
        zip: None,
    }
}

/// Takes one member into the collection: a schema member must have the
/// right type, fit its width and not repeat; an unknown member is ignored.
pub open spec fn spec_apply(
    s: Seq<u8>,
    acc: SpecFields,
    klo: int,
    khi: int,
    v: SpecVal,
) -> Option<SpecFields> {
    if key_is(s, klo, khi, ("appointmentsAvailable")@) {
        match v {
            SpecVal::Bool(b) => if acc.avail is Some {
                None
            } else {
                Some(SpecFields { avail: Some(b), ..acc })
            },
            _ => None,
        }
    } else if key_is(s, klo, khi, ("days")@) {
        match v {
            SpecVal::Num(n) => if acc.days is Some || n > 255 {
                None
            } else {
                Some(SpecFields { days: Some(n), ..acc })
            },
            _ => None,
        }
    } else if key_is(s, klo, khi, ("radius")@) {
        match v {
            SpecVal::Num(n) => if acc.radius is Some || n > 255 {
                None
            } else {
                Some(SpecFields { radius: Some(n), ..acc })
            },
            _ => None,
        }
    } else if key_is(s, klo, khi, ("stateCode")@) {
        match v {
            SpecVal::Str(lo, hi) => if acc.state_code is Some {
                None
            } else {
                Some(SpecFields { state_code: Some((lo, hi)), ..acc })
            },
            _ => None,
        }
    } else if key_is(s, klo, khi, ("stateName")@) {
        match v {
            SpecVal::Str(lo, hi) => if acc.state_name is Some {
                None
            } else {
                Some(SpecFields { state_name: Some((lo, hi)), ..acc })
            },
            _ => None,
        }
    } else if key_is(s, klo, khi, ("zipCode")@) {
        match v {
            SpecVal::Str(lo, hi) => if acc.zip is Some {
                None
            } else {
                Some(SpecFields { zip: Some((lo, hi)), ..acc })
            },
            _ => None,
        }
    } else {
        Some(acc)
    }
}

/// Whether the bytes `[lo, hi)` spell one of the six schema member names.
pub open spec fn spec_is_schema_key(s: Seq<u8>, lo: int, hi: int) -> bool {
    ||| key_is(s, lo, hi, ("appointmentsAvailable")@)
    ||| key_is(s, lo, hi, ("days")@)
    ||| key_is(s, lo, hi, ("radius")@)
    ||| key_is(s, lo, hi, ("stateCode")@)
    ||| key_is(s, lo, hi, ("stateName")@)
    ||| key_is(s, lo, hi, ("zipCode")@)
}

/// Parses members from the first key at `i` through the closing brace:
/// the index just past the brace and the collected members.
pub open spec fn spec_parse_members(s: Seq<u8>, i: int, acc: SpecFields) -> Option<
    (int, SpecFields),
>
    decreases s.len() - i,
        when 0 <= i <= s.len()
{
    if i >= s.len() || s[i] != 0x22 {
        None
    } else {
        match spec_skip_string(s, i + 1) {
            None => None,
            Some(ke) => {
                let c = spec_skip_ws(s, ke);
                if c >= s.len() || s[c] != 0x3A {
                    None
                } else {
                    let vs = spec_skip_ws(s, c + 1);
                    let step: Option<(int, SpecFields)> = if spec_is_schema_key(
                        s,
                        i + 1,
                        ke - 1,
                    ) {
                        match spec_parse_value(s, vs) {
                            None => None,
                            Some((j, v)) => match spec_apply(s, acc, i + 1, ke - 1, v) {
                                None => None,
                                Some(acc2) => Some((j, acc2)),
                            },
                        }
                    } else {
                        match spec_skip_value(s, vs) {
                            None => None,
                            Some(j) => Some((j, acc)),
                        }
                    };
                    match step {
                        None => None,
                        Some((j, acc2)) => {
                            let k = spec_skip_ws(s, j);
                            if k < s.len() && s[k] == 0x2C {
                                let n = spec_skip_ws(s, k + 1);
                                if i < n <= s.len() {
                                    spec_parse_members(s, n, acc2)
                                } else {
                                    None
                                }
                            } else if k < s.len() && s[k] == 0x7D {
                                Some((k + 1, acc2))
                            } else {
                                None
                            }
                        },
                    }
                }
            },
        }
    }
}

/// The decoded response: the availability flag, the day and radius counts
/// and the three location texts.
pub struct SpecAvailability {
    pub appointments_available: bool,
    pub days: u8,
    pub radius: u8,
    pub state_code: Seq<char>,
    pub state_name: Seq<char>,
    pub zip_code: Seq<char>,
}

/// The characters spelled by the bytes `[lo, hi)`.
pub open spec fn span_text(s: Seq<u8>, lo: int, hi: int) -> Seq<char> {
    s.subrange(lo, hi).map_values(|b: u8| b as char)
}

/// The decoded response, if every schema member was collected.
pub open spec fn spec_finish(s: Seq<u8>, f: SpecFields) -> Option<SpecAvailability> {
    if f.avail is Some && f.days is Some && f.radius is Some && f.state_code is Some
        && f.state_name is Some && f.zip is Some {
        Some(
            SpecAvailability {
                appointments_available: f.avail->0,
                days: f.days->0 as u8,
                radius: f.radius->0 as u8,
                state_code: span_text(s, (f.state_code->0).0, (f.state_code->0).1),
                state_name: span_text(s, (f.state_name->0).0, (f.state_name->0).1),
                zip_code: span_text(s, (f.zip->0).0, (f.zip->0).1),
            },
        )
    } else {
        None
    }
}

/// The whole response: one object, all six schema members, nothing but
/// whitespace around it.
pub open spec fn spec_parse_response(s: Seq<u8>) -> Option<SpecAvailability> {
    let i = spec_skip_ws(s, 0);
    if i < s.len() && s[i] == 0x7B {
        let j = spec_skip_ws(s, i + 1);
        match spec_parse_members(s, j, spec_fields_empty()) {
            None => None,
            Some((e, f)) => if spec_skip_ws(s, e) == s.len() {
                spec_finish(s, f)
            } else {
                None
            },
        }
    } else {
        None
    }
}

// ---------------------------------------------------------------------
// The executable decoder, proved equal to the spec functions above.
// ---------------------------------------------------------------------

/// First non-whitespace index at or after `i`.
fn skip_ws(s: &Vec<u8>, i: usize) -> (r: usize)
    requires
        i <= s@.len(),
    ensures
        r as int == spec_skip_ws(s@, i as int),
        i <= r <= s@.len(),
{
    let mut j = i;
    while j < s.len() && (s[j] == 0x20 || s[j] == 0x09 || s[j] == 0x0A || s[j] == 0x0D)
        invariant
            i <= j <= s@.len(),
            spec_skip_ws(s@, i as int) == spec_skip_ws(s@, j as int),
        decreases s@.len() - j,
    {
        j = j + 1;
    }
    j
}

/// Scans a string body from `i`; the index just past the closing quote.
fn str_end(s: &Vec<u8>, i: usize) -> (r: Option<usize>)
    requires
        i <= s@.len(),
    ensures
        r is Some <==> spec_str_end(s@, i as int) is Some,
        r is Some ==> {
            &&& r->0 as int == spec_str_end(s@, i as int)->0
            &&& i < r->0 <= s@.len()
        },
{
    let mut j = i;
    loop
        invariant
            i <= j <= s@.len(),
            spec_str_end(s@, i as int) == spec_str_end(s@, j as int),
        decreases s@.len() - j,
    {
        if j >= s.len() {
            return None;
        }
        let b = s[j];
        if b == 0x22 {
            return Some(j + 1);
        }
        if !(0x20 <= b && b <= 0x7E && b != 0x5C) {
            return None;
        }
        j = j + 1;
    }
}

/// First non-digit index at or after `i`.
fn digits_end(s: &Vec<u8>, i: usize) -> (r: usize)
    requires
        i <= s@.len(),
    ensures
        r as int == spec_digits_end(s@, i as int),
        i <= r <= s@.len(),
{
    let mut j = i;
    while j < s.len() && 0x30 <= s[j] && s[j] <= 0x39
        invariant
            i <= j <= s@.len(),
            spec_digits_end(s@, i as int) == spec_digits_end(s@, j as int),
        decreases s@.len() - j,
    {
        j = j + 1;
    }
    j
}

/// The value of the digits in `[lo, hi)` on top of `acc`, unless it would
/// not fit in a `u64`.
fn num_val(s: &Vec<u8>, lo: usize, hi: usize, acc: u64) -> (r: Option<u64>)
    requires
        lo <= hi <= s@.len(),
        forall|k: int| lo <= k < hi ==> is_digit(#[trigger] s@[k]),
    ensures
        r == spec_num_val(s@, lo as int, hi as int, acc),
    decreases hi - lo,
{
    if lo >= hi {
        Some(acc)
    } else {
        let d = (s[lo] - 0x30) as u64;
        let max: u64 = 18446744073709551615;
        if acc > (max - d) / 10 {
            None
        } else {
            proof {
                assert(acc * 10 + d <= max) by {
                    assert(acc <= (max - d) / 10);
                    assert(acc * 10 <= ((max - d) / 10) * 10);
                    assert(((max - d) / 10) * 10 <= max - d);
                }
            }
            num_val(s, lo + 1, hi, acc * 10 + d)
        }
    }
}

/// One scalar member value, string values as byte spans.
pub enum JsonVal {
    Bool(bool),
    Num(u64),
    Str(usize, usize),
    Null,
}

impl JsonVal {
    /// The spec view of this scalar.
    pub open spec fn view(&self) -> SpecVal {
        match self {
            JsonVal::Bool(b) => SpecVal::Bool(*b),
            JsonVal::Num(n) => SpecVal::Num(*n),
            JsonVal::Str(lo, hi) => SpecVal::Str(*lo as int, *hi as int),
            JsonVal::Null => SpecVal::Null,
        }
    }
}

/// The scalar value starting at `i`, with the index just past it.
fn parse_value(s: &Vec<u8>, i: usize) -> (r: Option<(usize, JsonVal)>)
    requires
        i <= s@.len(),
    ensures
        r is Some <==> spec_parse_value(s@, i as int) is Some,
        r is Some ==> {
            &&& spec_parse_value(s@, i as int)->0 == ((r->0).0 as int, (r->0).1.view())
            &&& i < (r->0).0 <= s@.len()
            &&& ((r->0).1 is Str ==> (r->0).1->Str_0 <= (r->0).1->Str_1 <= s@.len())
        },
{
    if i >= s.len() {
        return None;
    }
    let b = s[i];
    if b == 0x22 {
        match str_end(s, i + 1) {
            None => None,
            Some(e) => Some((e, JsonVal::Str(i + 1, e - 1))),
        }
    } else if b == 0x74 {
        if s.len() - i >= 4 && s[i + 1] == 0x72 && s[i + 2] == 0x75 && s[i + 3] == 0x65 {
            Some((i + 4, JsonVal::Bool(true)))
        } else {
            None
        }
    } else if b == 0x66 {
        if s.len() - i >= 5 && s[i + 1] == 0x61 && s[i + 2] == 0x6C && s[i + 3] == 0x73 && s[i + 4]
            == 0x65 {
            Some((i + 5, JsonVal::Bool(false)))
        } else {
            None
        }
    } else if b == 0x6E {
        if s.len() - i >= 4 && s[i + 1] == 0x75 && s[i + 2] == 0x6C && s[i + 3] == 0x6C {
            Some((i + 4, JsonVal::Null))
        } else {
            None
        }
    } else if 0x30 <= b && b <= 0x39 {
        let e = digits_end(s, i);
        proof {
            lemma_digits_span(s@, i as int, e as int);
            assert(spec_digits_end(s@, i as int) == spec_digits_end(s@, i as int + 1));
            lemma_digits_span(s@, i as int + 1, e as int);
        }
        match num_val(s, i, e, 0) {
            None => None,
            Some(v) => Some((e, JsonVal::Num(v))),
        }
    } else {
        None
    }
}

/// Every byte scanned over by `spec_digits_end` is a digit.
proof fn lemma_digits_span(s: Seq<u8>, i: int, e: int)
    requires
        0 <= i <= s.len(),
        e == spec_digits_end(s, i),
    ensures
        i <= e <= s.len(),
        forall|k: int| i <= k < e ==> is_digit(#[trigger] s[k]),
    decreases s.len() - i,
{
    if i < s.len() && is_digit(s[i]) {
        lemma_digits_span(s, i + 1, e);
    }
}

/// First index at or after `i` past loose number text.
fn numberish_end(s: &Vec<u8>, i: usize) -> (r: usize)
    requires
        i <= s@.len(),
    ensures
        r as int == spec_numberish_end(s@, i as int),
        i <= r <= s@.len(),
{
    let mut j = i;
    while j < s.len() && ((0x30 <= s[j] && s[j] <= 0x39) || s[j] == 0x2B || s[j] == 0x2D || s[j]
        == 0x2E || s[j] == 0x65 || s[j] == 0x45)
        invariant
            i <= j <= s@.len(),
            spec_numberish_end(s@, i as int) == spec_numberish_end(s@, j as int),
        decreases s@.len() - j,
    {
        j = j + 1;
    }
    j
}

/// Scans a string of any content; the index just past the closing quote.
fn skip_string(s: &Vec<u8>, i: usize) -> (r: Option<usize>)
    requires
        i <= s@.len(),
    ensures
        r is Some <==> spec_skip_string(s@, i as int) is Some,
        r is Some ==> {
            &&& r->0 as int == spec_skip_string(s@, i as int)->0
            &&& i < r->0 <= s@.len()
        },
{
    let mut j = i;
    loop
        invariant
            i <= j <= s@.len(),
            spec_skip_string(s@, i as int) == spec_skip_string(s@, j as int),
        decreases s@.len() - j,
    {
        if j >= s.len() {
            return None;
        }
        let b = s[j];
        if b == 0x22 {
            return Some(j + 1);
        }
        if b == 0x5C {
            if j + 1 >= s.len() {
                return None;
            }
            j = j + 2;
        } else if b >= 0x20 {
            j = j + 1;
        } else {
            return None;
        }
    }
}

/// The index just past one ignored JSON value of any shape.
fn skip_value(s: &Vec<u8>, i: usize) -> (r: Option<usize>)
    requires
        i <= s@.len(),
    ensures
        r is Some <==> spec_skip_value(s@, i as int) is Some,
        r is Some ==> {
            &&& r->0 as int == spec_skip_value(s@, i as int)->0
            &&& i < r->0 <= s@.len()
        },
    decreases s@.len() - i, 0int,
{
    if i >= s.len() {
        return None;
    }
    let b = s[i];
    if b == 0x22 {
        skip_string(s, i + 1)
    } else if b == 0x7B {
        let j = skip_ws(s, i + 1);
        if j < s.len() && s[j] == 0x7D {
            Some(j + 1)
        } else {
            skip_object_rest(s, j)
        }
    } else if b == 0x5B {
        let j = skip_ws(s, i + 1);
        if j < s.len() && s[j] == 0x5D {
            Some(j + 1)
        } else {
            skip_array_rest(s, j)
        }
    } else if b == 0x74 {
        if s.len() - i >= 4 && s[i + 1] == 0x72 && s[i + 2] == 0x75 && s[i + 3] == 0x65 {
            Some(i + 4)
        } else {
            None
        }
    } else if b == 0x66 {
        if s.len() - i >= 5 && s[i + 1] == 0x61 && s[i + 2] == 0x6C && s[i + 3] == 0x73 && s[i + 4]
            == 0x65 {
            Some(i + 5)
        } else {
            None
        }
    } else if b == 0x6E {
        if s.len() - i >= 4 && s[i + 1] == 0x75 && s[i + 2] == 0x6C && s[i + 3] == 0x6C {
            Some(i + 4)
        } else {
            None
        }
    } else if b == 0x2D || (0x30 <= b && b <= 0x39) {
        Some(numberish_end(s, i + 1))
    } else {
        None
    }
}

/// Skips `key: value` members of an ignored object through its brace.
fn skip_object_rest(s: &Vec<u8>, i: usize) -> (r: Option<usize>)
    requires
        i <= s@.len(),
    ensures
        r is Some <==> spec_skip_object_rest(s@, i as int) is Some,
        r is Some ==> {
            &&& r->0 as int == spec_skip_object_rest(s@, i as int)->0
            &&& i < r->0 <= s@.len()
        },
    decreases s@.len() - i, 1int,
{
    if i >= s.len() || s[i] != 0x22 {
        return None;
    }
    let ke = match skip_string(s, i + 1) {
        None => {
            return None;
        },
        Some(ke) => ke,
    };
    let c = skip_ws(s, ke);
    if c >= s.len() || s[c] != 0x3A {
        return None;
    }
    let vs = skip_ws(s, c + 1);
    let j = match skip_value(s, vs) {
        None => {
            return None;
        },
        Some(j) => j,
    };
    let k = skip_ws(s, j);
    if k < s.len() && s[k] == 0x2C {
        let n = skip_ws(s, k + 1);
        if i < n {
            skip_object_rest(s, n)
        } else {
            None
        }
    } else if k < s.len() && s[k] == 0x7D {
        Some(k + 1)
    } else {
        None
    }
}

/// Skips the items of an ignored array through its bracket.
fn skip_array_rest(s: &Vec<u8>, i: usize) -> (r: Option<usize>)
    requires
        i <= s@.len(),
    ensures
        r is Some <==> spec_skip_array_rest(s@, i as int) is Some,
        r is Some ==> {
            &&& r->0 as int == spec_skip_array_rest(s@, i as int)->0
            &&& i < r->0 <= s@.len()
        },
    decreases s@.len() - i, 1int,
{
    let j = match skip_value(s, i) {
        None => {
            return None;
        },
        Some(j) => j,
    };
    let k = skip_ws(s, j);
    if k < s.len() && s[k] == 0x2C {
        let n = skip_ws(s, k + 1);
        if i < n {
            skip_array_rest(s, n)
        } else {
            None
        }
    } else if k < s.len() && s[k] == 0x5D {
        Some(k + 1)
    } else {
        None
    }
}

/// Whether the bytes `[lo, hi)` spell the ASCII text `t`.
fn span_matches(s: &Vec<u8>, lo: usize, hi: usize, t: &str) -> (r: bool)
    requires
        lo <= hi <= s@.len(),
    ensures
        r == key_is(s@, lo as int, hi as int, t@),
{
    let n = t.unicode_len();
    if hi - lo != n {
        proof {
            assert(s@.subrange(lo as int, hi as int).len() != t@.map_values(
                |c: char| c as u8,
            ).len());
        }
        return false;
    }
    let mut j: usize = 0;
    while j < n
        invariant
            n == t@.len(),
            j <= n,
            lo <= hi <= s@.len(),
            hi - lo == n,
            forall|k: int| 0 <= k < j ==> s@[lo + k] == (#[trigger] t@[k]) as u8,
        decreases n - j,
    {
        let c = t.get_char(j);
        if s[lo + j] != c as u8 {
            proof {
                let sub = s@.subrange(lo as int, hi as int);
                let mapped = t@.map_values(|c: char| c as u8);
                assert(sub[j as int] != mapped[j as int]);
            }
            return false;
        }
        j = j + 1;
    }
    proof {
        assert(s@.subrange(lo as int, hi as int) =~= t@.map_values(|c: char| c as u8));
    }
    true
}

/// What has been collected of the six schema members so far.
pub struct Fields {
    pub avail: Option<bool>,
    pub days: Option<u64>,
    pub radius: Option<u64>,
    pub state_code: Option<(usize, usize)>,
    pub state_name: Option<(usize, usize)>,
    pub zip: Option<(usize, usize)>,
}

/// The view of an optional span.
pub open spec fn span_view(o: Option<(usize, usize)>) -> Option<(int, int)> {
    match o {
        Some((lo, hi)) => Some((lo as int, hi as int)),
        None => None,
    }
}

impl Fields {
    /// The spec view of the collection.
    pub open spec fn view(&self) -> SpecFields {
        SpecFields {
            avail: self.avail,
            days: self.days,
            radius: self.radius,
            state_code: span_view(self.state_code),
            state_name: span_view(self.state_name),
            zip: span_view(self.zip),
        }
    }

    /// Every collected span lies within the input.
    pub open spec fn spans_wf(&self, s: Seq<u8>) -> bool {
        &&& (self.state_code is Some ==> (self.state_code->0).0 <= (self.state_code->0).1 <= s.len())
        &&& (self.state_name is Some ==> (self.state_name->0).0 <= (self.state_name->0).1 <= s.len())
        &&& (self.zip is Some ==> (self.zip->0).0 <= (self.zip->0).1 <= s.len())
    }
}

/// Whether the bytes `[lo, hi)` spell one of the six schema member names.
fn is_schema_key(s: &Vec<u8>, lo: usize, hi: usize) -> (r: bool)
    requires
        lo <= hi <= s@.len(),
    ensures
        r == spec_is_schema_key(s@, lo as int, hi as int),
{
    span_matches(s, lo, hi, "appointmentsAvailable") || span_matches(s, lo, hi, "days")
        || span_matches(s, lo, hi, "radius") || span_matches(s, lo, hi, "stateCode")
        || span_matches(s, lo, hi, "stateName") || span_matches(s, lo, hi, "zipCode")
}

/// Takes one member into the collection.
fn apply_field(s: &Vec<u8>, acc: Fields, klo: usize, khi: usize, v: JsonVal) -> (r: Option<Fields>)
    requires
        klo <= khi <= s@.len(),
        acc.spans_wf(s@),
        v is Str ==> v->Str_0 <= v->Str_1 <= s@.len(),
    ensures
        r is Some <==> spec_apply(s@, acc.view(), klo as int, khi as int, v.view()) is Some,
        r is Some ==> {
            &&& r->0.view() == spec_apply(s@, acc.view(), klo as int, khi as int, v.view())->0
            &&& r->0.spans_wf(s@)
        },
{
    if span_matches(s, klo, khi, "appointmentsAvailable") {
        match v {
            JsonVal::Bool(b) => if acc.avail.is_some() {
                None
            } else {
                Some(Fields { avail: Some(b), ..acc })
            },
            _ => None,
        }
    } else if span_matches(s, klo, khi, "days") {
        match v {
            JsonVal::Num(n) => if acc.days.is_some() || n > 255 {
                None
            } else {
                Some(Fields { days: Some(n), ..acc })
            },
            _ => None,
        }
    } else if span_matches(s, klo, khi, "radius") {
        match v {
            JsonVal::Num(n) => if acc.radius.is_some() || n > 255 {
                None
            } else {
                Some(Fields { radius: Some(n), ..acc })
            },
            _ => None,
        }
    } else if span_matches(s, klo, khi, "stateCode") {
        match v {
            JsonVal::Str(lo, hi) => if acc.state_code.is_some() {
                None
            } else {
                Some(Fields { state_code: Some((lo, hi)), ..acc })
            },
            _ => None,
        }
    } else if span_matches(s, klo, khi, "stateName") {
        match v {
            JsonVal::Str(lo, hi) => if acc.state_name.is_some() {
                None
            } else {
                Some(Fields { state_name: Some((lo, hi)), ..acc })
            },
            _ => None,
        }
    } else if span_matches(s, klo, khi, "zipCode") {
        match v {
            JsonVal::Str(lo, hi) => if acc.zip.is_some() {
                None
            } else {
                Some(Fields { zip: Some((lo, hi)), ..acc })
            },
            _ => None,
        }
    } else {
        Some(acc)
    }
}

/// Parses members from the first key at `i` through the closing brace.
fn parse_members(s: &Vec<u8>, i: usize, acc: Fields) -> (r: Option<(usize, Fields)>)
    requires
        i <= s@.len(),
        acc.spans_wf(s@),
    ensures
        r is Some <==> spec_parse_members(s@, i as int, acc.view()) is Some,
        r is Some ==> {
            &&& spec_parse_members(s@, i as int, acc.view())->0 == (
            (r->0).0 as int,
            (r->0).1.view(),
            )
            &&& (r->0).0 <= s@.len()
            &&& (r->0).1.spans_wf(s@)
        },
    decreases s@.len() - i,
{
    if i >= s.len() || s[i] != 0x22 {
        return None;
    }
    let ke = match skip_string(s, i + 1) {
        None => {
            return None;
        },
        Some(ke) => ke,
    };
    let c = skip_ws(s, ke);
    if c >= s.len() || s[c] != 0x3A {
        return None;
    }
    let vs = skip_ws(s, c + 1);
    let step: Option<(usize, Fields)> = if is_schema_key(s, i + 1, ke - 1) {
        match parse_value(s, vs) {
            None => None,
            Some((j, v)) => match apply_field(s, acc, i + 1, ke - 1, v) {
                None => None,
                Some(a) => Some((j, a)),
            },
        }
    } else {
        match skip_value(s, vs) {
            None => None,
            Some(j) => Some((j, acc)),
        }
    };
    let (j, acc2) = match step {
        None => {
            return None;
        },
        Some(x) => x,
    };
    let k = skip_ws(s, j);
    if k < s.len() && s[k] == 0x2C {
        let n = skip_ws(s, k + 1);
        if i < n {
            parse_members(s, n, acc2)
        } else {
            None
        }
    } else if k < s.len() && s[k] == 0x7D {
        Some((k + 1, acc2))
    } else {
        None
    }
}

/// The decoded response as owned values.
pub struct AvailabilityResult {
    pub appointments_available: bool,
    pub days: u8,
    pub radius: u8,
    pub state_code: String,
    pub state_name: String,
    pub zip_code: String,
}

impl AvailabilityResult {
    /// The spec view of the decoded response.
    pub open spec fn view(&self) -> SpecAvailability {
        SpecAvailability {
            appointments_available: self.appointments_available,
            days: self.days,
            radius: self.radius,
            state_code: self.state_code@,
            state_name: self.state_name@,
            zip_code: self.zip_code@,
        }
    }
}

/// The text spelled by the bytes `[lo, hi)`.
fn span_to_string(s: &Vec<u8>, lo: usize, hi: usize) -> (r: String)
    requires
        lo <= hi <= s@.len(),
    ensures
        r@ == span_text(s@, lo as int, hi as int),
{
    let mut out = String::new();
    let mut k = lo;
    while k < hi
        invariant
            lo <= k <= hi <= s@.len(),
            out@ == span_text(s@, lo as int, k as int),
        decreases hi - k,
    {
        push_char(&mut out, s[k] as char);
        proof {
            assert(s@.subrange(lo as int, k + 1) =~= s@.subrange(lo as int, k as int).push(
                s@[k as int],
            ));
            assert(span_text(s@, lo as int, k + 1) =~= span_text(s@, lo as int, k as int).push(
                s@[k as int] as char,
            ));
        }
        k = k + 1;
    }
    out
}

/// Decodes the availability response: exactly the document the grammar
/// and schema accept, or nothing.
pub fn parse_response(body: &Vec<u8>) -> (r: Option<AvailabilityResult>)
    ensures
        r is Some <==> spec_parse_response(body@) is Some,
        r is Some ==> r->0.view() == spec_parse_response(body@)->0,
{
    let i = skip_ws(body, 0);
    if !(i < body.len() && body[i] == 0x7B) {
        return None;
    }
    let j = skip_ws(body, i + 1);
    let empty = Fields {
        avail: None,
        days: None,
        radius: None,
        state_code: None,
        state_name: None,
        zip: None,
    };
    let (e, f) = match parse_members(body, j, empty) {
        None => {
            return None;
        },
        Some(ef) => ef,
    };
    if skip_ws(body, e) != body.len() {
        return None;
    }
    match (f.avail, f.days, f.radius, f.state_code, f.state_name, f.zip) {
        (Some(avail), Some(days), Some(radius), Some(sc), Some(sn), Some(z)) => {
            let result = AvailabilityResult {
                appointments_available: avail,
                days: days as u8,
                radius: radius as u8,
                state_code: span_to_string(body, sc.0, sc.1),
                state_name: span_to_string(body, sn.0, sn.1),
                zip_code: span_to_string(body, z.0, z.1),
            };
            Some(result)
        },
        _ => None,
    }
}

} // verus!
