//! Character-level text helpers shared by every module: whitespace trimming,
//! ASCII classification and case folding, equality, and decimal integers.
//!
//! Everything is stated over `Seq<char>`, the view of `&str` and `String`.
use vstd::prelude::*;

verus! {

// ---------------------------------------------------------------------------
// Character classes.
// ---------------------------------------------------------------------------

/// Unicode `White_Space`: the set that `char::is_whitespace` and `str::trim` use.
pub open spec fn is_ws(c: char) -> bool {
    ||| '\u{9}' <= c <= '\u{d}'
    ||| c == ' '
    ||| c == '\u{85}'
    ||| c == '\u{a0}'
    ||| c == '\u{1680}'
    ||| '\u{2000}' <= c <= '\u{200a}'
    ||| c == '\u{2028}'
    ||| c == '\u{2029}'
    ||| c == '\u{202f}'
    ||| c == '\u{205f}'
    ||| c == '\u{3000}'
}

pub open spec fn is_digit(c: char) -> bool {
    '0' <= c <= '9'
}

pub open spec fn is_upper(c: char) -> bool {
    'A' <= c <= 'Z'
}

pub open spec fn is_lower(c: char) -> bool {
    'a' <= c <= 'z'
}

pub open spec fn is_alnum(c: char) -> bool {
    is_digit(c) || is_upper(c) || is_lower(c)
}

/// `char::to_ascii_lowercase`.
pub open spec fn lower_char(c: char) -> char {
    if is_upper(c) {
        ((c as u32) + 32) as char
    } else {
        c
    }
}

/// `char::to_ascii_uppercase`.
pub open spec fn upper_char(c: char) -> char {
    if is_lower(c) {
        ((c as u32) - 32) as char
    } else {
        c
    }
}

/// `str::to_ascii_lowercase`.
pub open spec fn ascii_lower(s: Seq<char>) -> Seq<char> {
    s.map_values(|c: char| lower_char(c))
}

pub open spec fn all_digits(s: Seq<char>) -> bool {
    forall|i: int| 0 <= i < s.len() ==> is_digit(#[trigger] s[i])
}

pub open spec fn is_ascii_str(s: Seq<char>) -> bool {
    forall|i: int| 0 <= i < s.len() ==> (#[trigger] s[i] as u32) < 128
}

pub(crate) fn is_ws_char(c: char) -> (r: bool)
    ensures
        r == is_ws(c),
{
    ('\u{9}' <= c && c <= '\u{d}') || c == ' ' || c == '\u{85}' || c == '\u{a0}' || c
        == '\u{1680}' || ('\u{2000}' <= c && c <= '\u{200a}') || c == '\u{2028}' || c
        == '\u{2029}' || c == '\u{202f}' || c == '\u{205f}' || c == '\u{3000}'
}

pub(crate) fn is_digit_char(c: char) -> (r: bool)
    ensures
        r == is_digit(c),
{
    '0' <= c && c <= '9'
}

pub(crate) fn is_alnum_char(c: char) -> (r: bool)
    ensures
        r == is_alnum(c),
{
    ('0' <= c && c <= '9') || ('A' <= c && c <= 'Z') || ('a' <= c && c <= 'z')
}

pub(crate) fn lower_char_exec(c: char) -> (r: char)
    ensures
        r == lower_char(c),
{
    if 'A' <= c && c <= 'Z' {
        let u: u8 = (c as u32 + 32) as u8;
        u as char
    } else {
        c
    }
}

// ---------------------------------------------------------------------------
// Building strings.
// ---------------------------------------------------------------------------

/// `String::push`: stated, the text afterwards is the text before with `c`
/// appended, as its documentation says.
#[verifier::external_body]
pub(crate) fn push_char(s: &mut String, c: char)
    ensures
        final(s)@ == old(s)@.push(c),
{
    s.push(c)
}

/// The characters of a string slice, in order.
pub(crate) fn chars_of(s: &str) -> (v: Vec<char>)
    ensures
        v@ == s@,
{
    let mut v: Vec<char> = Vec::new();
    for c in it: s.chars()
        invariant
            v@ == it.seq().take(it.index() as int),
    {
        v.push(c);
    }
    v
}

/// A `String` holding exactly the given characters.
pub(crate) fn string_of(v: &Vec<char>) -> (s: String)
    ensures
        s@ == v@,
{
    let mut s = String::new();
    let mut i: usize = 0;
    while i < v.len()
        invariant
            i <= v.len(),
            s@ == v@.take(i as int),
        decreases v.len() - i,
    {
        push_char(&mut s, v[i]);
        assert(v@.take(i + 1) =~= v@.take(i as int).push(v@[i as int]));
        i = i + 1;
    }
    assert(v@.take(v.len() as int) =~= v@);
    s
}

/// A `String` copy of a string slice.
pub(crate) fn owned(s: &str) -> (r: String)
    ensures
        r@ == s@,
{
    let v = chars_of(s);
    string_of(&v)
}

/// Appends a string slice to a `String`.
pub(crate) fn push_str(s: &mut String, t: &str)
    ensures
        final(s)@ == old(s)@ + t@,
{
    s.append(t);
}

/// Appends the characters of a vector to a `String`.
pub(crate) fn push_chars(s: &mut String, v: &Vec<char>)
    ensures
        final(s)@ == old(s)@ + v@,
{
    let ghost start = s@;
    let mut i: usize = 0;
    while i < v.len()
        invariant
            i <= v.len(),
            s@ == start + v@.take(i as int),
        decreases v.len() - i,
    {
        push_char(s, v[i]);
        assert(v@.take(i + 1) =~= v@.take(i as int).push(v@[i as int]));
        i = i + 1;
    }
    assert(v@.take(v.len() as int) =~= v@);
}

// ---------------------------------------------------------------------------
// Trimming.
// ---------------------------------------------------------------------------

pub open spec fn trim_start(s: Seq<char>) -> Seq<char>
    decreases s.len(),
{
    if s.len() > 0 && is_ws(s[0]) {
        trim_start(s.drop_first())
    } else {
        s
    }
}

pub open spec fn trim_end(s: Seq<char>) -> Seq<char>
    decreases s.len(),
{
    if s.len() > 0 && is_ws(s.last()) {
        trim_end(s.drop_last())
    } else {
        s
    }
}

/// `str::trim`: leading and trailing whitespace removed.
pub open spec fn trim(s: Seq<char>) -> Seq<char> {
    trim_end(trim_start(s))
}

pub proof fn lemma_trim_start_empty(s: Seq<char>)
    ensures
        trim_start(s).len() == 0 <==> forall|i: int| 0 <= i < s.len() ==> is_ws(#[trigger] s[i]),
        trim_start(s).len() > 0 ==> !is_ws(trim_start(s)[0]),
    decreases s.len(),
{
    if s.len() > 0 && is_ws(s[0]) {
        lemma_trim_start_empty(s.drop_first());
        if trim_start(s).len() == 0 {
            assert forall|i: int| 0 <= i < s.len() implies is_ws(#[trigger] s[i]) by {
                if i > 0 {
                    assert(s[i] == s.drop_first()[i - 1]);
                }
            }
        } else {
            if forall|i: int| 0 <= i < s.len() ==> is_ws(#[trigger] s[i]) {
                assert forall|i: int| 0 <= i < s.drop_first().len() implies is_ws(
                    #[trigger] s.drop_first()[i],
                ) by {
                    assert(s.drop_first()[i] == s[i + 1]);
                }
            }
        }
    } else if s.len() > 0 {
        assert(!is_ws(s[0]));
    }
}

pub proof fn lemma_trim_end_empty(s: Seq<char>)
    ensures
        trim_end(s).len() == 0 <==> forall|i: int| 0 <= i < s.len() ==> is_ws(#[trigger] s[i]),
        trim_end(s).len() > 0 ==> !is_ws(trim_end(s).last()),
    decreases s.len(),
{
    if s.len() > 0 && is_ws(s.last()) {
        lemma_trim_end_empty(s.drop_last());
        if trim_end(s).len() == 0 {
            assert forall|i: int| 0 <= i < s.len() implies is_ws(#[trigger] s[i]) by {
                if i < s.len() - 1 {
                    assert(s[i] == s.drop_last()[i]);
                }
            }
        } else {
            if forall|i: int| 0 <= i < s.len() ==> is_ws(#[trigger] s[i]) {
                assert forall|i: int| 0 <= i < s.drop_last().len() implies is_ws(
                    #[trigger] s.drop_last()[i],
                ) by {
                    assert(s.drop_last()[i] == s[i]);
                }
            }
        }
    } else if s.len() > 0 {
        assert(!is_ws(s[s.len() - 1]));
    }
}

pub proof fn lemma_trim_start_suffix(s: Seq<char>)
    ensures
        trim_start(s).len() <= s.len(),
        trim_start(s) =~= s.subrange(s.len() - trim_start(s).len(), s.len() as int),
    decreases s.len(),
{
    if s.len() > 0 && is_ws(s[0]) {
        lemma_trim_start_suffix(s.drop_first());
    }
}

/// The characters of `s` with leading and trailing whitespace removed.
pub(crate) fn trim_chars(v: &Vec<char>) -> (r: Vec<char>)
    ensures
        r@ == trim(v@),
{
    let n = v.len();
    let mut lo: usize = 0;
    assert(v@.subrange(0, n as int) =~= v@);
    while lo < n && is_ws_char(v[lo])
        invariant
            lo <= n,
            n == v.len(),
            trim_start(v@) == trim_start(v@.subrange(lo as int, n as int)),
        decreases n - lo,
    {
        assert(v@.subrange(lo as int, n as int).drop_first() =~= v@.subrange(
            lo + 1,
            n as int,
        ));
        lo = lo + 1;
    }
    let mut hi: usize = n;
    while hi > lo && is_ws_char(v[hi - 1])
        invariant
            lo <= hi <= n,
            n == v.len(),
            trim_start(v@) == v@.subrange(lo as int, n as int),
            trim(v@) == trim_end(v@.subrange(lo as int, hi as int)),
        decreases hi - lo,
    {
        assert(v@.subrange(lo as int, hi as int).drop_last() =~= v@.subrange(
            lo as int,
            hi - 1,
        ));
        hi = hi - 1;
    }
    let mut r: Vec<char> = Vec::new();
    let mut i: usize = lo;
    while i < hi
        invariant
            lo <= i <= hi <= n,
            n == v.len(),
            r@ == v@.subrange(lo as int, i as int),
        decreases hi - i,
    {
        r.push(v[i]);
        assert(v@.subrange(lo as int, i + 1) =~= v@.subrange(lo as int, i as int).push(
            v@[i as int],
        ));
        i = i + 1;
    }
    r
}

/// `str::trim`, as an owned `String`.
pub(crate) fn trim_str(s: &str) -> (r: String)
    ensures
        r@ == trim(s@),
{
    let v = chars_of(s);
    let t = trim_chars(&v);
    string_of(&t)
}

/// Whether the string is empty or whitespace only (`s.trim().is_empty()`).
pub(crate) fn is_blank(s: &str) -> (r: bool)
    ensures
        r == (trim(s@).len() == 0),
{
    let v = chars_of(s);
    let t = trim_chars(&v);
    t.len() == 0
}

// ---------------------------------------------------------------------------
// Comparison.
// ---------------------------------------------------------------------------

pub(crate) fn seq_eq(a: &Vec<char>, b: &Vec<char>) -> (r: bool)
    ensures
        r == (a@ == b@),
{
    if a.len() != b.len() {
        return false;
    }
    let mut i: usize = 0;
    while i < a.len()
        invariant
            a.len() == b.len(),
            i <= a.len(),
            forall|j: int| 0 <= j < i ==> a@[j] == b@[j],
        decreases a.len() - i,
    {
        if a[i] != b[i] {
            return false;
        }
        i = i + 1;
    }
    assert(a@ =~= b@);
    true
}

/// String equality (`a == b` on `&str`).
pub(crate) fn str_eq(a: &str, b: &str) -> (r: bool)
    ensures
        r == (a@ == b@),
{
    let va = chars_of(a);
    let vb = chars_of(b);
    seq_eq(&va, &vb)
}

/// Whether `v` is exactly the given string slice.
pub(crate) fn chars_eq_str(v: &Vec<char>, b: &str) -> (r: bool)
    ensures
        r == (v@ == b@),
{
    let vb = chars_of(b);
    seq_eq(v, &vb)
}

/// `str::eq_ignore_ascii_case`.
pub(crate) fn eq_ignore_ascii_case(a: &str, b: &str) -> (r: bool)
    ensures
        r == (ascii_lower(a@) == ascii_lower(b@)),
{
    let va = chars_of(a);
    let vb = chars_of(b);
    if va.len() != vb.len() {
        assert(ascii_lower(a@).len() != ascii_lower(b@).len());
        return false;
    }
    let mut i: usize = 0;
    while i < va.len()
        invariant
            va.len() == vb.len(),
            va@ == a@,
            vb@ == b@,
            i <= va.len(),
            forall|j: int| 0 <= j < i ==> lower_char(a@[j]) == lower_char(b@[j]),
        decreases va.len() - i,
    {
        if lower_char_exec(va[i]) != lower_char_exec(vb[i]) {
            assert(ascii_lower(a@)[i as int] != ascii_lower(b@)[i as int]);
            return false;
        }
        i = i + 1;
    }
    assert(ascii_lower(a@) =~= ascii_lower(b@));
    true
}

/// `str::contains(c)` for a single character.
pub(crate) fn contains_char(v: &Vec<char>, c: char) -> (r: bool)
    ensures
        r == v@.contains(c),
{
    let mut i: usize = 0;
    while i < v.len()
        invariant
            i <= v.len(),
            forall|j: int| 0 <= j < i ==> v@[j] != c,
        decreases v.len() - i,
    {
        if v[i] == c {
            assert(v@[i as int] == c);
            return true;
        }
        i = i + 1;
    }
    false
}

/// Whether every character is an ASCII digit (vacuously true when empty).
pub(crate) fn all_digits_exec(v: &Vec<char>) -> (r: bool)
    ensures
        r == all_digits(v@),
{
    let mut i: usize = 0;
    while i < v.len()
        invariant
            i <= v.len(),
            forall|j: int| 0 <= j < i ==> is_digit(v@[j]),
        decreases v.len() - i,
    {
        if !is_digit_char(v[i]) {
            return false;
        }
        i = i + 1;
    }
    true
}

/// Whether every character is ASCII (`str::is_ascii`).
pub(crate) fn is_ascii_exec(v: &Vec<char>) -> (r: bool)
    ensures
        r == is_ascii_str(v@),
{
    let mut i: usize = 0;
    while i < v.len()
        invariant
            i <= v.len(),
            forall|j: int| 0 <= j < i ==> (v@[j] as u32) < 128,
        decreases v.len() - i,
    {
        if (v[i] as u32) >= 128 {
            return false;
        }
        i = i + 1;
    }
    true
}

// ---------------------------------------------------------------------------
// Decimal integers.
// ---------------------------------------------------------------------------

pub open spec fn digit_value(c: char) -> int {
    (c as u32) - ('0' as u32)
}

/// The value of a run of decimal digits.
pub open spec fn digits_value(s: Seq<char>) -> int
    decreases s.len(),
{
    if s.len() == 0 {
        0
    } else {
        digits_value(s.drop_last()) * 10 + digit_value(s.last())
    }
}

/// The integer `str::parse` reads, before the range check of the target type:
/// an optional sign (`-` only when `signed`) followed by at least one digit.
pub open spec fn parse_int(s: Seq<char>, signed: bool) -> Option<int> {
    if s.len() >= 2 && s[0] == '-' && signed && all_digits(s.drop_first()) {
        Some(-digits_value(s.drop_first()))
    } else if s.len() >= 2 && s[0] == '+' && all_digits(s.drop_first()) {
        Some(digits_value(s.drop_first()))
    } else if s.len() >= 1 && all_digits(s) {
        Some(digits_value(s))
    } else {
        None
    }
}

/// `str::parse::<T>()` for an integer type with the given range.
pub open spec fn parse_in(s: Seq<char>, signed: bool, lo: int, hi: int) -> Option<int> {
    match parse_int(s, signed) {
        Some(v) => if lo <= v <= hi {
            Some(v)
        } else {
            None
        },
        None => None,
    }
}

/// `str::parse::<i32>()`.
pub open spec fn parse_i32(s: Seq<char>) -> Option<i32> {
    match parse_in(s, true, i32::MIN as int, i32::MAX as int) {
        Some(v) => Some(v as i32),
        None => None,
    }
}

/// `str::parse::<i64>()`.
pub open spec fn parse_i64(s: Seq<char>) -> Option<i64> {
    match parse_in(s, true, i64::MIN as int, i64::MAX as int) {
        Some(v) => Some(v as i64),
        None => None,
    }
}

/// `str::parse::<u64>()`.
pub open spec fn parse_u64(s: Seq<char>) -> Option<u64> {
    match parse_in(s, false, 0, u64::MAX as int) {
        Some(v) => Some(v as u64),
        None => None,
    }
}

/// `str::parse::<u32>()`.
pub open spec fn parse_u32(s: Seq<char>) -> Option<u32> {
    match parse_in(s, false, 0, u32::MAX as int) {
        Some(v) => Some(v as u32),
        None => None,
    }
}

pub proof fn lemma_digits_value_nonneg(s: Seq<char>)
    requires
        all_digits(s),
    ensures
        digits_value(s) >= 0,
    decreases s.len(),
{
    if s.len() > 0 {
        assert(all_digits(s.drop_last())) by {
            assert forall|i: int| 0 <= i < s.drop_last().len() implies is_digit(
                #[trigger] s.drop_last()[i],
            ) by {
                assert(s.drop_last()[i] == s[i]);
            }
        }
        lemma_digits_value_nonneg(s.drop_last());
        assert(is_digit(s[s.len() - 1]));
    }
}

pub proof fn lemma_digits_prefix_monotone(s: Seq<char>, i: int, j: int)
    requires
        all_digits(s),
        0 <= i <= j <= s.len(),
    ensures
        digits_value(s.take(i)) <= digits_value(s.take(j)),
    decreases j - i,
{
    if i < j {
        lemma_digits_prefix_monotone(s, i, j - 1);
        assert(s.take(j).drop_last() =~= s.take(j - 1));
        assert(is_digit(s[j - 1]));
        assert(all_digits(s.take(j - 1))) by {
            assert forall|k: int| 0 <= k < s.take(j - 1).len() implies is_digit(
                #[trigger] s.take(j - 1)[k],
            ) by {
                assert(s.take(j - 1)[k] == s[k]);
            }
        }
        lemma_digits_value_nonneg(s.take(j - 1));
    }
}

/// The value of the decimal digits `v[start..]`, capped at `cap + 1`; `None`
/// when the run is empty or holds a non-digit.
fn digits_capped(v: &Vec<char>, start: usize, cap: u64) -> (r: Option<u128>)
    requires
        start <= v.len(),
    ensures
        r.is_some() <==> (v.len() > start && all_digits(v@.skip(start as int))),
        r.is_some() ==> r.unwrap() == (if digits_value(v@.skip(start as int)) <= cap {
            digits_value(v@.skip(start as int))
        } else {
            cap + 1
        }),
{
    if start >= v.len() {
        return None;
    }
    let ghost s = v@.skip(start as int);
    let mut acc: u128 = 0;
    let mut over = false;
    let mut i: usize = start;
    while i < v.len()
        invariant
            start <= i <= v.len(),
            s == v@.skip(start as int),
            forall|k: int| 0 <= k < i - start ==> is_digit(#[trigger] s[k]),
            !over ==> acc == digits_value(s.take(i - start)),
            !over ==> acc <= cap,
            over ==> digits_value(s.take(i - start)) > cap,
            over ==> acc == cap + 1,
        decreases v.len() - i,
    {
        let c = v[i];
        if !is_digit_char(c) {
            assert(s[i - start] == c);
            return None;
        }
        assert(s[i - start] == c);
        let ghost k = i - start;
        assert(s.take(k + 1).drop_last() =~= s.take(k));
        assert(s.take(k + 1).last() == c);
        assert(all_digits(s.take(k))) by {
            assert forall|m: int| 0 <= m < s.take(k).len() implies is_digit(
                #[trigger] s.take(k)[m],
            ) by {
                assert(s.take(k)[m] == s[m]);
            }
        }
        proof { lemma_digits_value_nonneg(s.take(k)); }
        if !over {
            let d: u128 = (c as u32 - '0' as u32) as u128;
            let next: u128 = acc * 10 + d;
            if next > cap as u128 {
                over = true;
                acc = cap as u128 + 1;
            } else {
                acc = next;
            }
        }
        i = i + 1;
    }
    assert(s.take(v.len() - start) =~= s);
    assert(all_digits(s));
    Some(acc)
}

/// Parses a decimal integer the way `str::parse` does for an integer type
/// whose range is `lo..=hi` (`signed` allows a leading `-`).
pub(crate) fn parse_int_exec(v: &Vec<char>, signed: bool, lo: i64, hi: u64) -> (r: Option<i128>)
    requires
        lo <= 0,
    ensures
        r.is_some() <==> parse_in(v@, signed, lo as int, hi as int).is_some(),
        r.is_some() ==> r.unwrap() == parse_in(v@, signed, lo as int, hi as int).unwrap(),
{
    if v.len() >= 2 && v[0] == '-' && signed {
        assert(v@.skip(1) =~= v@.drop_first());
        match digits_capped(v, 1, (-(lo as i128)) as u64) {
            Some(d) => {
                proof { lemma_digits_value_nonneg(v@.drop_first()); }
                if d <= (-(lo as i128)) as u128 {
                    Some(-(d as i128))
                } else {
                    None
                }
            },
            None => None,
        }
    } else if v.len() >= 2 && v[0] == '+' {
        assert(v@.skip(1) =~= v@.drop_first());
        match digits_capped(v, 1, hi) {
            Some(d) => {
                proof { lemma_digits_value_nonneg(v@.drop_first()); }
                if d <= hi as u128 {
                    Some(d as i128)
                } else {
                    None
                }
            },
            None => None,
        }
    } else {
        assert(v@.skip(0) =~= v@);
        if v.len() >= 1 && (v[0] == '-' || v[0] == '+') {
            assert(!is_digit(v@[0]));
            return None;
        }
        match digits_capped(v, 0, hi) {
            Some(d) => {
                proof { lemma_digits_value_nonneg(v@); }
                if d <= hi as u128 {
                    Some(d as i128)
                } else {
                    None
                }
            },
            None => None,
        }
    }
}

/// `s.parse::<i32>().ok()`.
pub(crate) fn parse_i32_exec(s: &str) -> (r: Option<i32>)
    ensures
        r == parse_i32(s@),
{
    let v = chars_of(s);
    match parse_int_exec(&v, true, i32::MIN as i64, i32::MAX as u64) {
        Some(x) => Some(x as i32),
        None => None,
    }
}

/// `s.parse::<i64>().ok()`.
pub(crate) fn parse_i64_exec(s: &str) -> (r: Option<i64>)
    ensures
        r == parse_i64(s@),
{
    let v = chars_of(s);
    match parse_int_exec(&v, true, i64::MIN, i64::MAX as u64) {
        Some(x) => Some(x as i64),
        None => None,
    }
}

/// `s.parse::<u64>().ok()`.
pub(crate) fn parse_u64_exec(s: &str) -> (r: Option<u64>)
    ensures
        r == parse_u64(s@),
{
    let v = chars_of(s);
    match parse_int_exec(&v, false, 0, u64::MAX) {
        Some(x) => Some(x as u64),
        None => None,
    }
}

/// `s.parse::<u32>().ok()`.
pub(crate) fn parse_u32_exec(s: &str) -> (r: Option<u32>)
    ensures
        r == parse_u32(s@),
{
    let v = chars_of(s);
    match parse_int_exec(&v, false, 0, u32::MAX as u64) {
        Some(x) => Some(x as u32),
        None => None,
    }
}

pub open spec fn digit_char(d: int) -> char {
    (('0' as u32) + d) as char
}

/// Decimal representation of a natural number, most significant digit first.
pub open spec fn nat_str(n: nat) -> Seq<char>
    decreases n,
{
    if n < 10 {
        seq![digit_char(n as int)]
    } else {
        nat_str(n / 10).push(digit_char((n % 10) as int))
    }
}

/// The decimal form of a natural number is a run of digits that reads back
/// as the number.
pub proof fn lemma_nat_str_parses(n: nat)
    ensures
        nat_str(n).len() >= 1,
        all_digits(nat_str(n)),
        digits_value(nat_str(n)) == n,
    decreases n,
{
    if n < 10 {
        let c = digit_char(n as int);
        assert(c as u32 == '0' as u32 + n);
        assert(nat_str(n).drop_last() =~= Seq::<char>::empty());
        assert(digits_value(nat_str(n)) == digits_value(Seq::<char>::empty()) * 10 + digit_value(c));
    } else {
        lemma_nat_str_parses(n / 10);
        let c = digit_char((n % 10) as int);
        assert(c as u32 == '0' as u32 + n % 10);
        assert(nat_str(n).drop_last() =~= nat_str(n / 10));
        assert((n / 10) * 10 + n % 10 == n) by (nonlinear_arith);
        assert(digits_value(nat_str(n)) == digits_value(nat_str(n / 10)) * 10 + digit_value(c));
        assert forall|i: int| 0 <= i < nat_str(n).len() implies is_digit(#[trigger] nat_str(n)[i]) by {
            if i < nat_str(n).len() - 1 {
                assert(nat_str(n)[i] == nat_str(n / 10)[i]);
            }
        }
    }
}

/// Decimal representation of an integer (`i64::to_string` and friends).
pub open spec fn int_str(i: int) -> Seq<char> {
    if i < 0 {
        seq!['-'] + nat_str((-i) as nat)
    } else {
        nat_str(i as nat)
    }
}

/// The decimal form of an `i32` reads back as it, starts with `-` or a digit,
/// ends with a digit, and is its own trimmed form.
pub proof fn lemma_int_str_i32(n: i32)
    ensures
        int_str(n as int).len() >= 1,
        parse_i32(int_str(n as int)) == Some(n),
        is_digit(int_str(n as int).last()),
        int_str(n as int)[0] == '-' || is_digit(int_str(n as int)[0]),
        trim(int_str(n as int)) == int_str(n as int),
{
    let s = int_str(n as int);
    if n < 0 {
        let d = nat_str((-n) as nat);
        lemma_nat_str_parses((-n) as nat);
        assert(s.drop_first() =~= d);
        assert(s.last() == d.last());
        assert(is_digit(d[d.len() - 1]));
        assert(parse_int(s, true) == Some(n as int));
    } else {
        lemma_nat_str_parses(n as nat);
        assert(is_digit(s[0]));
        assert(is_digit(s[s.len() - 1]));
        assert(parse_int(s, true) == Some(n as int));
    }
    assert(!is_ws(s[0]));
    assert(trim_start(s) == s);
    assert(!is_ws(s.last()));
    assert(trim_end(s) == s);
}

/// A tag character that is not whitespace followed by the decimal form of an
/// `i32` is its own trimmed form, and what follows the tag is that decimal.
pub proof fn lemma_tagged_int_str(tag: char, n: i32)
    requires
        !is_ws(tag),
    ensures
        trim(seq![tag] + int_str(n as int)) == seq![tag] + int_str(n as int),
        (seq![tag] + int_str(n as int)).drop_first() == int_str(n as int),
        (seq![tag] + int_str(n as int))[0] == tag,
{
    lemma_int_str_i32(n);
    let d = int_str(n as int);
    let e = seq![tag] + d;
    assert(e[0] == tag);
    assert(trim_start(e) == e);
    assert(e.last() == d.last());
    assert(!is_ws(e.last()));
    assert(trim_end(e) == e);
    assert(e.drop_first() =~= d);
}

fn nat_string(n: u128) -> (s: String)
    ensures
        s@ == nat_str(n as nat),
    decreases n,
{
    if n < 10 {
        let mut s = String::new();
        let u: u8 = ('0' as u32 + n as u32) as u8;
        push_char(&mut s, u as char);
        assert(s@ =~= seq![digit_char(n as int)]);
        s
    } else {
        let mut s = nat_string(n / 10);
        let u: u8 = ('0' as u32 + (n % 10) as u32) as u8;
        push_char(&mut s, u as char);
        s
    }
}

/// `x.to_string()` for any integer that fits in `i128`.
pub(crate) fn int_string(x: i128) -> (s: String)
    requires
        x > i128::MIN,
    ensures
        s@ == int_str(x as int),
{
    if x < 0 {
        let mut s = String::new();
        push_char(&mut s, '-');
        let t = nat_string((-x) as u128);
        push_str(&mut s, t.as_str());
        assert(s@ =~= seq!['-'] + nat_str((-x) as nat));
        s
    } else {
        nat_string(x as u128)
    }
}

// ---------------------------------------------------------------------------
// Unicode case mapping (std).
// ---------------------------------------------------------------------------

/// The full Unicode lowercase mapping of a string (`str::to_lowercase`).
pub uninterp spec fn unicode_lower(s: Seq<char>) -> Seq<char>;

/// The full Unicode uppercase mapping of a string (`str::to_uppercase`).
pub uninterp spec fn unicode_upper(s: Seq<char>) -> Seq<char>;

/// `str::to_ascii_uppercase`.
pub open spec fn ascii_upper(s: Seq<char>) -> Seq<char> {
    s.map_values(|c: char| upper_char(c))
}

/// `str::to_lowercase`: the Unicode lowercase mapping of `s`. Stated: the
/// result is a function of `s` alone, and on ASCII-only text it is the ASCII
/// mapping (`A`..`Z` to `a`..`z`, all else unchanged). The mapping of other
/// characters (which can change the length) is left unsaid.
#[verifier::external_body]
pub(crate) fn to_lowercase(s: &str) -> (r: String)
    ensures
        r@ == unicode_lower(s@),
        is_ascii_str(s@) ==> r@ == ascii_lower(s@),
{
    s.to_lowercase()
}

/// `str::to_uppercase`: the Unicode uppercase mapping of `s`. Stated: the
/// result is a function of `s` alone, and on ASCII-only text it is the ASCII
/// mapping (`a`..`z` to `A`..`Z`, all else unchanged). The mapping of other
/// characters (which can change the length) is left unsaid.
#[verifier::external_body]
pub(crate) fn to_uppercase(s: &str) -> (r: String)
    ensures
        r@ == unicode_upper(s@),
        is_ascii_str(s@) ==> r@ == ascii_upper(s@),
{
    s.to_uppercase()
}

// ---------------------------------------------------------------------------
// UTF-8 length and ordering.
// ---------------------------------------------------------------------------

/// Bytes one character takes in UTF-8.
pub open spec fn utf8_width(c: char) -> nat {
    if (c as u32) < 0x80 {
        1
    } else if (c as u32) < 0x800 {
        2
    } else if (c as u32) < 0x10000 {
        3
    } else {
        4
    }
}

/// Bytes a string takes in UTF-8 (`str::len`).
pub open spec fn utf8_len(s: Seq<char>) -> nat
    decreases s.len(),
{
    if s.len() == 0 {
        0
    } else {
        utf8_len(s.drop_last()) + utf8_width(s.last())
    }
}

/// `str::len` of the characters in `v`.
pub(crate) fn utf8_len_exec(v: &Vec<char>) -> (r: usize)
    requires
        utf8_len(v@) <= usize::MAX,
    ensures
        r == utf8_len(v@),
{
    let mut n: usize = 0;
    let mut i: usize = 0;
    while i < v.len()
        invariant
            i <= v.len(),
            n == utf8_len(v@.take(i as int)),
            utf8_len(v@) <= usize::MAX,
        decreases v.len() - i,
    {
        proof {
            assert(v@.take(i + 1).drop_last() =~= v@.take(i as int));
            lemma_utf8_len_prefix(v@, i + 1);
        }
        let c = v[i];
        let w: usize = if (c as u32) < 0x80 {
            1
        } else if (c as u32) < 0x800 {
            2
        } else if (c as u32) < 0x10000 {
            3
        } else {
            4
        };
        n = n + w;
        i = i + 1;
    }
    assert(v@.take(v.len() as int) =~= v@);
    n
}

pub proof fn lemma_utf8_len_prefix(s: Seq<char>, i: int)
    requires
        0 <= i <= s.len(),
    ensures
        utf8_len(s.take(i)) <= utf8_len(s),
    decreases s.len() - i,
{
    if i < s.len() {
        assert(s.drop_last().take(i) =~= s.take(i));
        lemma_utf8_len_prefix(s.drop_last(), i);
    } else {
        assert(s.take(i) =~= s);
    }
}

/// Lexicographic order of strings by code point, which is `str`'s `<`
/// (UTF-8 byte order and code point order agree).
pub open spec fn str_lt(a: Seq<char>, b: Seq<char>) -> bool
    decreases a.len(),
{
    if a.len() == 0 {
        b.len() > 0
    } else if b.len() == 0 {
        false
    } else if a[0] != b[0] {
        a[0] < b[0]
    } else {
        str_lt(a.drop_first(), b.drop_first())
    }
}

/// `a < b` on strings.
pub(crate) fn str_lt_exec(a: &Vec<char>, b: &Vec<char>) -> (r: bool)
    ensures
        r == str_lt(a@, b@),
{
    let mut i: usize = 0;
    assert(a@.skip(0) =~= a@);
    assert(b@.skip(0) =~= b@);
    while i < a.len() && i < b.len() && a[i] == b[i]
        invariant
            i <= a.len(),
            i <= b.len(),
            str_lt(a@, b@) == str_lt(a@.skip(i as int), b@.skip(i as int)),
        decreases a.len() - i,
    {
        assert(a@.skip(i as int).drop_first() =~= a@.skip(i + 1));
        assert(b@.skip(i as int).drop_first() =~= b@.skip(i + 1));
        i = i + 1;
    }
    let ghost sa = a@.skip(i as int);
    let ghost sb = b@.skip(i as int);
    assert(sa.len() == a.len() - i);
    assert(sb.len() == b.len() - i);
    if i == a.len() {
        i < b.len()
    } else if i == b.len() {
        false
    } else {
        assert(sa[0] == a@[i as int]);
        assert(sb[0] == b@[i as int]);
        assert(a@[i as int] != b@[i as int]);
        a[i] < b[i]
    }
}

/// The view of an optional `String`.
pub open spec fn opt_view(o: Option<String>) -> Option<Seq<char>> {
    match o {
        Some(s) => Some(s@),
        None => None,
    }
}

/// Whether an optional string is present and equal to `lit`.
pub(crate) fn opt_is(o: &Option<String>, lit: &str) -> (r: bool)
    ensures
        r == (opt_view(*o) == Some(lit@)),
{
    match o {
        Some(s) => str_eq(s.as_str(), lit),
        None => false,
    }
}

/// Copy of an optional `String`.
pub(crate) fn opt_clone(o: &Option<String>) -> (r: Option<String>)
    ensures
        opt_view(r) == opt_view(*o),
{
    match o {
        Some(s) => Some(owned(s.as_str())),
        None => None,
    }
}

/// `Some(x).filter(|&v| v > 0)` on an optional id.
pub open spec fn positive(o: Option<i32>) -> Option<i32> {
    match o {
        Some(v) => if v > 0 {
            Some(v)
        } else {
            None
        },
        None => None,
    }
}

pub(crate) fn positive_exec(o: Option<i32>) -> (r: Option<i32>)
    ensures
        r == positive(o),
{
    match o {
        Some(v) => if v > 0 {
            Some(v)
        } else {
            None
        },
        None => None,
    }
}

// ---------------------------------------------------------------------------
// Substrings and joining.
// ---------------------------------------------------------------------------

/// Whether `pat` occurs in `s` at position `i`.
pub open spec fn occurs_at(s: Seq<char>, pat: Seq<char>, i: int) -> bool {
    0 <= i && i + pat.len() <= s.len() && s.subrange(i, i + pat.len()) == pat
}

/// `str::contains(&str)`.
pub open spec fn contains_sub(s: Seq<char>, pat: Seq<char>) -> bool {
    exists|i: int| occurs_at(s, pat, i)
}

/// No `a` in `s` is directly followed by `b`.
pub open spec fn no_pair(s: Seq<char>, a: char, b: char) -> bool {
    forall|j: int| 0 <= j && j + 1 < s.len() ==> !(#[trigger] s[j] == a && s[j + 1] == b)
}

/// `no_pair` from position `i` on, checked one position at a time.
pub open spec fn no_pair_from(s: Seq<char>, a: char, b: char, i: nat) -> bool
    decreases s.len() - i,
{
    if i + 1 >= s.len() {
        true
    } else {
        !(s[i as int] == a && s[i + 1 as int] == b) && no_pair_from(s, a, b, (i + 1) as nat)
    }
}

pub proof fn lemma_no_pair_from(s: Seq<char>, a: char, b: char, i: nat)
    requires
        no_pair_from(s, a, b, i),
    ensures
        forall|j: int| i <= j && j + 1 < s.len() ==> !(#[trigger] s[j] == a && s[j + 1] == b),
    decreases s.len() - i,
{
    if i + 1 < s.len() {
        lemma_no_pair_from(s, a, b, (i + 1) as nat);
    }
}

/// A pattern of two or more characters whose first two never stand side by
/// side in `s` does not occur in `s`.
pub proof fn lemma_no_pair_no_sub(s: Seq<char>, pat: Seq<char>)
    requires
        pat.len() >= 2,
        no_pair(s, pat[0], pat[1]),
    ensures
        !contains_sub(s, pat),
{
    assert forall|i: int| !occurs_at(s, pat, i) by {
        if occurs_at(s, pat, i) {
            assert(s.subrange(i, i + pat.len())[0] == s[i]);
            assert(s.subrange(i, i + pat.len())[1] == s[i + 1]);
        }
    }
}

/// `no_pair` holds of a concatenation when it holds of both parts and the
/// second does not start with `b`.
pub proof fn lemma_no_pair_concat(x: Seq<char>, y: Seq<char>, a: char, b: char)
    requires
        no_pair(x, a, b),
        no_pair(y, a, b),
        y.len() > 0 ==> y[0] != b,
    ensures
        no_pair(x + y, a, b),
{
    let z = x + y;
    assert forall|j: int| 0 <= j && j + 1 < z.len() implies !(#[trigger] z[j] == a && z[j + 1] == b) by {
        if j + 1 < x.len() {
            assert(z[j] == x[j] && z[j + 1] == x[j + 1]);
        } else if j + 1 == x.len() {
            assert(z[j + 1] == y[0]);
        } else {
            assert(z[j] == y[j - x.len()] && z[j + 1] == y[j + 1 - x.len()]);
        }
    }
}

/// An occurrence in the first part of a concatenation is one in the whole.
pub proof fn lemma_sub_in_prefix(x: Seq<char>, y: Seq<char>, pat: Seq<char>, i: int)
    requires
        occurs_at(x, pat, i),
    ensures
        contains_sub(x + y, pat),
{
    assert((x + y).subrange(i, i + pat.len()) =~= x.subrange(i, i + pat.len()));
    assert(occurs_at(x + y, pat, i));
}

/// Whether `v` holds the substring `pat`.
pub(crate) fn contains_str(v: &Vec<char>, pat: &str) -> (r: bool)
    ensures
        r == contains_sub(v@, pat@),
{
    let p = chars_of(pat);
    if p.len() > v.len() {
        assert forall|i: int| !occurs_at(v@, pat@, i) by {}
        return false;
    }
    let mut i: usize = 0;
    while i <= v.len() - p.len()
        invariant
            p@ == pat@,
            p.len() <= v.len(),
            i <= v.len() - p.len() + 1,
            forall|k: int| 0 <= k < i ==> !occurs_at(v@, pat@, k),
        decreases v.len() - i,
    {
        let mut j: usize = 0;
        let mut ok = true;
        while j < p.len()
            invariant
                i + p.len() <= v.len(),
                j <= p.len(),
                ok == (forall|m: int| 0 <= m < j ==> v@[i + m] == p@[m]),
            decreases p.len() - j,
        {
            if v[i + j] != p[j] {
                ok = false;
            }
            j = j + 1;
        }
        if ok {
            assert(v@.subrange(i as int, i + p.len()) =~= p@);
            assert(occurs_at(v@, pat@, i as int));
            return true;
        }
        assert(!occurs_at(v@, pat@, i as int)) by {
            if occurs_at(v@, pat@, i as int) {
                assert forall|m: int| 0 <= m < p.len() implies v@[i + m] == p@[m] by {
                    assert(v@.subrange(i as int, i + p.len())[m] == v@[i + m]);
                }
            }
        }
        i = i + 1;
    }
    assert forall|k: int| !occurs_at(v@, pat@, k) by {
        if 0 <= k && k < i {
        }
    }
    false
}

/// `list.join(sep)`.
pub open spec fn join(list: Seq<Seq<char>>, sep: Seq<char>) -> Seq<char>
    decreases list.len(),
{
    if list.len() == 0 {
        Seq::empty()
    } else if list.len() == 1 {
        list[0]
    } else {
        join(list.drop_last(), sep) + sep + list.last()
    }
}

/// The decimal forms of a list of ids.
pub open spec fn id_strs(ids: Seq<i32>) -> Seq<Seq<char>> {
    ids.map_values(|x: i32| int_str(x as int))
}

/// `ids.iter().map(|id| id.to_string()).collect::<Vec<_>>().join(sep)`.
pub(crate) fn join_ids(ids: &Vec<i32>, sep: &str) -> (r: String)
    ensures
        r@ == join(id_strs(ids@), sep@),
{
    let mut out = String::new();
    let mut i: usize = 0;
    while i < ids.len()
        invariant
            i <= ids.len(),
            out@ == join(id_strs(ids@.take(i as int)), sep@),
        decreases ids.len() - i,
    {
        let s = int_string(ids[i] as i128);
        let ghost prev = id_strs(ids@.take(i as int));
        assert(id_strs(ids@.take(i + 1)).drop_last() =~= prev);
        assert(id_strs(ids@.take(i + 1)).last() == int_str(ids@[i as int] as int));
        if i > 0 {
            push_str(&mut out, sep);
        } else {
            assert(out@ =~= Seq::<char>::empty());
        }
        push_str(&mut out, s.as_str());
        if i == 0 {
            assert(id_strs(ids@.take(1)).len() == 1);
            assert(out@ =~= id_strs(ids@.take(1))[0]);
        }
        i = i + 1;
    }
    assert(ids@.take(ids.len() as int) =~= ids@);
    out
}

/// `v[n..]` as a new vector.
pub(crate) fn skip_chars(v: &Vec<char>, n: usize) -> (r: Vec<char>)
    requires
        n <= v.len(),
    ensures
        r@ == v@.skip(n as int),
{
    let mut r: Vec<char> = Vec::new();
    let mut i: usize = n;
    while i < v.len()
        invariant
            n <= i <= v.len(),
            r@ == v@.subrange(n as int, i as int),
        decreases v.len() - i,
    {
        r.push(v[i]);
        assert(v@.subrange(n as int, i + 1) =~= v@.subrange(n as int, i as int).push(v@[i as int]));
        i = i + 1;
    }
    assert(v@.subrange(n as int, v.len() as int) =~= v@.skip(n as int));
    r
}

/// `parse::<i32>()` of the characters in `v`.
pub(crate) fn parse_i32_chars(v: &Vec<char>) -> (r: Option<i32>)
    ensures
        r == parse_i32(v@),
{
    match parse_int_exec(v, true, i32::MIN as i64, i32::MAX as u64) {
        Some(x) => Some(x as i32),
        None => None,
    }
}

/// `parse::<i64>()` of the characters in `v`.
pub(crate) fn parse_i64_chars(v: &Vec<char>) -> (r: Option<i64>)
    ensures
        r == parse_i64(v@),
{
    match parse_int_exec(v, true, i64::MIN, i64::MAX as u64) {
        Some(x) => Some(x as i64),
        None => None,
    }
}

/// `min(str::len, cap)`: the UTF-8 length, counted no further than `cap`.
pub(crate) fn utf8_len_capped(v: &Vec<char>, cap: usize) -> (r: usize)
    requires
        cap <= usize::MAX - 4,
    ensures
        r == (if utf8_len(v@) < cap {
            utf8_len(v@)
        } else {
            cap as nat
        }),
{
    let mut n: usize = 0;
    let mut i: usize = 0;
    while i < v.len()
        invariant
            i <= v.len(),
            n == utf8_len(v@.take(i as int)),
            n < cap || (n == 0 && cap == 0),
            cap <= usize::MAX - 4,
        decreases v.len() - i,
    {
        if n >= cap {
            proof {
                lemma_utf8_len_prefix(v@, i as int);
            }
            return cap;
        }
        proof {
            assert(v@.take(i + 1).drop_last() =~= v@.take(i as int));
        }
        let c = v[i];
        let w: usize = if (c as u32) < 0x80 {
            1
        } else if (c as u32) < 0x800 {
            2
        } else if (c as u32) < 0x10000 {
            3
        } else {
            4
        };
        n = n + w;
        i = i + 1;
        if n >= cap {
            proof {
                lemma_utf8_len_prefix(v@, i as int);
            }
            return cap;
        }
    }
    assert(v@.take(v.len() as int) =~= v@);
    n
}

} // verus!
