//! String helpers shared by the parsers and lookup tables of the crate.
//!
//! Equality, trimming, prefix stripping and integer parsing are written and
//! proved here over vstd's string specifications. Lowercasing and building
//! a `String` from characters each make one call into `std`; their
//! contracts restate what `std`'s documentation promises for that call.
use vstd::prelude::*;
use vstd::std_specs::iter::IteratorSpec;

verus! {

/// Unicode lowercase mapping of a whole string, as performed by
/// `str::to_lowercase`.
pub uninterp spec fn lowercase(s: Seq<char>) -> Seq<char>;

/// A character with Unicode's `White_Space` property, which is what
/// `char::is_whitespace` and `str::trim` test: tab, line feed, vertical tab,
/// form feed, carriage return, space, next line, no-break space, ogham space
/// mark, the spaces U+2000 to U+200A, line and paragraph separators, narrow
/// no-break space, medium mathematical space and ideographic space.
pub open spec fn is_white_space(c: char) -> bool {
    let n = c as int;
    ||| 0x9 <= n <= 0xD
    ||| n == 0x20
    ||| n == 0x85
    ||| n == 0xA0
    ||| n == 0x1680
    ||| 0x2000 <= n <= 0x200A
    ||| n == 0x2028
    ||| n == 0x2029
    ||| n == 0x202F
    ||| n == 0x205F
    ||| n == 0x3000
}

/// `s` without its leading whitespace.
pub open spec fn trim_start(s: Seq<char>) -> Seq<char>
    decreases s.len(),
{
    if s.len() > 0 && is_white_space(s[0]) {
        trim_start(s.skip(1))
    } else {
        s
    }
}

/// `s` without its trailing whitespace.
pub open spec fn trim_end(s: Seq<char>) -> Seq<char>
    decreases s.len(),
{
    if s.len() > 0 && is_white_space(s.last()) {
        trim_end(s.drop_last())
    } else {
        s
    }
}

/// The string with leading and trailing whitespace removed, as `str::trim`
/// gives it.
pub open spec fn trimmed(s: Seq<char>) -> Seq<char> {
    trim_end(trim_start(s))
}

/// An ASCII capital letter `A`..=`Z`.
pub open spec fn is_ascii_capital(c: char) -> bool {
    'A' <= c && c <= 'Z'
}

/// `c` with an ASCII capital letter replaced by its small letter.
pub open spec fn ascii_lower(c: char) -> char {
    if is_ascii_capital(c) {
        ((c as int) + 32) as char
    } else {
        c
    }
}

/// Every character of `s` is ASCII.
pub open spec fn is_ascii_text(s: Seq<char>) -> bool {
    forall|i: int| 0 <= i < s.len() ==> (#[trigger] s[i] as int) < 128
}

/// `s` holds no ASCII capital letter.
pub open spec fn no_ascii_capitals(s: Seq<char>) -> bool {
    forall|i: int| 0 <= i < s.len() ==> !is_ascii_capital(#[trigger] s[i])
}

/// ASCII decimal digit `0`..=`9`.
pub open spec fn is_decimal_digit(c: char) -> bool {
    '0' <= c && c <= '9'
}

/// Value of a non-empty run of decimal digits, most significant first.
pub open spec fn decimal_value(digits: Seq<char>) -> int
    decreases digits.len(),
{
    if digits.len() == 0 {
        0
    } else {
        decimal_value(digits.drop_last()) * 10 + (digits.last() as int - '0' as int)
    }
}

/// `s` without its leading `+` or `-` sign, if it has one.
pub open spec fn unsigned_part(s: Seq<char>) -> Seq<char> {
    if s.len() > 0 && (s[0] == '+' || s[0] == '-') {
        s.skip(1)
    } else {
        s
    }
}

/// Every character of `d` is a decimal digit.
pub open spec fn all_decimal_digits(d: Seq<char>) -> bool {
    forall|i: int| 0 <= i < d.len() ==> is_decimal_digit(#[trigger] d[i])
}

/// What `str::parse::<i32>` yields: an optional `+` or `-` sign followed by
/// one or more decimal digits, whose value lies in the range of `i32`.
/// Anything else (empty input, a lone sign, whitespace, any other
/// character, overflow) is an error.
pub open spec fn parsed_i32(s: Seq<char>) -> Option<i32> {
    let digits = unsigned_part(s);
    let magnitude = decimal_value(digits);
    let value = if s.len() > 0 && s[0] == '-' { -magnitude } else { magnitude };
    if digits.len() > 0 && all_decimal_digits(digits) && i32::MIN <= value <= i32::MAX {
        Some(value as i32)
    } else {
        None
    }
}

/// Only signs and digits parse: when `parsed_i32(s)` is `Some`, `s` is not
/// empty, every character of it is a decimal digit except that the first
/// may be `+` or `-`, and it holds at least one digit. So surrounding
/// whitespace, a lone sign or any letter makes the parse fail.
pub proof fn lemma_parsed_i32_shape(s: Seq<char>)
    ensures
        parsed_i32(s) is Some ==> s.len() > 0 && (forall|i: int|
            1 <= i < s.len() ==> '0' <= #[trigger] s[i] && s[i] <= '9') && ('0' <= s[0] && s[0]
            <= '9' || ((s[0] == '+' || s[0] == '-') && s.len() > 1)),
{
    if parsed_i32(s) is Some {
        let d = unsigned_part(s);
        if s[0] == '+' || s[0] == '-' {
            assert forall|i: int| 1 <= i < s.len() implies '0' <= #[trigger] s[i] && s[i] <= '9' by {
                assert(s[i] == d[i - 1]);
                assert(is_decimal_digit(d[i - 1]));
            }
        } else {
            assert(is_decimal_digit(d[0]));
        }
    }
}

/// Digits read as a decimal number: a run of digits whose value fits in an
/// `i32` parses to that value, and with a leading `-` to its negation.
pub proof fn lemma_parsed_i32_digits(d: Seq<char>)
    requires
        d.len() > 0,
        all_decimal_digits(d),
        decimal_value(d) <= i32::MAX,
    ensures
        parsed_i32(d) == Some(decimal_value(d) as i32),
        parsed_i32(seq!['-'] + d) == Some((-decimal_value(d)) as i32),
        parsed_i32(seq!['+'] + d) == Some(decimal_value(d) as i32),
{
    lemma_decimal_prefix(d, 0);
    assert((seq!['-'] + d).skip(1) =~= d);
    assert((seq!['+'] + d).skip(1) =~= d);
    assert(unsigned_part(d) =~= d);
}

/// `Some` of a string's characters, or `None`.
pub open spec fn str_option_view(r: Option<&str>) -> Option<Seq<char>> {
    match r {
        Some(s) => Some(s@),
        None => None,
    }
}

/// String equality: true exactly when both strings hold the same
/// characters. The two strings are walked side by side.
pub(crate) fn str_eq(a: &str, b: &str) -> (r: bool)
    ensures
        r == (a@ == b@),
{
    let mut ia = a.chars();
    let mut ib = b.chars();
    let ghost mut k: int = 0;
    loop
        invariant
            0 <= k <= a@.len(),
            0 <= k <= b@.len(),
            ia.obeys_prophetic_iter_laws(),
            ib.obeys_prophetic_iter_laws(),
            ia.remaining() == a@.skip(k),
            ib.remaining() == b@.skip(k),
            a@.take(k) == b@.take(k),
        decreases a@.len() - k,
    {
        let x = ia.next();
        let y = ib.next();
        match (x, y) {
            (None, None) => {
                assert(a@ =~= a@.take(k));
                assert(b@ =~= b@.take(k));
                return true;
            },
            (Some(c), Some(d)) => {
                if c != d {
                    assert(a@[k] != b@[k]);
                    return false;
                }
                proof {
                    assert(a@.take(k + 1) =~= a@.take(k).push(c));
                    assert(b@.take(k + 1) =~= b@.take(k).push(d));
                    k = k + 1;
                }
            },
            _ => {
                return false;
            },
        }
    }
}

/// `str::to_lowercase`: the result is the Unicode lowercase mapping of the
/// input, which depends on the input alone (no locale is consulted). Being
/// lowercase, it holds no ASCII capital letter, and on ASCII text the
/// mapping turns each capital letter into its small letter and keeps every
/// other character. What it does to other characters is left to the name
/// `lowercase`.
#[verifier::external_body]
pub(crate) fn to_lowercase(s: &str) -> (r: String)
    ensures
        r@ == lowercase(s@),
        no_ascii_capitals(r@),
        is_ascii_text(s@) ==> r@ == s@.map_values(|c: char| ascii_lower(c)),
{
    s.to_lowercase()
}

/// A whitespace character, as `is_white_space` describes it.
fn is_white_space_char(c: char) -> (r: bool)
    ensures
        r == is_white_space(c),
{
    let n = c as u32;
    (0x9 <= n && n <= 0xD) || n == 0x20 || n == 0x85 || n == 0xA0 || n == 0x1680 || (0x2000 <= n
        && n <= 0x200A) || n == 0x2028 || n == 0x2029 || n == 0x202F || n == 0x205F || n == 0x3000
}

/// Skipping `f` leading whitespace characters, up to the first other
/// character, is what `trim_start` does.
proof fn lemma_trim_start_at(s: Seq<char>, f: int)
    requires
        0 <= f <= s.len(),
        forall|i: int| 0 <= i < f ==> is_white_space(#[trigger] s[i]),
        f == s.len() || !is_white_space(s[f]),
    ensures
        trim_start(s) == s.skip(f),
    decreases f,
{
    if f == 0 {
        assert(s.skip(0) =~= s);
    } else {
        let t = s.skip(1);
        assert forall|i: int| 0 <= i < f - 1 implies is_white_space(#[trigger] t[i]) by {
            assert(t[i] == s[i + 1]);
        }
        lemma_trim_start_at(t, f - 1);
        assert(t.skip(f - 1) =~= s.skip(f));
    }
}

/// Keeping the first `l` characters, where everything after them is
/// whitespace and the last kept one is not, is what `trim_end` does.
proof fn lemma_trim_end_at(t: Seq<char>, l: int)
    requires
        0 <= l <= t.len(),
        forall|i: int| l <= i < t.len() ==> is_white_space(#[trigger] t[i]),
        l == 0 || !is_white_space(t[l - 1]),
    ensures
        trim_end(t) == t.take(l),
    decreases t.len() - l,
{
    if t.len() == l {
        assert(t.take(l) =~= t);
    } else {
        let d = t.drop_last();
        assert(is_white_space(t[t.len() - 1]));
        lemma_trim_end_at(d, l);
        assert(d.take(l) =~= t.take(l));
    }
}

/// The input without leading and trailing whitespace (Unicode's
/// `White_Space` property), as `str::trim` gives it.
pub(crate) fn trim(s: &str) -> (r: &str)
    ensures
        r@ == trimmed(s@),
{
    let n = s.unicode_len();
    let mut start: usize = 0;
    let mut end: usize = 0;
    let mut seen = false;
    let mut i: usize = 0;
    for c in it: s.chars()
        invariant
            it.seq() == s@,
            n == s@.len(),
            i == it.index(),
            seen ==> start < end <= i && !is_white_space(s@[start as int]) && !is_white_space(
                s@[end - 1],
            ),
            forall|j: int| 0 <= j < (if seen { start as int } else { i as int }) ==> is_white_space(
                #[trigger] s@[j],
            ),
            seen ==> forall|j: int| end <= j < i ==> is_white_space(#[trigger] s@[j]),
    {
        if !is_white_space_char(c) {
            if !seen {
                start = i;
                seen = true;
            }
            end = i + 1;
        }
        i = i + 1;
    }
    if seen {
        proof {
            lemma_trim_start_at(s@, start as int);
            let t = s@.skip(start as int);
            assert forall|j: int| end - start <= j < t.len() implies is_white_space(
                #[trigger] t[j],
            ) by {
                assert(t[j] == s@[j + start]);
            }
            assert(t[end - start - 1] == s@[end - 1]);
            lemma_trim_end_at(t, end - start);
            assert(t.take(end - start) =~= s@.subrange(start as int, end as int));
        }
        s.substring_char(start, end)
    } else {
        proof {
            lemma_trim_start_at(s@, n as int);
            assert(s@.skip(n as int).len() == 0);
        }
        s.substring_char(n, n)
    }
}

/// `Some` of the rest of `s` when `s` starts with `prefix`, `None`
/// otherwise, as `str::strip_prefix` gives it.
pub(crate) fn strip_prefix<'a>(s: &'a str, prefix: &str) -> (r: Option<&'a str>)
    ensures
        match r {
            Some(rest) => prefix@.is_prefix_of(s@) && rest@ == s@.skip(prefix@.len() as int),
            None => !prefix@.is_prefix_of(s@),
        },
{
    let n = s.unicode_len();
    let mut is = s.chars();
    let mut ip = prefix.chars();
    let mut k: usize = 0;
    loop
        invariant
            n == s@.len(),
            k <= s@.len(),
            k <= prefix@.len(),
            is.obeys_prophetic_iter_laws(),
            ip.obeys_prophetic_iter_laws(),
            is.remaining() == s@.skip(k as int),
            ip.remaining() == prefix@.skip(k as int),
            s@.take(k as int) == prefix@.take(k as int),
        decreases s@.len() - k,
    {
        match ip.next() {
            None => {
                assert(prefix@.take(k as int) =~= prefix@);
                assert(prefix@ =~= s@.subrange(0, prefix@.len() as int));
                return Some(s.substring_char(k, n));
            },
            Some(p) => match is.next() {
                None => {
                    return None;
                },
                Some(c) => {
                    if c != p {
                        assert(s@[k as int] != prefix@[k as int]);
                        return None;
                    }
                    assert(s@.take(k + 1) =~= s@.take(k as int).push(c));
                    assert(prefix@.take(k + 1) =~= prefix@.take(k as int).push(p));
                    k = k + 1;
                },
            },
        }
    }
}

/// A run of decimal digits has a value no smaller than that of any of its
/// prefixes, and no value below zero.
proof fn lemma_decimal_prefix(d: Seq<char>, m: int)
    requires
        0 <= m <= d.len(),
        forall|i: int| 0 <= i < d.len() ==> is_decimal_digit(#[trigger] d[i]),
    ensures
        0 <= decimal_value(d.take(m)) <= decimal_value(d),
    decreases d.len(),
{
    if m == d.len() {
        assert(d.take(m) =~= d);
        if d.len() > 0 {
            lemma_decimal_prefix(d.drop_last(), 0);
        }
    } else {
        let e = d.drop_last();
        assert forall|i: int| 0 <= i < e.len() implies is_decimal_digit(#[trigger] e[i]) by {
            assert(e[i] == d[i]);
        }
        lemma_decimal_prefix(e, m);
        assert(e.take(m) =~= d.take(m));
        assert(is_decimal_digit(d[d.len() - 1]));
    }
}

/// The value of `s` read as an `i32` (an optional `+` or `-` sign, then
/// decimal digits), or `None`, as `str::parse::<i32>` gives it.
pub(crate) fn parse_i32(s: &str) -> (r: Option<i32>)
    ensures
        r == parsed_i32(s@),
{
    let n = s.unicode_len();
    if n == 0 {
        return None;
    }
    let first = s.get_char(0);
    let negative = first == '-';
    let start: usize = if first == '+' || first == '-' {
        1
    } else {
        0
    };
    let digits = s.substring_char(start, n);
    let ghost d = digits@;
    assert(d =~= unsigned_part(s@));
    if start == n {
        return None;
    }
    let mut magnitude: i64 = 0;
    for c in it: digits.chars()
        invariant
            it.seq() == d,
            d.len() > 0,
            forall|j: int| 0 <= j < it.index() ==> is_decimal_digit(#[trigger] d[j]),
            magnitude == decimal_value(d.take(it.index())),
            0 <= magnitude <= 0x8000_0000,
            d == unsigned_part(s@),
            s@.len() > 0,
            negative == (s@[0] == '-'),
    {
        if !('0' <= c && c <= '9') {
            assert(!is_decimal_digit(d[it.index() as int]));
            return None;
        }
        proof {
            assert(d.take(it.index() + 1).drop_last() =~= d.take(it.index()));
        }
        magnitude = magnitude * 10 + (c as u32 - '0' as u32) as i64;
        if magnitude > 0x8000_0000 {
            proof {
                if all_decimal_digits(d) {
                    lemma_decimal_prefix(d, it.index() + 1);
                }
            }
            return None;
        }
    }
    proof {
        assert(d.take(d.len() as int) =~= d);
    }
    if negative {
        Some((-magnitude) as i32)
    } else if magnitude <= 0x7fff_ffff {
        Some(magnitude as i32)
    } else {
        None
    }
}

/// `String::from_iter` over characters: a string holding exactly `chars`.
#[verifier::external_body]
pub(crate) fn string_from_chars(chars: Vec<char>) -> (r: String)
    ensures
        r@ == chars@,
{
    String::from_iter(chars)
}

} // verus!
