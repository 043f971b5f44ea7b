//! Text primitives over character sequences.
//!
//! Every contract in the crate speaks of strings through their view, a
//! `Seq<char>`. The functions here turn strings into character vectors and
//! back, and search, trim, split and rewrite them with exact contracts.

use vstd::prelude::*;

verus! {

broadcast use vstd::string::group_string_axioms;

// ---------------------------------------------------------------------------
// Trusted: functions of std for which vstd states no contract
// ---------------------------------------------------------------------------

/// The lowercase equivalent of a character sequence, as `str::to_lowercase`
/// computes it from the Unicode tables compiled into std.
pub uninterp spec fn lowercase_of(s: Seq<char>) -> Seq<char>;

/// `String::push`: appends one character to the end of the string.
#[verifier::external_body]
pub(crate) fn push_char(s: &mut String, c: char)
    ensures
        final(s)@ == old(s)@.push(c),
{
    s.push(c);
}

/// `str::to_lowercase`: the result is named by [`lowercase_of`]; nothing
/// else is claimed of it.
#[verifier::external_body]
pub(crate) fn lowercase(s: &str) -> (r: String)
    ensures
        r@ == lowercase_of(s@),
{
    s.to_lowercase()
}

// ---------------------------------------------------------------------------
// Conversions
// ---------------------------------------------------------------------------

/// The characters of a string, in order.
pub fn chars_of(s: &str) -> (v: Vec<char>)
    ensures
        v@ == s@,
{
    let mut v: Vec<char> = Vec::new();
    for c in it: s.chars()
        invariant
            it.seq() == s@,
            v@ == it.seq().take(it.index() as int),
    {
        v.push(c);
    }
    v
}

/// The string made of the characters `v[from..to]`.
pub fn string_of_range(v: &Vec<char>, from: usize, to: usize) -> (s: String)
    requires
        from <= to <= v@.len(),
    ensures
        s@ == v@.subrange(from as int, to as int),
{
    let mut s = String::new();
    let mut i: usize = from;
    while i < to
        invariant
            from <= i <= to <= v@.len(),
            s@ == v@.subrange(from as int, i as int),
        decreases to - i,
    {
        push_char(&mut s, v[i]);
        i += 1;
    }
    s
}

/// The string made of the characters of `v`.
pub fn string_of(v: &Vec<char>) -> (s: String)
    ensures
        s@ == v@,
{
    let s = string_of_range(v, 0, v.len());
    assert(v@.subrange(0, v@.len() as int) == v@);
    s
}

/// Appends the characters of `tail` to `out`.
pub fn extend_chars(out: &mut Vec<char>, tail: &Vec<char>)
    ensures
        final(out)@ == old(out)@ + tail@,
{
    let mut i: usize = 0;
    while i < tail.len()
        invariant
            i <= tail@.len(),
            out@ == old(out)@ + tail@.subrange(0, i as int),
        decreases tail@.len() - i,
    {
        out.push(tail[i]);
        i += 1;
    }
    assert(tail@.subrange(0, tail@.len() as int) == tail@);
}

/// Appends the characters of the string `tail` to `out`.
pub fn extend_str(out: &mut Vec<char>, tail: &str)
    ensures
        final(out)@ == old(out)@ + tail@,
{
    let t = chars_of(tail);
    extend_chars(out, &t);
}

/// `a` followed by `b`.
pub fn joined(a: &str, b: &str) -> (s: String)
    ensures
        s@ == a@ + b@,
{
    let mut v = chars_of(a);
    extend_str(&mut v, b);
    string_of(&v)
}

/// `a`, `b` and `c` one after the other.
pub fn joined3(a: &str, b: &str, c: &str) -> (s: String)
    ensures
        s@ == a@ + b@ + c@,
{
    let mut v = chars_of(a);
    extend_str(&mut v, b);
    extend_str(&mut v, c);
    string_of(&v)
}

// ---------------------------------------------------------------------------
// Equality and search
// ---------------------------------------------------------------------------

/// Whether two character vectors hold the same characters.
pub fn chars_eq(a: &Vec<char>, b: &Vec<char>) -> (r: bool)
    ensures
        r == (a@ == b@),
{
    if a.len() != b.len() {
        return false;
    }
    let mut i: usize = 0;
    while i < a.len()
        invariant
            a@.len() == b@.len(),
            i <= a@.len(),
            forall|j: int| 0 <= j < i ==> a@[j] == b@[j],
        decreases a@.len() - i,
    {
        if a[i] != b[i] {
            return false;
        }
        i += 1;
    }
    assert(a@ =~= b@);
    true
}

/// Whether two strings hold the same characters.
pub fn str_eq(a: &str, b: &str) -> (r: bool)
    ensures
        r == (a@ == b@),
{
    let x = chars_of(a);
    let y = chars_of(b);
    chars_eq(&x, &y)
}

/// `needle` stands in `hay` at index `i`.
pub open spec fn occurs_at(hay: Seq<char>, needle: Seq<char>, i: int) -> bool {
    0 <= i && i + needle.len() <= hay.len() && hay.subrange(i, i + needle.len()) == needle
}

/// `needle` stands somewhere in `hay`.
pub open spec fn contains_seq(hay: Seq<char>, needle: Seq<char>) -> bool {
    exists|i: int| occurs_at(hay, needle, i)
}

/// `hay` begins with `prefix`.
pub open spec fn has_prefix(hay: Seq<char>, prefix: Seq<char>) -> bool {
    occurs_at(hay, prefix, 0)
}

/// Whether `needle` stands in `hay` at index `i`.
pub fn matches_at(hay: &Vec<char>, needle: &Vec<char>, i: usize) -> (r: bool)
    ensures
        r == occurs_at(hay@, needle@, i as int),
{
    if i > hay.len() || needle.len() > hay.len() - i {
        return false;
    }
    let mut k: usize = 0;
    while k < needle.len()
        invariant
            i + needle@.len() <= hay@.len() <= usize::MAX,
            k <= needle@.len(),
            forall|j: int| 0 <= j < k ==> hay@[i + j] == needle@[j],
        decreases needle@.len() - k,
    {
        if hay[i + k] != needle[k] {
            assert(hay@.subrange(i as int, i + needle@.len())[k as int] == hay@[i + k]);
            return false;
        }
        k += 1;
    }
    assert(hay@.subrange(i as int, i + needle@.len()) =~= needle@);
    true
}

/// The first index at or after `from` at which `needle` stands in `hay`.
pub open spec fn first_index(hay: Seq<char>, needle: Seq<char>, from: int) -> Option<int>
    decreases hay.len() - from,
{
    if from < 0 || from + needle.len() > hay.len() {
        None
    } else if occurs_at(hay, needle, from) {
        Some(from)
    } else if from >= hay.len() {
        None
    } else {
        first_index(hay, needle, from + 1)
    }
}

/// An index that may be absent, as an integer.
pub open spec fn opt_index(o: Option<usize>) -> Option<int> {
    match o {
        Some(i) => Some(i as int),
        None => None,
    }
}

/// The first index at or after `from` at which `needle` stands in `hay`.
pub fn find_from(hay: &Vec<char>, needle: &Vec<char>, from: usize) -> (r: Option<usize>)
    ensures
        opt_index(r) == first_index(hay@, needle@, from as int),
        match r {
            Some(i) => from <= i && occurs_at(hay@, needle@, i as int) && forall|j: int|
                from <= j < i ==> !occurs_at(hay@, needle@, j),
            None => forall|j: int| from <= j ==> !occurs_at(hay@, needle@, j),
        },
{
    if from > hay.len() || needle.len() > hay.len() - from {
        return None;
    }
    let mut i: usize = from;
    while needle.len() <= hay.len() - i
        invariant
            from <= i <= hay@.len() <= usize::MAX,
            forall|j: int| from <= j < i ==> !occurs_at(hay@, needle@, j),
            first_index(hay@, needle@, from as int) == first_index(hay@, needle@, i as int),
        decreases hay@.len() - i,
    {
        if matches_at(hay, needle, i) {
            return Some(i);
        }
        if i == hay.len() {
            assert(hay@.subrange(i as int, i as int) =~= needle@);
            assert(false);
        }
        i += 1;
    }
    None
}

/// Whether `needle` stands somewhere in `hay`.
pub fn contains_chars(hay: &Vec<char>, needle: &Vec<char>) -> (r: bool)
    ensures
        r == contains_seq(hay@, needle@),
{
    match find_from(hay, needle, 0) {
        Some(_) => true,
        None => false,
    }
}

/// Whether the string `needle` stands somewhere in the string `hay`.
pub fn str_contains(hay: &str, needle: &str) -> (r: bool)
    ensures
        r == contains_seq(hay@, needle@),
{
    let h = chars_of(hay);
    let n = chars_of(needle);
    contains_chars(&h, &n)
}

/// Whether `hay` begins with `prefix`.
pub fn starts_with(hay: &Vec<char>, prefix: &Vec<char>) -> (r: bool)
    ensures
        r == has_prefix(hay@, prefix@),
{
    matches_at(hay, prefix, 0)
}

// ---------------------------------------------------------------------------
// Replacement
// ---------------------------------------------------------------------------

/// One replacement fewer under a limit; no limit stays no limit.
pub open spec fn one_fewer(limit: Option<nat>) -> Option<nat> {
    match limit {
        Some(n) => Some((n - 1) as nat),
        None => None,
    }
}

/// `s` with the occurrences of `pat` replaced by `to`, from the left and
/// without overlap, at most `limit` of them where a limit is given. An empty
/// pattern matches before every character and at the end.
pub open spec fn replace_spec(s: Seq<char>, pat: Seq<char>, to: Seq<char>, limit: Option<nat>) -> Seq<
    char,
>
    decreases s.len(),
{
    if limit == Some(0nat) {
        s
    } else if pat.len() == 0 {
        if s.len() == 0 {
            to
        } else {
            to + seq![s[0]] + replace_spec(s.drop_first(), pat, to, one_fewer(limit))
        }
    } else if has_prefix(s, pat) {
        to + replace_spec(s.subrange(pat.len() as int, s.len() as int), pat, to, one_fewer(limit))
    } else if s.len() == 0 {
        s
    } else {
        seq![s[0]] + replace_spec(s.drop_first(), pat, to, limit)
    }
}

/// Replaces occurrences of `pat` in `s` by `to`: all of them, or the first
/// `limit`.
pub fn replace_chars(s: &Vec<char>, pat: &Vec<char>, to: &Vec<char>, limit: Option<usize>) -> (r:
    Vec<char>)
    ensures
        r@ == replace_spec(
            s@,
            pat@,
            to@,
            match limit {
                Some(n) => Some(n as nat),
                None => None,
            },
        ),
{
    let ghost whole = replace_spec(
        s@,
        pat@,
        to@,
        match limit {
            Some(n) => Some(n as nat),
            None => None,
        },
    );
    let mut out: Vec<char> = Vec::new();
    let mut i: usize = 0;
    let mut left: Option<usize> = limit;
    let total: usize = s.len();
    assert(s@.subrange(0, s@.len() as int) == s@);
    loop
        invariant_except_break
            i <= s@.len() == total,
            out@ + replace_spec(
                s@.subrange(i as int, s@.len() as int),
                pat@,
                to@,
                match left {
                    Some(n) => Some(n as nat),
                    None => None,
                },
            ) == whole,
        ensures
            out@ == whole,
        decreases s@.len() - i,
    {
        let ghost rest = s@.subrange(i as int, s@.len() as int);
        let exhausted = match left {
            Some(n) => n == 0,
            None => false,
        };
        if exhausted {
            let mut k: usize = i;
            while k < s.len()
                invariant
                    i <= k <= s@.len(),
                    out@ + s@.subrange(k as int, s@.len() as int) == whole,
                decreases s@.len() - k,
            {
                out.push(s[k]);
                assert(s@.subrange(k as int, s@.len() as int) == seq![s@[k as int]] + s@.subrange(
                    k + 1,
                    s@.len() as int,
                ));
                k += 1;
            }
            break ;
        }
        let fewer: Option<usize> = match left {
            Some(n) => Some((n - 1) as usize),
            None => None,
        };
        if pat.len() == 0 {
            if i == s.len() {
                extend_chars(&mut out, to);
                break ;
            }
            extend_chars(&mut out, to);
            out.push(s[i]);
            assert(rest.drop_first() == s@.subrange(i + 1, s@.len() as int));
            i += 1;
            left = fewer;
        } else if matches_at(s, pat, i) {
            assert(rest.subrange(0, pat@.len() as int) == s@.subrange(i as int, i + pat@.len()));
            assert(has_prefix(rest, pat@));
            extend_chars(&mut out, to);
            assert(rest.subrange(pat@.len() as int, rest.len() as int) == s@.subrange(
                i + pat@.len(),
                s@.len() as int,
            ));
            i += pat.len();
            left = fewer;
        } else {
            assert(!has_prefix(rest, pat@)) by {
                if has_prefix(rest, pat@) {
                    assert(rest.subrange(0, pat@.len() as int) == s@.subrange(
                        i as int,
                        i + pat@.len(),
                    ));
                }
            }
            if i == s.len() {
                break ;
            }
            out.push(s[i]);
            assert(rest.drop_first() == s@.subrange(i + 1, s@.len() as int));
            i += 1;
        }
    }
    out
}

/// The number of occurrences of `pat` in `s`, counted from the left and
/// without overlap. An empty pattern occurs before every character and at
/// the end.
pub open spec fn match_count(s: Seq<char>, pat: Seq<char>) -> nat
    decreases s.len(),
{
    if pat.len() == 0 {
        s.len() + 1
    } else if has_prefix(s, pat) {
        1 + match_count(s.subrange(pat.len() as int, s.len() as int), pat)
    } else if s.len() == 0 {
        0
    } else {
        match_count(s.drop_first(), pat)
    }
}

/// The number of occurrences of `pat` in `s`, or the largest number there
/// is where there are more.
pub fn count_matches(s: &Vec<char>, pat: &Vec<char>) -> (n: usize)
    ensures
        n == if match_count(s@, pat@) > usize::MAX {
            usize::MAX as nat
        } else {
            match_count(s@, pat@)
        },
{
    let total: usize = s.len();
    if pat.len() == 0 {
        return if total == usize::MAX {
            usize::MAX
        } else {
            total + 1
        };
    }
    let mut n: usize = 0;
    let mut i: usize = 0;
    assert(s@.subrange(0, s@.len() as int) == s@);
    while i < total
        invariant
            i <= s@.len() == total,
            pat@.len() > 0,
            n <= i,
            n + match_count(s@.subrange(i as int, s@.len() as int), pat@) == match_count(s@, pat@),
        decreases s@.len() - i,
    {
        let ghost rest = s@.subrange(i as int, s@.len() as int);
        if matches_at(s, pat, i) {
            assert(rest.subrange(0, pat@.len() as int) == s@.subrange(i as int, i + pat@.len()));
            assert(rest.subrange(pat@.len() as int, rest.len() as int) == s@.subrange(
                i + pat@.len(),
                s@.len() as int,
            ));
            n += 1;
            i += pat.len();
        } else {
            assert(!has_prefix(rest, pat@)) by {
                if has_prefix(rest, pat@) {
                    assert(rest.subrange(0, pat@.len() as int) == s@.subrange(
                        i as int,
                        i + pat@.len(),
                    ));
                }
            }
            assert(rest.drop_first() == s@.subrange(i + 1, s@.len() as int));
            i += 1;
        }
    }
    assert(s@.subrange(s@.len() as int, s@.len() as int).len() == 0);
    n
}

/// `s` with every occurrence of `pat` replaced by `to`.
pub fn str_replace(s: &str, pat: &str, to: &str) -> (r: String)
    ensures
        r@ == replace_spec(s@, pat@, to@, None),
{
    let v = replace_chars(&chars_of(s), &chars_of(pat), &chars_of(to), None);
    string_of(&v)
}

/// `s` with the first occurrence of `pat` replaced by `to`.
pub fn str_replace_first(s: &str, pat: &str, to: &str) -> (r: String)
    ensures
        r@ == replace_spec(s@, pat@, to@, Some(1nat)),
{
    let v = replace_chars(&chars_of(s), &chars_of(pat), &chars_of(to), Some(1));
    string_of(&v)
}


// ---------------------------------------------------------------------------
// Whitespace
// ---------------------------------------------------------------------------

/// The characters with the Unicode property White_Space.
pub open spec fn is_space(c: char) -> bool {
    let u = c as u32;
    ||| 0x09 <= u <= 0x0D
    ||| u == 0x20
    ||| u == 0x85
    ||| u == 0xA0
    ||| u == 0x1680
    ||| 0x2000 <= u <= 0x200A
    ||| u == 0x2028
    ||| u == 0x2029
    ||| u == 0x202F
    ||| u == 0x205F
    ||| u == 0x3000
}

/// Whether `c` has the Unicode property White_Space.
pub fn is_whitespace(c: char) -> (r: bool)
    ensures
        r == is_space(c),
{
    let u: u32 = c as u32;
    (0x09 <= u && u <= 0x0D) || u == 0x20 || u == 0x85 || u == 0xA0 || u == 0x1680 || (0x2000 <= u
        && u <= 0x200A) || u == 0x2028 || u == 0x2029 || u == 0x202F || u == 0x205F || u == 0x3000
}

/// `s` without its leading whitespace.
pub open spec fn trim_start_spec(s: Seq<char>) -> Seq<char>
    decreases s.len(),
{
    if s.len() > 0 && is_space(s[0]) {
        trim_start_spec(s.drop_first())
    } else {
        s
    }
}

/// `s` without its trailing whitespace.
pub open spec fn trim_end_spec(s: Seq<char>) -> Seq<char>
    decreases s.len(),
{
    if s.len() > 0 && is_space(s.last()) {
        trim_end_spec(s.drop_last())
    } else {
        s
    }
}

/// `s` without leading and trailing whitespace.
pub open spec fn trim_spec(s: Seq<char>) -> Seq<char> {
    trim_end_spec(trim_start_spec(s))
}

/// The index of the first character at or after `from` that is no
/// whitespace, or the length of `v`.
pub fn skip_spaces(v: &Vec<char>, from: usize) -> (a: usize)
    requires
        from <= v@.len(),
    ensures
        from <= a <= v@.len(),
        v@.subrange(a as int, v@.len() as int) == trim_start_spec(
            v@.subrange(from as int, v@.len() as int),
        ),
{
    let mut a: usize = from;
    while a < v.len() && is_whitespace(v[a])
        invariant
            from <= a <= v@.len(),
            trim_start_spec(v@.subrange(a as int, v@.len() as int)) == trim_start_spec(
                v@.subrange(from as int, v@.len() as int),
            ),
        decreases v@.len() - a,
    {
        assert(v@.subrange(a as int, v@.len() as int).drop_first() == v@.subrange(
            a + 1,
            v@.len() as int,
        ));
        a += 1;
    }
    a
}

/// The end of `v[from..to]` once its trailing whitespace is left out.
pub fn skip_spaces_back(v: &Vec<char>, from: usize, to: usize) -> (b: usize)
    requires
        from <= to <= v@.len(),
    ensures
        from <= b <= to,
        v@.subrange(from as int, b as int) == trim_end_spec(v@.subrange(from as int, to as int)),
{
    let mut b: usize = to;
    while b > from && is_whitespace(v[b - 1])
        invariant
            from <= b <= to <= v@.len(),
            trim_end_spec(v@.subrange(from as int, b as int)) == trim_end_spec(
                v@.subrange(from as int, to as int),
            ),
        decreases b,
    {
        assert(v@.subrange(from as int, b as int).drop_last() == v@.subrange(
            from as int,
            b - 1,
        ));
        b -= 1;
    }
    b
}

/// `s` without leading and trailing whitespace.
pub fn trim(s: &str) -> (r: String)
    ensures
        r@ == trim_spec(s@),
{
    let v = chars_of(s);
    let a = skip_spaces(&v, 0);
    let b = skip_spaces_back(&v, a, v.len());
    assert(v@.subrange(0, v@.len() as int) == v@);
    string_of_range(&v, a, b)
}

// ---------------------------------------------------------------------------
// Numbers
// ---------------------------------------------------------------------------

/// The character of a decimal digit.
pub open spec fn digit_char(d: nat) -> char {
    if d == 0 {
        '0'
    } else if d == 1 {
        '1'
    } else if d == 2 {
        '2'
    } else if d == 3 {
        '3'
    } else if d == 4 {
        '4'
    } else if d == 5 {
        '5'
    } else if d == 6 {
        '6'
    } else if d == 7 {
        '7'
    } else if d == 8 {
        '8'
    } else {
        '9'
    }
}

/// The decimal digits of `n`, without leading zeros.
pub open spec fn decimal_spec(n: nat) -> Seq<char>
    decreases n,
{
    if n < 10 {
        seq![digit_char(n)]
    } else {
        decimal_spec(n / 10).push(digit_char(n % 10))
    }
}

/// The decimal form of an integer, with a minus sign where it is negative.
pub open spec fn signed_decimal_spec(i: int) -> Seq<char> {
    if i < 0 {
        seq!['-'] + decimal_spec((-i) as nat)
    } else {
        decimal_spec(i as nat)
    }
}

fn digit(d: u64) -> (c: char)
    requires
        d < 10,
    ensures
        c == digit_char(d as nat),
{
    if d == 0 {
        '0'
    } else if d == 1 {
        '1'
    } else if d == 2 {
        '2'
    } else if d == 3 {
        '3'
    } else if d == 4 {
        '4'
    } else if d == 5 {
        '5'
    } else if d == 6 {
        '6'
    } else if d == 7 {
        '7'
    } else if d == 8 {
        '8'
    } else {
        '9'
    }
}

/// Appends the decimal digits of `n` to `out`.
pub fn push_decimal(out: &mut Vec<char>, n: u64)
    ensures
        final(out)@ == old(out)@ + decimal_spec(n as nat),
    decreases n,
{
    if n >= 10 {
        push_decimal(out, n / 10);
    }
    out.push(digit(n % 10));
}

/// Appends the decimal form of `i` to `out`.
pub fn push_signed_decimal(out: &mut Vec<char>, i: i64)
    ensures
        final(out)@ == old(out)@ + signed_decimal_spec(i as int),
{
    if i < 0 {
        out.push('-');
        let m: u64 = if i == i64::MIN {
            9223372036854775808u64
        } else {
            (-i) as u64
        };
        push_decimal(out, m);
    } else {
        push_decimal(out, i as u64);
    }
}

/// The decimal digits of `n`.
pub fn decimal(n: u64) -> (r: String)
    ensures
        r@ == decimal_spec(n as nat),
{
    let mut v: Vec<char> = Vec::new();
    push_decimal(&mut v, n);
    string_of(&v)
}

// ---------------------------------------------------------------------------
// Lengths in bytes
// ---------------------------------------------------------------------------

/// The number of bytes that UTF-8 takes for `c`.
pub open spec fn char_width(c: char) -> nat {
    let u = c as u32;
    if u < 0x80 {
        1
    } else if u < 0x800 {
        2
    } else if u < 0x10000 {
        3
    } else {
        4
    }
}

/// The number of bytes that UTF-8 takes for `s`.
pub open spec fn utf8_len(s: Seq<char>) -> nat
    decreases s.len(),
{
    if s.len() == 0 {
        0
    } else {
        char_width(s[0]) + utf8_len(s.drop_first())
    }
}

/// The width in bytes of `c`.
pub fn width_of(c: char) -> (w: usize)
    ensures
        w == char_width(c),
        1 <= w <= 4,
{
    let u: u32 = c as u32;
    if u < 0x80 {
        1
    } else if u < 0x800 {
        2
    } else if u < 0x10000 {
        3
    } else {
        4
    }
}

/// The byte length of a text is the sum of the byte lengths of its parts.
pub proof fn lemma_utf8_len_concat(a: Seq<char>, b: Seq<char>)
    ensures
        utf8_len(a + b) == utf8_len(a) + utf8_len(b),
    decreases a.len(),
{
    if a.len() == 0 {
        assert(a + b == b);
    } else {
        assert((a + b).drop_first() == a.drop_first() + b);
        lemma_utf8_len_concat(a.drop_first(), b);
    }
}

/// [`utf8_len`] is the length of the UTF-8 encoding.
pub proof fn lemma_utf8_len_is_encoded_len(s: Seq<char>)
    ensures
        utf8_len(s) == vstd::utf8::encode_utf8(s).len(),
    decreases s.len(),
{
    if s.len() > 0 {
        vstd::utf8::char_is_scalar(s[0]);
        assert(vstd::utf8::encode_scalar(s[0] as u32).len() == char_width(s[0]));
        lemma_utf8_len_is_encoded_len(s.drop_first());
    }
}

/// The length of `s` in bytes.
pub fn byte_len(s: &str) -> (n: usize)
    ensures
        n == utf8_len(s@),
{
    proof {
        lemma_utf8_len_is_encoded_len(s@);
    }
    s.as_bytes().len()
}


/// The longest prefix of `s` that takes at most `max` bytes.
pub open spec fn prefix_within(s: Seq<char>, max: nat) -> Seq<char>
    decreases s.len(),
{
    if s.len() == 0 || char_width(s[0]) > max {
        Seq::empty()
    } else {
        seq![s[0]] + prefix_within(s.drop_first(), (max - char_width(s[0])) as nat)
    }
}

/// The longest suffix of `s` that takes at most `max` bytes.
pub open spec fn suffix_within(s: Seq<char>, max: nat) -> Seq<char>
    decreases s.len(),
{
    if s.len() == 0 || char_width(s.last()) > max {
        Seq::empty()
    } else {
        suffix_within(s.drop_last(), (max - char_width(s.last())) as nat).push(s.last())
    }
}

/// The number of characters in the longest prefix of `v` that takes at most
/// `max` bytes.
pub fn prefix_end(v: &Vec<char>, max: usize) -> (k: usize)
    ensures
        k <= v@.len(),
        v@.subrange(0, k as int) == prefix_within(v@, max as nat),
{
    let mut k: usize = 0;
    let mut used: usize = 0;
    assert(v@.subrange(0, v@.len() as int) == v@);
    while k < v.len() && width_of(v[k]) <= max - used
        invariant
            k <= v@.len(),
            used <= max,
            v@.subrange(0, k as int) + prefix_within(
                v@.subrange(k as int, v@.len() as int),
                (max - used) as nat,
            ) == prefix_within(v@, max as nat),
        decreases v@.len() - k,
    {
        let ghost rest = v@.subrange(k as int, v@.len() as int);
        assert(rest.drop_first() == v@.subrange(k + 1, v@.len() as int));
        assert(v@.subrange(0, k + 1) == v@.subrange(0, k as int) + seq![rest[0]]);
        used += width_of(v[k]);
        k += 1;
    }
    k
}

/// The index at which the longest suffix of `v` that takes at most `max`
/// bytes begins.
pub fn suffix_start(v: &Vec<char>, max: usize) -> (k: usize)
    ensures
        k <= v@.len(),
        v@.subrange(k as int, v@.len() as int) == suffix_within(v@, max as nat),
{
    let mut k: usize = v.len();
    let mut used: usize = 0;
    assert(v@.subrange(0, v@.len() as int) == v@);
    while k > 0 && width_of(v[k - 1]) <= max - used
        invariant
            k <= v@.len(),
            used <= max,
            suffix_within(v@.subrange(0, k as int), (max - used) as nat) + v@.subrange(
                k as int,
                v@.len() as int,
            ) == suffix_within(v@, max as nat),
        decreases k,
    {
        let ghost front = v@.subrange(0, k as int);
        assert(front.drop_last() == v@.subrange(0, k - 1));
        assert(v@.subrange(k - 1, v@.len() as int) == seq![front.last()] + v@.subrange(
            k as int,
            v@.len() as int,
        ));
        used += width_of(v[k - 1]);
        k -= 1;
    }
    k
}

/// A suffix cut to a number of bytes takes no more than that number, and a
/// text that fits is kept whole.
pub proof fn lemma_suffix_within(s: Seq<char>, max: nat)
    ensures
        utf8_len(suffix_within(s, max)) <= max,
        utf8_len(s) <= max ==> suffix_within(s, max) == s,
        suffix_within(s, max).len() <= s.len(),
        suffix_within(s, max) == s.subrange(s.len() - suffix_within(s, max).len(), s.len() as int),
    decreases s.len(),
{
    if s.len() == 0 {
        assert(s.subrange(0, 0) == s);
    } else {
        let w = char_width(s.last());
        assert(s == s.drop_last().push(s.last()));
        lemma_utf8_len_concat(s.drop_last(), seq![s.last()]);
        assert(utf8_len(seq![s.last()]) == w) by {
            assert(seq![s.last()].drop_first() =~= Seq::<char>::empty());
            assert(utf8_len(Seq::<char>::empty()) == 0);
            assert(seq![s.last()][0] == s.last());
        }
        assert(s.drop_last() + seq![s.last()] == s);
        if w <= max {
            let inner = suffix_within(s.drop_last(), (max - w) as nat);
            lemma_suffix_within(s.drop_last(), (max - w) as nat);
            lemma_utf8_len_concat(inner, seq![s.last()]);
            assert(inner.push(s.last()) == inner + seq![s.last()]);
            assert(inner.push(s.last()) == s.subrange(s.len() - inner.len() - 1, s.len() as int));
        } else {
            assert(s.subrange(s.len() as int, s.len() as int) == Seq::<char>::empty());
        }
    }
}

// ---------------------------------------------------------------------------
// Lists of strings
// ---------------------------------------------------------------------------

/// The views of a sequence of strings.
pub open spec fn views(v: Seq<String>) -> Seq<Seq<char>> {
    Seq::new(v.len(), |i: int| v[i]@)
}

/// `items` with `sep` between each two neighbours.
pub open spec fn join_spec(items: Seq<Seq<char>>, sep: Seq<char>) -> Seq<char>
    decreases items.len(),
{
    if items.len() == 0 {
        Seq::empty()
    } else if items.len() == 1 {
        items[0]
    } else {
        join_spec(items.drop_last(), sep) + sep + items.last()
    }
}

/// The strings of `items` with `sep` between each two neighbours.
pub fn join(items: &Vec<String>, sep: &str) -> (r: String)
    ensures
        r@ == join_spec(views(items@), sep@),
{
    let mut out: Vec<char> = Vec::new();
    let mut i: usize = 0;
    while i < items.len()
        invariant
            i <= items@.len(),
            out@ == join_spec(views(items@).take(i as int), sep@),
        decreases items@.len() - i,
    {
        if i > 0 {
            extend_str(&mut out, sep);
        }
        extend_str(&mut out, items[i].as_str());
        assert(views(items@).take(i + 1).drop_last() == views(items@).take(i as int));
        i += 1;
    }
    assert(views(items@).take(items@.len() as int) == views(items@));
    string_of(&out)
}

/// A line without the carriage return that ended it, where it had one.
pub open spec fn strip_cr(line: Seq<char>) -> Seq<char> {
    if line.len() > 0 && line.last() == '\r' {
        line.drop_last()
    } else {
        line
    }
}

/// The lines of `s` once `cur` has been read of the line at hand.
pub open spec fn lines_from(s: Seq<char>, cur: Seq<char>) -> Seq<Seq<char>>
    decreases s.len(),
{
    if s.len() == 0 {
        if cur.len() == 0 {
            Seq::empty()
        } else {
            seq![cur]
        }
    } else if s[0] == '\n' {
        seq![strip_cr(cur)] + lines_from(s.drop_first(), Seq::empty())
    } else {
        lines_from(s.drop_first(), cur.push(s[0]))
    }
}

/// The lines of `s`: each ends at a line feed, or at the end of the text;
/// a carriage return just before the line feed belongs to the line ending.
/// No empty line follows a final line feed.
pub open spec fn lines_spec(s: Seq<char>) -> Seq<Seq<char>> {
    lines_from(s, Seq::empty())
}

/// The lines of `s`.
pub fn lines(s: &str) -> (r: Vec<String>)
    ensures
        views(r@) == lines_spec(s@),
{
    let v = chars_of(s);
    let mut out: Vec<String> = Vec::new();
    let mut start: usize = 0;
    let mut i: usize = 0;
    assert(v@.subrange(0, v@.len() as int) == v@);
    assert(v@.subrange(0, 0) == Seq::<char>::empty());
    assert(views(out@) + lines_from(v@, Seq::empty()) == lines_spec(s@));
    while i < v.len()
        invariant
            start <= i <= v@.len(),
            v@ == s@,
            views(out@) + lines_from(
                v@.subrange(i as int, v@.len() as int),
                v@.subrange(start as int, i as int),
            ) == lines_spec(s@),
        decreases v@.len() - i,
    {
        let ghost rest = v@.subrange(i as int, v@.len() as int);
        let ghost cur = v@.subrange(start as int, i as int);
        assert(rest.drop_first() == v@.subrange(i + 1, v@.len() as int));
        if v[i] == '\n' {
            let end: usize = if i > start && v[i - 1] == '\r' {
                (i - 1) as usize
            } else {
                i
            };
            assert(v@.subrange(start as int, end as int) == strip_cr(cur));
            let line = string_of_range(&v, start, end);
            let ghost before = views(out@);
            out.push(line);
            assert(views(out@) == before + seq![strip_cr(cur)]);
            start = i + 1;
            assert(v@.subrange(start as int, start as int) == Seq::<char>::empty());
        } else {
            assert(cur.push(rest[0]) == v@.subrange(start as int, i + 1));
        }
        i += 1;
    }
    if start < v.len() {
        let line = string_of_range(&v, start, v.len());
        let ghost before = views(out@);
        out.push(line);
        assert(views(out@) == before + seq![v@.subrange(start as int, v@.len() as int)]);
    }
    out
}

/// `s` after as many spaces as it takes to make `width` characters.
pub open spec fn pad_left_spec(s: Seq<char>, width: nat) -> Seq<char> {
    if s.len() >= width {
        s
    } else {
        Seq::new((width - s.len()) as nat, |i: int| ' ') + s
    }
}

/// Appends `s` to `out`, after as many spaces as it takes to make `width`
/// characters.
pub fn push_padded(out: &mut Vec<char>, s: &Vec<char>, width: usize)
    ensures
        final(out)@ == old(out)@ + pad_left_spec(s@, width as nat),
{
    if s.len() < width {
        let n: usize = width - s.len();
        let mut i: usize = 0;
        while i < n
            invariant
                i <= n,
                out@ == old(out)@ + Seq::new(i as nat, |j: int| ' '),
            decreases n - i,
        {
            out.push(' ');
            assert(Seq::new(i as nat, |j: int| ' ').push(' ') == Seq::new(
                (i + 1) as nat,
                |j: int| ' ',
            ));
            i += 1;
        }
        extend_chars(out, s);
    } else {
        extend_chars(out, s);
    }
}


/// `s` where it takes at most `max` bytes, and else the longest prefix of
/// `s` that takes at most `max` bytes, with three dots after it.
pub open spec fn truncate_spec(s: Seq<char>, max: nat) -> Seq<char> {
    if utf8_len(s) <= max {
        s
    } else {
        prefix_within(s, max) + "..."@
    }
}

/// Cuts a text to `max_len` bytes for display; a text that was cut ends in
/// three dots. No character is cut in two.
pub fn truncate_string(s: &str, max_len: usize) -> (r: String)
    ensures
        r@ == truncate_spec(s@, max_len as nat),
{
    if byte_len(s) <= max_len {
        s.to_owned()
    } else {
        let v = chars_of(s);
        let k = prefix_end(&v, max_len);
        let mut out: Vec<char> = Vec::new();
        let mut i: usize = 0;
        while i < k
            invariant
                i <= k <= v@.len(),
                out@ == v@.subrange(0, i as int),
            decreases k - i,
        {
            out.push(v[i]);
            i += 1;
        }
        extend_str(&mut out, "...");
        string_of(&out)
    }
}


/// The words of `s` once `cur` has been read of the word at hand.
pub open spec fn words_from(s: Seq<char>, cur: Seq<char>) -> Seq<Seq<char>>
    decreases s.len(),
{
    if s.len() == 0 {
        if cur.len() == 0 {
            Seq::empty()
        } else {
            seq![cur]
        }
    } else if is_space(s[0]) {
        if cur.len() == 0 {
            words_from(s.drop_first(), Seq::empty())
        } else {
            seq![cur] + words_from(s.drop_first(), Seq::empty())
        }
    } else {
        words_from(s.drop_first(), cur.push(s[0]))
    }
}

/// The words of `s`: its parts between whitespace, none of them empty.
pub open spec fn words_spec(s: Seq<char>) -> Seq<Seq<char>> {
    words_from(s, Seq::empty())
}

/// The words of `s`.
pub fn split_whitespace(s: &str) -> (r: Vec<String>)
    ensures
        views(r@) == words_spec(s@),
{
    let v = chars_of(s);
    let mut out: Vec<String> = Vec::new();
    let mut start: usize = 0;
    let mut i: usize = 0;
    assert(v@.subrange(0, v@.len() as int) == v@);
    assert(v@.subrange(0, 0) == Seq::<char>::empty());
    assert(views(out@) + words_from(v@, Seq::empty()) == words_spec(s@));
    while i < v.len()
        invariant
            start <= i <= v@.len(),
            v@ == s@,
            views(out@) + words_from(
                v@.subrange(i as int, v@.len() as int),
                v@.subrange(start as int, i as int),
            ) == words_spec(s@),
        decreases v@.len() - i,
    {
        let ghost rest = v@.subrange(i as int, v@.len() as int);
        let ghost cur = v@.subrange(start as int, i as int);
        assert(rest.drop_first() == v@.subrange(i + 1, v@.len() as int));
        if is_whitespace(v[i]) {
            if i > start {
                let word = string_of_range(&v, start, i);
                let ghost before = views(out@);
                out.push(word);
                assert(views(out@) == before + seq![cur]);
            }
            start = i + 1;
            assert(v@.subrange(start as int, start as int) == Seq::<char>::empty());
        } else {
            assert(cur.push(rest[0]) == v@.subrange(start as int, i + 1));
        }
        i += 1;
    }
    if start < v.len() {
        let word = string_of_range(&v, start, v.len());
        let ghost before = views(out@);
        out.push(word);
        assert(views(out@) == before + seq![v@.subrange(start as int, v@.len() as int)]);
    }
    out
}

} // verus!
