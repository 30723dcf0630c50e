//! Character-level string building blocks shared by the renderers, the
//! argument parser and the command builders.
//!
//! Every function here states its result over `Seq<char>` views so callers can
//! specify their own output exactly.
use vstd::prelude::*;

verus! {

/// The ASCII digit for `d` (`0 <= d < 10`).
pub open spec fn digit_char(d: int) -> char {
    if d == 0 { '0' }
    else if d == 1 { '1' }
    else if d == 2 { '2' }
    else if d == 3 { '3' }
    else if d == 4 { '4' }
    else if d == 5 { '5' }
    else if d == 6 { '6' }
    else if d == 7 { '7' }
    else if d == 8 { '8' }
    else { '9' }
}

/// Base-10 rendering of a natural number, most significant digit first, no
/// leading zeros (`0` renders as `"0"`).
pub open spec fn decimal(n: nat) -> Seq<char>
    decreases n,
{
    if n < 10 {
        seq![digit_char(n as int)]
    } else {
        decimal(n / 10).push(digit_char((n % 10) as int))
    }
}

/// `n` copies of `c`.
pub open spec fn repeat_char(c: char, n: nat) -> Seq<char>
    decreases n,
{
    if n == 0 {
        Seq::empty()
    } else {
        repeat_char(c, (n - 1) as nat).push(c)
    }
}

/// `value` right-padded with spaces to at least `width` characters.
pub open spec fn padded(value: Seq<char>, width: nat) -> Seq<char> {
    if value.len() >= width {
        value
    } else {
        value + repeat_char(' ', (width - value.len()) as nat)
    }
}

/// Whether `c` has the Unicode `White_Space` property (what
/// `char::is_whitespace` tests).
pub open spec fn is_whitespace(c: char) -> bool {
    ('\u{9}' <= c && c <= '\u{d}') || c == ' ' || c == '\u{85}' || c == '\u{a0}' || c
        == '\u{1680}' || ('\u{2000}' <= c && c <= '\u{200a}') || c == '\u{2028}' || c
        == '\u{2029}' || c == '\u{202f}' || c == '\u{205f}' || c == '\u{3000}'
}

/// `value` with trailing whitespace removed (what `str::trim_end` does).
pub open spec fn trim_end_ws(value: Seq<char>) -> Seq<char>
    decreases value.len(),
{
    if value.len() > 0 && is_whitespace(value.last()) {
        trim_end_ws(value.drop_last())
    } else {
        value
    }
}

/// Whether `c` is whitespace (`char::is_whitespace`).
pub fn whitespace(c: char) -> (r: bool)
    ensures
        r == is_whitespace(c),
{
    ('\u{9}' <= c && c <= '\u{d}') || c == ' ' || c == '\u{85}' || c == '\u{a0}' || c
        == '\u{1680}' || ('\u{2000}' <= c && c <= '\u{200a}') || c == '\u{2028}' || c
        == '\u{2029}' || c == '\u{202f}' || c == '\u{205f}' || c == '\u{3000}'
}

/// Whether `prefix` is a prefix of `s`.
pub open spec fn has_prefix(s: Seq<char>, prefix: Seq<char>) -> bool {
    prefix.len() <= s.len() && s.subrange(0, prefix.len() as int) == prefix
}

/// Join `parts` with `sep` between consecutive elements.
pub open spec fn join(parts: Seq<Seq<char>>, sep: Seq<char>) -> Seq<char>
    decreases parts.len(),
{
    if parts.len() == 0 {
        Seq::empty()
    } else if parts.len() == 1 {
        parts[0]
    } else {
        join(parts.drop_last(), sep) + sep + parts.last()
    }
}

/// The lower-case form `str::to_lowercase` gives for a string (Unicode
/// lower-case mapping; a function of the characters alone).
pub uninterp spec fn lowercase(s: Seq<char>) -> Seq<char>;

/// Wraps `str::to_lowercase`: the result is the Unicode lower-case mapping of
/// `s`, which depends on the characters of `s` alone.
#[verifier::external_body]
pub(crate) fn to_lowercase(s: &str) -> (r: String)
    ensures
        r@ == lowercase(s@),
{
    s.to_lowercase()
}

/// Wraps `String::push`: appends one character at the end.
#[verifier::external_body]
pub(crate) fn push_char(s: String, c: char) -> (r: String)
    ensures
        r@ == s@.push(c),
{
    let mut s = s;
    s.push(c);
    s
}

/// An owned copy of a string slice.
pub fn owned(s: &str) -> (r: String)
    ensures
        r@ == s@,
{
    s.to_string()
}

/// Append a string slice to an owned string.
pub fn append(s: String, tail: &str) -> (r: String)
    ensures
        r@ == s@ + tail@,
{
    s.concat(tail)
}

/// String equality over the character views.
pub fn str_eq(a: &str, b: &str) -> (r: bool)
    ensures
        r == (a@ == b@),
{
    let x = a.to_string();
    let y = b.to_string();
    x.eq(&y)
}

/// The digit character for `d`.
pub fn digit(d: u64) -> (c: char)
    requires
        d < 10,
    ensures
        c == digit_char(d as int),
{
    if d == 0 { '0' }
    else if d == 1 { '1' }
    else if d == 2 { '2' }
    else if d == 3 { '3' }
    else if d == 4 { '4' }
    else if d == 5 { '5' }
    else if d == 6 { '6' }
    else if d == 7 { '7' }
    else if d == 8 { '8' }
    else { '9' }
}

/// Append the decimal rendering of `n` to `s`.
pub fn push_decimal(s: String, n: u64) -> (r: String)
    ensures
        r@ == s@ + decimal(n as nat),
    decreases n,
{
    if n < 10 {
        push_char(s, digit(n))
    } else {
        let t = push_decimal(s, n / 10);
        let r = push_char(t, digit(n % 10));
        proof {
            assert(r@ =~= s@ + decimal(n as nat));
        }
        r
    }
}

/// Base-10 rendering of `n`.
pub fn u64_to_string(n: u64) -> (r: String)
    ensures
        r@ == decimal(n as nat),
{
    let r = push_decimal(String::new(), n);
    proof {
        assert(r@ =~= decimal(n as nat));
    }
    r
}

/// Append `n` spaces.
pub fn push_spaces(s: String, n: usize) -> (r: String)
    ensures
        r@ == s@ + repeat_char(' ', n as nat),
{
    let mut r = s;
    let mut i: usize = 0;
    while i < n
        invariant
            i <= n,
            r@ == s@ + repeat_char(' ', i as nat),
        decreases n - i,
    {
        r = push_char(r, ' ');
        i = i + 1;
        proof {
            assert(r@ =~= s@ + repeat_char(' ', i as nat));
        }
    }
    r
}

/// Number of characters (not bytes) in `s`.
pub fn char_count(s: &str) -> (n: usize)
    ensures
        n == s@.len(),
{
    s.unicode_len()
}

/// `value` right-padded with spaces to `width` characters.
pub fn pad(value: &str, width: usize) -> (r: String)
    ensures
        r@ == padded(value@, width as nat),
{
    let len = char_count(value);
    if len >= width {
        owned(value)
    } else {
        push_spaces(owned(value), width - len)
    }
}

/// Whether `s` starts with `prefix`.
pub fn starts_with(s: &str, prefix: &str) -> (r: bool)
    ensures
        r == has_prefix(s@, prefix@),
{
    let n = char_count(s);
    let m = char_count(prefix);
    if m > n {
        return false;
    }
    let mut i: usize = 0;
    while i < m
        invariant
            m <= n,
            n == s@.len(),
            m == prefix@.len(),
            i <= m,
            forall|j: int| 0 <= j < i ==> s@[j] == prefix@[j],
        decreases m - i,
    {
        if s.get_char(i) != prefix.get_char(i) {
            proof {
                assert(s@.subrange(0, m as int)[i as int] != prefix@[i as int]);
            }
            return false;
        }
        i = i + 1;
    }
    proof {
        assert(s@.subrange(0, m as int) =~= prefix@);
    }
    true
}

/// The characters of `s` from index `from` on.
pub fn suffix_from(s: &str, from: usize) -> (r: String)
    requires
        from <= s@.len(),
    ensures
        r@ == s@.subrange(from as int, s@.len() as int),
{
    let n = char_count(s);
    owned(s.substring_char(from, n))
}

/// `s` with trailing whitespace removed.
pub fn trim_end(s: String) -> (r: String)
    ensures
        r@ == trim_end_ws(s@),
{
    let n = char_count(s.as_str());
    let mut end: usize = n;
    proof {
        assert(s@.subrange(0, n as int) =~= s@);
    }
    while end > 0 && whitespace(s.as_str().get_char(end - 1))
        invariant
            end <= n,
            n == s@.len(),
            trim_end_ws(s@) == trim_end_ws(s@.subrange(0, end as int)),
        decreases end,
    {
        proof {
            let t = s@.subrange(0, end as int);
            assert(t.drop_last() =~= s@.subrange(0, end - 1));
        }
        end = end - 1;
    }
    proof {
        assert(trim_end_ws(s@.subrange(0, end as int)) == s@.subrange(0, end as int));
    }
    owned(s.as_str().substring_char(0, end))
}

/// `value` with leading whitespace removed.
pub open spec fn trim_start_ws(value: Seq<char>) -> Seq<char>
    decreases value.len(),
{
    if value.len() > 0 && is_whitespace(value[0]) {
        trim_start_ws(value.drop_first())
    } else {
        value
    }
}

/// `s` with leading and trailing whitespace removed (what `str::trim`
/// does).
pub fn trim(s: &str) -> (r: String)
    ensures
        r@ == trim_start_ws(trim_end_ws(s@)),
{
    let t = trim_end(s.to_string());
    let n = char_count(t.as_str());
    let mut start: usize = 0;
    proof {
        assert(t@.subrange(0, n as int) =~= t@);
    }
    while start < n && whitespace(t.as_str().get_char(start))
        invariant
            start <= n,
            n == t@.len(),
            trim_start_ws(t@) == trim_start_ws(t@.subrange(start as int, n as int)),
        decreases n - start,
    {
        proof {
            let u = t@.subrange(start as int, n as int);
            assert(u.drop_first() =~= t@.subrange(start + 1, n as int));
        }
        start = start + 1;
    }
    owned(t.as_str().substring_char(start, n))
}

/// Whether `c` occurs in `s`.
pub fn contains_char(s: &str, c: char) -> (r: bool)
    ensures
        r == s@.contains(c),
{
    let n = char_count(s);
    let mut i: usize = 0;
    while i < n
        invariant
            n == s@.len(),
            i <= n,
            forall|j: int| 0 <= j < i ==> s@[j] != c,
        decreases n - i,
    {
        if s.get_char(i) == c {
            return true;
        }
        i = i + 1;
    }
    false
}


/// Whether `c` is an ASCII digit.
pub open spec fn is_digit(c: char) -> bool {
    '0' <= c && c <= '9'
}

/// The value of an ASCII digit.
pub open spec fn digit_value(c: char) -> int {
    (c as int) - ('0' as int)
}

/// Whether every character of `s` is an ASCII digit.
pub open spec fn all_digits(s: Seq<char>) -> bool {
    forall|i: int| 0 <= i < s.len() ==> is_digit(#[trigger] s[i])
}

/// The base-10 value of a run of digits (most significant first).
pub open spec fn digits_value(s: Seq<char>) -> nat
    decreases s.len(),
{
    if s.len() == 0 {
        0
    } else {
        (digits_value(s.drop_last()) * 10 + digit_value(s.last())) as nat
    }
}

/// How `str::parse::<u64>` reads `s`: an optional leading `+`, then one or
/// more ASCII digits whose value fits in 64 bits; anything else is rejected.
pub open spec fn u64_from_str(s: Seq<char>) -> Option<u64> {
    let body = if s.len() > 0 && s[0] == '+' {
        s.drop_first()
    } else {
        s
    };
    if body.len() > 0 && all_digits(body) && digits_value(body) <= u64::MAX {
        Some(digits_value(body) as u64)
    } else {
        None
    }
}

/// A prefix of a digit run is worth no more than the whole run.
proof fn lemma_digits_prefix(s: Seq<char>, k: int)
    requires
        0 <= k <= s.len(),
        all_digits(s),
    ensures
        digits_value(s.subrange(0, k)) <= digits_value(s),
    decreases s.len(),
{
    if k < s.len() {
        let t = s.drop_last();
        assert(all_digits(t)) by {
            assert forall|i: int| 0 <= i < t.len() implies is_digit(#[trigger] t[i]) by {
                assert(t[i] == s[i]);
            }
        }
        assert(t.subrange(0, k) =~= s.subrange(0, k));
        lemma_digits_prefix(t, k);
        assert(is_digit(s[s.len() - 1]));
    } else {
        assert(s.subrange(0, k) =~= s);
    }
}

/// Parse a `u64` the way `str::parse::<u64>` does.
pub fn parse_u64(s: &str) -> (r: Option<u64>)
    ensures
        r == u64_from_str(s@),
{
    let n = char_count(s);
    let start: usize = if n > 0 && s.get_char(0) == '+' {
        1
    } else {
        0
    };
    let ghost body = if s@.len() > 0 && s@[0] == '+' {
        s@.drop_first()
    } else {
        s@
    };
    proof {
        assert(body =~= s@.subrange(start as int, n as int));
    }
    if start >= n {
        return None;
    }
    let mut v: u64 = 0;
    let mut i: usize = start;
    while i < n
        invariant
            start <= i <= n,
            n == s@.len(),
            body == s@.subrange(start as int, n as int),
            body == (if s@.len() > 0 && s@[0] == '+' {
                s@.drop_first()
            } else {
                s@
            }),
            v == digits_value(s@.subrange(start as int, i as int)),
            forall|j: int| start <= j < i ==> is_digit(#[trigger] s@[j]),
        decreases n - i,
    {
        let c = s.get_char(i);
        let ghost prefix = s@.subrange(start as int, i as int);
        let ghost next = s@.subrange(start as int, i + 1);
        proof {
            assert(next.drop_last() =~= prefix);
            assert(next.last() == c);
        }
        if !('0' <= c && c <= '9') {
            proof {
                assert(body[i - start] == c);
                assert(!is_digit(body[i - start]));
                assert(!all_digits(body));
            }
            return None;
        }
        let d: u64 = (c as u32 - '0' as u32) as u64;
        assert(d == digit_value(c));
        if v > (u64::MAX - d) / 10 {
            proof {
                assert(v * 10 + d > u64::MAX) by (nonlinear_arith)
                    requires
                        v > (u64::MAX - d) / 10,
                        d <= 9,
                ;
                if all_digits(body) {
                    assert(next =~= body.subrange(0, i + 1 - start));
                    lemma_digits_prefix(body, i + 1 - start);
                }
            }
            return None;
        }
        assert(v * 10 + d <= u64::MAX) by (nonlinear_arith)
            requires
                v <= (u64::MAX - d) / 10,
                d <= 9,
        ;
        v = v * 10 + d;
        i = i + 1;
    }
    proof {
        assert(s@.subrange(start as int, i as int) =~= body);
        assert forall|j: int| 0 <= j < body.len() implies is_digit(#[trigger] body[j]) by {
            assert(body[j] == s@[j + start]);
        }
    }
    Some(v)
}

/// Join `parts` with `sep` between consecutive elements.
pub fn join_strings(parts: &Vec<String>, sep: &str) -> (r: String)
    ensures
        r@ == join(parts@.map_values(|s: String| s@), sep@),
{
    let ghost pv = parts@.map_values(|s: String| s@);
    if parts.len() == 0 {
        return String::new();
    }
    let mut out = parts[0].clone();
    let mut i: usize = 1;
    proof {
        assert(pv.subrange(0, 1).drop_last() =~= pv.subrange(0, 0));
    }
    while i < parts.len()
        invariant
            1 <= i <= parts.len(),
            pv == parts@.map_values(|s: String| s@),
            out@ == join(pv.subrange(0, i as int), sep@),
        decreases parts.len() - i,
    {
        let ghost before = out@;
        out = out.concat(sep).concat(parts[i].as_str());
        proof {
            let q = pv.subrange(0, i + 1);
            assert(q.drop_last() =~= pv.subrange(0, i as int));
            assert(q.last() == parts@[i as int]@);
        }
        i = i + 1;
    }
    proof {
        assert(pv.subrange(0, i as int) =~= pv);
    }
    out
}

/// Lexicographic order on texts by character code, as `str`'s `<` orders
/// them (UTF-8 byte order agrees with code-point order); a proper prefix
/// comes first.
pub open spec fn text_lt(a: Seq<char>, b: Seq<char>) -> bool
    decreases a.len(),
{
    if a.len() == 0 {
        b.len() > 0
    } else if b.len() == 0 {
        false
    } else if a[0] != b[0] {
        a[0] < b[0]
    } else {
        text_lt(a.drop_first(), b.drop_first())
    }
}

/// `text_lt` is a strict total order: irreflexive, transitive, and any two
/// different texts are ordered one way.
pub proof fn lemma_text_lt_order(a: Seq<char>, b: Seq<char>, c: Seq<char>)
    ensures
        !text_lt(a, a),
        text_lt(a, b) ==> !text_lt(b, a),
        text_lt(a, b) && text_lt(b, c) ==> text_lt(a, c),
        a != b ==> text_lt(a, b) || text_lt(b, a),
    decreases a.len(),
{
    if a.len() > 0 {
        lemma_text_lt_order(a.drop_first(), b.drop_first(), c.drop_first());
        lemma_text_lt_order(a.drop_first(), a.drop_first(), a.drop_first());
        if b.len() > 0 && a != b && a[0] == b[0] {
            assert(a.drop_first() != b.drop_first()) by {
                if a.drop_first() == b.drop_first() {
                    assert(a =~= seq![a[0]] + a.drop_first());
                    assert(b =~= seq![b[0]] + b.drop_first());
                }
            }
        }
        if b.len() > 0 && c.len() > 0 && a[0] == b[0] && b[0] == c[0] {
        }
    } else {
        if b.len() == 0 {
            assert(a =~= b);
        }
    }
}

/// Whether `a` orders before `b` (character-code lexicographic order).
pub fn text_less(a: &str, b: &str) -> (r: bool)
    ensures
        r == text_lt(a@, b@),
{
    let n = a.unicode_len();
    let m = b.unicode_len();
    let mut i: usize = 0;
    proof {
        assert(a@.skip(0) =~= a@);
        assert(b@.skip(0) =~= b@);
    }
    while i < n && i < m
        invariant
            n == a@.len(),
            m == b@.len(),
            i <= n,
            i <= m,
            text_lt(a@, b@) == text_lt(a@.skip(i as int), b@.skip(i as int)),
        decreases n - i,
    {
        let x = a.get_char(i);
        let y = b.get_char(i);
        proof {
            assert(a@.skip(i as int)[0] == x);
            assert(b@.skip(i as int)[0] == y);
            assert(a@.skip(i as int).drop_first() =~= a@.skip(i + 1));
            assert(b@.skip(i as int).drop_first() =~= b@.skip(i + 1));
        }
        if x != y {
            return x < y;
        }
        i = i + 1;
    }
    proof {
        assert(i == n ==> a@.skip(i as int).len() == 0);
        assert(i == m ==> b@.skip(i as int).len() == 0);
    }
    i == n && i < m
}

} // verus!
