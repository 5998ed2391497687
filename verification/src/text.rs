//! Character-level helpers shared by the rest of the library: string
//! building, Unicode whitespace trimming, decimal rendering, HTML escaping
//! and URL percent-encoding.

use vstd::prelude::*;

verus! {

// ---------------------------------------------------------------------------
// String building
// ---------------------------------------------------------------------------

/// The characters of `s`, in order.
pub fn chars_of(s: &str) -> (v: Vec<char>)
    ensures
        v@ == s@,
{
    let mut v: Vec<char> = Vec::new();
    for c in it: s.chars()
        invariant
            v@ == it.seq().take(it.index() as int),
    {
        v.push(c);
    }
    v
}

/// The character sequences of a list of strings.
pub open spec fn views(v: Seq<String>) -> Seq<Seq<char>> {
    v.map_values(|s: String| s@)
}

/// Appends one character to a `String` (`String::push`).
#[verifier::external_body]
pub(crate) fn push_char(s: &mut String, c: char)
    ensures
        final(s)@ == old(s)@.push(c),
{
    s.push(c);
}

/// Appends a string slice to a `String`.
pub fn push_str(s: &mut String, t: &str)
    ensures
        final(s)@ == old(s)@ + t@,
{
    s.append(t);
}

/// Appends the characters `v[from..to]` to `s`.
pub fn push_chars(s: &mut String, v: &Vec<char>, from: usize, to: usize)
    requires
        from <= to <= v@.len(),
    ensures
        final(s)@ == old(s)@ + v@.subrange(from as int, to as int),
{
    let ghost start = s@;
    let mut i: usize = from;
    while i < to
        invariant
            from <= i <= to <= v@.len(),
            s@ == start + v@.subrange(from as int, i as int),
        decreases to - i,
    {
        push_char(s, v[i]);
        assert(v@.subrange(from as int, i + 1) == v@.subrange(from as int, i as int).push(
            v@[i as int],
        ));
        i = i + 1;
    }
}

/// A `String` holding exactly the characters `v[from..to]`.
pub fn string_of(v: &Vec<char>, from: usize, to: usize) -> (s: String)
    requires
        from <= to <= v@.len(),
    ensures
        s@ == v@.subrange(from as int, to as int),
{
    let mut s = String::new();
    push_chars(&mut s, v, from, to);
    s
}

/// A copy of `s`.
pub fn copy_str(s: &str) -> (r: String)
    ensures
        r@ == s@,
{
    let v = chars_of(s);
    let r = string_of(&v, 0, v.len());
    assert(v@.subrange(0, v@.len() as int) == v@);
    r
}

/// Whether two strings hold the same characters.
pub fn str_eq(a: &str, b: &str) -> (r: bool)
    ensures
        r == (a@ == b@),
{
    let va = chars_of(a);
    let vb = chars_of(b);
    if va.len() != vb.len() {
        return false;
    }
    let mut i: usize = 0;
    while i < va.len()
        invariant
            va@ == a@,
            vb@ == b@,
            va@.len() == vb@.len(),
            i <= va@.len(),
            forall|j: int| 0 <= j < i ==> va@[j] == vb@[j],
        decreases va.len() - i,
    {
        if va[i] != vb[i] {
            return false;
        }
        i = i + 1;
    }
    assert(va@ =~= vb@);
    true
}

/// Whether `c` occurs in `s`.
pub fn contains_char(s: &str, c: char) -> (r: bool)
    ensures
        r == s@.contains(c),
{
    let v = chars_of(s);
    let mut i: usize = 0;
    while i < v.len()
        invariant
            v@ == s@,
            i <= v@.len(),
            forall|j: int| 0 <= j < i ==> v@[j] != c,
        decreases v.len() - i,
    {
        if v[i] == c {
            assert(s@[i as int] == c);
            return true;
        }
        i = i + 1;
    }
    false
}

// ---------------------------------------------------------------------------
// Unicode whitespace and trimming
// ---------------------------------------------------------------------------

/// Unicode `White_Space`: the set `char::is_whitespace` and `str::trim` use.
pub open spec fn is_ws(c: char) -> bool {
    ||| c == '\t'
    ||| c == '\n'
    ||| c == '\u{0B}'
    ||| c == '\u{0C}'
    ||| c == '\r'
    ||| c == ' '
    ||| c == '\u{85}'
    ||| c == '\u{A0}'
    ||| c == '\u{1680}'
    ||| ('\u{2000}' <= c && c <= '\u{200A}')
    ||| c == '\u{2028}'
    ||| c == '\u{2029}'
    ||| c == '\u{202F}'
    ||| c == '\u{205F}'
    ||| c == '\u{3000}'
}

/// Whether `c` is Unicode whitespace.
pub fn is_whitespace(c: char) -> (r: bool)
    ensures
        r == is_ws(c),
{
    c == '\t' || c == '\n' || c == '\u{0B}' || c == '\u{0C}' || c == '\r' || c == ' ' || c
        == '\u{85}' || c == '\u{A0}' || c == '\u{1680}' || ('\u{2000}' <= c && c <= '\u{200A}')
        || c == '\u{2028}' || c == '\u{2029}' || c == '\u{202F}' || c == '\u{205F}' || c
        == '\u{3000}'
}

/// Number of leading whitespace characters.
pub open spec fn leading_ws(s: Seq<char>) -> nat
    decreases s.len(),
{
    if s.len() > 0 && is_ws(s[0]) {
        1 + leading_ws(s.drop_first())
    } else {
        0
    }
}

/// Number of trailing whitespace characters.
pub open spec fn trailing_ws(s: Seq<char>) -> nat
    decreases s.len(),
{
    if s.len() > 0 && is_ws(s.last()) {
        1 + trailing_ws(s.drop_last())
    } else {
        0
    }
}

/// `s` with its leading and trailing whitespace removed (`str::trim`).
pub open spec fn trimmed(s: Seq<char>) -> Seq<char> {
    if leading_ws(s) == s.len() {
        Seq::empty()
    } else {
        s.subrange(leading_ws(s) as int, s.len() - trailing_ws(s))
    }
}

/// Whether `s` has no visible content (only whitespace, or nothing).
pub open spec fn is_blank(s: Seq<char>) -> bool {
    trimmed(s).len() == 0
}

proof fn lemma_leading_ws(s: Seq<char>, i: int)
    requires
        0 <= i <= s.len(),
        forall|j: int| 0 <= j < i ==> is_ws(s[j]),
        i == s.len() || !is_ws(s[i]),
    ensures
        leading_ws(s) == i,
    decreases i,
{
    if i > 0 {
        lemma_leading_ws(s.drop_first(), i - 1);
    }
}

proof fn lemma_trailing_ws(s: Seq<char>, k: int)
    requires
        0 <= k <= s.len(),
        forall|j: int| s.len() - k <= j < s.len() ==> is_ws(s[j]),
        k == s.len() || !is_ws(s[s.len() - k - 1]),
    ensures
        trailing_ws(s) == k,
    decreases k,
{
    if k > 0 {
        lemma_trailing_ws(s.drop_last(), k - 1);
    }
}

proof fn lemma_leading_stop(s: Seq<char>)
    ensures
        leading_ws(s) <= s.len(),
        leading_ws(s) < s.len() ==> !is_ws(s[leading_ws(s) as int]),
        forall|j: int| 0 <= j < leading_ws(s) ==> is_ws(s[j]),
    decreases s.len(),
{
    if s.len() > 0 && is_ws(s[0]) {
        lemma_leading_stop(s.drop_first());
        assert forall|j: int| 0 <= j < leading_ws(s) implies is_ws(s[j]) by {
            if j > 0 {
                assert(s[j] == s.drop_first()[j - 1]);
            }
        }
        if leading_ws(s) < s.len() {
            assert(s[leading_ws(s) as int] == s.drop_first()[leading_ws(s.drop_first()) as int]);
        }
    }
}

proof fn lemma_trailing_stop(s: Seq<char>)
    ensures
        trailing_ws(s) <= s.len(),
        trailing_ws(s) < s.len() ==> !is_ws(s[s.len() - trailing_ws(s) - 1]),
        forall|j: int| s.len() - trailing_ws(s) <= j < s.len() ==> is_ws(s[j]),
    decreases s.len(),
{
    if s.len() > 0 && is_ws(s.last()) {
        lemma_trailing_stop(s.drop_last());
        assert forall|j: int| s.len() - trailing_ws(s) <= j < s.len() implies is_ws(s[j]) by {
            if j < s.len() - 1 {
                assert(s[j] == s.drop_last()[j]);
            }
        }
        if trailing_ws(s) < s.len() {
            assert(s[s.len() - trailing_ws(s) - 1] == s.drop_last()[s.drop_last().len()
                - trailing_ws(s.drop_last()) - 1]);
        }
    }
}

/// Trimming twice is trimming once; what remains starts and ends with a
/// visible character.
pub proof fn lemma_trimmed_idempotent(s: Seq<char>)
    ensures
        trimmed(trimmed(s)) == trimmed(s),
        trimmed(s).len() > 0 ==> !is_ws(trimmed(s)[0]) && !is_ws(trimmed(s).last()),
{
    lemma_leading_stop(s);
    lemma_trailing_stop(s);
    let t = trimmed(s);
    if leading_ws(s) < s.len() {
        let a = leading_ws(s) as int;
        let b = s.len() - trailing_ws(s);
        assert(a < b) by {
            if b <= a {
                assert(is_ws(s[a]));
            }
        }
        assert(t[0] == s[a]);
        assert(t.last() == s[b - 1]);
        assert(leading_ws(t) == 0);
        assert(trailing_ws(t) == 0);
        assert(t.subrange(0, t.len() as int) =~= t);
    } else {
        assert(t =~= Seq::<char>::empty());
        assert(leading_ws(t) == 0);
    }
}

/// Index range `[start, end)` of the trimmed part of `v`.
fn trim_bounds(v: &Vec<char>) -> (r: (usize, usize))
    ensures
        r.0 <= r.1 <= v@.len(),
        v@.subrange(r.0 as int, r.1 as int) == trimmed(v@),
{
    let n = v.len();
    let mut a: usize = 0;
    while a < n && is_whitespace(v[a])
        invariant
            n == v@.len(),
            a <= n,
            forall|j: int| 0 <= j < a ==> is_ws(v@[j]),
        decreases n - a,
    {
        a = a + 1;
    }
    proof {
        lemma_leading_ws(v@, a as int);
    }
    if a == n {
        return (n, n);
    }
    let mut b: usize = n;
    while b > a && is_whitespace(v[b - 1])
        invariant
            n == v@.len(),
            a < n,
            !is_ws(v@[a as int]),
            a <= b <= n,
            forall|j: int| b <= j < n ==> is_ws(v@[j]),
        decreases b,
    {
        b = b - 1;
    }
    proof {
        lemma_trailing_ws(v@, n - b);
    }
    (a, b)
}

/// `s` with leading and trailing whitespace removed.
pub fn trim(s: &str) -> (r: String)
    ensures
        r@ == trimmed(s@),
{
    let v = chars_of(s);
    let (a, b) = trim_bounds(&v);
    string_of(&v, a, b)
}

/// Whether `s` is empty or only whitespace.
pub fn blank(s: &str) -> (r: bool)
    ensures
        r == is_blank(s@),
{
    let v = chars_of(s);
    let (a, b) = trim_bounds(&v);
    a == b
}

// ---------------------------------------------------------------------------
// Decimal numbers
// ---------------------------------------------------------------------------

/// The ASCII digit for `d` (`0 <= d < 10`).
pub open spec fn digit_char(d: nat) -> char {
    if d == 0 {
        '0'
    } else if d == 1 {
        '1'
    } else if d == 2 {
        '2'
    } else if d == 3 {
        '3'
    } else if d == 4 {
        '4'
    } else if d == 5 {
        '5'
    } else if d == 6 {
        '6'
    } else if d == 7 {
        '7'
    } else if d == 8 {
        '8'
    } else {
        '9'
    }
}

/// The decimal rendering of `n`, without leading zeros.
pub open spec fn decimal(n: nat) -> Seq<char>
    decreases n,
{
    if n < 10 {
        seq![digit_char(n)]
    } else {
        decimal(n / 10).push(digit_char(n % 10))
    }
}

/// The decimal rendering of a signed `n` (`-` before negative values).
pub open spec fn signed_decimal(n: int) -> Seq<char> {
    if n < 0 {
        seq!['-'] + decimal((-n) as nat)
    } else {
        decimal(n as nat)
    }
}

/// The decimal digit `d`.
pub fn digit(d: u64) -> (c: char)
    requires
        d < 10,
    ensures
        c == digit_char(d as nat),
{
    if d == 0 {
        '0'
    } else if d == 1 {
        '1'
    } else if d == 2 {
        '2'
    } else if d == 3 {
        '3'
    } else if d == 4 {
        '4'
    } else if d == 5 {
        '5'
    } else if d == 6 {
        '6'
    } else if d == 7 {
        '7'
    } else if d == 8 {
        '8'
    } else {
        '9'
    }
}

/// Appends the decimal rendering of `n`.
pub fn push_decimal(s: &mut String, n: u64)
    ensures
        final(s)@ == old(s)@ + decimal(n as nat),
    decreases n,
{
    if n < 10 {
        push_char(s, digit(n));
        assert(decimal(n as nat) == seq![digit_char(n as nat)]);
    } else {
        push_decimal(s, n / 10);
        push_char(s, digit(n % 10));
    }
}

/// Appends the decimal rendering of a signed `n`.
pub fn push_signed_decimal(s: &mut String, n: i64)
    ensures
        final(s)@ == old(s)@ + signed_decimal(n as int),
{
    if n < 0 {
        push_char(s, '-');
        let m: u64 = if n == i64::MIN {
            9223372036854775808u64
        } else {
            (-n) as u64
        };
        push_decimal(s, m);
        assert(seq!['-'] + decimal(m as nat) =~= seq!['-'].add(decimal(m as nat)));
        assert(old(s)@.push('-') + decimal(m as nat) =~= old(s)@ + (seq!['-'] + decimal(
            m as nat,
        )));
    } else {
        push_decimal(s, n as u64);
    }
}

// ---------------------------------------------------------------------------
// HTML escaping
// ---------------------------------------------------------------------------

/// The HTML text/attribute encoding of one character.
pub open spec fn escape_char(c: char) -> Seq<char> {
    if c == '&' {
        seq!['&', 'a', 'm', 'p', ';']
    } else if c == '<' {
        seq!['&', 'l', 't', ';']
    } else if c == '>' {
        seq!['&', 'g', 't', ';']
    } else if c == '"' {
        seq!['&', 'q', 'u', 'o', 't', ';']
    } else if c == '\'' {
        seq!['&', '#', '3', '9', ';']
    } else {
        seq![c]
    }
}

/// `s` with `& < > " '` replaced by their HTML entities.
pub open spec fn html_escaped(s: Seq<char>) -> Seq<char>
    decreases s.len(),
{
    if s.len() == 0 {
        Seq::empty()
    } else {
        html_escaped(s.drop_last()) + escape_char(s.last())
    }
}

/// Whether `c` must be escaped for safe embedding in HTML.
pub open spec fn is_html_special(c: char) -> bool {
    c == '&' || c == '<' || c == '>' || c == '"' || c == '\''
}

/// Escaping leaves text without special characters unchanged, and what it
/// produces never holds a raw `<`, `>`, `"` or `'`.
pub proof fn html_escaping_is_safe(s: Seq<char>)
    ensures
        (forall|i: int| 0 <= i < s.len() ==> !is_html_special(#[trigger] s[i])) ==> html_escaped(s)
            == s,
        forall|i: int|
            0 <= i < html_escaped(s).len() ==> {
                let c = #[trigger] html_escaped(s)[i];
                c != '<' && c != '>' && c != '"' && c != '\''
            },
    decreases s.len(),
{
    if s.len() > 0 {
        html_escaping_is_safe(s.drop_last());
        let rest = html_escaped(s.drop_last());
        let tail = escape_char(s.last());
        assert forall|i: int| 0 <= i < html_escaped(s).len() implies {
            let c = #[trigger] html_escaped(s)[i];
            c != '<' && c != '>' && c != '"' && c != '\''
        } by {
            if i < rest.len() {
                assert(html_escaped(s)[i] == rest[i]);
            } else {
                assert(html_escaped(s)[i] == tail[i - rest.len()]);
            }
        }
        if forall|i: int| 0 <= i < s.len() ==> !is_html_special(#[trigger] s[i]) {
            assert forall|i: int| 0 <= i < s.drop_last().len() implies !is_html_special(
                #[trigger] s.drop_last()[i],
            ) by {
                assert(s.drop_last()[i] == s[i]);
            }
            assert(!is_html_special(s[s.len() - 1]));
            assert(s.drop_last() + seq![s.last()] =~= s);
        }
    } else {
        assert(html_escaped(s) =~= s);
    }
}

fn push_escaped_char(out: &mut String, c: char)
    ensures
        final(out)@ == old(out)@ + escape_char(c),
{
    if c == '&' {
        push_char(out, '&');
        push_char(out, 'a');
        push_char(out, 'm');
        push_char(out, 'p');
        push_char(out, ';');
    } else if c == '<' {
        push_char(out, '&');
        push_char(out, 'l');
        push_char(out, 't');
        push_char(out, ';');
    } else if c == '>' {
        push_char(out, '&');
        push_char(out, 'g');
        push_char(out, 't');
        push_char(out, ';');
    } else if c == '"' {
        push_char(out, '&');
        push_char(out, 'q');
        push_char(out, 'u');
        push_char(out, 'o');
        push_char(out, 't');
        push_char(out, ';');
    } else if c == '\'' {
        push_char(out, '&');
        push_char(out, '#');
        push_char(out, '3');
        push_char(out, '9');
        push_char(out, ';');
    } else {
        push_char(out, c);
    }
}


/// Escapes `& < > " '` for safe embedding in HTML text or attribute content.
pub fn html_escape(s: &str) -> (out: String)
    ensures
        out@ == html_escaped(s@),
{
    let v = chars_of(s);
    let mut out = String::new();
    let mut i: usize = 0;
    while i < v.len()
        invariant
            v@ == s@,
            i <= v@.len(),
            out@ == html_escaped(v@.take(i as int)),
        decreases v.len() - i,
    {
        push_escaped_char(&mut out, v[i]);
        assert(v@.take(i + 1).drop_last() == v@.take(i as int));
        i = i + 1;
    }
    assert(v@.take(v@.len() as int) == v@);
    out
}

// ---------------------------------------------------------------------------
// Percent-encoding
// ---------------------------------------------------------------------------

/// RFC 3986 unreserved bytes: `A-Z a-z 0-9 - _ . ~`.
pub open spec fn is_unreserved(b: u8) -> bool {
    (0x41 <= b && b <= 0x5A) || (0x61 <= b && b <= 0x7A) || (0x30 <= b && b <= 0x39) || b
        == 0x2D || b == 0x5F || b == 0x2E || b == 0x7E
}

/// Upper-case hexadecimal digit for `d` (`0 <= d < 16`).
pub open spec fn hex_char(d: nat) -> char {
    if d < 10 {
        digit_char(d)
    } else if d == 10 {
        'A'
    } else if d == 11 {
        'B'
    } else if d == 12 {
        'C'
    } else if d == 13 {
        'D'
    } else if d == 14 {
        'E'
    } else {
        'F'
    }
}

/// The percent-encoding of one byte.
pub open spec fn encode_byte(b: u8) -> Seq<char> {
    if is_unreserved(b) {
        seq![b as char]
    } else {
        seq!['%', hex_char((b / 16) as nat), hex_char((b % 16) as nat)]
    }
}

/// Percent-encoding of a byte string: unreserved bytes pass, all others
/// become `%XX` (upper-case hex).
pub open spec fn percent_encoded(bs: Seq<u8>) -> Seq<char>
    decreases bs.len(),
{
    if bs.len() == 0 {
        Seq::empty()
    } else {
        percent_encoded(bs.drop_last()) + encode_byte(bs.last())
    }
}

fn hex(d: u8) -> (c: char)
    requires
        d < 16,
    ensures
        c == hex_char(d as nat),
{
    if d < 10 {
        digit(d as u64)
    } else if d == 10 {
        'A'
    } else if d == 11 {
        'B'
    } else if d == 12 {
        'C'
    } else if d == 13 {
        'D'
    } else if d == 14 {
        'E'
    } else {
        'F'
    }
}

/// Unreserved bytes pass through percent-encoding unchanged, and what it
/// produces holds only unreserved characters and `%` escapes.
pub proof fn percent_encoding_passes_unreserved(bs: Seq<u8>)
    ensures
        (forall|i: int| 0 <= i < bs.len() ==> is_unreserved(#[trigger] bs[i])) ==> percent_encoded(bs)
            == bs.map_values(|b: u8| b as char),
        forall|i: int|
            0 <= i < percent_encoded(bs).len() ==> {
                let c = #[trigger] percent_encoded(bs)[i];
                c == '%' || ('0' <= c <= '9') || ('A' <= c <= 'Z') || ('a' <= c <= 'z') || c == '-'
                    || c == '_' || c == '.' || c == '~'
            },
    decreases bs.len(),
{
    if bs.len() > 0 {
        percent_encoding_passes_unreserved(bs.drop_last());
        let rest = percent_encoded(bs.drop_last());
        let tail = encode_byte(bs.last());
        let b = bs.last();
        assert forall|i: int| 0 <= i < percent_encoded(bs).len() implies {
            let c = #[trigger] percent_encoded(bs)[i];
            c == '%' || ('0' <= c <= '9') || ('A' <= c <= 'Z') || ('a' <= c <= 'z') || c == '-' || c
                == '_' || c == '.' || c == '~'
        } by {
            if i < rest.len() {
                assert(percent_encoded(bs)[i] == rest[i]);
            } else {
                assert(percent_encoded(bs)[i] == tail[i - rest.len()]);
                if is_unreserved(b) {
                    assert(tail[0] == b as char);
                } else {
                    assert((b / 16) < 16 && (b % 16) < 16);
                }
            }
        }
        if forall|i: int| 0 <= i < bs.len() ==> is_unreserved(#[trigger] bs[i]) {
            assert forall|i: int| 0 <= i < bs.drop_last().len() implies is_unreserved(
                #[trigger] bs.drop_last()[i],
            ) by {
                assert(bs.drop_last()[i] == bs[i]);
            }
            assert(is_unreserved(bs[bs.len() - 1]));
            assert(bs.drop_last().map_values(|b: u8| b as char) + seq![bs.last() as char]
                =~= bs.map_values(|b: u8| b as char));
        }
    } else {
        assert(percent_encoded(bs) =~= bs.map_values(|b: u8| b as char));
    }
}

/// The value of a hexadecimal digit (`0` for any other character).
pub open spec fn hex_value(c: char) -> nat {
    if '0' <= c && c <= '9' {
        (c as nat - '0' as nat) as nat
    } else if 'A' <= c && c <= 'F' {
        (c as nat - 'A' as nat + 10) as nat
    } else if 'a' <= c && c <= 'f' {
        (c as nat - 'a' as nat + 10) as nat
    } else {
        0
    }
}

/// Percent-decoding: each `%XY` is the byte `0xXY`, any other character
/// the byte of its code.
pub open spec fn percent_decoded(cs: Seq<char>) -> Seq<u8>
    decreases cs.len(),
{
    if cs.len() == 0 {
        Seq::empty()
    } else if cs[0] == '%' && cs.len() >= 3 {
        seq![(hex_value(cs[1]) * 16 + hex_value(cs[2])) as u8] + percent_decoded(cs.skip(3))
    } else {
        seq![cs[0] as u8] + percent_decoded(cs.skip(1))
    }
}

proof fn hex_round_trip(d: nat)
    requires
        d < 16,
    ensures
        hex_value(hex_char(d)) == d,
{
}

proof fn percent_encoded_append(a: Seq<u8>, b: Seq<u8>)
    ensures
        percent_encoded(a + b) == percent_encoded(a) + percent_encoded(b),
    decreases b.len(),
{
    if b.len() == 0 {
        assert(a + b =~= a);
        assert(percent_encoded(b) =~= Seq::<char>::empty());
        assert(percent_encoded(a) + percent_encoded(b) =~= percent_encoded(a));
    } else {
        percent_encoded_append(a, b.drop_last());
        assert((a + b).drop_last() =~= a + b.drop_last());
        assert((a + b).last() == b.last());
        assert(percent_encoded(a) + percent_encoded(b.drop_last()) + encode_byte(b.last())
            =~= percent_encoded(a) + (percent_encoded(b.drop_last()) + encode_byte(b.last())));
    }
}

proof fn decode_byte_then(b: u8, rest: Seq<char>)
    ensures
        percent_decoded(encode_byte(b) + rest) == seq![b] + percent_decoded(rest),
{
    let cs = encode_byte(b) + rest;
    if is_unreserved(b) {
        assert(cs[0] == b as char);
        assert(cs.skip(1) =~= rest);
    } else {
        hex_round_trip((b / 16) as nat);
        hex_round_trip((b % 16) as nat);
        assert(cs[0] == '%');
        assert(cs[1] == hex_char((b / 16) as nat));
        assert(cs[2] == hex_char((b % 16) as nat));
        assert(cs.skip(3) =~= rest);
        assert((b / 16) * 16 + b % 16 == b);
    }
}

/// Percent-decoding what percent-encoding produced gives back the bytes.
pub proof fn percent_encoding_round_trips(bs: Seq<u8>)
    ensures
        percent_decoded(percent_encoded(bs)) == bs,
    decreases bs.len(),
{
    if bs.len() == 0 {
        assert(percent_encoded(bs) =~= Seq::<char>::empty());
    } else {
        let first = seq![bs[0]];
        let rest = bs.skip(1);
        assert(first + rest =~= bs);
        percent_encoded_append(first, rest);
        assert(first.drop_last() =~= Seq::<u8>::empty());
        assert(percent_encoded(first.drop_last()) =~= Seq::<char>::empty());
        assert(percent_encoded(first) =~= encode_byte(bs[0]));
        decode_byte_then(bs[0], percent_encoded(rest));
        percent_encoding_round_trips(rest);
        assert(seq![bs[0]] + rest =~= bs);
    }
}

/// Percent-encoding never shortens, and it lengthens any byte string
/// holding a reserved byte: such a string never encodes to itself.
pub proof fn percent_encoding_escapes_reserved(bs: Seq<u8>)
    ensures
        percent_encoded(bs).len() >= bs.len(),
        (exists|i: int| 0 <= i < bs.len() && !is_unreserved(#[trigger] bs[i]))
            ==> percent_encoded(bs).len() > bs.len(),
    decreases bs.len(),
{
    if bs.len() > 0 {
        percent_encoding_escapes_reserved(bs.drop_last());
        if exists|i: int| 0 <= i < bs.len() && !is_unreserved(#[trigger] bs[i]) {
            let i = choose|i: int| 0 <= i < bs.len() && !is_unreserved(#[trigger] bs[i]);
            if i < bs.len() - 1 {
                assert(bs.drop_last()[i] == bs[i]);
            }
        }
    }
}

/// RFC 3986 unreserved characters: `A-Z a-z 0-9 - _ . ~`.
pub open spec fn is_unreserved_char(c: char) -> bool {
    ('A' <= c && c <= 'Z') || ('a' <= c && c <= 'z') || ('0' <= c && c <= '9') || c == '-' || c
        == '_' || c == '.' || c == '~'
}

proof fn ascii_char(c: char)
    requires
        (c as u32) <= 0x7f,
    ensures
        '\0' <= c <= '\u{7f}',
{
}

proof fn utf8_never_shorter(cs: Seq<char>)
    ensures
        vstd::utf8::encode_utf8(cs).len() >= cs.len(),
        !vstd::utf8::is_ascii_chars(cs) ==> vstd::utf8::encode_utf8(cs).len() > cs.len(),
    decreases cs.len(),
{
    if cs.len() > 0 {
        utf8_never_shorter(cs.drop_first());
        let c = cs[0] as u32;
        assert(vstd::utf8::encode_utf8(cs) == vstd::utf8::encode_scalar(c) + vstd::utf8::encode_utf8(
            cs.drop_first(),
        ));
        assert(vstd::utf8::encode_scalar(c).len() >= 1);
        if c > 0x7f {
            assert(vstd::utf8::encode_scalar(c).len() >= 2);
        }
        if !vstd::utf8::is_ascii_chars(cs) && c <= 0x7f {
            assert(!vstd::utf8::is_ascii_chars(cs.drop_first())) by {
                let i = choose|i: int| 0 <= i < cs.len() && !('\0' <= #[trigger] cs[i] <= '\u{7f}');
                if i == 0 {
                    ascii_char(cs[0]);
                }
                assert(cs.drop_first()[i - 1] == cs[i]);
            }
        }
    }
}

/// A text is left as it is by [`encode`] exactly when all its characters
/// are unreserved.
pub proof fn encoding_keeps_exactly_unreserved_text(s: Seq<char>)
    ensures
        percent_encoded(vstd::utf8::encode_utf8(s)) == s <==> forall|i: int|
            0 <= i < s.len() ==> is_unreserved_char(#[trigger] s[i]),
{
    let bs = vstd::utf8::encode_utf8(s);
    percent_encoding_escapes_reserved(bs);
    utf8_never_shorter(s);
    if forall|i: int| 0 <= i < s.len() ==> is_unreserved_char(#[trigger] s[i]) {
        assert(vstd::utf8::is_ascii_chars(s)) by {
            assert forall|i: int| 0 <= i < s.len() implies '\0' <= #[trigger] s[i] <= '\u{7f}' by {
                assert(is_unreserved_char(s[i]));
            }
        }
        vstd::utf8::is_ascii_chars_encode_utf8(s);
        assert forall|i: int| 0 <= i < bs.len() implies is_unreserved(#[trigger] bs[i]) by {
            assert(is_unreserved_char(s[i]));
            assert(s[i] as u8 == bs[i]);
        }
        percent_encoding_passes_unreserved(bs);
        assert(bs.map_values(|b: u8| b as char) =~= s) by {
            assert forall|i: int| 0 <= i < s.len() implies bs.map_values(|b: u8| b as char)[i]
                == s[i] by {
                assert(s[i] as u8 == bs[i]);
                assert(is_unreserved_char(s[i]));
            }
        }
    } else {
        let i = choose|i: int| 0 <= i < s.len() && !is_unreserved_char(#[trigger] s[i]);
        if vstd::utf8::is_ascii_chars(s) {
            vstd::utf8::is_ascii_chars_encode_utf8(s);
            assert(s[i] as u8 == bs[i]);
            assert(!is_unreserved(bs[i]));
            assert(percent_encoded(bs).len() > bs.len());
        }
        assert(percent_encoded(bs).len() != s.len());
    }
}

/// Percent-encodes the UTF-8 bytes of `s` for a URL query component.
pub fn encode(s: &str) -> (out: String)
    ensures
        out@ == percent_encoded(vstd::utf8::encode_utf8(s@)),
{
    let bytes = s.as_bytes();
    let mut out = String::new();
    let mut i: usize = 0;
    while i < bytes.len()
        invariant
            bytes@ == vstd::utf8::encode_utf8(s@),
            i <= bytes@.len(),
            out@ == percent_encoded(bytes@.take(i as int)),
        decreases bytes.len() - i,
    {
        let b = bytes[i];
        if (0x41 <= b && b <= 0x5A) || (0x61 <= b && b <= 0x7A) || (0x30 <= b && b <= 0x39) || b
            == 0x2D || b == 0x5F || b == 0x2E || b == 0x7E {
            push_char(&mut out, b as char);
        } else {
            push_char(&mut out, '%');
            push_char(&mut out, hex(b / 16));
            push_char(&mut out, hex(b % 16));
        }
        assert(bytes@.take(i + 1).drop_last() == bytes@.take(i as int));
        i = i + 1;
    }
    assert(bytes@.take(bytes@.len() as int) == bytes@);
    out
}

} // verus!
