//! Character-level helpers: decimal rendering, comparison and prefix
//! handling on strings, each stated over the strings' character sequences.
use vstd::prelude::*;

verus! {

/// The character of a decimal digit `d` (0 to 9).
pub open spec fn digit_char(d: nat) -> char {
    if d == 0 { '0' }
    else if d == 1 { '1' }
    else if d == 2 { '2' }
    else if d == 3 { '3' }
    else if d == 4 { '4' }
    else if d == 5 { '5' }
    else if d == 6 { '6' }
    else if d == 7 { '7' }
    else if d == 8 { '8' }
    else { '9' }
}

/// The decimal digits of `n`, most significant first, without leading zeros
/// (zero itself is the single digit `0`).
pub open spec fn decimal(n: nat) -> Seq<char>
    decreases n,
{
    if n < 10 {
        seq![digit_char(n)]
    } else {
        decimal(n / 10).push(digit_char(n % 10))
    }
}

/// The decimal rendering of a number is not empty and begins with a digit.
pub proof fn lemma_decimal_starts_with_digit(n: nat)
    ensures
        decimal(n).len() > 0,
        '0' <= decimal(n)[0] && decimal(n)[0] <= '9',
    decreases n,
{
    if n >= 10 {
        lemma_decimal_starts_with_digit(n / 10);
    }
}

/// The decimal rendering of a signed integer: a minus sign before the
/// digits of its magnitude when it is negative.
pub open spec fn signed_decimal(n: int) -> Seq<char> {
    if n < 0 {
        seq!['-'] + decimal((-n) as nat)
    } else {
        decimal(n as nat)
    }
}

/// `n` rendered with at least two digits, a leading zero added below ten.
pub open spec fn two_digit(n: nat) -> Seq<char> {
    if n < 10 {
        seq!['0', digit_char(n)]
    } else {
        decimal(n)
    }
}

/// Whether `p` is a prefix of `s`.
pub open spec fn has_prefix(s: Seq<char>, p: Seq<char>) -> bool {
    p.len() <= s.len() && s.subrange(0, p.len() as int) == p
}

/// Whether `frag` occurs in `s` at some position.
pub open spec fn occurs_in(s: Seq<char>, frag: Seq<char>) -> bool {
    exists|i: int| 0 <= i && i + frag.len() <= s.len() && #[trigger] s.subrange(i, i + frag.len()) == frag
}

/// Appends one character to a string (std's `String::push`).
#[verifier::external_body]
pub(crate) fn push_char(s: &mut String, c: char)
    ensures
        final(s)@ == old(s)@.push(c),
{
    s.push(c);
}

fn digit_of(d: u64) -> (c: char)
    requires
        d < 10,
    ensures
        c == digit_char(d as nat),
{
    if d == 0 { '0' }
    else if d == 1 { '1' }
    else if d == 2 { '2' }
    else if d == 3 { '3' }
    else if d == 4 { '4' }
    else if d == 5 { '5' }
    else if d == 6 { '6' }
    else if d == 7 { '7' }
    else if d == 8 { '8' }
    else { '9' }
}

/// Appends the decimal digits of `n` to `out`.
pub fn append_decimal(out: &mut String, n: u64)
    ensures
        final(out)@ == old(out)@ + decimal(n as nat),
    decreases n,
{
    if n < 10 {
        push_char(out, digit_of(n));
        assert(decimal(n as nat) == seq![digit_char(n as nat)]);
    } else {
        append_decimal(out, n / 10);
        push_char(out, digit_of(n % 10));
        assert(decimal(n as nat) == decimal((n / 10) as nat).push(digit_char((n % 10) as nat)));
    }
}

/// The decimal rendering of an unsigned number.
pub fn decimal_string(n: u64) -> (r: String)
    ensures
        r@ == decimal(n as nat),
{
    let mut s = String::new();
    append_decimal(&mut s, n);
    s
}

/// Appends the decimal rendering of a signed number to `out`.
pub fn append_signed_decimal(out: &mut String, n: i64)
    ensures
        final(out)@ == old(out)@ + signed_decimal(n as int),
{
    if n < 0 {
        let magnitude: u64 = ((-(n + 1)) as u64) + 1;
        push_char(out, '-');
        append_decimal(out, magnitude);
        assert(out@ == old(out)@ + (seq!['-'] + decimal(magnitude as nat)));
    } else {
        append_decimal(out, n as u64);
    }
}

/// The decimal rendering of a signed number.
pub fn signed_decimal_string(n: i64) -> (r: String)
    ensures
        r@ == signed_decimal(n as int),
{
    let mut s = String::new();
    append_signed_decimal(&mut s, n);
    s
}

/// Appends `n` with at least two digits (a leading zero below ten).
pub fn append_two_digit(out: &mut String, n: u64)
    ensures
        final(out)@ == old(out)@ + two_digit(n as nat),
{
    if n < 10 {
        push_char(out, '0');
        push_char(out, digit_of(n));
        assert(out@ == old(out)@ + seq!['0', digit_char(n as nat)]);
    } else {
        append_decimal(out, n);
    }
}

/// Whether two strings hold the same characters.
pub fn str_equal(a: &str, b: &str) -> (r: bool)
    ensures
        r == (a@ == b@),
{
    let n = a.unicode_len();
    let m = b.unicode_len();
    if n != m {
        return false;
    }
    let mut i: usize = 0;
    while i < n
        invariant
            n == a@.len(),
            m == b@.len(),
            n == m,
            i <= n,
            forall|j: int| 0 <= j < i ==> a@[j] == b@[j],
        decreases n - i,
    {
        if a.get_char(i) != b.get_char(i) {
            return false;
        }
        i = i + 1;
    }
    assert(a@ =~= b@);
    true
}

/// Whether `s` begins with `p`.
pub fn starts_with(s: &str, p: &str) -> (r: bool)
    ensures
        r == has_prefix(s@, p@),
{
    let n = s.unicode_len();
    let m = p.unicode_len();
    if m > n {
        return false;
    }
    let mut i: usize = 0;
    while i < m
        invariant
            n == s@.len(),
            m == p@.len(),
            m <= n,
            i <= m,
            forall|j: int| 0 <= j < i ==> s@[j] == p@[j],
        decreases m - i,
    {
        if s.get_char(i) != p.get_char(i) {
            assert(s@.subrange(0, m as int)[i as int] != p@[i as int]);
            return false;
        }
        i = i + 1;
    }
    assert(s@.subrange(0, m as int) =~= p@);
    true
}

/// The rest of `s` after the prefix `p`, when `s` begins with `p`.
pub fn strip_prefix<'a>(s: &'a str, p: &str) -> (r: Option<&'a str>)
    ensures
        r is Some <==> has_prefix(s@, p@),
        r matches Some(rest) ==> rest@ == s@.skip(p@.len() as int),
{
    if starts_with(s, p) {
        let n = s.unicode_len();
        let m = p.unicode_len();
        Some(s.substring_char(m, n))
    } else {
        None
    }
}

/// The rest of `s` after the prefix `p`, or `s` itself when it does not
/// begin with `p`.
pub fn strip_prefix_or_self<'a>(s: &'a str, p: &str) -> (r: &'a str)
    ensures
        r@ == (if has_prefix(s@, p@) { s@.skip(p@.len() as int) } else { s@ }),
{
    match strip_prefix(s, p) {
        Some(rest) => rest,
        None => s,
    }
}

/// Whether `frag` occurs somewhere in `s`.
pub fn contains(s: &str, frag: &str) -> (r: bool)
    ensures
        r == occurs_in(s@, frag@),
{
    let n = s.unicode_len();
    let m = frag.unicode_len();
    if m > n {
        return false;
    }
    let mut i: usize = 0;
    while i <= n - m
        invariant
            n == s@.len(),
            m == frag@.len(),
            m <= n,
            i <= n - m + 1,
            forall|k: int| 0 <= k < i ==> #[trigger] s@.subrange(k, k + m) != frag@,
        decreases n - m + 1 - i,
    {
        let mut j: usize = 0;
        let mut same = true;
        while j < m
            invariant
                n == s@.len(),
                m == frag@.len(),
                m <= n,
                i <= n - m,
                j <= m,
                same <==> (forall|t: int| 0 <= t < j ==> s@[i + t] == frag@[t]),
            decreases m - j,
        {
            if s.get_char(i + j) != frag.get_char(j) {
                same = false;
            }
            j = j + 1;
        }
        if same {
            assert(s@.subrange(i as int, i + m) =~= frag@);
            return true;
        } else {
            let ghost t = choose|t: int| 0 <= t < m && s@[i + t] != frag@[t];
            assert(s@.subrange(i as int, i + m)[t] != frag@[t]);
        }
        i = i + 1;
    }
    assert forall|k: int| 0 <= k && k + frag@.len() <= s@.len() implies #[trigger] s@.subrange(k, k + frag@.len()) != frag@ by {
        assert(k < i);
    }
    false
}

} // verus!

verus! {

/// What std's `str::to_uppercase` returns for a string: its uppercase
/// equivalent under the Unicode case mappings.
pub uninterp spec fn uppercased(s: Seq<char>) -> Seq<char>;

/// What std's `str::to_lowercase` returns for a string: its lowercase
/// equivalent under the Unicode case mappings.
pub uninterp spec fn lowercased(s: Seq<char>) -> Seq<char>;

/// Whether a character has the Unicode White_Space property (the
/// characters U+0009 to U+000D, U+0020, U+0085, U+00A0, U+1680, U+2000 to
/// U+200A, U+2028, U+2029, U+202F, U+205F and U+3000), which std's
/// `char::is_whitespace` tests.
pub open spec fn is_white_space(c: char) -> bool {
    ||| ('\u{9}' <= c && c <= '\u{d}')
    ||| c == ' '
    ||| c == '\u{85}'
    ||| c == '\u{a0}'
    ||| c == '\u{1680}'
    ||| ('\u{2000}' <= c && c <= '\u{200a}')
    ||| c == '\u{2028}'
    ||| c == '\u{2029}'
    ||| c == '\u{202f}'
    ||| c == '\u{205f}'
    ||| c == '\u{3000}'
}

/// The characters with the Unicode White_Space property are exactly the 25
/// code points U+0009 to U+000D, U+0020, U+0085, U+00A0, U+1680, U+2000 to
/// U+200A, U+2028, U+2029, U+202F, U+205F and U+3000.  In particular the
/// only ASCII white space characters are tab, line feed, vertical tab, form
/// feed, carriage return and space: no letter, digit or punctuation mark is
/// white space.
pub proof fn lemma_white_space_code_points(c: char)
    ensures
        is_white_space(c) <==> {
            let u = c as u32;
            ||| 9 <= u <= 13
            ||| u == 32
            ||| u == 133
            ||| u == 160
            ||| u == 5760
            ||| 8192 <= u <= 8202
            ||| u == 8232
            ||| u == 8233
            ||| u == 8239
            ||| u == 8287
            ||| u == 12288
        },
        (c as u32) < 128 ==> (is_white_space(c) <==> (9 <= (c as u32) <= 13 || c == ' ')),
{
}

/// Whether a character has the Unicode White_Space property.
pub fn is_white_space_char(c: char) -> (r: bool)
    ensures
        r == is_white_space(c),
{
    let u = c as u32;
    (0x9 <= u && u <= 0xd) || u == 0x20 || u == 0x85 || u == 0xa0 || u == 0x1680 || (0x2000 <= u && u <= 0x200a)
        || u == 0x2028 || u == 0x2029 || u == 0x202f || u == 0x205f || u == 0x3000
}

/// Whether every character of a text is ASCII.
pub open spec fn is_ascii_text(s: Seq<char>) -> bool {
    forall|i: int| 0 <= i < s.len() ==> (#[trigger] s[i] as u32) < 128
}

/// The ASCII uppercase of a character: 'a' to 'z' become 'A' to 'Z', every
/// other character is unchanged.
pub open spec fn ascii_upper_char(c: char) -> char {
    if 'a' <= c && c <= 'z' {
        ((c as int) - 32) as char
    } else {
        c
    }
}

/// The ASCII uppercase of a text, character by character.
pub open spec fn ascii_upper(s: Seq<char>) -> Seq<char> {
    Seq::new(s.len(), |i: int| ascii_upper_char(s[i]))
}

/// The ASCII lowercase of a character: 'A' to 'Z' become 'a' to 'z', every
/// other character is unchanged.
pub open spec fn ascii_lower_char(c: char) -> char {
    if 'A' <= c && c <= 'Z' {
        ((c as int) + 32) as char
    } else {
        c
    }
}

/// The ASCII lowercase of a text, character by character.
pub open spec fn ascii_lower(s: Seq<char>) -> Seq<char> {
    Seq::new(s.len(), |i: int| ascii_lower_char(s[i]))
}

/// A text of ASCII characters none of which is a lowercase letter is its
/// own ASCII uppercase.
pub proof fn lemma_ascii_upper_fixed(s: Seq<char>)
    requires
        forall|i: int| 0 <= i < s.len() ==> (#[trigger] s[i] as u32) < 128 && !('a' <= s[i] && s[i] <= 'z'),
    ensures
        is_ascii_text(s),
        ascii_upper(s) == s,
{
    assert(ascii_upper(s) =~= s);
}

/// std's `str::to_uppercase`.  Trusted: the result is named `uppercased`,
/// a function of the characters alone (std's case mapping does not depend on
/// locale).  Of an ASCII text it is also claimed that the result is its ASCII
/// uppercase: under the Unicode case mappings std follows, 'a' to 'z' map to
/// 'A' to 'Z' and every other ASCII character maps to itself.
#[verifier::external_body]
pub(crate) fn to_upper(s: &str) -> (r: String)
    ensures
        r@ == uppercased(s@),
        is_ascii_text(s@) ==> r@ == ascii_upper(s@),
{
    s.to_uppercase()
}

/// std's `str::to_lowercase`.  Trusted: the result is named `lowercased`,
/// a function of the characters alone.  Of an ASCII text it is also claimed
/// that the result is its ASCII lowercase: under the Unicode case mappings
/// std follows, 'A' to 'Z' map to 'a' to 'z' and every other ASCII character
/// maps to itself.
#[verifier::external_body]
pub(crate) fn to_lower(s: &str) -> (r: String)
    ensures
        r@ == lowercased(s@),
        is_ascii_text(s@) ==> r@ == ascii_lower(s@),
{
    s.to_lowercase()
}

} // verus!

verus! {

/// The number of bytes UTF-8 takes for a character.
pub open spec fn utf8_width(c: char) -> nat {
    let v = c as u32;
    if v < 0x80 { 1 } else if v < 0x800 { 2 } else if v < 0x10000 { 3 } else { 4 }
}

/// The number of bytes UTF-8 takes for a sequence of characters.
pub open spec fn utf8_len(s: Seq<char>) -> nat
    decreases s.len(),
{
    if s.len() == 0 { 0 } else { utf8_len(s.drop_last()) + utf8_width(s.last()) }
}

/// Longer prefixes take more bytes.
pub proof fn lemma_utf8_len_prefix_grows(s: Seq<char>, i: int, j: int)
    requires
        0 <= i <= j <= s.len(),
    ensures
        utf8_len(s.take(i)) + (j - i) <= utf8_len(s.take(j)),
    decreases j - i,
{
    if i < j {
        lemma_utf8_len_prefix_grows(s, i, j - 1);
        assert(s.take(j).drop_last() =~= s.take(j - 1));
    }
}

fn width_of(c: char) -> (w: usize)
    ensures
        w == utf8_width(c),
{
    let v = c as u32;
    if v < 0x80 { 1 } else if v < 0x800 { 2 } else if v < 0x10000 { 3 } else { 4 }
}

/// The leading part of `s` that takes exactly `n` bytes in UTF-8 (what
/// slicing the string at byte `n` keeps).
pub fn byte_prefix(s: &str, n: usize) -> (r: &str)
    requires
        exists|k: int| 0 <= k <= s@.len() && #[trigger] utf8_len(s@.take(k)) == n,
    ensures
        utf8_len(r@) == n,
        has_prefix(s@, r@),
{
    let len = s.unicode_len();
    let ghost k = choose|k: int| 0 <= k <= s@.len() && #[trigger] utf8_len(s@.take(k)) == n;
    let mut i: usize = 0;
    let mut acc: usize = 0;
    while acc < n
        invariant
            len == s@.len(),
            0 <= k <= len,
            utf8_len(s@.take(k)) == n,
            i <= len,
            acc == utf8_len(s@.take(i as int)),
            acc <= n,
            acc < n ==> i < k,
        decreases n - acc,
    {
        let c = s.get_char(i);
        assert(s@.take(i + 1).drop_last() =~= s@.take(i as int));
        proof {
            lemma_utf8_len_prefix_grows(s@, i + 1, k);
        }
        acc = acc + width_of(c);
        i = i + 1;
        proof {
            if acc < n && i >= k {
                lemma_utf8_len_prefix_grows(s@, k, i as int);
            }
        }
    }
    let r = s.substring_char(0, i);
    assert(r@ =~= s@.take(i as int));
    assert(s@.subrange(0, r@.len() as int) =~= r@);
    r
}

} // verus!
