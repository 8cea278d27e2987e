//! Character-level helpers shared by the rest of the library: white space,
//! suffixes, truncation by characters and decimal rendering of counts.

use vstd::prelude::*;

verus! {

/// Appends one character to a `String` (`String::push`).
/// Trusted: the standard library documents that `push` appends the given
/// character to the end of the string; nothing else about the string changes.
#[verifier::external_body]
pub(crate) fn push_char(s: &mut String, c: char)
    ensures
        final(s)@ == old(s)@.push(c),
{
    s.push(c);
}

/// The characters of `s`, in order.
pub fn chars_of(s: &str) -> (out: Vec<char>)
    ensures
        out@ == s@,
{
    let mut out: Vec<char> = Vec::new();
    for c in it: s.chars()
        invariant
            out@ == it.seq().take(it.index() as int),
    {
        out.push(c);
    }
    out
}

/// A `String` holding exactly the given characters.
pub fn string_from_chars(chars: &Vec<char>) -> (s: String)
    ensures
        s@ == chars@,
{
    let mut s = String::new();
    let n = chars.len();
    for i in 0..n
        invariant
            n == chars@.len(),
            s@ == chars@.take(i as int),
    {
        push_char(&mut s, chars[i]);
        assert(chars@.take(i + 1) =~= chars@.take(i as int).push(chars@[i as int]));
    }
    assert(chars@.take(n as int) =~= chars@);
    s
}

/// Unicode `White_Space` characters: the characters on which runs of text are
/// split into words (the same set as `char::is_whitespace`).
pub open spec fn is_white_space(c: char) -> bool {
    ||| ('\u{9}' <= c && c <= '\u{d}')
    ||| c == ' '
    ||| c == '\u{85}'
    ||| c == '\u{a0}'
    ||| c == '\u{1680}'
    ||| ('\u{2000}' <= c && c <= '\u{200a}')
    ||| c == '\u{2028}'
    ||| c == '\u{2029}'
    ||| c == '\u{202f}'
    ||| c == '\u{205f}'
    ||| c == '\u{3000}'
}

/// Decides `is_white_space`.
pub fn is_white_space_char(c: char) -> (r: bool)
    ensures
        r == is_white_space(c),
{
    ('\u{9}' <= c && c <= '\u{d}') || c == ' ' || c == '\u{85}' || c == '\u{a0}' || c
        == '\u{1680}' || ('\u{2000}' <= c && c <= '\u{200a}') || c == '\u{2028}' || c
        == '\u{2029}' || c == '\u{202f}' || c == '\u{205f}' || c == '\u{3000}'
}

/// `s` ends with `suffix` (every string ends with the empty one).
pub open spec fn ends_with(s: Seq<char>, suffix: Seq<char>) -> bool {
    suffix.is_suffix_of(s)
}

/// Decides whether the characters `s` end with the characters `suffix`.
pub fn chars_end_with(s: &Vec<char>, suffix: &Vec<char>) -> (r: bool)
    ensures
        r == ends_with(s@, suffix@),
{
    let n = s.len();
    let m = suffix.len();
    if m > n {
        return false;
    }
    let start = n - m;
    for j in 0..m
        invariant
            n == s@.len(),
            m == suffix@.len(),
            start == n - m,
            forall|k: int| 0 <= k < j ==> s@[start + k] == suffix@[k],
    {
        if s[start + j] != suffix[j] {
            assert(s@.subrange(start as int, n as int)[j as int] != suffix@[j as int]);
            return false;
        }
    }
    assert(suffix@ =~= s@.subrange(start as int, n as int));
    true
}

/// Decides whether two character sequences are equal.
pub fn chars_equal(a: &Vec<char>, b: &Vec<char>) -> (r: bool)
    ensures
        r == (a@ == b@),
{
    if a.len() != b.len() {
        return false;
    }
    let n = a.len();
    for j in 0..n
        invariant
            n == a@.len(),
            n == b@.len(),
            forall|k: int| 0 <= k < j ==> a@[k] == b@[k],
    {
        if a[j] != b[j] {
            return false;
        }
    }
    assert(a@ =~= b@);
    true
}

/// At most the first `max` characters of `s`.
pub open spec fn first_chars(s: Seq<char>, max: nat) -> Seq<char> {
    if s.len() <= max {
        s
    } else {
        s.take(max as int)
    }
}

/// The first `max` characters of `s` (all of `s` when it is shorter), as a
/// new string.
pub fn truncate_chars(s: &str, max: usize) -> (r: String)
    ensures
        r@ == first_chars(s@, max as nat),
{
    let chars = chars_of(s);
    let n = if chars.len() < max {
        chars.len()
    } else {
        max
    };
    let mut r = String::new();
    for i in 0..n
        invariant
            n <= chars@.len(),
            chars@ == s@,
            r@ == chars@.take(i as int),
    {
        push_char(&mut r, chars[i]);
        assert(chars@.take(i + 1) =~= chars@.take(i as int).push(chars@[i as int]));
    }
    assert(n == chars@.len() ==> chars@.take(n as int) =~= chars@);
    r
}

/// The character of a decimal digit `d < 10`.
pub open spec fn digit_char(d: nat) -> char {
    if d == 0 {
        '0'
    } else if d == 1 {
        '1'
    } else if d == 2 {
        '2'
    } else if d == 3 {
        '3'
    } else if d == 4 {
        '4'
    } else if d == 5 {
        '5'
    } else if d == 6 {
        '6'
    } else if d == 7 {
        '7'
    } else if d == 8 {
        '8'
    } else {
        '9'
    }
}

/// The value of a decimal digit character, or `None` for any other character.
pub open spec fn digit_value(c: char) -> Option<nat> {
    if c == '0' {
        Some(0)
    } else if c == '1' {
        Some(1)
    } else if c == '2' {
        Some(2)
    } else if c == '3' {
        Some(3)
    } else if c == '4' {
        Some(4)
    } else if c == '5' {
        Some(5)
    } else if c == '6' {
        Some(6)
    } else if c == '7' {
        Some(7)
    } else if c == '8' {
        Some(8)
    } else if c == '9' {
        Some(9)
    } else {
        None
    }
}

/// The shortest decimal rendering of `n`: no sign, no leading zero.
pub open spec fn decimal(n: nat) -> Seq<char>
    decreases n,
{
    if n < 10 {
        seq![digit_char(n)]
    } else {
        decimal(n / 10).push(digit_char(n % 10))
    }
}

/// The number that the digit characters `s` denote, read in base ten.
pub open spec fn decimal_value(s: Seq<char>) -> int
    decreases s.len(),
{
    if s.len() == 0 {
        0
    } else {
        decimal_value(s.drop_last()) * 10 + match digit_value(s.last()) {
            Some(d) => d as int,
            None => 0,
        }
    }
}

fn digit_of(d: u32) -> (c: char)
    requires
        d < 10,
    ensures
        c == digit_char(d as nat),
{
    match d {
        0 => '0',
        1 => '1',
        2 => '2',
        3 => '3',
        4 => '4',
        5 => '5',
        6 => '6',
        7 => '7',
        8 => '8',
        _ => '9',
    }
}

/// Appends the decimal rendering of `n` to `out`.
pub fn push_decimal(out: &mut String, n: u32)
    ensures
        final(out)@ == old(out)@ + decimal(n as nat),
    decreases n,
{
    if n >= 10 {
        push_decimal(out, n / 10);
    }
    push_char(out, digit_of(n % 10));
    assert(n >= 10 ==> decimal(n as nat) == decimal((n / 10) as nat).push(
        digit_char((n % 10) as nat),
    ));
}

/// The decimal rendering of `n`, as `n.to_string()` gives it.
pub fn decimal_string(n: u32) -> (s: String)
    ensures
        s@ == decimal(n as nat),
{
    let mut s = String::new();
    push_decimal(&mut s, n);
    assert(s@ =~= decimal(n as nat));
    s
}

/// Reading back the decimal rendering of `n` gives `n`; the rendering is made
/// of digits only and starts with `0` only when `n` is zero.
pub proof fn lemma_decimal_round_trip(n: nat)
    ensures
        decimal_value(decimal(n)) == n,
        decimal(n).len() >= 1,
        forall|i: int| 0 <= i < decimal(n).len() ==> digit_value(#[trigger] decimal(n)[i]) is Some,
        decimal(n)[0] == '0' ==> n == 0,
    decreases n,
{
    let d = n % 10;
    assert(digit_value(digit_char(d)) == Some(d));
    if n < 10 {
        assert(decimal(n).drop_last() =~= Seq::<char>::empty());
        assert(decimal_value(Seq::<char>::empty()) == 0);
    } else {
        lemma_decimal_round_trip(n / 10);
        let prev = decimal(n / 10);
        assert(decimal(n).drop_last() =~= prev);
        assert(decimal(n).last() == digit_char(d));
        assert(decimal_value(decimal(n)) == decimal_value(prev) * 10 + d);
        assert(decimal(n)[0] == prev[0]);
        assert forall|i: int| 0 <= i < decimal(n).len() implies digit_value(
            #[trigger] decimal(n)[i],
        ) is Some by {
            if i < prev.len() {
                assert(decimal(n)[i] == prev[i]);
            }
        }
    }
}

/// Cutting keeps exactly the first `min(len, max)` characters, whatever they
/// are: a text of at most `max` characters is kept whole, and a longer one
/// keeps exactly its first `max` characters.
pub proof fn lemma_first_chars_exact(s: Seq<char>, max: nat)
    ensures
        s.len() <= max ==> first_chars(s, max) == s,
        s.len() > max ==> first_chars(s, max).len() == max,
        forall|i: int| 0 <= i < first_chars(s, max).len() ==> #[trigger] first_chars(s, max)[i] == s[i],
        first_chars(s, max).len() == if s.len() <= max { s.len() } else { max },
{
}

/// Different numbers have different decimal renderings.
pub proof fn lemma_decimal_injective(a: nat, b: nat)
    requires
        decimal(a) == decimal(b),
    ensures
        a == b,
{
    lemma_decimal_round_trip(a);
    lemma_decimal_round_trip(b);
}

/// Truncating twice to the same length changes nothing more: the text that is
/// already short enough is kept as it is.
pub proof fn lemma_first_chars_idempotent(s: Seq<char>, max: nat)
    ensures
        first_chars(first_chars(s, max), max) == first_chars(s, max),
        first_chars(s, max).len() <= max,
        first_chars(s, max).is_prefix_of(s),
{
    assert(first_chars(s, max) =~= s.subrange(0, first_chars(s, max).len() as int));
}

} // verus!
