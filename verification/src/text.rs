//! Text helpers shared by the rest of the library: alias normalisation,
//! ordering of titles, rendering of numbers and UTF-16 encoding.

use vstd::prelude::*;
use vstd::string::*;

verus! {

/// Whether `c` has the Unicode White_Space property, as `char::is_whitespace`
/// reports it.
pub uninterp spec fn has_white_space(c: char) -> bool;

/// The lower-case form of `s`, as `str::to_lowercase` computes it.
pub uninterp spec fn lowercase_of(s: Seq<char>) -> Seq<char>;

/// Calls `char::is_whitespace`. Trusted: the result is the White_Space
/// property of `c`, which this library only names.
#[verifier::external_body]
fn is_whitespace(c: char) -> (white: bool)
    ensures
        white == has_white_space(c),
{
    c.is_whitespace()
}

/// Calls `str::to_lowercase`. Trusted: the result is the lower-case form of
/// `s`, which this library only names.
#[verifier::external_body]
pub(crate) fn to_lowercase(s: &str) -> (lower: String)
    ensures
        lower@ == lowercase_of(s@),
{
    s.to_lowercase()
}

/// `s` without its leading white space.
pub open spec fn trim_start(s: Seq<char>) -> Seq<char>
    decreases s.len(),
{
    if s.len() > 0 && has_white_space(s[0]) {
        trim_start(s.drop_first())
    } else {
        s
    }
}

/// `s` without its trailing white space.
pub open spec fn trim_end(s: Seq<char>) -> Seq<char>
    decreases s.len(),
{
    if s.len() > 0 && has_white_space(s.last()) {
        trim_end(s.drop_last())
    } else {
        s
    }
}

/// `s` without leading and trailing white space.
pub open spec fn trimmed(s: Seq<char>) -> Seq<char> {
    trim_end(trim_start(s))
}

/// The form under which an alias is stored and looked up: trimmed, then
/// lower-cased.
pub open spec fn normalized(s: Seq<char>) -> Seq<char> {
    lowercase_of(trimmed(s))
}

proof fn lemma_trim_start_skips(s: Seq<char>, k: int)
    requires
        0 <= k <= s.len(),
        forall|i: int| 0 <= i < k ==> has_white_space(#[trigger] s[i]),
        k < s.len() ==> !has_white_space(s[k]),
    ensures
        trim_start(s) == s.subrange(k, s.len() as int),
    decreases k,
{
    if k == 0 {
        assert(s.subrange(0, s.len() as int) =~= s);
    } else {
        let rest = s.drop_first();
        assert forall|i: int| 0 <= i < k - 1 implies has_white_space(#[trigger] rest[i]) by {
            assert(rest[i] == s[i + 1]);
        }
        lemma_trim_start_skips(rest, k - 1);
        assert(rest.subrange(k - 1, rest.len() as int) =~= s.subrange(k, s.len() as int));
    }
}

proof fn lemma_trim_end_skips(s: Seq<char>, e: int)
    requires
        0 <= e <= s.len(),
        forall|i: int| e <= i < s.len() ==> has_white_space(#[trigger] s[i]),
        e > 0 ==> !has_white_space(s[e - 1]),
    ensures
        trim_end(s) == s.subrange(0, e),
    decreases s.len() - e,
{
    if e == s.len() {
        assert(s.subrange(0, e) =~= s);
    } else {
        let rest = s.drop_last();
        lemma_trim_end_skips(rest, e);
        assert(rest.subrange(0, e) =~= s.subrange(0, e));
    }
}

/// Removes leading and trailing white space.
pub fn trim(s: &str) -> (r: String)
    ensures
        r@ == trimmed(s@),
{
    let n: usize = s.unicode_len();
    let mut start: usize = 0;
    let mut end: usize = 0;
    let mut seen: bool = false;
    let mut i: usize = 0;
    for c in it: s.chars()
        invariant
            it.seq() == s@,
            n == s@.len(),
            i == it.index(),
            seen ==> start < end <= i,
            seen ==> !has_white_space(s@[start as int]) && !has_white_space(s@[end - 1]),
            seen ==> forall|j: int| 0 <= j < start ==> has_white_space(#[trigger] s@[j]),
            seen ==> forall|j: int| end <= j < i ==> has_white_space(#[trigger] s@[j]),
            !seen ==> forall|j: int| 0 <= j < i ==> has_white_space(#[trigger] s@[j]),
    {
        if !is_whitespace(c) {
            if !seen {
                start = i;
                seen = true;
            }
            end = i + 1;
        }
        i = i + 1;
    }
    if !seen {
        start = n;
        end = n;
    }
    proof {
        let full = s@;
        lemma_trim_start_skips(full, start as int);
        let tail = full.subrange(start as int, n as int);
        if seen {
            assert(tail[end - start - 1] == full[end - 1]);
            assert forall|j: int| end - start <= j < tail.len() implies has_white_space(
                #[trigger] tail[j],
            ) by {
                assert(tail[j] == full[j + start]);
            }
        }
        lemma_trim_end_skips(tail, end - start);
        assert(tail.subrange(0, end - start) =~= full.subrange(start as int, end as int));
    }
    let piece: &str = s.substring_char(start, end);
    piece.to_owned()
}

/// Normalises an alias: trims it, then lower-cases it.
pub fn normalize(s: &str) -> (r: String)
    ensures
        r@ == normalized(s@),
{
    let t: String = trim(s);
    to_lowercase(t.as_str())
}

/// Compares two string slices with `==` on `str`. Trusted: they are equal
/// exactly when they hold the same characters.
#[verifier::external_body]
pub(crate) fn str_eq(a: &str, b: &str) -> (same: bool)
    ensures
        same == (a@ == b@),
{
    a == b
}

/// Appends one character with `String::push`. Trusted: the string afterwards
/// is the string before with `c` at its end.
#[verifier::external_body]
pub(crate) fn push_char(s: &mut String, c: char)
    ensures
        final(s)@ == old(s)@.push(c),
{
    s.push(c);
}

/// The digits of the bases up to sixteen, by value, in lower case.
pub open spec fn digit_chars() -> Seq<char> {
    seq!['0', '1', '2', '3', '4', '5', '6', '7', '8', '9', 'a', 'b', 'c', 'd', 'e', 'f']
}

/// `n` in lower-case hexadecimal, without prefix or leading zeros; zero is
/// the single digit `0`.
pub open spec fn hex_of(n: nat) -> Seq<char>
    decreases n,
{
    if n < 16 {
        seq![digit_chars()[n as int]]
    } else {
        hex_of(n / 16).push(digit_chars()[(n % 16) as int])
    }
}

fn digit_char(d: u8) -> (c: char)
    requires
        d < 16,
    ensures
        c == digit_chars()[d as int],
{
    match d {
        0 => '0',
        1 => '1',
        2 => '2',
        3 => '3',
        4 => '4',
        5 => '5',
        6 => '6',
        7 => '7',
        8 => '8',
        9 => '9',
        10 => 'a',
        11 => 'b',
        12 => 'c',
        13 => 'd',
        14 => 'e',
        _ => 'f',
    }
}

/// The digits of `n` from the least significant one up.
spec fn hex_rev(n: nat) -> Seq<char>
    decreases n,
{
    if n < 16 {
        seq![digit_chars()[n as int]]
    } else {
        seq![digit_chars()[(n % 16) as int]] + hex_rev(n / 16)
    }
}

proof fn lemma_hex_rev_reverses(n: nat)
    ensures
        hex_rev(n).reverse() == hex_of(n),
    decreases n,
{
    if n < 16 {
        assert(hex_rev(n).reverse() =~= hex_of(n));
    } else {
        lemma_hex_rev_reverses(n / 16);
        let head = seq![digit_chars()[(n % 16) as int]];
        let rest = hex_rev(n / 16);
        assert((head + rest).reverse() =~= rest.reverse().push(head[0]));
    }
}

/// The characters of `rev` in reverse order, as a string.
fn reversed(rev: &Vec<char>) -> (out: String)
    ensures
        out@ == rev@.reverse(),
{
    let mut out: String = String::new();
    let mut i: usize = rev.len();
    while i > 0
        invariant
            i <= rev.len(),
            out@ == rev@.subrange(i as int, rev.len() as int).reverse(),
        decreases i,
    {
        i = i - 1;
        let c: char = rev[i];
        proof {
            let before = rev@.subrange(i + 1, rev.len() as int);
            let now = rev@.subrange(i as int, rev.len() as int);
            assert(now.reverse() =~= before.reverse().push(c));
        }
        push_char(&mut out, c);
    }
    proof {
        assert(rev@.subrange(0, rev.len() as int) =~= rev@);
    }
    out
}

/// Renders `n` in lower-case hexadecimal.
pub fn to_hex(n: u64) -> (r: String)
    ensures
        r@ == hex_of(n as nat),
{
    let mut digits: Vec<char> = Vec::new();
    let mut rest: u64 = n;
    while rest >= 16
        invariant
            hex_rev(n as nat) == digits@ + hex_rev(rest as nat),
        decreases rest,
    {
        let c: char = digit_char((rest % 16) as u8);
        proof {
            assert(digits@.push(c) + hex_rev((rest / 16) as nat) =~= digits@ + hex_rev(
                rest as nat,
            ));
        }
        digits.push(c);
        rest = rest / 16;
    }
    digits.push(digit_char(rest as u8));
    proof {
        assert(digits@ =~= hex_rev(n as nat));
        lemma_hex_rev_reverses(n as nat);
    }
    reversed(&digits)
}

/// `n` in decimal, without leading zeros; zero is the single digit `0`.
pub open spec fn decimal_of(n: nat) -> Seq<char>
    decreases n,
{
    if n < 10 {
        seq![digit_chars()[n as int]]
    } else {
        decimal_of(n / 10).push(digit_chars()[(n % 10) as int])
    }
}

/// The decimal digits of `n` from the least significant one up.
spec fn decimal_rev(n: nat) -> Seq<char>
    decreases n,
{
    if n < 10 {
        seq![digit_chars()[n as int]]
    } else {
        seq![digit_chars()[(n % 10) as int]] + decimal_rev(n / 10)
    }
}

proof fn lemma_decimal_rev_reverses(n: nat)
    ensures
        decimal_rev(n).reverse() == decimal_of(n),
    decreases n,
{
    if n < 10 {
        assert(decimal_rev(n).reverse() =~= decimal_of(n));
    } else {
        lemma_decimal_rev_reverses(n / 10);
        let head = seq![digit_chars()[(n % 10) as int]];
        let rest = decimal_rev(n / 10);
        assert((head + rest).reverse() =~= rest.reverse().push(head[0]));
    }
}

/// Renders `n` in decimal.
pub fn to_decimal(n: u64) -> (r: String)
    ensures
        r@ == decimal_of(n as nat),
{
    let mut digits: Vec<char> = Vec::new();
    let mut rest: u64 = n;
    while rest >= 10
        invariant
            decimal_rev(n as nat) == digits@ + decimal_rev(rest as nat),
        decreases rest,
    {
        let c: char = digit_char((rest % 10) as u8);
        proof {
            assert(digits@.push(c) + decimal_rev((rest / 10) as nat) =~= digits@ + decimal_rev(
                rest as nat,
            ));
        }
        digits.push(c);
        rest = rest / 10;
    }
    digits.push(digit_char(rest as u8));
    proof {
        assert(digits@ =~= decimal_rev(n as nat));
        lemma_decimal_rev_reverses(n as nat);
    }
    reversed(&digits)
}

/// The UTF-16 code units of one character: itself below the supplementary
/// planes, a surrogate pair above.
pub open spec fn utf16_of_char(c: char) -> Seq<u16> {
    let cp: int = c as int;
    if cp < 0x10000 {
        seq![cp as u16]
    } else {
        seq![(0xD800 + (cp - 0x10000) / 0x400) as u16, (0xDC00 + (cp - 0x10000) % 0x400) as u16]
    }
}

/// The UTF-16 encoding of `s`, character by character.
pub open spec fn utf16_of(s: Seq<char>) -> Seq<u16>
    decreases s.len(),
{
    if s.len() == 0 {
        Seq::<u16>::empty()
    } else {
        utf16_of(s.drop_last()) + utf16_of_char(s.last())
    }
}

fn code_point(c: char) -> (cp: u32)
    ensures
        cp == c as int,
        cp <= 0x10FFFF,
{
    c as u32
}

/// Encodes `s` as UTF-16 code units.
pub fn encode_utf16(s: &str) -> (units: Vec<u16>)
    ensures
        units@ == utf16_of(s@),
{
    let mut units: Vec<u16> = Vec::new();
    for c in it: s.chars()
        invariant
            it.seq() == s@,
            units@ == utf16_of(s@.take(it.index())),
    {
        let cp: u32 = code_point(c);
        proof {
            let next = s@.take(it.index() + 1);
            assert(next.drop_last() =~= s@.take(it.index()));
            assert(next.last() == c);
            assert(utf16_of(next) == utf16_of(s@.take(it.index())) + utf16_of_char(c));
        }
        if cp < 0x10000 {
            units.push(cp as u16);
            assert(utf16_of_char(c) =~= seq![cp as u16]);
        } else {
            let off: u32 = cp - 0x10000;
            let high: u32 = 0xD800 + off / 0x400;
            let low: u32 = 0xDC00 + off % 0x400;
            units.push(high as u16);
            units.push(low as u16);
            assert(utf16_of_char(c) =~= seq![high as u16, low as u16]);
        }
    }
    proof {
        assert(s@.take(s@.len() as int) =~= s@);
    }
    units
}

/// Whether `a` comes strictly before `b` when both are compared character by
/// character, by code point, a proper prefix coming first.
pub open spec fn lex_less(a: Seq<char>, b: Seq<char>) -> bool
    decreases a.len(),
{
    if b.len() == 0 {
        false
    } else if a.len() == 0 {
        true
    } else if a[0] != b[0] {
        (a[0] as int) < (b[0] as int)
    } else {
        lex_less(a.drop_first(), b.drop_first())
    }
}

/// No text comes before itself.
pub proof fn lemma_lex_less_irreflexive(a: Seq<char>)
    ensures
        !lex_less(a, a),
    decreases a.len(),
{
    if a.len() > 0 {
        lemma_lex_less_irreflexive(a.drop_first());
    }
}

/// Of two texts at most one comes before the other.
pub proof fn lemma_lex_less_asymmetric(a: Seq<char>, b: Seq<char>)
    requires
        lex_less(a, b),
    ensures
        !lex_less(b, a),
    decreases a.len(),
{
    if a.len() > 0 && b.len() > 0 && a[0] == b[0] {
        lemma_lex_less_asymmetric(a.drop_first(), b.drop_first());
    }
}

/// "Does not come after" is transitive: where `b` does not come before `a`
/// and `c` does not come before `b`, `c` does not come before `a`.
pub proof fn lemma_lex_not_less_transitive(a: Seq<char>, b: Seq<char>, c: Seq<char>)
    requires
        !lex_less(b, a),
        !lex_less(c, b),
    ensures
        !lex_less(c, a),
    decreases a.len(),
{
    if a.len() > 0 && b.len() > 0 && c.len() > 0 && a[0] == b[0] && b[0] == c[0] {
        lemma_lex_not_less_transitive(a.drop_first(), b.drop_first(), c.drop_first());
    }
}

/// Of two different texts one comes before the other.
pub proof fn lemma_lex_less_total(a: Seq<char>, b: Seq<char>)
    requires
        !lex_less(a, b),
        !lex_less(b, a),
    ensures
        a == b,
    decreases a.len(),
{
    if a.len() > 0 && b.len() > 0 {
        lemma_lex_less_total(a.drop_first(), b.drop_first());
        assert(a =~= seq![a[0]] + a.drop_first());
        assert(b =~= seq![b[0]] + b.drop_first());
    }
    assert(a =~= b);
}

/// Compares two strings with `<` on `str`. Trusted: `str` is ordered
/// lexicographically by bytes, which for UTF-8 is the order by code points.
#[verifier::external_body]
pub(crate) fn str_less(a: &str, b: &str) -> (less: bool)
    ensures
        less == lex_less(a@, b@),
{
    a < b
}

} // verus!
