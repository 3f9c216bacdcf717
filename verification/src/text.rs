//! Character-level helpers on strings: comparison, ASCII case folding, searching,
//! decimal digits and trimming.

use vstd::prelude::*;
use vstd::string::*;
use vstd::utf8::*;

verus! {

/// Whether two strings hold the same characters.
pub fn str_eq(a: &str, b: &str) -> (r: bool)
    ensures
        r == (a@ == b@),
{
    let x = a.as_bytes();
    let y = b.as_bytes();
    proof {
        encode_utf8_decode_utf8(a@);
        encode_utf8_decode_utf8(b@);
    }
    if x.len() != y.len() {
        return false;
    }
    let mut i: usize = 0;
    while i < x.len()
        invariant
            0 <= i <= x.len(),
            x.len() == y.len(),
            x@ == a.spec_bytes(),
            y@ == b.spec_bytes(),
            decode_utf8(a.spec_bytes()) == a@,
            decode_utf8(b.spec_bytes()) == b@,
            forall|j: int| 0 <= j < i ==> x@[j] == y@[j],
        decreases x.len() - i,
    {
        if x[i] != y[i] {
            return false;
        }
        i += 1;
    }
    assert(x@ =~= y@);
    true
}

/// The characters of a string, in order.
pub fn chars_of(s: &str) -> (v: Vec<char>)
    ensures
        v@ == s@,
{
    let mut v: Vec<char> = Vec::new();
    for c in it: s.chars()
        invariant
            v@ == it.seq().take(it.index()),
    {
        v.push(c);
    }
    v
}

/// ASCII upper-case letters map to lower case; every other character is kept.
pub open spec fn ascii_lower_char(c: char) -> char {
    if 'A' <= c <= 'Z' {
        ((c as u8) + 32) as char
    } else {
        c
    }
}

/// A string with each character folded by `ascii_lower_char`.
pub open spec fn ascii_lower(s: Seq<char>) -> Seq<char> {
    Seq::new(s.len(), |i: int| ascii_lower_char(s[i]))
}

/// Folds an ASCII capital to lower case.
pub fn to_ascii_lower(c: char) -> (r: char)
    ensures
        r == ascii_lower_char(c),
{
    if c >= 'A' && c <= 'Z' {
        ((c as u8) + 32) as char
    } else {
        c
    }
}

/// The characters of a string, ASCII letters folded to lower case.
pub fn lower_chars(s: &str) -> (v: Vec<char>)
    ensures
        v@ == ascii_lower(s@),
{
    let mut v: Vec<char> = Vec::new();
    for c in it: s.chars()
        invariant
            v@.len() == it.index(),
            forall|j: int| 0 <= j < it.index() ==> v@[j] == ascii_lower_char(it.seq()[j]),
    {
        v.push(to_ascii_lower(c));
    }
    assert(v@ =~= ascii_lower(s@));
    v
}

/// Whether a character vector spells exactly the given text.
pub fn chars_eq(v: &Vec<char>, text: &str) -> (r: bool)
    ensures
        r == (v@ == text@),
{
    let mut same = true;
    let mut n: usize = 0;
    for c in it: text.chars()
        invariant
            it.seq() == text@,
            same ==> n == it.index() && n <= v@.len() && v@.take(n as int) =~= text@.take(n as int),
            !same ==> v@ != text@,
    {
        if same {
            if n < v.len() && v[n] == c {
                assert(v@.take(n as int + 1) =~= v@.take(n as int).push(v@[n as int]));
                assert(text@.take(n as int + 1) =~= text@.take(n as int).push(c));
                n = n + 1;
            } else {
                same = false;
            }
        }
    }
    proof {
        if same {
            assert(text@.take(n as int) =~= text@);
            if n == v@.len() {
                assert(v@.take(n as int) =~= v@);
            }
        }
    }
    same && n == v.len()
}

/// Whether `part` occurs in `whole` starting at position `at`.
pub open spec fn occurs_at(whole: Seq<char>, part: Seq<char>, at: int) -> bool {
    &&& 0 <= at
    &&& at + part.len() <= whole.len()
    &&& whole.subrange(at, at + part.len()) == part
}

/// Whether `whole` begins with `part`.
pub open spec fn has_prefix(whole: Seq<char>, part: Seq<char>) -> bool {
    occurs_at(whole, part, 0)
}

/// Whether `part` occurs somewhere in `whole` as a contiguous run.
pub open spec fn has_substring(whole: Seq<char>, part: Seq<char>) -> bool {
    exists|at: int| occurs_at(whole, part, at)
}

/// Tests `occurs_at` for one position.
pub fn matches_at(whole: &Vec<char>, part: &Vec<char>, at: usize) -> (r: bool)
    ensures
        r == occurs_at(whole@, part@, at as int),
{
    if part.len() > whole.len() || at > whole.len() - part.len() {
        return false;
    }
    let mut i: usize = 0;
    while i < part.len()
        invariant
            0 <= i <= part.len(),
            at + part.len() <= whole.len(),
            forall|j: int| 0 <= j < i ==> whole@[at + j] == part@[j],
        decreases part.len() - i,
    {
        if whole[at + i] != part[i] {
            assert(whole@.subrange(at as int, at + part@.len())[i as int] != part@[i as int]);
            return false;
        }
        i += 1;
    }
    assert(whole@.subrange(at as int, at + part@.len()) =~= part@);
    true
}

/// Whether the characters begin with the given text.
pub fn starts_with(whole: &Vec<char>, text: &str) -> (r: bool)
    ensures
        r == has_prefix(whole@, text@),
{
    let part = chars_of(text);
    matches_at(whole, &part, 0)
}

/// Whether the given text occurs somewhere in the characters.
pub fn contains(whole: &Vec<char>, text: &str) -> (r: bool)
    ensures
        r == has_substring(whole@, text@),
{
    let part = chars_of(text);
    if part.len() > whole.len() {
        return false;
    }
    let last: usize = whole.len() - part.len();
    let mut at: usize = 0;
    while at < last
        invariant
            0 <= at <= last,
            last == whole.len() - part.len(),
            part@ == text@,
            forall|j: int| 0 <= j < at ==> !occurs_at(whole@, part@, j),
        decreases last - at,
    {
        if matches_at(whole, &part, at) {
            return true;
        }
        at += 1;
    }
    matches_at(whole, &part, last)
}

/// `0` to `9`.
pub open spec fn is_ascii_digit(c: char) -> bool {
    '0' <= c <= '9'
}

/// `a` to `z` and `A` to `Z`.
pub open spec fn is_ascii_letter(c: char) -> bool {
    'a' <= c <= 'z' || 'A' <= c <= 'Z'
}

/// Whether every character is an ASCII digit; true of the empty text.
pub open spec fn all_ascii_digits(s: Seq<char>) -> bool {
    forall|i: int| 0 <= i < s.len() ==> is_ascii_digit(#[trigger] s[i])
}

/// Whether every character is an ASCII letter; true of the empty text.
pub open spec fn all_ascii_letters(s: Seq<char>) -> bool {
    forall|i: int| 0 <= i < s.len() ==> is_ascii_letter(#[trigger] s[i])
}

/// Whether a character is an ASCII digit.
pub fn ascii_digit(c: char) -> (r: bool)
    ensures
        r == is_ascii_digit(c),
{
    c >= '0' && c <= '9'
}

/// Whether a character is an ASCII letter.
pub fn ascii_letter(c: char) -> (r: bool)
    ensures
        r == is_ascii_letter(c),
{
    (c >= 'a' && c <= 'z') || (c >= 'A' && c <= 'Z')
}

/// Whether every character from `from` on is an ASCII digit.
pub(crate) fn digits_from(v: &Vec<char>, from: usize) -> (r: bool)
    requires
        from <= v@.len(),
    ensures
        r == all_ascii_digits(v@.skip(from as int)),
{
    let mut i: usize = from;
    while i < v.len()
        invariant
            from <= i <= v.len(),
            forall|j: int| from <= j < i ==> is_ascii_digit(v@[j]),
        decreases v.len() - i,
    {
        if !ascii_digit(v[i]) {
            assert(!is_ascii_digit(v@.skip(from as int)[i - from]));
            return false;
        }
        i += 1;
    }
    true
}

/// Whether every character is an ASCII letter.
pub fn only_letters(v: &Vec<char>) -> (r: bool)
    ensures
        r == all_ascii_letters(v@),
{
    let mut i: usize = 0;
    while i < v.len()
        invariant
            0 <= i <= v.len(),
            forall|j: int| 0 <= j < i ==> is_ascii_letter(v@[j]),
        decreases v.len() - i,
    {
        if !ascii_letter(v[i]) {
            return false;
        }
        i += 1;
    }
    true
}

/// The number that a run of ASCII digits spells in base ten.
pub open spec fn decimal_value(s: Seq<char>) -> nat
    decreases s.len(),
{
    if s.len() == 0 {
        0
    } else {
        (decimal_value(s.drop_last()) * 10 + (s.last() as u8 - '0' as u8)) as nat
    }
}

/// Position of the first occurrence of `c`; the length where there is none.
pub open spec fn index_of_char(s: Seq<char>, c: char) -> nat
    decreases s.len(),
{
    if s.len() == 0 || s[0] == c {
        0
    } else {
        1 + index_of_char(s.skip(1), c)
    }
}

/// Finds the first `c` in the stretch from `from` to `to`; gives `to` where there
/// is none.
pub(crate) fn find_char(v: &Vec<char>, from: usize, to: usize, c: char) -> (at: usize)
    requires
        from <= to <= v@.len(),
    ensures
        at == from + index_of_char(v@.subrange(from as int, to as int), c),
        from <= at <= to,
        at < to ==> v@[at as int] == c,
{
    let ghost part = v@.subrange(from as int, to as int);
    let mut at: usize = from;
    assert(part.skip(0) =~= part);
    while at < to && v[at] != c
        invariant
            from <= at <= to <= v@.len(),
            part == v@.subrange(from as int, to as int),
            index_of_char(part, c) == (at - from) + index_of_char(part.skip(at - from), c),
        decreases to - at,
    {
        assert(part.skip(at - from)[0] == v@[at as int]);
        assert(part.skip(at - from).skip(1) =~= part.skip(at - from + 1));
        at += 1;
    }
    proof {
        if at < to {
            assert(part.skip(at - from)[0] == v@[at as int]);
        }
    }
    at
}

/// Whether Unicode gives a character the property White_Space.
pub uninterp spec fn unicode_whitespace(c: char) -> bool;

/// What Unicode's lower-case mapping makes of a text.
pub uninterp spec fn unicode_lowercase(s: Seq<char>) -> Seq<char>;

/// What Unicode's upper-case mapping makes of a text.
pub uninterp spec fn unicode_uppercase(s: Seq<char>) -> Seq<char>;

/// `char::is_whitespace` of the standard library. Trusted: the answer is a
/// matter of the character alone, and `unicode_whitespace` is the name of it.
#[verifier::external_body]
pub(crate) fn is_whitespace(c: char) -> (r: bool)
    ensures
        r == unicode_whitespace(c),
{
    c.is_whitespace()
}

/// `str::to_lowercase` of the standard library. Trusted: the result is a matter
/// of the text alone, and `unicode_lowercase` is the name of it.
#[verifier::external_body]
pub(crate) fn to_lowercase(s: &str) -> (r: String)
    ensures
        r@ == unicode_lowercase(s@),
{
    s.to_lowercase()
}

/// `str::to_uppercase` of the standard library. Trusted: the result is a matter
/// of the text alone, and `unicode_uppercase` is the name of it.
#[verifier::external_body]
pub(crate) fn to_uppercase(s: &str) -> (r: String)
    ensures
        r@ == unicode_uppercase(s@),
{
    s.to_uppercase()
}

/// Number of whitespace characters that a text begins with.
pub open spec fn leading_whitespace(s: Seq<char>) -> nat
    decreases s.len(),
{
    if s.len() == 0 || !unicode_whitespace(s[0]) {
        0
    } else {
        1 + leading_whitespace(s.skip(1))
    }
}

/// Number of whitespace characters that a text ends with.
pub open spec fn trailing_whitespace(s: Seq<char>) -> nat
    decreases s.len(),
{
    if s.len() == 0 || !unicode_whitespace(s.last()) {
        0
    } else {
        1 + trailing_whitespace(s.drop_last())
    }
}

/// A text without the whitespace it begins and ends with.
pub open spec fn trimmed(s: Seq<char>) -> Seq<char> {
    if leading_whitespace(s) == s.len() {
        Seq::empty()
    } else {
        s.subrange(leading_whitespace(s) as int, s.len() - trailing_whitespace(s))
    }
}

/// Trims the stretch of `v` from `lo` to `hi`: gives the ends of what is left.
pub(crate) fn trim_range(v: &Vec<char>, lo: usize, hi: usize) -> (ends: (usize, usize))
    requires
        lo <= hi <= v@.len(),
    ensures
        lo <= ends.0 <= ends.1 <= hi,
        v@.subrange(ends.0 as int, ends.1 as int) == trimmed(v@.subrange(lo as int, hi as int)),
{
    let ghost part = v@.subrange(lo as int, hi as int);
    let mut a: usize = lo;
    assert(part.skip(0) =~= part);
    while a < hi && is_whitespace(v[a])
        invariant
            lo <= a <= hi <= v@.len(),
            part == v@.subrange(lo as int, hi as int),
            leading_whitespace(part) == (a - lo) + leading_whitespace(part.skip(a - lo)),
        decreases hi - a,
    {
        assert(part.skip(a - lo)[0] == v@[a as int]);
        assert(part.skip(a - lo).skip(1) =~= part.skip(a - lo + 1));
        a += 1;
    }
    if a == hi {
        assert(v@.subrange(a as int, a as int) =~= Seq::<char>::empty());
        return (a, a);
    }
    assert(part.skip(a - lo)[0] == v@[a as int]);
    let mut b: usize = hi;
    assert(part.take(hi - lo) =~= part);
    while is_whitespace(v[b - 1])
        invariant
            lo <= a < b <= hi <= v@.len(),
            part == v@.subrange(lo as int, hi as int),
            !unicode_whitespace(v@[a as int]),
            trailing_whitespace(part) == (hi - b) + trailing_whitespace(part.take(b - lo)),
        decreases b,
    {
        assert(part.take(b - lo).last() == v@[b - 1]);
        assert(part.take(b - lo).drop_last() =~= part.take(b - lo - 1));
        b -= 1;
    }
    assert(part.take(b - lo).last() == v@[b - 1]);
    assert(v@.subrange(a as int, b as int) =~= part.subrange(a - lo, part.len() - (hi - b)));
    (a, b)
}

/// The character of a digit from 0 to 9.
pub open spec fn digit_char(d: nat) -> char {
    ('0' as u8 + d) as char
}

/// A number in base ten, without sign and without leading zeros.
pub open spec fn decimal_digits(n: nat) -> Seq<char>
    decreases n,
{
    if n < 10 {
        seq![digit_char(n)]
    } else {
        decimal_digits(n / 10).push(digit_char(n % 10))
    }
}

/// Writes a number in base ten.
pub fn decimal_string(n: u32) -> (s: String)
    ensures
        s@ == decimal_digits(n as nat),
    decreases n,
{
    let digits = "0123456789";
    proof {
        reveal_strlit("0123456789");
    }
    let d: usize = (n % 10) as usize;
    let digit = digits.substring_ascii(d, d + 1);
    assert(digit@ =~= seq![digit_char(d as nat)]);
    if n < 10 {
        String::from_str(digit)
    } else {
        let mut s = decimal_string(n / 10);
        s.append(digit);
        assert(seq![digit_char(d as nat)] =~= Seq::<char>::empty().push(digit_char(d as nat)));
        assert(s@ =~= decimal_digits((n / 10) as nat).push(digit_char(d as nat)));
        s
    }
}

} // verus!
