//! Character-level helpers shared by the validation and formatting code.
use vstd::prelude::*;
use vstd::string::StrSliceExecFns;

verus! {

/// The characters of `s`, one by one.
pub fn chars_of(s: &str) -> (r: Vec<char>)
    ensures
        r@ == s@,
{
    let n = s.unicode_len();
    let mut v: Vec<char> = Vec::new();
    let mut i: usize = 0;
    while i < n
        invariant
            n == s@.len(),
            i <= n,
            v@ == s@.subrange(0, i as int),
        decreases n - i,
    {
        let c = s.get_char(i);
        v.push(c);
        i = i + 1;
        assert(v@ =~= s@.subrange(0, i as int));
    }
    assert(v@ =~= s@);
    v
}

/// Relies on `String: FromIterator<char>`: the characters are collected in order.
#[verifier::external_body]
pub fn string_from_chars(v: &Vec<char>) -> (r: String)
    ensures
        r@ == v@,
{
    v.iter().collect()
}

/// Case folding as the pattern engine applies it to ASCII letters, given as a
/// code point: upper case letters map to lower case, and the two non-ASCII
/// characters whose simple case folding lands on an ASCII letter (U+017F LONG S
/// and U+212A KELVIN SIGN) map to that letter.
pub open spec fn fold(c: char) -> u32 {
    if 'A' <= c && c <= 'Z' {
        (c as u32 + 32) as u32
    } else if c == '\u{17F}' {
        's' as u32
    } else if c == '\u{212A}' {
        'k' as u32
    } else {
        c as u32
    }
}

pub fn fold_char(c: char) -> (r: u32)
    ensures
        r == fold(c),
{
    if 'A' <= c && c <= 'Z' {
        c as u32 + 32
    } else if c == '\u{17F}' {
        's' as u32
    } else if c == '\u{212A}' {
        'k' as u32
    } else {
        c as u32
    }
}

/// `pat` occurs in `s` at position `i`, comparing folded characters of `s`
/// with the characters of `pat`.
pub open spec fn occurs_folded_at(s: Seq<char>, pat: Seq<char>, i: int) -> bool {
    &&& 0 <= i
    &&& i + pat.len() <= s.len()
    &&& forall|j: int| 0 <= j < pat.len() ==> #[trigger] fold(s[i + j]) == (pat[j] as u32)
}

/// `pat` occurs somewhere in `s`, ignoring case.
pub open spec fn contains_folded(s: Seq<char>, pat: Seq<char>) -> bool {
    exists|i: int| occurs_folded_at(s, pat, i)
}

/// Tests whether `pat` occurs in `s`, ignoring case.
pub fn find_folded(s: &Vec<char>, pat: &str) -> (r: bool)
    ensures
        r == contains_folded(s@, pat@),
{
    let p = chars_of(pat);
    let n = s.len();
    let m = p.len();
    if m > n {
        assert(!contains_folded(s@, pat@));
        return false;
    }
    let mut i: usize = 0;
    while i <= n - m
        invariant
            n == s@.len(),
            m == p@.len(),
            p@ == pat@,
            m <= n,
            i <= n - m + 1,
            forall|k: int| 0 <= k < i ==> !occurs_folded_at(s@, pat@, k),
        decreases n - m + 1 - i,
    {
        let mut j: usize = 0;
        let mut ok = true;
        while j < m && ok
            invariant
                n == s@.len(),
                m == p@.len(),
                p@ == pat@,
                i + m <= n,
                j <= m,
                ok == (forall|t: int| 0 <= t < j ==> #[trigger] fold(s@[i + t]) == (pat@[t] as u32)),
            decreases m - j,
        {
            if fold_char(s[i + j]) != p[j] as u32 {
                ok = false;
                assert(fold(s@[i + j]) != (pat@[j as int] as u32));
            }
            j = j + 1;
        }
        if ok {
            assert(occurs_folded_at(s@, pat@, i as int));
            return true;
        }
        i = i + 1;
    }
    assert forall|k: int| !occurs_folded_at(s@, pat@, k) by {
        if 0 <= k && k + pat@.len() <= s@.len() {
            assert(k < i);
        }
    }
    false
}

/// The decimal digit `d` (for `0 <= d < 10`).
pub open spec fn digit_char(d: int) -> char {
    if d == 0 { '0' } else if d == 1 { '1' } else if d == 2 { '2' } else if d == 3 { '3' }
    else if d == 4 { '4' } else if d == 5 { '5' } else if d == 6 { '6' } else if d == 7 { '7' }
    else if d == 8 { '8' } else { '9' }
}

/// Decimal text of a natural number, without leading zeros.
pub open spec fn nat_text(n: nat) -> Seq<char>
    decreases n,
{
    if n < 10 {
        seq![digit_char(n as int)]
    } else {
        nat_text(n / 10).push(digit_char((n % 10) as int))
    }
}

/// Decimal text of an integer, with a leading minus sign when negative.
pub open spec fn int_text(n: int) -> Seq<char> {
    if n < 0 {
        seq!['-'] + nat_text((-n) as nat)
    } else {
        nat_text(n as nat)
    }
}

fn digit(d: u64) -> (c: char)
    requires
        d < 10,
    ensures
        c == digit_char(d as int),
{
    if d == 0 { '0' } else if d == 1 { '1' } else if d == 2 { '2' } else if d == 3 { '3' }
    else if d == 4 { '4' } else if d == 5 { '5' } else if d == 6 { '6' } else if d == 7 { '7' }
    else if d == 8 { '8' } else { '9' }
}

/// Appends the decimal text of `n`.
pub fn push_decimal(out: &mut Vec<char>, n: u64)
    ensures
        final(out)@ == old(out)@ + nat_text(n as nat),
    decreases n,
{
    if n >= 10 {
        push_decimal(out, n / 10);
    }
    out.push(digit(n % 10));
    assert(final(out)@ =~= old(out)@ + nat_text(n as nat));
}

/// Appends the decimal text of `n`, signed.
pub fn push_signed(out: &mut Vec<char>, n: i64)
    ensures
        final(out)@ == old(out)@ + int_text(n as int),
{
    if n < 0 {
        out.push('-');
        let m: u64 = if n == i64::MIN { 9223372036854775808u64 } else { (-n) as u64 };
        push_decimal(out, m);
        assert(final(out)@ =~= old(out)@ + int_text(n as int));
    } else {
        push_decimal(out, n as u64);
    }
}

/// Appends the characters of `t`.
pub fn push_text(out: &mut Vec<char>, t: &str)
    ensures
        final(out)@ == old(out)@ + t@,
{
    let cs = chars_of(t);
    let ghost start = out@;
    let mut i: usize = 0;
    while i < cs.len()
        invariant
            cs@ == t@,
            i <= cs@.len(),
            out@ == start + t@.subrange(0, i as int),
        decreases cs@.len() - i,
    {
        out.push(cs[i]);
        i = i + 1;
        assert(out@ =~= start + t@.subrange(0, i as int));
    }
    assert(t@.subrange(0, i as int) =~= t@);
}

/// Tests two strings for equality, character by character.
pub fn same_text(a: &str, b: &str) -> (r: bool)
    ensures
        r == (a@ == b@),
{
    let x = chars_of(a);
    let y = chars_of(b);
    if x.len() != y.len() {
        return false;
    }
    let mut i: usize = 0;
    while i < x.len()
        invariant
            x@ == a@,
            y@ == b@,
            x@.len() == y@.len(),
            i <= x@.len(),
            forall|k: int| 0 <= k < i ==> x@[k] == y@[k],
        decreases x@.len() - i,
    {
        if x[i] != y[i] {
            return false;
        }
        i = i + 1;
    }
    assert(x@ =~= y@);
    true
}

/// What `char::is_alphanumeric` reports of a character.
pub uninterp spec fn alphanumeric(c: char) -> bool;

/// What `char::is_whitespace` reports of a character.
pub uninterp spec fn white_space(c: char) -> bool;

/// What `char::is_uppercase` reports of a character.
pub uninterp spec fn upper_case(c: char) -> bool;

/// What `char::is_numeric` reports of a character.
pub uninterp spec fn numeric(c: char) -> bool;

/// Relies on `char::is_alphanumeric` (Unicode Alphabetic or Numeric): ASCII
/// letters and digits are.
#[verifier::external_body]
pub(crate) fn is_alphanumeric_char(c: char) -> (r: bool)
    ensures
        r == alphanumeric(c),
        ('a' <= c && c <= 'z') || ('A' <= c && c <= 'Z') || ('0' <= c && c <= '9') ==> r,
{
    c.is_alphanumeric()
}

/// Relies on `char::is_whitespace` (Unicode White_Space): space, tab and
/// line feed are; ASCII letters, digits and `_` are not.
#[verifier::external_body]
pub(crate) fn is_whitespace_char(c: char) -> (r: bool)
    ensures
        r == white_space(c),
        c == ' ' || c == '\t' || c == '\n' ==> r,
        ('a' <= c && c <= 'z') || ('A' <= c && c <= 'Z') || ('0' <= c && c <= '9') || c == '_' ==> !r,
{
    c.is_whitespace()
}

/// Relies on `char::is_uppercase` (Unicode Uppercase): `A` to `Z` are;
/// ASCII lower case letters and digits are not.
#[verifier::external_body]
pub(crate) fn is_uppercase_char(c: char) -> (r: bool)
    ensures
        r == upper_case(c),
        'A' <= c && c <= 'Z' ==> r,
        ('a' <= c && c <= 'z') || ('0' <= c && c <= '9') ==> !r,
{
    c.is_uppercase()
}

/// Relies on `char::is_numeric` (Unicode general categories Nd, Nl and No):
/// `0` to `9` are; ASCII letters are not.
#[verifier::external_body]
pub(crate) fn is_numeric_char(c: char) -> (r: bool)
    ensures
        r == numeric(c),
        '0' <= c && c <= '9' ==> r,
        ('a' <= c && c <= 'z') || ('A' <= c && c <= 'Z') ==> !r,
{
    c.is_numeric()
}

/// What `char::to_uppercase` yields for a character.
pub uninterp spec fn upper_of(c: char) -> Seq<char>;

/// Relies on `char::to_uppercase`: the upper case mapping of one character,
/// which may be several characters long; a lower case ASCII letter maps to
/// its upper case letter, upper case ASCII letters and digits to themselves.
#[verifier::external_body]
pub(crate) fn to_upper_chars(c: char) -> (r: Vec<char>)
    ensures
        r@ == upper_of(c),
        'a' <= c && c <= 'z' ==> r@.len() == 1 && r@[0] as u32 == c as u32 - 32,
        ('A' <= c && c <= 'Z') || ('0' <= c && c <= '9') ==> r@ == seq![c],
{
    c.to_uppercase().collect()
}

/// `pat` occurs in `s` at position `i`, character for character.
pub open spec fn occurs_at(s: Seq<char>, pat: Seq<char>, i: int) -> bool {
    &&& 0 <= i
    &&& i + pat.len() <= s.len()
    &&& s.subrange(i, i + pat.len()) == pat
}

/// `pat` occurs somewhere in `s`.
pub open spec fn contains_text(s: Seq<char>, pat: Seq<char>) -> bool {
    exists|i: int| occurs_at(s, pat, i)
}

/// Tests whether `pat` occurs in `s`, case and all.
pub fn find_text(s: &str, pat: &str) -> (r: bool)
    ensures
        r == contains_text(s@, pat@),
{
    let t = chars_of(s);
    let p = chars_of(pat);
    let n = t.len();
    let m = p.len();
    if m > n {
        return false;
    }
    let mut i: usize = 0;
    while i <= n - m
        invariant
            n == t@.len(),
            m == p@.len(),
            t@ == s@,
            p@ == pat@,
            m <= n,
            i <= n - m + 1,
            forall|k: int| 0 <= k < i ==> !occurs_at(s@, pat@, k),
        decreases n - m + 1 - i,
    {
        let mut j: usize = 0;
        let mut ok = true;
        while j < m && ok
            invariant
                n == t@.len(),
                m == p@.len(),
                t@ == s@,
                p@ == pat@,
                i + m <= n,
                j <= m,
                ok == (forall|q: int| 0 <= q < j ==> #[trigger] s@[i + q] == pat@[q]),
            decreases m - j,
        {
            if t[i + j] != p[j] {
                ok = false;
            }
            j = j + 1;
        }
        if ok {
            assert forall|q: int| 0 <= q < m implies #[trigger] s@.subrange(i as int, i + m)[q] == pat@[q] by {
                assert(s@[i + q] == pat@[q]);
            }
            assert(s@.subrange(i as int, i + m) =~= pat@);
            assert(occurs_at(s@, pat@, i as int));
            return true;
        }
        proof {
            let q = (j - 1) as int;
            if occurs_at(s@, pat@, i as int) {
                assert(s@.subrange(i as int, i + m)[q] == s@[i + q]);
            }
        }
        i = i + 1;
    }
    false
}

/// What `char::to_lowercase` yields for a character.
pub uninterp spec fn lower_char_of(c: char) -> Seq<char>;

/// Relies on `char::to_lowercase`: the lower case mapping of one character,
/// which may be several characters long; an upper case ASCII letter maps to
/// its lower case letter, lower case ASCII letters and digits to themselves.
#[verifier::external_body]
pub(crate) fn to_lower_chars(c: char) -> (r: Vec<char>)
    ensures
        r@ == lower_char_of(c),
        'A' <= c && c <= 'Z' ==> r@.len() == 1 && r@[0] as u32 == c as u32 + 32,
        ('a' <= c && c <= 'z') || ('0' <= c && c <= '9') ==> r@ == seq![c],
{
    c.to_lowercase().collect()
}

} // verus!
