//! Small text helpers: comparing, testing and building strings.
use vstd::prelude::*;



verus! {

/// Whether two strings hold the same characters.
pub fn str_eq(a: &str, b: &str) -> (same: bool)
    ensures
        same == (a@ == b@),
{
    let n = a.unicode_len();
    if n != b.unicode_len() {
        return false;
    }
    let mut i: usize = 0;
    while i < n
        invariant
            i <= n,
            n == a@.len(),
            n == b@.len(),
            forall|k: int| 0 <= k < i ==> a@[k] == b@[k],
        decreases n - i,
    {
        if a.get_char(i) != b.get_char(i) {
            return false;
        }
        i = i + 1;
    }
    proof {
        assert(a@ =~= b@);
    }
    true
}

/// The characters Unicode counts as white space.
pub open spec fn is_white_space(c: char) -> bool {
    ||| ('\u{9}' <= c && c <= '\u{d}')
    ||| c == ' '
    ||| c == '\u{85}'
    ||| c == '\u{a0}'
    ||| c == '\u{1680}'
    ||| ('\u{2000}' <= c && c <= '\u{200a}')
    ||| c == '\u{2028}'
    ||| c == '\u{2029}'
    ||| c == '\u{202f}'
    ||| c == '\u{205f}'
    ||| c == '\u{3000}'
}

pub fn char_is_white_space(c: char) -> (ws: bool)
    ensures
        ws == is_white_space(c),
{
    ('\u{9}' <= c && c <= '\u{d}') || c == ' ' || c == '\u{85}' || c == '\u{a0}' || c == '\u{1680}' || ('\u{2000}' <= c
        && c <= '\u{200a}') || c == '\u{2028}' || c == '\u{2029}' || c == '\u{202f}' || c == '\u{205f}' || c == '\u{3000}'
}

/// A string with nothing but white space (what trims to nothing).
pub open spec fn is_blank_text(s: Seq<char>) -> bool {
    forall|i: int| 0 <= i < s.len() ==> is_white_space(#[trigger] s[i])
}

pub fn is_blank(s: &str) -> (blank: bool)
    ensures
        blank == is_blank_text(s@),
{
    let n = s.unicode_len();
    let mut i: usize = 0;
    while i < n
        invariant
            i <= n,
            n == s@.len(),
            forall|k: int| 0 <= k < i ==> is_white_space(#[trigger] s@[k]),
        decreases n - i,
    {
        if !char_is_white_space(s.get_char(i)) {
            return false;
        }
        i = i + 1;
    }
    true
}

/// The characters of a string.
pub fn chars_of(s: &str) -> (chars: Vec<char>)
    ensures
        chars@ == s@,
{
    let n = s.unicode_len();
    let mut chars: Vec<char> = Vec::new();
    let mut i: usize = 0;
    while i < n
        invariant
            i <= n,
            n == s@.len(),
            chars@ == s@.subrange(0, i as int),
        decreases n - i,
    {
        chars.push(s.get_char(i));
        i = i + 1;
        proof {
            assert(chars@ =~= s@.subrange(0, i as int));
        }
    }
    proof {
        assert(s@.subrange(0, n as int) =~= s@);
    }
    chars
}

/// Collects characters into a string (std's `collect`).
#[verifier::external_body]
pub fn string_from_chars(chars: &[char]) -> (s: String)
    ensures
        s@ == chars@,
{
    chars.iter().collect()
}

/// A copy of a string slice (std's `to_owned`).
pub fn owned(s: &str) -> (copy: String)
    ensures
        copy@ == s@,
{
    s.to_owned()
}

/// The decimal digits of `n`.
pub open spec fn decimal_text(n: nat) -> Seq<char>
    decreases n,
{
    let digit = (('0' as u32) + (n % 10) as u32) as char;
    if n < 10 { seq![digit] } else { decimal_text(n / 10).push(digit) }
}

pub fn decimal_chars(n: usize) -> (digits: Vec<char>)
    ensures
        digits@ == decimal_text(n as nat),
    decreases n,
{
    let digit = digit_char(n % 10);
    if n < 10 {
        let mut digits: Vec<char> = Vec::new();
        digits.push(digit);
        proof {
            assert(digits@ =~= decimal_text(n as nat));
        }
        digits
    } else {
        let mut digits = decimal_chars(n / 10);
        digits.push(digit);
        digits
    }
}

fn digit_char(d: usize) -> (c: char)
    requires
        d < 10,
    ensures
        c == (('0' as u32) + d as u32) as char,
{
    match d {
        0 => '0',
        1 => '1',
        2 => '2',
        3 => '3',
        4 => '4',
        5 => '5',
        6 => '6',
        7 => '7',
        8 => '8',
        _ => '9',
    }
}

/// `t` is `s` without its leading and trailing white space.
pub open spec fn is_trim_of(t: Seq<char>, s: Seq<char>) -> bool {
    exists|a: int, b: int| {
        &&& 0 <= a <= b <= s.len()
        &&& t == s.subrange(a, b)
        &&& forall|i: int| 0 <= i < a ==> is_white_space(#[trigger] s[i])
        &&& forall|i: int| b <= i < s.len() ==> is_white_space(#[trigger] s[i])
        &&& a < b ==> !is_white_space(s[a]) && !is_white_space(s[b - 1])
    }
}

/// The characters of `s` without its leading and trailing white space (std's `trim`).
pub fn trimmed_chars(s: &str) -> (t: Vec<char>)
    ensures
        is_trim_of(t@, s@),
        t@.len() == 0 <==> is_blank_text(s@),
{
    let chars = chars_of(s);
    let n = chars.len();
    let mut a: usize = 0;
    while a < n && char_is_white_space(chars[a])
        invariant
            a <= n,
            n == s@.len(),
            chars@ == s@,
            forall|i: int| 0 <= i < a ==> is_white_space(#[trigger] s@[i]),
        decreases n - a,
    {
        a = a + 1;
    }
    let mut b: usize = n;
    while b > a && char_is_white_space(chars[b - 1])
        invariant
            a <= b <= n,
            n == s@.len(),
            chars@ == s@,
            forall|i: int| b <= i < n ==> is_white_space(#[trigger] s@[i]),
        decreases b - a,
    {
        b = b - 1;
    }
    let mut t: Vec<char> = Vec::new();
    let mut k: usize = a;
    while k < b
        invariant
            a <= k <= b <= n,
            n == s@.len(),
            chars@ == s@,
            t@ == s@.subrange(a as int, k as int),
        decreases b - k,
    {
        t.push(chars[k]);
        k = k + 1;
        proof {
            assert(t@ =~= s@.subrange(a as int, k as int));
        }
    }
    proof {
        assert(is_trim_of(t@, s@)) by {
            assert(0 <= a <= b <= s@.len() && t@ == s@.subrange(a as int, b as int));
        }
        if t@.len() == 0 {
            assert forall|i: int| 0 <= i < s@.len() implies is_white_space(#[trigger] s@[i]) by {
                if i >= a {
                    assert(i >= b);
                }
            }
        }
        if is_blank_text(s@) && t@.len() > 0 {
            assert(is_white_space(s@[a as int]));
        }
    }
    t
}

/// Appends the characters of `more` to `chars`.
pub fn push_chars(chars: &mut Vec<char>, more: &[char])
    ensures
        final(chars)@ == old(chars)@ + more@,
{
    let mut k: usize = 0;
    while k < more.len()
        invariant
            k <= more@.len(),
            chars@ == old(chars)@ + more@.subrange(0, k as int),
        decreases more.len() - k,
    {
        chars.push(more[k]);
        k = k + 1;
        proof {
            assert(chars@ =~= old(chars)@ + more@.subrange(0, k as int));
        }
    }
    proof {
        assert(more@.subrange(0, more@.len() as int) =~= more@);
    }
}

/// The decimal text of a signed number: a `-` before the digits of a negative one.
pub open spec fn signed_decimal_text(n: int) -> Seq<char> {
    if n < 0 { seq!['-'] + decimal_text((-n) as nat) } else { decimal_text(n as nat) }
}

/// Appends the characters of `s` to `chars`.
pub fn push_str_chars(chars: &mut Vec<char>, s: &str)
    ensures
        final(chars)@ == old(chars)@ + s@,
{
    let more = chars_of(s);
    push_chars(chars, more.as_slice());
}

/// Appends the decimal digits of `n` to `chars`.
pub fn push_decimal(chars: &mut Vec<char>, n: u32)
    ensures
        final(chars)@ == old(chars)@ + decimal_text(n as nat),
{
    let digits = decimal_chars(n as usize);
    push_chars(chars, digits.as_slice());
}

/// Appends the decimal text of a signed `n` to `chars`.
pub fn push_signed_decimal(chars: &mut Vec<char>, n: i32)
    ensures
        final(chars)@ == old(chars)@ + signed_decimal_text(n as int),
{
    if n < 0 {
        let magnitude: i64 = 0i64 - (n as i64);
        let digits = decimal_chars(magnitude as usize);
        let ghost before = chars@;
        chars.push('-');
        push_chars(chars, digits.as_slice());
        proof {
            assert(chars@ =~= before + signed_decimal_text(n as int));
        }
    } else {
        let digits = decimal_chars(n as usize);
        push_chars(chars, digits.as_slice());
    }
}

} // verus!
