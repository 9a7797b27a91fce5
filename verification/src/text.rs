//! Building text: characters, decimal numerals and pieces of strings.

use vstd::prelude::*;
use vstd::string::*;

verus! {

/// `String::push`: appends the character `c` to the end of the string, and
/// changes nothing else of it.
pub assume_specification[ String::push ](s: &mut String, c: char)
    ensures
        final(s)@ == old(s)@.push(c),
;

/// The characters of a run of ASCII bytes.
pub open spec fn ascii_text(bytes: Seq<u8>) -> Seq<char> {
    Seq::new(bytes.len(), |i: int| bytes[i] as char)
}

/// The bytes `start..end` of `input` as a string, one character for each byte.
pub fn ascii_string(input: &[u8], start: usize, end: usize) -> (text: String)
    requires
        start <= end <= input.len(),
        forall|i: int| start <= i < end ==> input[i] < 128,
    ensures
        text@ == ascii_text(input@.subrange(start as int, end as int)),
{
    let mut text = String::new();
    let mut i: usize = start;
    while i < end
        invariant
            start <= i <= end <= input.len(),
            text@ == ascii_text(input@.subrange(start as int, i as int)),
        decreases end - i,
    {
        text.push(input[i] as char);
        i += 1;
    }
    text
}

/// The characters of `s`.
pub fn to_chars(s: &str) -> (chars: Vec<char>)
    ensures
        chars@ == s@,
{
    let mut chars: Vec<char> = Vec::new();
    for c in it: s.chars()
        invariant
            it.seq() == s@,
            chars@ == it.seq().take(it.index() as int),
    {
        chars.push(c);
    }
    chars
}

/// The character of the decimal digit `d`.
pub open spec fn digit_char(d: nat) -> char
    recommends
        d < 10,
{
    ((d + 48) as u8) as char
}

/// The decimal numeral of `n`, without leading zeros; `"0"` for zero.
pub open spec fn decimal(n: nat) -> Seq<char>
    decreases n,
{
    if n < 10 {
        seq![digit_char(n)]
    } else {
        decimal(n / 10).push(digit_char(n % 10))
    }
}

/// A numeral has a digit at least.
pub proof fn lemma_decimal_is_not_empty(n: nat)
    ensures
        decimal(n).len() >= 1,
    decreases n,
{
    if n >= 10 {
        lemma_decimal_is_not_empty(n / 10);
    }
}

/// Different digits have different characters.
proof fn lemma_digit_char_is_injective(a: nat, b: nat)
    requires
        a < 10,
        b < 10,
        digit_char(a) == digit_char(b),
    ensures
        a == b,
{
    let x: u8 = (a + 48) as u8;
    let y: u8 = (b + 48) as u8;
    assert(x == a + 48 && y == b + 48);
    assert((x as char) as u8 == x);
    assert((y as char) as u8 == y);
}

/// Different numbers have different numerals.
pub proof fn lemma_decimal_is_injective(n: nat, m: nat)
    requires
        decimal(n) == decimal(m),
    ensures
        n == m,
    decreases n,
{
    if n < 10 && m < 10 {
        assert(decimal(n)[0] == digit_char(n));
        assert(decimal(m)[0] == digit_char(m));
        lemma_digit_char_is_injective(n, m);
    } else if n < 10 {
        lemma_decimal_is_not_empty(m / 10);
        assert(decimal(n).len() == 1);
        assert(decimal(m).len() == decimal(m / 10).len() + 1);
    } else if m < 10 {
        lemma_decimal_is_not_empty(n / 10);
        assert(decimal(m).len() == 1);
        assert(decimal(n).len() == decimal(n / 10).len() + 1);
    } else {
        assert(decimal(n).drop_last() =~= decimal(n / 10));
        assert(decimal(m).drop_last() =~= decimal(m / 10));
        assert(decimal(n).last() == digit_char(n % 10));
        assert(decimal(m).last() == digit_char(m % 10));
        lemma_decimal_is_injective(n / 10, m / 10);
        lemma_digit_char_is_injective(n % 10, m % 10);
        assert(n == 10 * (n / 10) + n % 10);
        assert(m == 10 * (m / 10) + m % 10);
    }
}

/// The numeral of `n`, as a string.
pub fn decimal_string(n: u64) -> (text: String)
    ensures
        text@ == decimal(n as nat),
    decreases n,
{
    let digit: u8 = (n % 10) as u8 + 48;
    if n < 10 {
        let mut text = String::new();
        text.push(digit as char);
        text
    } else {
        let mut text = decimal_string(n / 10);
        text.push(digit as char);
        text
    }
}

/// Appends the numeral of `n` to `out`.
pub fn push_decimal(out: &mut String, n: usize)
    ensures
        final(out)@ == old(out)@ + decimal(n as nat),
{
    let text = decimal_string(n as u64);
    out.append(text.as_str());
}

} // verus!
