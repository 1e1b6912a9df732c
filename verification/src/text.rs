//! Decimal rendering of integers and English ordinals.
use vstd::prelude::*;

verus! {

/// The character of a decimal digit.
pub open spec fn digit_char(d: nat) -> char {
    if d == 0 { '0' }
    else if d == 1 { '1' }
    else if d == 2 { '2' }
    else if d == 3 { '3' }
    else if d == 4 { '4' }
    else if d == 5 { '5' }
    else if d == 6 { '6' }
    else if d == 7 { '7' }
    else if d == 8 { '8' }
    else { '9' }
}

/// The decimal notation of a natural number, without leading zeros.
pub open spec fn decimal(n: nat) -> Seq<char>
    decreases n,
{
    if n < 10 {
        seq![digit_char(n)]
    } else {
        decimal(n / 10).push(digit_char(n % 10))
    }
}

/// The decimal notation of an integer, with a leading `-` when negative.
pub open spec fn signed_decimal(v: int) -> Seq<char> {
    if v < 0 {
        seq!['-'] + decimal((-v) as nat)
    } else {
        decimal(v as nat)
    }
}

/// `n` in decimal, padded on the left with zeros to at least `width` digits.
pub open spec fn zero_padded(n: nat, width: nat) -> Seq<char>
    decreases width,
{
    if width <= decimal(n).len() {
        decimal(n)
    } else {
        seq!['0'] + zero_padded(n, (width - 1) as nat)
    }
}

/// The English ordinal suffix of a number: "st", "nd", "rd" or "th".
pub open spec fn ordinal_suffix_text(n: nat) -> Seq<char> {
    if 11 <= n % 100 <= 13 {
        seq!['t', 'h']
    } else if n % 10 == 1 {
        seq!['s', 't']
    } else if n % 10 == 2 {
        seq!['n', 'd']
    } else if n % 10 == 3 {
        seq!['r', 'd']
    } else {
        seq!['t', 'h']
    }
}

/// The number that a text of decimal digits denotes.
pub open spec fn decimal_value(s: Seq<char>) -> int
    decreases s.len(),
{
    if s.len() == 0 {
        0
    } else {
        decimal_value(s.drop_last()) * 10 + (s.last() as int - '0' as int)
    }
}

/// The decimal notation of `n` is made of digits, starts with a digit other
/// than 0 unless `n` is 0, and denotes `n`.
pub proof fn lemma_decimal(n: nat)
    ensures
        decimal(n).len() > 0,
        forall|i: int| 0 <= i < decimal(n).len() ==> '0' <= #[trigger] decimal(n)[i] <= '9',
        decimal(n)[0] == '0' ==> n == 0,
        decimal_value(decimal(n)) == n,
    decreases n,
{
    let d = n % 10;
    assert(digit_char(d) as int - '0' as int == d);
    if n >= 10 {
        lemma_decimal(n / 10);
        let s = decimal(n);
        assert(s.drop_last() == decimal(n / 10));
        assert(s[0] == decimal(n / 10)[0]);
        assert(s.last() == digit_char(d));
        assert(decimal_value(s) == decimal_value(decimal(n / 10)) * 10 + d);
        assert((n / 10) * 10 + d == n);
    } else {
        assert(decimal(n).drop_last() == Seq::<char>::empty());
        assert(decimal(n).last() == digit_char(d));
        assert(decimal_value(Seq::<char>::empty()) == 0);
    }
}

/// The ordinal suffix depends on the last two digits: 11, 12 and 13 take
/// "th"; otherwise a last digit 1 takes "st", 2 "nd", 3 "rd", and any other
/// "th".
pub proof fn lemma_ordinal_suffix(n: nat)
    ensures
        (n % 100 == 11 || n % 100 == 12 || n % 100 == 13) ==> ordinal_suffix_text(n) == "th"@,
        (n % 10 == 1 && n % 100 != 11) ==> ordinal_suffix_text(n) == "st"@,
        (n % 10 == 2 && n % 100 != 12) ==> ordinal_suffix_text(n) == "nd"@,
        (n % 10 == 3 && n % 100 != 13) ==> ordinal_suffix_text(n) == "rd"@,
        (n % 10 == 0 || n % 10 >= 4) ==> ordinal_suffix_text(n) == "th"@,
{
    reveal_strlit("th");
    reveal_strlit("st");
    reveal_strlit("nd");
    reveal_strlit("rd");
    assert(n % 100 % 10 == n % 10) by {
        vstd::arithmetic::div_mod::lemma_mod_mod(n as int, 10, 10);
    }
}

/// Whether a text equals a literal.
pub(crate) fn text_is(s: &String, lit: &str) -> (r: bool)
    ensures
        r == (s@ == lit@),
{
    *s == String::from_str(lit)
}

/// The one-character text of a decimal digit.
fn digit_str(d: u32) -> (s: &'static str)
    requires
        d < 10,
    ensures
        s@ == seq![digit_char(d as nat)],
{
    proof {
        reveal_strlit("0");
        reveal_strlit("1");
        reveal_strlit("2");
        reveal_strlit("3");
        reveal_strlit("4");
        reveal_strlit("5");
        reveal_strlit("6");
        reveal_strlit("7");
        reveal_strlit("8");
        reveal_strlit("9");
    }
    if d == 0 { "0" }
    else if d == 1 { "1" }
    else if d == 2 { "2" }
    else if d == 3 { "3" }
    else if d == 4 { "4" }
    else if d == 5 { "5" }
    else if d == 6 { "6" }
    else if d == 7 { "7" }
    else if d == 8 { "8" }
    else { "9" }
}

/// Renders an unsigned number in decimal.
pub fn u32_text(n: u32) -> (s: String)
    ensures
        s@ == decimal(n as nat),
    decreases n,
{
    if n < 10 {
        String::from_str(digit_str(n))
    } else {
        let mut s = u32_text(n / 10);
        s.append(digit_str(n % 10));
        s
    }
}

/// Renders a signed number in decimal.
pub fn i32_text(v: i32) -> (s: String)
    ensures
        s@ == signed_decimal(v as int),
{
    if v < 0 {
        let magnitude: i64 = -(v as i64);
        let digits = u32_text(magnitude as u32);
        let s = String::from_str("-").concat(digits.as_str());
        proof {
            reveal_strlit("-");
        }
        s
    } else {
        u32_text(v as u32)
    }
}

/// A number followed by its English ordinal suffix: 1st, 2nd, 3rd, 4th,
/// 11th, 12th, 13th, 21st, 111th, ...
pub fn ordinal_suffix(n: u32) -> (s: String)
    ensures
        s@ == decimal(n as nat) + ordinal_suffix_text(n as nat),
{
    let suffix: &str = if 11 <= n % 100 && n % 100 <= 13 {
        "th"
    } else if n % 10 == 1 {
        "st"
    } else if n % 10 == 2 {
        "nd"
    } else if n % 10 == 3 {
        "rd"
    } else {
        "th"
    };
    proof {
        reveal_strlit("th");
        reveal_strlit("st");
        reveal_strlit("nd");
        reveal_strlit("rd");
    }
    u32_text(n).concat(suffix)
}

} // verus!
