//! Unsigned numbers as decimal text, both ways.

use vstd::prelude::*;
use vstd::string::*;

verus! {

/// Whether `c` is one of the ten digits `0` to `9`.
pub open spec fn is_digit(c: char) -> bool {
    '0' <= c <= '9'
}

/// The number that the digit `c` stands for.
pub open spec fn digit_value(c: char) -> nat {
    (c as u32 - '0' as u32) as nat
}

/// The digit that stands for `d`, below ten.
pub open spec fn digit_char(d: nat) -> char {
    if d == 0 {
        '0'
    } else if d == 1 {
        '1'
    } else if d == 2 {
        '2'
    } else if d == 3 {
        '3'
    } else if d == 4 {
        '4'
    } else if d == 5 {
        '5'
    } else if d == 6 {
        '6'
    } else if d == 7 {
        '7'
    } else if d == 8 {
        '8'
    } else {
        '9'
    }
}

/// Whether `s` holds digits only.
pub open spec fn is_digits(s: Seq<char>) -> bool {
    forall|i: int| 0 <= i < s.len() ==> is_digit(#[trigger] s[i])
}

/// The number that a text of digits denotes in base ten; the empty text
/// denotes zero.
pub open spec fn decimal_value(s: Seq<char>) -> nat
    decreases s.len(),
{
    if s.len() == 0 {
        0
    } else {
        decimal_value(s.drop_last()) * 10 + digit_value(s.last())
    }
}

/// The shortest decimal text of `n`: no sign, and no leading zero but for
/// zero itself.
pub open spec fn decimal_text(n: nat) -> Seq<char>
    decreases n,
{
    if n < 10 {
        seq![digit_char(n)]
    } else {
        decimal_text(n / 10).push(digit_char(n % 10))
    }
}

/// The number that `s` denotes where it is an optional `+` followed by one
/// or more digits, and nothing where it is anything else.
pub open spec fn unsigned_of(s: Seq<char>) -> Option<nat> {
    let digits = if s.len() > 0 && s[0] == '+' {
        s.skip(1)
    } else {
        s
    };
    if digits.len() > 0 && is_digits(digits) {
        Some(decimal_value(digits))
    } else {
        None
    }
}

/// The 32-bit number that `s` denotes, where it denotes a number and the
/// number fits.
pub open spec fn u32_of(s: Seq<char>) -> Option<u32> {
    match unsigned_of(s) {
        Some(n) => if n <= u32::MAX {
            Some(n as u32)
        } else {
            None
        },
        None => None,
    }
}

/// A longer text of digits denotes no smaller number than its beginning.
pub proof fn lemma_decimal_value_grows(s: Seq<char>, k: int)
    requires
        0 <= k <= s.len(),
    ensures
        decimal_value(s.take(k)) <= decimal_value(s),
    decreases s.len() - k,
{
    if k == s.len() {
        assert(s.take(k) =~= s);
    } else {
        lemma_decimal_value_grows(s, k + 1);
        assert(s.take(k + 1).drop_last() =~= s.take(k));
    }
}

/// The decimal text of a number holds digits only, at least one, and
/// denotes the number.
pub proof fn lemma_decimal_text_value(n: nat)
    ensures
        decimal_text(n).len() >= 1,
        is_digits(decimal_text(n)),
        decimal_value(decimal_text(n)) == n,
    decreases n,
{
    if n < 10 {
        let t = decimal_text(n);
        assert(decimal_value(t.drop_last()) == 0);
    } else {
        lemma_decimal_text_value(n / 10);
        let front = decimal_text(n / 10);
        let t = decimal_text(n);
        assert(t.drop_last() =~= front);
    }
}

/// Reading the decimal text of a number gives the number back.
pub proof fn lemma_decimal_round_trip(n: nat)
    ensures
        unsigned_of(decimal_text(n)) == Some(n),
        n <= u32::MAX ==> u32_of(decimal_text(n)) == Some(n as u32),
{
    lemma_decimal_text_value(n);
}

/// No character of a number's decimal text is `c`, unless `c` is a digit.
pub proof fn lemma_decimal_text_lacks(n: nat, c: char)
    requires
        !is_digit(c),
    ensures
        !decimal_text(n).contains(c),
{
    lemma_decimal_text_value(n);
}

/// The text of one digit.
fn digit_str(d: u8) -> (text: &'static str)
    requires
        d < 10,
    ensures
        text@ == seq![digit_char(d as nat)],
{
    proof {
        reveal_strlit("0");
        reveal_strlit("1");
        reveal_strlit("2");
        reveal_strlit("3");
        reveal_strlit("4");
        reveal_strlit("5");
        reveal_strlit("6");
        reveal_strlit("7");
        reveal_strlit("8");
        reveal_strlit("9");
    }
    let text = if d == 0 {
        "0"
    } else if d == 1 {
        "1"
    } else if d == 2 {
        "2"
    } else if d == 3 {
        "3"
    } else if d == 4 {
        "4"
    } else if d == 5 {
        "5"
    } else if d == 6 {
        "6"
    } else if d == 7 {
        "7"
    } else if d == 8 {
        "8"
    } else {
        "9"
    };
    text
}

/// The digits of `low_first`, read from its end to its beginning.
spec fn digits_read_back(low_first: Seq<u8>) -> Seq<char> {
    Seq::new(low_first.len(), |k: int| digit_char(low_first[low_first.len() - 1 - k] as nat))
}

/// The text in front of the digits that are split off already: that of
/// what is left of the number, or nothing once nothing is left.
spec fn leading_text(rest: nat) -> Seq<char> {
    if rest == 0 {
        Seq::<char>::empty()
    } else {
        decimal_text(rest)
    }
}

/// Writes `n` in decimal.
pub fn decimal_string(n: u64) -> (text: String)
    ensures
        text@ == decimal_text(n as nat),
{
    let mut low_first: Vec<u8> = Vec::new();
    let first: u8 = (n % 10) as u8;
    low_first.push(first);
    let mut rest: u64 = n / 10;
    while rest > 0
        invariant
            low_first@.len() >= 1,
            forall|k: int| 0 <= k < low_first@.len() ==> low_first@[k] < 10,
            decimal_text(n as nat) == leading_text(rest as nat) + digits_read_back(low_first@),
        decreases rest,
    {
        let digit: u8 = (rest % 10) as u8;
        low_first.push(digit);
        rest = rest / 10;
    }
    let mut text = String::new();
    let mut left: usize = low_first.len();
    while left > 0
        invariant
            left <= low_first@.len(),
            forall|k: int| 0 <= k < low_first@.len() ==> low_first@[k] < 10,
            text@ == digits_read_back(low_first@).take(low_first@.len() - left),
        decreases left,
    {
        left = left - 1;
        text.append(digit_str(low_first[left]));
    }
    text
}

/// Reads a 32-bit number: an optional `+`, then one or more digits whose
/// value fits. Anything else is no number.
pub fn parse_u32(s: &str) -> (number: Option<u32>)
    ensures
        number == u32_of(s@),
{
    let ghost signed = s@.len() > 0 && s@[0] == '+';
    let ghost digits = if signed {
        s@.skip(1)
    } else {
        s@
    };
    let ghost lead: int = if signed {
        1
    } else {
        0
    };
    let mut value: u64 = 0;
    let ghost mut seen: int = 0;
    let mut any: bool = false;
    let mut at_start: bool = true;
    for c in it: s.chars()
        invariant
            it.seq() == s@,
            signed == (s@.len() > 0 && s@[0] == '+'),
            digits == if signed {
                s@.skip(1)
            } else {
                s@
            },
            lead == if signed {
                1int
            } else {
                0int
            },
            at_start == (it.index() == 0),
            !at_start ==> seen == it.index() - lead,
            at_start ==> seen == 0,
            0 <= seen <= digits.len(),
            any == (seen > 0),
            is_digits(digits.take(seen)),
            value == decimal_value(digits.take(seen)),
            value <= u32::MAX,
    {
        if at_start && c == '+' {
            at_start = false;
        } else {
            at_start = false;
            if !(c >= '0' && c <= '9') {
                return None;
            }
            let digit: u64 = (c as u32 - '0' as u32) as u64;
            let ghost longer = digits.take(seen + 1);
            assert(longer.drop_last() =~= digits.take(seen));
            value = value * 10 + digit;
            any = true;
            proof {
                seen = seen + 1;
            }
            if value > 0xffff_ffff {
                proof {
                    if is_digits(digits) {
                        lemma_decimal_value_grows(digits, seen);
                    }
                }
                return None;
            }
        }
    }
    assert(digits.take(seen) =~= digits);
    if !any {
        None
    } else {
        Some(value as u32)
    }
}

} // verus!
