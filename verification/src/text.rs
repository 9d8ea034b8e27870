//! Strings as sequences of characters: equality, decimal numerals and the
//! shape of an integer literal.

use vstd::prelude::*;
use vstd::string::StringSliceAdditionalSpecFns;

verus! {

/// Tells whether two strings hold the same characters.
pub fn str_eq(a: &str, b: &str) -> (same: bool)
    ensures
        same == (a@ == b@),
{
    let x = a.as_bytes();
    let y = b.as_bytes();
    proof {
        vstd::utf8::encode_utf8_decode_utf8(a@);
        vstd::utf8::encode_utf8_decode_utf8(b@);
    }
    if x.len() != y.len() {
        return false;
    }
    let mut i: usize = 0;
    while i < x.len()
        invariant
            i <= x.len(),
            x.len() == y.len(),
            x@ == a.spec_bytes(),
            y@ == b.spec_bytes(),
            vstd::utf8::decode_utf8(a.spec_bytes()) == a@,
            vstd::utf8::decode_utf8(b.spec_bytes()) == b@,
            forall|k: int| 0 <= k < i ==> x[k] == y[k],
        decreases x.len() - i,
    {
        if x[i] != y[i] {
            return false;
        }
        i = i + 1;
    }
    assert(x@ =~= y@);
    true
}

/// The character that writes the digit `d`.
pub open spec fn digit_char(d: int) -> char {
    if d == 0 {
        '0'
    } else if d == 1 {
        '1'
    } else if d == 2 {
        '2'
    } else if d == 3 {
        '3'
    } else if d == 4 {
        '4'
    } else if d == 5 {
        '5'
    } else if d == 6 {
        '6'
    } else if d == 7 {
        '7'
    } else if d == 8 {
        '8'
    } else {
        '9'
    }
}

/// Tells whether `c` is one of the ten decimal digits.
pub open spec fn is_digit(c: char) -> bool {
    exists|d: int| 0 <= d < 10 && c == #[trigger] digit_char(d)
}

/// The decimal numeral of `n`, without sign or leading zeros.
pub open spec fn decimal(n: nat) -> Seq<char>
    decreases n,
{
    if n < 10 {
        seq![digit_char(n as int)]
    } else {
        decimal(n / 10).push(digit_char((n % 10) as int))
    }
}

/// A numeral has at least one character, and exactly one only below ten.
pub proof fn lemma_decimal_len(n: nat)
    ensures
        decimal(n).len() >= 1,
        n >= 10 ==> decimal(n).len() >= 2,
    decreases n,
{
    if n >= 10 {
        lemma_decimal_len(n / 10);
    }
}

/// Distinct digits are written with distinct characters.
pub proof fn lemma_digit_char_injective(a: int, b: int)
    requires
        0 <= a < 10,
        0 <= b < 10,
        digit_char(a) == digit_char(b),
    ensures
        a == b,
{
}

/// Two numbers with the same numeral are the same number.
pub proof fn lemma_decimal_injective(a: nat, b: nat)
    requires
        decimal(a) == decimal(b),
    ensures
        a == b,
    decreases a,
{
    lemma_decimal_len(a);
    lemma_decimal_len(b);
    if a < 10 {
        assert(decimal(a) == seq![digit_char(a as int)]);
        assert(decimal(a).len() == 1);
        assert(b < 10);
        assert(decimal(b) == seq![digit_char(b as int)]);
        assert(decimal(a)[0] == digit_char(a as int));
        assert(decimal(b)[0] == digit_char(b as int));
        lemma_digit_char_injective(a as int, b as int);
    } else {
        assert(decimal(b).len() >= 2);
        assert(b >= 10);
        let x = decimal(a / 10);
        let y = decimal(b / 10);
        assert(decimal(a) == x.push(digit_char((a % 10) as int)));
        assert(decimal(b) == y.push(digit_char((b % 10) as int)));
        assert(decimal(a).last() == digit_char((a % 10) as int));
        assert(decimal(b).last() == digit_char((b % 10) as int));
        lemma_digit_char_injective((a % 10) as int, (b % 10) as int);
        assert(x =~= decimal(a).drop_last());
        assert(y =~= decimal(b).drop_last());
        lemma_decimal_injective(a / 10, b / 10);
    }
}

/// The one-character string that writes the digit `d`.
fn digit_str(d: u64) -> (s: &'static str)
    requires
        d < 10,
    ensures
        s@ == seq![digit_char(d as int)],
{
    proof {
        reveal_strlit("0");
        reveal_strlit("1");
        reveal_strlit("2");
        reveal_strlit("3");
        reveal_strlit("4");
        reveal_strlit("5");
        reveal_strlit("6");
        reveal_strlit("7");
        reveal_strlit("8");
        reveal_strlit("9");
    }
    let s = if d == 0 {
        "0"
    } else if d == 1 {
        "1"
    } else if d == 2 {
        "2"
    } else if d == 3 {
        "3"
    } else if d == 4 {
        "4"
    } else if d == 5 {
        "5"
    } else if d == 6 {
        "6"
    } else if d == 7 {
        "7"
    } else if d == 8 {
        "8"
    } else {
        "9"
    };
    assert(s@ =~= seq![digit_char(d as int)]);
    s
}

/// Writes `n` as a decimal numeral.
pub fn decimal_string(n: u64) -> (s: String)
    ensures
        s@ == decimal(n as nat),
    decreases n,
{
    if n < 10 {
        String::from_str(digit_str(n))
    } else {
        let mut s = decimal_string(n / 10);
        s.append(digit_str(n % 10));
        assert(s@ =~= decimal(n as nat));
        s
    }
}

/// The shape of an integer in JSON: an optional minus sign, then one or more
/// decimal digits.
pub open spec fn is_integer_literal(s: Seq<char>) -> bool {
    &&& s.len() > 0
    &&& s[0] == '-' ==> s.len() > 1
    &&& forall|i: int| 0 <= i < s.len() ==> is_digit(#[trigger] s[i]) || (i == 0 && s[0] == '-')
}

/// Tells whether `c` is a decimal digit.
fn char_is_digit(c: char) -> (r: bool)
    ensures
        r == is_digit(c),
{
    let r = c == '0' || c == '1' || c == '2' || c == '3' || c == '4' || c == '5' || c == '6' || c
        == '7' || c == '8' || c == '9';
    proof {
        if r {
            assert(c == digit_char(0) || c == digit_char(1) || c == digit_char(2) || c
                == digit_char(3) || c == digit_char(4) || c == digit_char(5) || c == digit_char(6)
                || c == digit_char(7) || c == digit_char(8) || c == digit_char(9));
        }
    }
    r
}

/// Tells whether `s` has the shape of a JSON integer.
pub fn is_integer_text(s: &str) -> (r: bool)
    ensures
        r == is_integer_literal(s@),
{
    let n = s.unicode_len();
    if n == 0 {
        return false;
    }
    let start: usize = if s.get_char(0) == '-' {
        1
    } else {
        0
    };
    if start == n {
        return false;
    }
    let mut i: usize = start;
    while i < n
        invariant
            start <= i <= n,
            n == s@.len(),
            n > 0,
            start <= 1,
            start == 1 <==> s@[0] == '-',
            forall|k: int| start <= k < i ==> is_digit(#[trigger] s@[k]),
        decreases n - i,
    {
        if !char_is_digit(s.get_char(i)) {
            assert(!is_digit(s@[i as int]));
            return false;
        }
        i = i + 1;
    }
    true
}

/// How far the reading of a JSON number has come.
#[derive(Clone, Copy, Debug, PartialEq, Eq, Structural)]
pub enum NumberPart {
    /// Nothing has been read.
    Start,
    /// The minus sign has been read.
    Minus,
    /// The integer part is the single digit zero.
    Zero,
    /// The integer part has begun with a digit that is not zero.
    Integer,
    /// The point has been read, and no digit after it.
    Point,
    /// One or more digits of the fraction have been read.
    Fraction,
    /// The `e` or `E` has been read.
    Exponent,
    /// The sign of the exponent has been read.
    ExponentSign,
    /// One or more digits of the exponent have been read.
    ExponentDigits,
    /// The characters read begin no number.
    Wrong,
}

/// How far the reading has come after one more character.
pub open spec fn number_step(part: NumberPart, c: char) -> NumberPart {
    match part {
        NumberPart::Start => if c == '-' {
            NumberPart::Minus
        } else if c == '0' {
            NumberPart::Zero
        } else if is_digit(c) {
            NumberPart::Integer
        } else {
            NumberPart::Wrong
        },
        NumberPart::Minus => if c == '0' {
            NumberPart::Zero
        } else if is_digit(c) {
            NumberPart::Integer
        } else {
            NumberPart::Wrong
        },
        NumberPart::Zero => if c == '.' {
            NumberPart::Point
        } else if c == 'e' || c == 'E' {
            NumberPart::Exponent
        } else {
            NumberPart::Wrong
        },
        NumberPart::Integer => if is_digit(c) {
            NumberPart::Integer
        } else if c == '.' {
            NumberPart::Point
        } else if c == 'e' || c == 'E' {
            NumberPart::Exponent
        } else {
            NumberPart::Wrong
        },
        NumberPart::Point => if is_digit(c) {
            NumberPart::Fraction
        } else {
            NumberPart::Wrong
        },
        NumberPart::Fraction => if is_digit(c) {
            NumberPart::Fraction
        } else if c == 'e' || c == 'E' {
            NumberPart::Exponent
        } else {
            NumberPart::Wrong
        },
        NumberPart::Exponent => if c == '+' || c == '-' {
            NumberPart::ExponentSign
        } else if is_digit(c) {
            NumberPart::ExponentDigits
        } else {
            NumberPart::Wrong
        },
        NumberPart::ExponentSign => if is_digit(c) {
            NumberPart::ExponentDigits
        } else {
            NumberPart::Wrong
        },
        NumberPart::ExponentDigits => if is_digit(c) {
            NumberPart::ExponentDigits
        } else {
            NumberPart::Wrong
        },
        NumberPart::Wrong => NumberPart::Wrong,
    }
}

/// How far the reading of a JSON number has come after the characters of
/// `s`.
pub open spec fn number_part(s: Seq<char>) -> NumberPart
    decreases s.len(),
{
    if s.len() == 0 {
        NumberPart::Start
    } else {
        number_step(number_part(s.drop_last()), s.last())
    }
}

/// Tells whether `s` is a number as JSON writes it: an optional minus
/// sign; zero, or digits that do not begin with zero; an optional point
/// with digits; an optional exponent with an optional sign and digits.
pub open spec fn is_json_number(s: Seq<char>) -> bool {
    number_part(s) == NumberPart::Zero || number_part(s) == NumberPart::Integer || number_part(s)
        == NumberPart::Fraction || number_part(s) == NumberPart::ExponentDigits
}

/// Reads one more character of a JSON number.
fn number_step_of(part: NumberPart, c: char) -> (next: NumberPart)
    ensures
        next == number_step(part, c),
{
    let digit = char_is_digit(c);
    match part {
        NumberPart::Start => if c == '-' {
            NumberPart::Minus
        } else if c == '0' {
            NumberPart::Zero
        } else if digit {
            NumberPart::Integer
        } else {
            NumberPart::Wrong
        },
        NumberPart::Minus => if c == '0' {
            NumberPart::Zero
        } else if digit {
            NumberPart::Integer
        } else {
            NumberPart::Wrong
        },
        NumberPart::Zero => if c == '.' {
            NumberPart::Point
        } else if c == 'e' || c == 'E' {
            NumberPart::Exponent
        } else {
            NumberPart::Wrong
        },
        NumberPart::Integer => if digit {
            NumberPart::Integer
        } else if c == '.' {
            NumberPart::Point
        } else if c == 'e' || c == 'E' {
            NumberPart::Exponent
        } else {
            NumberPart::Wrong
        },
        NumberPart::Point => if digit {
            NumberPart::Fraction
        } else {
            NumberPart::Wrong
        },
        NumberPart::Fraction => if digit {
            NumberPart::Fraction
        } else if c == 'e' || c == 'E' {
            NumberPart::Exponent
        } else {
            NumberPart::Wrong
        },
        NumberPart::Exponent => if c == '+' || c == '-' {
            NumberPart::ExponentSign
        } else if digit {
            NumberPart::ExponentDigits
        } else {
            NumberPart::Wrong
        },
        NumberPart::ExponentSign => if digit {
            NumberPart::ExponentDigits
        } else {
            NumberPart::Wrong
        },
        NumberPart::ExponentDigits => if digit {
            NumberPart::ExponentDigits
        } else {
            NumberPart::Wrong
        },
        NumberPart::Wrong => NumberPart::Wrong,
    }
}

/// Tells whether `s` is a number as JSON writes it.
pub fn is_json_number_text(s: &str) -> (r: bool)
    ensures
        r == is_json_number(s@),
{
    let n = s.unicode_len();
    let mut part = NumberPart::Start;
    let mut i: usize = 0;
    while i < n
        invariant
            i <= n,
            n == s@.len(),
            part == number_part(s@.subrange(0, i as int)),
        decreases n - i,
    {
        let ghost read = s@.subrange(0, i + 1);
        assert(read.drop_last() =~= s@.subrange(0, i as int));
        assert(read.last() == s@[i as int]);
        part = number_step_of(part, s.get_char(i));
        i = i + 1;
    }
    assert(s@.subrange(0, n as int) =~= s@);
    match part {
        NumberPart::Zero => true,
        NumberPart::Integer => true,
        NumberPart::Fraction => true,
        NumberPart::ExponentDigits => true,
        _ => false,
    }
}

} // verus!
