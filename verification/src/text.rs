//! Text of numbers: decimal rendering, and reading an unsigned number.

use vstd::prelude::*;

verus! {

/// The character of a decimal digit.
pub open spec fn digit_char(d: nat) -> char {
    if d == 0 {
        '0'
    } else if d == 1 {
        '1'
    } else if d == 2 {
        '2'
    } else if d == 3 {
        '3'
    } else if d == 4 {
        '4'
    } else if d == 5 {
        '5'
    } else if d == 6 {
        '6'
    } else if d == 7 {
        '7'
    } else if d == 8 {
        '8'
    } else {
        '9'
    }
}

/// A number in decimal, most significant digit first, without leading zeros.
pub open spec fn decimal(n: nat) -> Seq<char>
    decreases n,
{
    if n < 10 {
        seq![digit_char(n)]
    } else {
        decimal(n / 10).push(digit_char(n % 10))
    }
}

/// Whether a character is one of `0` to `9`.
pub open spec fn is_digit(c: char) -> bool {
    '0' <= c <= '9'
}

/// The value of a digit character.
pub open spec fn digit_value(c: char) -> nat {
    (c as int - '0' as int) as nat
}

/// The number that a sequence of digit characters denotes in decimal.
pub open spec fn decimal_value(s: Seq<char>) -> nat
    decreases s.len(),
{
    if s.len() == 0 {
        0
    } else {
        decimal_value(s.drop_last()) * 10 + digit_value(s.last())
    }
}

/// The text after an optional leading `+`.
pub open spec fn unsigned_digits(s: Seq<char>) -> Seq<char> {
    if s.len() > 0 && s[0] == '+' {
        s.drop_first()
    } else {
        s
    }
}

/// The `usize` that a text denotes: an optional `+`, then one digit or more and nothing else, with
/// a value that a `usize` can hold.
pub open spec fn usize_of_text(s: Seq<char>) -> Option<usize> {
    let digits = unsigned_digits(s);
    if digits.len() > 0 && (forall|i: int| 0 <= i < digits.len() ==> is_digit(#[trigger] digits[i]))
        && decimal_value(digits) <= usize::MAX {
        Some(decimal_value(digits) as usize)
    } else {
        None
    }
}

fn digit_text(d: u64) -> (text: &'static str)
    requires
        d < 10,
    ensures
        text@ == seq![digit_char(d as nat)],
{
    proof {
        reveal_strlit("0");
        reveal_strlit("1");
        reveal_strlit("2");
        reveal_strlit("3");
        reveal_strlit("4");
        reveal_strlit("5");
        reveal_strlit("6");
        reveal_strlit("7");
        reveal_strlit("8");
        reveal_strlit("9");
    }
    if d == 0 {
        "0"
    } else if d == 1 {
        "1"
    } else if d == 2 {
        "2"
    } else if d == 3 {
        "3"
    } else if d == 4 {
        "4"
    } else if d == 5 {
        "5"
    } else if d == 6 {
        "6"
    } else if d == 7 {
        "7"
    } else if d == 8 {
        "8"
    } else {
        "9"
    }
}

/// Writes a number in decimal.
pub fn decimal_text(n: u64) -> (text: String)
    ensures
        text@ == decimal(n as nat),
    decreases n,
{
    if n < 10 {
        digit_text(n).to_owned()
    } else {
        let mut text = decimal_text(n / 10);
        text.append(digit_text(n % 10));
        assert(text@ =~= decimal((n / 10) as nat).push(digit_char((n % 10) as nat)));
        text
    }
}

/// Whether two texts are the same.
pub fn same_text(left: &str, right: &str) -> (same: bool)
    ensures
        same == (left@ == right@),
{
    left.to_owned() == right.to_owned()
}

proof fn lemma_prefix_value(s: Seq<char>, n: int)
    requires
        0 <= n <= s.len(),
    ensures
        decimal_value(s.take(n)) <= decimal_value(s),
    decreases s.len(),
{
    if n == s.len() {
        assert(s.take(n) =~= s);
    } else {
        lemma_prefix_value(s.drop_last(), n);
        assert(s.drop_last().take(n) =~= s.take(n));
    }
}

/// Reads a `usize` written in decimal, as `str::parse` does.
pub fn parse_usize(text: &str) -> (value: Option<usize>)
    ensures
        value == usize_of_text(text@),
{
    let len: usize = text.unicode_len();
    let start: usize = if len > 0 && text.get_char(0) == '+' {
        1
    } else {
        0
    };
    let ghost digits = unsigned_digits(text@);
    assert(digits =~= text@.skip(start as int));
    if start == len {
        return None;
    }
    let mut value: usize = 0;
    let mut i: usize = start;
    assert(digits.take(0) =~= Seq::<char>::empty());
    while i < len
        invariant
            start <= i <= len,
            len == text@.len(),
            start <= 1,
            digits == unsigned_digits(text@),
            digits =~= text@.skip(start as int),
            value as nat == decimal_value(digits.take(i - start)),
            forall|j: int| 0 <= j < i - start ==> is_digit(#[trigger] digits[j]),
        decreases len - i,
    {
        let c = text.get_char(i);
        let ghost k = i - start;
        assert(digits[k] == c);
        if c < '0' || c > '9' {
            assert(!is_digit(digits[k]));
            return None;
        }
        let digit: usize = c as usize - '0' as usize;
        assert(digits.take(k + 1).drop_last() =~= digits.take(k));
        assert(digits.take(k + 1).last() == c);
        assert(decimal_value(digits.take(k + 1)) == value * 10 + digit);
        proof {
            lemma_prefix_value(digits, k + 1);
        }
        if value > (usize::MAX - digit) / 10 {
            assert(value * 10 + digit > usize::MAX);
            return None;
        }
        value = value * 10 + digit;
        i = i + 1;
    }
    assert(digits.take(digits.len() as int) =~= digits);
    Some(value)
}

/// A digit stands for itself, at the code of `0` and that many places on. To write another digit
/// behind a number other than zero is to multiply it by ten and add the digit.
pub proof fn law_decimal(n: nat, d: nat)
    requires
        d < 10,
    ensures
        decimal(d).len() == 1,
        decimal(d)[0] as int == 48 + d,
        n > 0 ==> {
            &&& decimal(10 * n + d).len() == decimal(n).len() + 1
            &&& decimal(10 * n + d).last() as int == 48 + d
            &&& decimal(10 * n + d).drop_last() == decimal(n)
        },
{
    assert((10 * n + d) / 10 == n && (10 * n + d) % 10 == d);
    if n > 0 {
        assert(decimal(10 * n + d).drop_last() =~= decimal(n));
    }
}

/// How a text is read, from one character to the next. Nothing denotes no number, and a character
/// that is no digit leaves none that could be read. A first digit, which may follow a plus sign,
/// denotes itself; each digit behind a number multiplies it by ten and is added, as long as the
/// number fits in a `usize`.
pub proof fn law_usize_of_text(s: Seq<char>, c: char)
    ensures
        usize_of_text(seq![]) is None,
        usize_of_text(s.push(c)) == if (c as int) < 48 || (c as int) > 57 {
            None::<usize>
        } else if s.len() == 0 || (s.len() == 1 && s[0] == '+') {
            Some((c as int - 48) as usize)
        } else {
            match usize_of_text(s) {
                Some(n) => if 10 * n + (c as int - 48) <= usize::MAX {
                    Some((10 * n + (c as int - 48)) as usize)
                } else {
                    None
                },
                None => None,
            }
        },
{
    reveal_with_fuel(decimal_value, 2);
    let longer = s.push(c);
    if s.len() > 0 {
        let digits = unsigned_digits(s);
        assert(unsigned_digits(longer) =~= digits.push(c));
        assert(digits.push(c).drop_last() =~= digits);
        assert(digits.push(c).last() == c);
        assert forall|i: int| 0 <= i < digits.len() implies is_digit(#[trigger] digits[i]) == is_digit(
            digits.push(c)[i],
        ) by {}
        assert(digits.push(c)[digits.len() as int] == c);
        if usize_of_text(s) is None && digits.len() > 0 && is_digit(c) {
            if forall|i: int| 0 <= i < digits.len() ==> is_digit(#[trigger] digits[i]) {
                assert(decimal_value(digits.push(c)) >= decimal_value(digits));
            } else {
                let bad = choose|i: int|
                    0 <= i < digits.len() && !is_digit(#[trigger] digits[i]);
                assert(!is_digit(digits.push(c)[bad]));
            }
        }
        if usize_of_text(s) is Some && is_digit(c) {
            assert forall|i: int| 0 <= i < digits.push(c).len() implies is_digit(
                #[trigger] digits.push(c)[i],
            ) by {
                if i < digits.len() {
                    assert(is_digit(digits[i]));
                }
            }
        }
        if digits.len() == 0 && is_digit(c) {
            assert(digits.push(c) =~= seq![c]);
        }
    } else {
        assert(longer =~= seq![c]);
        assert(longer.drop_last() =~= Seq::<char>::empty());
        if c == '+' {
            assert(unsigned_digits(longer) =~= Seq::<char>::empty());
        }
    }
}

} // verus!
