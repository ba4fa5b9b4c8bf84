//! Decimal numbers as text: reading them and writing them.

use crate::text::string_of;
use vstd::prelude::*;

verus! {

/// Whether `c` is one of the ten ASCII digits.
pub open spec fn is_digit(c: char) -> bool {
    '0' <= c <= '9'
}

/// The value of the digit `c`.
pub open spec fn digit_value(c: char) -> int {
    c as u32 - '0' as u32
}

/// Whether every character of `s` is an ASCII digit.
pub open spec fn all_digits(s: Seq<char>) -> bool {
    forall|i: int| 0 <= i < s.len() ==> is_digit(#[trigger] s[i])
}

/// The number that the digits of `s` write in base ten; zero for no digits.
pub open spec fn digits_value(s: Seq<char>) -> int
    decreases s.len(),
{
    if s.len() == 0 {
        0
    } else {
        10 * digits_value(s.drop_last()) + digit_value(s.last())
    }
}

/// The digit that stands for `d`, which is less than ten.
pub open spec fn digit_char(d: nat) -> char {
    (d + 48) as u8 as char
}

/// `n` in base ten, without leading zeros.
pub open spec fn decimal_text(n: nat) -> Seq<char>
    decreases n,
{
    if n < 10 {
        seq![digit_char(n)]
    } else {
        decimal_text(n / 10).push(digit_char(n % 10))
    }
}

/// `n` in base ten, with a minus sign where it is negative.
pub open spec fn signed_text(n: int) -> Seq<char> {
    if n < 0 {
        seq!['-'] + decimal_text((-n) as nat)
    } else {
        decimal_text(n as nat)
    }
}

/// The number that `s` writes as a decimal integer without a minus sign: an
/// optional `+`, then at least one digit, and nothing else.
pub open spec fn unsigned_decimal(s: Seq<char>) -> Option<int> {
    let digits = if s.len() > 0 && s[0] == '+' {
        s.subrange(1, s.len() as int)
    } else {
        s
    };
    if digits.len() > 0 && all_digits(digits) {
        Some(digits_value(digits))
    } else {
        None
    }
}

/// The number that `s` writes as a decimal integer with an optional sign:
/// `+` or `-`, then at least one digit, and nothing else.
pub open spec fn signed_decimal(s: Seq<char>) -> Option<int> {
    if s.len() > 0 && s[0] == '-' {
        let digits = s.subrange(1, s.len() as int);
        if digits.len() > 0 && all_digits(digits) {
            Some(-digits_value(digits))
        } else {
            None
        }
    } else {
        unsigned_decimal(s)
    }
}

/// What `decimal_text` writes reads back as the number: it is made of
/// digits, at least one, and their value is the number.
pub proof fn lemma_decimal_text_reads_back(n: nat)
    ensures
        decimal_text(n).len() > 0,
        all_digits(decimal_text(n)),
        digits_value(decimal_text(n)) == n,
        unsigned_decimal(decimal_text(n)) == Some(n as int),
    decreases n,
{
    let text = decimal_text(n);
    if n < 10 {
        assert(digits_value(text.drop_last()) == 0);
    } else {
        lemma_decimal_text_reads_back(n / 10);
        assert(text.drop_last() =~= decimal_text(n / 10));
        assert forall|i: int| 0 <= i < text.len() implies is_digit(#[trigger] text[i]) by {
            if i < text.len() - 1 {
                assert(text[i] == decimal_text(n / 10)[i]);
            }
        }
    }
}

/// Writes `n` in base ten.
pub fn decimal(n: u64) -> (s: String)
    ensures
        s@ == decimal_text(n as nat),
{
    let mut digits: Vec<char> = Vec::new();
    let mut rest: u64 = n;
    while rest >= 10
        invariant
            decimal_text(n as nat) == decimal_text(rest as nat) + digits@,
        decreases rest,
    {
        let digit = ((rest % 10) as u8 + 48) as char;
        proof {
            assert(decimal_text((rest / 10) as nat).push(digit) + digits@ =~= decimal_text(
                (rest / 10) as nat,
            ) + digits@.insert(0, digit));
        }
        digits.insert(0, digit);
        rest = rest / 10;
    }
    let first = (rest as u8 + 48) as char;
    digits.insert(0, first);
    string_of(&digits, 0, digits.len())
}

/// Writes `n` in base ten, with a minus sign where it is negative.
pub fn signed_decimal_of(n: i64) -> (s: String)
    ensures
        s@ == signed_text(n as int),
{
    if n < 0 {
        let magnitude: u64 = if n == i64::MIN {
            0x8000_0000_0000_0000
        } else {
            (-n) as u64
        };
        let mut s = String::from_str("-");
        proof {
            reveal_strlit("-");
        }
        s.append(decimal(magnitude).as_str());
        s
    } else {
        decimal(n as u64)
    }
}

/// Reads `chars[from..to]` as a run of digits. The result is `None` where a
/// character is no digit, and otherwise the number written, or `cap` where
/// that number is larger.
pub fn read_digits(chars: &Vec<char>, from: usize, to: usize, cap: u128) -> (r: Option<u128>)
    requires
        from <= to <= chars.len(),
        cap <= 0x1_0000_0000_0000_0000,
    ensures
        r is Some == all_digits(chars@.subrange(from as int, to as int)),
        r matches Some(n) ==> n == if digits_value(chars@.subrange(from as int, to as int))
            <= cap {
            digits_value(chars@.subrange(from as int, to as int))
        } else {
            cap as int
        },
{
    let mut n: u128 = 0;
    let mut i: usize = from;
    while i < to
        invariant
            from <= i <= to <= chars.len(),
            cap <= 0x1_0000_0000_0000_0000,
            all_digits(chars@.subrange(from as int, i as int)),
            n == if digits_value(chars@.subrange(from as int, i as int)) <= cap {
                digits_value(chars@.subrange(from as int, i as int))
            } else {
                cap as int
            },
        decreases to - i,
    {
        let c = chars[i];
        if c < '0' || c > '9' {
            assert(chars@.subrange(from as int, to as int)[i - from] == c);
            return None;
        }
        let digit: u128 = (c as u32 - '0' as u32) as u128;
        proof {
            let shorter = chars@.subrange(from as int, i as int);
            let longer = chars@.subrange(from as int, i + 1);
            assert(longer.drop_last() =~= shorter);
            assert forall|j: int| 0 <= j < longer.len() implies is_digit(#[trigger] longer[j]) by {
                if j < shorter.len() {
                    assert(shorter[j] == longer[j]);
                }
            }
        }
        let wide: u128 = n * 10 + digit;
        n = if wide > cap {
            cap
        } else {
            wide
        };
        i += 1;
    }
    Some(n)
}

/// Reads `chars[from..to]` as a decimal integer without a minus sign. The
/// result is `None` where it is none, and otherwise the number written, or
/// `cap` where that number is larger.
pub fn read_unsigned(chars: &Vec<char>, from: usize, to: usize, cap: u128) -> (r: Option<u128>)
    requires
        from <= to <= chars.len(),
        cap <= 0x1_0000_0000_0000_0000,
    ensures
        r is Some == unsigned_decimal(chars@.subrange(from as int, to as int)) is Some,
        r matches Some(n) ==> n == if unsigned_decimal(
            chars@.subrange(from as int, to as int),
        ).unwrap() <= cap {
            unsigned_decimal(chars@.subrange(from as int, to as int)).unwrap()
        } else {
            cap as int
        },
{
    let ghost word = chars@.subrange(from as int, to as int);
    let start: usize = if from < to && chars[from] == '+' {
        from + 1
    } else {
        from
    };
    assert(start > from ==> word.subrange(1, word.len() as int) =~= chars@.subrange(
        start as int,
        to as int,
    ));
    if start == to {
        return None;
    }
    read_digits(chars, start, to, cap)
}

} // verus!
