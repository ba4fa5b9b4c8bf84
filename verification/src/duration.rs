//! Elapsed-time strings such as `1day 2h 3m 4s`, read as a number of seconds.

use crate::number::{read_digits, read_unsigned, signed_decimal};
use crate::text::{chars_of, ends_with, next_word, range_ends_with, words, words_from};
use vstd::prelude::*;
use vstd::wrapping::i64_specs::signed_crop;

verus! {

/// Seconds in a day.
pub const DAY: i64 = 86400;

/// Seconds in an hour.
pub const HOUR: i64 = 3600;

/// Seconds in a minute.
pub const MINUTE: i64 = 60;

/// The number that `s` writes, where it is a signed decimal integer that a
/// 64-bit signed integer can hold.
pub open spec fn decimal_i64(s: Seq<char>) -> Option<int> {
    match signed_decimal(s) {
        Some(n) => if i64::MIN <= n <= i64::MAX {
            Some(n)
        } else {
            None
        },
        None => None,
    }
}

/// The count that a word carries in front of a unit of `unit_len` characters:
/// the number written there, or zero where none is.
pub open spec fn count_before(word: Seq<char>, unit_len: int) -> int {
    match decimal_i64(word.take(word.len() - unit_len)) {
        Some(n) => n,
        None => 0,
    }
}

/// The seconds that one word stands for. The unit is the first of `day`,
/// `days`, `h`, `m`, `s` that the word ends with; a word that ends with none
/// of them, or that has no number before the unit, stands for zero.
pub open spec fn word_seconds(word: Seq<char>) -> int {
    if ends_with(word, seq!['d', 'a', 'y']) {
        DAY * count_before(word, 3)
    } else if ends_with(word, seq!['d', 'a', 'y', 's']) {
        DAY * count_before(word, 4)
    } else if ends_with(word, seq!['h']) {
        HOUR * count_before(word, 1)
    } else if ends_with(word, seq!['m']) {
        MINUTE * count_before(word, 1)
    } else if ends_with(word, seq!['s']) {
        count_before(word, 1)
    } else {
        0
    }
}

/// The seconds that a list of words stands for: the sum over its words.
pub open spec fn sum_seconds(ws: Seq<Seq<char>>) -> int
    decreases ws.len(),
{
    if ws.len() == 0 {
        0
    } else {
        sum_seconds(ws.drop_last()) + word_seconds(ws.last())
    }
}

/// The seconds that the text `s` stands for: the sum over its
/// whitespace-separated words, as a mathematical integer.
pub open spec fn duration_seconds(s: Seq<char>) -> int {
    sum_seconds(words(s))
}

/// Wrapping a sum is wrapping the sum of the wrapped terms.
pub proof fn lemma_crop_add(a: int, b: int)
    ensures
        vstd::wrapping::i64_specs::wrapping_add(signed_crop(a), signed_crop(b)) == signed_crop(
            a + b,
        ),
{
}

/// A number that fits is its own wrapping.
pub proof fn lemma_crop_fits(a: int)
    requires
        i64::MIN <= a <= i64::MAX,
    ensures
        signed_crop(a) == a,
{
}

/// Reads `chars[from..to]` as a signed decimal integer of 64 bits.
pub fn read_i64(chars: &Vec<char>, from: usize, to: usize) -> (r: Option<i64>)
    requires
        from <= to <= chars.len(),
    ensures
        match r {
            Some(n) => decimal_i64(chars@.subrange(from as int, to as int)) == Some(n as int),
            None => decimal_i64(chars@.subrange(from as int, to as int)) is None,
        },
{
    let ghost word = chars@.subrange(from as int, to as int);
    // One more than the largest magnitude that any result has.
    let cap: u128 = 0x8000_0000_0000_0001;
    if from < to && chars[from] == '-' {
        assert(word.subrange(1, word.len() as int) =~= chars@.subrange(from + 1, to as int));
        if from + 1 == to {
            return None;
        }
        match read_digits(chars, from + 1, to, cap) {
            Some(n) => if n == 0x8000_0000_0000_0000 {
                Some(i64::MIN)
            } else if n < 0x8000_0000_0000_0000 {
                Some(-(n as i64))
            } else {
                None
            },
            None => None,
        }
    } else {
        match read_unsigned(chars, from, to, cap) {
            Some(n) => if n < 0x8000_0000_0000_0000 {
                Some(n as i64)
            } else {
                None
            },
            None => None,
        }
    }
}

/// The count that `chars[from..to]` writes, or zero where it writes none.
fn read_count(chars: &Vec<char>, from: usize, to: usize) -> (n: i64)
    requires
        from <= to <= chars.len(),
    ensures
        n == match decimal_i64(chars@.subrange(from as int, to as int)) {
            Some(n) => n,
            None => 0,
        },
{
    match read_i64(chars, from, to) {
        Some(n) => n,
        None => 0,
    }
}

/// The seconds that the word `chars[from..to]` stands for, wrapped into 64
/// bits.
pub fn read_word(chars: &Vec<char>, from: usize, to: usize) -> (seconds: i64)
    requires
        from <= to <= chars.len(),
    ensures
        seconds == signed_crop(word_seconds(chars@.subrange(from as int, to as int))),
{
    let ghost word = chars@.subrange(from as int, to as int);
    let len = to - from;
    proof {
        assert(len >= 3 ==> word.take(len - 3) =~= chars@.subrange(from as int, to - 3));
        assert(len >= 4 ==> word.take(len - 4) =~= chars@.subrange(from as int, to - 4));
        assert(len >= 1 ==> word.take(len - 1) =~= chars@.subrange(from as int, to - 1));
    }
    let day = vec!['d', 'a', 'y'];
    let days = vec!['d', 'a', 'y', 's'];
    let hour = vec!['h'];
    let minute = vec!['m'];
    let second = vec!['s'];
    proof {
        assert(day@ =~= seq!['d', 'a', 'y']);
        assert(days@ =~= seq!['d', 'a', 'y', 's']);
        assert(hour@ =~= seq!['h']);
        assert(minute@ =~= seq!['m']);
        assert(second@ =~= seq!['s']);
    }
    if range_ends_with(chars, from, to, &day) {
        read_count(chars, from, to - 3).wrapping_mul(DAY)
    } else if range_ends_with(chars, from, to, &days) {
        read_count(chars, from, to - 4).wrapping_mul(DAY)
    } else if range_ends_with(chars, from, to, &hour) {
        read_count(chars, from, to - 1).wrapping_mul(HOUR)
    } else if range_ends_with(chars, from, to, &minute) {
        read_count(chars, from, to - 1).wrapping_mul(MINUTE)
    } else if range_ends_with(chars, from, to, &second) {
        let n = read_count(chars, from, to - 1);
        proof {
            lemma_crop_fits(n as int);
        }
        n
    } else {
        0
    }
}

/// The seconds that the text `chars` stands for, wrapped into 64 bits.
pub fn seconds_of(chars: &Vec<char>) -> (total: i64)
    ensures
        total == signed_crop(duration_seconds(chars@)),
{
    let mut total: i64 = 0;
    let mut pos: usize = 0;
    let ghost mut done: Seq<Seq<char>> = Seq::empty();
    loop
        invariant
            pos <= chars.len(),
            words(chars@) == done + words_from(chars@, pos as int),
            total == signed_crop(sum_seconds(done)),
        ensures
            words(chars@) == done,
            total == signed_crop(sum_seconds(done)),
        decreases chars.len() - pos,
    {
        let found = next_word(chars, pos);
        if found.is_none() {
            break ;
        }
        let (a, b) = found.unwrap();
        let seconds = read_word(chars, a, b);
        proof {
            let word = chars@.subrange(a as int, b as int);
            assert(done + (seq![word] + words_from(chars@, b as int)) =~= done.push(word)
                + words_from(chars@, b as int));
            assert(done.push(word).drop_last() =~= done);
            lemma_crop_add(sum_seconds(done), word_seconds(word));
            done = done.push(word);
        }
        total = total.wrapping_add(seconds);
        pos = b;
    }
    total
}

/// Reads an elapsed time such as `1day 2h 3m 4s` as a number of seconds.
///
/// The text is cut into whitespace-separated words. A word made of an integer
/// and one of the units `day`, `days`, `h`, `m`, `s` counts for that many
/// days, hours, minutes or seconds; every other word counts for nothing. The
/// result is the sum, wrapped into 64 bits where it does not fit.
pub fn parse_time(s: &str) -> (total: i64)
    ensures
        total == signed_crop(duration_seconds(s@)),
        i64::MIN <= duration_seconds(s@) <= i64::MAX ==> total == duration_seconds(s@),
{
    let chars = chars_of(s);
    let total = seconds_of(&chars);
    proof {
        if i64::MIN <= duration_seconds(s@) <= i64::MAX {
            lemma_crop_fits(duration_seconds(s@));
        }
    }
    total
}

} // verus!
