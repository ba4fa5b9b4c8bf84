//! Text as a list of characters: whitespace and words, searching, trimming
//! and cutting.
//!
//! Every function works on a string's characters (`Seq<char>` in contracts,
//! `Vec<char>` in code), never on its bytes.

use vstd::prelude::*;

verus! {

/// Whether `c` has the Unicode `White_Space` property.
pub open spec fn is_space(c: char) -> bool {
    let n = c as u32;
    ||| 0x09 <= n <= 0x0D
    ||| n == 0x20
    ||| n == 0x85
    ||| n == 0xA0
    ||| n == 0x1680
    ||| 0x2000 <= n <= 0x200A
    ||| n == 0x2028
    ||| n == 0x2029
    ||| n == 0x202F
    ||| n == 0x205F
    ||| n == 0x3000
}

/// The first index at or after `i` that holds a space, or the length of `s`.
pub open spec fn word_end(s: Seq<char>, i: int) -> int
    decreases s.len() - i,
{
    if 0 <= i < s.len() && !is_space(s[i]) {
        word_end(s, i + 1)
    } else {
        i
    }
}

/// The first index at or after `i` that holds no space, or the length of `s`.
pub open spec fn word_start(s: Seq<char>, i: int) -> int
    decreases s.len() - i,
{
    if 0 <= i < s.len() && is_space(s[i]) {
        word_start(s, i + 1)
    } else {
        i
    }
}

/// The words of `s` that begin at or after `i`.
pub open spec fn words_from(s: Seq<char>, i: int) -> Seq<Seq<char>>
    decreases s.len() - i,
{
    if i < 0 || i >= s.len() {
        Seq::empty()
    } else if is_space(s[i]) {
        words_from(s, i + 1)
    } else {
        proof {
            lemma_word_end_bounds(s, i);
        }
        seq![s.subrange(i, word_end(s, i))] + words_from(s, word_end(s, i))
    }
}

/// The words of `s`: its maximal runs of characters that are not spaces, from
/// left to right.
pub open spec fn words(s: Seq<char>) -> Seq<Seq<char>> {
    words_from(s, 0)
}

/// Whether `pat` stands in `s` at index `i`.
pub open spec fn occurs_at(s: Seq<char>, pat: Seq<char>, i: int) -> bool {
    0 <= i && i + pat.len() <= s.len() && s.subrange(i, i + pat.len()) == pat
}

/// The least index at or after `from` where `pat` stands in `s`.
pub open spec fn find_from(s: Seq<char>, pat: Seq<char>, from: int) -> Option<int>
    decreases s.len() - from,
{
    if from < 0 || from > s.len() - pat.len() {
        None
    } else if occurs_at(s, pat, from) {
        Some(from)
    } else {
        proof {
            assert(pat.len() == 0 ==> s.subrange(from, from) =~= pat);
        }
        find_from(s, pat, from + 1)
    }
}

/// What each string of a list holds.
pub open spec fn texts(v: Seq<String>) -> Seq<Seq<char>> {
    Seq::new(v.len(), |i: int| v[i]@)
}

/// Whether `s` ends with `suffix`.
pub open spec fn ends_with(s: Seq<char>, suffix: Seq<char>) -> bool {
    suffix.len() <= s.len() && s.subrange(s.len() - suffix.len(), s.len() as int) == suffix
}

/// One past the last index before `j` that holds no space, or zero.
pub open spec fn trim_end(s: Seq<char>, j: int) -> int
    decreases j,
{
    if 0 < j <= s.len() && is_space(s[j - 1]) {
        trim_end(s, j - 1)
    } else {
        j
    }
}

/// `s` without the spaces at its two ends.
pub open spec fn trimmed(s: Seq<char>) -> Seq<char> {
    let a = word_start(s, 0);
    let b = trim_end(s, s.len() as int);
    if a < b {
        s.subrange(a, b)
    } else {
        Seq::empty()
    }
}

/// `word_end` moves forward and stops inside the string.
pub proof fn lemma_word_end_bounds(s: Seq<char>, i: int)
    requires
        0 <= i <= s.len(),
    ensures
        i <= word_end(s, i) <= s.len(),
        i < s.len() && !is_space(s[i]) ==> i < word_end(s, i),
        word_end(s, i) < s.len() ==> is_space(s[word_end(s, i)]),
        forall|k: int| i <= k < word_end(s, i) ==> !is_space(#[trigger] s[k]),
    decreases s.len() - i,
{
    if i < s.len() && !is_space(s[i]) {
        lemma_word_end_bounds(s, i + 1);
    }
}

/// Spaces before a word do not change the words that follow.
pub proof fn lemma_words_skip_spaces(s: Seq<char>, i: int)
    requires
        0 <= i <= s.len(),
    ensures
        words_from(s, i) == words_from(s, word_start(s, i)),
    decreases s.len() - i,
{
    if i < s.len() && is_space(s[i]) {
        lemma_words_skip_spaces(s, i + 1);
    }
}

/// Tests a character for the `White_Space` property.
pub fn is_whitespace(c: char) -> (b: bool)
    ensures
        b == is_space(c),
{
    let n: u32 = c as u32;
    (0x09 <= n && n <= 0x0D) || n == 0x20 || n == 0x85 || n == 0xA0 || n == 0x1680 || (0x2000 <= n
        && n <= 0x200A) || n == 0x2028 || n == 0x2029 || n == 0x202F || n == 0x205F || n == 0x3000
}

/// The characters of `s`, in order.
pub fn chars_of(s: &str) -> (v: Vec<char>)
    ensures
        v@ == s@,
{
    let mut v: Vec<char> = Vec::new();
    for c in it: s.chars()
        invariant
            v@ == it.seq().take(it.index()),
    {
        v.push(c);
    }
    v
}

/// Taken on trust from the standard library: `String::push` appends the one
/// character to the end of the string.
pub assume_specification[ String::push ](s: &mut String, ch: char)
    ensures
        final(s)@ == old(s)@.push(ch),
;

/// Taken on trust from the standard library: `String::pop` removes the last
/// character and returns it; on an empty string it returns `None` and leaves
/// the string empty.
pub assume_specification[ String::pop ](s: &mut String) -> (last: Option<char>)
    ensures
        old(s)@.len() == 0 ==> last is None && final(s)@ == old(s)@,
        old(s)@.len() > 0 ==> last == Some(old(s)@.last()) && final(s)@ == old(s)@.drop_last(),
;

/// The characters `chars[from..to]` as a list of their own.
pub fn slice_of(chars: &Vec<char>, from: usize, to: usize) -> (v: Vec<char>)
    requires
        from <= to <= chars.len(),
    ensures
        v@ == chars@.subrange(from as int, to as int),
{
    let mut v: Vec<char> = Vec::new();
    let mut i: usize = from;
    while i < to
        invariant
            from <= i <= to <= chars.len(),
            v@ == chars@.subrange(from as int, i as int),
        decreases to - i,
    {
        v.push(chars[i]);
        i += 1;
    }
    v
}

/// The characters `chars[from..to]` as a string.
pub fn string_of(chars: &Vec<char>, from: usize, to: usize) -> (s: String)
    requires
        from <= to <= chars.len(),
    ensures
        s@ == chars@.subrange(from as int, to as int),
{
    let mut s = String::new();
    let mut i: usize = from;
    while i < to
        invariant
            from <= i <= to <= chars.len(),
            s@ == chars@.subrange(from as int, i as int),
        decreases to - i,
    {
        s.push(chars[i]);
        i += 1;
    }
    s
}

/// The bounds of the first word of `chars` at or after `from`, if there is
/// one.
pub fn next_word(chars: &Vec<char>, from: usize) -> (r: Option<(usize, usize)>)
    requires
        from <= chars.len(),
    ensures
        match r {
            None => words_from(chars@, from as int) == Seq::<Seq<char>>::empty(),
            Some((a, b)) => {
                &&& from <= a < b <= chars.len()
                &&& a == word_start(chars@, from as int)
                &&& b == word_end(chars@, a as int)
                &&& words_from(chars@, from as int) == seq![
                    chars@.subrange(a as int, b as int),
                ] + words_from(chars@, b as int)
            },
        },
{
    let n = chars.len();
    let mut a: usize = from;
    while a < n && is_whitespace(chars[a])
        invariant
            from <= a <= n == chars.len(),
            word_start(chars@, from as int) == word_start(chars@, a as int),
        decreases n - a,
    {
        a += 1;
    }
    proof {
        lemma_words_skip_spaces(chars@, from as int);
    }
    if a >= n {
        return None;
    }
    let mut b: usize = a + 1;
    while b < n && !is_whitespace(chars[b])
        invariant
            a < b <= n == chars.len(),
            !is_space(chars@[a as int]),
            word_end(chars@, a as int) == word_end(chars@, b as int),
        decreases n - b,
    {
        b += 1;
    }
    Some((a, b))
}

/// The least index at or after `from` where `pat` stands in `chars`.
pub fn find(chars: &Vec<char>, pat: &Vec<char>, from: usize) -> (r: Option<usize>)
    ensures
        match r {
            None => find_from(chars@, pat@, from as int) is None,
            Some(i) => {
                &&& find_from(chars@, pat@, from as int) == Some(i as int)
                &&& from <= i
                &&& i + pat.len() <= chars.len()
            },
        },
{
    let n = chars.len();
    let m = pat.len();
    if m > n || from > n - m {
        return None;
    }
    let mut i: usize = from;
    loop
        invariant
            m <= n == chars.len(),
            m == pat.len(),
            from <= i <= n - m,
            find_from(chars@, pat@, from as int) == find_from(chars@, pat@, i as int),
        decreases n - m - i,
    {
        if stands_at(chars, pat, i) {
            return Some(i);
        }
        if i == n - m {
            assert(find_from(chars@, pat@, i + 1) is None);
            return None;
        }
        i += 1;
    }
}

/// Whether `pat` stands in `chars` at index `i`.
pub fn stands_at(chars: &Vec<char>, pat: &Vec<char>, i: usize) -> (b: bool)
    ensures
        b == occurs_at(chars@, pat@, i as int),
{
    let n = chars.len();
    let m = pat.len();
    if m > n || i > n - m {
        return false;
    }
    let mut k: usize = 0;
    while k < m
        invariant
            m <= n == chars.len(),
            m == pat.len(),
            i <= n - m,
            k <= m,
            forall|j: int| 0 <= j < k ==> chars@[i + j] == pat@[j],
        decreases m - k,
    {
        if chars[i + k] != pat[k] {
            assert(chars@.subrange(i as int, i + m)[k as int] == chars@[i + k]);
            return false;
        }
        k += 1;
    }
    assert(chars@.subrange(i as int, i + m) =~= pat@);
    true
}

/// Whether `chars[from..to]` ends with `suffix`.
pub fn range_ends_with(chars: &Vec<char>, from: usize, to: usize, suffix: &Vec<char>) -> (b: bool)
    requires
        from <= to <= chars.len(),
    ensures
        b == ends_with(chars@.subrange(from as int, to as int), suffix@),
{
    let m = suffix.len();
    if m > to - from {
        return false;
    }
    let b = stands_at(chars, suffix, to - m);
    proof {
        let t = chars@.subrange(from as int, to as int);
        assert(t.subrange(t.len() - m, t.len() as int) =~= chars@.subrange(to - m, to as int));
    }
    b
}

/// The bounds of `chars` without the spaces at its two ends; `(0, 0)` when
/// nothing else is left.
pub fn trim_bounds(chars: &Vec<char>) -> (r: (usize, usize))
    ensures
        r.0 <= r.1 <= chars.len(),
        chars@.subrange(r.0 as int, r.1 as int) == trimmed(chars@),
        r.0 < r.1 ==> r.0 == word_start(chars@, 0) && r.1 == trim_end(chars@, chars.len() as int),
        r.0 == r.1 ==> r.0 == 0 && trimmed(chars@).len() == 0,
{
    let n = chars.len();
    let mut a: usize = 0;
    while a < n && is_whitespace(chars[a])
        invariant
            a <= n == chars.len(),
            word_start(chars@, 0) == word_start(chars@, a as int),
        decreases n - a,
    {
        a += 1;
    }
    let mut b: usize = n;
    while b > 0 && is_whitespace(chars[b - 1])
        invariant
            b <= n == chars.len(),
            trim_end(chars@, n as int) == trim_end(chars@, b as int),
        decreases b,
    {
        b -= 1;
    }
    if a < b {
        (a, b)
    } else {
        (0, 0)
    }
}

} // verus!
