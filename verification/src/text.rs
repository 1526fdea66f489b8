//! Scanning primitives over sequences of characters: the building blocks of
//! the line grammars.

use vstd::prelude::*;

verus! {

/// An ASCII decimal digit.
pub open spec fn is_digit(c: char) -> bool {
    '0' <= c && c <= '9'
}

/// The value of a decimal digit.
pub open spec fn digit_value(c: char) -> nat
    recommends
        is_digit(c),
{
    (c as u32 - '0' as u32) as nat
}

/// Every element of `s` is a decimal digit.
pub open spec fn all_digits(s: Seq<char>) -> bool {
    forall|i: int| 0 <= i < s.len() ==> is_digit(#[trigger] s[i])
}

/// The number that the digits of `s` write in base ten; 0 for no digit.
pub open spec fn decimal(s: Seq<char>) -> nat
    decreases s.len(),
{
    if s.len() == 0 {
        0
    } else {
        decimal(s.drop_last()) * 10 + digit_value(s.last())
    }
}

/// The end of the longest run of digits in `s` that starts at `from`.
pub open spec fn digit_run(s: Seq<char>, from: int) -> int
    decreases s.len() - from,
{
    if 0 <= from < s.len() && is_digit(s[from]) {
        digit_run(s, from + 1)
    } else {
        from
    }
}

/// The first position at or after `from` where `s` holds `c`, or the length
/// of `s` where there is none.
pub open spec fn find<T>(s: Seq<T>, c: T, from: int) -> int
    decreases s.len() - from,
{
    if from >= s.len() {
        s.len() as int
    } else if from >= 0 && s[from] == c {
        from
    } else {
        find(s, c, from + 1)
    }
}

/// The characters of an optional string.
pub open spec fn text_of(o: Option<String>) -> Option<Seq<char>> {
    match o {
        Some(s) => Some(s@),
        None => None,
    }
}

/// The code of a character, with the capital letters of ASCII taken as
/// their small ones.
pub open spec fn lower_code(c: char) -> int {
    if 'A' <= c && c <= 'Z' {
        c as int + 32
    } else {
        c as int
    }
}

/// `a` and `b` are the same text but for the case of ASCII letters.
pub open spec fn equals_ignoring_case(a: Seq<char>, b: Seq<char>) -> bool {
    a.len() == b.len() && forall|i: int|
        0 <= i < a.len() ==> lower_code(#[trigger] a[i]) == lower_code(b[i])
}

/// A field that is either `-`, for nothing, or the text up to the next
/// `stop`: what it holds and where it ends. A field that starts with `-` is
/// the `-` alone.
pub open spec fn optional_token(s: Seq<char>, at: int, stop: char) -> Option<
    (Option<Seq<char>>, int),
> {
    if !(0 <= at < s.len()) {
        None
    } else if s[at] == '-' {
        Some((None, at + 1))
    } else if find(s, stop, at) < s.len() {
        Some((Some(s.subrange(at, find(s, stop, at))), find(s, stop, at)))
    } else {
        None
    }
}

/// Where the piece of index `n` starts, of the pieces into which the
/// separator `sep` cuts `s`; `None` where `s` has fewer pieces.
pub open spec fn segment_start(s: Seq<char>, sep: char, n: nat) -> Option<int>
    decreases n,
{
    if n == 0 {
        Some(0)
    } else {
        match segment_start(s, sep, (n - 1) as nat) {
            Some(start) => if find(s, sep, start) < s.len() {
                Some(find(s, sep, start) + 1)
            } else {
                None
            },
            None => None,
        }
    }
}

/// The piece of index `n`, counted from 0, of the pieces into which the
/// separator `sep` cuts `s`.
pub open spec fn segment(s: Seq<char>, sep: char, n: nat) -> Option<Seq<char>> {
    match segment_start(s, sep, n) {
        Some(start) => Some(s.subrange(start, find(s, sep, start))),
        None => None,
    }
}

/// A character of white space, as Unicode lists them.
pub open spec fn is_space(c: char) -> bool {
    ('\u{9}' <= c && c <= '\u{d}') || c == ' ' || c == '\u{85}' || c == '\u{a0}' || c
        == '\u{1680}' || ('\u{2000}' <= c && c <= '\u{200a}') || c == '\u{2028}' || c
        == '\u{2029}' || c == '\u{202f}' || c == '\u{205f}' || c == '\u{3000}'
}

/// A text that is empty once the white space is taken from its ends.
pub open spec fn is_blank_text(s: Seq<char>) -> bool {
    forall|i: int| 0 <= i < s.len() ==> is_space(#[trigger] s[i])
}

/// An optional field as a line writes it: `-` for nothing.
pub open spec fn token_text(field: Option<Seq<char>>) -> Seq<char> {
    match field {
        Some(text) => text,
        None => seq!['-'],
    }
}

/// One space or one tab.
pub open spec fn is_blank(c: char) -> bool {
    c == ' ' || c == '\t'
}

/// The end of the longest run of spaces and tabs in `s` that starts at `from`.
pub open spec fn blank_run(s: Seq<char>, from: int) -> int
    decreases s.len() - from,
{
    if 0 <= from < s.len() && is_blank(s[from]) {
        blank_run(s, from + 1)
    } else {
        from
    }
}

/// `s` holds `word` at position `at`.
pub open spec fn has_at(s: Seq<char>, at: int, word: Seq<char>) -> bool {
    0 <= at && at + word.len() <= s.len() && s.subrange(at, at + word.len()) == word
}

/// A longer run of digits writes a number that is no smaller.
pub proof fn lemma_decimal_grows(s: Seq<char>, k: int)
    requires
        0 <= k <= s.len(),
    ensures
        decimal(s.take(k)) <= decimal(s),
    decreases s.len() - k,
{
    if k == s.len() {
        assert(s.take(k) =~= s);
    } else {
        lemma_decimal_grows(s, k + 1);
        assert(s.take(k + 1).drop_last() =~= s.take(k));
    }
}

/// `find` stays within the sequence and names a position that holds `c`.
pub proof fn lemma_find<T>(s: Seq<T>, c: T, from: int)
    requires
        0 <= from <= s.len(),
    ensures
        from <= find(s, c, from) <= s.len(),
        find(s, c, from) < s.len() ==> s[find(s, c, from)] == c,
        forall|i: int| from <= i < find(s, c, from) ==> s[i] != c,
    decreases s.len() - from,
{
    if from < s.len() && s[from] != c {
        lemma_find(s, c, from + 1);
    }
}

/// Looking in what follows position `start` is looking from `start` on.
pub proof fn lemma_find_skip<T>(s: Seq<T>, c: T, start: int, from: int)
    requires
        0 <= start <= s.len(),
        0 <= from <= s.len() - start,
    ensures
        find(s.skip(start), c, from) + start == find(s, c, start + from),
    decreases s.len() - start - from,
{
    if from < s.len() - start {
        assert(s.skip(start)[from] == s[start + from]);
        if s[start + from] != c {
            lemma_find_skip(s, c, start, from + 1);
        }
    }
}

/// `digit_run` stays within the sequence, covers digits only and stops at
/// the first element that is none.
pub proof fn lemma_digit_run(s: Seq<char>, from: int)
    requires
        0 <= from <= s.len(),
    ensures
        from <= digit_run(s, from) <= s.len(),
        all_digits(s.subrange(from, digit_run(s, from))),
        digit_run(s, from) < s.len() ==> !is_digit(s[digit_run(s, from)]),
    decreases s.len() - from,
{
    if from < s.len() && is_digit(s[from]) {
        lemma_digit_run(s, from + 1);
        let e = digit_run(s, from);
        assert forall|i: int| 0 <= i < e - from implies is_digit(
            #[trigger] s.subrange(from, e)[i],
        ) by {
            if i > 0 {
                assert(s.subrange(from, e)[i] == s.subrange(from + 1, e)[i - 1]);
            }
        }
    }
}

/// An optional field of a line is written there, `-` for nothing,
/// and what it holds has no `stop` in it.
pub proof fn lemma_token_is_written(s: Seq<char>, at: int, stop: char)
    requires
        optional_token(s, at, stop) is Some,
    ensures
        ({
            let (field, end) = optional_token(s, at, stop)->Some_0;
            at <= end <= s.len() && s.subrange(at, end) == token_text(field)
        }),
{
    lemma_find(s, stop, at);
    if s[at] == '-' {
        assert(s.subrange(at, at + 1) =~= seq!['-']);
    }
}

/// `blank_run` stays within the sequence.
pub proof fn lemma_blank_run(s: Seq<char>, from: int)
    requires
        0 <= from <= s.len(),
    ensures
        from <= blank_run(s, from) <= s.len(),
    decreases s.len() - from,
{
    if from < s.len() && is_blank(s[from]) {
        lemma_blank_run(s, from + 1);
    }
}

/// The characters of `s`, one element each.
pub fn chars_of(s: &str) -> (v: Vec<char>)
    ensures
        v@ == s@,
{
    let mut v: Vec<char> = Vec::new();
    for c in it: s.chars()
        invariant
            it.seq() == s@,
            v@ == s@.take(it.index()),
    {
        v.push(c);
        assert(s@.take(it.index() + 1) =~= s@.take(it.index()).push(c));
    }
    assert(s@.take(s@.len() as int) =~= s@);
    v
}

/// A copy of the characters of `s` between `from` and `to`.
pub fn slice_of(s: &str, from: usize, to: usize) -> (r: String)
    requires
        from <= to <= s@.len(),
    ensures
        r@ == s@.subrange(from as int, to as int),
{
    s.substring_char(from, to).to_owned()
}

/// The number written by `width` digits of `s` that start at `at`, where
/// `s` holds that many digits there.
pub open spec fn fixed_number(s: Seq<char>, at: int, width: int) -> Option<nat> {
    if 0 <= at && 0 <= width && at + width <= s.len() && all_digits(s.subrange(at, at + width)) {
        Some(decimal(s.subrange(at, at + width)))
    } else {
        None
    }
}

/// Ten to the power `n`.
pub open spec fn ten_to(n: nat) -> nat
    decreases n,
{
    if n == 0 {
        1
    } else {
        10 * ten_to((n - 1) as nat)
    }
}

/// A run of digits writes a number below ten to the power of its length.
pub proof fn lemma_decimal_bound(s: Seq<char>)
    requires
        all_digits(s),
    ensures
        decimal(s) < ten_to(s.len()),
    decreases s.len(),
{
    if s.len() > 0 {
        assert(is_digit(s.last()));
        assert forall|i: int| 0 <= i < s.drop_last().len() implies is_digit(
            #[trigger] s.drop_last()[i],
        ) by {
            assert(s.drop_last()[i] == s[i]);
        }
        lemma_decimal_bound(s.drop_last());
    }
}

/// The number written by `width` digits of `chars` that start at `at`.
pub(crate) fn read_fixed(chars: &Vec<char>, at: usize, width: usize) -> (r: Option<u32>)
    requires
        width <= 4,
    ensures
        r matches Some(n) ==> fixed_number(chars@, at as int, width as int) == Some(n as nat),
        r is None ==> fixed_number(chars@, at as int, width as int) is None,
{
    if at > chars.len() || width > chars.len() - at {
        return None;
    }
    let end = scan_digits(chars, at);
    proof {
        lemma_digit_run(chars@, at as int);
    }
    if end < at + width {
        assert(!is_digit(chars@[end as int]));
        assert(chars@.subrange(at as int, at + width)[end - at] == chars@[end as int]);
        return None;
    }
    assert(all_digits(chars@.subrange(at as int, at + width))) by {
        assert forall|i: int| 0 <= i < width implies is_digit(
            #[trigger] chars@.subrange(at as int, at + width)[i],
        ) by {
            assert(chars@.subrange(at as int, end as int)[i] == chars@[at + i]);
        }
    }
    proof {
        lemma_decimal_bound(chars@.subrange(at as int, at + width));
        reveal_with_fuel(ten_to, 5);
    }
    read_decimal(chars, at, at + width, 10_000)
}

/// The code of `c`, with a capital letter of ASCII taken as its small one.
fn lowered(c: char) -> (r: u32)
    ensures
        r == lower_code(c),
{
    if c >= 'A' && c <= 'Z' {
        c as u32 + 32
    } else {
        c as u32
    }
}

/// Whether `a` and `b` are the same text but for the case of ASCII letters.
pub fn eq_ignore_case(a: &str, b: &str) -> (r: bool)
    ensures
        r == equals_ignoring_case(a@, b@),
{
    let x = chars_of(a);
    let y = chars_of(b);
    if x.len() != y.len() {
        return false;
    }
    let mut i: usize = 0;
    while i < x.len()
        invariant
            i <= x.len(),
            x.len() == y.len(),
            x@ == a@,
            y@ == b@,
            forall|j: int| 0 <= j < i ==> lower_code(#[trigger] x@[j]) == lower_code(y@[j]),
        decreases x.len() - i,
    {
        if lowered(x[i]) != lowered(y[i]) {
            return false;
        }
        i += 1;
    }
    true
}

/// Whether `chars` holds `c` at position `at`.
pub fn is_at(chars: &Vec<char>, at: usize, c: char) -> (r: bool)
    ensures
        r == (at < chars@.len() && chars@[at as int] == c),
{
    at < chars.len() && chars[at] == c
}

/// Whether `chars` holds `word` at position `at`.
pub fn starts_with_at(chars: &Vec<char>, at: usize, word: &str) -> (r: bool)
    ensures
        r == has_at(chars@, at as int, word@),
{
    let w = chars_of(word);
    if at > chars.len() || w.len() > chars.len() - at {
        return false;
    }
    let mut i: usize = 0;
    while i < w.len()
        invariant
            i <= w.len(),
            at + w.len() <= chars.len(),
            w@ == word@,
            forall|j: int| 0 <= j < i ==> chars@[at + j] == w@[j],
        decreases w.len() - i,
    {
        if chars[at + i] != w[i] {
            assert(chars@.subrange(at as int, at + w.len())[i as int] != w@[i as int]);
            return false;
        }
        i += 1;
    }
    assert(chars@.subrange(at as int, at + w.len()) =~= w@);
    true
}

/// The end of the run of digits of `chars` that starts at `from`.
pub fn scan_digits(chars: &Vec<char>, from: usize) -> (end: usize)
    requires
        from <= chars@.len(),
    ensures
        end == digit_run(chars@, from as int),
        from <= end <= chars@.len(),
{
    let mut i: usize = from;
    while i < chars.len() && chars[i] >= '0' && chars[i] <= '9'
        invariant
            from <= i <= chars@.len(),
            digit_run(chars@, from as int) == digit_run(chars@, i as int),
        decreases chars@.len() - i,
    {
        i += 1;
    }
    i
}

/// The end of the run of spaces and tabs of `chars` that starts at `from`.
pub fn scan_blanks(chars: &Vec<char>, from: usize) -> (end: usize)
    requires
        from <= chars@.len(),
    ensures
        end == blank_run(chars@, from as int),
        from <= end <= chars@.len(),
{
    let mut i: usize = from;
    while i < chars.len() && (chars[i] == ' ' || chars[i] == '\t')
        invariant
            from <= i <= chars@.len(),
            blank_run(chars@, from as int) == blank_run(chars@, i as int),
        decreases chars@.len() - i,
    {
        i += 1;
    }
    i
}

/// The first position at or after `from` where `chars` holds `c`, or the
/// length of `chars`.
pub fn find_char(chars: &Vec<char>, c: char, from: usize) -> (at: usize)
    requires
        from <= chars@.len(),
    ensures
        at == find(chars@, c, from as int),
        from <= at <= chars@.len(),
{
    let mut i: usize = from;
    while i < chars.len() && chars[i] != c
        invariant
            from <= i <= chars@.len(),
            find(chars@, c, from as int) == find(chars@, c, i as int),
        decreases chars@.len() - i,
    {
        i += 1;
    }
    i
}

/// The number written by the digits of `chars` between `from` and `to`, as
/// long as it does not exceed `limit`.
pub(crate) fn read_decimal(chars: &Vec<char>, from: usize, to: usize, limit: u32) -> (r: Option<u32>)
    requires
        from <= to <= chars@.len(),
        all_digits(chars@.subrange(from as int, to as int)),
        limit <= 100_000_000,
    ensures
        r == if decimal(chars@.subrange(from as int, to as int)) <= limit {
            Some(decimal(chars@.subrange(from as int, to as int)) as u32)
        } else {
            None
        },
{
    let ghost digits = chars@.subrange(from as int, to as int);
    let mut acc: u32 = 0;
    let mut i: usize = from;
    while i < to
        invariant
            from <= i <= to <= chars@.len(),
            digits == chars@.subrange(from as int, to as int),
            all_digits(digits),
            acc == decimal(digits.take(i - from)),
            acc <= limit <= 100_000_000,
        decreases to - i,
    {
        let c = chars[i];
        assert(c == digits[i - from]);
        assert(is_digit(c));
        let d: u32 = c as u32 - '0' as u32;
        assert(digits.take(i - from + 1).drop_last() =~= digits.take(i - from));
        let next: u32 = acc * 10 + d;
        assert(next == decimal(digits.take(i - from + 1)));
        if next > limit {
            proof {
                lemma_decimal_grows(digits, i - from + 1);
            }
            return None;
        }
        acc = next;
        i += 1;
    }
    assert(digits.take(to - from) =~= digits);
    Some(acc)
}

/// Reads a field that is `-` or runs up to the next `stop`: whether it
/// holds text, and where it ends.
pub fn read_optional_token(chars: &Vec<char>, at: usize, stop: char) -> (r: Option<(bool, usize)>)
    ensures
        match r {
            Some((present, end)) => optional_token(chars@, at as int, stop) == Some(
                (
                    if present {
                        Some(chars@.subrange(at as int, end as int))
                    } else {
                        None
                    },
                    end as int,
                ),
            ) && at <= end <= chars@.len(),
            None => optional_token(chars@, at as int, stop) is None,
        },
{
    if at >= chars.len() {
        return None;
    }
    if chars[at] == '-' {
        return Some((false, at + 1));
    }
    let end = find_char(chars, stop, at);
    if end < chars.len() {
        Some((true, end))
    } else {
        None
    }
}

/// An owned copy of an optional stretch of `line`.
pub fn copy_token(line: &str, present: bool, from: usize, to: usize) -> (r: Option<String>)
    requires
        present ==> from <= to <= line@.len(),
    ensures
        text_of(r) == if present {
            Some(line@.subrange(from as int, to as int))
        } else {
            None
        },
{
    if present {
        Some(slice_of(line, from, to))
    } else {
        None
    }
}

/// The piece of index `n`, counted from 0, of the pieces into which the
/// separator `sep` cuts `s`.
pub fn nth_segment(s: &str, sep: char, n: usize) -> (r: Option<String>)
    ensures
        text_of(r) == segment(s@, sep, n as nat),
{
    let chars = chars_of(s);
    let mut start: usize = 0;
    let mut k: usize = 0;
    while k < n
        invariant
            k <= n,
            chars@ == s@,
            start <= chars@.len(),
            segment_start(s@, sep, k as nat) == Some(start as int),
        decreases n - k,
    {
        let end = find_char(&chars, sep, start);
        if end >= chars.len() {
            proof {
                lemma_no_later_segment(s@, sep, k as nat, n as nat);
            }
            return None;
        }
        start = end + 1;
        k += 1;
    }
    let end = find_char(&chars, sep, start);
    Some(slice_of(s, start, end))
}

/// Where a text has no piece of index `k + 1`, it has none of a larger
/// index either.
proof fn lemma_no_later_segment(s: Seq<char>, sep: char, k: nat, n: nat)
    requires
        k < n,
        segment_start(s, sep, k) is Some,
        find(s, sep, segment_start(s, sep, k)->0) >= s.len(),
    ensures
        segment_start(s, sep, n) is None,
    decreases n - k,
{
    if k + 1 < n {
        lemma_no_later_segment(s, sep, k, (n - 1) as nat);
    }
}

/// Whether a character is white space.
fn is_white_space(c: char) -> (r: bool)
    ensures
        r == is_space(c),
{
    ('\u{9}' <= c && c <= '\u{d}') || c == ' ' || c == '\u{85}' || c == '\u{a0}' || c
        == '\u{1680}' || ('\u{2000}' <= c && c <= '\u{200a}') || c == '\u{2028}' || c
        == '\u{2029}' || c == '\u{202f}' || c == '\u{205f}' || c == '\u{3000}'
}

/// Whether a text is empty once the white space is taken from its ends.
pub fn is_blank_line(s: &str) -> (r: bool)
    ensures
        r == is_blank_text(s@),
{
    let chars = chars_of(s);
    let mut i: usize = 0;
    while i < chars.len()
        invariant
            i <= chars@.len(),
            chars@ == s@,
            forall|j: int| 0 <= j < i ==> is_space(#[trigger] chars@[j]),
        decreases chars@.len() - i,
    {
        if !is_white_space(chars[i]) {
            return false;
        }
        i += 1;
    }
    true
}

} // verus!
