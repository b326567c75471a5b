//! Character-level helpers: whitespace, trimming, tokens, substring search,
//! line splitting and decimal numbers, each with its meaning as a function on
//! `Seq<char>`.

use vstd::prelude::*;
use vstd::std_specs::iter::IteratorSpec;

verus! {

/// `String::push` appends one character to the end of the string.
pub assume_specification[ String::push ](s: &mut String, ch: char)
    ensures
        final(s)@ == old(s)@.push(ch),
;

/// The characters of a string, in order.
pub fn to_chars(s: &str) -> (r: Vec<char>)
    ensures
        r@ == s@,
{
    let mut out: Vec<char> = Vec::new();
    for c in it: s.chars()
        invariant
            it.seq() == s@,
            out@ == it.seq().take(it.index() as int),
    {
        out.push(c);
    }
    out
}

/// The string made of `chars[from..to]`.
pub fn string_of(chars: &Vec<char>, from: usize, to: usize) -> (r: String)
    requires
        from <= to <= chars.len(),
    ensures
        r@ == chars@.subrange(from as int, to as int),
{
    let mut out = String::new();
    let mut i: usize = from;
    while i < to
        invariant
            from <= i <= to <= chars.len(),
            out@ == chars@.subrange(from as int, i as int),
        decreases to - i,
    {
        out.push(chars[i]);
        i += 1;
    }
    out
}

/// Whether `c` has the Unicode property White_Space.
pub open spec fn is_space(c: char) -> bool {
    let n = c as u32;
    ||| 0x09 <= n <= 0x0D
    ||| n == 0x20
    ||| n == 0x85
    ||| n == 0xA0
    ||| n == 0x1680
    ||| 0x2000 <= n <= 0x200A
    ||| n == 0x2028
    ||| n == 0x2029
    ||| n == 0x202F
    ||| n == 0x205F
    ||| n == 0x3000
}

pub fn is_space_char(c: char) -> (r: bool)
    ensures
        r == is_space(c),
{
    let n: u32 = c as u32;
    (0x09 <= n && n <= 0x0D) || n == 0x20 || n == 0x85 || n == 0xA0 || n == 0x1680 || (0x2000 <= n
        && n <= 0x200A) || n == 0x2028 || n == 0x2029 || n == 0x202F || n == 0x205F || n == 0x3000
}

/// How many whitespace characters `s` starts with.
pub open spec fn leading_spaces(s: Seq<char>) -> nat
    decreases s.len(),
{
    if s.len() > 0 && is_space(s[0]) {
        1 + leading_spaces(s.drop_first())
    } else {
        0
    }
}

/// How many whitespace characters `s` ends with.
pub open spec fn trailing_spaces(s: Seq<char>) -> nat
    decreases s.len(),
{
    if s.len() > 0 && is_space(s.last()) {
        1 + trailing_spaces(s.drop_last())
    } else {
        0
    }
}

/// How many non-whitespace characters `s` starts with.
pub open spec fn leading_word(s: Seq<char>) -> nat
    decreases s.len(),
{
    if s.len() > 0 && !is_space(s[0]) {
        1 + leading_word(s.drop_first())
    } else {
        0
    }
}

/// `s` without its leading and trailing whitespace.
pub open spec fn trimmed(s: Seq<char>) -> Seq<char> {
    let rest = s.skip(leading_spaces(s) as int);
    rest.take(rest.len() - trailing_spaces(rest))
}

/// The first index at or after `from` that holds no whitespace.
fn skip_spaces(chars: &Vec<char>, from: usize) -> (r: usize)
    requires
        from <= chars.len(),
    ensures
        r == from + leading_spaces(chars@.skip(from as int)),
        r <= chars.len(),
{
    let mut i: usize = from;
    while i < chars.len() && is_space_char(chars[i])
        invariant
            from <= i <= chars.len(),
            i + leading_spaces(chars@.skip(i as int)) == from + leading_spaces(
                chars@.skip(from as int),
            ),
        decreases chars.len() - i,
    {
        proof {
            assert(chars@.skip(i as int).drop_first() =~= chars@.skip(i + 1));
        }
        i += 1;
    }
    i
}

/// The first index at or after `from` that holds whitespace.
fn skip_word(chars: &Vec<char>, from: usize) -> (r: usize)
    requires
        from <= chars.len(),
    ensures
        r == from + leading_word(chars@.skip(from as int)),
        r <= chars.len(),
{
    let mut i: usize = from;
    while i < chars.len() && !is_space_char(chars[i])
        invariant
            from <= i <= chars.len(),
            i + leading_word(chars@.skip(i as int)) == from + leading_word(
                chars@.skip(from as int),
            ),
        decreases chars.len() - i,
    {
        proof {
            assert(chars@.skip(i as int).drop_first() =~= chars@.skip(i + 1));
        }
        i += 1;
    }
    i
}

/// The end of `chars[from..]` once its trailing whitespace is dropped.
fn drop_trailing_spaces(chars: &Vec<char>, from: usize) -> (r: usize)
    requires
        from <= chars.len(),
    ensures
        from <= r <= chars.len(),
        r == chars.len() - trailing_spaces(chars@.skip(from as int)),
{
    let mut end: usize = chars.len();
    while end > from && is_space_char(chars[end - 1])
        invariant
            from <= end <= chars.len(),
            end - trailing_spaces(chars@.subrange(from as int, end as int)) == chars.len()
                - trailing_spaces(chars@.skip(from as int)),
        decreases end,
    {
        proof {
            assert(chars@.subrange(from as int, end as int).drop_last() =~= chars@.subrange(
                from as int,
                end - 1,
            ));
        }
        end -= 1;
    }
    end
}

/// A copy of `s` without its leading and trailing whitespace.
pub fn trim(s: &str) -> (r: String)
    ensures
        r@ == trimmed(s@),
{
    let chars = to_chars(s);
    let start = skip_spaces(&chars, 0);
    let end = drop_trailing_spaces(&chars, start);
    proof {
        assert(chars@.skip(0) =~= chars@);
    }
    string_of(&chars, start, end)
}


/// The first whitespace-delimited token of `s`; empty when there is none.
pub open spec fn first_token(s: Seq<char>) -> Seq<char> {
    let rest = s.skip(leading_spaces(s) as int);
    rest.take(leading_word(rest) as int)
}

/// What follows the first whitespace-delimited token of `s`.
pub open spec fn after_first_token(s: Seq<char>) -> Seq<char> {
    let rest = s.skip(leading_spaces(s) as int);
    rest.skip(leading_word(rest) as int)
}

/// The first two whitespace-delimited tokens of a line joined by one space,
/// or the empty string when the line has fewer than two tokens.
pub open spec fn timestamp_of(line: Seq<char>) -> Seq<char> {
    let date = first_token(line);
    let time = first_token(after_first_token(line));
    if date.len() > 0 && time.len() > 0 {
        date.push(' ') + time
    } else {
        Seq::empty()
    }
}

/// The date and time that a log line starts with, as one string.
pub fn leading_timestamp(line: &str) -> (r: String)
    ensures
        r@ == timestamp_of(line@),
{
    let chars = to_chars(line);
    let date_from = skip_spaces(&chars, 0);
    let date_to = skip_word(&chars, date_from);
    let time_from = skip_spaces(&chars, date_to);
    let time_to = skip_word(&chars, time_from);
    proof {
        let all = chars@;
        assert(all.skip(0) =~= all);
        let rest = all.skip(date_from as int);
        let tail = rest.skip(leading_word(rest) as int);
        assert(tail =~= all.skip(date_to as int));
        let rest2 = tail.skip(leading_spaces(tail) as int);
        assert(rest2 =~= all.skip(time_from as int));
    }
    if date_to > date_from && time_to > time_from {
        let mut out = string_of(&chars, date_from, date_to);
        out.push(' ');
        let mut i: usize = time_from;
        while i < time_to
            invariant
                time_from <= i <= time_to <= chars.len(),
                out@ == chars@.subrange(date_from as int, date_to as int).push(' ')
                    + chars@.subrange(time_from as int, i as int),
            decreases time_to - i,
        {
            out.push(chars[i]);
            i += 1;
        }
        out
    } else {
        String::new()
    }
}

/// Whether `needle` occurs in `hay` at index `at`.
pub open spec fn occurs_at(hay: Seq<char>, needle: Seq<char>, at: int) -> bool {
    0 <= at && at + needle.len() <= hay.len() && hay.subrange(at, at + needle.len()) == needle
}

/// Whether `needle` occurs somewhere in `hay`.
pub open spec fn has_substring(hay: Seq<char>, needle: Seq<char>) -> bool {
    exists|at: int| occurs_at(hay, needle, at)
}

fn matches_at(hay: &Vec<char>, needle: &Vec<char>, at: usize) -> (r: bool)
    requires
        at + needle.len() <= hay.len(),
    ensures
        r == occurs_at(hay@, needle@, at as int),
{
    let mut j: usize = 0;
    while j < needle.len()
        invariant
            j <= needle.len(),
            at + needle.len() <= hay.len(),
            forall|k: int| 0 <= k < j ==> hay@[at + k] == needle@[k],
        decreases needle.len() - j,
    {
        if hay[at + j] != needle[j] {
            return false;
        }
        j += 1;
    }
    proof {
        assert(hay@.subrange(at as int, at + needle.len()) =~= needle@);
    }
    true
}

/// Whether `needle` occurs somewhere in `hay`.
pub fn contains(hay: &str, needle: &str) -> (r: bool)
    ensures
        r == has_substring(hay@, needle@),
{
    let h = to_chars(hay);
    let n = to_chars(needle);
    if n.len() > h.len() {
        return false;
    }
    let last: usize = h.len() - n.len();
    let mut at: usize = 0;
    while at < last
        invariant
            last == h.len() - n.len(),
            n.len() <= h.len(),
            at <= last,
            h@ == hay@,
            n@ == needle@,
            forall|k: int| 0 <= k < at ==> !occurs_at(h@, n@, k),
        decreases last - at,
    {
        if matches_at(&h, &n, at) {
            return true;
        }
        at += 1;
    }
    let found = matches_at(&h, &n, last);
    found
}

/// The index of the first line feed in `s`, or the length of `s`.
pub open spec fn line_end(s: Seq<char>) -> nat
    decreases s.len(),
{
    if s.len() > 0 && s[0] != '\n' {
        1 + line_end(s.drop_first())
    } else {
        0
    }
}

/// `s` without one trailing carriage return.
pub open spec fn without_cr(s: Seq<char>) -> Seq<char> {
    if s.len() > 0 && s.last() == '\r' {
        s.drop_last()
    } else {
        s
    }
}

/// The lines of `s`. A line ends at a line feed, which is dropped together
/// with a carriage return just before it. Text after the last line feed is a
/// line of its own and keeps a trailing carriage return.
pub open spec fn lines_of(s: Seq<char>) -> Seq<Seq<char>>
    decreases s.len(),
{
    let end = line_end(s) as int;
    if s.len() == 0 {
        Seq::empty()
    } else if end >= s.len() {
        seq![s]
    } else {
        seq![without_cr(s.take(end))] + lines_of(s.skip(end + 1))
    }
}

/// The view of an optional string.
pub open spec fn opt_view(o: Option<String>) -> Option<Seq<char>> {
    match o {
        Some(s) => Some(s@),
        None => None,
    }
}

/// The views of a vector of strings.
pub open spec fn views(v: Seq<String>) -> Seq<Seq<char>> {
    v.map_values(|s: String| s@)
}

/// A copy of a list of strings.
pub fn clone_strings(v: &Vec<String>) -> (r: Vec<String>)
    ensures
        r@ == v@,
{
    let mut out: Vec<String> = Vec::new();
    let mut i: usize = 0;
    while i < v.len()
        invariant
            i <= v.len(),
            out@ == v@.take(i as int),
        decreases v.len() - i,
    {
        out.push(v[i].clone());
        i += 1;
    }
    out
}

/// A copy of an optional string.
pub fn clone_opt(o: &Option<String>) -> (r: Option<String>)
    ensures
        r == *o,
{
    match o {
        Some(s) => Some(s.clone()),
        None => None,
    }
}

/// Splits a buffer into lines.
pub fn split_lines(buffer: &str) -> (r: Vec<String>)
    ensures
        views(r@) == lines_of(buffer@),
{
    let chars = to_chars(buffer);
    let mut out: Vec<String> = Vec::new();
    let mut start: usize = 0;
    proof {
        assert(chars@.skip(0) =~= chars@);
    }
    while start < chars.len()
        invariant
            start <= chars.len(),
            views(out@) + lines_of(chars@.skip(start as int)) == lines_of(chars@),
        decreases chars.len() - start,
    {
        let mut end: usize = start;
        while end < chars.len() && chars[end] != '\n'
            invariant
                start <= end <= chars.len(),
                end + line_end(chars@.skip(end as int)) == start + line_end(
                    chars@.skip(start as int),
                ),
            decreases chars.len() - end,
        {
            proof {
                assert(chars@.skip(end as int).drop_first() =~= chars@.skip(end + 1));
            }
            end += 1;
        }
        let ghost rest = chars@.skip(start as int);
        if end >= chars.len() {
            let line = string_of(&chars, start, end);
            out.push(line);
            start = end;
        } else {
            let stop: usize = if end > start && chars[end - 1] == '\r' {
                (end - 1) as usize
            } else {
                end
            };
            let line = string_of(&chars, start, stop);
            proof {
                let whole = rest.take(end - start);
                assert(without_cr(whole) =~= chars@.subrange(start as int, stop as int));
                assert(rest.skip(end - start + 1) =~= chars@.skip(end + 1));
            }
            out.push(line);
            start = end + 1;
        }
    }
    out
}

/// Whether `c` is one of the ten ASCII digits.
pub open spec fn is_digit(c: char) -> bool {
    '0' <= c <= '9'
}

/// The number that a sequence of ASCII digits writes in base ten.
pub open spec fn digits_value(s: Seq<char>) -> nat
    decreases s.len(),
{
    if s.len() == 0 {
        0
    } else {
        digits_value(s.drop_last()) * 10 + (s.last() as u32 - '0' as u32) as nat
    }
}

/// Whether every character of `s` is an ASCII digit.
pub open spec fn all_digits(s: Seq<char>) -> bool {
    forall|i: int| 0 <= i < s.len() ==> is_digit(#[trigger] s[i])
}

/// `s` without one leading `+`.
pub open spec fn without_plus(s: Seq<char>) -> Seq<char> {
    if s.len() > 0 && s[0] == '+' {
        s.drop_first()
    } else {
        s
    }
}

/// What parsing `s` as a `u32` gives: an optional `+`, then one or more
/// ASCII digits whose value fits the type.
pub open spec fn parsed_u32(s: Seq<char>) -> Option<u32> {
    let digits = without_plus(s);
    if digits.len() > 0 && all_digits(digits) && digits_value(digits) <= u32::MAX {
        Some(digits_value(digits) as u32)
    } else {
        None
    }
}

proof fn lemma_digits_value_grows(s: Seq<char>, n: int)
    requires
        0 <= n <= s.len(),
    ensures
        digits_value(s.take(n)) <= digits_value(s),
    decreases s.len() - n,
{
    if n < s.len() {
        lemma_digits_value_grows(s, n + 1);
        assert(s.take(n + 1).drop_last() =~= s.take(n));
    } else {
        assert(s.take(n) =~= s);
    }
}

/// Parses a decimal `u32` as the standard library does.
pub fn parse_u32(s: &str) -> (r: Option<u32>)
    ensures
        r == parsed_u32(s@),
{
    let chars = to_chars(s);
    let from: usize = if chars.len() > 0 && chars[0] == '+' {
        1
    } else {
        0
    };
    let ghost digits = chars@.skip(from as int);
    if from >= chars.len() {
        return None;
    }
    let mut value: u32 = 0;
    let mut i: usize = from;
    while i < chars.len()
        invariant
            from <= i <= chars.len(),
            from < chars.len(),
            chars@ == s@,
            digits == chars@.skip(from as int),
            digits == without_plus(s@),
            forall|k: int| 0 <= k < i - from ==> is_digit(#[trigger] digits[k]),
            value == digits_value(digits.take(i - from)),
        decreases chars.len() - i,
    {
        let c = chars[i];
        proof {
            assert(digits.take(i - from + 1).drop_last() =~= digits.take(i - from));
            lemma_digits_value_grows(digits, i - from + 1);
        }
        if c < '0' || c > '9' {
            return None;
        }
        let d: u32 = c as u32 - '0' as u32;
        if value > (u32::MAX - d) / 10 {
            return None;
        }
        value = value * 10 + d;
        i += 1;
    }
    proof {
        assert(digits.take(i - from) =~= digits);
    }
    Some(value)
}

} // verus!
