//! Text as sequences of characters: comparison, prefixes, trimming, splitting
//! and numbers.

use vstd::prelude::*;
use vstd::slice::slice_subrange;
use vstd::string::*;

verus! {

/// `String::push`: appends one character to the end of the string.
pub assume_specification[ String::push ](text: &mut String, c: char)
    ensures
        final(text)@ == old(text)@.push(c),
;

/// The characters with the Unicode property `White_Space`.
pub open spec fn is_white(c: char) -> bool {
    ||| '\u{9}' <= c <= '\u{d}'
    ||| c == ' '
    ||| c == '\u{85}'
    ||| c == '\u{a0}'
    ||| c == '\u{1680}'
    ||| '\u{2000}' <= c <= '\u{200a}'
    ||| '\u{2028}' <= c <= '\u{2029}'
    ||| c == '\u{202f}'
    ||| c == '\u{205f}'
    ||| c == '\u{3000}'
}

/// `char::is_whitespace`: whether the character has the Unicode property
/// `White_Space`.
pub assume_specification[ char::is_whitespace ](c: char) -> (white: bool)
    ensures
        white == is_white(c),
;

/// The characters of the Unicode general category `Cc`.
pub open spec fn is_control_char(c: char) -> bool {
    c <= '\u{1f}' || '\u{7f}' <= c <= '\u{9f}'
}

/// `char::is_control`: whether the character belongs to the general category
/// `Cc`, the control codes.
pub assume_specification[ char::is_control ](c: char) -> (control: bool)
    ensures
        control == is_control_char(c),
;

/// Whether a character has one of the Unicode properties `Alphabetic` and
/// `Numeric`.
pub uninterp spec fn is_alphanumeric_char(c: char) -> bool;

/// `char::is_alphanumeric`: whether the character is alphabetic or numeric by the
/// Unicode tables. It depends on the character alone; among the ASCII characters
/// it holds of the letters and digits.
pub assume_specification[ char::is_alphanumeric ](c: char) -> (alphanumeric: bool)
    ensures
        alphanumeric == is_alphanumeric_char(c),
        c <= '\u{7f}' ==> alphanumeric == ('0' <= c <= '9' || 'A' <= c <= 'Z' || 'a' <= c <= 'z'),
;

/// The ASCII lower case form of a character, itself when it has none.
pub open spec fn ascii_lower(c: char) -> char {
    if 'A' <= c <= 'Z' { (c as u8 + 32) as u8 as char } else { c }
}

/// The ASCII lower case form of every character.
pub open spec fn ascii_lower_all(s: Seq<char>) -> Seq<char> {
    s.map_values(|c: char| ascii_lower(c))
}

pub fn lower_ascii(c: char) -> (lower: char)
    ensures
        lower == ascii_lower(c),
{
    if 'A' <= c && c <= 'Z' { (c as u8 + 32) as u8 as char } else { c }
}

/// The characters of a text.
pub fn chars_of(text: &str) -> (chars: Vec<char>)
    ensures
        chars@ == text@,
{
    let mut chars: Vec<char> = Vec::new();
    for c in it: text.chars()
        invariant
            it.seq() == text@,
            chars@ == text@.take(it.index() as int),
    {
        chars.push(c);
        assert(text@.take(it.index() + 1) =~= text@.take(it.index() as int).push(c));
    }
    assert(text@.take(text@.len() as int) =~= text@);
    chars
}

/// A text of the given characters.
pub fn string_of(chars: &[char]) -> (text: String)
    ensures
        text@ == chars@,
{
    let mut text = String::new();
    let mut i: usize = 0;
    while i < chars.len()
        invariant
            i <= chars@.len(),
            text@ == chars@.take(i as int),
        decreases chars@.len() - i,
    {
        text.push(chars[i]);
        assert(chars@.take(i + 1) =~= chars@.take(i as int).push(chars@[i as int]));
        i = i + 1;
    }
    assert(chars@.take(chars@.len() as int) =~= chars@);
    text
}

/// The characters `start..end` of a sequence as a text.
pub fn string_between(chars: &[char], start: usize, end: usize) -> (text: String)
    requires
        start <= end <= chars@.len(),
    ensures
        text@ == chars@.subrange(start as int, end as int),
{
    string_of(slice_subrange(chars, start, end))
}

/// Whether two texts hold the same characters.
pub fn same(a: &str, b: &str) -> (equal: bool)
    ensures
        equal == (a@ == b@),
{
    let a_chars = chars_of(a);
    let b_chars = chars_of(b);
    if a_chars.len() != b_chars.len() {
        return false;
    }
    let mut i: usize = 0;
    while i < a_chars.len()
        invariant
            i <= a_chars@.len(),
            a_chars@ == a@,
            b_chars@ == b@,
            a@.len() == b@.len(),
            forall|j: int| 0 <= j < i ==> a@[j] == b@[j],
        decreases a_chars@.len() - i,
    {
        if a_chars[i] != b_chars[i] {
            return false;
        }
        i = i + 1;
    }
    assert(a@ =~= b@);
    true
}

/// Whether a text equals one of the given texts.
pub fn is_one_of(text: &str, options: &[&str]) -> (found: bool)
    ensures
        found == (exists|i: int| 0 <= i < options@.len() && (#[trigger] options@[i])@ == text@),
{
    let mut i: usize = 0;
    while i < options.len()
        invariant
            i <= options@.len(),
            forall|j: int| 0 <= j < i ==> (#[trigger] options@[j])@ != text@,
        decreases options@.len() - i,
    {
        if same(text, options[i]) {
            return true;
        }
        i = i + 1;
    }
    false
}

/// Whether `part` stands in `chars` from position `at` on.
pub open spec fn stands_at(chars: Seq<char>, at: int, part: Seq<char>) -> bool {
    &&& 0 <= at
    &&& at + part.len() <= chars.len()
    &&& chars.subrange(at, at + part.len()) == part
}

pub fn holds_at(chars: &[char], at: usize, part: &[char]) -> (holds: bool)
    ensures
        holds == stands_at(chars@, at as int, part@),
{
    if part.len() > chars.len() || at > chars.len() - part.len() {
        return false;
    }
    let mut i: usize = 0;
    while i < part.len()
        invariant
            i <= part@.len(),
            at + part@.len() <= chars@.len() <= usize::MAX,
            forall|j: int| 0 <= j < i ==> chars@[at + j] == part@[j],
        decreases part@.len() - i,
    {
        if chars[at + i] != part[i] {
            assert(chars@.subrange(at as int, at + part@.len())[i as int] == chars@[at + i]);
            return false;
        }
        i = i + 1;
    }
    assert(chars@.subrange(at as int, at + part@.len()) =~= part@);
    true
}

/// What is left of `s` behind its first `n` characters.
pub open spec fn after(s: Seq<char>, n: int) -> Seq<char> {
    s.subrange(n, s.len() as int)
}

/// `s` without `prefix`, where it starts with it.
pub open spec fn without_prefix(s: Seq<char>, prefix: Seq<char>) -> Option<Seq<char>> {
    if stands_at(s, 0, prefix) {
        Some(after(s, prefix.len() as int))
    } else {
        None
    }
}

pub fn starts_with(text: &str, prefix: &str) -> (starts: bool)
    ensures
        starts == stands_at(text@, 0, prefix@),
{
    holds_at(chars_of(text).as_slice(), 0, chars_of(prefix).as_slice())
}

pub fn strip_prefix<'a>(text: &'a str, prefix: &str) -> (rest: Option<&'a str>)
    ensures
        rest is Some == (without_prefix(text@, prefix@) is Some),
        rest is Some ==> rest->0@ == without_prefix(text@, prefix@)->0,
{
    if starts_with(text, prefix) {
        Some(text.substring_char(prefix.unicode_len(), text.unicode_len()))
    } else {
        None
    }
}

/// `s` without the white space that it starts with.
pub open spec fn trimmed_start(s: Seq<char>) -> Seq<char>
    decreases s.len(),
{
    if s.len() > 0 && is_white(s[0]) {
        trimmed_start(after(s, 1))
    } else {
        s
    }
}

/// `s` without the white space that it ends with.
pub open spec fn trimmed_end(s: Seq<char>) -> Seq<char>
    decreases s.len(),
{
    if s.len() > 0 && is_white(s.last()) {
        trimmed_end(s.drop_last())
    } else {
        s
    }
}

/// `s` without white space at either end.
pub open spec fn trimmed(s: Seq<char>) -> Seq<char> {
    trimmed_end(trimmed_start(s))
}

pub fn trim_start<'a>(text: &'a str) -> (rest: &'a str)
    ensures
        rest@ == trimmed_start(text@),
{
    let chars = chars_of(text);
    let mut start: usize = 0;
    assert(after(text@, 0) =~= text@);
    while start < chars.len() && chars[start].is_whitespace()
        invariant
            start <= chars@.len(),
            chars@ == text@,
            trimmed_start(text@) == trimmed_start(after(text@, start as int)),
        decreases chars@.len() - start,
    {
        assert(after(after(text@, start as int), 1) =~= after(text@, start + 1));
        start = start + 1;
    }
    text.substring_char(start, chars.len())
}

pub fn trim_end<'a>(text: &'a str) -> (rest: &'a str)
    ensures
        rest@ == trimmed_end(text@),
{
    let chars = chars_of(text);
    let mut end: usize = chars.len();
    assert(text@.take(text@.len() as int) =~= text@);
    while end > 0 && chars[end - 1].is_whitespace()
        invariant
            end <= chars@.len(),
            chars@ == text@,
            trimmed_end(text@) == trimmed_end(text@.take(end as int)),
        decreases end,
    {
        assert(text@.take(end as int).drop_last() =~= text@.take(end - 1));
        end = end - 1;
    }
    assert(text@.subrange(0, end as int) =~= text@.take(end as int));
    text.substring_char(0, end)
}

pub fn trim<'a>(text: &'a str) -> (rest: &'a str)
    ensures
        rest@ == trimmed(text@),
{
    trim_end(trim_start(text))
}

/// `s` without the copies of `c` that it starts with.
pub open spec fn unwrapped_start(s: Seq<char>, c: char) -> Seq<char>
    decreases s.len(),
{
    if s.len() > 0 && s[0] == c {
        unwrapped_start(after(s, 1), c)
    } else {
        s
    }
}

/// `s` without the copies of `c` that it ends with.
pub open spec fn unwrapped_end(s: Seq<char>, c: char) -> Seq<char>
    decreases s.len(),
{
    if s.len() > 0 && s.last() == c {
        unwrapped_end(s.drop_last(), c)
    } else {
        s
    }
}

/// `text` without the copies of `c` at either end.
pub fn trim_matches<'a>(text: &'a str, c: char) -> (rest: &'a str)
    ensures
        rest@ == unwrapped_end(unwrapped_start(text@, c), c),
{
    let chars = chars_of(text);
    let mut start: usize = 0;
    assert(after(text@, 0) =~= text@);
    while start < chars.len() && chars[start] == c
        invariant
            start <= chars@.len(),
            chars@ == text@,
            unwrapped_start(text@, c) == unwrapped_start(after(text@, start as int), c),
        decreases chars@.len() - start,
    {
        assert(after(after(text@, start as int), 1) =~= after(text@, start + 1));
        start = start + 1;
    }
    let ghost left = unwrapped_start(text@, c);
    assert(left == after(text@, start as int));
    let mut end: usize = chars.len();
    assert(left.take(left.len() as int) =~= left);
    while end > start && chars[end - 1] == c
        invariant
            start <= end <= chars@.len(),
            chars@ == text@,
            left == after(text@, start as int),
            unwrapped_end(left, c) == unwrapped_end(left.take(end - start), c),
        decreases end,
    {
        assert(left.take(end - start).drop_last() =~= left.take(end - 1 - start));
        end = end - 1;
    }
    assert(text@.subrange(start as int, end as int) =~= left.take(end - start));
    text.substring_char(start, end)
}

/// The contents of a list of texts.
pub open spec fn texts(list: Seq<String>) -> Seq<Seq<char>> {
    list.map_values(|text: String| text@)
}

pub broadcast proof fn texts_push(list: Seq<String>, text: String)
    ensures
        #[trigger] texts(list.push(text)) == texts(list).push(text@),
{
    assert(texts(list.push(text)) =~= texts(list).push(text@));
}

/// Position of the first `c` in `s` at or behind `from`, the length of `s` when
/// there is none.
pub open spec fn find_from(s: Seq<char>, c: char, from: int) -> int
    decreases s.len() - from,
{
    if from < 0 || from >= s.len() {
        s.len() as int
    } else if s[from] == c {
        from
    } else {
        find_from(s, c, from + 1)
    }
}

proof fn find_from_bounds(s: Seq<char>, c: char, from: int)
    requires
        0 <= from <= s.len(),
    ensures
        from <= find_from(s, c, from) <= s.len(),
    decreases s.len() - from,
{
    if from < s.len() && s[from] != c {
        find_from_bounds(s, c, from + 1);
    }
}

pub fn position_from(chars: &[char], c: char, from: usize) -> (at: usize)
    requires
        from <= chars@.len(),
    ensures
        at == find_from(chars@, c, from as int),
        from <= at <= chars@.len(),
        at < chars@.len() ==> chars@[at as int] == c,
{
    let mut at: usize = from;
    while at < chars.len() && chars[at] != c
        invariant
            from <= at <= chars@.len(),
            find_from(chars@, c, from as int) == find_from(chars@, c, at as int),
        decreases chars@.len() - at,
    {
        at = at + 1;
    }
    at
}

/// The pieces of `s` between the copies of `c`, from `from` on.
pub open spec fn pieces_from(s: Seq<char>, c: char, from: int) -> Seq<Seq<char>>
    decreases s.len() - from,
    via pieces_from_decreases
{
    if from < 0 || from > s.len() {
        seq![]
    } else {
        let at = find_from(s, c, from);
        if at >= s.len() {
            seq![after(s, from)]
        } else {
            seq![s.subrange(from, at)] + pieces_from(s, c, at + 1)
        }
    }
}

#[via_fn]
proof fn pieces_from_decreases(s: Seq<char>, c: char, from: int) {
    if 0 <= from <= s.len() {
        find_from_bounds(s, c, from);
    }
}

/// The pieces of `s` between the copies of `c`.
pub open spec fn pieces(s: Seq<char>, c: char) -> Seq<Seq<char>> {
    pieces_from(s, c, 0)
}

pub fn split(text: &str, c: char) -> (parts: Vec<String>)
    ensures
        texts(parts@) == pieces(text@, c),
        parts@.len() > 0,
{
    broadcast use texts_push;

    let chars = chars_of(text);
    let mut parts: Vec<String> = Vec::new();
    let mut from: usize = 0;
    assert(texts(parts@) + pieces_from(text@, c, 0) =~= pieces(text@, c));
    loop
        invariant
            chars@ == text@,
            from <= chars@.len(),
            texts(parts@) + pieces_from(text@, c, from as int) == pieces(text@, c),
        decreases chars@.len() - from,
    {
        let at: usize = position_from(chars.as_slice(), c, from);
        let ghost done = texts(parts@);
        parts.push(string_between(chars.as_slice(), from, at));
        if at == chars.len() {
            assert(done + seq![after(text@, from as int)] =~= done.push(after(text@, from as int)));
            return parts;
        }
        proof {
            let piece = text@.subrange(from as int, at as int);
            let rest = pieces_from(text@, c, at + 1);
            assert(done + (seq![piece] + rest) =~= done.push(piece) + rest);
        }
        from = at + 1;
    }
}

/// `s` without a carriage return at its end.
pub open spec fn without_return(s: Seq<char>) -> Seq<char> {
    if s.len() > 0 && s.last() == '\r' { s.drop_last() } else { s }
}

/// The lines of `s` from `from` on. A line ends at a line feed, or at a carriage
/// return and a line feed; the last line needs no end.
pub open spec fn lines_from(s: Seq<char>, from: int) -> Seq<Seq<char>>
    decreases s.len() - from,
    via lines_from_decreases
{
    if from < 0 || from >= s.len() {
        seq![]
    } else {
        let at = find_from(s, '\n', from);
        if at >= s.len() {
            seq![after(s, from)]
        } else {
            seq![without_return(s.subrange(from, at))] + lines_from(s, at + 1)
        }
    }
}

#[via_fn]
proof fn lines_from_decreases(s: Seq<char>, from: int) {
    if 0 <= from <= s.len() {
        find_from_bounds(s, '\n', from);
    }
}

/// The lines of `s`.
pub open spec fn lines_of(s: Seq<char>) -> Seq<Seq<char>> {
    lines_from(s, 0)
}

pub fn lines(text: &str) -> (lines: Vec<String>)
    ensures
        texts(lines@) == lines_of(text@),
{
    broadcast use texts_push;

    let chars = chars_of(text);
    let mut lines: Vec<String> = Vec::new();
    let mut from: usize = 0;
    assert(texts(lines@) + lines_from(text@, 0) =~= lines_of(text@));
    while from < chars.len()
        invariant
            chars@ == text@,
            from <= chars@.len(),
            texts(lines@) + lines_from(text@, from as int) == lines_of(text@),
        decreases chars@.len() - from,
    {
        let at: usize = position_from(chars.as_slice(), '\n', from);
        let ghost done = texts(lines@);
        if at == chars.len() {
            lines.push(string_between(chars.as_slice(), from, at));
            assert(done + seq![after(text@, from as int)] =~= done.push(after(text@, from as int)));
            return lines;
        }
        let end: usize = if at > from && chars[at - 1] == '\r' { at - 1 } else { at };
        lines.push(string_between(chars.as_slice(), from, end));
        proof {
            let line = without_return(text@.subrange(from as int, at as int));
            let rest = lines_from(text@, at + 1);
            assert(line =~= text@.subrange(from as int, end as int));
            assert(done + (seq![line] + rest) =~= done.push(line) + rest);
        }
        from = at + 1;
    }
    assert(texts(lines@) + lines_from(text@, from as int) =~= texts(lines@));
    lines
}

/// Position of the first character at or behind `from` that is white space
/// exactly when `white` holds, the length of `s` when there is none.
pub open spec fn white_from(s: Seq<char>, white: bool, from: int) -> int
    decreases s.len() - from,
{
    if from < 0 || from >= s.len() {
        s.len() as int
    } else if is_white(s[from]) == white {
        from
    } else {
        white_from(s, white, from + 1)
    }
}

pub proof fn white_from_bounds(s: Seq<char>, white: bool, from: int)
    requires
        0 <= from <= s.len(),
    ensures
        from <= white_from(s, white, from) <= s.len(),
        white_from(s, white, from) < s.len() ==> is_white(s[white_from(s, white, from)]) == white,
    decreases s.len() - from,
{
    if from < s.len() && is_white(s[from]) != white {
        white_from_bounds(s, white, from + 1);
    }
}

pub fn white_position(chars: &[char], white: bool, from: usize) -> (at: usize)
    requires
        from <= chars@.len(),
    ensures
        at == white_from(chars@, white, from as int),
        from <= at <= chars@.len(),
        at < chars@.len() ==> is_white(chars@[at as int]) == white,
{
    let mut at: usize = from;
    while at < chars.len() && chars[at].is_whitespace() != white
        invariant
            from <= at <= chars@.len(),
            white_from(chars@, white, from as int) == white_from(chars@, white, at as int),
        decreases chars@.len() - at,
    {
        at = at + 1;
    }
    at
}

/// The maximal runs of characters that are not white space, from `from` on.
pub open spec fn words_from(s: Seq<char>, from: int) -> Seq<Seq<char>>
    decreases s.len() - from,
    via words_from_decreases
{
    if from < 0 || from > s.len() {
        seq![]
    } else {
        let start = white_from(s, false, from);
        if start >= s.len() {
            seq![]
        } else {
            let end = white_from(s, true, start);
            seq![s.subrange(start, end)] + words_from(s, end)
        }
    }
}

#[via_fn]
proof fn words_from_decreases(s: Seq<char>, from: int) {
    if 0 <= from <= s.len() {
        white_from_bounds(s, false, from);
        let start = white_from(s, false, from);
        white_from_bounds(s, true, start);
    }
}

/// The words of `s`: its maximal runs of characters that are not white space.
pub open spec fn words_of(s: Seq<char>) -> Seq<Seq<char>> {
    words_from(s, 0)
}

pub fn words(text: &str) -> (words: Vec<String>)
    ensures
        texts(words@) == words_of(text@),
{
    broadcast use texts_push;

    let chars = chars_of(text);
    let mut words: Vec<String> = Vec::new();
    let mut from: usize = 0;
    assert(texts(words@) + words_from(text@, 0) =~= words_of(text@));
    loop
        invariant
            chars@ == text@,
            from <= chars@.len(),
            texts(words@) + words_from(text@, from as int) == words_of(text@),
        decreases chars@.len() - from,
    {
        let start: usize = white_position(chars.as_slice(), false, from);
        if start == chars.len() {
            assert(texts(words@) + words_from(text@, from as int) =~= texts(words@));
            return words;
        }
        let end: usize = white_position(chars.as_slice(), true, start);
        let ghost done = texts(words@);
        words.push(string_between(chars.as_slice(), start, end));
        proof {
            let word = text@.subrange(start as int, end as int);
            let rest = words_from(text@, end as int);
            assert(done + (seq![word] + rest) =~= done.push(word) + rest);
        }
        from = end;
    }
}

/// The decimal digit of value `d`.
pub open spec fn digit(d: nat) -> char {
    (48 + d) as u8 as char
}

/// The decimal digits of `n`, without leading zeros.
pub open spec fn decimal(n: nat) -> Seq<char>
    decreases n,
{
    if n < 10 {
        seq![digit(n)]
    } else {
        decimal(n / 10).push(digit(n % 10))
    }
}

pub fn decimal_of(n: u64) -> (text: String)
    ensures
        text@ == decimal(n as nat),
    decreases n,
{
    if n < 10 {
        let mut text = String::new();
        text.push((48 + n as u8) as char);
        assert(text@ =~= decimal(n as nat));
        text
    } else {
        let mut text = decimal_of(n / 10);
        text.push((48 + (n % 10) as u8) as char);
        text
    }
}

pub open spec fn is_digit(c: char) -> bool {
    '0' <= c <= '9'
}

/// The number that a sequence of decimal digits stands for.
pub open spec fn digits_value(s: Seq<char>) -> nat
    decreases s.len(),
{
    if s.len() == 0 {
        0
    } else {
        digits_value(s.drop_last()) * 10 + (s.last() as nat - 48) as nat
    }
}

pub open spec fn all_digits(s: Seq<char>) -> bool {
    forall|i: int| 0 <= i < s.len() ==> is_digit(#[trigger] s[i])
}

/// `s` without a plus sign at its start.
pub open spec fn without_plus(s: Seq<char>) -> Seq<char> {
    if s.len() > 0 && s[0] == '+' { after(s, 1) } else { s }
}

/// The number that `s` stands for: one or more decimal digits, perhaps behind a
/// plus sign, with a value of at most 32 bits.
pub open spec fn parsed_u32(s: Seq<char>) -> Option<u32> {
    let digits = without_plus(s);
    if digits.len() > 0 && all_digits(digits) && digits_value(digits) <= u32::MAX {
        Some(digits_value(digits) as u32)
    } else {
        None
    }
}

proof fn digits_value_grows(s: Seq<char>, n: int)
    requires
        0 <= n <= s.len(),
    ensures
        digits_value(s.take(n)) <= digits_value(s),
    decreases s.len() - n,
{
    if n < s.len() {
        digits_value_grows(s, n + 1);
        assert(s.take(n + 1).drop_last() =~= s.take(n));
    } else {
        assert(s.take(n) =~= s);
    }
}

pub fn parse_u32(text: &str) -> (number: Option<u32>)
    ensures
        number == parsed_u32(text@),
{
    let chars = chars_of(text);
    let start: usize = if chars.len() > 0 && chars[0] == '+' { 1 } else { 0 };
    let ghost digits = without_plus(text@);
    assert(digits =~= after(text@, start as int));
    if start == chars.len() {
        return None;
    }
    let mut value: u64 = 0;
    let mut i: usize = start;
    assert(digits.take(0) =~= seq![]);
    while i < chars.len()
        invariant
            start <= i <= chars@.len(),
            chars@ == text@,
            digits == after(text@, start as int),
            digits == without_plus(text@),
            forall|j: int| 0 <= j < i - start ==> is_digit(#[trigger] digits[j]),
            value == digits_value(digits.take(i - start)),
            value <= u32::MAX,
        decreases chars@.len() - i,
    {
        let c = chars[i];
        assert(digits[i - start] == c);
        if !('0' <= c && c <= '9') {
            return None;
        }
        assert(digits.take(i - start + 1).drop_last() =~= digits.take(i - start));
        value = value * 10 + (c as u64 - 48);
        i = i + 1;
        if value > u32::MAX as u64 {
            proof {
                digits_value_grows(digits, i - start);
            }
            return None;
        }
    }
    assert(digits.take(digits.len() as int) =~= digits);
    Some(value as u32)
}

/// Two texts, one behind the other.
pub fn cat2(a: &str, b: &str) -> (text: String)
    ensures
        text@ == a@ + b@,
{
    let mut text = a.to_owned();
    text.append(b);
    text
}

pub fn cat3(a: &str, b: &str, c: &str) -> (text: String)
    ensures
        text@ == a@ + b@ + c@,
{
    let mut text = cat2(a, b);
    text.append(c);
    text
}

pub fn cat4(a: &str, b: &str, c: &str, d: &str) -> (text: String)
    ensures
        text@ == a@ + b@ + c@ + d@,
{
    let mut text = cat3(a, b, c);
    text.append(d);
    text
}

pub fn cat5(a: &str, b: &str, c: &str, d: &str, e: &str) -> (text: String)
    ensures
        text@ == a@ + b@ + c@ + d@ + e@,
{
    let mut text = cat4(a, b, c, d);
    text.append(e);
    text
}


/// The decimal digits of `n` behind a minus sign where it is negative.
pub open spec fn signed_decimal(n: int) -> Seq<char> {
    if n < 0 { "-"@ + decimal((-n) as nat) } else { decimal(n as nat) }
}

pub fn signed_decimal_of(n: i32) -> (text: String)
    ensures
        text@ == signed_decimal(n as int),
{
    if n < 0 {
        let magnitude: i64 = -(n as i64);
        cat2("-", decimal_of(magnitude as u64).as_str())
    } else {
        decimal_of(n as u64)
    }
}

/// The last piece of a path that names something: neither empty nor a dot.
pub open spec fn last_named(parts: Seq<Seq<char>>, n: int) -> Option<Seq<char>>
    decreases n,
{
    if n <= 0 {
        None
    } else if parts[n - 1].len() == 0 || parts[n - 1] == "."@ {
        last_named(parts, n - 1)
    } else {
        Some(parts[n - 1])
    }
}

/// The file name of a path with `/` between its parts, if it ends in one.
pub open spec fn file_name_of(path: Seq<char>) -> Option<Seq<char>> {
    let parts = pieces(path, '/');
    match last_named(parts, parts.len() as int) {
        Some(name) => if name == ".."@ { None } else { Some(name) },
        None => None,
    }
}

pub fn file_name(path: &str) -> (name: Option<String>)
    ensures
        match name {
            Some(text) => file_name_of(path@) == Some(text@),
            None => file_name_of(path@) is None,
        },
{
    let parts = split(path, '/');
    let ghost views = texts(parts@);
    let mut n: usize = parts.len();
    while n > 0
        invariant
            n <= parts@.len(),
            views == texts(parts@),
            views == pieces(path@, '/'),
            last_named(views, views.len() as int) == last_named(views, n as int),
        decreases n,
    {
        let part = parts[n - 1].as_str();
        assert(views[n - 1] == part@);
        if !part.is_empty() && !same(part, ".") {
            if same(part, "..") {
                return None;
            }
            return Some(part.to_owned());
        }
        n = n - 1;
    }
    None
}

/// A relative path behind a directory.
pub open spec fn joined_path(dir: Seq<char>, rest: Seq<char>) -> Seq<char> {
    if dir.len() == 0 || dir.last() == '/' { dir + rest } else { dir + "/"@ + rest }
}

pub fn join_path(dir: &str, rest: &str) -> (path: String)
    ensures
        path@ == joined_path(dir@, rest@),
{
    let count: usize = dir.unicode_len();
    if count == 0 || dir.get_char(count - 1) == '/' {
        cat2(dir, rest)
    } else {
        cat3(dir, "/", rest)
    }
}


/// A run of spaces.
pub open spec fn spaces(n: int) -> Seq<char> {
    Seq::new(if n > 0 { n as nat } else { 0 }, |i: int| ' ')
}

pub fn push_spaces(text: &mut String, count: usize)
    ensures
        final(text)@ == old(text)@ + spaces(count as int),
{
    let ghost before = text@;
    let mut i: usize = 0;
    assert(before + spaces(0) =~= before);
    while i < count
        invariant
            i <= count,
            text@ == before + spaces(i as int),
        decreases count - i,
    {
        text.push(' ');
        i = i + 1;
        assert(text@ =~= before + spaces(i as int));
    }
}

pub fn spaces_of(count: usize) -> (text: String)
    ensures
        text@ == spaces(count as int),
{
    let mut text = String::new();
    push_spaces(&mut text, count);
    assert(text@ =~= spaces(count as int));
    text
}

/// The last piece of a path: what stands behind its last `/`.
pub open spec fn base_name(path: Seq<char>) -> Seq<char> {
    pieces(path, '/').last()
}

pub fn basename(path: &str) -> (name: String)
    ensures
        name@ == base_name(path@),
{
    let mut parts = split(path, '/');
    let ghost views = texts(parts@);
    let last = parts.len() - 1;
    assert(views[views.len() - 1] == parts@[last as int]@);
    parts.swap_remove(last)
}

pub fn lower_ascii_text(text: &str) -> (lower: String)
    ensures
        lower@ == ascii_lower_all(text@),
{
    let chars = chars_of(text);
    let mut lower = String::new();
    let mut i: usize = 0;
    assert(lower@ =~= ascii_lower_all(text@.take(0)));
    while i < chars.len()
        invariant
            i <= chars@.len(),
            chars@ == text@,
            lower@ == ascii_lower_all(text@.take(i as int)),
        decreases chars@.len() - i,
    {
        let c = lower_ascii(chars[i]);
        let ghost before = lower@;
        lower.push(c);
        assert(ascii_lower_all(text@.take(i + 1)) =~= before.push(ascii_lower(text@[i as int])));
        i = i + 1;
    }
    assert(text@.take(text@.len() as int) =~= text@);
    lower
}

/// What stands behind the last dot of a name, if it has one.
pub open spec fn extension_of(name: Seq<char>) -> Option<Seq<char>> {
    let parts = pieces(name, '.');
    if parts.len() > 1 { Some(parts.last()) } else { None }
}

pub fn extension(name: &str) -> (extension: Option<String>)
    ensures
        match extension {
            Some(text) => extension_of(name@) == Some(text@),
            None => extension_of(name@) is None,
        },
{
    let mut parts = split(name, '.');
    let ghost views = texts(parts@);
    assert(views.len() == parts@.len());
    if parts.len() < 2 {
        return None;
    }
    let last = parts.len() - 1;
    assert(views[views.len() - 1] == parts@[last as int]@);
    Some(parts.swap_remove(last))
}

/// A character that a text does not hold is not found in it.
pub proof fn absent_is_not_found(s: Seq<char>, c: char, from: int)
    requires
        0 <= from <= s.len(),
        forall|i: int| from <= i < s.len() ==> #[trigger] s[i] != c,
    ensures
        find_from(s, c, from) == s.len(),
    decreases s.len() - from,
{
    if from < s.len() {
        absent_is_not_found(s, c, from + 1);
    }
}

/// The first occurrence of a character is found.
pub proof fn first_is_found(s: Seq<char>, c: char, from: int, at: int)
    requires
        0 <= from <= at < s.len(),
        s[at] == c,
        forall|i: int| from <= i < at ==> #[trigger] s[i] != c,
    ensures
        find_from(s, c, from) == at,
    decreases at - from,
{
    if from < at {
        first_is_found(s, c, from + 1, at);
    }
}

/// A text without a separator is one piece, and two such texts around one are two.
pub proof fn pieces_of_one_or_two(a: Seq<char>, b: Seq<char>, c: char)
    requires
        !a.contains(c),
        !b.contains(c),
    ensures
        pieces(a, c) == seq![a],
        pieces(a.push(c) + b, c) == seq![a, b],
{
    assert forall|i: int| 0 <= i < a.len() implies #[trigger] a[i] != c by {
        if a[i] == c {
            assert(a.contains(c));
        }
    }
    assert forall|i: int| 0 <= i < b.len() implies #[trigger] b[i] != c by {
        if b[i] == c {
            assert(b.contains(c));
        }
    }
    absent_is_not_found(a, c, 0);
    assert(after(a, 0) =~= a);
    let both = a.push(c) + b;
    let at = a.len() as int;
    assert forall|i: int| 0 <= i < at implies #[trigger] both[i] != c by {
        assert(both[i] == a[i]);
    }
    assert(both[at] == c);
    first_is_found(both, c, 0, at);
    assert(both.subrange(0, at) =~= a);
    assert forall|i: int| at + 1 <= i < both.len() implies #[trigger] both[i] != c by {
        assert(both[i] == b[i - at - 1]);
    }
    absent_is_not_found(both, c, at + 1);
    assert(after(both, at + 1) =~= b);
    assert(pieces_from(both, c, at + 1) == seq![b]);
    assert(seq![a] + seq![b] =~= seq![a, b]);
}

/// A written number consists of digits, and their value is the number.
pub proof fn decimal_is_its_number(n: nat)
    ensures
        decimal(n).len() > 0,
        all_digits(decimal(n)),
        digits_value(decimal(n)) == n,
    decreases n,
{
    reveal_with_fuel(digits_value, 2);
    if n < 10 {
        assert(decimal(n).drop_last() =~= seq![]);
        assert(digit(n) as int == 48 + n);
    } else {
        decimal_is_its_number(n / 10);
        let before = decimal(n / 10);
        assert(decimal(n).drop_last() =~= before);
        assert(digit(n % 10) as int == 48 + n % 10);
        assert forall|i: int| 0 <= i < decimal(n).len() implies is_digit(
            #[trigger] decimal(n)[i],
        ) by {
            if i < before.len() {
                assert(decimal(n)[i] == before[i]);
            }
        }
    }
}

/// A written number is read as the number.
pub proof fn written_number_is_read(n: u32)
    ensures
        parsed_u32(decimal(n as nat)) == Some(n),
        !decimal(n as nat).contains(','),
{
    decimal_is_its_number(n as nat);
    let text = decimal(n as nat);
    assert(is_digit(text[0]));
    if text.contains(',') {
        let i = choose|i: int| 0 <= i < text.len() && text[i] == ',';
        assert(is_digit(text[i]));
    }
}

proof fn found_behind(a: Seq<char>, b: Seq<char>, c: char, from: int)
    requires
        0 <= from <= b.len(),
    ensures
        find_from(a + b, c, a.len() + from) == a.len() + find_from(b, c, from),
    decreases b.len() - from,
{
    if from < b.len() {
        assert((a + b)[a.len() + from] == b[from]);
        found_behind(a, b, c, from + 1);
    }
}

proof fn found_from_on(s: Seq<char>, c: char, from: int)
    requires
        0 <= from <= s.len(),
    ensures
        from <= find_from(s, c, from) <= s.len(),
        find_from(s, c, from) < s.len() ==> s[find_from(s, c, from)] == c,
    decreases s.len() - from,
{
    if from < s.len() {
        found_from_on(s, c, from + 1);
    }
}

proof fn lines_behind(a: Seq<char>, b: Seq<char>, from: int)
    requires
        0 <= from <= b.len(),
    ensures
        lines_from(a + b, a.len() + from) == lines_from(b, from),
    decreases b.len() - from,
{
    let both = a + b;
    if from < b.len() {
        found_behind(a, b, '\n', from);
        found_from_on(b, '\n', from);
        let at = find_from(b, '\n', from);
        if at < b.len() {
            assert(both.subrange(a.len() + from, a.len() + at) =~= b.subrange(from, at));
            lines_behind(a, b, at + 1);
        } else {
            assert(after(both, a.len() + from) =~= after(b, from));
        }
    }
}

proof fn found_before(a: Seq<char>, b: Seq<char>, c: char, from: int)
    requires
        0 <= from < a.len(),
        a.last() == c,
    ensures
        find_from(a + b, c, from) == find_from(a, c, from) < a.len(),
    decreases a.len() - from,
{
    assert((a + b)[from] == a[from]);
    if a[from] != c {
        found_before(a, b, c, from + 1);
    }
}

proof fn lines_before(a: Seq<char>, b: Seq<char>, from: int)
    requires
        0 <= from <= a.len(),
        a.len() == 0 || a.last() == '\n',
    ensures
        lines_from(a + b, from) == lines_from(a, from) + lines_from(b, 0),
    decreases a.len() - from,
{
    let both = a + b;
    if from == a.len() {
        lines_behind(a, b, 0);
        assert(lines_from(a, from) =~= seq![]);
        assert(seq![] + lines_from(b, 0) =~= lines_from(b, 0));
    } else {
        found_before(a, b, '\n', from);
        found_from_on(a, '\n', from);
        let at = find_from(a, '\n', from);
        assert(both.subrange(from, at) =~= a.subrange(from, at));
        lines_before(a, b, at + 1);
        assert(lines_from(both, from) =~= lines_from(a, from) + lines_from(b, 0));
    }
}

/// The lines of two texts, one behind the other, are the lines of the first and then
/// those of the second, where the first ends its last line.
pub proof fn lines_of_both(a: Seq<char>, b: Seq<char>)
    requires
        a.len() == 0 || a.last() == '\n',
    ensures
        lines_of(a + b) == lines_of(a) + lines_of(b),
{
    lines_before(a, b, 0);
}

/// No position of the looked-for kind stands before the one that is found.
pub proof fn first_white_is_first(s: Seq<char>, white: bool, from: int, at: int)
    requires
        0 <= from <= at < s.len(),
        is_white(s[at]) == white,
    ensures
        white_from(s, white, from) <= at,
    decreases at - from,
{
    if from < at {
        first_white_is_first(s, white, from + 1, at);
    }
}

/// A text that neither starts nor ends with white space is trimmed already.
pub proof fn nothing_to_trim(s: Seq<char>)
    requires
        s.len() > 0,
        !is_white(s[0]),
        !is_white(s.last()),
    ensures
        trimmed(s) == s,
{
}

} // verus!
