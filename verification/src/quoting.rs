//! Paths as Git writes them in patches: between quotes, with escapes, where a path holds
//! quotes, backslashes, control characters or anything outside ASCII.

use vstd::prelude::*;
use vstd::string::*;
use vstd::utf8::*;

use crate::process::{lossy_text, text_from_utf8_lossy};
use crate::text::{
    chars_of, first_white_is_first, is_white, white_from, white_from_bounds, white_position,
    words_from, words_of,
};

verus! {

/// The byte that a character stands for behind a backslash.
pub open spec fn escaped_byte(c: char) -> Option<u8> {
    if c == 'a' {
        Some(7u8)
    } else if c == 'b' {
        Some(8u8)
    } else if c == 't' {
        Some(9u8)
    } else if c == 'n' {
        Some(10u8)
    } else if c == 'v' {
        Some(11u8)
    } else if c == 'f' {
        Some(12u8)
    } else if c == 'r' {
        Some(13u8)
    } else if c == '"' {
        Some(34u8)
    } else if c == '\\' {
        Some(92u8)
    } else {
        None
    }
}

pub open spec fn is_octal(c: char) -> bool {
    '0' <= c <= '7'
}

/// The byte of three octal digits.
pub open spec fn octal_byte(a: char, b: char, c: char) -> Option<u8> {
    if '0' <= a <= '3' && is_octal(b) && is_octal(c) {
        Some(((a as int - 48) * 64 + (b as int - 48) * 8 + (c as int - 48)) as u8)
    } else {
        None
    }
}

/// Bytes with others before them, where there are any to be read.
pub open spec fn behind(bytes: Seq<u8>, rest: Option<(Seq<u8>, int)>) -> Option<(Seq<u8>, int)> {
    match rest {
        Some((more, end)) => Some((bytes + more, end)),
        None => None,
    }
}

/// The bytes up to the closing quote, and the position behind it; `None` where a quote
/// or the rest of an escape is missing.
pub open spec fn quoted_bytes(s: Seq<char>, from: int) -> Option<(Seq<u8>, int)>
    decreases s.len() - from,
{
    if from < 0 || from >= s.len() {
        None
    } else if s[from] == '"' {
        Some((seq![], from + 1))
    } else if s[from] != '\\' {
        behind(encode_utf8(seq![s[from]]), quoted_bytes(s, from + 1))
    } else if from + 1 >= s.len() {
        None
    } else if let Some(byte) = escaped_byte(s[from + 1]) {
        behind(seq![byte], quoted_bytes(s, from + 2))
    } else if from + 3 >= s.len() {
        None
    } else if let Some(byte) = octal_byte(s[from + 1], s[from + 2], s[from + 3]) {
        behind(seq![byte], quoted_bytes(s, from + 4))
    } else {
        None
    }
}

/// The text of some bytes, with replacements for what is not UTF-8.
pub open spec fn bytes_text(bytes: Seq<u8>) -> Seq<char> {
    if valid_utf8(bytes) { decode_utf8(bytes) } else { lossy_text(bytes) }
}

/// The path between quotes, `None` where a text is not a path between quotes.
pub open spec fn unquoted(s: Seq<char>) -> Option<Seq<char>> {
    if s.len() > 0 && s[0] == '"' {
        match quoted_bytes(s, 1) {
            Some((bytes, end)) => if end == s.len() { Some(bytes_text(bytes)) } else { None },
            None => None,
        }
    } else {
        None
    }
}

/// A path without the quotes that it may stand between.
pub open spec fn plain_path(s: Seq<char>) -> Seq<char> {
    match unquoted(s) {
        Some(path) => path,
        None => s,
    }
}

/// The end of the word that starts at a position: behind its closing quote where it is
/// quoted and nothing but white space follows the quote, else at the next white space.
pub open spec fn word_end(s: Seq<char>, start: int) -> int {
    let quoted = if s[start] == '"' { quoted_bytes(s, start + 1) } else { None };
    match quoted {
        Some((_, end)) => if end == s.len() || is_white(s[end]) {
            end
        } else {
            white_from(s, true, start)
        },
        None => white_from(s, true, start),
    }
}

/// The first word from a position on, and the position behind it.
pub open spec fn quoted_word(s: Seq<char>, from: int) -> Option<(Seq<char>, int)> {
    let start = white_from(s, false, from);
    if start >= s.len() {
        None
    } else {
        Some((s.subrange(start, word_end(s, start)), word_end(s, start)))
    }
}

/// The first two words of a text, each whole where it is quoted.
pub open spec fn two_quoted_words(s: Seq<char>) -> Option<(Seq<char>, Seq<char>)> {
    match quoted_word(s, 0) {
        Some((first, end)) => match quoted_word(s, end) {
            Some((second, _)) => Some((first, second)),
            None => None,
        },
        None => None,
    }
}

/// Whether Git does not write a byte as it is.
pub open spec fn is_special(byte: u8) -> bool {
    byte < 0x20 || byte >= 0x7f || byte == 34 || byte == 92
}

pub open spec fn octal_digit(value: int) -> char {
    (48 + value) as u8 as char
}

/// A byte between quotes.
pub open spec fn written_byte(byte: u8) -> Seq<char> {
    if byte == 7 {
        seq!['\\', 'a']
    } else if byte == 8 {
        seq!['\\', 'b']
    } else if byte == 9 {
        seq!['\\', 't']
    } else if byte == 10 {
        seq!['\\', 'n']
    } else if byte == 11 {
        seq!['\\', 'v']
    } else if byte == 12 {
        seq!['\\', 'f']
    } else if byte == 13 {
        seq!['\\', 'r']
    } else if byte == 34 {
        seq!['\\', '"']
    } else if byte == 92 {
        seq!['\\', '\\']
    } else if is_special(byte) {
        seq![
            '\\',
            octal_digit(byte as int / 64),
            octal_digit(byte as int / 8 % 8),
            octal_digit(byte as int % 8),
        ]
    } else {
        seq![byte as char]
    }
}

/// The bytes from a position on between quotes.
pub open spec fn written_from(bytes: Seq<u8>, from: int) -> Seq<char>
    decreases bytes.len() - from,
{
    if from < 0 || from >= bytes.len() {
        seq![]
    } else {
        written_byte(bytes[from]) + written_from(bytes, from + 1)
    }
}

/// Whether Git writes a path between quotes.
pub open spec fn needs_quotes(path: Seq<char>) -> bool {
    exists|i: int| 0 <= i < encode_utf8(path).len() && is_special(#[trigger] encode_utf8(path)[i])
}

/// A path as Git writes it.
pub open spec fn quoted_path(path: Seq<char>) -> Seq<char> {
    if needs_quotes(path) {
        seq!['"'] + written_from(encode_utf8(path), 0) + seq!['"']
    } else {
        path
    }
}

fn escape_byte(c: char) -> (byte: Option<u8>)
    ensures
        byte == escaped_byte(c),
{
    match c {
        'a' => Some(7),
        'b' => Some(8),
        't' => Some(9),
        'n' => Some(10),
        'v' => Some(11),
        'f' => Some(12),
        'r' => Some(13),
        '"' => Some(34),
        '\\' => Some(92),
        _ => None,
    }
}

fn octal_escape(a: char, b: char, c: char) -> (byte: Option<u8>)
    ensures
        byte == octal_byte(a, b, c),
{
    if '0' <= a && a <= '3' && '0' <= b && b <= '7' && '0' <= c && c <= '7' {
        let high: u8 = (a as u8 - 48) * 64;
        let middle: u8 = (b as u8 - 48) * 8;
        Some(high + middle + (c as u8 - 48))
    } else {
        None
    }
}

fn char_bytes(c: char) -> (bytes: Vec<u8>)
    ensures
        bytes@ == encode_utf8(seq![c]),
{
    let mut text = String::new();
    text.push(c);
    assert(text@ =~= seq![c]);
    text.as_str().as_bytes_vec()
}

/// Reads the bytes up to the closing quote.
pub fn read_quoted(chars: &[char], from: usize) -> (read: Option<(Vec<u8>, usize)>)
    ensures
        match read {
            Some((bytes, end)) => quoted_bytes(chars@, from as int) == Some((bytes@, end as int))
                && end <= chars@.len(),
            None => quoted_bytes(chars@, from as int) is None,
        },
{
    let ghost s = chars@;
    let mut bytes: Vec<u8> = Vec::new();
    let mut i: usize = from;
    proof {
        if let Some((more, end)) = quoted_bytes(s, i as int) {
            assert(bytes@ + more =~= more);
        }
    }
    while i < chars.len()
        invariant
            s == chars@,
            quoted_bytes(s, from as int) == behind(bytes@, quoted_bytes(s, i as int)),
        decreases chars@.len() - i,
    {
        let ghost before = bytes@;
        let c = chars[i];
        if c == '"' {
            assert(before + Seq::<u8>::empty() =~= before);
            return Some((bytes, i + 1));
        }
        let step: usize;
        if c != '\\' {
            let mut more = char_bytes(c);
            bytes.append(&mut more);
            step = 1;
            assert(bytes@ == before + encode_utf8(seq![c]));
        } else {
            if chars.len() - i <= 1 {
                return None;
            }
            match escape_byte(chars[i + 1]) {
                Some(byte) => {
                    bytes.push(byte);
                    step = 2;
                    assert(bytes@ =~= before + seq![byte]);
                },
                None => {
                    if chars.len() - i <= 3 {
                        return None;
                    }
                    match octal_escape(chars[i + 1], chars[i + 2], chars[i + 3]) {
                        Some(byte) => {
                            bytes.push(byte);
                            step = 4;
                            assert(bytes@ =~= before + seq![byte]);
                        },
                        None => {
                            return None;
                        },
                    }
                },
            }
        }
        proof {
            let added = bytes@.skip(before.len() as int);
            assert(bytes@ =~= before + added);
            assert(quoted_bytes(s, i as int) == behind(added, quoted_bytes(s, i + step)));
            if let Some((more, end)) = quoted_bytes(s, i + step) {
                assert(before + (added + more) =~= bytes@ + more);
            }
        }
        i = i + step;
    }
    None
}

/// The path between quotes, if a text is one.
pub fn unquote(text: &str) -> (path: Option<String>)
    ensures
        match path {
            Some(found) => unquoted(text@) == Some(found@),
            None => unquoted(text@) is None,
        },
{
    let chars = chars_of(text);
    if chars.len() == 0 || chars[0] != '"' {
        return None;
    }
    match read_quoted(chars.as_slice(), 1) {
        Some((bytes, end)) => {
            if end == chars.len() {
                Some(text_from_utf8_lossy(bytes.as_slice()))
            } else {
                None
            }
        },
        None => None,
    }
}

/// A path without the quotes that it may stand between.
pub fn path_without_quotes(text: &str) -> (path: String)
    ensures
        path@ == plain_path(text@),
{
    match unquote(text) {
        Some(path) => path,
        None => text.to_owned(),
    }
}

fn push_written_byte(text: &mut String, byte: u8)
    ensures
        final(text)@ == old(text)@ + written_byte(byte),
{
    let ghost before = text@;
    if !(byte < 0x20 || byte >= 0x7f || byte == 34 || byte == 92) {
        text.push(byte as char);
        assert(text@ =~= before + written_byte(byte));
        return;
    }
    text.push('\\');
    let letter = match byte {
        7 => 'a',
        8 => 'b',
        9 => 't',
        10 => 'n',
        11 => 'v',
        12 => 'f',
        13 => 'r',
        34 => '"',
        92 => '\\',
        _ => {
            text.push((48 + byte / 64) as char);
            text.push((48 + byte / 8 % 8) as char);
            text.push((48 + byte % 8) as char);
            assert(text@ =~= before + written_byte(byte));
            return;
        },
    };
    text.push(letter);
    assert(text@ =~= before + written_byte(byte));
}

/// A path as Git writes it.
pub fn quote_path(path: &str) -> (text: String)
    ensures
        text@ == quoted_path(path@),
{
    let bytes = path.as_bytes_vec();
    let ghost all = encode_utf8(path@);
    let mut special = false;
    let mut i: usize = 0;
    while i < bytes.len()
        invariant
            i <= bytes@.len(),
            bytes@ == all,
            all == encode_utf8(path@),
            special ==> needs_quotes(path@),
            !special ==> forall|j: int| 0 <= j < i ==> !is_special(#[trigger] all[j]),
        decreases bytes@.len() - i,
    {
        let byte: u8 = bytes[i];
        if byte < 0x20 || byte >= 0x7f || byte == 34 || byte == 92 {
            assert(is_special(encode_utf8(path@)[i as int]));
            special = true;
        }
        i = i + 1;
    }
    if !special {
        return path.to_owned();
    }
    let mut text = String::new();
    text.push('"');
    assert(text@ =~= seq!['"']);
    let mut k: usize = 0;
    while k < bytes.len()
        invariant
            k <= bytes@.len(),
            bytes@ == all,
            text@ + written_from(all, k as int) == seq!['"'] + written_from(all, 0),
        decreases bytes@.len() - k,
    {
        let ghost before = text@;
        push_written_byte(&mut text, bytes[k]);
        assert(text@ + written_from(all, k + 1) =~= before + (written_byte(all[k as int])
            + written_from(all, k + 1)));
        k = k + 1;
    }
    assert(text@ + written_from(all, k as int) =~= text@);
    text.push('"');
    assert(text@ =~= quoted_path(path@));
    text
}

/// Reads the first word from a position on, whole where it is quoted.
pub fn read_word(chars: &[char], from: usize) -> (word: Option<(usize, usize)>)
    requires
        from <= chars@.len(),
    ensures
        match word {
            Some((start, end)) => start <= end <= chars@.len() && quoted_word(
                chars@,
                from as int,
            ) == Some((chars@.subrange(start as int, end as int), end as int)),
            None => quoted_word(chars@, from as int) is None,
        },
{
    let start: usize = white_position(chars, false, from);
    if start >= chars.len() {
        return None;
    }
    if chars[start] == '"' {
        if let Some((_, end)) = read_quoted(chars, start + 1) {
            proof {
                quoted_bytes_move_on(chars@, start + 1);
            }
            if end == chars.len() || chars[end].is_whitespace() {
                return Some((start, end));
            }
        }
    }
    Some((start, white_position(chars, true, start)))
}

proof fn quoted_bytes_move_on(s: Seq<char>, from: int)
    ensures
        match quoted_bytes(s, from) {
            Some((_, end)) => from < end <= s.len(),
            None => true,
        },
    decreases s.len() - from,
{
    if 0 <= from < s.len() && s[from] != '"' {
        if s[from] != '\\' {
            quoted_bytes_move_on(s, from + 1);
        } else if from + 1 < s.len() {
            quoted_bytes_move_on(s, from + 2);
            if from + 3 < s.len() {
                quoted_bytes_move_on(s, from + 4);
            }
        }
    }
}

/// Where there are two words that may be quoted, there are two words.
pub proof fn quoted_words_are_words(s: Seq<char>)
    requires
        two_quoted_words(s) is Some,
    ensures
        words_of(s).len() >= 2,
{
    white_from_bounds(s, false, 0);
    let start = white_from(s, false, 0);
    let end = word_end(s, start);
    white_from_bounds(s, true, start);
    quoted_bytes_move_on(s, start + 1);
    let first_end = white_from(s, true, start);
    if first_end > end {
        first_white_is_first(s, true, start, end);
    }
    white_from_bounds(s, false, end);
    let next = white_from(s, false, end);
    white_from_bounds(s, false, first_end);
    if white_from(s, false, first_end) >= s.len() {
        first_white_is_first(s, false, first_end, next);
    }
    assert(words_from(s, first_end).len() >= 1);
    assert(words_from(s, 0) == seq![s.subrange(start, first_end)] + words_from(s, first_end));
}

proof fn ascii_char_bytes(byte: u8)
    requires
        byte < 0x80,
    ensures
        encode_utf8(seq![byte as char]) == seq![byte],
{
    let one = seq![byte as char];
    assert(is_ascii_chars(one));
    is_ascii_chars_encode_utf8(one);
    assert(encode_utf8(one) =~= seq![byte]);
}

proof fn octal_digits_make_up_byte(byte: u8)
    ensures
        octal_byte(
            octal_digit(byte as int / 64),
            octal_digit(byte as int / 8 % 8),
            octal_digit(byte as int % 8),
        ) == Some(byte),
{
    let (a, b, c) = (byte as int / 64, byte as int / 8 % 8, byte as int % 8);
    assert(0 <= a <= 3 && 0 <= b <= 7 && 0 <= c <= 7);
    assert(byte == a * 64 + b * 8 + c);
    assert(octal_digit(a) as int == 48 + a);
    assert(octal_digit(b) as int == 48 + b);
    assert(octal_digit(c) as int == 48 + c);
}

/// Written bytes are read back up to the quote behind them, wherever they stand.
proof fn written_bytes_are_read(s: Seq<char>, at: int, bytes: Seq<u8>, from: int)
    requires
        0 <= at,
        0 <= from <= bytes.len(),
        at + written_from(bytes, from).len() < s.len(),
        s.subrange(at, at + written_from(bytes, from).len()) == written_from(bytes, from),
        s[at + written_from(bytes, from).len()] == '"',
    ensures
        quoted_bytes(s, at) == Some(
            (bytes.skip(from), at + written_from(bytes, from).len() + 1),
        ),
    decreases bytes.len() - from,
{
    let all = written_from(bytes, from);
    if from == bytes.len() {
        assert(bytes.skip(from) =~= seq![]);
    } else {
        let byte = bytes[from];
        let first = written_byte(byte);
        let rest = written_from(bytes, from + 1);
        assert(all =~= first + rest);
        let shown = s.subrange(at, at + all.len());
        assert forall|i: int| 0 <= i < first.len() implies s[at + i] == #[trigger] first[i] by {
            assert(shown[i] == s[at + i]);
        }
        assert(s.subrange(at + first.len(), at + first.len() + rest.len()) =~= rest) by {
            assert forall|i: int| 0 <= i < rest.len() implies s[at + first.len() + i]
                == rest[i] by {
                assert(shown[first.len() + i] == s[at + first.len() + i]);
            }
        }
        written_bytes_are_read(s, at + first.len(), bytes, from + 1);
        assert(bytes.skip(from) =~= seq![byte] + bytes.skip(from + 1));
        assert(s[at] == first[0]);
        if !is_special(byte) {
            ascii_char_bytes(byte);
        } else {
            assert(s[at + 1] == first[1]);
            if first.len() == 4 {
                octal_digits_make_up_byte(byte);
                assert(s[at + 2] == first[2]);
                assert(s[at + 3] == first[3]);
                assert(is_octal(s[at + 1]));
            }
        }
    }
}

/// A path between quotes is read up to its closing quote, wherever it stands.
pub proof fn quoted_text_is_read(s: Seq<char>, at: int, path: Seq<char>)
    requires
        needs_quotes(path),
        0 <= at,
        at + quoted_path(path).len() <= s.len(),
        s.subrange(at, at + quoted_path(path).len()) == quoted_path(path),
    ensures
        s[at] == '"',
        quoted_bytes(s, at + 1) == Some((encode_utf8(path), at + quoted_path(path).len())),
{
    let bytes = encode_utf8(path);
    let word = quoted_path(path);
    let inner = written_from(bytes, 0);
    let shown = s.subrange(at, at + word.len());
    assert(word.len() == inner.len() + 2);
    assert(s[at] == shown[0]);
    assert(s.subrange(at + 1, at + 1 + inner.len()) =~= inner) by {
        assert forall|i: int| 0 <= i < inner.len() implies s[at + 1 + i] == inner[i] by {
            assert(shown[i + 1] == s[at + 1 + i]);
        }
    }
    assert(s[at + 1 + inner.len()] == shown[inner.len() as int + 1]);
    written_bytes_are_read(s, at + 1, bytes, 0);
    assert(bytes.skip(0) =~= bytes);
}

/// A path that Git does not quote holds no quote.
pub proof fn quote_is_special(path: Seq<char>)
    requires
        !needs_quotes(path),
    ensures
        forall|i: int| 0 <= i < path.len() ==> #[trigger] path[i] != '"',
    decreases path.len(),
{
    let bytes = encode_utf8(path);
    if path.len() > 0 {
        let first = encode_scalar(path[0] as u32);
        let rest = path.drop_first();
        assert(bytes == first + encode_utf8(rest));
        if needs_quotes(rest) {
            let i = choose|i: int|
                0 <= i < encode_utf8(rest).len() && is_special(#[trigger] encode_utf8(rest)[i]);
            assert(encode_utf8(path)[first.len() + i] == encode_utf8(rest)[i]);
        }
        quote_is_special(rest);
        if path[0] == '"' {
            ascii_char_bytes(34u8);
            let one = seq!['"'];
            assert(one.drop_first() =~= seq![]);
            assert(encode_utf8(one) =~= first);
            assert(is_special(encode_utf8(path)[0]));
        }
        assert forall|i: int| 0 <= i < path.len() implies #[trigger] path[i] != '"' by {
            if i > 0 {
                assert(path[i] == rest[i - 1]);
            }
        }
    }
}

/// A path that Git quotes is read back from its quotes, and one that it does not quote
/// is no quoted path: either way the path itself comes back.
pub proof fn quoting_is_undone(path: Seq<char>)
    ensures
        plain_path(quoted_path(path)) == path,
        needs_quotes(path) ==> unquoted(quoted_path(path)) == Some(path),
        !needs_quotes(path) ==> unquoted(quoted_path(path)) is None,
{
    let s = quoted_path(path);
    if needs_quotes(path) {
        assert(s.subrange(0, s.len() as int) =~= s);
        quoted_text_is_read(s, 0, path);
        encode_utf8_valid_utf8(path);
        encode_utf8_decode_utf8(path);
    } else {
        quote_is_special(path);
    }
}

} // verus!
